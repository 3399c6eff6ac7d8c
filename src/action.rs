use vstd::prelude::*;

verus! {

/// The result of redoing or undoing an action.
#[derive(Debug, Clone, Copy, PartialEq, Eq, Hash, Structural)]
pub enum ActionResult {
    /// Failed to apply.
    Failed,
    /// Applied successfully.
    Success,
}

/// Implemented by types that define an action that can be redone and undone
/// against a shared world of type `W`.
///
/// What an action does is a function of the action and of the world's view
/// alone: `redo_spec` and `undo_spec` give the world after the call and the
/// result it reports.
pub trait Action<W: View>: Send + Sync {
    /// The world and the result after redoing this action on `world`.
    spec fn redo_spec(&self, world: W::V) -> (W::V, ActionResult);

    /// The world and the result after undoing this action on `world`.
    spec fn undo_spec(&self, world: W::V) -> (W::V, ActionResult);

    /// Redoes the action.
    fn redo(&self, world: &mut W) -> (r: ActionResult)
        ensures
            (final(world)@, r) == self.redo_spec(old(world)@),
    ;

    /// Undoes the action.
    fn undo(&self, world: &mut W) -> (r: ActionResult)
        ensures
            (final(world)@, r) == self.undo_spec(old(world)@),
    ;
}

/// An action of any kind, owned on the heap.
pub type BoxedAction<W> = Box<dyn Action<W>>;

impl<W: View> Action<W> for BoxedAction<W> {
    open spec fn redo_spec(&self, world: W::V) -> (W::V, ActionResult) {
        (**self).redo_spec(world)
    }

    open spec fn undo_spec(&self, world: W::V) -> (W::V, ActionResult) {
        (**self).undo_spec(world)
    }

    fn redo(&self, world: &mut W) -> (r: ActionResult) {
        (**self).redo(world)
    }

    fn undo(&self, world: &mut W) -> (r: ActionResult) {
        (**self).undo(world)
    }
}

} // verus!
