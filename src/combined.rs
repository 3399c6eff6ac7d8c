use vstd::prelude::*;

use crate::action::{Action, ActionResult};

verus! {

/// Undoes `actions[k - 1]`, then `actions[k - 2]`, down to `actions[0]`,
/// stopping at the first undo that fails; the world that is left.
pub open spec fn unwind_undo<W: View, A: Action<W>>(actions: Seq<A>, k: nat, world: W::V) -> W::V
    decreases k,
{
    if k == 0 || k > actions.len() {
        world
    } else {
        let (w, r) = actions[k - 1].undo_spec(world);
        if r == ActionResult::Failed {
            w
        } else {
            unwind_undo::<W, A>(actions, (k - 1) as nat, w)
        }
    }
}

/// Redoes `actions[i..]` in order. On the first failure, the actions before it,
/// which all succeeded, are undone in reverse order and the result is `Failed`.
pub open spec fn redo_from<W: View, A: Action<W>>(actions: Seq<A>, i: nat, world: W::V) -> (
    W::V,
    ActionResult,
)
    decreases actions.len() - i,
{
    if i >= actions.len() {
        (world, ActionResult::Success)
    } else {
        let (w, r) = actions[i as int].redo_spec(world);
        if r == ActionResult::Failed {
            (unwind_undo::<W, A>(actions, i, w), ActionResult::Failed)
        } else {
            redo_from::<W, A>(actions, i + 1, w)
        }
    }
}

/// Redoes `actions[i]`, then `actions[i + 1]`, up to the last action,
/// stopping at the first redo that fails; the world that is left.
pub open spec fn rewind_redo<W: View, A: Action<W>>(actions: Seq<A>, i: nat, world: W::V) -> W::V
    decreases actions.len() - i,
{
    if i >= actions.len() {
        world
    } else {
        let (w, r) = actions[i as int].redo_spec(world);
        if r == ActionResult::Failed {
            w
        } else {
            rewind_redo::<W, A>(actions, i + 1, w)
        }
    }
}

/// Undoes `actions[k - 1]`, then `actions[k - 2]`, down to `actions[0]`. On the
/// first failure, the actions after it, which were all undone, are redone in
/// order and the result is `Failed`.
pub open spec fn undo_from<W: View, A: Action<W>>(actions: Seq<A>, k: nat, world: W::V) -> (
    W::V,
    ActionResult,
)
    decreases k,
{
    if k == 0 || k > actions.len() {
        (world, ActionResult::Success)
    } else {
        let (w, r) = actions[k - 1].undo_spec(world);
        if r == ActionResult::Failed {
            (rewind_redo::<W, A>(actions, k, w), ActionResult::Failed)
        } else {
            undo_from::<W, A>(actions, (k - 1) as nat, w)
        }
    }
}

/// Several actions applied as one.
///
/// Redo applies the actions in order; when one fails, those applied before it
/// are undone in reverse order. Undo undoes them in reverse order; when one
/// fails, those undone before it are redone in order. Either way the result is
/// then `Failed`, and the world is back where it started unless one of those
/// compensating calls failed too, in which case they stop there.
pub struct CombinedAction<A>(pub Vec<A>);

impl<W: View, A: Action<W>> Action<W> for CombinedAction<A> {
    open spec fn redo_spec(&self, world: W::V) -> (W::V, ActionResult) {
        redo_from::<W, A>(self.0@, 0, world)
    }

    open spec fn undo_spec(&self, world: W::V) -> (W::V, ActionResult) {
        undo_from::<W, A>(self.0@, self.0@.len(), world)
    }

    fn redo(&self, world: &mut W) -> (r: ActionResult) {
        let n = self.0.len();
        let mut i: usize = 0;
        while i < n
            invariant
                i <= n,
                n == self.0@.len(),
                redo_from::<W, A>(self.0@, 0, old(world)@) == redo_from::<W, A>(self.0@, i as nat, world@),
            decreases n - i,
        {
            let r = self.0[i].redo(world);
            if r == ActionResult::Failed {
                let mut j: usize = i;
                while j > 0
                    invariant
                        j <= i,
                        i < n,
                        n == self.0@.len(),
                        redo_from::<W, A>(self.0@, 0, old(world)@) == (
                            unwind_undo::<W, A>(self.0@, j as nat, world@),
                            ActionResult::Failed,
                        ),
                    decreases j,
                {
                    j = j - 1;
                    let u = self.0[j].undo(world);
                    if u == ActionResult::Failed {
                        return ActionResult::Failed;
                    }
                }
                return ActionResult::Failed;
            }
            i = i + 1;
        }
        ActionResult::Success
    }

    fn undo(&self, world: &mut W) -> (r: ActionResult) {
        let n = self.0.len();
        let mut k: usize = n;
        while k > 0
            invariant
                k <= n,
                n == self.0@.len(),
                undo_from::<W, A>(self.0@, n as nat, old(world)@) == undo_from::<W, A>(self.0@, k as nat, world@),
            decreases k,
        {
            let r = self.0[k - 1].undo(world);
            if r == ActionResult::Failed {
                let mut i: usize = k;
                while i < n
                    invariant
                        k <= i <= n,
                        n == self.0@.len(),
                        undo_from::<W, A>(self.0@, n as nat, old(world)@) == (
                            rewind_redo::<W, A>(self.0@, i as nat, world@),
                            ActionResult::Failed,
                        ),
                    decreases n - i,
                {
                    let u = self.0[i].redo(world);
                    if u == ActionResult::Failed {
                        return ActionResult::Failed;
                    }
                    i = i + 1;
                }
                return ActionResult::Failed;
            }
            k = k - 1;
        }
        ActionResult::Success
    }
}

/// A combined action of three actions that each succeed in turn does, when
/// redone, what redoing them one after the other does.
pub proof fn lemma_combined_all_succeed<W: View, A: Action<W>>(
    combined: CombinedAction<A>,
    a: A,
    b: A,
    c: A,
    w0: W::V,
    w1: W::V,
    w2: W::V,
    w3: W::V,
)
    requires
        combined.0@ == seq![a, b, c],
        a.redo_spec(w0) == (w1, ActionResult::Success),
        b.redo_spec(w1) == (w2, ActionResult::Success),
        c.redo_spec(w2) == (w3, ActionResult::Success),
    ensures
        <CombinedAction<A> as Action<W>>::redo_spec(&combined, w0) == (w3, ActionResult::Success),
{
    let s = combined.0@;
    assert(redo_from::<W, A>(s, 3, w3) == (w3, ActionResult::Success));
    assert(redo_from::<W, A>(s, 2, w2) == (w3, ActionResult::Success));
    assert(redo_from::<W, A>(s, 1, w1) == (w3, ActionResult::Success));
}

/// When `a` succeeds and `b` then fails, redoing the combined action `[a, b]`
/// fails, and undoes `a` exactly once: where that undo restores the world,
/// the world ends as it was before.
pub proof fn lemma_combined_unwinds<W: View, A: Action<W>>(
    combined: CombinedAction<A>,
    a: A,
    b: A,
    w0: W::V,
    w1: W::V,
    w2: W::V,
)
    requires
        combined.0@ == seq![a, b],
        a.redo_spec(w0) == (w1, ActionResult::Success),
        b.redo_spec(w1) == (w2, ActionResult::Failed),
        a.undo_spec(w2) == (w0, ActionResult::Success),
    ensures
        <CombinedAction<A> as Action<W>>::redo_spec(&combined, w0) == (
            a.undo_spec(w2).0,
            ActionResult::Failed,
        ),
        <CombinedAction<A> as Action<W>>::redo_spec(&combined, w0) == (w0, ActionResult::Failed),
{
    let s = combined.0@;
    assert(unwind_undo::<W, A>(s, 0, w0) == w0);
    assert(unwind_undo::<W, A>(s, 1, w2) == w0);
    assert(redo_from::<W, A>(s, 1, w1) == (w0, ActionResult::Failed));
}

} // verus!
