use std::sync::atomic::{AtomicUsize, Ordering};
use std::sync::Arc;

use archean_editor::action::{Action, ActionResult, BoxedAction};
use archean_editor::combined::CombinedAction;
use archean_editor::selection::Selection;
use vstd::set::Set;

/// Selects an entity that is not selected yet (fails otherwise); counts the
/// calls of each kind.
struct Insert {
    entity: u64,
    redos: Arc<AtomicUsize>,
    undos: Arc<AtomicUsize>,
}

fn insert(entity: u64) -> Insert {
    Insert { entity, redos: Arc::new(AtomicUsize::new(0)), undos: Arc::new(AtomicUsize::new(0)) }
}

impl Action<Selection> for Insert {
    // The world model is used only when the library is verified.
    fn redo_spec(&self, _world: Set<u64>) -> (Set<u64>, ActionResult) {
        unreachable!()
    }

    fn undo_spec(&self, _world: Set<u64>) -> (Set<u64>, ActionResult) {
        unreachable!()
    }

    fn redo(&self, world: &mut Selection) -> ActionResult {
        self.redos.fetch_add(1, Ordering::SeqCst);
        if world.contains(self.entity) {
            ActionResult::Failed
        } else {
            world.insert(self.entity);
            ActionResult::Success
        }
    }

    fn undo(&self, world: &mut Selection) -> ActionResult {
        self.undos.fetch_add(1, Ordering::SeqCst);
        if world.contains(self.entity) {
            world.remove(self.entity);
            ActionResult::Success
        } else {
            ActionResult::Failed
        }
    }
}

/// Never applies.
struct Refuse;

impl Action<Selection> for Refuse {
    // The world model is used only when the library is verified.
    fn redo_spec(&self, _world: Set<u64>) -> (Set<u64>, ActionResult) {
        unreachable!()
    }

    fn undo_spec(&self, _world: Set<u64>) -> (Set<u64>, ActionResult) {
        unreachable!()
    }

    fn redo(&self, _world: &mut Selection) -> ActionResult {
        ActionResult::Failed
    }

    fn undo(&self, _world: &mut Selection) -> ActionResult {
        ActionResult::Failed
    }
}

/// Selects an entity and cannot be undone.
struct NoUndo(u64);

impl Action<Selection> for NoUndo {
    // The world model is used only when the library is verified.
    fn redo_spec(&self, _world: Set<u64>) -> (Set<u64>, ActionResult) {
        unreachable!()
    }

    fn undo_spec(&self, _world: Set<u64>) -> (Set<u64>, ActionResult) {
        unreachable!()
    }

    fn redo(&self, world: &mut Selection) -> ActionResult {
        world.insert(self.0);
        ActionResult::Success
    }

    fn undo(&self, _world: &mut Selection) -> ActionResult {
        ActionResult::Failed
    }
}

fn members(s: &Selection, upto: u64) -> Vec<u64> {
    (0..upto).filter(|e| s.contains(*e)).collect()
}

#[test]
fn combined_redo_applies_all_in_order() {
    let mut one_by_one = Selection::new();
    for a in [insert(1), insert(2), insert(3)] {
        assert_eq!(a.redo(&mut one_by_one), ActionResult::Success);
    }
    let mut world = Selection::new();
    let c = CombinedAction(vec![insert(1), insert(2), insert(3)]);
    assert_eq!(c.redo(&mut world), ActionResult::Success);
    assert_eq!(members(&world, 10), members(&one_by_one, 10));
    assert_eq!(members(&world, 10), vec![1, 2, 3]);
    assert_eq!(c.undo(&mut world), ActionResult::Success);
    assert_eq!(members(&world, 10), Vec::<u64>::new());
}

#[test]
fn combined_redo_unwinds_after_a_failure() {
    let a = insert(1);
    let a_undos = a.undos.clone();
    let c: CombinedAction<BoxedAction<Selection>> = CombinedAction(vec![Box::new(a), Box::new(Refuse)]);
    let mut world = Selection::new();
    world.insert(8);
    assert_eq!(c.redo(&mut world), ActionResult::Failed);
    assert_eq!(members(&world, 10), vec![8]);
    assert_eq!(a_undos.load(Ordering::SeqCst), 1);
}

#[test]
fn combined_redo_failing_first_undoes_nothing() {
    let b = insert(2);
    let b_redos = b.redos.clone();
    let b_undos = b.undos.clone();
    let c: CombinedAction<BoxedAction<Selection>> = CombinedAction(vec![Box::new(Refuse), Box::new(b)]);
    let mut world = Selection::new();
    assert_eq!(c.redo(&mut world), ActionResult::Failed);
    assert_eq!(members(&world, 10), Vec::<u64>::new());
    assert_eq!(b_redos.load(Ordering::SeqCst), 0);
    assert_eq!(b_undos.load(Ordering::SeqCst), 0);
}

#[test]
fn combined_redo_unwinds_every_applied_action_in_reverse() {
    // The third action fails because 1 is already selected by the first; both
    // earlier ones are undone.
    let c = CombinedAction(vec![insert(1), insert(2), insert(1)]);
    let mut world = Selection::new();
    assert_eq!(c.redo(&mut world), ActionResult::Failed);
    assert_eq!(members(&world, 10), Vec::<u64>::new());
    assert_eq!(c.0[0].undos.load(Ordering::SeqCst), 1);
    assert_eq!(c.0[1].undos.load(Ordering::SeqCst), 1);
    assert_eq!(c.0[2].undos.load(Ordering::SeqCst), 0);
}

#[test]
fn combined_redo_stops_when_unwinding_fails() {
    let first = insert(1);
    let first_undos = first.undos.clone();
    let c: CombinedAction<BoxedAction<Selection>> =
        CombinedAction(vec![Box::new(first), Box::new(NoUndo(2)), Box::new(Refuse)]);
    let mut world = Selection::new();
    assert_eq!(c.redo(&mut world), ActionResult::Failed);
    // The unwind stopped at the second action: the first stays applied.
    assert_eq!(members(&world, 10), vec![1, 2]);
    assert_eq!(first_undos.load(Ordering::SeqCst), 0);
}

#[test]
fn combined_undo_redoes_what_it_undid_after_a_failure() {
    let c = CombinedAction(vec![insert(1), insert(2), insert(3)]);
    let mut world = Selection::new();
    assert_eq!(c.redo(&mut world), ActionResult::Success);
    // Take 1 away: undoing the whole fails at the first action, after 3 and 2
    // were undone; those two are redone.
    world.remove(1);
    assert_eq!(c.undo(&mut world), ActionResult::Failed);
    assert_eq!(members(&world, 10), vec![2, 3]);
    assert_eq!(c.0[1].redos.load(Ordering::SeqCst), 2);
    assert_eq!(c.0[2].redos.load(Ordering::SeqCst), 2);
    assert_eq!(c.0[0].redos.load(Ordering::SeqCst), 1);
}

#[test]
fn empty_combined_action_succeeds_and_changes_nothing() {
    let c: CombinedAction<BoxedAction<Selection>> = CombinedAction(Vec::new());
    let mut world = Selection::new();
    world.insert(4);
    assert_eq!(c.redo(&mut world), ActionResult::Success);
    assert_eq!(c.undo(&mut world), ActionResult::Success);
    assert_eq!(members(&world, 10), vec![4]);
}
