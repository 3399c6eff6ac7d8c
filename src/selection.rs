use vstd::prelude::*;

use std::collections::HashSet;

use crate::action::{Action, ActionResult};
use crate::combined::{redo_from, CombinedAction};

verus! {

broadcast use vstd::std_specs::hash::group_hash_axioms;

/// The set of selected entities, each known by its 64-bit identifier.
pub struct Selection {
    selected: HashSet<u64>,
}

impl View for Selection {
    type V = Set<u64>;

    closed spec fn view(&self) -> Set<u64> {
        self.selected@
    }
}

impl Default for Selection {
    fn default() -> (s: Selection)
        ensures
            s@ == Set::<u64>::empty(),
    {
        Selection::new()
    }
}

/// `selected` with the membership of `entity` flipped.
pub open spec fn toggled(selected: Set<u64>, entity: u64) -> Set<u64> {
    if selected.contains(entity) {
        selected.remove(entity)
    } else {
        selected.insert(entity)
    }
}

impl Selection {
    /// An empty selection.
    pub fn new() -> (s: Selection)
        ensures
            s@ == Set::<u64>::empty(),
    {
        Selection { selected: HashSet::new() }
    }

    /// Whether `entity` is selected.
    pub fn contains(&self, entity: u64) -> (r: bool)
        ensures
            r == self@.contains(entity),
    {
        self.selected.contains(&entity)
    }

    /// How many entities are selected.
    pub fn len(&self) -> (r: usize)
        ensures
            r == self@.len(),
    {
        self.selected.len()
    }

    /// Marks `entity` as selected.
    pub fn insert(&mut self, entity: u64)
        ensures
            final(self)@ == old(self)@.insert(entity),
    {
        self.selected.insert(entity);
    }

    /// Marks `entity` as not selected.
    pub fn remove(&mut self, entity: u64)
        ensures
            final(self)@ == old(self)@.remove(entity),
    {
        self.selected.remove(&entity);
    }
}

/// Toggles whether an entity is selected.
pub struct SelectionAction(pub u64);

impl Action<Selection> for SelectionAction {
    open spec fn redo_spec(&self, world: Set<u64>) -> (Set<u64>, ActionResult) {
        (toggled(world, self.0), ActionResult::Success)
    }

    open spec fn undo_spec(&self, world: Set<u64>) -> (Set<u64>, ActionResult) {
        self.redo_spec(world)
    }

    fn redo(&self, world: &mut Selection) -> (r: ActionResult) {
        if world.contains(self.0) {
            world.remove(self.0);
        } else {
            world.insert(self.0);
        }
        ActionResult::Success
    }

    fn undo(&self, world: &mut Selection) -> (r: ActionResult) {
        self.redo(world)
    }
}

/// The toggles for `entities`, one for each, in order.
pub open spec fn toggles(entities: Seq<u64>) -> Seq<SelectionAction> {
    entities.map_values(|e: u64| SelectionAction(e))
}

/// The action that a click on `clicked` asks for; only a click of the primary
/// button asks for one. With `extend` (the selection is being extended) the
/// click toggles `clicked` alone. Without it, each entity of `selected` (those
/// selected now) is toggled, then `clicked`: the selection is replaced.
pub fn select_entity(primary: bool, extend: bool, selected: &Vec<u64>, clicked: u64) -> (r: Option<
    CombinedAction<SelectionAction>,
>)
    ensures
        !primary ==> r is None,
        primary && extend ==> r is Some && r.unwrap().0@ == seq![SelectionAction(clicked)],
        primary && !extend ==> r is Some && r.unwrap().0@ == toggles(selected@).push(
            SelectionAction(clicked),
        ),
{
    if !primary {
        return None;
    }
    let mut actions: Vec<SelectionAction> = Vec::new();
    if !extend {
        let mut i: usize = 0;
        while i < selected.len()
            invariant
                i <= selected@.len(),
                actions@ == toggles(selected@.take(i as int)),
            decreases selected@.len() - i,
        {
            actions.push(SelectionAction(selected[i]));
            assert(selected@.take(i + 1) =~= selected@.take(i as int).push(selected@[i as int]));
            assert(actions@ =~= toggles(selected@.take(i + 1)));
            i = i + 1;
        }
        assert(selected@.take(selected@.len() as int) =~= selected@);
    }
    actions.push(SelectionAction(clicked));
    proof {
        if extend {
            assert(actions@ =~= seq![SelectionAction(clicked)]);
        }
    }
    Some(CombinedAction(actions))
}

/// Redoing the toggles of `selected[i..]`, then of `clicked`, on the selection
/// made of `selected[i..]` leaves `clicked` alone selected.
proof fn lemma_toggles_from(selected: Seq<u64>, clicked: u64, actions: Seq<SelectionAction>, i: int)
    requires
        selected.no_duplicates(),
        0 <= i <= selected.len(),
        actions == toggles(selected).push(SelectionAction(clicked)),
    ensures
        redo_from::<Selection, SelectionAction>(actions, i as nat, selected.skip(i).to_set()) == (
            set![clicked],
            ActionResult::Success,
        ),
    decreases selected.len() - i,
{
    let n = selected.len();
    if i == n {
        assert(selected.skip(i).to_set() =~= Set::<u64>::empty());
        assert(toggled(Set::<u64>::empty(), clicked) =~= set![clicked]);
        assert(redo_from::<Selection, SelectionAction>(actions, (n + 1) as nat, set![clicked]) == (
            set![clicked],
            ActionResult::Success,
        ));
    } else {
        lemma_toggles_from(selected, clicked, actions, i + 1);
        let e = selected[i];
        let here = selected.skip(i).to_set();
        let rest = selected.skip(i + 1).to_set();
        assert(selected.skip(i)[0] == e);
        assert(here.contains(e));
        assert forall|x: u64| #[trigger] rest.contains(x) <==> here.contains(x) && x != e by {
            if rest.contains(x) {
                let k = choose|k: int|
                    0 <= k < selected.skip(i + 1).len() && #[trigger] selected.skip(i + 1)[k] == x;
                assert(selected.skip(i)[k + 1] == x);
                assert(selected[i + 1 + k] == x);
            }
            if here.contains(x) && x != e {
                let k = choose|k: int|
                    0 <= k < selected.skip(i).len() && #[trigger] selected.skip(i)[k] == x;
                assert(k != 0);
                assert(selected.skip(i + 1)[k - 1] == x);
            }
        }
        assert(toggled(here, e) =~= rest);
        assert(actions[i] == SelectionAction(e));
    }
}

/// A plain click replaces the selection: when `selected` lists each selected
/// entity once, redoing the action asked for leaves `clicked` as the only
/// selected entity.
pub proof fn lemma_plain_click_selects_only_clicked(
    selected: Seq<u64>,
    clicked: u64,
    world: Set<u64>,
    action: CombinedAction<SelectionAction>,
)
    requires
        selected.no_duplicates(),
        selected.to_set() == world,
        action.0@ == toggles(selected).push(SelectionAction(clicked)),
    ensures
        action.redo_spec(world) == (set![clicked], ActionResult::Success),
{
    lemma_toggles_from(selected, clicked, action.0@, 0);
    assert(selected.skip(0) =~= selected);
}

/// Toggling never fails. Once flips whether the entity is selected and leaves
/// every other entity as it was; undoing it after redoing it restores the
/// selection.
pub proof fn lemma_toggle_self_inverse(action: SelectionAction, selected: Set<u64>)
    ensures
        action.redo_spec(selected).1 == ActionResult::Success,
        action.undo_spec(selected).1 == ActionResult::Success,
        action.redo_spec(selected).0.contains(action.0) == !selected.contains(action.0),
        forall|e: u64|
            e != action.0 ==> (#[trigger] action.redo_spec(selected).0.contains(e)
                == selected.contains(e)),
        action.undo_spec(action.redo_spec(selected).0) == (selected, ActionResult::Success),
{
    assert(toggled(toggled(selected, action.0), action.0) =~= selected);
}

} // verus!
