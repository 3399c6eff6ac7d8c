use vstd::prelude::*;

use crate::action::{Action, ActionResult};

verus! {

/// What an [`ActionHistory`] holds: the log of actions and the cursor.
///
/// `log[..current]` are the actions whose effect the world shows, in the order
/// they were applied; `log[current..]` were undone and can be redone until a
/// new push replaces them.
pub struct HistoryView<A> {
    pub log: Seq<A>,
    pub current: nat,
}

impl<A> HistoryView<A> {
    /// The cursor lies within the log.
    pub open spec fn wf(self) -> bool {
        self.current <= self.log.len()
    }

    /// Pushing `action` on `world`: the action is redone at once. On success the
    /// undone tail of the log is dropped, the action appended and the cursor
    /// moved past it; on failure the history stays as it was.
    pub open spec fn push_spec<W: View>(self, action: A, world: W::V) -> (Self, W::V, ActionResult)
        where A: Action<W>,
    {
        let (w, r) = action.redo_spec(world);
        if r == ActionResult::Success {
            let log = self.log.take(self.current as int).push(action);
            (HistoryView { log, current: log.len() }, w, r)
        } else {
            (self, w, r)
        }
    }

    /// Redoing: nothing happens (`None`) when the cursor is at the end of the
    /// log; else the entry at the cursor is redone and, on success, the cursor
    /// moves forward by one.
    pub open spec fn redo_spec<W: View>(self, world: W::V) -> (Self, W::V, Option<ActionResult>)
        where A: Action<W>,
    {
        if self.current >= self.log.len() {
            (self, world, None)
        } else {
            let (w, r) = self.log[self.current as int].redo_spec(world);
            if r == ActionResult::Success {
                (HistoryView { current: self.current + 1, ..self }, w, Some(r))
            } else {
                (self, w, Some(r))
            }
        }
    }

    /// Undoing: nothing happens (`None`) when the cursor is at the start of the
    /// log; else the entry before the cursor is undone and, on success, the
    /// cursor moves back by one.
    pub open spec fn undo_spec<W: View>(self, world: W::V) -> (Self, W::V, Option<ActionResult>)
        where A: Action<W>,
    {
        if self.current == 0 || self.current > self.log.len() {
            (self, world, None)
        } else {
            let (w, r) = self.log[self.current - 1].undo_spec(world);
            if r == ActionResult::Success {
                (HistoryView { current: (self.current - 1) as nat, ..self }, w, Some(r))
            } else {
                (self, w, Some(r))
            }
        }
    }
}

/// A request to an [`ActionHistory`].
pub enum ActionMessage<A> {
    /// Pushes a new action, overwriting any actions that could have been redone.
    Push(A),
    /// Redoes an undone action, if possible.
    Redo,
    /// Undoes an action, if possible.
    Undo,
}

impl<A> HistoryView<A> {
    /// Handling one message: what the matching call of push, redo or undo does.
    /// A push always reports a result.
    pub open spec fn message_spec<W: View>(self, message: ActionMessage<A>, world: W::V) -> (
        Self,
        W::V,
        Option<ActionResult>,
    )
        where A: Action<W>,
    {
        match message {
            ActionMessage::Push(action) => {
                let (h, w, r) = self.push_spec::<W>(action, world);
                (h, w, Some(r))
            },
            ActionMessage::Redo => self.redo_spec::<W>(world),
            ActionMessage::Undo => self.undo_spec::<W>(world),
        }
    }

    /// Handling `messages` in order, each on the history and world that the one
    /// before left; the results, one for each message.
    pub open spec fn messages_spec<W: View>(self, messages: Seq<ActionMessage<A>>, world: W::V) -> (
        Self,
        W::V,
        Seq<Option<ActionResult>>,
    )
        where A: Action<W>,
        decreases messages.len(),
    {
        if messages.len() == 0 {
            (self, world, Seq::empty())
        } else {
            let (h, w, rs) = self.messages_spec::<W>(messages.drop_last(), world);
            let (h2, w2, r) = h.message_spec::<W>(messages.last(), w);
            (h2, w2, rs.push(r))
        }
    }
}

/// A log of actions and a cursor into it, giving linear undo and redo.
pub struct ActionHistory<A> {
    history: Vec<A>,
    current: usize,
}

impl<A> View for ActionHistory<A> {
    type V = HistoryView<A>;

    closed spec fn view(&self) -> HistoryView<A> {
        HistoryView { log: self.history@, current: self.current as nat }
    }
}

impl<A> Default for ActionHistory<A> {
    fn default() -> (h: Self)
        ensures
            h@.log == Seq::<A>::empty(),
            h@.current == 0,
    {
        ActionHistory::new()
    }
}

impl<A> ActionHistory<A> {
    /// An empty history.
    pub fn new() -> (h: Self)
        ensures
            h@.log == Seq::<A>::empty(),
            h@.current == 0,
            h@.wf(),
    {
        ActionHistory { history: Vec::new(), current: 0 }
    }

    /// The cursor: how many entries of the log the world shows.
    pub fn current(&self) -> (r: usize)
        ensures
            r == self@.current,
    {
        self.current
    }

    /// How many entries the log holds, undone ones included.
    pub fn len(&self) -> (r: usize)
        ensures
            r == self@.log.len(),
    {
        self.history.len()
    }

    /// Forgets every action; the world is not touched.
    pub fn clear(&mut self)
        ensures
            final(self)@.log == Seq::<A>::empty(),
            final(self)@.current == 0,
            final(self)@.wf(),
    {
        self.history.clear();
        self.current = 0;
    }

    /// Redoes `action` and, if that succeeds, appends it to the history in place
    /// of anything that could have been redone.
    pub fn push<W: View>(&mut self, action: A, world: &mut W) -> (r: ActionResult)
        where A: Action<W>,
        requires
            old(self)@.wf(),
        ensures
            final(self)@.wf(),
            (final(self)@, final(world)@, r) == old(self)@.push_spec::<W>(action, old(world)@),
    {
        let ghost pushed = action;
        let r = action.redo(world);
        if r == ActionResult::Success {
            self.history.truncate(self.current);
            self.history.push(action);
            self.current = self.history.len();
            assert(self.history@ =~= old(self)@.log.take(old(self)@.current as int).push(pushed));
        }
        r
    }

    /// Redoes the action at the cursor, if there is one.
    pub fn redo<W: View>(&mut self, world: &mut W) -> (r: Option<ActionResult>)
        where A: Action<W>,
        requires
            old(self)@.wf(),
        ensures
            final(self)@.wf(),
            (final(self)@, final(world)@, r) == old(self)@.redo_spec::<W>(old(world)@),
    {
        if self.current < self.history.len() {
            let r = self.history[self.current].redo(world);
            if r == ActionResult::Success {
                self.current = self.current + 1;
            }
            Some(r)
        } else {
            None
        }
    }

    /// Undoes the action before the cursor, if there is one.
    pub fn undo<W: View>(&mut self, world: &mut W) -> (r: Option<ActionResult>)
        where A: Action<W>,
        requires
            old(self)@.wf(),
        ensures
            final(self)@.wf(),
            (final(self)@, final(world)@, r) == old(self)@.undo_spec::<W>(old(world)@),
    {
        if self.current > 0 {
            let r = self.history[self.current - 1].undo(world);
            if r == ActionResult::Success {
                self.current = self.current - 1;
            }
            Some(r)
        } else {
            None
        }
    }
}

/// Applies every message to `history`, in order, and gives the result of each:
/// `None` where an undo or a redo had nothing to do.
pub fn consume_actions_messages<W: View, A: Action<W>>(
    history: &mut ActionHistory<A>,
    messages: Vec<ActionMessage<A>>,
    world: &mut W,
) -> (results: Vec<Option<ActionResult>>)
    requires
        old(history)@.wf(),
    ensures
        final(history)@.wf(),
        (final(history)@, final(world)@, results@) == old(history)@.messages_spec::<W>(
            messages@,
            old(world)@,
        ),
{
    let ghost all = messages@;
    let mut results: Vec<Option<ActionResult>> = Vec::new();
    for message in iter: messages
        invariant
            iter.seq() == all,
            history@.wf(),
            (history@, world@, results@) == old(history)@.messages_spec::<W>(
                all.take(iter.index() as int),
                old(world)@,
            ),
    {
        let ghost before = all.take(iter.index() as int);
        let ghost after = all.take(iter.index() + 1);
        assert(after.drop_last() =~= before);
        let r = match message {
            ActionMessage::Push(action) => Some(history.push(action, world)),
            ActionMessage::Redo => history.redo(world),
            ActionMessage::Undo => history.undo(world),
        };
        results.push(r);
    }
    assert(all.take(all.len() as int) =~= all);
    results
}

/// Push, redo and undo each keep the cursor within the log.
pub proof fn lemma_cursor_in_log<W: View, A: Action<W>>(h: HistoryView<A>, action: A, world: W::V)
    requires
        h.wf(),
    ensures
        h.push_spec::<W>(action, world).0.wf(),
        h.redo_spec::<W>(world).0.wf(),
        h.undo_spec::<W>(world).0.wf(),
{
}

/// For every sequence of pushes, redoes and undoes, the cursor stays within the
/// log at every point.
pub proof fn lemma_cursor_in_log_always<W: View, A: Action<W>>(
    h: HistoryView<A>,
    messages: Seq<ActionMessage<A>>,
    world: W::V,
)
    requires
        h.wf(),
    ensures
        h.messages_spec::<W>(messages, world).0.wf(),
    decreases messages.len(),
{
    if messages.len() > 0 {
        lemma_cursor_in_log_always::<W, A>(h, messages.drop_last(), world);
        let (h1, w1, _) = h.messages_spec::<W>(messages.drop_last(), world);
        match messages.last() {
            ActionMessage::Push(action) => lemma_cursor_in_log::<W, A>(h1, action, w1),
            _ => {},
        }
    }
}

/// A push that succeeds drops every entry at or after the cursor before it
/// appends the action, and leaves nothing to redo: a redo right after it
/// changes neither the history nor the world.
pub proof fn lemma_push_drops_redo_tail<W: View, A: Action<W>>(
    h: HistoryView<A>,
    action: A,
    world: W::V,
    later: W::V,
)
    requires
        h.wf(),
        action.redo_spec(world).1 == ActionResult::Success,
    ensures
        ({
            let pushed = h.push_spec::<W>(action, world).0;
            &&& pushed.log == h.log.take(h.current as int).push(action)
            &&& pushed.current == pushed.log.len()
            &&& pushed.redo_spec::<W>(later) == (pushed, later, None::<ActionResult>)
        }),
{
}

/// For an action whose undo reverses its redo on a given world, pushing it, then
/// undoing, then redoing leaves the world and the history as the push left
/// them.
pub proof fn lemma_push_undo_redo<W: View, A: Action<W>>(
    h: HistoryView<A>,
    action: A,
    before: W::V,
    after: W::V,
)
    requires
        h.wf(),
        action.redo_spec(before) == (after, ActionResult::Success),
        action.undo_spec(after) == (before, ActionResult::Success),
    ensures
        ({
            let (h1, w1, _) = h.push_spec::<W>(action, before);
            let (h2, w2, _) = h1.undo_spec::<W>(w1);
            let (h3, w3, _) = h2.redo_spec::<W>(w2);
            &&& w1 == after
            &&& w3 == w1
            &&& h3 == h1
        }),
{
    let (h1, w1, _) = h.push_spec::<W>(action, before);
    assert(h1.log[h1.current - 1] == action);
}

/// Undo with nothing applied, and redo with nothing undone, change neither the
/// history nor the world.
pub proof fn lemma_no_op_boundaries<W: View, A: Action<W>>(h: HistoryView<A>, world: W::V)
    requires
        h.wf(),
    ensures
        h.current == 0 ==> h.undo_spec::<W>(world) == (h, world, None::<ActionResult>),
        h.current == h.log.len() ==> h.redo_spec::<W>(world) == (h, world, None::<ActionResult>),
{
}

} // verus!
