use vstd::prelude::*;

verus! {

/// Whether the blueprint being edited is loaded.
#[derive(Debug, Clone, Copy, PartialEq, Eq, Hash, Default, Structural)]
pub enum BlueprintState {
    #[default]
    Unloaded,
    Loaded,
}

/// What happened to the blueprint asset.
#[derive(Debug, Clone, Copy, PartialEq, Eq, Hash, Structural)]
pub enum AssetEventKind {
    Added,
    Modified,
    Removed,
    Unused,
    LoadedWithDependencies,
}

/// The state that `event` moves to, if it names one: a change or a removal
/// unloads the blueprint, a full load loads it.
pub open spec fn state_named_by(event: AssetEventKind) -> Option<BlueprintState> {
    match event {
        AssetEventKind::Modified | AssetEventKind::Removed => Some(BlueprintState::Unloaded),
        AssetEventKind::LoadedWithDependencies => Some(BlueprintState::Loaded),
        _ => None,
    }
}

/// The state requested after `events`: the one named by the last event that
/// names one, else `pending`.
pub open spec fn requested_after(pending: Option<BlueprintState>, events: Seq<AssetEventKind>) -> Option<
    BlueprintState,
>
    decreases events.len(),
{
    if events.len() == 0 {
        pending
    } else {
        match state_named_by(events.last()) {
            Some(state) => Some(state),
            None => requested_after(pending, events.drop_last()),
        }
    }
}

/// Reads the asset events of one cycle and gives the blueprint state to move
/// to, starting from the one already requested (`pending`).
pub fn update_blueprint_state(pending: Option<BlueprintState>, events: &Vec<AssetEventKind>) -> (r:
    Option<BlueprintState>)
    ensures
        r == requested_after(pending, events@),
{
    let mut next = pending;
    let mut i: usize = 0;
    while i < events.len()
        invariant
            i <= events@.len(),
            next == requested_after(pending, events@.take(i as int)),
        decreases events@.len() - i,
    {
        assert(events@.take(i + 1).drop_last() =~= events@.take(i as int));
        match events[i] {
            AssetEventKind::Modified | AssetEventKind::Removed => {
                next = Some(BlueprintState::Unloaded);
            },
            AssetEventKind::LoadedWithDependencies => {
                next = Some(BlueprintState::Loaded);
            },
            _ => {},
        }
        i = i + 1;
    }
    assert(events@.take(events@.len() as int) =~= events@);
    next
}

} // verus!
