//! The tri-state machine that decides which patch groups are enabled.
//!
//! The two patch groups live in an outside patch registry; this module decides
//! which enable/disable commands a state change needs, and the caller performs
//! them on the registry in the order given.

use vstd::prelude::*;

use crate::trampoline::DynamicPatch;

verus! {

/// Which of the two patch groups are active.
#[derive(PartialEq, Eq, Structural, Clone, Copy, Debug)]
pub enum BattlePatchState {
    /// All patches are applied and full camera control is taken away from the game.
    Applied,
    /// Only the special patches (which stay active for the whole battle) are applied.
    SpecialOnlyApplied,
    /// No patches are currently applied.
    NotApplied,
}

/// One of the two groups of patches that share an enable/disable lifecycle.
#[derive(PartialEq, Eq, Structural, Clone, Copy, Debug)]
pub enum PatchGroup {
    /// Every camera-coordinate write of the foreign code.
    General,
    /// The patches that must stay active regardless of pause state.
    Special,
}

/// A command for the patch registry: enable or disable every patch of a group.
#[derive(PartialEq, Eq, Structural, Clone, Copy, Debug)]
pub enum GroupCommand {
    Enable(PatchGroup),
    Disable(PatchGroup),
}

/// The enabled flags of the two groups, `(general, special)`.
pub type GroupFlags = (bool, bool);

/// The group flags that a state stands for.
pub open spec fn flags_of(s: BattlePatchState) -> GroupFlags {
    match s {
        BattlePatchState::Applied => (true, true),
        BattlePatchState::SpecialOnlyApplied => (false, true),
        BattlePatchState::NotApplied => (false, false),
    }
}

/// The group flags after the registry performs one command.
pub open spec fn apply_command(f: GroupFlags, c: GroupCommand) -> GroupFlags {
    match c {
        GroupCommand::Enable(PatchGroup::General) => (true, f.1),
        GroupCommand::Enable(PatchGroup::Special) => (f.0, true),
        GroupCommand::Disable(PatchGroup::General) => (false, f.1),
        GroupCommand::Disable(PatchGroup::Special) => (f.0, false),
    }
}

/// The group flags after the registry performs the commands in order.
pub open spec fn apply_commands(f: GroupFlags, cs: Seq<GroupCommand>) -> GroupFlags
    decreases cs.len(),
{
    if cs.len() == 0 {
        f
    } else {
        apply_commands(apply_command(f, cs[0]), cs.drop_first())
    }
}

/// The transition table: the commands issued when moving from `from` to `to`.
pub open spec fn transition_commands(from: BattlePatchState, to: BattlePatchState) -> Seq<GroupCommand> {
    match (from, to) {
        (BattlePatchState::Applied, BattlePatchState::SpecialOnlyApplied) => seq![
            GroupCommand::Disable(PatchGroup::General),
        ],
        (BattlePatchState::Applied, BattlePatchState::NotApplied) => seq![
            GroupCommand::Disable(PatchGroup::General),
            GroupCommand::Disable(PatchGroup::Special),
        ],
        (BattlePatchState::SpecialOnlyApplied, BattlePatchState::Applied) => seq![
            GroupCommand::Enable(PatchGroup::General),
        ],
        (BattlePatchState::SpecialOnlyApplied, BattlePatchState::NotApplied) => seq![
            GroupCommand::Disable(PatchGroup::Special),
        ],
        (BattlePatchState::NotApplied, BattlePatchState::Applied) => seq![
            GroupCommand::Enable(PatchGroup::General),
            GroupCommand::Enable(PatchGroup::Special),
        ],
        (BattlePatchState::NotApplied, BattlePatchState::SpecialOnlyApplied) => seq![
            GroupCommand::Enable(PatchGroup::Special),
        ],
        _ => seq![],
    }
}

/// Performing the commands of a transition turns the flags of `from` into the flags of `to`.
pub proof fn lemma_transition_reaches_target(from: BattlePatchState, to: BattlePatchState)
    ensures
        apply_commands(flags_of(from), transition_commands(from, to)) == flags_of(to),
{
    reveal_with_fuel(apply_commands, 3);
    let cs = transition_commands(from, to);
    if cs.len() > 0 {
        assert(cs.drop_first().len() + 1 == cs.len());
        if cs.len() > 1 {
            assert(cs.drop_first().drop_first().len() == 0);
        }
    }
}

/// A transition from a state to itself issues no enable or disable command.
pub proof fn lemma_self_transition_is_silent(s: BattlePatchState)
    ensures
        transition_commands(s, s).len() == 0,
{
}

/// Moving from `s1` to `s2` and back again leaves both groups' enabled flags as
/// they were before the round trip.
pub proof fn lemma_round_trip_restores_flags(s1: BattlePatchState, s2: BattlePatchState)
    ensures
        apply_commands(
            apply_commands(flags_of(s1), transition_commands(s1, s2)),
            transition_commands(s2, s1),
        ) == flags_of(s1),
{
    lemma_transition_reaches_target(s1, s2);
    lemma_transition_reaches_target(s2, s1);
}

/// The commands that move the registry from `from` to `to`.
pub fn transition(from: BattlePatchState, to: BattlePatchState) -> (r: Vec<GroupCommand>)
    ensures
        r@ == transition_commands(from, to),
        apply_commands(flags_of(from), r@) == flags_of(to),
{
    proof {
        lemma_transition_reaches_target(from, to);
    }
    let mut r: Vec<GroupCommand> = Vec::new();
    match (from, to) {
        (BattlePatchState::Applied, BattlePatchState::SpecialOnlyApplied) => {
            r.push(GroupCommand::Disable(PatchGroup::General));
        },
        (BattlePatchState::Applied, BattlePatchState::NotApplied) => {
            r.push(GroupCommand::Disable(PatchGroup::General));
            r.push(GroupCommand::Disable(PatchGroup::Special));
        },
        (BattlePatchState::SpecialOnlyApplied, BattlePatchState::Applied) => {
            r.push(GroupCommand::Enable(PatchGroup::General));
        },
        (BattlePatchState::SpecialOnlyApplied, BattlePatchState::NotApplied) => {
            r.push(GroupCommand::Disable(PatchGroup::Special));
        },
        (BattlePatchState::NotApplied, BattlePatchState::Applied) => {
            r.push(GroupCommand::Enable(PatchGroup::General));
            r.push(GroupCommand::Enable(PatchGroup::Special));
        },
        (BattlePatchState::NotApplied, BattlePatchState::SpecialOnlyApplied) => {
            r.push(GroupCommand::Enable(PatchGroup::Special));
        },
        _ => {},
    }
    assert(r@ =~= transition_commands(from, to));
    r
}

impl BattlePatchState {
    /// Whether the general group is enabled in this state.
    pub fn general_enabled(&self) -> (r: bool)
        ensures
            r == flags_of(*self).0,
    {
        match self {
            BattlePatchState::Applied => true,
            _ => false,
        }
    }

    /// Whether the special group is enabled in this state.
    pub fn special_enabled(&self) -> (r: bool)
        ensures
            r == flags_of(*self).1,
    {
        match self {
            BattlePatchState::NotApplied => false,
            _ => true,
        }
    }
}

/// Orchestrates the two patch groups of one battle session.
///
/// The groups themselves are installed in the patch registry disabled, so a
/// fresh patcher starts in `NotApplied`.
pub struct BattlePatcher {
    dynamic_patches: Vec<DynamicPatch>,
    state: BattlePatchState,
}

impl BattlePatcher {
    /// A patcher whose groups are installed and disabled, keeping the generated
    /// dynamic patches alive for as long as the session lasts.
    pub fn new(dynamic_patches: Vec<DynamicPatch>) -> (r: Self)
        ensures
            r.state() == BattlePatchState::NotApplied,
            r.dynamic_patches()@ == dynamic_patches@,
    {
        BattlePatcher { dynamic_patches, state: BattlePatchState::NotApplied }
    }

    pub closed spec fn state(&self) -> BattlePatchState {
        self.state
    }

    pub closed spec fn dynamic_patches(&self) -> Vec<DynamicPatch> {
        self.dynamic_patches
    }

    /// The current state.
    pub fn current_state(&self) -> (r: BattlePatchState)
        ensures
            r == self.state(),
    {
        self.state
    }

    /// The dynamic patches that this session owns.
    pub fn patches(&self) -> (r: &Vec<DynamicPatch>)
        ensures
            r@ == self.dynamic_patches()@,
    {
        &self.dynamic_patches
    }

    /// Moves to `new_state` and returns the registry commands that the move
    /// needs, in the order in which they are to be performed.
    pub fn change_state(&mut self, new_state: BattlePatchState) -> (r: Vec<GroupCommand>)
        ensures
            final(self).state() == new_state,
            final(self).dynamic_patches()@ == old(self).dynamic_patches()@,
            r@ == transition_commands(old(self).state(), new_state),
            apply_commands(flags_of(old(self).state()), r@) == flags_of(new_state),
    {
        let r = transition(self.state, new_state);
        self.state = new_state;
        r
    }

    /// Hands camera control to the controller: every patch applied.
    pub fn take_control(&mut self) -> (r: Vec<GroupCommand>)
        ensures
            final(self).state() == BattlePatchState::Applied,
            final(self).dynamic_patches()@ == old(self).dynamic_patches()@,
            r@ == transition_commands(old(self).state(), BattlePatchState::Applied),
            apply_commands(flags_of(old(self).state()), r@) == (true, true),
    {
        self.change_state(BattlePatchState::Applied)
    }

    /// Follows a change of the custom-camera setting: turning it off hands all
    /// control back to the foreign code; turning it on changes nothing until
    /// the controller next takes control.
    pub fn set_custom_camera(&mut self, enabled: bool) -> (r: Vec<GroupCommand>)
        ensures
            !enabled ==> final(self).state() == BattlePatchState::NotApplied,
            enabled ==> final(self).state() == old(self).state(),
            final(self).dynamic_patches()@ == old(self).dynamic_patches()@,
            r@ == transition_commands(old(self).state(), final(self).state()),
            apply_commands(flags_of(old(self).state()), r@) == flags_of(final(self).state()),
    {
        if enabled {
            let cur = self.state;
            self.change_state(cur)
        } else {
            self.change_state(BattlePatchState::NotApplied)
        }
    }

    /// The commands that end a session: every patch disabled, so that the
    /// foreign code holds no reference to the session's cells before they are
    /// released.
    pub fn shutdown(&mut self) -> (r: Vec<GroupCommand>)
        ensures
            final(self).state() == BattlePatchState::NotApplied,
            final(self).dynamic_patches()@ == old(self).dynamic_patches()@,
            r@ == transition_commands(old(self).state(), BattlePatchState::NotApplied),
            apply_commands(flags_of(old(self).state()), r@) == (false, false),
    {
        self.change_state(BattlePatchState::NotApplied)
    }
}

} // verus!
