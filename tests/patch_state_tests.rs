use freecam_rs::patch_state::{transition, BattlePatchState, BattlePatcher, GroupCommand, PatchGroup};

const ALL: [BattlePatchState; 3] =
    [BattlePatchState::Applied, BattlePatchState::SpecialOnlyApplied, BattlePatchState::NotApplied];

/// Performs registry commands on a pair of (general, special) flags.
fn perform(flags: (bool, bool), commands: &[GroupCommand]) -> (bool, bool) {
    let mut f = flags;
    for c in commands {
        match c {
            GroupCommand::Enable(PatchGroup::General) => f.0 = true,
            GroupCommand::Enable(PatchGroup::Special) => f.1 = true,
            GroupCommand::Disable(PatchGroup::General) => f.0 = false,
            GroupCommand::Disable(PatchGroup::Special) => f.1 = false,
        }
    }
    f
}

fn flags(s: BattlePatchState) -> (bool, bool) {
    (s.general_enabled(), s.special_enabled())
}

#[test]
fn change_state_scenario_from_not_applied() {
    let mut p = BattlePatcher::new(Vec::new());
    assert_eq!(p.current_state(), BattlePatchState::NotApplied);
    let mut f = (false, false);

    f = perform(f, &p.change_state(BattlePatchState::Applied));
    assert_eq!(f, (true, true));

    f = perform(f, &p.change_state(BattlePatchState::SpecialOnlyApplied));
    assert_eq!(f, (false, true));

    f = perform(f, &p.change_state(BattlePatchState::NotApplied));
    assert_eq!(f, (false, false));
    assert_eq!(p.current_state(), BattlePatchState::NotApplied);
}

#[test]
fn round_trip_restores_flags_for_all_pairs() {
    for s1 in ALL {
        for s2 in ALL {
            let there = perform(flags(s1), &transition(s1, s2));
            assert_eq!(there, flags(s2));
            let back = perform(there, &transition(s2, s1));
            assert_eq!(back, flags(s1));
        }
    }
}

#[test]
fn self_transition_issues_nothing() {
    for s in ALL {
        assert!(transition(s, s).is_empty());
        let mut p = BattlePatcher::new(Vec::new());
        p.change_state(s);
        assert!(p.change_state(s).is_empty());
    }
}

#[test]
fn transition_table_cells() {
    let (a, s, n) = (BattlePatchState::Applied, BattlePatchState::SpecialOnlyApplied, BattlePatchState::NotApplied);
    let (en, dis) = (GroupCommand::Enable, GroupCommand::Disable);
    let (g, sp) = (PatchGroup::General, PatchGroup::Special);
    assert_eq!(transition(a, s), vec![dis(g)]);
    assert_eq!(transition(a, n), vec![dis(g), dis(sp)]);
    assert_eq!(transition(s, a), vec![en(g)]);
    assert_eq!(transition(s, n), vec![dis(sp)]);
    assert_eq!(transition(n, a), vec![en(g), en(sp)]);
    assert_eq!(transition(n, s), vec![en(sp)]);
}

#[test]
fn state_flags_match_invariant() {
    assert_eq!(flags(BattlePatchState::Applied), (true, true));
    assert_eq!(flags(BattlePatchState::SpecialOnlyApplied), (false, true));
    assert_eq!(flags(BattlePatchState::NotApplied), (false, false));
}

#[test]
fn take_control_and_shutdown() {
    let mut p = BattlePatcher::new(Vec::new());
    let f = perform((false, false), &p.take_control());
    assert_eq!(f, (true, true));
    assert!(p.take_control().is_empty());
    let f = perform(f, &p.shutdown());
    assert_eq!(f, (false, false));
    assert_eq!(p.current_state(), BattlePatchState::NotApplied);
}

#[test]
fn custom_camera_toggle() {
    let mut p = BattlePatcher::new(Vec::new());
    p.take_control();
    assert!(p.set_custom_camera(true).is_empty());
    assert_eq!(p.current_state(), BattlePatchState::Applied);
    let f = perform((true, true), &p.set_custom_camera(false));
    assert_eq!(f, (false, false));
    assert_eq!(p.current_state(), BattlePatchState::NotApplied);
}
