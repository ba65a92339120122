use azul::mascot::{CompanionState, Mascot};

#[test]
fn test_companion_states() {
    let mut mascot = Mascot::new();
    assert_eq!(mascot.state(), CompanionState::Idle);

    mascot.set_state(CompanionState::Loading);
    assert_eq!(mascot.state(), CompanionState::Loading);
}

#[test]
fn test_companion_animation() {
    let mut mascot = Mascot::new();
    mascot.set_state(CompanionState::Loading);

    let first = mascot.view();
    mascot.tick();
    let second = mascot.view();

    assert!(!first.is_empty());
    assert!(!second.is_empty());
}

#[test]
fn test_all_views() {
    let mascot = Mascot::new();
    assert!(!mascot.view().is_empty());
    assert!(!mascot.view_with_label().is_empty());
    assert!(!mascot.view_status().is_empty());
}
