use city_builder::placement::{Placement, PlacementStep};

type P = Placement<(i32, i32), u32>;

#[test]
fn neutral_waits_for_a_left_click() {
    let s = P::default();
    assert_eq!(s, Placement::Neutral);
    assert_eq!(s.step(false, false), PlacementStep::Stay);
    assert_eq!(s.step(false, true), PlacementStep::Stay);
    assert_eq!(s.step(true, false), PlacementStep::Begin);
    assert_eq!(s.after(&PlacementStep::Begin), Placement::Neutral);
}

#[test]
fn placing_tracks_commits_and_cancels() {
    let s = P::begin((1, 2), 9);
    assert_eq!(s, Placement::Placing { start: (1, 2), preview: 9 });
    let track = s.step(false, false);
    assert_eq!(track, PlacementStep::Track { start: (1, 2), preview: 9 });
    assert_eq!(s.after(&track), s);
    let commit = s.step(true, true);
    assert_eq!(commit, PlacementStep::Commit { start: (1, 2), preview: 9 });
    assert_eq!(s.after(&commit), Placement::Neutral);
    let cancel = s.step(false, true);
    assert_eq!(cancel, PlacementStep::Cancel { preview: 9 });
    assert_eq!(s.after(&cancel), Placement::Neutral);
}
