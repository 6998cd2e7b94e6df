use pong::{candidates, contacts_to_apply, Nearer, PlayerId, Surface, Wall};

#[test]
fn candidates_follow_heading() {
    let c = candidates(true, true);
    assert_eq!((c.wall, c.paddle), (Wall::Top, PlayerId::Player2));
    let c = candidates(false, false);
    assert_eq!((c.wall, c.paddle), (Wall::Bottom, PlayerId::Player1));
    let c = candidates(true, false);
    assert_eq!((c.wall, c.paddle), (Wall::Top, PlayerId::Player1));
    let c = candidates(false, true);
    assert_eq!((c.wall, c.paddle), (Wall::Bottom, PlayerId::Player2));
}

#[test]
fn no_contact_ends_loop() {
    for nearer in [Nearer::Paddle, Nearer::Wall, Nearer::Tie] {
        assert!(contacts_to_apply(false, false, nearer).is_empty());
    }
}

#[test]
fn single_contact_applied_alone() {
    for nearer in [Nearer::Paddle, Nearer::Wall, Nearer::Tie] {
        assert_eq!(contacts_to_apply(true, false, nearer), vec![Surface::Paddle]);
        assert_eq!(contacts_to_apply(false, true, nearer), vec![Surface::Wall]);
    }
}

#[test]
fn nearer_contact_wins() {
    assert_eq!(contacts_to_apply(true, true, Nearer::Paddle), vec![Surface::Paddle]);
    assert_eq!(contacts_to_apply(true, true, Nearer::Wall), vec![Surface::Wall]);
}

#[test]
fn corner_applies_wall_then_paddle() {
    let order = contacts_to_apply(true, true, Nearer::Tie);
    assert_eq!(order, vec![Surface::Wall, Surface::Paddle]);

    // reflecting about both normals in that order flips both components
    let (mut dx, mut dy) = (0.6f32, 0.8f32);
    for surface in order {
        match surface {
            Surface::Wall => dy = -dy,
            Surface::Paddle => dx = -dx,
        }
    }
    assert_eq!((dx, dy), (-0.6, -0.8));
}

#[test]
fn straight_paddle_bounce_applies_paddle_only() {
    // a still right paddle spanning the full height is reached within budget,
    // the top wall is not
    let c = candidates(true, true);
    assert_eq!(c.paddle, PlayerId::Player2);
    assert_eq!(contacts_to_apply(true, false, Nearer::Paddle), vec![Surface::Paddle]);
    assert_eq!(pong::contact_spin(c.paddle, pong::MoveDirection::Still), pong::CurveDir::Straight);
}
