use pong::{AsPerPlayerData, PlayerId};

#[test]
fn as_per_player_in_order() {
    let v = vec![(PlayerId::Player1, "one"), (PlayerId::Player2, "two")];
    assert_eq!(v.as_per_player(), ("one", "two"));
}

#[test]
fn as_per_player_reversed() {
    let v = vec![(PlayerId::Player2, 20u8), (PlayerId::Player1, 10u8)];
    assert_eq!(v.as_per_player(), (10, 20));
}
