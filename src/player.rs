//! Players and data kept once for each of them.

use vstd::prelude::*;

verus! {

/// Tells the two players apart throughout the game logic.
#[derive(Debug, PartialEq, Eq, Clone, Copy, Structural)]
pub enum PlayerId {
    Player1,
    Player2,
}

/// Entries hold exactly one item for each player.
pub open spec fn one_per_player<T>(entries: Seq<(PlayerId, T)>) -> bool {
    entries.len() == 2 && entries[0].0 != entries[1].0
}

/// The item that `entries` holds for `player` (meaningful under `one_per_player`).
pub open spec fn data_of<T>(entries: Seq<(PlayerId, T)>, player: PlayerId) -> T {
    if entries[0].0 == player {
        entries[0].1
    } else {
        entries[1].1
    }
}

/// A value that holds some data `T` for each of the two players, and can be
/// split into that data, player 1's first.
pub trait AsPerPlayerData<T>: Sized {
    /// The (player, data) entries that the value holds, in order.
    spec fn player_entries(&self) -> Seq<(PlayerId, T)>;

    /// Consumes the value and returns the data of player 1 and of player 2.
    fn as_per_player(self) -> (r: (T, T))
        requires
            one_per_player(self.player_entries()),
        ensures
            r.0 == data_of(self.player_entries(), PlayerId::Player1),
            r.1 == data_of(self.player_entries(), PlayerId::Player2),
    ;
}

impl<T> AsPerPlayerData<T> for Vec<(PlayerId, T)> {
    open spec fn player_entries(&self) -> Seq<(PlayerId, T)> {
        self@
    }

    fn as_per_player(self) -> (r: (T, T)) {
        let ghost entries = self@;
        let mut items = self;
        let second = items.pop().unwrap();
        let first = items.pop().unwrap();
        assert(first == entries[0] && second == entries[1]);
        if first.0 == PlayerId::Player1 {
            (first.1, second.1)
        } else {
            (second.1, first.1)
        }
    }
}

} // verus!
