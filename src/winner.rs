//! The winner resolver: card values from VRF outputs, the first player with
//! the highest card, and whether that highest card is shared.

use vstd::prelude::*;

use crate::round::{DrawResult, Player};

verus! {

/// The sum of a byte string's bytes.
pub open spec fn byte_sum(s: Seq<u8>) -> nat
    decreases s.len(),
{
    if s.len() == 0 {
        0
    } else {
        byte_sum(s.drop_last()) + s.last() as nat
    }
}

/// The card a VRF output gives: the sum of its bytes modulo 52.
pub open spec fn card_value_of(output: Seq<u8>) -> nat {
    byte_sum(output) % 52
}

/// The card of a player who has drawn.
pub open spec fn player_card(p: Player) -> nat {
    card_value_of(p.drawn_card.unwrap().output@)
}

/// Every player has drawn.
pub open spec fn all_drawn(players: Seq<Player>) -> bool {
    forall|i: int| 0 <= i < players.len() ==> players[i].drawn_card is Some
}

/// No player holds a higher card than the one at `i`.
pub open spec fn holds_highest(players: Seq<Player>, i: int) -> bool {
    &&& 0 <= i < players.len()
    &&& forall|j: int| 0 <= j < players.len() ==> player_card(players[j]) <= player_card(players[i])
}

/// `i` is the winner: it holds the highest card, and every player before it
/// holds a lower one.
pub open spec fn is_winner(players: Seq<Player>, i: int) -> bool {
    &&& holds_highest(players, i)
    &&& forall|j: int| 0 <= j < i ==> player_card(players[j]) < player_card(players[i])
}

/// The card value of a draw.
pub fn card_value(d: &DrawResult) -> (r: u32)
    ensures
        r == card_value_of(d.output@),
{
    let mut sum: u32 = 0;
    let mut i: usize = 0;
    while i < 32
        invariant
            0 <= i <= 32,
            d.output@.len() == 32,
            sum == byte_sum(d.output@.take(i as int)),
            sum <= 255 * i,
        decreases 32 - i,
    {
        assert(d.output@.take(i as int + 1).drop_last() =~= d.output@.take(i as int));
        sum = sum + d.output[i] as u32;
        i = i + 1;
    }
    assert(d.output@.take(32) =~= d.output@);
    sum % 52
}

/// The index of the winner: the first player with the highest card.
pub fn best_player_index(players: &Vec<Player>) -> (r: usize)
    requires
        players@.len() > 0,
        all_drawn(players@),
    ensures
        is_winner(players@, r as int),
{
    let mut best: usize = 0;
    let mut best_value: u32 = match &players[0].drawn_card {
        Some(d) => card_value(d),
        None => 0,
    };
    let mut i: usize = 1;
    while i < players.len()
        invariant
            1 <= i <= players@.len(),
            all_drawn(players@),
            best < i,
            best_value == player_card(players@[best as int]),
            forall|j: int| 0 <= j < i ==> player_card(players@[j]) <= best_value,
            forall|j: int| 0 <= j < best ==> player_card(players@[j]) < best_value,
        decreases players@.len() - i,
    {
        let value = match &players[i].drawn_card {
            Some(d) => card_value(d),
            None => 0,
        };
        if value > best_value {
            best = i;
            best_value = value;
        }
        i = i + 1;
    }
    best
}

/// The winner's record: the first player with the highest card.
pub fn find_best_player(all_players: &Vec<Player>) -> (r: &Player)
    requires
        all_players@.len() > 0,
        all_drawn(all_players@),
    ensures
        exists|i: int| is_winner(all_players@, i) && *r == all_players@[i],
{
    let i = best_player_index(all_players);
    &all_players[i]
}

/// Whether two or more players share the highest card.
pub fn is_tie(players: &Vec<Player>) -> (r: bool)
    requires
        players@.len() > 0,
        all_drawn(players@),
    ensures
        r == exists|i: int, j: int|
            i != j && holds_highest(players@, i) && holds_highest(players@, j),
{
    let best = best_player_index(players);
    let best_value = match &players[best].drawn_card {
        Some(d) => card_value(d),
        None => 0,
    };
    let mut i: usize = 0;
    while i < players.len()
        invariant
            0 <= i <= players@.len(),
            all_drawn(players@),
            is_winner(players@, best as int),
            best_value == player_card(players@[best as int]),
            forall|j: int| 0 <= j < i && j != best ==> player_card(players@[j]) != best_value,
        decreases players@.len() - i,
    {
        let value = match &players[i].drawn_card {
            Some(d) => card_value(d),
            None => 0,
        };
        if i != best && value == best_value {
            assert(holds_highest(players@, i as int));
            return true;
        }
        i = i + 1;
    }
    assert forall|a: int, b: int|
        a != b && holds_highest(players@, a) implies !holds_highest(players@, b) by {
        if holds_highest(players@, b) {
            assert(player_card(players@[a]) == best_value);
            assert(player_card(players@[b]) == best_value);
        }
    }
    false
}

/// When every player holds the same card, the winner is the first player.
pub proof fn lemma_equal_cards_first_wins(players: Seq<Player>, i: int)
    requires
        players.len() > 0,
        all_drawn(players),
        forall|j: int| 0 <= j < players.len() ==> #[trigger] player_card(players[j]) == player_card(players[0]),
        is_winner(players, i),
    ensures
        i == 0,
{
    if i > 0 {
        assert(player_card(players[0]) < player_card(players[i]));
    }
}

/// The winner holds a card at least as high as every other player's.
pub proof fn lemma_winner_holds_highest(players: Seq<Player>, i: int, j: int)
    requires
        is_winner(players, i),
        0 <= j < players.len(),
    ensures
        player_card(players[j]) <= player_card(players[i]),
{
}

} // verus!
