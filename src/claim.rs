//! The verifier: checks a player's claimed draw against the round's public
//! data (public key, domain tag, shared seed), with no secret key.

use vstd::prelude::*;

use crate::encoding::le_bytes_u64;
use crate::primitives::{vrf_verify, vrf_verify_of};
use crate::round::{drawn_with, seed_message, Player, Poker};

verus! {

/// The player's claimed draw holds up: the round has a seed, the player has a
/// draw, and VRF verification under the player's public key on the round's
/// transcript gives back the stored input point, output and batchable proof.
/// A domain tag too long for a transcript never verifies.
pub open spec fn claim_verifies(player: Player, game: Poker) -> bool {
    game.domain_tag@.len() <= u32::MAX && match (game.input, player.drawn_card) {
        (Some(seed), Some(d)) => match vrf_verify_of(
            player.public@,
            game.domain_tag@,
            seed_message(seed),
            d.output@,
            d.proof@,
        ) {
            Some(v) => v.0 == d.input@ && v.1 == d.output@ && v.2 == d.batchable@,
            None => false,
        },
        _ => false,
    }
}

/// Re-checks a player's draw from public information. A missing seed or draw,
/// a domain tag too long for a transcript, a value that does not decode, or a
/// rejected proof all give `false`.
pub fn verify_best_player(player: Player, poker_game: Poker) -> (r: bool)
    ensures
        r == claim_verifies(player, poker_game),
{
    if poker_game.domain_tag.len() > u32::MAX as usize {
        return false;
    }
    match (poker_game.input, player.drawn_card) {
        (Some(seed), Some(d)) => {
            let msg = le_bytes_u64(seed);
            match vrf_verify(&player.public, poker_game.domain_tag.as_slice(), &msg, &d.output, &d.proof) {
                Some((input, output, batchable)) => {
                    crate::encoding::same_bytes(&input, &d.input)
                        && crate::encoding::same_bytes(&output, &d.output)
                        && crate::encoding::same_bytes(&batchable, &d.batchable)
                },
                None => false,
            }
        },
        _ => false,
    }
}

/// A player whose draw was made with their own secret key on the round's
/// domain tag and seed passes verification against that round.
pub proof fn lemma_own_draw_verifies(player: Player, game: Poker)
    requires
        player.wf(),
        game.input is Some,
        game.domain_tag@.len() <= u32::MAX,
        player.drawn_card matches Some(d) && drawn_with(
            d,
            player.secret@,
            game.domain_tag@,
            game.input.unwrap(),
        ),
    ensures
        claim_verifies(player, game),
{
}

/// After the draw, every well-formed player of the round passes verification
/// against the round.
pub proof fn lemma_drawn_round_verifies(game: Poker)
    requires
        game.input is Some,
        game.domain_tag@.len() <= u32::MAX,
        forall|i: int|
            0 <= i < game.players@.len() ==> {
                &&& game.players@[i].wf()
                &&& game.players@[i].drawn_card matches Some(d) && drawn_with(
                    d,
                    game.players@[i].secret@,
                    game.domain_tag@,
                    game.input.unwrap(),
                )
            },
    ensures
        forall|i: int| 0 <= i < game.players@.len() ==> claim_verifies(#[trigger] game.players@[i], game),
{
    assert forall|i: int| 0 <= i < game.players@.len() implies claim_verifies(
        #[trigger] game.players@[i],
        game,
    ) by {
        lemma_own_draw_verifies(game.players@[i], game);
    }
}

/// Verification is a function of its inputs: two results obtained on the same
/// player and round are equal.
pub proof fn lemma_verify_deterministic(player: Player, game: Poker, r1: bool, r2: bool)
    requires
        r1 == claim_verifies(player, game),
        r2 == claim_verifies(player, game),
    ensures
        r1 == r2,
{
}

} // verus!
