//! The state of one round: the players' records, the shared seed and the
//! domain tag, with the commit / reveal / finalize steps that fix the seed and
//! the draw that gives each player a verifiable card.

use vstd::prelude::*;
use vstd::arithmetic::div_mod::lemma_add_mod_noop;

use crate::encoding::{le_bytes, le_bytes_u32, le_bytes_u64};
use crate::primitives::{
    blake2_256,
    blake2_256_of,
    derive_public_key,
    fresh_random_u32,
    fresh_secret_key,
    public_key_of,
    vrf_output_of,
    vrf_sign,
    vrf_verify_of,
};

verus! {

/// One player's VRF draw: the compressed input and output points, the short
/// proof and the batchable proof.
#[derive(Clone, Copy, Debug, PartialEq, Eq)]
pub struct DrawResult {
    pub input: [u8; 32],
    pub output: [u8; 32],
    pub proof: [u8; 64],
    pub batchable: [u8; 96],
}

/// A participant: a key pair (a 32-byte mini secret key and the public key it
/// expands to) and what the round has recorded for them so far.
#[derive(Clone, Copy, Debug)]
pub struct Player {
    pub secret: [u8; 32],
    pub public: [u8; 32],
    pub random_number: Option<u32>,
    pub commitment: Option<[u8; 32]>,
    pub drawn_card: Option<DrawResult>,
}

/// Why a step of the round could not go on.
#[derive(Clone, Copy, Debug, PartialEq, Eq)]
pub enum RoundError {
    /// The player at this index revealed a value whose digest is not the one
    /// they committed to.
    CommitmentMismatch { player: usize },
    /// A player has not yet done what this step needs.
    IncompleteRound,
}

/// One round of the game.
#[derive(Clone, Debug)]
pub struct Poker {
    pub players: Vec<Player>,
    /// The shared seed, once the reveals have been checked.
    pub input: Option<u64>,
    /// The signing context that every draw and verification uses.
    pub domain_tag: Vec<u8>,
}

/// The bytes of the domain tag "Poker Game!".
pub open spec fn poker_domain_tag() -> Seq<u8> {
    seq![80u8, 111, 107, 101, 114, 32, 71, 97, 109, 101, 33]
}

impl Player {
    /// The public key is the one the secret key expands to.
    pub open spec fn wf(&self) -> bool {
        self.public@ == public_key_of(self.secret@)
    }

    /// A fresh player: a new key pair, nothing committed or drawn.
    pub fn new() -> (r: Player)
        ensures
            r.wf(),
            r.random_number is None,
            r.commitment is None,
            r.drawn_card is None,
    {
        let secret = fresh_secret_key();
        let public = derive_public_key(&secret);
        Player { secret, public, random_number: None, commitment: None, drawn_card: None }
    }
}

impl Poker {
    /// A round over `players`, with the given seed and the game's domain tag.
    pub fn new(players: Vec<Player>, input: Option<u64>) -> (r: Poker)
        ensures
            r.players@ == players@,
            r.input == input,
            r.domain_tag@ == poker_domain_tag(),
    {
        let domain_tag = vec![80u8, 111, 107, 101, 114, 32, 71, 97, 109, 101, 33];
        assert(domain_tag@ =~= poker_domain_tag());
        Poker { players, input, domain_tag }
    }
}

/// `number_of_players` fresh players, each with a new key pair.
pub fn generate_key_pairs(number_of_players: u8) -> (r: Vec<Player>)
    ensures
        r@.len() == number_of_players,
        forall|i: int|
            0 <= i < r@.len() ==> {
                &&& r@[i].wf()
                &&& r@[i].random_number is None
                &&& r@[i].commitment is None
                &&& r@[i].drawn_card is None
            },
{
    let mut players: Vec<Player> = Vec::with_capacity(number_of_players as usize);
    let mut k: u8 = 0;
    while k < number_of_players
        invariant
            k <= number_of_players,
            players@.len() == k,
            forall|i: int|
                0 <= i < players@.len() ==> {
                    &&& players@[i].wf()
                    &&& players@[i].random_number is None
                    &&& players@[i].commitment is None
                    &&& players@[i].drawn_card is None
                },
        decreases number_of_players - k,
    {
        players.push(Player::new());
        k = k + 1;
    }
    players
}

/// The digest a player commits to for the random value `v`.
pub open spec fn commitment_of(v: u32) -> Seq<u8> {
    blake2_256_of(le_bytes(v as nat, 4))
}

/// The player has revealed a value, and it hashes to their commitment.
pub open spec fn reveal_ok(p: Player) -> bool {
    &&& p.random_number is Some
    &&& p.commitment matches Some(c) && c@ == commitment_of(p.random_number.unwrap())
}

/// The error that the reveal check reports for the player at index `i`.
pub open spec fn reveal_error(p: Player, i: int) -> RoundError {
    if p.random_number is Some && p.commitment is Some {
        RoundError::CommitmentMismatch { player: i as usize }
    } else {
        RoundError::IncompleteRound
    }
}

/// `i` is the first player whose reveal fails.
pub open spec fn first_failed_reveal(players: Seq<Player>, i: int) -> bool {
    &&& 0 <= i < players.len()
    &&& !reveal_ok(players[i])
    &&& forall|j: int| 0 <= j < i ==> reveal_ok(players[j])
}

/// `r` is the outcome of checking every reveal in registration order: `Ok`
/// when all match, else the error of the first that does not.
pub open spec fn reveal_outcome(players: Seq<Player>, r: Result<(), RoundError>) -> bool {
    match r {
        Ok(_) => forall|i: int| 0 <= i < players.len() ==> reveal_ok(players[i]),
        Err(e) => exists|i: int| first_failed_reveal(players, i) && e == reveal_error(players[i], i),
    }
}

/// The sum of the players' revealed values, as an unbounded integer.
pub open spec fn random_sum(players: Seq<Player>) -> nat
    decreases players.len(),
{
    if players.len() == 0 {
        0
    } else {
        random_sum(players.drop_last()) + match players.last().random_number {
            Some(v) => v as nat,
            None => 0,
        }
    }
}

/// The shared seed: the sum of the revealed values modulo 2^64.
pub open spec fn shared_seed(players: Seq<Player>) -> u64 {
    (random_sum(players) % 0x1_0000_0000_0000_0000) as u64
}

/// How the commit step leaves one player: one without a value gets a value
/// and the digest of it; every other field, and every player that already had
/// a value, is left as it was.
pub open spec fn committed_from(before: Player, after: Player) -> bool {
    &&& after.secret == before.secret
    &&& after.public == before.public
    &&& after.drawn_card == before.drawn_card
    &&& if before.random_number is None {
        &&& after.random_number is Some
        &&& after.commitment matches Some(c) && c@ == commitment_of(after.random_number.unwrap())
    } else {
        after == before
    }
}

/// The commit step: every player lacking a random value draws a fresh one and
/// publishes its digest.
pub fn commit_all(game: &mut Poker)
    ensures
        final(game).players@.len() == old(game).players@.len(),
        final(game).input == old(game).input,
        final(game).domain_tag@ == old(game).domain_tag@,
        forall|i: int|
            0 <= i < final(game).players@.len() ==> committed_from(
                old(game).players@[i],
                final(game).players@[i],
            ),
{
    let n = game.players.len();
    let mut i: usize = 0;
    while i < n
        invariant
            0 <= i <= n,
            n == old(game).players@.len(),
            game.players@.len() == n,
            game.input == old(game).input,
            game.domain_tag@ == old(game).domain_tag@,
            forall|k: int| 0 <= k < i ==> committed_from(old(game).players@[k], game.players@[k]),
            forall|k: int| i <= k < n ==> game.players@[k] == old(game).players@[k],
        decreases n - i,
    {
        let mut p = game.players[i];
        if p.random_number.is_none() {
            let v = fresh_random_u32();
            let bytes = le_bytes_u32(v);
            let digest = blake2_256(&bytes);
            p.random_number = Some(v);
            p.commitment = Some(digest);
        }
        game.players.set(i, p);
        i = i + 1;
    }
}

/// The reveal step: checks, in registration order, that each player's value
/// hashes to their commitment.
pub fn reveal_and_verify(players: &Vec<Player>) -> (r: Result<(), RoundError>)
    ensures
        reveal_outcome(players@, r),
{
    let mut i: usize = 0;
    while i < players.len()
        invariant
            0 <= i <= players@.len(),
            forall|k: int| 0 <= k < i ==> reveal_ok(players@[k]),
        decreases players@.len() - i,
    {
        let p = &players[i];
        match (p.random_number, p.commitment) {
            (Some(v), Some(c)) => {
                let bytes = le_bytes_u32(v);
                let digest = blake2_256(&bytes);
                if !crate::encoding::same_bytes(&digest, &c) {
                    assert(first_failed_reveal(players@, i as int));
                    return Err(RoundError::CommitmentMismatch { player: i });
                }
            },
            _ => {
                assert(first_failed_reveal(players@, i as int));
                return Err(RoundError::IncompleteRound);
            },
        }
        i = i + 1;
    }
    Ok(())
}

/// The sum modulo 2^64 of the players' revealed values, in registration order.
pub fn sum_randoms(players: &Vec<Player>) -> (r: u64)
    ensures
        r == shared_seed(players@),
{
    let mut acc: u64 = 0;
    let mut i: usize = 0;
    while i < players.len()
        invariant
            0 <= i <= players@.len(),
            acc == shared_seed(players@.take(i as int)),
        decreases players@.len() - i,
    {
        let v: u64 = match players[i].random_number {
            Some(v) => v as u64,
            None => 0,
        };
        proof {
            let prefix = players@.take(i as int + 1);
            assert(prefix.drop_last() =~= players@.take(i as int));
            lemma_add_mod_noop(random_sum(players@.take(i as int)) as int, v as int, 0x1_0000_0000_0000_0000);
            assert(v < 0x1_0000_0000_0000_0000);
            assert((v as int) % 0x1_0000_0000_0000_0000 == v as int);
        }
        acc = acc.wrapping_add(v);
        i = i + 1;
    }
    assert(players@.take(i as int) =~= players@);
    acc
}

/// The finalize step: once every reveal matches, sets the shared seed to the
/// sum of the revealed values. On a failed reveal the round is left as it was
/// and has no seed.
pub fn finalize_seed(game: &mut Poker) -> (r: Result<(), RoundError>)
    requires
        old(game).input is None,
    ensures
        final(game).players@ == old(game).players@,
        final(game).domain_tag@ == old(game).domain_tag@,
        reveal_outcome(old(game).players@, r),
        r is Ok ==> final(game).input == Some(shared_seed(old(game).players@)),
        r is Err ==> final(game).input is None,
{
    match reveal_and_verify(&game.players) {
        Ok(()) => {
            let seed = sum_randoms(&game.players);
            game.input = Some(seed);
            Ok(())
        },
        Err(e) => Err(e),
    }
}

/// Commit, reveal and finalize in one go: fixes the round's shared seed.
pub fn generate_input(game: &mut Poker) -> (r: Result<(), RoundError>)
    requires
        old(game).input is None,
    ensures
        final(game).players@.len() == old(game).players@.len(),
        final(game).domain_tag@ == old(game).domain_tag@,
        forall|i: int|
            0 <= i < final(game).players@.len() ==> committed_from(
                old(game).players@[i],
                final(game).players@[i],
            ),
        reveal_outcome(final(game).players@, r),
        r is Ok ==> final(game).input == Some(shared_seed(final(game).players@)),
        r is Err ==> final(game).input is None,
        (forall|i: int| 0 <= i < old(game).players@.len() ==> old(game).players@[i].random_number is None)
            ==> r is Ok,
{
    commit_all(game);
    let r = finalize_seed(game);
    proof {
        if forall|i: int| 0 <= i < old(game).players@.len() ==> old(game).players@[i].random_number is None {
            assert forall|i: int| 0 <= i < game.players@.len() implies reveal_ok(game.players@[i]) by {
                assert(committed_from(old(game).players@[i], game.players@[i]));
            }
            if r is Err {
                let e = r->Err_0;
                let i = choose|i: int| first_failed_reveal(game.players@, i) && e == reveal_error(game.players@[i], i);
                assert(reveal_ok(game.players@[i]));
            }
        }
    }
    r
}

/// In a one-player round the shared seed is that player's own value.
pub proof fn lemma_one_player_seed(players: Seq<Player>)
    requires
        players.len() == 1,
        players[0].random_number is Some,
    ensures
        shared_seed(players) == players[0].random_number.unwrap() as u64,
{
    assert(players.drop_last().len() == 0);
    assert(random_sum(players.drop_last()) == 0);
    assert(players.last() == players[0]);
    assert(random_sum(players) == players[0].random_number.unwrap() as nat);
}

/// A player who held a value before the commit step and whose digest does not
/// match it makes the reveal fail with `CommitmentMismatch`, naming a player
/// whose value does not hash to their digest; when that player is the only
/// dishonest one, it is named. This needs every player who holds a value to
/// hold a digest too. `before` and `after` are the players around the commit
/// step, and `r` the outcome of checking the reveals after it.
pub proof fn lemma_dishonest_reveal_aborts(
    before: Seq<Player>,
    after: Seq<Player>,
    r: Result<(), RoundError>,
    k: int,
)
    requires
        before.len() <= usize::MAX,
        after.len() == before.len(),
        forall|i: int| 0 <= i < before.len() ==> committed_from(before[i], after[i]),
        reveal_outcome(after, r),
        forall|j: int|
            0 <= j < before.len() && (#[trigger] before[j]).random_number is Some
                ==> before[j].commitment is Some,
        0 <= k < before.len(),
        before[k].random_number is Some,
        before[k].commitment is Some,
        !reveal_ok(before[k]),
    ensures
        r matches Err(RoundError::CommitmentMismatch { player }) && {
            &&& player < before.len()
            &&& before[player as int].random_number is Some
            &&& before[player as int].commitment is Some
            &&& !reveal_ok(before[player as int])
            &&& (forall|j: int|
                0 <= j < before.len() && j != k && (#[trigger] before[j]).random_number is Some
                    ==> reveal_ok(before[j])) ==> player == k
        },
{
    assert(committed_from(before[k], after[k]));
    if r is Ok {
        assert(reveal_ok(after[k]));
    }
    let e = r->Err_0;
    let i = choose|i: int| first_failed_reveal(after, i) && e == reveal_error(after[i], i);
    assert(committed_from(before[i], after[i]));
    if before[i].random_number is None {
        assert(reveal_ok(after[i]));
    }
    assert(after[i] == before[i]);
    if forall|j: int|
        0 <= j < before.len() && j != k && (#[trigger] before[j]).random_number is Some
            ==> reveal_ok(before[j]) {
        assert(i == k);
    }
}

/// The message every draw signs: the shared seed, little-endian.
pub open spec fn seed_message(seed: u64) -> Seq<u8> {
    le_bytes(seed as nat, 8)
}

/// `d` is a draw made with `secret` on the transcript of `tag` and `seed`:
/// its output is the one the VRF gives there, and verification under the
/// matching public key gives back its input point, output and batchable proof.
pub open spec fn drawn_with(d: DrawResult, secret: Seq<u8>, tag: Seq<u8>, seed: u64) -> bool {
    let msg = seed_message(seed);
    &&& d.output@ == vrf_output_of(secret, tag, msg)
    &&& vrf_verify_of(public_key_of(secret), tag, msg, d.output@, d.proof@) == Some(
        (d.input@, d.output@, d.batchable@),
    )
}

/// How the draw leaves one player: everything kept, and a draw made with
/// their own secret key on the round's seed.
pub open spec fn drawn_from(before: Player, after: Player, tag: Seq<u8>, seed: u64) -> bool {
    &&& after.secret == before.secret
    &&& after.public == before.public
    &&& after.random_number == before.random_number
    &&& after.commitment == before.commitment
    &&& after.drawn_card matches Some(d) && drawn_with(d, before.secret@, tag, seed)
}

/// The card drawer: each player runs the VRF with their secret key on the
/// round's domain tag and the little-endian shared seed. The seed must be
/// fixed, the tag's length must fit in a `u32`, and no player may have drawn
/// yet.
pub fn draw_card(game: &mut Poker)
    requires
        old(game).input is Some,
        old(game).domain_tag@.len() <= u32::MAX,
        forall|i: int| 0 <= i < old(game).players@.len() ==> old(game).players@[i].drawn_card is None,
    ensures
        final(game).players@.len() == old(game).players@.len(),
        final(game).input == old(game).input,
        final(game).domain_tag@ == old(game).domain_tag@,
        forall|i: int|
            0 <= i < final(game).players@.len() ==> drawn_from(
                old(game).players@[i],
                final(game).players@[i],
                old(game).domain_tag@,
                old(game).input.unwrap(),
            ),
{
    let seed = match game.input {
        Some(s) => s,
        None => 0,
    };
    let msg = le_bytes_u64(seed);
    let n = game.players.len();
    let mut i: usize = 0;
    while i < n
        invariant
            0 <= i <= n,
            n == old(game).players@.len(),
            game.players@.len() == n,
            game.input == old(game).input,
            seed == old(game).input.unwrap(),
            msg@ == seed_message(seed),
            game.domain_tag@ == old(game).domain_tag@,
            game.domain_tag@.len() <= u32::MAX,
            forall|k: int|
                0 <= k < i ==> drawn_from(old(game).players@[k], game.players@[k], game.domain_tag@, seed),
            forall|k: int| i <= k < n ==> game.players@[k] == old(game).players@[k],
        decreases n - i,
    {
        let mut p = game.players[i];
        let (input, output, proof, batchable) = vrf_sign(&p.secret, game.domain_tag.as_slice(), &msg);
        p.drawn_card = Some(DrawResult { input, output, proof, batchable });
        game.players.set(i, p);
        i = i + 1;
    }
}

} // verus!
