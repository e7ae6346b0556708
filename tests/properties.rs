use vrf_poker::claim::verify_best_player;
use vrf_poker::encoding::{le_bytes_u32, le_bytes_u64, same_bytes};
use vrf_poker::round::{
    commit_all, draw_card, finalize_seed, generate_input, generate_key_pairs, reveal_and_verify,
    sum_randoms, DrawResult, Player, Poker, RoundError,
};
use vrf_poker::winner::{best_player_index, card_value, find_best_player, is_tie};

use sp_core::Hasher;

fn drawn_round(n: u8) -> Poker {
    let mut game = Poker::new(generate_key_pairs(n), None);
    generate_input(&mut game).unwrap();
    draw_card(&mut game);
    game
}

fn draw_with_output(output: [u8; 32]) -> DrawResult {
    DrawResult { input: [0u8; 32], output, proof: [0u8; 64], batchable: [0u8; 96] }
}

fn player_with_card(output: [u8; 32]) -> Player {
    let mut p = Player::new();
    p.drawn_card = Some(draw_with_output(output));
    p
}

#[test]
fn le_encodings_exact() {
    assert_eq!(le_bytes_u32(0x0403_0201), [1, 2, 3, 4]);
    assert_eq!(le_bytes_u64(32), [32, 0, 0, 0, 0, 0, 0, 0]);
    assert_eq!(le_bytes_u64(0x0807_0605_0403_0201), [1, 2, 3, 4, 5, 6, 7, 8]);
    assert_eq!(le_bytes_u64(u64::MAX), [255; 8]);
}

#[test]
fn same_bytes_compares_every_byte() {
    let a = [7u8; 32];
    let mut b = a;
    assert!(same_bytes(&a, &b));
    b[31] = 8;
    assert!(!same_bytes(&a, &b));
}

#[test]
fn domain_tag_is_game_name() {
    let game = Poker::new(Vec::new(), None);
    assert_eq!(game.domain_tag, b"Poker Game!".to_vec());
}

#[test]
fn fresh_player_public_key_matches_secret() {
    let p = Player::new();
    let mini = schnorrkel::MiniSecretKey::from_bytes(&p.secret).unwrap();
    let public = mini.expand_to_public(schnorrkel::ExpansionMode::Ed25519).to_bytes();
    assert_eq!(p.public, public);
    assert_ne!(p.public, p.secret);
}

#[test]
fn commitments_are_blake2_of_le_values() {
    let mut game = Poker::new(generate_key_pairs(3), None);
    commit_all(&mut game);
    for p in &game.players {
        let v = p.random_number.unwrap();
        let expected = sp_core::Blake2Hasher::hash(&v.to_le_bytes()).0;
        assert_eq!(p.commitment, Some(expected));
        assert_ne!(p.commitment.unwrap()[..4], v.to_le_bytes());
    }
}

#[test]
fn commit_keeps_existing_values() {
    let mut players = generate_key_pairs(2);
    players[0].random_number = Some(7);
    players[0].commitment = Some([1u8; 32]);
    let mut game = Poker::new(players, None);
    commit_all(&mut game);
    assert_eq!(game.players[0].random_number, Some(7));
    assert_eq!(game.players[0].commitment, Some([1u8; 32]));
    assert!(game.players[1].random_number.is_some());
}

#[test]
fn seed_is_sum_of_revealed_values() {
    let mut game = Poker::new(generate_key_pairs(4), None);
    generate_input(&mut game).unwrap();
    let expected = game
        .players
        .iter()
        .fold(0u64, |acc, p| acc.wrapping_add(p.random_number.unwrap() as u64));
    assert_eq!(game.input, Some(expected));
}

#[test]
fn seed_of_one_player_is_their_value() {
    let mut game = Poker::new(generate_key_pairs(1), None);
    generate_input(&mut game).unwrap();
    assert_eq!(game.input, Some(game.players[0].random_number.unwrap() as u64));
}

#[test]
fn seed_sum_exact_values() {
    let mut players = generate_key_pairs(3);
    players[0].random_number = Some(u32::MAX);
    players[1].random_number = Some(u32::MAX);
    players[2].random_number = Some(3);
    assert_eq!(sum_randoms(&players), 2 * (u32::MAX as u64) + 3);
}

#[test]
fn dishonest_reveal_is_reported_with_its_player() {
    let mut game = Poker::new(generate_key_pairs(4), None);
    commit_all(&mut game);
    let v = game.players[2].random_number.unwrap();
    game.players[2].random_number = Some(v.wrapping_add(1));
    assert_eq!(finalize_seed(&mut game), Err(RoundError::CommitmentMismatch { player: 2 }));
    assert_eq!(game.input, None);
}

#[test]
fn first_dishonest_player_is_named() {
    let mut game = Poker::new(generate_key_pairs(4), None);
    commit_all(&mut game);
    for i in [1usize, 3] {
        let v = game.players[i].random_number.unwrap();
        game.players[i].random_number = Some(v ^ 0x8000_0000);
    }
    assert_eq!(reveal_and_verify(&game.players), Err(RoundError::CommitmentMismatch { player: 1 }));
}

#[test]
fn missing_commitment_is_incomplete() {
    let mut game = Poker::new(generate_key_pairs(2), None);
    commit_all(&mut game);
    game.players[1].commitment = None;
    assert_eq!(finalize_seed(&mut game), Err(RoundError::IncompleteRound));
    assert_eq!(game.input, None);
}

#[test]
fn empty_round_has_zero_seed() {
    let mut game = Poker::new(Vec::new(), None);
    assert_eq!(generate_input(&mut game), Ok(()));
    assert_eq!(game.input, Some(0));
}

#[test]
fn card_value_exact() {
    assert_eq!(card_value(&draw_with_output([1u8; 32])), 32);
    assert_eq!(card_value(&draw_with_output([255u8; 32])), 48);
    assert_eq!(card_value(&draw_with_output([0u8; 32])), 0);
    let mut out = [0u8; 32];
    out[0] = 52;
    out[5] = 53;
    assert_eq!(card_value(&draw_with_output(out)), 1);
}

#[test]
fn drawn_card_output_is_vrf_output() {
    let game = drawn_round(2);
    let msg = game.input.unwrap().to_le_bytes();
    for p in &game.players {
        let d = p.drawn_card.unwrap();
        let pair = schnorrkel::MiniSecretKey::from_bytes(&p.secret)
            .unwrap()
            .expand_to_keypair(schnorrkel::ExpansionMode::Ed25519);
        let io = pair.vrf_create_hash(schnorrkel::signing_context(b"Poker Game!").bytes(&msg));
        assert_eq!(&d.output, io.as_output_bytes());
        assert_ne!(d.output, d.input);
    }
}

#[test]
fn winner_holds_highest_card() {
    let game = drawn_round(6);
    let best = best_player_index(&game.players);
    let best_value = card_value(&game.players[best].drawn_card.unwrap());
    for (j, p) in game.players.iter().enumerate() {
        let v = card_value(&p.drawn_card.unwrap());
        assert!(v <= best_value);
        if j < best {
            assert!(v < best_value);
        }
    }
    assert_eq!(find_best_player(&game.players).public, game.players[best].public);
}

#[test]
fn picks_highest_card() {
    let mut a = [0u8; 32];
    a[0] = 10;
    let mut b = [0u8; 32];
    b[0] = 40;
    let mut c = [0u8; 32];
    c[0] = 20;
    let players = vec![player_with_card(a), player_with_card(b), player_with_card(c)];
    assert_eq!(best_player_index(&players), 1);
    assert!(!is_tie(&players));
}

#[test]
fn equal_cards_first_wins_and_tie_reported() {
    let players = vec![
        player_with_card([0u8; 32]),
        player_with_card([0u8; 32]),
        player_with_card([0u8; 32]),
    ];
    assert_eq!(best_player_index(&players), 0);
    assert_eq!(find_best_player(&players).public, players[0].public);
    assert!(is_tie(&players));
}

#[test]
fn tie_on_highest_only() {
    let mut low = [0u8; 32];
    low[0] = 3;
    let mut high = [0u8; 32];
    high[0] = 51;
    let players = vec![player_with_card(low), player_with_card(high), player_with_card(low), player_with_card(high)];
    assert_eq!(best_player_index(&players), 1);
    assert!(is_tie(&players));
    let players = vec![player_with_card(low), player_with_card(high), player_with_card(low)];
    assert!(!is_tie(&players));
}

#[test]
fn every_drawn_player_verifies() {
    let game = drawn_round(4);
    for p in &game.players {
        assert!(verify_best_player(*p, game.clone()));
    }
}

#[test]
fn verify_twice_gives_same_answer() {
    let game = drawn_round(3);
    let p = game.players[1];
    assert_eq!(verify_best_player(p, game.clone()), verify_best_player(p, game.clone()));
    let mut bad = p;
    bad.drawn_card.as_mut().unwrap().proof[0] ^= 1;
    assert_eq!(verify_best_player(bad, game.clone()), verify_best_player(bad, game));
}

#[test]
fn corrupted_proof_is_rejected() {
    let game = drawn_round(3);
    let p = game.players[0];
    for k in [0usize, 17, 31, 32, 50, 63] {
        let mut bad = p;
        bad.drawn_card.as_mut().unwrap().proof[k] ^= 0x01;
        assert!(!verify_best_player(bad, game.clone()));
    }
}

#[test]
fn corrupted_output_is_rejected() {
    let game = drawn_round(3);
    let p = game.players[0];
    for k in [0usize, 9, 31] {
        let mut bad = p;
        bad.drawn_card.as_mut().unwrap().output[k] ^= 0x02;
        assert!(!verify_best_player(bad, game.clone()));
    }
}

#[test]
fn corrupted_seed_is_rejected() {
    let game = drawn_round(3);
    let p = game.players[0];
    for k in 0..8u32 {
        let mut other = game.clone();
        other.input = Some(game.input.unwrap() ^ (1u64 << (8 * k)));
        assert!(!verify_best_player(p, other));
    }
}

#[test]
fn corrupted_batchable_proof_is_rejected() {
    let game = drawn_round(2);
    let mut bad = game.players[1];
    bad.drawn_card.as_mut().unwrap().batchable[40] ^= 0x04;
    assert!(!verify_best_player(bad, game));
}

#[test]
fn other_players_key_is_rejected() {
    let game = drawn_round(2);
    let mut bad = game.players[0];
    bad.public = game.players[1].public;
    assert!(!verify_best_player(bad, game));
}

#[test]
fn four_player_round_end_to_end() {
    let mut game = Poker::new(generate_key_pairs(4), None);
    assert_eq!(generate_input(&mut game), Ok(()));
    let sum = game.players.iter().map(|p| p.random_number.unwrap() as u64).sum::<u64>();
    assert_eq!(game.input, Some(sum));
    draw_card(&mut game);
    assert!(game.players.iter().all(|p| p.drawn_card.is_some()));
    let winner = *find_best_player(&game.players);
    let best_value = card_value(&winner.drawn_card.unwrap());
    assert!(game.players.iter().all(|p| card_value(&p.drawn_card.unwrap()) <= best_value));
    assert!(verify_best_player(winner, game.clone()));
    let mut retagged = game.clone();
    retagged.domain_tag = b"Poker Game?".to_vec();
    assert!(!verify_best_player(winner, retagged));
}

#[test]
fn missing_seed_or_draw_is_rejected() {
    let game = drawn_round(2);
    let p = game.players[0];
    let mut unseeded = game.clone();
    unseeded.input = None;
    assert!(!verify_best_player(p, unseeded));
    let mut undrawn = p;
    undrawn.drawn_card = None;
    assert!(!verify_best_player(undrawn, game));
}
