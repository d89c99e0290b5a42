use game_contract::{Contract, GameError, GameMatch, GameStatus};

fn s(x: &str) -> String {
    x.to_string()
}

fn pending(a: &str, b: &str, balance: u128, start_ts: u64) -> GameMatch {
    GameMatch {
        players: (s(a), s(b)),
        balance,
        start_ts,
        status: GameStatus::Init,
        end_ts: None,
        winner: None,
    }
}

#[test]
fn test_get_matches() {
    let mut contract = Contract::new(s("alice.near"));
    contract
        .create_game_match(s("123456"), (s("alice.near"), s("bob.near")), 12345678, 0)
        .unwrap();
    assert_eq!(
        contract.get_matches("123456".to_string()),
        Some(pending("alice.near", "bob.near", 12345678, 0))
    );
}

#[test]
fn create_game_match() {
    // Both players are the same account here, which opening a match refuses.
    let mut contract = Contract::new(s("alice.near"));
    let bob = s("bob.near");
    let charlie = s("bob.near");
    assert_eq!(
        contract.create_game_match("match_1".to_owned(), (bob.clone(), charlie.clone()), 100, 0),
        Err(GameError::SelfMatch)
    );
    assert_eq!(contract.get_matches(s("match_1")), None);
}

#[test]
fn create_game_match_distinct_players() {
    let mut contract = Contract::new(s("alice.near"));
    assert_eq!(
        contract.create_game_match(
            "match_1".to_owned(),
            (s("bob.near"), s("charlie.near")),
            100,
            0
        ),
        Ok(pending("bob.near", "charlie.near", 100, 0))
    );
    assert_eq!(contract.get_players_matches(s("bob.near")), Some(s("match_1")));
    assert_eq!(contract.get_players_matches(s("charlie.near")), Some(s("match_1")));
    assert_eq!(contract.get_players_matches(s("alice.near")), None);
}

#[test]
fn save_match_result() {
    let mut contract = Contract::new(s("alice.near"));
    let bob = s("bob.near");
    let charlie = s("charlie.near");
    let start_time = 0u64;
    contract
        .create_game_match("match_1".to_owned(), (bob.clone(), charlie.clone()), 100, start_time)
        .unwrap();
    let end_time = start_time + 1_000 * 60;
    contract.save_match_result("match_1".to_owned(), bob.clone(), end_time).unwrap();
    let current_match = contract.get_matches("match_1".to_string()).unwrap();
    assert_eq!(current_match.winner, Some(bob.clone()));
    assert_eq!(current_match.end_ts, Some(60_000));
    assert_eq!(current_match.status, GameStatus::Done);
}

#[test]
fn settle_then_recreate_same_id() {
    let mut c = Contract::new(s("owner"));
    assert_eq!(
        c.create_game_match(s("m1"), (s("A"), s("B")), 100, 7),
        Ok(pending("A", "B", 100, 7))
    );
    assert_eq!(c.get_matches(s("m1")), Some(pending("A", "B", 100, 7)));
    let settled = GameMatch {
        players: (s("A"), s("B")),
        balance: 100,
        start_ts: 7,
        status: GameStatus::Done,
        end_ts: Some(9),
        winner: Some(s("B")),
    };
    assert_eq!(c.save_match_result(s("m1"), s("B"), 9), Ok(settled.clone()));
    assert_eq!(c.get_matches(s("m1")), Some(settled.clone()));
    assert_eq!(c.get_players_matches(s("A")), None);
    assert_eq!(c.get_players_matches(s("B")), None);
    assert_eq!(
        c.create_game_match(s("m1"), (s("A"), s("B")), 50, 11),
        Err(GameError::AlreadyExists)
    );
    assert_eq!(c.get_matches(s("m1")), Some(settled));
}

#[test]
fn busy_player_blocks_second_match() {
    let mut c = Contract::new(s("owner"));
    c.create_game_match(s("m1"), (s("A"), s("B")), 100, 1).unwrap();
    assert_eq!(
        c.create_game_match(s("m2"), (s("A"), s("C")), 100, 2),
        Err(GameError::PlayerBusy(s("A")))
    );
    assert_eq!(c.get_matches(s("m2")), None);
    assert_eq!(c.get_players_matches(s("C")), None);
}

#[test]
fn busy_second_player_reported() {
    let mut c = Contract::new(s("owner"));
    c.create_game_match(s("m1"), (s("A"), s("B")), 100, 1).unwrap();
    assert_eq!(
        c.create_game_match(s("m2"), (s("C"), s("B")), 100, 2),
        Err(GameError::PlayerBusy(s("B")))
    );
    assert_eq!(
        c.create_game_match(s("m2"), (s("A"), s("B")), 100, 2),
        Err(GameError::PlayerBusy(s("A")))
    );
}

#[test]
fn players_free_after_settlement() {
    let mut c = Contract::new(s("owner"));
    c.create_game_match(s("m1"), (s("A"), s("B")), 100, 1).unwrap();
    c.save_match_result(s("m1"), s("A"), 2).unwrap();
    assert_eq!(
        c.create_game_match(s("m2"), (s("A"), s("C")), 30, 3),
        Ok(pending("A", "C", 30, 3))
    );
    assert_eq!(c.get_players_matches(s("A")), Some(s("m2")));
}

#[test]
fn second_settlement_rejected() {
    let mut c = Contract::new(s("owner"));
    c.create_game_match(s("m1"), (s("A"), s("B")), 100, 1).unwrap();
    let first = c.save_match_result(s("m1"), s("A"), 2).unwrap();
    assert_eq!(c.save_match_result(s("m1"), s("B"), 3), Err(GameError::AlreadySettled));
    assert_eq!(c.get_matches(s("m1")), Some(first));
}

#[test]
fn invalid_winner_rejected() {
    let mut c = Contract::new(s("owner"));
    c.create_game_match(s("m1"), (s("A"), s("B")), 100, 1).unwrap();
    assert_eq!(c.save_match_result(s("m1"), s("Z"), 2), Err(GameError::InvalidWinner));
    assert_eq!(c.get_matches(s("m1")), Some(pending("A", "B", 100, 1)));
    assert_eq!(c.get_players_matches(s("A")), Some(s("m1")));
}

#[test]
fn unknown_match_not_found() {
    let mut c = Contract::new(s("owner"));
    assert_eq!(c.save_match_result(s("nope"), s("A"), 2), Err(GameError::NotFound));
    assert_eq!(c.get_matches(s("nope")), None);
}

#[test]
fn self_match_checked_before_busy() {
    let mut c = Contract::new(s("owner"));
    c.create_game_match(s("m1"), (s("A"), s("B")), 100, 1).unwrap();
    assert_eq!(
        c.create_game_match(s("m2"), (s("A"), s("A")), 100, 2),
        Err(GameError::SelfMatch)
    );
}

#[test]
fn largest_stake_and_time_kept() {
    let mut c = Contract::new(s("owner"));
    let r = c.create_game_match(s("big"), (s("A"), s("B")), u128::MAX, u64::MAX).unwrap();
    assert_eq!(r.balance, u128::MAX);
    assert_eq!(r.start_ts, u64::MAX);
    let done = c.save_match_result(s("big"), s("A"), u64::MAX).unwrap();
    assert_eq!(done.end_ts, Some(u64::MAX));
    assert_eq!(done.balance, u128::MAX);
}

#[test]
fn many_matches_disjoint_players() {
    let mut c = Contract::new(s("owner"));
    for i in 0..20u32 {
        let id = format!("m{}", i);
        let a = format!("p{}", 2 * i);
        let b = format!("p{}", 2 * i + 1);
        c.create_game_match(id.clone(), (a.clone(), b.clone()), i as u128, i as u64).unwrap();
        assert_eq!(c.get_players_matches(a), Some(id.clone()));
        assert_eq!(c.get_players_matches(b), Some(id));
    }
    c.save_match_result(s("m5"), s("p11"), 100).unwrap();
    assert_eq!(c.get_players_matches(s("p10")), None);
    assert_eq!(c.get_players_matches(s("p12")), Some(s("m6")));
    assert_eq!(c.get_matches(s("m19")), Some(pending("p38", "p39", 19, 19)));
}
