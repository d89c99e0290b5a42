use vstd::prelude::*;
use crate::game_match::{AccountId, Balance, GameError, GameMatch, GameStatus, MatchId, Timestamp};

verus! {

/// Abstract state of the contract: the match table, keyed by match id, and the
/// player index, from each enrolled player to the id of their open match.
pub struct MatchBook {
    pub matches: Map<Seq<char>, GameMatch>,
    pub active: Map<Seq<char>, String>,
}

/// The record that opening a match writes.
pub open spec fn pending_record(
    players: (AccountId, AccountId),
    balance: Balance,
    start_ts: Timestamp,
) -> GameMatch {
    GameMatch { players, balance, start_ts, status: GameStatus::Init, end_ts: None, winner: None }
}

/// The record that settling `m` writes.
pub open spec fn settled_record(m: GameMatch, winner: AccountId, end_ts: Timestamp) -> GameMatch {
    GameMatch { status: GameStatus::Done, end_ts: Some(end_ts), winner: Some(winner), ..m }
}

/// Opening a match: the checks in their order, then the new state.
pub open spec fn create_outcome(
    s: MatchBook,
    match_id: MatchId,
    players: (AccountId, AccountId),
    balance: Balance,
    start_ts: Timestamp,
) -> Result<MatchBook, GameError> {
    if players.0@ == players.1@ {
        Err(GameError::SelfMatch)
    } else if s.active.contains_key(players.0@) {
        Err(GameError::PlayerBusy(players.0))
    } else if s.active.contains_key(players.1@) {
        Err(GameError::PlayerBusy(players.1))
    } else if s.matches.contains_key(match_id@) {
        Err(GameError::AlreadyExists)
    } else {
        Ok(
            MatchBook {
                matches: s.matches.insert(match_id@, pending_record(players, balance, start_ts)),
                active: s.active.insert(players.0@, match_id).insert(players.1@, match_id),
            },
        )
    }
}

/// Settling a match: the checks in their order, then the new state, in which
/// both players are released from the index.
pub open spec fn settle_outcome(
    s: MatchBook,
    match_id: Seq<char>,
    winner: AccountId,
    end_ts: Timestamp,
) -> Result<MatchBook, GameError> {
    if !s.matches.contains_key(match_id) {
        Err(GameError::NotFound)
    } else if s.matches[match_id].status == GameStatus::Done {
        Err(GameError::AlreadySettled)
    } else if !s.matches[match_id].has_player(winner@) {
        Err(GameError::InvalidWinner)
    } else {
        let m = s.matches[match_id];
        Ok(
            MatchBook {
                matches: s.matches.insert(match_id, settled_record(m, winner, end_ts)),
                active: s.active.remove(m.players.0@).remove(m.players.1@),
            },
        )
    }
}

/// A record is consistent: two distinct players, and end time and winner
/// present exactly when settled, the winner being one of the players.
pub open spec fn record_wf(m: GameMatch) -> bool {
    &&& m.players.0@ != m.players.1@
    &&& (m.status == GameStatus::Init <==> (m.end_ts is None && m.winner is None))
    &&& (m.status == GameStatus::Done <==> (m.end_ts is Some && m.winner is Some))
    &&& (m.winner matches Some(w) ==> m.has_player(w@))
}

/// The state's invariant: every record is consistent, every index entry points
/// at an open match of that player, and both players of every open match point at it.
pub open spec fn book_wf(s: MatchBook) -> bool {
    &&& forall|k: Seq<char>| #[trigger] s.matches.contains_key(k) ==> record_wf(s.matches[k])
    &&& forall|p: Seq<char>|
        #[trigger] s.active.contains_key(p) ==> {
            let k = s.active[p]@;
            &&& s.matches.contains_key(k)
            &&& s.matches[k].status == GameStatus::Init
            &&& s.matches[k].has_player(p)
        }
    &&& forall|k: Seq<char>|
        #[trigger] s.matches.contains_key(k) && s.matches[k].status == GameStatus::Init ==> {
            &&& s.active.contains_key(s.matches[k].players.0@)
            &&& s.active[s.matches[k].players.0@]@ == k
            &&& s.active.contains_key(s.matches[k].players.1@)
            &&& s.active[s.matches[k].players.1@]@ == k
        }
}

/// The empty state.
pub open spec fn empty_book() -> MatchBook {
    MatchBook { matches: Map::empty(), active: Map::empty() }
}

/// The empty state satisfies the invariant.
pub proof fn lemma_empty_wf()
    ensures
        book_wf(empty_book()),
{
}

/// Opening a match keeps the invariant.
pub proof fn lemma_create_keeps_wf(
    s: MatchBook,
    match_id: MatchId,
    players: (AccountId, AccountId),
    balance: Balance,
    start_ts: Timestamp,
)
    requires
        book_wf(s),
        create_outcome(s, match_id, players, balance, start_ts) is Ok,
    ensures
        book_wf(create_outcome(s, match_id, players, balance, start_ts)->Ok_0),
{
    let t = create_outcome(s, match_id, players, balance, start_ts)->Ok_0;
    assert forall|p: Seq<char>| #[trigger] t.active.contains_key(p) implies ({
        let k = t.active[p]@;
        &&& t.matches.contains_key(k)
        &&& t.matches[k].status == GameStatus::Init
        &&& t.matches[k].has_player(p)
    }) by {
        if p != players.0@ && p != players.1@ {
            assert(s.active.contains_key(p));
            assert(s.active[p]@ != match_id@);
        }
    }
    assert forall|k: Seq<char>|
        #[trigger] t.matches.contains_key(k) && t.matches[k].status == GameStatus::Init implies ({
        &&& t.active.contains_key(t.matches[k].players.0@)
        &&& t.active[t.matches[k].players.0@]@ == k
        &&& t.active.contains_key(t.matches[k].players.1@)
        &&& t.active[t.matches[k].players.1@]@ == k
    }) by {
        if k != match_id@ {
            assert(s.matches.contains_key(k));
            assert(s.active.contains_key(s.matches[k].players.0@));
            assert(s.active.contains_key(s.matches[k].players.1@));
        }
    }
}

/// Settling a match keeps the invariant.
pub proof fn lemma_settle_keeps_wf(
    s: MatchBook,
    match_id: Seq<char>,
    winner: AccountId,
    end_ts: Timestamp,
)
    requires
        book_wf(s),
        settle_outcome(s, match_id, winner, end_ts) is Ok,
    ensures
        book_wf(settle_outcome(s, match_id, winner, end_ts)->Ok_0),
{
    let t = settle_outcome(s, match_id, winner, end_ts)->Ok_0;
    let m = s.matches[match_id];
    assert(s.matches.contains_key(match_id));
    assert forall|p: Seq<char>| #[trigger] t.active.contains_key(p) implies ({
        let k = t.active[p]@;
        &&& t.matches.contains_key(k)
        &&& t.matches[k].status == GameStatus::Init
        &&& t.matches[k].has_player(p)
    }) by {
        assert(s.active.contains_key(p));
        let k = s.active[p]@;
        if k == match_id {
            assert(m.has_player(p));
        }
    }
    assert forall|k: Seq<char>|
        #[trigger] t.matches.contains_key(k) && t.matches[k].status == GameStatus::Init implies ({
        &&& t.active.contains_key(t.matches[k].players.0@)
        &&& t.active[t.matches[k].players.0@]@ == k
        &&& t.active.contains_key(t.matches[k].players.1@)
        &&& t.active[t.matches[k].players.1@]@ == k
    }) by {
        assert(k != match_id);
        assert(s.matches.contains_key(k));
        let q = s.matches[k];
        assert(s.active.contains_key(q.players.0@));
        assert(s.active.contains_key(q.players.1@));
        assert(s.active.contains_key(m.players.0@));
        assert(q.players.0@ != m.players.0@ && q.players.0@ != m.players.1@);
        assert(q.players.1@ != m.players.0@ && q.players.1@ != m.players.1@);
    }
}

/// A player is enrolled in at most one open match: two open matches that
/// share a player are the same match.
pub proof fn lemma_one_open_match_per_player(s: MatchBook, p: Seq<char>, k1: Seq<char>, k2: Seq<char>)
    requires
        book_wf(s),
        s.matches.contains_key(k1),
        s.matches.contains_key(k2),
        s.matches[k1].status == GameStatus::Init,
        s.matches[k2].status == GameStatus::Init,
        s.matches[k1].has_player(p),
        s.matches[k2].has_player(p),
    ensures
        k1 == k2,
{
    assert(s.active.contains_key(s.matches[k1].players.0@));
    assert(s.active.contains_key(s.matches[k2].players.0@));
}

/// Reading a match right after opening it gives the open record with the
/// players, stake and start time exactly as supplied.
pub proof fn lemma_create_then_get(
    s: MatchBook,
    match_id: MatchId,
    players: (AccountId, AccountId),
    balance: Balance,
    start_ts: Timestamp,
)
    requires
        create_outcome(s, match_id, players, balance, start_ts) is Ok,
    ensures
        ({
            let t = create_outcome(s, match_id, players, balance, start_ts)->Ok_0;
            &&& t.matches.get(match_id@) == Some(
                GameMatch {
                    players,
                    balance,
                    start_ts,
                    status: GameStatus::Init,
                    end_ts: None,
                    winner: None,
                },
            )
            &&& t.active.get(players.0@) == Some(match_id)
            &&& t.active.get(players.1@) == Some(match_id)
        }),
{
}

/// Settling an open match with one of its players as winner succeeds, and
/// settling it a second time fails with `AlreadySettled`.
pub proof fn lemma_settle_once(
    s: MatchBook,
    match_id: Seq<char>,
    winner: AccountId,
    end_ts: Timestamp,
    winner2: AccountId,
    end_ts2: Timestamp,
)
    requires
        s.matches.contains_key(match_id),
        s.matches[match_id].status == GameStatus::Init,
        s.matches[match_id].has_player(winner@),
    ensures
        settle_outcome(s, match_id, winner, end_ts) is Ok,
        ({
            let t = settle_outcome(s, match_id, winner, end_ts)->Ok_0;
            &&& t.matches[match_id] == settled_record(s.matches[match_id], winner, end_ts)
            &&& t.matches[match_id].status == GameStatus::Done
            &&& settle_outcome(t, match_id, winner2, end_ts2) == Err::<MatchBook, GameError>(
                GameError::AlreadySettled,
            )
        }),
{
}

/// Settling an open match with a winner who is not one of its players fails
/// with `InvalidWinner`.
pub proof fn lemma_invalid_winner(
    s: MatchBook,
    match_id: Seq<char>,
    winner: AccountId,
    end_ts: Timestamp,
)
    requires
        s.matches.contains_key(match_id),
        s.matches[match_id].status == GameStatus::Init,
        !s.matches[match_id].has_player(winner@),
    ensures
        settle_outcome(s, match_id, winner, end_ts) == Err::<MatchBook, GameError>(
            GameError::InvalidWinner,
        ),
{
}

/// Opening a match for two distinct players, one of whom is enrolled in an
/// open match, fails with `PlayerBusy` naming the first such player.
pub proof fn lemma_busy_player(
    s: MatchBook,
    match_id: MatchId,
    players: (AccountId, AccountId),
    balance: Balance,
    start_ts: Timestamp,
)
    requires
        players.0@ != players.1@,
        s.active.contains_key(players.0@) || s.active.contains_key(players.1@),
    ensures
        create_outcome(s, match_id, players, balance, start_ts) == Err::<MatchBook, GameError>(
            GameError::PlayerBusy(
                if s.active.contains_key(players.0@) {
                    players.0
                } else {
                    players.1
                },
            ),
        ),
{
}

} // verus!
