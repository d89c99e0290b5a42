use vstd::prelude::*;
use crate::book::{
    MatchBook, book_wf, create_outcome, empty_book, pending_record, settle_outcome, settled_record,
    lemma_create_keeps_wf, lemma_one_open_match_per_player, lemma_settle_keeps_wf,
};
use crate::game_match::{AccountId, Balance, GameError, GameMatch, GameStatus, MatchId, Timestamp};
use crate::table::{find_key, table_wf, lemma_find_absent, lemma_table_push, lemma_table_remove, lemma_table_set};

verus! {

/// Game-match contract state: the match table and the player index, each a
/// list of entries with unique keys.
///
/// Settling a match releases both of its players from the index, so that a
/// player can open a new match once their previous one is settled. Records are
/// never deleted: a settled match keeps its id, which cannot be opened again.
pub struct Contract {
    owner_id: AccountId,
    matches: Vec<(MatchId, GameMatch)>,
    player_init_game: Vec<(AccountId, MatchId)>,
    match_map: Ghost<Map<Seq<char>, GameMatch>>,
    active_map: Ghost<Map<Seq<char>, MatchId>>,
}

impl View for Contract {
    type V = MatchBook;

    closed spec fn view(&self) -> MatchBook {
        MatchBook { matches: self.match_map@, active: self.active_map@ }
    }
}

impl Contract {
    /// The entry lists agree with the abstract state, which keeps its invariant.
    pub closed spec fn wf(&self) -> bool {
        &&& table_wf(self.matches@, self.match_map@)
        &&& table_wf(self.player_init_game@, self.active_map@)
        &&& book_wf(self@)
    }

    /// Two open matches of the contract that share a player are the same match.
    pub proof fn lemma_single_open_match(&self, p: Seq<char>, k1: Seq<char>, k2: Seq<char>)
        requires
            self.wf(),
            self@.matches.contains_key(k1),
            self@.matches.contains_key(k2),
            self@.matches[k1].status == GameStatus::Init,
            self@.matches[k2].status == GameStatus::Init,
            self@.matches[k1].has_player(p),
            self@.matches[k2].has_player(p),
        ensures
            k1 == k2,
    {
        lemma_one_open_match_per_player(self@, p, k1, k2);
    }

    /// Owner fixed at creation.
    pub closed spec fn owner(&self) -> Seq<char> {
        self.owner_id@
    }

    /// A contract with no matches and no enrolled players.
    pub fn new(owner_id: AccountId) -> (r: Contract)
        ensures
            r.wf(),
            r@ == empty_book(),
            r.owner() == owner_id@,
    {
        let r = Contract {
            owner_id,
            matches: Vec::new(),
            player_init_game: Vec::new(),
            match_map: Ghost(Map::empty()),
            active_map: Ghost(Map::empty()),
        };
        assert(r@ == empty_book());
        r
    }

    /// The record of match `match_id`, if it exists.
    pub fn get_matches(&self, match_id: MatchId) -> (r: Option<GameMatch>)
        requires
            self.wf(),
        ensures
            r == self@.matches.get(match_id@),
    {
        match find_key(&self.matches, &match_id) {
            Some(i) => Some(self.matches[i].1.duplicate()),
            None => {
                proof {
                    lemma_find_absent(self.matches@, self.match_map@, match_id@);
                }
                None
            },
        }
    }

    /// The id of the open match that `player` is enrolled in, if any.
    pub fn get_players_matches(&self, player: AccountId) -> (r: Option<MatchId>)
        requires
            self.wf(),
        ensures
            r == self@.active.get(player@),
    {
        match find_key(&self.player_init_game, &player) {
            Some(i) => Some(self.player_init_game[i].1.clone()),
            None => {
                proof {
                    lemma_find_absent(self.player_init_game@, self.active_map@, player@);
                }
                None
            },
        }
    }

    /// Opens match `match_id` between two players and enrolls both; refuses a
    /// self-match, a busy player (first player checked first) and a taken id.
    pub fn create_game_match(
        &mut self,
        match_id: MatchId,
        players: (AccountId, AccountId),
        balance: Balance,
        start_ts: Timestamp,
    ) -> (r: Result<GameMatch, GameError>)
        requires
            old(self).wf(),
        ensures
            final(self).wf(),
            final(self).owner() == old(self).owner(),
            match create_outcome(old(self)@, match_id, players, balance, start_ts) {
                Ok(s) => final(self)@ == s && r == Ok::<GameMatch, GameError>(
                    pending_record(players, balance, start_ts),
                ),
                Err(e) => final(self)@ == old(self)@ && r == Err::<GameMatch, GameError>(e),
            },
    {
        proof {
            lemma_create_keeps_wf_if_ok(old(self)@, match_id, players, balance, start_ts);
        }
        if players.0 == players.1 {
            return Err(GameError::SelfMatch);
        }
        if find_key(&self.player_init_game, &players.0).is_some() {
            return Err(GameError::PlayerBusy(players.0));
        }
        proof {
            lemma_find_absent(self.player_init_game@, self.active_map@, players.0@);
        }
        if find_key(&self.player_init_game, &players.1).is_some() {
            return Err(GameError::PlayerBusy(players.1));
        }
        proof {
            lemma_find_absent(self.player_init_game@, self.active_map@, players.1@);
        }
        if find_key(&self.matches, &match_id).is_some() {
            return Err(GameError::AlreadyExists);
        }
        proof {
            lemma_find_absent(self.matches@, self.match_map@, match_id@);
        }
        let first = players.0.clone();
        let second = players.1.clone();
        let record = GameMatch {
            players,
            balance,
            start_ts,
            status: GameStatus::Init,
            end_ts: None,
            winner: None,
        };
        let r = record.duplicate();
        proof {
            lemma_table_push(self.matches@, self.match_map@, match_id, record);
            lemma_table_push(self.player_init_game@, self.active_map@, first, match_id);
            lemma_table_push(
                self.player_init_game@.push((first, match_id)),
                self.active_map@.insert(first@, match_id),
                second,
                match_id,
            );
        }
        self.matches.push((match_id.clone(), record));
        self.player_init_game.push((first, match_id.clone()));
        self.player_init_game.push((second, match_id));
        proof {
            self.match_map@ = self.match_map@.insert(match_id@, r);
            self.active_map@ = self.active_map@.insert(first@, match_id).insert(second@, match_id);
        }
        Ok(r)
    }

    /// Removes the index entry of `player`, if any.
    fn release(&mut self, player: &AccountId)
        requires
            table_wf(old(self).player_init_game@, old(self).active_map@),
        ensures
            table_wf(final(self).player_init_game@, final(self).active_map@),
            final(self).active_map@ == old(self).active_map@.remove(player@),
            final(self).matches == old(self).matches,
            final(self).match_map == old(self).match_map,
            final(self).owner_id == old(self).owner_id,
    {
        match find_key(&self.player_init_game, player) {
            Some(i) => {
                proof {
                    lemma_table_remove(self.player_init_game@, self.active_map@, i as int);
                }
                self.player_init_game.remove(i);
                proof {
                    self.active_map@ = self.active_map@.remove(player@);
                }
            },
            None => {
                proof {
                    lemma_find_absent(self.player_init_game@, self.active_map@, player@);
                    assert(self.active_map@.remove(player@) =~= self.active_map@);
                }
            },
        }
    }

    /// Settles match `match_id` with `winner` at `end_ts` and releases both
    /// players; refuses an unknown id, a settled match and a winner who did
    /// not play.
    pub fn save_match_result(
        &mut self,
        match_id: MatchId,
        winner: AccountId,
        end_ts: Timestamp,
    ) -> (r: Result<GameMatch, GameError>)
        requires
            old(self).wf(),
        ensures
            final(self).wf(),
            final(self).owner() == old(self).owner(),
            match settle_outcome(old(self)@, match_id@, winner, end_ts) {
                Ok(s) => final(self)@ == s && r == Ok::<GameMatch, GameError>(s.matches[match_id@]),
                Err(e) => final(self)@ == old(self)@ && r == Err::<GameMatch, GameError>(e),
            },
    {
        proof {
            if settle_outcome(old(self)@, match_id@, winner, end_ts) is Ok {
                lemma_settle_keeps_wf(old(self)@, match_id@, winner, end_ts);
            }
        }
        let i = match find_key(&self.matches, &match_id) {
            Some(i) => i,
            None => {
                proof {
                    lemma_find_absent(self.matches@, self.match_map@, match_id@);
                }
                return Err(GameError::NotFound);
            },
        };
        let current = self.matches[i].1.duplicate();
        if current.status == GameStatus::Done {
            return Err(GameError::AlreadySettled);
        }
        if !(winner == current.players.0 || winner == current.players.1) {
            return Err(GameError::InvalidWinner);
        }
        let updated = GameMatch {
            status: GameStatus::Done,
            end_ts: Some(end_ts),
            winner: Some(winner),
            ..current
        };
        assert(updated == settled_record(current, winner, end_ts));
        let r = updated.duplicate();
        let key = self.matches[i].0.clone();
        proof {
            lemma_table_set(self.matches@, self.match_map@, i as int, updated);
        }
        self.matches.set(i, (key, updated));
        proof {
            self.match_map@ = self.match_map@.insert(match_id@, r);
        }
        self.release(&r.players.0);
        self.release(&r.players.1);
        Ok(r)
    }
}

proof fn lemma_create_keeps_wf_if_ok(
    s: MatchBook,
    match_id: MatchId,
    players: (AccountId, AccountId),
    balance: Balance,
    start_ts: Timestamp,
)
    requires
        book_wf(s),
    ensures
        create_outcome(s, match_id, players, balance, start_ts) is Ok ==> book_wf(
            create_outcome(s, match_id, players, balance, start_ts)->Ok_0,
        ),
{
    if create_outcome(s, match_id, players, balance, start_ts) is Ok {
        lemma_create_keeps_wf(s, match_id, players, balance, start_ts);
    }
}

} // verus!
