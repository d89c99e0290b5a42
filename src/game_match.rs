use vstd::prelude::*;

verus! {

/// Caller-chosen identifier of one match for its whole lifetime.
pub type MatchId = String;

/// Authenticated principal: a player or an operator.
pub type AccountId = String;

/// Wagered amount of a match, fixed when it is opened.
pub type Balance = u128;

/// Point in time supplied by the caller's environment.
pub type Timestamp = u64;

/// Lifecycle of a match: `Init` while it is open, `Done` once settled.
#[derive(Clone, Copy, Debug, PartialEq, Eq, Structural)]
pub enum GameStatus {
    Init,
    Done,
}

/// One two-player match record.
#[derive(Debug)]
pub struct GameMatch {
    pub players: (AccountId, AccountId),
    pub balance: Balance,
    pub start_ts: Timestamp,
    pub status: GameStatus,
    pub end_ts: Option<Timestamp>,
    pub winner: Option<AccountId>,
}

/// Why a mutating operation was refused; nothing is written when one is returned.
#[derive(Clone, Debug)]
pub enum GameError {
    NotFound,
    AlreadyExists,
    AlreadySettled,
    InvalidWinner,
    PlayerBusy(AccountId),
    SelfMatch,
}

pub open spec fn opt_str_same(a: Option<String>, b: Option<String>) -> bool {
    match (a, b) {
        (Some(x), Some(y)) => x@ == y@,
        (None, None) => true,
        _ => false,
    }
}

fn opt_str_eq(a: &Option<String>, b: &Option<String>) -> (r: bool)
    ensures
        r == opt_str_same(*a, *b),
{
    match (a, b) {
        (Some(x), Some(y)) => *x == *y,
        (None, None) => true,
        _ => false,
    }
}

fn opt_ts_eq(a: &Option<Timestamp>, b: &Option<Timestamp>) -> (r: bool)
    ensures
        r == (*a == *b),
{
    match (a, b) {
        (Some(x), Some(y)) => *x == *y,
        (None, None) => true,
        _ => false,
    }
}

impl GameMatch {
    /// Field-wise agreement, comparing identities by their text.
    pub open spec fn same_as(&self, o: &GameMatch) -> bool {
        &&& self.players.0@ == o.players.0@
        &&& self.players.1@ == o.players.1@
        &&& self.balance == o.balance
        &&& self.start_ts == o.start_ts
        &&& self.status == o.status
        &&& self.end_ts == o.end_ts
        &&& opt_str_same(self.winner, o.winner)
    }

    /// Whether `p` is one of the two players.
    pub open spec fn has_player(&self, p: Seq<char>) -> bool {
        self.players.0@ == p || self.players.1@ == p
    }

    /// A copy of the record, equal to it field for field.
    pub fn duplicate(&self) -> (r: GameMatch)
        ensures
            r == *self,
    {
        GameMatch {
            players: (self.players.0.clone(), self.players.1.clone()),
            balance: self.balance,
            start_ts: self.start_ts,
            status: self.status,
            end_ts: self.end_ts,
            winner: match &self.winner {
                Some(w) => Some(w.clone()),
                None => None,
            },
        }
    }
}

impl Clone for GameMatch {
    fn clone(&self) -> GameMatch {
        self.duplicate()
    }
}

impl PartialEq for GameMatch {
    fn eq(&self, o: &GameMatch) -> (r: bool) {
        self.players.0 == o.players.0 && self.players.1 == o.players.1 && self.balance == o.balance
            && self.start_ts == o.start_ts && self.status == o.status && opt_ts_eq(
            &self.end_ts,
            &o.end_ts,
        ) && opt_str_eq(&self.winner, &o.winner)
    }
}

impl vstd::std_specs::cmp::PartialEqSpecImpl for GameMatch {
    open spec fn obeys_eq_spec() -> bool {
        true
    }

    open spec fn eq_spec(&self, o: &GameMatch) -> bool {
        self.same_as(o)
    }
}

impl GameError {
    /// Same variant, and for `PlayerBusy` the same identity text.
    pub open spec fn same_as(&self, o: &GameError) -> bool {
        match (self, o) {
            (GameError::NotFound, GameError::NotFound) => true,
            (GameError::AlreadyExists, GameError::AlreadyExists) => true,
            (GameError::AlreadySettled, GameError::AlreadySettled) => true,
            (GameError::InvalidWinner, GameError::InvalidWinner) => true,
            (GameError::PlayerBusy(a), GameError::PlayerBusy(b)) => a@ == b@,
            (GameError::SelfMatch, GameError::SelfMatch) => true,
            _ => false,
        }
    }
}

impl PartialEq for GameError {
    fn eq(&self, o: &GameError) -> (r: bool) {
        match (self, o) {
            (GameError::NotFound, GameError::NotFound) => true,
            (GameError::AlreadyExists, GameError::AlreadyExists) => true,
            (GameError::AlreadySettled, GameError::AlreadySettled) => true,
            (GameError::InvalidWinner, GameError::InvalidWinner) => true,
            (GameError::PlayerBusy(a), GameError::PlayerBusy(b)) => *a == *b,
            (GameError::SelfMatch, GameError::SelfMatch) => true,
            _ => false,
        }
    }
}

impl vstd::std_specs::cmp::PartialEqSpecImpl for GameError {
    open spec fn obeys_eq_spec() -> bool {
        true
    }

    open spec fn eq_spec(&self, o: &GameError) -> bool {
        self.same_as(o)
    }
}

} // verus!
