pub mod game_match;
pub mod table;
pub mod book;
pub mod contract;

pub use contract::Contract;
pub use game_match::{AccountId, Balance, GameError, GameMatch, GameStatus, MatchId, Timestamp};
