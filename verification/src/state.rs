//! The records that the ledger keeps, and the form in which the store keeps
//! the games.

use vstd::prelude::*;
use crate::error::ContractError;
use crate::msg::{GameMove, GameResult};
use crate::text::same_text;

verus! {

/// The key under which the store keeps the counter record.
pub const STATE: &'static str = "state";

/// The key under which the store keeps the admin record.
pub const ADMIN: &'static str = "admin";

/// The key under which the store keeps the hook list.
pub const HOOKS: &'static str = "hooks";

/// The counter and the identity that may reset it.
#[derive(Clone, Debug, PartialEq)]
pub struct State {
    pub count: i32,
    pub owner: String,
}

/// A counter record as contracts speak of it.
pub struct StateView {
    pub count: i32,
    pub owner: Seq<char>,
}

impl View for State {
    type V = StateView;

    open spec fn view(&self) -> StateView {
        StateView { count: self.count, owner: self.owner@ }
    }
}

/// A game that a host has opened and its opponent has not answered yet.
#[derive(Clone, Debug, PartialEq)]
pub struct GameState {
    pub host: String,
    pub opponent: String,
    pub host_move: GameMove,
    pub opp_move: Option<GameMove>,
    pub result: Option<GameResult>,
}

/// A game record as contracts speak of it.
pub struct GameView {
    pub host: Seq<char>,
    pub opponent: Seq<char>,
    pub host_move: GameMove,
    pub opp_move: Option<GameMove>,
    pub result: Option<GameResult>,
}

impl View for GameState {
    type V = GameView;

    open spec fn view(&self) -> GameView {
        GameView {
            host: self.host@,
            opponent: self.opponent@,
            host_move: self.host_move,
            opp_move: self.opp_move,
            result: self.result,
        }
    }
}

/// A game record in the form in which the store keeps it: moves and result
/// as numbers.
#[derive(Clone, Debug, PartialEq)]
pub struct GameRow {
    pub host: String,
    pub opponent: String,
    pub host_move: u8,
    pub opp_move: Option<u8>,
    pub result: Option<u8>,
}

/// A stored record as contracts speak of it.
pub struct RowView {
    pub host: Seq<char>,
    pub opponent: Seq<char>,
    pub host_move: u8,
    pub opp_move: Option<u8>,
    pub result: Option<u8>,
}

impl View for GameRow {
    type V = RowView;

    open spec fn view(&self) -> RowView {
        RowView {
            host: self.host@,
            opponent: self.opponent@,
            host_move: self.host_move,
            opp_move: self.opp_move,
            result: self.result,
        }
    }
}

/// The views of a list of stored records.
pub open spec fn row_views(rows: Seq<GameRow>) -> Seq<RowView> {
    rows.map_values(|r: GameRow| r@)
}

/// The views of a list of records that a scan found or missed.
pub open spec fn found_views(found: Seq<Option<GameRow>>) -> Seq<Option<RowView>> {
    found.map_values(
        |f: Option<GameRow>|
            match f {
                Some(row) => Some(row@),
                None => None,
            },
    )
}

/// The number that stands for a move in the store.
pub open spec fn move_code(m: GameMove) -> u8 {
    match m {
        GameMove::Rock => 0,
        GameMove::Paper => 1,
        GameMove::Scissors => 2,
    }
}

/// The move that a stored number stands for, if any.
pub open spec fn move_of(code: u8) -> Option<GameMove> {
    if code == 0 {
        Some(GameMove::Rock)
    } else if code == 1 {
        Some(GameMove::Paper)
    } else if code == 2 {
        Some(GameMove::Scissors)
    } else {
        None
    }
}

/// The number that stands for a result in the store.
pub open spec fn result_code(r: GameResult) -> u8 {
    match r {
        GameResult::HostWins => 0,
        GameResult::OpponentWins => 1,
        GameResult::Tie => 2,
    }
}

/// The result that a stored number stands for, if any.
pub open spec fn result_of(code: u8) -> Option<GameResult> {
    if code == 0 {
        Some(GameResult::HostWins)
    } else if code == 1 {
        Some(GameResult::OpponentWins)
    } else if code == 2 {
        Some(GameResult::Tie)
    } else {
        None
    }
}

/// The stored form of a game.
pub open spec fn row_of(g: GameView) -> RowView {
    RowView {
        host: g.host,
        opponent: g.opponent,
        host_move: move_code(g.host_move),
        opp_move: match g.opp_move {
            Some(m) => Some(move_code(m)),
            None => None,
        },
        result: match g.result {
            Some(r) => Some(result_code(r)),
            None => None,
        },
    }
}

/// Whether every number of a stored record stands for a move or a result.
pub open spec fn row_valid(r: RowView) -> bool {
    &&& move_of(r.host_move) is Some
    &&& r.opp_move matches Some(c) ==> move_of(c) is Some
    &&& r.result matches Some(c) ==> result_of(c) is Some
}

/// The game that a valid stored record stands for.
pub open spec fn game_of(r: RowView) -> GameView {
    GameView {
        host: r.host,
        opponent: r.opponent,
        host_move: move_of(r.host_move).unwrap(),
        opp_move: match r.opp_move {
            Some(c) => move_of(c),
            None => None,
        },
        result: match r.result {
            Some(c) => result_of(c),
            None => None,
        },
    }
}

/// A game's stored form is valid and stands for that game.
pub proof fn lemma_row_round_trip(g: GameView)
    ensures
        row_valid(row_of(g)),
        game_of(row_of(g)) == g,
{
}

/// A valid stored record is the stored form of the game it stands for.
pub proof fn lemma_game_round_trip(r: RowView)
    requires
        row_valid(r),
    ensures
        row_of(game_of(r)) == r,
{
}

impl GameMove {
    /// The number that stands for this move in the store.
    pub fn code(self) -> (c: u8)
        ensures
            c == move_code(self),
    {
        match self {
            GameMove::Rock => 0,
            GameMove::Paper => 1,
            GameMove::Scissors => 2,
        }
    }

    /// The move that `code` stands for; `None` where it stands for none.
    pub fn from_code(code: u8) -> (m: Option<GameMove>)
        ensures
            m == move_of(code),
    {
        if code == 0 {
            Some(GameMove::Rock)
        } else if code == 1 {
            Some(GameMove::Paper)
        } else if code == 2 {
            Some(GameMove::Scissors)
        } else {
            None
        }
    }
}

impl GameResult {
    /// The number that stands for this result in the store.
    pub fn code(self) -> (c: u8)
        ensures
            c == result_code(self),
    {
        match self {
            GameResult::HostWins => 0,
            GameResult::OpponentWins => 1,
            GameResult::Tie => 2,
        }
    }

    /// The result that `code` stands for; `None` where it stands for none.
    pub fn from_code(code: u8) -> (r: Option<GameResult>)
        ensures
            r == result_of(code),
    {
        if code == 0 {
            Some(GameResult::HostWins)
        } else if code == 1 {
            Some(GameResult::OpponentWins)
        } else if code == 2 {
            Some(GameResult::Tie)
        } else {
            None
        }
    }
}

impl GameState {
    /// The form in which the store keeps this game.
    pub fn to_row(&self) -> (row: GameRow)
        ensures
            row@ == row_of(self@),
    {
        GameRow {
            host: self.host.clone(),
            opponent: self.opponent.clone(),
            host_move: self.host_move.code(),
            opp_move: match self.opp_move {
                Some(m) => Some(m.code()),
                None => None,
            },
            result: match self.result {
                Some(r) => Some(r.code()),
                None => None,
            },
        }
    }
}

impl GameRow {
    /// The game that this record stands for; `None` where one of its numbers
    /// stands for nothing.
    pub fn to_game(&self) -> (game: Option<GameState>)
        ensures
            match game {
                Some(g) => row_valid(self@) && g@ == game_of(self@),
                None => !row_valid(self@),
            },
    {
        let host_move = match GameMove::from_code(self.host_move) {
            Some(m) => m,
            None => {
                return None;
            },
        };
        let opp_move = match self.opp_move {
            Some(c) => match GameMove::from_code(c) {
                Some(m) => Some(m),
                None => {
                    return None;
                },
            },
            None => None,
        };
        let result = match self.result {
            Some(c) => match GameResult::from_code(c) {
                Some(r) => Some(r),
                None => {
                    return None;
                },
            },
            None => None,
        };
        Some(
            GameState {
                host: self.host.clone(),
                opponent: self.opponent.clone(),
                host_move,
                opp_move,
                result,
            },
        )
    }
}

impl State {
    /// The record with the counter one higher; `Overflow` where it is at its
    /// highest.
    pub fn incremented(self) -> (r: Result<State, ContractError>)
        ensures
            match r {
                Ok(next) => self.count < i32::MAX && next@ == (StateView {
                    count: (self.count + 1) as i32,
                    ..self@
                }),
                Err(e) => self.count == i32::MAX && e == ContractError::Overflow {  },
            },
    {
        if self.count < i32::MAX {
            Ok(State { count: self.count + 1, owner: self.owner })
        } else {
            Err(ContractError::Overflow {})
        }
    }

    /// The record with the counter one lower; `Overflow` where it is at its
    /// lowest.
    pub fn decremented(self) -> (r: Result<State, ContractError>)
        ensures
            match r {
                Ok(next) => self.count > i32::MIN && next@ == (StateView {
                    count: (self.count - 1) as i32,
                    ..self@
                }),
                Err(e) => self.count == i32::MIN && e == ContractError::Overflow {  },
            },
    {
        if self.count > i32::MIN {
            Ok(State { count: self.count - 1, owner: self.owner })
        } else {
            Err(ContractError::Overflow {})
        }
    }

    /// The record with the counter at `count`, for the owner; `Unauthorized`
    /// for anyone else.
    pub fn reset(self, caller: &str, count: i32) -> (r: Result<State, ContractError>)
        ensures
            match r {
                Ok(next) => caller@ == self.owner@ && next@ == (StateView { count, ..self@ }),
                Err(e) => caller@ != self.owner@ && e == ContractError::Unauthorized {  },
            },
    {
        if same_text(caller, self.owner.as_str()) {
            Ok(State { count, owner: self.owner })
        } else {
            Err(ContractError::Unauthorized {})
        }
    }

    /// The record in the hands of `new_owner`, for the owner and an address
    /// that the chain accepted; `Unauthorized` for anyone else, and else
    /// `InvalidInput` where the chain refused the address.
    pub fn transferred(self, caller: &str, new_owner: Option<String>) -> (r: Result<
        State,
        ContractError,
    >)
        ensures
            match r {
                Ok(next) => {
                    &&& caller@ == self.owner@
                    &&& new_owner matches Some(owner)
                    &&& next@ == (StateView { owner: owner@, ..self@ })
                },
                Err(e) => if caller@ != self.owner@ {
                    e == ContractError::Unauthorized {  }
                } else {
                    new_owner is None && e == ContractError::InvalidInput {  }
                },
            },
    {
        if !same_text(caller, self.owner.as_str()) {
            return Err(ContractError::Unauthorized {});
        }
        match new_owner {
            Some(owner) => Ok(State { count: self.count, owner }),
            None => Err(ContractError::InvalidInput {}),
        }
    }
}

} // verus!
