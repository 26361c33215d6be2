//! The games as a collection: the records by pair `(host, opponent)`, the
//! index by opponent, and the one write path that keeps the two together.

use vstd::prelude::*;
use cosmwasm_std::{Deps, DepsMut};
use crate::chain::{
    as_reader, games_erase, games_read, games_under_host, games_write, host_walk_along,
    index_erase, index_scan, index_write, intact_in, ledger_in, ledger_of, opponent_walk_along,
    store_intact,
};
use crate::error::ContractError;
use crate::keys::{bytes_before, fits_key, is_key_part, key_bytes, pair_key};
use crate::ledger::Ledger;
use crate::state::{found_views, row_of, row_views, GameState, GameView, RowView};
use crate::state::{lemma_game_round_trip, lemma_row_round_trip};

verus! {

/// The views of a list of games.
pub open spec fn game_views(games: Seq<GameState>) -> Seq<GameView> {
    games.map_values(|g: GameState| g@)
}

/// Whether `listed` holds exactly the games that `host` has open, each once,
/// in the order of the opponents' key bytes.
pub open spec fn lists_host(
    games: Map<(Seq<char>, Seq<char>), RowView>,
    host: Seq<char>,
    listed: Seq<GameView>,
) -> bool {
    &&& forall|i: int, j: int|
        0 <= i < j < listed.len() ==> bytes_before(
            key_bytes(#[trigger] listed[i].opponent),
            key_bytes(#[trigger] listed[j].opponent),
        )
    &&& forall|i: int|
        0 <= i < listed.len() ==> {
            &&& (#[trigger] listed[i]).host == host
            &&& games.contains_key((host, listed[i].opponent))
            &&& games[(host, listed[i].opponent)] == row_of(listed[i])
        }
    &&& forall|opponent: Seq<char>| #[trigger]
        games.contains_key((host, opponent)) ==> exists|i: int|
            0 <= i < listed.len() && (#[trigger] listed[i]).opponent == opponent
}

/// Whether `listed` holds exactly the games that were opened against
/// `opponent`, each once, in the order of the pairs' key bytes.
pub open spec fn lists_opponent(
    games: Map<(Seq<char>, Seq<char>), RowView>,
    opponent: Seq<char>,
    listed: Seq<GameView>,
) -> bool {
    &&& forall|i: int, j: int|
        0 <= i < j < listed.len() ==> bytes_before(
            pair_key(((#[trigger] listed[i]).host, opponent)),
            pair_key(((#[trigger] listed[j]).host, opponent)),
        )
    &&& forall|i: int|
        0 <= i < listed.len() ==> {
            &&& (#[trigger] listed[i]).opponent == opponent
            &&& games.contains_key((listed[i].host, opponent))
            &&& games[(listed[i].host, opponent)] == row_of(listed[i])
        }
    &&& forall|host: Seq<char>| #[trigger]
        games.contains_key((host, opponent)) ==> exists|i: int|
            0 <= i < listed.len() && (#[trigger] listed[i]).host == host
}

/// The pair that a game is kept under.
pub open spec fn pair_of(game: GameView) -> (Seq<char>, Seq<char>) {
    (game.host, game.opponent)
}

/// Whether `listed` holds exactly the games whose pair has an entry under
/// `opponent` in `index` and a record in `games`, each once, in the order of
/// the pairs' key bytes.
pub open spec fn lists_filed(
    index: Set<(Seq<char>, (Seq<char>, Seq<char>))>,
    games: Map<(Seq<char>, Seq<char>), RowView>,
    opponent: Seq<char>,
    listed: Seq<GameView>,
) -> bool {
    &&& forall|i: int, j: int|
        0 <= i < j < listed.len() ==> bytes_before(
            pair_key(pair_of(#[trigger] listed[i])),
            pair_key(pair_of(#[trigger] listed[j])),
        )
    &&& forall|i: int|
        0 <= i < listed.len() ==> {
            &&& index.contains((opponent, pair_of(#[trigger] listed[i])))
            &&& games.contains_key(pair_of(listed[i]))
            &&& games[pair_of(listed[i])] == row_of(listed[i])
        }
    &&& forall|pair: (Seq<char>, Seq<char>)|
        #![trigger index.contains((opponent, pair))]
        index.contains((opponent, pair)) && games.contains_key(pair) ==> exists|i: int|
            0 <= i < listed.len() && pair_of(#[trigger] listed[i]) == pair
}

/// In a ledger that meets its invariant, the games that the index lists
/// under an opponent are exactly the games that were opened against it.
pub proof fn lemma_filed_are_opponents(ledger: Ledger, opponent: Seq<char>, listed: Seq<GameView>)
    requires
        ledger.wf(),
        lists_filed(ledger.index, ledger.games, opponent, listed),
    ensures
        lists_opponent(ledger.games, opponent, listed),
{
    assert forall|i: int| 0 <= i < listed.len() implies {
        &&& (#[trigger] listed[i]).opponent == opponent
        &&& ledger.games.contains_key((listed[i].host, opponent))
        &&& ledger.games[(listed[i].host, opponent)] == row_of(listed[i])
    } by {
        assert(ledger.index.contains((opponent, pair_of(listed[i]))));
    }
    assert forall|host: Seq<char>| #[trigger]
        ledger.games.contains_key((host, opponent)) implies exists|i: int|
        0 <= i < listed.len() && (#[trigger] listed[i]).host == host by {
        let pair = (host, opponent);
        assert(ledger.index.contains(Ledger::entry(pair, ledger.games[pair])));
        assert(ledger.index.contains((opponent, pair)));
        let i = choose|i: int| 0 <= i < listed.len() && pair_of(#[trigger] listed[i]) == pair;
        assert(listed[i].host == host);
    }
    assert forall|i: int, j: int| 0 <= i < j < listed.len() implies bytes_before(
        pair_key(((#[trigger] listed[i]).host, opponent)),
        pair_key(((#[trigger] listed[j]).host, opponent)),
    ) by {
        assert(pair_of(listed[i]) == (listed[i].host, opponent));
        assert(pair_of(listed[j]) == (listed[j].host, opponent));
    }
}

/// The namespace under which the store keeps the game records.
pub const GAMES: &'static str = "states";

/// The namespace under which the store keeps the index of the games by
/// opponent.
pub const GAMES_BY_OPPONENT: &'static str = "states__opponent";

/// The index of the games by opponent: it files each record under the
/// opponent that the record names. The collection that owns it calls
/// `on_insert` and `on_remove` as it writes; `by_opponent` reads it.
#[derive(Clone, Copy, Debug)]
pub struct GameIndexes {
    records: &'static str,
    opponent: &'static str,
}

/// The games: the records by pair and their index behind one write path.
#[derive(Clone, Copy, Debug)]
pub struct Games {
    states: &'static str,
    idx: GameIndexes,
}

impl GameIndexes {
    /// The index reads and writes under the two namespaces of the games.
    #[verifier::type_invariant]
    spec fn named(self) -> bool {
        self.records@ == GAMES@ && self.opponent@ == GAMES_BY_OPPONENT@
    }

    /// The namespace under which the index keeps its entries.
    pub closed spec fn namespace(self) -> Seq<char> {
        self.opponent@
    }

    /// The namespace of the records that the entries point to.
    pub closed spec fn records(self) -> Seq<char> {
        self.records@
    }

    /// The key under which the index files a game: its opponent.
    pub open spec fn filed_under(game: GameView) -> Seq<char> {
        game.opponent
    }

    /// Files `game` under its opponent.
    pub fn on_insert(&self, deps: &mut DepsMut, game: &GameState) -> (r: Result<(), ContractError>)
        requires
            intact_in(*old(deps)),
            fits_key(game.host@),
            fits_key(game.opponent@),
        ensures
            r is Ok,
            intact_in(*final(deps)),
            ledger_in(*final(deps)) == (Ledger {
                index: ledger_in(*old(deps)).index.insert(
                    (GameIndexes::filed_under(game@), pair_of(game@)),
                ),
                ..ledger_in(*old(deps))
            }),
    {
        proof {
            use_type_invariant(self);
        }
        let row = game.to_row();
        match index_write(
            deps,
            self.records,
            self.opponent,
            game.host.as_str(),
            game.opponent.as_str(),
            &row,
        ) {
            Ok(_) => Ok(()),
            Err(e) => Err(ContractError::Std(e)),
        }
    }

    /// Takes the entry of `game` out of the index.
    pub fn on_remove(&self, deps: &mut DepsMut, game: &GameState)
        requires
            intact_in(*old(deps)),
            fits_key(game.host@),
            fits_key(game.opponent@),
        ensures
            intact_in(*final(deps)),
            ledger_in(*final(deps)) == (Ledger {
                index: ledger_in(*old(deps)).index.remove(
                    (GameIndexes::filed_under(game@), pair_of(game@)),
                ),
                ..ledger_in(*old(deps))
            }),
    {
        proof {
            use_type_invariant(self);
        }
        let row = game.to_row();
        index_erase(
            deps,
            self.records,
            self.opponent,
            game.host.as_str(),
            game.opponent.as_str(),
            &row,
        );
    }

    /// The games whose pair is filed under `opponent`, in the order of their
    /// keys. An entry of the index whose record is gone counts as no game.
    pub fn by_opponent(&self, deps: Deps, opponent: &str) -> (r: Result<
        Vec<GameState>,
        ContractError,
    >)
        requires
            store_intact(deps),
            ledger_of(deps).records_sound(),
            fits_key(opponent@),
        ensures
            r matches Ok(listed) && lists_filed(
                ledger_of(deps).index,
                ledger_of(deps).games,
                opponent@,
                game_views(listed@),
            ),
    {
        proof {
            use_type_invariant(self);
        }
        let ghost ledger = ledger_of(deps);
        let mut listed: Vec<GameState> = Vec::new();
        let found = index_scan(deps, self.records, self.opponent, opponent);
        let ghost pairs: Seq<(Seq<char>, Seq<char>)> = choose|pairs: Seq<(Seq<char>, Seq<char>)>|
            opponent_walk_along(ledger.index, ledger.games, opponent@, found_views(found@), pairs);
        let ghost mut origins: Seq<int> = Seq::empty();
        let mut i: usize = 0;
        while i < found.len()
            invariant
                i <= found.len(),
                ledger == ledger_of(deps),
                ledger.records_sound(),
                opponent_walk_along(
                    ledger.index,
                    ledger.games,
                    opponent@,
                    found_views(found@),
                    pairs,
                ),
                origins.len() == listed@.len(),
                forall|k: int| 0 <= k < origins.len() ==> 0 <= #[trigger] origins[k] < i,
                forall|k: int, m: int|
                    0 <= k < m < origins.len() ==> #[trigger] origins[k] < #[trigger] origins[m],
                forall|k: int|
                    0 <= k < origins.len() ==> ledger.games.contains_key(
                        pairs[#[trigger] origins[k]],
                    ) && row_of(listed@[k]@) == ledger.games[pairs[origins[k]]],
                forall|a: int|
                    0 <= a < i && ledger.games.contains_key(#[trigger] pairs[a])
                        ==> origins.contains(a),
            decreases found.len() - i,
        {
            assert(found_views(found@)[i as int] == (match found@[i as int] {
                Some(row) => Some(row@),
                None => None,
            }));
            let ghost at = i as int;
            let ghost before = origins;
            match &found[i] {
                Some(row) => {
                    assert(row@ == ledger.games[pairs[at]]);
                    match row.to_game() {
                        Some(game) => {
                            proof {
                                lemma_game_round_trip(row@);
                                origins = origins.push(at);
                            }
                            listed.push(game);
                            assert forall|a: int|
                                0 <= a < i + 1 && ledger.games.contains_key(
                                    #[trigger] pairs[a],
                                ) implies origins.contains(a) by {
                                if a < at {
                                    assert(before.contains(a));
                                    let k = choose|k: int| 0 <= k < before.len() && before[k] == a;
                                    assert(origins[k] == a);
                                } else {
                                    assert(origins[origins.len() - 1] == a);
                                }
                            }
                        },
                        None => {
                            assert(false);
                        },
                    }
                },
                None => {},
            }
            i = i + 1;
        }
        proof {
            let views = game_views(listed@);
            assert forall|k: int| 0 <= k < views.len() implies pair_of(#[trigger] views[k])
                == pairs[origins[k]] by {
                assert(ledger.games.contains_key(pairs[origins[k]]));
            }
            assert forall|pair: (Seq<char>, Seq<char>)|
                #![trigger ledger.index.contains((opponent@, pair))]
                ledger.index.contains((opponent@, pair)) && ledger.games.contains_key(
                    pair,
                ) implies exists|k: int|
                0 <= k < views.len() && pair_of(#[trigger] views[k]) == pair by {
                assert(pairs.contains(pair));
                let a = choose|a: int| 0 <= a < pairs.len() && pairs[a] == pair;
                assert(origins.contains(a));
                let k = choose|k: int| 0 <= k < origins.len() && origins[k] == a;
                assert(pair_of(views[k]) == pair);
            }
            assert forall|k: int, m: int| 0 <= k < m < views.len() implies bytes_before(
                pair_key(pair_of(#[trigger] views[k])),
                pair_key(pair_of(#[trigger] views[m])),
            ) by {
                assert(origins[k] < origins[m]);
            }
        }
        Ok(listed)
    }
}

impl Default for Games {
    /// The collection of the games: its records under `GAMES`, and its index
    /// by opponent under `GAMES_BY_OPPONENT`, which points to those records.
    fn default() -> (games: Games)
        ensures
            games.namespace() == GAMES@,
            games.index().namespace() == GAMES_BY_OPPONENT@,
            games.index().records() == GAMES@,
    {
        Games { states: GAMES, idx: GameIndexes { records: GAMES, opponent: GAMES_BY_OPPONENT } }
    }
}

impl Games {
    /// The collection reads and writes its records under their namespace.
    #[verifier::type_invariant]
    spec fn named(self) -> bool {
        self.states@ == GAMES@
    }

    /// The namespace under which the collection keeps its records.
    pub closed spec fn namespace(self) -> Seq<char> {
        self.states@
    }

    /// The collection's index by opponent.
    pub closed spec fn index(self) -> GameIndexes {
        self.idx
    }

    /// The collection's index by opponent.
    pub fn idx(&self) -> (index: &GameIndexes)
        ensures
            *index == self.index(),
    {
        &self.idx
    }

    /// The game of the pair, `None` where the pair has none.
    pub fn may_load(&self, deps: Deps, host: &str, opponent: &str) -> (r: Result<
        Option<GameState>,
        ContractError,
    >)
        requires
            store_intact(deps),
            ledger_of(deps).records_sound(),
        ensures
            r matches Ok(found) && match found {
                Some(game) => ledger_of(deps).games.contains_key((host@, opponent@)) && row_of(
                    game@,
                ) == ledger_of(deps).games[(host@, opponent@)],
                None => !ledger_of(deps).games.contains_key((host@, opponent@)),
            },
    {
        proof {
            use_type_invariant(self);
        }
        if !is_key_part(host) {
            return Ok(None);
        }
        match games_read(deps, self.states, host, opponent) {
            Ok(Some(row)) => {
                proof {
                    lemma_game_round_trip(row@);
                }
                match row.to_game() {
                    Some(game) => Ok(Some(game)),
                    None => Err(ContractError::InvalidInput {}),
                }
            },
            Ok(None) => Ok(None),
            Err(e) => Err(ContractError::Std(e)),
        }
    }

    /// Writes `game` under its pair: first its entry in the index, then the
    /// record.
    pub fn save(&self, deps: &mut DepsMut, game: &GameState) -> (r: Result<(), ContractError>)
        requires
            intact_in(*old(deps)),
            ledger_in(*old(deps)).wf(),
            fits_key(game.host@),
            fits_key(game.opponent@),
        ensures
            r is Ok,
            intact_in(*final(deps)),
            ledger_in(*final(deps)).wf(),
            ledger_in(*final(deps)) == ledger_in(*old(deps)).with_game(game@),
    {
        proof {
            use_type_invariant(self);
        }
        let ghost pre = ledger_in(*deps);
        proof {
            lemma_row_round_trip(game@);
        }
        match self.idx.on_insert(deps, game) {
            Ok(_) => {},
            Err(e) => {
                return Err(e);
            },
        }
        let row = game.to_row();
        match games_write(deps, self.states, game.host.as_str(), game.opponent.as_str(), &row) {
            Ok(_) => {
                assert(ledger_in(*deps) == pre.with_game(game@));
                Ok(())
            },
            Err(e) => Err(ContractError::Std(e)),
        }
    }

    /// Takes the game of the pair out and hands it back: first the record,
    /// then its entry in the index. Fails with `NotFound`, and writes nothing,
    /// where the pair has no game.
    pub fn remove(&self, deps: &mut DepsMut, host: &str, opponent: &str) -> (r: Result<
        GameState,
        ContractError,
    >)
        requires
            intact_in(*old(deps)),
            ledger_in(*old(deps)).wf(),
        ensures
            intact_in(*final(deps)),
            ledger_in(*final(deps)).wf(),
            match r {
                Ok(game) => {
                    &&& ledger_in(*old(deps)).games.contains_key((host@, opponent@))
                    &&& row_of(game@) == ledger_in(*old(deps)).games[(host@, opponent@)]
                    &&& ledger_in(*final(deps)) == ledger_in(*old(deps)).without_game(
                        (host@, opponent@),
                    )
                },
                Err(e) => {
                    &&& e == ContractError::NotFound {  }
                    &&& !ledger_in(*old(deps)).games.contains_key((host@, opponent@))
                    &&& ledger_in(*final(deps)) == ledger_in(*old(deps))
                },
            },
    {
        proof {
            use_type_invariant(self);
        }
        let ghost pre = ledger_in(*deps);
        match self.may_load(as_reader(deps), host, opponent) {
            Ok(Some(game)) => {
                assert(pre.games.contains_key((host@, opponent@)));
                games_erase(deps, self.states, host, opponent);
                self.idx.on_remove(deps, &game);
                assert(ledger_in(*deps) == pre.without_game((host@, opponent@)));
                Ok(game)
            },
            Ok(None) => Err(ContractError::NotFound {}),
            Err(e) => Err(e),
        }
    }

    /// The games that `host` has open, in the order of their opponents' keys.
    pub fn by_host(&self, deps: Deps, host: &str) -> (r: Result<Vec<GameState>, ContractError>)
        requires
            store_intact(deps),
            ledger_of(deps).records_sound(),
        ensures
            r matches Ok(listed) && lists_host(ledger_of(deps).games, host@, game_views(listed@)),
    {
        let ghost ledger = ledger_of(deps);
        let mut listed: Vec<GameState> = Vec::new();
        if !is_key_part(host) {
            assert(lists_host(ledger.games, host@, game_views(listed@)));
            return Ok(listed);
        }
        proof {
            use_type_invariant(self);
        }
        let rows = match games_under_host(deps, self.states, host) {
            Ok(rows) => rows,
            Err(e) => {
                return Err(ContractError::Std(e));
            },
        };
        let ghost opponents: Seq<Seq<char>> = choose|opponents: Seq<Seq<char>>|
            host_walk_along(ledger.games, host@, row_views(rows@), opponents);
        let mut i: usize = 0;
        while i < rows.len()
            invariant
                i <= rows.len(),
                ledger == ledger_of(deps),
                ledger.records_sound(),
                host_walk_along(ledger.games, host@, row_views(rows@), opponents),
                listed@.len() == i,
                forall|k: int|
                    0 <= k < i ==> row_of((#[trigger] listed@[k])@) == ledger.games[(
                        host@,
                        opponents[k],
                    )],
            decreases rows.len() - i,
        {
            let row = &rows[i];
            assert(row@ == row_views(rows@)[i as int]);
            assert(ledger.games.contains_key((host@, opponents[i as int])));
            proof {
                lemma_game_round_trip(row@);
            }
            match row.to_game() {
                Some(game) => {
                    listed.push(game);
                },
                None => {
                    return Err(ContractError::InvalidInput {});
                },
            }
            i = i + 1;
        }
        proof {
            let views = game_views(listed@);
            assert forall|k: int| 0 <= k < views.len() implies {
                &&& (#[trigger] views[k]).host == host@
                &&& views[k].opponent == opponents[k]
                &&& ledger.games.contains_key((host@, views[k].opponent))
                &&& ledger.games[(host@, views[k].opponent)] == row_of(views[k])
            } by {
                assert(ledger.games.contains_key((host@, opponents[k])));
            }
            assert forall|opponent: Seq<char>| #[trigger]
                ledger.games.contains_key((host@, opponent)) implies exists|k: int|
                0 <= k < views.len() && (#[trigger] views[k]).opponent == opponent by {
                assert(opponents.contains(opponent));
                let k = choose|k: int| 0 <= k < opponents.len() && opponents[k] == opponent;
                assert(views[k].opponent == opponent);
            }
            assert forall|k: int, m: int| 0 <= k < m < views.len() implies bytes_before(
                key_bytes((#[trigger] views[k]).opponent),
                key_bytes((#[trigger] views[m]).opponent),
            ) by {
                assert(views[k].opponent == opponents[k]);
                assert(views[m].opponent == opponents[m]);
            }
        }
        Ok(listed)
    }
}

} // verus!
