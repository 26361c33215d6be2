//! The ledger as contracts speak of it, and its invariant.

use vstd::prelude::*;
use crate::keys::fits_key;
use crate::state::{row_of, row_valid, GameView, RowView, StateView};

verus! {

/// Everything that the store holds for this library.
#[verifier::ext_equal]
pub struct Ledger {
    /// The counter record; `None` before the ledger is created.
    pub counter: Option<StateView>,
    /// The admin record; `None` where none was ever written, `Some(None)`
    /// where the record says that there is no admin.
    pub admin: Option<Option<Seq<char>>>,
    /// The hook list; `None` where none was ever written.
    pub hooks: Option<Seq<Seq<char>>>,
    /// The game records by their pair `(host, opponent)`.
    pub games: Map<(Seq<char>, Seq<char>), RowView>,
    /// The entries of the index by opponent: each holds the opponent under
    /// which a record was filed, and the record's pair.
    pub index: Set<(Seq<char>, (Seq<char>, Seq<char>))>,
}

impl Ledger {
    /// The hook list, empty where none was ever written.
    pub open spec fn hook_list(self) -> Seq<Seq<char>> {
        match self.hooks {
            Some(hooks) => hooks,
            None => Seq::empty(),
        }
    }

    /// Whether `who` is on the hook list, which bars it from opening games.
    pub open spec fn blacklisted(self, who: Seq<char>) -> bool {
        self.hook_list().contains(who)
    }

    /// Whether `who` is the admin.
    pub open spec fn is_admin(self, who: Seq<char>) -> bool {
        self.admin == Some(Some(who))
    }

    /// Whether `who` owns the counter.
    pub open spec fn is_owner(self, who: Seq<char>) -> bool {
        self.counter matches Some(state) && state.owner == who
    }

    /// The index entry that belongs to the record `row` of the pair `pair`.
    pub open spec fn entry(pair: (Seq<char>, Seq<char>), row: RowView) -> (
        Seq<char>,
        (Seq<char>, Seq<char>),
    ) {
        (row.opponent, pair)
    }

    /// Every record has its entry in the index. An entry whose record is gone
    /// is tolerated: a scan of the index passes over it.
    pub open spec fn index_covers(self) -> bool {
        forall|pair: (Seq<char>, Seq<char>)| #[trigger]
            self.games.contains_key(pair) ==> self.index.contains(
                Ledger::entry(pair, self.games[pair]),
            )
    }

    /// No entry of the index is without its record.
    pub open spec fn index_exact(self) -> bool {
        forall|e: (Seq<char>, (Seq<char>, Seq<char>))| #[trigger]
            self.index.contains(e) ==> self.games.contains_key(e.1)
    }

    /// Every entry of the index is filed under the opponent of its pair.
    pub open spec fn entries_filed(self) -> bool {
        forall|e: (Seq<char>, (Seq<char>, Seq<char>))| #[trigger]
            self.index.contains(e) ==> e.0 == e.1.1
    }

    /// Every record names the pair it is kept under, both identities can be
    /// key components, and its numbers stand for moves and results.
    pub open spec fn records_sound(self) -> bool {
        forall|pair: (Seq<char>, Seq<char>)| #[trigger]
            self.games.contains_key(pair) ==> {
                &&& self.games[pair].host == pair.0
                &&& self.games[pair].opponent == pair.1
                &&& fits_key(pair.0)
                &&& fits_key(pair.1)
                &&& row_valid(self.games[pair])
            }
    }

    /// The ledger's invariant: the index covers the records, its entries are
    /// filed under their opponents, the records are sound, and no address is
    /// on the hook list twice.
    pub open spec fn wf(self) -> bool {
        &&& self.index_covers()
        &&& self.entries_filed()
        &&& self.records_sound()
        &&& self.hook_list().no_duplicates()
    }

    /// The ledger with the counter at `count`, in the same hands.
    pub open spec fn with_count(self, count: i32) -> Ledger {
        Ledger { counter: Some(StateView { count, owner: self.counter.unwrap().owner }), ..self }
    }

    /// The ledger with the counter one higher.
    pub open spec fn raised(self) -> Ledger {
        self.with_count((self.counter.unwrap().count + 1) as i32)
    }

    /// The ledger with the counter one lower.
    pub open spec fn lowered(self) -> Ledger {
        self.with_count((self.counter.unwrap().count - 1) as i32)
    }

    /// The ledger after the counter was raised `n` times.
    pub open spec fn raised_by(self, n: nat) -> Ledger
        decreases n,
    {
        if n == 0 {
            self
        } else {
            self.raised_by((n - 1) as nat).raised()
        }
    }

    /// The ledger after the counter was lowered `n` times.
    pub open spec fn lowered_by(self, n: nat) -> Ledger
        decreases n,
    {
        if n == 0 {
            self
        } else {
            self.lowered_by((n - 1) as nat).lowered()
        }
    }

    /// The ledger with the counter in the hands of `owner`, at the same value.
    pub open spec fn with_owner(self, owner: Seq<char>) -> Ledger {
        Ledger { counter: Some(StateView { count: self.counter.unwrap().count, owner }), ..self }
    }

    /// The ledger with `game` under its pair, and with its entry in the index.
    pub open spec fn with_game(self, game: GameView) -> Ledger {
        Ledger {
            games: self.games.insert((game.host, game.opponent), row_of(game)),
            index: self.index.insert((game.opponent, (game.host, game.opponent))),
            ..self
        }
    }

    /// The ledger without the record of `pair` and without its entry.
    pub open spec fn without_game(self, pair: (Seq<char>, Seq<char>)) -> Ledger {
        Ledger {
            games: self.games.remove(pair),
            index: self.index.remove((pair.1, pair)),
            ..self
        }
    }

    /// The ledger that holds nothing.
    pub open spec fn empty() -> Ledger {
        Ledger { counter: None, admin: None, hooks: None, games: Map::empty(), index: Set::empty() }
    }
}

/// A list without duplicates, less one of its texts, is without duplicates
/// and does not hold that text.
pub proof fn lemma_remove_value_distinct(list: Seq<Seq<char>>, text: Seq<char>)
    requires
        list.no_duplicates(),
    ensures
        list.remove_value(text).no_duplicates(),
        !list.remove_value(text).contains(text),
{
    list.index_of_first_ensures(text);
    match list.index_of_first(text) {
        Some(at) => {
            list.remove_ensures(at);
            let rest = list.remove(at);
            assert forall|i: int, j: int|
                0 <= i < rest.len() && 0 <= j < rest.len() && i != j implies rest[i] != rest[j] by {
                let from_i = if i < at {
                    i
                } else {
                    i + 1
                };
                let from_j = if j < at {
                    j
                } else {
                    j + 1
                };
                assert(rest[i] == list[from_i]);
                assert(rest[j] == list[from_j]);
            }
            assert forall|i: int| 0 <= i < rest.len() implies rest[i] != text by {
                let from_i = if i < at {
                    i
                } else {
                    i + 1
                };
                assert(rest[i] == list[from_i]);
            }
        },
        None => {},
    }
}

} // verus!
