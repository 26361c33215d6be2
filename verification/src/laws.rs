//! What follows from the outcomes of the requests, whatever ledger they meet.

use vstd::prelude::*;
use crate::error::{ContractError, HookError};
use crate::games::{lists_host, lists_opponent};
use crate::keys::{bytes_before, key_bytes, pair_key};
use crate::ledger::Ledger;
use crate::msg::{ExecuteMsg, GameMove, ResponseView};
use crate::outcome::{
    add_hook_outcome, decrement_outcome, execute_outcome, increment_outcome, may_open, opened,
    remove_hook_outcome, reset_outcome, respond_outcome, start_game_outcome,
    update_admin_outcome, update_owner_outcome,
};
use crate::rules::outcome;
use crate::state::{lemma_row_round_trip, row_of, GameView};

verus! {

/// The counter after `k` raises stands `k` above where it stood, in the same
/// hands, as long as that is within the counter's range.
proof fn lemma_raised_by(pre: Ledger, k: nat)
    requires
        pre.counter is Some,
        pre.counter.unwrap().count + k <= i32::MAX,
    ensures
        pre.raised_by(k) == pre.with_count((pre.counter.unwrap().count + k) as i32),
    decreases k,
{
    if k > 0 {
        lemma_raised_by(pre, (k - 1) as nat);
    }
}

/// The counter after `k` lowerings stands `k` below where it stood, in the
/// same hands, as long as that is within the counter's range.
proof fn lemma_lowered_by(pre: Ledger, k: nat)
    requires
        pre.counter is Some,
        pre.counter.unwrap().count - k >= i32::MIN,
    ensures
        pre.lowered_by(k) == pre.with_count((pre.counter.unwrap().count - k) as i32),
    decreases k,
{
    if k > 0 {
        lemma_lowered_by(pre, (k - 1) as nat);
    }
}

/// Where the counter has room for `n` raises, each of `n` requests to add
/// one succeeds, then each of `n` requests to take one succeeds, and in the
/// end the ledger is as it was.
pub proof fn law_raise_then_lower(pre: Ledger, n: nat)
    requires
        pre.counter is Some,
        pre.counter.unwrap().count + n <= i32::MAX,
    ensures
        forall|k: nat, post: Ledger, r: Result<ResponseView, ContractError>|
            k < n && #[trigger] increment_outcome(pre.raised_by(k), post, r) ==> r is Ok && post
                == pre.raised_by(k + 1),
        forall|k: nat, post: Ledger, r: Result<ResponseView, ContractError>|
            k < n && #[trigger] decrement_outcome(pre.raised_by(n).lowered_by(k), post, r)
                ==> r is Ok && post == pre.raised_by(n).lowered_by(k + 1),
        pre.raised_by(n).lowered_by(n) == pre,
{
    assert forall|k: nat, post: Ledger, r: Result<ResponseView, ContractError>|
        k < n && #[trigger] increment_outcome(pre.raised_by(k), post, r) implies r is Ok && post
        == pre.raised_by(k + 1) by {
        lemma_raised_by(pre, k);
        assert(pre.raised_by(k + 1) == pre.raised_by(k).raised());
    }
    lemma_raised_by(pre, n);
    let top = pre.raised_by(n);
    assert forall|k: nat, post: Ledger, r: Result<ResponseView, ContractError>|
        k < n && #[trigger] decrement_outcome(top.lowered_by(k), post, r) implies r is Ok && post
        == top.lowered_by(k + 1) by {
        lemma_lowered_by(top, k);
        assert(top.lowered_by(k + 1) == top.lowered_by(k).lowered());
    }
    lemma_lowered_by(top, n);
}

/// A reset succeeds for the owner and for nobody else: the owner's sets the
/// counter, and anyone else's fails with `Unauthorized` and changes nothing.
pub proof fn law_reset_for_owner_only(
    pre: Ledger,
    caller: Seq<char>,
    count: i32,
    post: Ledger,
    r: Result<ResponseView, ContractError>,
)
    requires
        pre.counter is Some,
        reset_outcome(pre, caller, count, post, r),
    ensures
        r is Ok <==> pre.is_owner(caller),
        r is Ok ==> post == pre.with_count(count) && post.is_owner(caller),
        r is Err ==> r == Err::<ResponseView, _>(ContractError::Unauthorized {  }) && post == pre,
{
}

/// Once the owner has handed the counter to another, the old owner's reset
/// and the old owner's next hand-over fail with `Unauthorized` and change
/// nothing, while the new owner's succeed.
pub proof fn law_owner_hand_over(
    pre: Ledger,
    old_owner: Seq<char>,
    new_owner: Seq<char>,
    first: Result<ResponseView, ContractError>,
    handed: Ledger,
    count: i32,
    next: Seq<char>,
    post: Ledger,
    r: Result<ResponseView, ContractError>,
)
    requires
        old_owner != new_owner,
        update_owner_outcome(pre, old_owner, Some(new_owner), handed, first),
        first is Ok,
    ensures
        handed.is_owner(new_owner),
        !handed.is_owner(old_owner),
        reset_outcome(handed, old_owner, count, post, r) ==> r == Err::<ResponseView, _>(
            ContractError::Unauthorized {  },
        ) && post == handed,
        update_owner_outcome(handed, old_owner, Some(next), post, r) ==> r == Err::<
            ResponseView,
            _,
        >(ContractError::Unauthorized {  }) && post == handed,
        reset_outcome(handed, new_owner, count, post, r) ==> r is Ok && post == handed.with_count(
            count,
        ),
        update_owner_outcome(handed, new_owner, Some(next), post, r) ==> r is Ok && post
            == handed.with_owner(next),
{
}

/// A request to open a game succeeds exactly where `may_open` holds for the
/// host and the accepted opponent; then it writes the game and its entry in
/// the index, and nothing else.
pub proof fn law_start_succeeds(
    pre: Ledger,
    host: Seq<char>,
    opponent: Seq<char>,
    host_move: GameMove,
    post: Ledger,
    r: Result<ResponseView, ContractError>,
)
    requires
        start_game_outcome(pre, host, Some(opponent), host_move, post, r),
    ensures
        r is Ok <==> may_open(pre, host, opponent),
        r is Ok ==> post == pre.with_game(opened(host, opponent, host_move)),
        r is Err ==> post == pre,
{
}

/// Once a host has opened a game against an opponent, its next request to
/// open one against the same opponent fails with `AlreadyExists` and leaves
/// the ledger, the first game in it, as it was.
pub proof fn law_second_start_refused(
    pre: Ledger,
    host: Seq<char>,
    opponent: Seq<char>,
    first_move: GameMove,
    first: Result<ResponseView, ContractError>,
    between: Ledger,
    second_move: GameMove,
    post: Ledger,
    second: Result<ResponseView, ContractError>,
)
    requires
        start_game_outcome(pre, host, Some(opponent), first_move, between, first),
        first is Ok,
        start_game_outcome(between, host, Some(opponent), second_move, post, second),
    ensures
        second == Err::<ResponseView, _>(ContractError::AlreadyExists {  }),
        post == between,
        post.games.contains_key((host, opponent)),
        post.games[(host, opponent)] == row_of(opened(host, opponent, first_move)),
{
}

/// Once a host has opened a game, the opponent's answer succeeds, hands back
/// the result that the table gives for the two moves, and takes the game
/// out; a second answer fails with `NotFound`.
pub proof fn law_answer_once(
    pre: Ledger,
    host: Seq<char>,
    opponent: Seq<char>,
    host_move: GameMove,
    started: Result<ResponseView, ContractError>,
    open: Ledger,
    opp_move: GameMove,
    answered: Result<ResponseView, ContractError>,
    closed: Ledger,
    again_move: GameMove,
    again: Result<ResponseView, ContractError>,
    post: Ledger,
)
    requires
        start_game_outcome(pre, host, Some(opponent), host_move, open, started),
        started is Ok,
        respond_outcome(open, opponent, Some(host), Some(opponent), opp_move, closed, answered),
        respond_outcome(closed, opponent, Some(host), Some(opponent), again_move, post, again),
    ensures
        answered matches Ok(response) && response.data == Some(outcome(host_move, opp_move)),
        !closed.games.contains_key((host, opponent)),
        again == Err::<ResponseView, _>(ContractError::NotFound {  }),
        post == closed,
{
    lemma_row_round_trip(opened(host, opponent, host_move));
}

/// An answer by anyone but the opponent that it names fails with `Forbidden`
/// and changes nothing.
pub proof fn law_answer_by_opponent_only(
    pre: Ledger,
    caller: Seq<char>,
    host: Option<Seq<char>>,
    opponent: Seq<char>,
    opp_move: GameMove,
    post: Ledger,
    r: Result<ResponseView, ContractError>,
)
    requires
        caller != opponent,
        respond_outcome(pre, caller, host, Some(opponent), opp_move, post, r),
    ensures
        r == Err::<ResponseView, _>(ContractError::Forbidden {  }),
        post == pre,
{
}

/// In a ledger whose records are sound, the list of a host's games and the
/// list of the games against an opponent agree: a game of that host against
/// that opponent is on both lists or on neither.
pub proof fn law_views_agree(
    ledger: Ledger,
    host: Seq<char>,
    opponent: Seq<char>,
    of_host: Seq<GameView>,
    against: Seq<GameView>,
    game: GameView,
)
    requires
        ledger.records_sound(),
        lists_host(ledger.games, host, of_host),
        lists_opponent(ledger.games, opponent, against),
    ensures
        (of_host.contains(game) && game.opponent == opponent) <==> (against.contains(game)
            && game.host == host),
        of_host.contains(game) ==> game.host == host && ledger.games.contains_key(
            (host, game.opponent),
        ),
        against.contains(game) ==> game.opponent == opponent && ledger.games.contains_key(
            (game.host, opponent),
        ),
{
    if of_host.contains(game) && game.opponent == opponent {
        let i = choose|i: int| 0 <= i < of_host.len() && of_host[i] == game;
        assert(of_host[i].host == host);
        assert(ledger.games.contains_key((host, opponent)));
        let j = choose|j: int| 0 <= j < against.len() && (#[trigger] against[j]).host == host;
        assert(row_of(against[j]) == row_of(game));
        lemma_row_of_injective(against[j], game);
    }
    if against.contains(game) && game.host == host {
        let j = choose|j: int| 0 <= j < against.len() && against[j] == game;
        assert(against[j].opponent == opponent);
        assert(ledger.games.contains_key((host, opponent)));
        let i = choose|i: int| 0 <= i < of_host.len() && (#[trigger] of_host[i]).opponent
            == opponent;
        assert(row_of(of_host[i]) == row_of(game));
        lemma_row_of_injective(of_host[i], game);
    }
    if of_host.contains(game) {
        let i = choose|i: int| 0 <= i < of_host.len() && of_host[i] == game;
        assert(of_host[i].host == host);
    }
    if against.contains(game) {
        let j = choose|j: int| 0 <= j < against.len() && against[j] == game;
        assert(against[j].opponent == opponent);
    }
}

/// Opening a game and answering one keep the ledger's invariant: the index
/// covers the records after any sequence of the two. And where no entry of
/// the index was without its record before, none is afterwards.
pub proof fn law_games_keep_invariant(
    pre: Ledger,
    caller: Seq<char>,
    host: Option<Seq<char>>,
    opponent: Option<Seq<char>>,
    played: GameMove,
    post: Ledger,
    r: Result<ResponseView, ContractError>,
)
    requires
        pre.wf(),
        start_game_outcome(pre, caller, opponent, played, post, r) || respond_outcome(
            pre,
            caller,
            host,
            opponent,
            played,
            post,
            r,
        ),
    ensures
        post.wf(),
        pre.index_exact() ==> post.index_exact(),
{
    if start_game_outcome(pre, caller, opponent, played, post, r) && opponent is Some {
        lemma_row_round_trip(opened(caller, opponent.unwrap(), played));
    }
}

/// A request that fails leaves the ledger as it was, whatever it asked.
pub proof fn law_failure_changes_nothing(
    pre: Ledger,
    sender: Seq<char>,
    msg: ExecuteMsg,
    post: Ledger,
    r: Result<ResponseView, ContractError>,
)
    requires
        execute_outcome(pre, sender, msg, post, r),
        r is Err,
    ensures
        post == pre,
{
}

/// A game that was opened is on the list of its host and on the list of the
/// games against its opponent.
pub proof fn law_opened_game_is_listed(
    pre: Ledger,
    host: Seq<char>,
    opponent: Seq<char>,
    host_move: GameMove,
    post: Ledger,
    r: Result<ResponseView, ContractError>,
    of_host: Seq<GameView>,
    against: Seq<GameView>,
)
    requires
        start_game_outcome(pre, host, Some(opponent), host_move, post, r),
        r is Ok,
        lists_host(post.games, host, of_host),
        lists_opponent(post.games, opponent, against),
    ensures
        of_host.contains(opened(host, opponent, host_move)),
        against.contains(opened(host, opponent, host_move)),
{
    let game = opened(host, opponent, host_move);
    assert(post.games.contains_key((host, opponent)));
    let i = choose|i: int| 0 <= i < of_host.len() && (#[trigger] of_host[i]).opponent == opponent;
    lemma_row_of_injective(of_host[i], game);
    let j = choose|j: int| 0 <= j < against.len() && (#[trigger] against[j]).host == host;
    lemma_row_of_injective(against[j], game);
}

/// A game that was answered is on neither list any more.
pub proof fn law_answered_game_is_gone(
    pre: Ledger,
    host: Seq<char>,
    opponent: Seq<char>,
    opp_move: GameMove,
    post: Ledger,
    r: Result<ResponseView, ContractError>,
    of_host: Seq<GameView>,
    against: Seq<GameView>,
    game: GameView,
)
    requires
        respond_outcome(pre, opponent, Some(host), Some(opponent), opp_move, post, r),
        r is Ok,
        lists_host(post.games, host, of_host),
        lists_opponent(post.games, opponent, against),
        game.host == host,
        game.opponent == opponent,
    ensures
        !of_host.contains(game),
        !against.contains(game),
{
    if of_host.contains(game) {
        let i = choose|i: int| 0 <= i < of_host.len() && of_host[i] == game;
        assert(post.games.contains_key((host, of_host[i].opponent)));
    }
    if against.contains(game) {
        let j = choose|j: int| 0 <= j < against.len() && against[j] == game;
        assert(post.games.contains_key((against[j].host, opponent)));
    }
}

/// A store that holds nothing for the ledger meets the ledger's invariant.
pub proof fn law_empty_ledger_is_sound()
    ensures
        Ledger::empty().wf(),
{
}

/// The list of a host's games and the list of the games against an opponent
/// hold no game twice.
pub proof fn law_lists_hold_each_game_once(
    ledger: Ledger,
    host: Seq<char>,
    opponent: Seq<char>,
    of_host: Seq<GameView>,
    against: Seq<GameView>,
)
    requires
        lists_host(ledger.games, host, of_host),
        lists_opponent(ledger.games, opponent, against),
    ensures
        of_host.no_duplicates(),
        against.no_duplicates(),
{
    assert forall|i: int, j: int|
        0 <= i < of_host.len() && 0 <= j < of_host.len() && i != j implies of_host[i]
        != of_host[j] by {
        if i < j {
            assert(bytes_before(key_bytes(of_host[i].opponent), key_bytes(of_host[j].opponent)));
        } else {
            assert(bytes_before(key_bytes(of_host[j].opponent), key_bytes(of_host[i].opponent)));
        }
    }
    assert forall|i: int, j: int|
        0 <= i < against.len() && 0 <= j < against.len() && i != j implies against[i]
        != against[j] by {
        if i < j {
            assert(bytes_before(
                pair_key((against[i].host, opponent)),
                pair_key((against[j].host, opponent)),
            ));
        } else {
            assert(bytes_before(
                pair_key((against[j].host, opponent)),
                pair_key((against[i].host, opponent)),
            ));
        }
    }
}

/// Two games with the same stored form are the same game.
proof fn lemma_row_of_injective(a: GameView, b: GameView)
    requires
        row_of(a) == row_of(b),
    ensures
        a == b,
{
    lemma_row_round_trip(a);
    lemma_row_round_trip(b);
}

/// A request to add or remove a hook by anyone but the admin fails with
/// `Unauthorized`, whatever address it names, and leaves the hook list as it
/// was. The admin's request to add an accepted address succeeds where the
/// address is not on the list, and fails with `HookAlreadyRegistered` where
/// it is; the admin's request to remove one succeeds where the address is on
/// the list, and fails with `HookNotRegistered` where it is not.
pub proof fn law_hooks_guarded(
    pre: Ledger,
    caller: Seq<char>,
    hook: Seq<char>,
    any: Option<Seq<char>>,
    post: Ledger,
    r: Result<ResponseView, ContractError>,
)
    requires
        pre.admin is Some,
    ensures
        !pre.is_admin(caller) && (add_hook_outcome(pre, caller, any, post, r)
            || remove_hook_outcome(pre, caller, any, post, r)) ==> r == Err::<ResponseView, _>(
            ContractError::Unauthorized {  },
        ) && post == pre,
        pre.is_admin(caller) && add_hook_outcome(pre, caller, Some(hook), post, r) ==> (r is Ok
            <==> !pre.hook_list().contains(hook)) && (r is Err ==> r == Err::<ResponseView, _>(
            ContractError::Hook(HookError::HookAlreadyRegistered {  }),
        ) && post == pre),
        pre.is_admin(caller) && remove_hook_outcome(pre, caller, Some(hook), post, r) ==> (
        r is Ok <==> pre.hook_list().contains(hook)) && (r is Err ==> r == Err::<ResponseView, _>(
            ContractError::Hook(HookError::HookNotRegistered {  }),
        ) && post == pre),
{
}

/// The admin's request to name an accepted address as the admin succeeds, and
/// the same request by anyone else fails with `Unauthorized` and changes
/// nothing.
pub proof fn law_admin_update_for_admin_only(
    pre: Ledger,
    caller: Seq<char>,
    named: Seq<char>,
    post: Ledger,
    r: Result<ResponseView, ContractError>,
)
    requires
        pre.admin is Some,
        update_admin_outcome(pre, caller, Some(named), post, r),
    ensures
        r is Ok <==> pre.is_admin(caller),
        r is Ok ==> post.is_admin(named),
        r is Err ==> r == Err::<ResponseView, _>(ContractError::Unauthorized {  }) && post == pre,
{
}

/// A request to open a game by a host that is on the hook list fails with
/// `Blacklist`, whatever opponent and move it names, and changes nothing.
pub proof fn law_blacklisted_host_refused(
    pre: Ledger,
    host: Seq<char>,
    opponent: Option<Seq<char>>,
    host_move: GameMove,
    post: Ledger,
    r: Result<ResponseView, ContractError>,
)
    requires
        pre.blacklisted(host),
        start_game_outcome(pre, host, opponent, host_move, post, r),
    ensures
        r == Err::<ResponseView, _>(ContractError::Blacklist {  }),
        post == pre,
{
}

} // verus!
