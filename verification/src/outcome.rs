//! What each request does to the ledger and hands back, as a relation between
//! the ledger before, the request, the ledger after and the result.

use vstd::prelude::*;
use crate::error::{AdminError, ContractError, HookError};
use crate::keys::fits_key;
use crate::ledger::Ledger;
use crate::games::{game_views, lists_host, lists_opponent};
use crate::msg::{
    AdminResponse, CountResponse, ExecuteMsg, GameMove, OwnerResponse, QueryMsg, QueryResponse,
    Response, ResponseView,
};
use crate::rules::outcome;
use crate::state::{game_of, GameState, GameView, StateView};
use crate::text::{decimal_text, move_name};

verus! {

/// What a request handed back, with the response by its view.
pub open spec fn seen(r: Result<Response, ContractError>) -> Result<ResponseView, ContractError> {
    match r {
        Ok(response) => Ok(response@),
        Err(e) => Err(e),
    }
}

/// The response that names the method that ran, and nothing else.
pub open spec fn method(name: Seq<char>) -> ResponseView {
    ResponseView::of(seq![("method"@, name)])
}

/// The game that `host` opens against `opponent` with `host_move`.
pub open spec fn opened(host: Seq<char>, opponent: Seq<char>, host_move: GameMove) -> GameView {
    GameView { host, opponent, host_move, opp_move: None, result: None }
}

/// What creating the ledger for `sender` with `count` does to the ledger
/// `pre`: it writes the counter record and the admin record, and reports
/// both. It does not fail.
pub open spec fn instantiate_outcome(
    pre: Ledger,
    sender: Seq<char>,
    count: i32,
    post: Ledger,
    r: Result<ResponseView, ContractError>,
) -> bool {
    match r {
        Ok(response) => {
            &&& post == (Ledger {
                counter: Some(StateView { count, owner: sender }),
                admin: Some(Some(sender)),
                ..pre
            })
            &&& response == ResponseView::of(
                seq![
                    ("method"@, "instantiate"@),
                    ("owner"@, sender),
                    ("count"@, decimal_text(count as int)),
                ],
            )
        },
        Err(_) => false,
    }
}

/// What a request to add one to the counter does: with a counter below its
/// highest value it writes the counter one higher. It fails with `NotFound`
/// without a counter and with `Overflow` at the highest value; a failure
/// changes nothing.
pub open spec fn increment_outcome(
    pre: Ledger,
    post: Ledger,
    r: Result<ResponseView, ContractError>,
) -> bool {
    match r {
        Ok(response) => {
            &&& pre.counter matches Some(state)
            &&& state.count < i32::MAX
            &&& post == pre.raised()
            &&& response == method("try_increment"@)
        },
        Err(e) => post == pre && match e {
            ContractError::NotFound {  } => pre.counter is None,
            ContractError::Overflow {  } => pre.counter matches Some(state) && state.count
                == i32::MAX,
            _ => false,
        },
    }
}

/// What a request to take one from the counter does: with a counter above
/// its lowest value it writes the counter one lower. It fails with `NotFound`
/// without a counter and with `Overflow` at the lowest value; a failure
/// changes nothing.
pub open spec fn decrement_outcome(
    pre: Ledger,
    post: Ledger,
    r: Result<ResponseView, ContractError>,
) -> bool {
    match r {
        Ok(response) => {
            &&& pre.counter matches Some(state)
            &&& state.count > i32::MIN
            &&& post == pre.lowered()
            &&& response == method("try_decrement"@)
        },
        Err(e) => post == pre && match e {
            ContractError::NotFound {  } => pre.counter is None,
            ContractError::Overflow {  } => pre.counter matches Some(state) && state.count
                == i32::MIN,
            _ => false,
        },
    }
}

/// What `caller`'s request to set the counter to `count` does: for the owner
/// it writes the counter. It fails with `NotFound` without a counter and with
/// `Unauthorized` for anyone but the owner; a failure changes nothing.
pub open spec fn reset_outcome(
    pre: Ledger,
    caller: Seq<char>,
    count: i32,
    post: Ledger,
    r: Result<ResponseView, ContractError>,
) -> bool {
    match r {
        Ok(response) => {
            &&& pre.is_owner(caller)
            &&& post == pre.with_count(count)
            &&& response == method("reset"@)
        },
        Err(e) => post == pre && match e {
            ContractError::NotFound {  } => pre.counter is None,
            ContractError::Unauthorized {  } => pre.counter is Some && !pre.is_owner(caller),
            _ => false,
        },
    }
}

/// What `caller`'s request to hand the counter to `new_owner` does, where
/// `new_owner` is the address as the chain accepted it, or `None` where the
/// chain refused it: for the owner and an accepted address it writes the new
/// owner. It fails with `NotFound` without a counter, with `Unauthorized` for
/// anyone but the owner, and with `InvalidInput` for the owner's refused
/// address; a failure changes nothing.
pub open spec fn update_owner_outcome(
    pre: Ledger,
    caller: Seq<char>,
    new_owner: Option<Seq<char>>,
    post: Ledger,
    r: Result<ResponseView, ContractError>,
) -> bool {
    match r {
        Ok(response) => {
            &&& pre.is_owner(caller)
            &&& new_owner matches Some(owner)
            &&& post == pre.with_owner(owner)
            &&& response == method("update_owner"@)
        },
        Err(e) => post == pre && match e {
            ContractError::NotFound {  } => pre.counter is None,
            ContractError::Unauthorized {  } => pre.counter is Some && !pre.is_owner(caller),
            ContractError::InvalidInput {  } => pre.is_owner(caller) && new_owner is None,
            _ => false,
        },
    }
}

/// Why the admin controller turns `caller` away, if it does: anyone but the
/// admin with `Unauthorized`, and everyone with the store's failure where no
/// admin record was ever written. `through_hooks` says whether the store's
/// failure comes through the hook controller.
pub open spec fn admin_refusal(
    pre: Ledger,
    caller: Seq<char>,
    through_hooks: bool,
    e: ContractError,
) -> bool {
    match e {
        ContractError::Unauthorized {  } => pre.admin is Some && !pre.is_admin(caller),
        ContractError::Admin(AdminError::Std(_)) => !through_hooks && pre.admin is None,
        ContractError::Hook(HookError::Admin(AdminError::Std(_))) => through_hooks
            && pre.admin is None,
        _ => false,
    }
}

/// What `caller`'s request to name `admin` as the admin does, where `admin`
/// is the address as the chain accepted it, or `None` where the chain refused
/// it: for the admin and an accepted address it writes the admin record. It
/// fails as `admin_refusal` says for anyone but the admin, and with
/// `InvalidInput` for the admin's refused address; a failure changes nothing.
pub open spec fn update_admin_outcome(
    pre: Ledger,
    caller: Seq<char>,
    admin: Option<Seq<char>>,
    post: Ledger,
    r: Result<ResponseView, ContractError>,
) -> bool {
    match r {
        Ok(response) => {
            &&& pre.is_admin(caller)
            &&& admin matches Some(named)
            &&& post == (Ledger { admin: Some(Some(named)), ..pre })
            &&& response == method("update_admin"@)
        },
        Err(e) => post == pre && match e {
            ContractError::InvalidInput {  } => pre.is_admin(caller) && admin is None,
            refusal => admin_refusal(pre, caller, false, refusal),
        },
    }
}

/// What `caller`'s request to put `hook` on the hook list does, where `hook`
/// is the address as the chain accepted it, or `None` where the chain refused
/// it: for the admin and an accepted address that is not on the list it
/// writes the list with the address at its end. It fails as `admin_refusal`
/// says for anyone but the admin; else with `InvalidInput` for a refused
/// address; else with `Hook(HookAlreadyRegistered)` for an address on the
/// list; a failure changes nothing.
pub open spec fn add_hook_outcome(
    pre: Ledger,
    caller: Seq<char>,
    hook: Option<Seq<char>>,
    post: Ledger,
    r: Result<ResponseView, ContractError>,
) -> bool {
    match r {
        Ok(response) => {
            &&& pre.is_admin(caller)
            &&& hook matches Some(address)
            &&& !pre.hook_list().contains(address)
            &&& post == (Ledger { hooks: Some(pre.hook_list().push(address)), ..pre })
            &&& response == ResponseView::of(
                seq![("action"@, "add_hook"@), ("hook"@, address), ("sender"@, caller)],
            )
        },
        Err(e) => post == pre && match e {
            ContractError::InvalidInput {  } => pre.is_admin(caller) && hook is None,
            ContractError::Hook(HookError::HookAlreadyRegistered {  }) => {
                &&& pre.is_admin(caller)
                &&& hook matches Some(address)
                &&& pre.hook_list().contains(address)
            },
            refusal => admin_refusal(pre, caller, true, refusal),
        },
    }
}

/// What `caller`'s request to take `hook` off the hook list does, where
/// `hook` is the address as the chain accepted it, or `None` where the chain
/// refused it: for the admin and an accepted address on the list it writes
/// the list without the address, the others in their order. It fails as
/// `admin_refusal` says for anyone but the admin; else with `InvalidInput`
/// for a refused address; else with `Hook(HookNotRegistered)` for an address
/// that is not on the list, also where no list was ever written; a failure
/// changes nothing.
pub open spec fn remove_hook_outcome(
    pre: Ledger,
    caller: Seq<char>,
    hook: Option<Seq<char>>,
    post: Ledger,
    r: Result<ResponseView, ContractError>,
) -> bool {
    match r {
        Ok(response) => {
            &&& pre.is_admin(caller)
            &&& hook matches Some(address)
            &&& pre.hook_list().contains(address)
            &&& post == (Ledger { hooks: Some(pre.hook_list().remove_value(address)), ..pre })
            &&& response == ResponseView::of(
                seq![("action"@, "remove_hook"@), ("hook"@, address), ("sender"@, caller)],
            )
        },
        Err(e) => post == pre && match e {
            ContractError::InvalidInput {  } => pre.is_admin(caller) && hook is None,
            ContractError::Hook(HookError::HookNotRegistered {  }) => {
                &&& pre.is_admin(caller)
                &&& hook matches Some(address)
                &&& !pre.hook_list().contains(address)
            },
            refusal => admin_refusal(pre, caller, true, refusal),
        },
    }
}

/// Whether `host` may open a game against `opponent`: it is not on the hook
/// list, both can be key components, and the pair has no game.
pub open spec fn may_open(pre: Ledger, host: Seq<char>, opponent: Seq<char>) -> bool {
    &&& !pre.blacklisted(host)
    &&& fits_key(host)
    &&& fits_key(opponent)
    &&& !pre.games.contains_key((host, opponent))
}

/// What `host`'s request to open a game against `opponent` with `host_move`
/// does, where `opponent` is the address as the chain accepted it, or `None`
/// where it refused it: where `may_open` holds it writes the game, neither
/// answered nor decided. It fails with `Blacklist` for a host on the hook
/// list, whatever else was asked; else with `InvalidInput` for a refused
/// address or one that cannot be a key component; else with `AlreadyExists`
/// where the pair has a game; a failure changes nothing.
pub open spec fn start_game_outcome(
    pre: Ledger,
    host: Seq<char>,
    opponent: Option<Seq<char>>,
    host_move: GameMove,
    post: Ledger,
    r: Result<ResponseView, ContractError>,
) -> bool {
    match r {
        Ok(response) => {
            &&& opponent matches Some(address)
            &&& may_open(pre, host, address)
            &&& post == pre.with_game(opened(host, address, host_move))
            &&& response == ResponseView::of(
                seq![
                    ("method"@, "start_game"@),
                    ("opponent"@, address),
                    ("host_move"@, move_name(host_move)),
                ],
            )
        },
        Err(e) => post == pre && match e {
            ContractError::Blacklist {  } => pre.blacklisted(host),
            ContractError::InvalidInput {  } => !pre.blacklisted(host) && match opponent {
                Some(address) => !fits_key(host) || !fits_key(address),
                None => true,
            },
            ContractError::AlreadyExists {  } => {
                &&& opponent matches Some(address)
                &&& !pre.blacklisted(host)
                &&& fits_key(host)
                &&& fits_key(address)
                &&& pre.games.contains_key((host, address))
            },
            _ => false,
        },
    }
}

/// What `caller`'s answer `opp_move` to the game of `host` and `opponent`
/// does, where each address is as the chain accepted it, or `None` where it
/// refused it: for the opponent of a game that is there it takes the game out
/// and hands back its result. It fails with `InvalidInput` for a refused
/// opponent; else with `Forbidden` for anyone but the opponent; else with
/// `InvalidInput` for a refused host; else with `NotFound` where the pair has
/// no game; a failure changes nothing.
pub open spec fn respond_outcome(
    pre: Ledger,
    caller: Seq<char>,
    host: Option<Seq<char>>,
    opponent: Option<Seq<char>>,
    opp_move: GameMove,
    post: Ledger,
    r: Result<ResponseView, ContractError>,
) -> bool {
    match r {
        Ok(response) => {
            &&& opponent == Some(caller)
            &&& host matches Some(opener)
            &&& pre.games.contains_key((opener, caller))
            &&& post == pre.without_game((opener, caller))
            &&& response == (ResponseView {
                data: Some(outcome(game_of(pre.games[(opener, caller)]).host_move, opp_move)),
                ..method("respond"@)
            })
        },
        Err(e) => post == pre && match e {
            ContractError::InvalidInput {  } => opponent is None || (opponent == Some(caller)
                && host is None),
            ContractError::Forbidden {  } => opponent is Some && opponent != Some(caller),
            ContractError::NotFound {  } => {
                &&& opponent == Some(caller)
                &&& host matches Some(opener)
                &&& !pre.games.contains_key((opener, caller))
            },
            _ => false,
        },
    }
}

/// An outcome for `address` as the chain may judge it: accepted or refused.
pub open spec fn either(address: Seq<char>, accepted: bool) -> Option<Seq<char>> {
    if accepted {
        Some(address)
    } else {
        None
    }
}

/// What a request to hand the counter to `address` does while the chain's
/// judgement of the address is open: `update_owner_outcome` for the address
/// accepted or refused.
pub open spec fn update_owner_any(
    pre: Ledger,
    caller: Seq<char>,
    address: Seq<char>,
    post: Ledger,
    r: Result<ResponseView, ContractError>,
) -> bool {
    exists|accepted: bool| #[trigger]
        update_owner_outcome(pre, caller, either(address, accepted), post, r)
}

/// `update_admin_outcome` for the address accepted or refused.
pub open spec fn update_admin_any(
    pre: Ledger,
    caller: Seq<char>,
    address: Seq<char>,
    post: Ledger,
    r: Result<ResponseView, ContractError>,
) -> bool {
    exists|accepted: bool| #[trigger]
        update_admin_outcome(pre, caller, either(address, accepted), post, r)
}

/// `add_hook_outcome` for the address accepted or refused.
pub open spec fn add_hook_any(
    pre: Ledger,
    caller: Seq<char>,
    address: Seq<char>,
    post: Ledger,
    r: Result<ResponseView, ContractError>,
) -> bool {
    exists|accepted: bool| #[trigger]
        add_hook_outcome(pre, caller, either(address, accepted), post, r)
}

/// `remove_hook_outcome` for the address accepted or refused.
pub open spec fn remove_hook_any(
    pre: Ledger,
    caller: Seq<char>,
    address: Seq<char>,
    post: Ledger,
    r: Result<ResponseView, ContractError>,
) -> bool {
    exists|accepted: bool| #[trigger]
        remove_hook_outcome(pre, caller, either(address, accepted), post, r)
}

/// `start_game_outcome` for the opponent's address accepted or refused.
pub open spec fn start_game_any(
    pre: Ledger,
    host: Seq<char>,
    opponent: Seq<char>,
    host_move: GameMove,
    post: Ledger,
    r: Result<ResponseView, ContractError>,
) -> bool {
    exists|accepted: bool| #[trigger]
        start_game_outcome(pre, host, either(opponent, accepted), host_move, post, r)
}

/// `respond_outcome` for each of the two addresses accepted or refused.
pub open spec fn respond_any(
    pre: Ledger,
    caller: Seq<char>,
    host: Seq<char>,
    opponent: Seq<char>,
    opp_move: GameMove,
    post: Ledger,
    r: Result<ResponseView, ContractError>,
) -> bool {
    exists|host_accepted: bool, opponent_accepted: bool| #[trigger]
        respond_outcome(
            pre,
            caller,
            either(host, host_accepted),
            either(opponent, opponent_accepted),
            opp_move,
            post,
            r,
        )
}

/// What the request `msg` of `sender` does: what the outcome of its kind
/// says.
pub open spec fn execute_outcome(
    pre: Ledger,
    sender: Seq<char>,
    msg: ExecuteMsg,
    post: Ledger,
    r: Result<ResponseView, ContractError>,
) -> bool {
    match msg {
        ExecuteMsg::Increment {  } => increment_outcome(pre, post, r),
        ExecuteMsg::Decrement {  } => decrement_outcome(pre, post, r),
        ExecuteMsg::Reset { count } => reset_outcome(pre, sender, count, post, r),
        ExecuteMsg::UpdateOwner { address } => update_owner_any(pre, sender, address@, post, r),
        ExecuteMsg::StartGame { opponent, host_move } => start_game_any(
            pre,
            sender,
            opponent@,
            host_move,
            post,
            r,
        ),
        ExecuteMsg::UpdateAdmin { admin } => update_admin_any(pre, sender, admin@, post, r),
        ExecuteMsg::AddHook { hook } => add_hook_any(pre, sender, hook@, post, r),
        ExecuteMsg::RemoveHook { hook } => remove_hook_any(pre, sender, hook@, post, r),
        ExecuteMsg::Respond { host, opponent, opp_move } => respond_any(
            pre,
            sender,
            host@,
            opponent@,
            opp_move,
            post,
            r,
        ),
    }
}

/// The answer to a question for the counter's value: the value, or
/// `NotFound` without a counter.
pub open spec fn count_answer(ledger: Ledger, r: Result<CountResponse, ContractError>) -> bool {
    match r {
        Ok(response) => ledger.counter matches Some(state) && response.count == state.count,
        Err(e) => e == ContractError::NotFound {  } && ledger.counter is None,
    }
}

/// The answer to a question for the counter's owner: the owner, or
/// `NotFound` without a counter.
pub open spec fn owner_answer(ledger: Ledger, r: Result<OwnerResponse, ContractError>) -> bool {
    match r {
        Ok(response) => ledger.counter matches Some(state) && response.owner@ == state.owner,
        Err(e) => e == ContractError::NotFound {  } && ledger.counter is None,
    }
}

/// The answer to a question for the admin: the admin, the empty text where
/// the record names none, or `Std` without an admin record.
pub open spec fn admin_answer(ledger: Ledger, r: Result<AdminResponse, ContractError>) -> bool {
    match r {
        Ok(response) => ledger.admin matches Some(named) && response.admin@ == (match named {
            Some(admin) => admin,
            None => Seq::empty(),
        }),
        Err(e) => (e matches ContractError::Std(_)) && ledger.admin is None,
    }
}

/// The answer to a question for the games of `host`, where `host` is the
/// address as the chain accepted it, or `None` where it refused
/// it: exactly the games that `host` has open, in the order of their
/// opponents' keys, or `InvalidInput` for a refused address.
pub open spec fn host_games_answer(
    ledger: Ledger,
    host: Option<Seq<char>>,
    r: Result<Vec<GameState>, ContractError>,
) -> bool {
    match r {
        Ok(listed) => host matches Some(address) && lists_host(
            ledger.games,
            address,
            game_views(listed@),
        ),
        Err(e) => e == ContractError::InvalidInput {  } && host is None,
    }
}

/// The answer to a question for the games against `opponent`, where
/// `opponent` is the address as the chain accepted it, or `None`
/// where it refused it: exactly the games that were opened against
/// `opponent`, in the order of their keys, or `InvalidInput` for a refused
/// address.
pub open spec fn opponent_games_answer(
    ledger: Ledger,
    opponent: Option<Seq<char>>,
    r: Result<Vec<GameState>, ContractError>,
) -> bool {
    match r {
        Ok(listed) => opponent matches Some(address) && lists_opponent(
            ledger.games,
            address,
            game_views(listed@),
        ),
        Err(e) => e == ContractError::InvalidInput {  } && opponent is None,
    }
}

/// `host_games_answer` for the address accepted or refused.
pub open spec fn host_games_any(
    ledger: Ledger,
    host: Seq<char>,
    r: Result<Vec<GameState>, ContractError>,
) -> bool {
    exists|accepted: bool| #[trigger] host_games_answer(ledger, either(host, accepted), r)
}

/// `opponent_games_answer` for the address accepted or refused.
pub open spec fn opponent_games_any(
    ledger: Ledger,
    opponent: Seq<char>,
    r: Result<Vec<GameState>, ContractError>,
) -> bool {
    exists|accepted: bool| #[trigger] opponent_games_answer(ledger, either(opponent, accepted), r)
}

/// The answer to the question `msg`: what the answer of its kind says, in the
/// variant of its kind.
pub open spec fn query_answer(
    ledger: Ledger,
    msg: QueryMsg,
    r: Result<QueryResponse, ContractError>,
) -> bool {
    match msg {
        QueryMsg::GetCount {  } => match r {
            Ok(QueryResponse::Count(response)) => count_answer(ledger, Ok(response)),
            Ok(_) => false,
            Err(e) => count_answer(ledger, Err(e)),
        },
        QueryMsg::GetOwner {  } => match r {
            Ok(QueryResponse::Owner(response)) => owner_answer(ledger, Ok(response)),
            Ok(_) => false,
            Err(e) => owner_answer(ledger, Err(e)),
        },
        QueryMsg::GetAdmin {  } => match r {
            Ok(QueryResponse::Admin(response)) => admin_answer(ledger, Ok(response)),
            Ok(_) => false,
            Err(e) => admin_answer(ledger, Err(e)),
        },
        QueryMsg::GamesByHost { host } => match r {
            Ok(QueryResponse::Games(listed)) => host_games_any(ledger, host@, Ok(listed)),
            Ok(_) => false,
            Err(e) => host_games_any(ledger, host@, Err(e)),
        },
        QueryMsg::GamesByOpponent { opponent } => match r {
            Ok(QueryResponse::Games(listed)) => opponent_games_any(ledger, opponent@, Ok(listed)),
            Ok(_) => false,
            Err(e) => opponent_games_any(ledger, opponent@, Err(e)),
        },
    }
}

} // verus!
