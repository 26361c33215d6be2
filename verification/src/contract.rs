//! The requests: creating the ledger, the requests that change it, the
//! questions that read it, and the dispatch of both by message.
//!
//! A request that names an address has two forms. The one that takes the text
//! asks the chain to validate it; what the chain decides is not known before.
//! The one that takes an `Option` takes the chain's judgement as given, and
//! says exactly what follows from it.

use vstd::prelude::*;
use cosmwasm_std::{Deps, DepsMut, Env, MessageInfo, StdError};
use crate::chain::{
    admin_assert, admin_get, admin_set, admin_update, as_reader, counter_read, counter_write,
    hooks_add, hooks_list, hooks_remove, intact_in, ledger_in, ledger_of, sender, sender_of,
    store_intact, validate,
};
use crate::error::{AdminError, ContractError, HookError};
use crate::games::{game_views, lemma_filed_are_opponents, lists_opponent, Games};
use crate::keys::is_key_part;
use crate::ledger::{lemma_remove_value_distinct, Ledger};
use crate::msg::{
    AdminResponse, CountResponse, ExecuteMsg, GameMove, InstantiateMsg, MigrateMsg, OwnerResponse,
    QueryMsg, QueryResponse, Response, ResponseView,
};
use crate::outcome::{
    add_hook_outcome, admin_answer, admin_refusal, count_answer, decrement_outcome, either, execute_outcome,
    host_games_answer, host_games_any, increment_outcome, instantiate_outcome, method,
    opponent_games_answer, opponent_games_any, owner_answer, query_answer, remove_hook_outcome,
    reset_outcome, respond_any, respond_outcome, seen, start_game_any, start_game_outcome,
    update_admin_any, update_admin_outcome, update_owner_any, update_owner_outcome,
};
use crate::rules::judge;
use crate::state::{lemma_row_round_trip, GameState, State, ADMIN, HOOKS, STATE};
use crate::text::{decimal, decimal_text, holds_text, move_name, same_text, text_views};

verus! {

/// The counter record; `NotFound` where the store holds none.
fn load_state(deps: Deps) -> (r: Result<State, ContractError>)
    requires
        store_intact(deps),
    ensures
        match r {
            Ok(state) => ledger_of(deps).counter == Some(state@),
            Err(e) => e == ContractError::NotFound {  } && ledger_of(deps).counter is None,
        },
{
    match counter_read(deps, STATE) {
        Ok(Some(state)) => Ok(state),
        Ok(None) => Err(ContractError::NotFound {}),
        Err(e) => Err(ContractError::Std(e)),
    }
}

/// Writes the counter record and reports `name` as the method that ran.
fn save_state(deps: &mut DepsMut, state: &State, name: &str) -> (r: Result<Response, ContractError>)
    requires
        intact_in(*old(deps)),
    ensures
        intact_in(*final(deps)),
        ledger_in(*final(deps)) == (Ledger { counter: Some(state@), ..ledger_in(*old(deps)) }),
        r matches Ok(response) && response@ == method(name@),
{
    match counter_write(deps, STATE, state) {
        Ok(_) => Ok(Response::new().add_attribute("method", name)),
        Err(e) => Err(ContractError::Std(e)),
    }
}

/// Lets the admin pass and turns everyone else away: anyone but the admin
/// with `Unauthorized`, and everyone with the store's failure where no admin
/// record was ever written.
fn admin_only(deps: Deps, caller: &str, through_hooks: bool) -> (r: Result<(), ContractError>)
    requires
        store_intact(deps),
    ensures
        r is Ok <==> ledger_of(deps).is_admin(caller@),
        r matches Err(e) ==> admin_refusal(ledger_of(deps), caller@, through_hooks, e),
{
    match admin_assert(deps, ADMIN, caller) {
        Ok(_) => Ok(()),
        Err(AdminError::NotAdmin {  }) => Err(ContractError::Unauthorized {}),
        Err(AdminError::Std(e)) => if through_hooks {
            Err(ContractError::Hook(HookError::Admin(AdminError::Std(e))))
        } else {
            Err(ContractError::Admin(AdminError::Std(e)))
        },
    }
}

/// Creates the ledger: the counter starts at `msg.count` in the sender's
/// hands, and the sender is the admin.
pub fn instantiate(deps: &mut DepsMut, _env: Env, info: MessageInfo, msg: InstantiateMsg) -> (r:
    Result<Response, ContractError>)
    requires
        intact_in(*old(deps)),
    ensures
        intact_in(*final(deps)),
        ledger_in(*old(deps)).wf() ==> ledger_in(*final(deps)).wf(),
        instantiate_outcome(
            ledger_in(*old(deps)),
            sender_of(info),
            msg.count,
            ledger_in(*final(deps)),
            seen(r),
        ),
{
    let owner = sender(&info);
    let state = State { count: msg.count, owner: owner.clone() };
    match counter_write(deps, STATE, &state) {
        Ok(_) => {},
        Err(e) => {
            return Err(ContractError::Std(e));
        },
    }
    match admin_set(deps, ADMIN, owner.as_str()) {
        Ok(_) => {},
        Err(e) => {
            return Err(ContractError::Std(e));
        },
    }
    let count = decimal(msg.count);
    let response = Response::new().add_attribute("method", "instantiate").add_attribute(
        "owner",
        owner.as_str(),
    ).add_attribute("count", count.as_str());
    assert(response@.attributes =~= seq![
        ("method"@, "instantiate"@),
        ("owner"@, sender_of(info)),
        ("count"@, decimal_text(msg.count as int)),
    ]);
    Ok(response)
}

/// Adds one to the counter.
pub fn try_increment(deps: &mut DepsMut) -> (r: Result<Response, ContractError>)
    requires
        intact_in(*old(deps)),
    ensures
        intact_in(*final(deps)),
        ledger_in(*old(deps)).wf() ==> ledger_in(*final(deps)).wf(),
        increment_outcome(ledger_in(*old(deps)), ledger_in(*final(deps)), seen(r)),
{
    let state = match load_state(as_reader(deps)) {
        Ok(state) => state,
        Err(e) => {
            return Err(e);
        },
    };
    match state.incremented() {
        Ok(next) => save_state(deps, &next, "try_increment"),
        Err(e) => Err(e),
    }
}

/// Takes one from the counter.
pub fn try_decrement(deps: &mut DepsMut) -> (r: Result<Response, ContractError>)
    requires
        intact_in(*old(deps)),
    ensures
        intact_in(*final(deps)),
        ledger_in(*old(deps)).wf() ==> ledger_in(*final(deps)).wf(),
        decrement_outcome(ledger_in(*old(deps)), ledger_in(*final(deps)), seen(r)),
{
    let state = match load_state(as_reader(deps)) {
        Ok(state) => state,
        Err(e) => {
            return Err(e);
        },
    };
    match state.decremented() {
        Ok(next) => save_state(deps, &next, "try_decrement"),
        Err(e) => Err(e),
    }
}

/// Sets the counter to `count`, for the owner.
pub fn try_reset(deps: &mut DepsMut, info: MessageInfo, count: i32) -> (r: Result<
    Response,
    ContractError,
>)
    requires
        intact_in(*old(deps)),
    ensures
        intact_in(*final(deps)),
        ledger_in(*old(deps)).wf() ==> ledger_in(*final(deps)).wf(),
        reset_outcome(
            ledger_in(*old(deps)),
            sender_of(info),
            count,
            ledger_in(*final(deps)),
            seen(r),
        ),
{
    let state = match load_state(as_reader(deps)) {
        Ok(state) => state,
        Err(e) => {
            return Err(e);
        },
    };
    let caller = sender(&info);
    match state.reset(caller.as_str(), count) {
        Ok(next) => save_state(deps, &next, "reset"),
        Err(e) => Err(e),
    }
}

/// Hands the counter to `new_owner`, for the owner; `new_owner` is the address
/// as the chain accepted it, or `None` where the chain refused it.
pub fn update_owner(deps: &mut DepsMut, info: MessageInfo, new_owner: Option<String>) -> (r:
    Result<Response, ContractError>)
    requires
        intact_in(*old(deps)),
    ensures
        intact_in(*final(deps)),
        ledger_in(*old(deps)).wf() ==> ledger_in(*final(deps)).wf(),
        update_owner_outcome(
            ledger_in(*old(deps)),
            sender_of(info),
            judged(new_owner),
            ledger_in(*final(deps)),
            seen(r),
        ),
{
    let state = match load_state(as_reader(deps)) {
        Ok(state) => state,
        Err(e) => {
            return Err(e);
        },
    };
    let caller = sender(&info);
    match state.transferred(caller.as_str(), new_owner) {
        Ok(next) => save_state(deps, &next, "update_owner"),
        Err(e) => Err(e),
    }
}

/// Hands the counter to `address`, for the owner, where the chain accepts the
/// address.
pub fn try_update_owner(deps: &mut DepsMut, info: MessageInfo, address: String) -> (r: Result<
    Response,
    ContractError,
>)
    requires
        intact_in(*old(deps)),
    ensures
        intact_in(*final(deps)),
        ledger_in(*old(deps)).wf() ==> ledger_in(*final(deps)).wf(),
        update_owner_any(
            ledger_in(*old(deps)),
            sender_of(info),
            address@,
            ledger_in(*final(deps)),
            seen(r),
        ),
{
    let new_owner = validate(as_reader(deps), address.as_str());
    let ghost accepted = new_owner is Some;
    let r = update_owner(deps, info, new_owner);
    assert(update_owner_outcome(
        ledger_in(*old(deps)),
        sender_of(info),
        either(address@, accepted),
        ledger_in(*deps),
        seen(r),
    ));
    r
}

/// The counter's value.
pub fn query_count(deps: Deps) -> (r: Result<CountResponse, ContractError>)
    requires
        store_intact(deps),
    ensures
        count_answer(ledger_of(deps), r),
{
    match load_state(deps) {
        Ok(state) => Ok(CountResponse { count: state.count }),
        Err(e) => Err(e),
    }
}

/// The counter's owner.
pub fn query_owner(deps: Deps) -> (r: Result<OwnerResponse, ContractError>)
    requires
        store_intact(deps),
    ensures
        owner_answer(ledger_of(deps), r),
{
    match load_state(deps) {
        Ok(state) => Ok(OwnerResponse { owner: state.owner }),
        Err(e) => Err(e),
    }
}

/// The view of an address as the chain accepted or refused it.
pub open spec fn judged(address: Option<String>) -> Option<Seq<char>> {
    match address {
        Some(text) => Some(text@),
        None => None,
    }
}

/// Names `admin` as the admin, for the admin; `admin` is the address as the
/// chain accepted it, or `None` where the chain refused it.
pub fn update_admin(deps: &mut DepsMut, info: MessageInfo, admin: Option<String>) -> (r: Result<
    Response,
    ContractError,
>)
    requires
        intact_in(*old(deps)),
    ensures
        intact_in(*final(deps)),
        ledger_in(*old(deps)).wf() ==> ledger_in(*final(deps)).wf(),
        update_admin_outcome(
            ledger_in(*old(deps)),
            sender_of(info),
            judged(admin),
            ledger_in(*final(deps)),
            seen(r),
        ),
{
    let caller = sender(&info);
    match admin_only(as_reader(deps), caller.as_str(), false) {
        Ok(_) => {},
        Err(e) => {
            return Err(e);
        },
    }
    let named = match admin {
        Some(named) => named,
        None => {
            return Err(ContractError::InvalidInput {});
        },
    };
    match admin_update(deps, ADMIN, info, named.as_str()) {
        Ok(_) => Ok(Response::new().add_attribute("method", "update_admin")),
        Err(e) => Err(ContractError::Admin(e)),
    }
}

/// Names `admin` as the admin, for the admin, where the chain accepts the
/// address.
pub fn try_update_admin(deps: &mut DepsMut, info: MessageInfo, admin: String) -> (r: Result<
    Response,
    ContractError,
>)
    requires
        intact_in(*old(deps)),
    ensures
        intact_in(*final(deps)),
        ledger_in(*old(deps)).wf() ==> ledger_in(*final(deps)).wf(),
        update_admin_any(
            ledger_in(*old(deps)),
            sender_of(info),
            admin@,
            ledger_in(*final(deps)),
            seen(r),
        ),
{
    let named = validate(as_reader(deps), admin.as_str());
    let ghost accepted = named is Some;
    let r = update_admin(deps, info, named);
    assert(update_admin_outcome(
        ledger_in(*old(deps)),
        sender_of(info),
        either(admin@, accepted),
        ledger_in(*deps),
        seen(r),
    ));
    r
}

/// Puts `hook` on the hook list, for the admin; `hook` is the address as the
/// chain accepted it, or `None` where the chain refused it.
pub fn add_hook(deps: &mut DepsMut, info: MessageInfo, hook: Option<String>) -> (r: Result<
    Response,
    ContractError,
>)
    requires
        intact_in(*old(deps)),
    ensures
        intact_in(*final(deps)),
        ledger_in(*old(deps)).wf() ==> ledger_in(*final(deps)).wf(),
        add_hook_outcome(
            ledger_in(*old(deps)),
            sender_of(info),
            judged(hook),
            ledger_in(*final(deps)),
            seen(r),
        ),
{
    let caller = sender(&info);
    match admin_only(as_reader(deps), caller.as_str(), true) {
        Ok(_) => {},
        Err(e) => {
            return Err(e);
        },
    }
    let address = match hook {
        Some(address) => address,
        None => {
            return Err(ContractError::InvalidInput {});
        },
    };
    match hooks_add(deps, HOOKS, ADMIN, info, address.as_str()) {
        Ok(attributes) => {
            let response = Response { messages: Vec::new(), attributes, data: None };
            assert(response@.messages =~= Seq::empty());
            Ok(response)
        },
        Err(e) => Err(ContractError::Hook(e)),
    }
}

/// Takes `hook` off the hook list, for the admin; `hook` is the address as the
/// chain accepted it, or `None` where the chain refused it.
pub fn remove_hook(deps: &mut DepsMut, info: MessageInfo, hook: Option<String>) -> (r: Result<
    Response,
    ContractError,
>)
    requires
        intact_in(*old(deps)),
    ensures
        intact_in(*final(deps)),
        ledger_in(*old(deps)).wf() ==> ledger_in(*final(deps)).wf(),
        remove_hook_outcome(
            ledger_in(*old(deps)),
            sender_of(info),
            judged(hook),
            ledger_in(*final(deps)),
            seen(r),
        ),
{
    let caller = sender(&info);
    match admin_only(as_reader(deps), caller.as_str(), true) {
        Ok(_) => {},
        Err(e) => {
            return Err(e);
        },
    }
    let address = match hook {
        Some(address) => address,
        None => {
            return Err(ContractError::InvalidInput {});
        },
    };
    let listed = match query_hooks(as_reader(deps)) {
        Ok(hooks) => holds_text(&hooks, address.as_str()),
        Err(e) => {
            return Err(e);
        },
    };
    if !listed {
        return Err(ContractError::Hook(HookError::HookNotRegistered {}));
    }
    proof {
        if ledger_in(*old(deps)).wf() {
            lemma_remove_value_distinct(
                ledger_in(*old(deps)).hook_list(),
                address@,
            );
        }
    }
    match hooks_remove(deps, HOOKS, ADMIN, info, address.as_str()) {
        Ok(attributes) => {
            let response = Response { messages: Vec::new(), attributes, data: None };
            assert(response@.messages =~= Seq::empty());
            Ok(response)
        },
        Err(e) => Err(ContractError::Hook(e)),
    }
}

/// Opens a game between the sender and `opponent` with `host_move`;
/// `opponent` is the address as the chain accepted it, or `None` where the
/// chain refused it.
pub fn start_game(
    deps: &mut DepsMut,
    info: MessageInfo,
    opponent: Option<String>,
    host_move: GameMove,
) -> (r: Result<Response, ContractError>)
    requires
        intact_in(*old(deps)),
        ledger_in(*old(deps)).wf(),
    ensures
        intact_in(*final(deps)),
        ledger_in(*final(deps)).wf(),
        start_game_outcome(
            ledger_in(*old(deps)),
            sender_of(info),
            judged(opponent),
            host_move,
            ledger_in(*final(deps)),
            seen(r),
        ),
{
    let host = sender(&info);
    let barred = match query_hooks(as_reader(deps)) {
        Ok(hooks) => holds_text(&hooks, host.as_str()),
        Err(e) => {
            return Err(e);
        },
    };
    if barred {
        return Err(ContractError::Blacklist {});
    }
    let opponent = match opponent {
        Some(opponent) => opponent,
        None => {
            return Err(ContractError::InvalidInput {});
        },
    };
    if !is_key_part(host.as_str()) || !is_key_part(opponent.as_str()) {
        return Err(ContractError::InvalidInput {});
    }
    let games = Games::default();
    match games.may_load(as_reader(deps), host.as_str(), opponent.as_str()) {
        Ok(None) => {},
        Ok(Some(_)) => {
            return Err(ContractError::AlreadyExists {});
        },
        Err(e) => {
            return Err(e);
        },
    }
    let game = GameState {
        host: host,
        opponent: opponent.clone(),
        host_move,
        opp_move: None,
        result: None,
    };
    match games.save(deps, &game) {
        Ok(_) => {},
        Err(e) => {
            return Err(e);
        },
    }
    let response = Response::new().add_attributes(
        vec![
            ("method", "start_game"),
            ("opponent", opponent.as_str()),
            ("host_move", host_move.name()),
        ],
    );
    assert(response@.attributes =~= seq![
        ("method"@, "start_game"@),
        ("opponent"@, opponent@),
        ("host_move"@, move_name(host_move)),
    ]);
    Ok(response)
}

/// Opens a game between the sender and `opponent` with `host_move`, where
/// the chain accepts the opponent's address.
pub fn try_start_game(
    deps: &mut DepsMut,
    info: MessageInfo,
    opponent: String,
    host_move: GameMove,
) -> (r: Result<Response, ContractError>)
    requires
        intact_in(*old(deps)),
        ledger_in(*old(deps)).wf(),
    ensures
        intact_in(*final(deps)),
        ledger_in(*final(deps)).wf(),
        start_game_any(
            ledger_in(*old(deps)),
            sender_of(info),
            opponent@,
            host_move,
            ledger_in(*final(deps)),
            seen(r),
        ),
{
    let address = validate(as_reader(deps), opponent.as_str());
    let ghost accepted = address is Some;
    let r = start_game(deps, info, address, host_move);
    assert(start_game_outcome(
        ledger_in(*old(deps)),
        sender_of(info),
        either(opponent@, accepted),
        host_move,
        ledger_in(*deps),
        seen(r),
    ));
    r
}

/// Answers the game of `host` and `opponent` with `opp_move`, for the
/// opponent; each address is as the chain accepted it, or `None`
/// where it refused it.
pub fn respond(
    deps: &mut DepsMut,
    info: MessageInfo,
    host: Option<String>,
    opponent: Option<String>,
    opp_move: GameMove,
) -> (r: Result<Response, ContractError>)
    requires
        intact_in(*old(deps)),
        ledger_in(*old(deps)).wf(),
    ensures
        intact_in(*final(deps)),
        ledger_in(*final(deps)).wf(),
        respond_outcome(
            ledger_in(*old(deps)),
            sender_of(info),
            judged(host),
            judged(opponent),
            opp_move,
            ledger_in(*final(deps)),
            seen(r),
        ),
{
    let opponent = match opponent {
        Some(opponent) => opponent,
        None => {
            return Err(ContractError::InvalidInput {});
        },
    };
    let caller = sender(&info);
    if !same_text(caller.as_str(), opponent.as_str()) {
        return Err(ContractError::Forbidden {});
    }
    let host = match host {
        Some(host) => host,
        None => {
            return Err(ContractError::InvalidInput {});
        },
    };
    let games = Games::default();
    let game = match games.remove(deps, host.as_str(), opponent.as_str()) {
        Ok(game) => game,
        Err(e) => {
            return Err(e);
        },
    };
    proof {
        lemma_row_round_trip(game@);
    }
    let result = judge(game.host_move, opp_move);
    let response = Response::new().add_attributes(vec![("method", "respond")]).set_data(result);
    assert(response@.attributes =~= seq![("method"@, "respond"@)]);
    Ok(response)
}

/// Answers the game of `host` and `opponent` with `opp_move`, for the
/// opponent, where the chain accepts both addresses.
pub fn try_respond(
    deps: &mut DepsMut,
    info: MessageInfo,
    host: String,
    opponent: String,
    opp_move: GameMove,
) -> (r: Result<Response, ContractError>)
    requires
        intact_in(*old(deps)),
        ledger_in(*old(deps)).wf(),
    ensures
        intact_in(*final(deps)),
        ledger_in(*final(deps)).wf(),
        respond_any(
            ledger_in(*old(deps)),
            sender_of(info),
            host@,
            opponent@,
            opp_move,
            ledger_in(*final(deps)),
            seen(r),
        ),
{
    let opponent_address = validate(as_reader(deps), opponent.as_str());
    let host_address = validate(as_reader(deps), host.as_str());
    let ghost host_accepted = host_address is Some;
    let ghost opponent_accepted = opponent_address is Some;
    let r = respond(deps, info, host_address, opponent_address, opp_move);
    assert(respond_outcome(
        ledger_in(*old(deps)),
        sender_of(info),
        either(host@, host_accepted),
        either(opponent@, opponent_accepted),
        opp_move,
        ledger_in(*deps),
        seen(r),
    ));
    r
}

/// Carries out the request `msg` of the sender.
pub fn execute(deps: &mut DepsMut, _env: Env, info: MessageInfo, msg: ExecuteMsg) -> (r: Result<
    Response,
    ContractError,
>)
    requires
        intact_in(*old(deps)),
        ledger_in(*old(deps)).wf(),
    ensures
        intact_in(*final(deps)),
        ledger_in(*final(deps)).wf(),
        execute_outcome(
            ledger_in(*old(deps)),
            sender_of(info),
            msg,
            ledger_in(*final(deps)),
            seen(r),
        ),
{
    match msg {
        ExecuteMsg::Increment {  } => try_increment(deps),
        ExecuteMsg::Decrement {  } => try_decrement(deps),
        ExecuteMsg::Reset { count } => try_reset(deps, info, count),
        ExecuteMsg::UpdateOwner { address } => try_update_owner(deps, info, address),
        ExecuteMsg::StartGame { opponent, host_move } => try_start_game(
            deps,
            info,
            opponent,
            host_move,
        ),
        ExecuteMsg::UpdateAdmin { admin } => try_update_admin(deps, info, admin),
        ExecuteMsg::AddHook { hook } => {
            let address = validate(as_reader(deps), hook.as_str());
            let ghost accepted = address is Some;
            let r = add_hook(deps, info, address);
            assert(add_hook_outcome(
                ledger_in(*old(deps)),
                sender_of(info),
                either(hook@, accepted),
                ledger_in(*deps),
                seen(r),
            ));
            r
        },
        ExecuteMsg::RemoveHook { hook } => {
            let address = validate(as_reader(deps), hook.as_str());
            let ghost accepted = address is Some;
            let r = remove_hook(deps, info, address);
            assert(remove_hook_outcome(
                ledger_in(*old(deps)),
                sender_of(info),
                either(hook@, accepted),
                ledger_in(*deps),
                seen(r),
            ));
            r
        },
        ExecuteMsg::Respond { host, opponent, opp_move } => try_respond(
            deps,
            info,
            host,
            opponent,
            opp_move,
        ),
    }
}

/// The addresses on the hook list, in the order in which they were put
/// there; none where no list was ever written.
pub fn query_hooks(deps: Deps) -> (r: Result<Vec<String>, ContractError>)
    requires
        store_intact(deps),
    ensures
        r matches Ok(hooks) && text_views(hooks@) == ledger_of(deps).hook_list(),
{
    match hooks_list(deps, HOOKS) {
        Ok(hooks) => Ok(hooks),
        Err(e) => Err(ContractError::Std(e)),
    }
}

/// The admin.
pub fn query_admin(deps: Deps) -> (r: Result<AdminResponse, ContractError>)
    requires
        store_intact(deps),
    ensures
        admin_answer(ledger_of(deps), r),
{
    match admin_get(deps, ADMIN) {
        Ok(Some(admin)) => Ok(AdminResponse { admin }),
        Ok(None) => Ok(AdminResponse { admin: String::new() }),
        Err(e) => Err(ContractError::Std(e)),
    }
}

/// The games that `host` has open; `host` is the address as the chain
/// accepted it, or `None` where it refused it.
pub fn games_by_host(deps: Deps, host: Option<String>) -> (r: Result<Vec<GameState>, ContractError>)
    requires
        store_intact(deps),
        ledger_of(deps).records_sound(),
    ensures
        host_games_answer(ledger_of(deps), judged(host), r),
{
    match host {
        Some(address) => Games::default().by_host(deps, address.as_str()),
        None => Err(ContractError::InvalidInput {}),
    }
}

/// The games that `host` has open, where the chain accepts the
/// address.
pub fn query_games_by_host(deps: Deps, host: String) -> (r: Result<Vec<GameState>, ContractError>)
    requires
        store_intact(deps),
        ledger_of(deps).records_sound(),
    ensures
        host_games_any(ledger_of(deps), host@, r),
{
    let address = validate(deps, host.as_str());
    let ghost accepted = address is Some;
    let r = games_by_host(deps, address);
    assert(host_games_answer(ledger_of(deps), either(host@, accepted), r));
    r
}

/// The games that were opened against `opponent`; `opponent` is the address
/// as the chain accepted it, or `None` where it refused it.
pub fn games_by_opponent(deps: Deps, opponent: Option<String>) -> (r: Result<
    Vec<GameState>,
    ContractError,
>)
    requires
        store_intact(deps),
        ledger_of(deps).wf(),
    ensures
        opponent_games_answer(ledger_of(deps), judged(opponent), r),
{
    let address = match opponent {
        Some(address) => address,
        None => {
            return Err(ContractError::InvalidInput {});
        },
    };
    if !is_key_part(address.as_str()) {
        // no record names an opponent that cannot be part of a key
        let none: Vec<GameState> = Vec::new();
        assert(lists_opponent(ledger_of(deps).games, address@, game_views(none@)));
        return Ok(none);
    }
    match Games::default().idx().by_opponent(deps, address.as_str()) {
        Ok(listed) => {
            proof {
                lemma_filed_are_opponents(ledger_of(deps), address@, game_views(listed@));
            }
            Ok(listed)
        },
        Err(e) => Err(e),
    }
}

/// The games that were opened against `opponent`, where the chain accepts
/// the address.
pub fn query_games_by_opponent(deps: Deps, opponent: String) -> (r: Result<
    Vec<GameState>,
    ContractError,
>)
    requires
        store_intact(deps),
        ledger_of(deps).wf(),
    ensures
        opponent_games_any(ledger_of(deps), opponent@, r),
{
    let address = validate(deps, opponent.as_str());
    let ghost accepted = address is Some;
    let r = games_by_opponent(deps, address);
    assert(opponent_games_answer(ledger_of(deps), either(opponent@, accepted), r));
    r
}

/// Answers the question `msg`.
pub fn query(deps: Deps, _env: Env, msg: QueryMsg) -> (r: Result<QueryResponse, ContractError>)
    requires
        store_intact(deps),
        ledger_of(deps).wf(),
    ensures
        query_answer(ledger_of(deps), msg, r),
{
    match msg {
        QueryMsg::GetCount {  } => match query_count(deps) {
            Ok(response) => Ok(QueryResponse::Count(response)),
            Err(e) => Err(e),
        },
        QueryMsg::GetOwner {  } => match query_owner(deps) {
            Ok(response) => Ok(QueryResponse::Owner(response)),
            Err(e) => Err(e),
        },
        QueryMsg::GetAdmin {  } => match query_admin(deps) {
            Ok(response) => Ok(QueryResponse::Admin(response)),
            Err(e) => Err(e),
        },
        QueryMsg::GamesByHost { host } => match query_games_by_host(deps, host) {
            Ok(listed) => Ok(QueryResponse::Games(listed)),
            Err(e) => Err(e),
        },
        QueryMsg::GamesByOpponent { opponent } => match query_games_by_opponent(deps, opponent) {
            Ok(listed) => Ok(QueryResponse::Games(listed)),
            Err(e) => Err(e),
        },
    }
}

/// Migrates the ledger: there is nothing to do, and the ledger stays as it
/// is.
pub fn migrate(deps: &mut DepsMut, _env: Env, _msg: MigrateMsg) -> (r: Result<Response, StdError>)
    ensures
        *final(deps) == *old(deps),
        r matches Ok(response) && response@ == ResponseView::empty(),
{
    Ok(Response::default())
}

} // verus!
