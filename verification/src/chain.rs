//! The boundary to the chain: the handles that the chain gives a request, what
//! the store behind them holds for the ledger, and one wrapper for each call
//! into the storage and controller crates. Every contract in this file is
//! taken on trust; nothing outside this file is.

use vstd::prelude::*;
use cosmwasm_std::{Addr, Deps, DepsMut, Empty, Env, MessageInfo, Order, StdError};
use cw_controllers::AdminError as AdminRefusal;
use cw_controllers::HookError as HookRefusal;
use cw_controllers::{Admin, Hooks};
use cw_storage_plus::{Index, Item, MultiIndex, PrimaryKey};
use crate::error::{AdminError, HookError};
use crate::keys::{bytes_before, fits_key, key_bytes, pair_key};
use crate::ledger::Ledger;
use crate::msg::{attribute_views, Attribute};
use crate::games::{GAMES, GAMES_BY_OPPONENT};
use crate::state::{
    found_views, row_views, GameRow, RowView, State, StateView, ADMIN, HOOKS, STATE,
};
use crate::text::text_views;

verus! {

/// `cosmwasm_std::DepsMut`: the handle through which a request reads and
/// writes the store and reaches the chain's address validation.
#[verifier::external_type_specification]
#[verifier::external_body]
pub struct ExDepsMut<'a>(DepsMut<'a>);

/// `cosmwasm_std::Deps`: the handle through which a request reads the store.
#[verifier::external_type_specification]
#[verifier::external_body]
pub struct ExDeps<'a>(Deps<'a>);

/// `cosmwasm_std::StdError`: the failure that the store or the chain reports.
#[verifier::external_type_specification]
#[verifier::external_body]
pub struct ExStdError(StdError);

/// `cosmwasm_std::Env`: the block and contract that a request runs in.
#[verifier::external_type_specification]
#[verifier::external_body]
pub struct ExEnv(Env);

/// `cosmwasm_std::MessageInfo`: who sent a request, and with which funds.
#[verifier::external_type_specification]
#[verifier::external_body]
pub struct ExMessageInfo(MessageInfo);

/// `cosmwasm_std::Addr`: an address, as the store keeps identities.
#[verifier::external_type_specification]
#[verifier::external_body]
pub struct ExAddr(Addr);

/// The reading handle that `DepsMut::as_ref` gives for a writing handle.
pub uninterp spec fn reader(d: DepsMut) -> Deps;

/// The sender that a `MessageInfo` holds, as text.
pub uninterp spec fn sender_of(info: MessageInfo) -> Seq<char>;

/// Whether everything that the store holds under the ledger's keys was written
/// through the calls that this file wraps, so that each value can be decoded
/// into its type.
pub uninterp spec fn store_intact(d: Deps) -> bool;

/// The counter record that the store holds under the key `STATE`.
pub uninterp spec fn counter_of(d: Deps) -> Option<StateView>;

/// The admin record that the store holds under the key `ADMIN`.
pub uninterp spec fn admin_of(d: Deps) -> Option<Option<Seq<char>>>;

/// The hook list that the store holds under the key `HOOKS`.
pub uninterp spec fn hooks_of(d: Deps) -> Option<Seq<Seq<char>>>;

/// The game records that the store holds under the namespace `GAMES`, by
/// pair.
pub uninterp spec fn games_of(d: Deps) -> Map<(Seq<char>, Seq<char>), RowView>;

/// The entries that the store holds under the namespace
/// `GAMES_BY_OPPONENT`: the opponent that a record was filed under, and the
/// record's pair.
pub uninterp spec fn index_of(d: Deps) -> Set<(Seq<char>, (Seq<char>, Seq<char>))>;

/// The ledger that a reading handle shows.
pub open spec fn ledger_of(d: Deps) -> Ledger {
    Ledger {
        counter: counter_of(d),
        admin: admin_of(d),
        hooks: hooks_of(d),
        games: games_of(d),
        index: index_of(d),
    }
}

/// The ledger behind a writing handle.
pub open spec fn ledger_in(d: DepsMut) -> Ledger {
    ledger_of(reader(d))
}

/// Whether the store behind a writing handle is intact.
pub open spec fn intact_in(d: DepsMut) -> bool {
    store_intact(reader(d))
}

/// Whether `rows` holds, place by place, the records that `host` has with
/// `opponents`, where `opponents` are all the opponents that `host` has a
/// game with, each once, in the order of their key bytes.
pub open spec fn host_walk_along(
    games: Map<(Seq<char>, Seq<char>), RowView>,
    host: Seq<char>,
    rows: Seq<RowView>,
    opponents: Seq<Seq<char>>,
) -> bool {
    &&& opponents.len() == rows.len()
    &&& forall|i: int, j: int|
        0 <= i < j < opponents.len() ==> bytes_before(
            key_bytes(#[trigger] opponents[i]),
            key_bytes(#[trigger] opponents[j]),
        )
    &&& forall|i: int|
        0 <= i < opponents.len() ==> games.contains_key((host, #[trigger] opponents[i]))
            && games[(host, opponents[i])] == rows[i]
    &&& forall|o: Seq<char>| #[trigger] games.contains_key((host, o)) ==> opponents.contains(o)
}

/// Whether `rows` is what a walk over the records of `host` gives: one record
/// for each opponent that `host` has a game with, in the order of the
/// opponents' key bytes.
pub open spec fn host_walk(
    games: Map<(Seq<char>, Seq<char>), RowView>,
    host: Seq<char>,
    rows: Seq<RowView>,
) -> bool {
    exists|opponents: Seq<Seq<char>>| #[trigger] host_walk_along(games, host, rows, opponents)
}

/// Whether `found` holds, place by place, the record of each of `pairs`, or
/// `None` where the store holds no record of it, where `pairs` are all the
/// pairs with an entry under `opponent`, each once, in the order of their key
/// bytes.
pub open spec fn opponent_walk_along(
    index: Set<(Seq<char>, (Seq<char>, Seq<char>))>,
    games: Map<(Seq<char>, Seq<char>), RowView>,
    opponent: Seq<char>,
    found: Seq<Option<RowView>>,
    pairs: Seq<(Seq<char>, Seq<char>)>,
) -> bool {
    &&& pairs.len() == found.len()
    &&& forall|i: int, j: int|
        0 <= i < j < pairs.len() ==> bytes_before(
            pair_key(#[trigger] pairs[i]),
            pair_key(#[trigger] pairs[j]),
        )
    &&& forall|i: int|
        0 <= i < pairs.len() ==> index.contains((opponent, #[trigger] pairs[i])) && found[i] == (
        if games.contains_key(pairs[i]) {
            Some(games[pairs[i]])
        } else {
            None
        })
    &&& forall|p: (Seq<char>, Seq<char>)| #[trigger]
        index.contains((opponent, p)) ==> pairs.contains(p)
}

/// Whether `found` is what a walk over the index entries of `opponent` gives:
/// for each entry, in the order of the pairs' key bytes, the record of its
/// pair, or `None` where the store holds no such record.
pub open spec fn opponent_walk(
    index: Set<(Seq<char>, (Seq<char>, Seq<char>))>,
    games: Map<(Seq<char>, Seq<char>), RowView>,
    opponent: Seq<char>,
    found: Seq<Option<RowView>>,
) -> bool {
    exists|pairs: Seq<(Seq<char>, Seq<char>)>| #[trigger]
        opponent_walk_along(index, games, opponent, found, pairs)
}

/// `DepsMut::as_ref`: the reading handle on the same store.
#[verifier::external_body]
pub(crate) fn as_reader<'a>(d: &'a DepsMut<'_>) -> (r: Deps<'a>)
    ensures
        r == reader(*d),
{
    d.as_ref()
}

/// The field `sender` of a `MessageInfo`, as text.
#[verifier::external_body]
pub(crate) fn sender(info: &MessageInfo) -> (s: String)
    ensures
        s@ == sender_of(*info),
{
    info.sender.to_string()
}

/// `Api::addr_validate`: the chain either refuses the text or hands it back as
/// an address that holds the same text.
#[verifier::external_body]
pub(crate) fn validate(d: Deps, input: &str) -> (r: Option<String>)
    ensures
        r matches Some(address) ==> address@ == input@,
{
    d.api.addr_validate(input).ok().map(Addr::into_string)
}

/// `Item::may_load` on the counter record: the record, `None` where the store
/// holds none.
#[verifier::external_body]
pub(crate) fn counter_read(d: Deps, key: &str) -> (r: Result<Option<State>, StdError>)
    requires
        store_intact(d),
        key@ == STATE@,
    ensures
        r is Ok,
        r matches Ok(Some(state)) ==> counter_of(d) == Some(state@),
        r matches Ok(None) ==> counter_of(d) is None,
{
    let item: Item<(i32, Addr)> = Item::new(key);
    item.may_load(d.storage).map(|o| o.map(|t| State { count: t.0, owner: t.1.into_string() }))
}

/// `Item::save` on the counter record: the store holds `state` there
/// afterwards and nothing else has changed. The call fails only where the
/// record cannot be written as JSON, and the serializer has no failing path
/// for a number and a text; so it succeeds.
#[verifier::external_body]
pub(crate) fn counter_write(d: &mut DepsMut, key: &str, state: &State) -> (r: Result<(), StdError>)
    requires
        intact_in(*old(d)),
        key@ == STATE@,
    ensures
        r is Ok,
        store_intact(reader(*final(d))),
        ledger_in(*final(d)) == (Ledger { counter: Some(state@), ..ledger_in(*old(d)) }),
{
    let item: Item<(i32, Addr)> = Item::new(key);
    item.save(d.storage, &(state.count, Addr::unchecked(state.owner.as_str())))
}

/// `Admin::set` with an admin: the admin record names `admin` afterwards and
/// nothing else has changed. The call fails only where `Item::save` fails,
/// and an optional text can always be written; so it succeeds.
#[verifier::external_body]
pub(crate) fn admin_set(d: &mut DepsMut, key: &str, admin: &str) -> (r: Result<(), StdError>)
    requires
        intact_in(*old(d)),
        key@ == ADMIN@,
    ensures
        r is Ok,
        store_intact(reader(*final(d))),
        ledger_in(*final(d)) == (Ledger { admin: Some(Some(admin@)), ..ledger_in(*old(d)) }),
{
    Admin::new(key).set(d.branch(), Some(Addr::unchecked(admin)))
}

/// `Admin::get`: the admin that the record names, `None` where it names none,
/// and a failure where the store holds no admin record.
#[verifier::external_body]
pub(crate) fn admin_get(d: Deps, key: &str) -> (r: Result<Option<String>, StdError>)
    requires
        store_intact(d),
        key@ == ADMIN@,
    ensures
        r matches Ok(Some(admin)) ==> admin_of(d) == Some(Some(admin@)),
        r matches Ok(None) ==> admin_of(d) == Some(None::<Seq<char>>),
        r is Err ==> admin_of(d) is None,
{
    Admin::new(key).get(d).map(|o| o.map(Addr::into_string))
}

/// `Admin::assert_admin`: succeeds for the admin that the record names, fails
/// with `NotAdmin` for anyone else, and with the store's failure where the
/// store holds no admin record.
#[verifier::external_body]
pub(crate) fn admin_assert(d: Deps, key: &str, caller: &str) -> (r: Result<(), AdminError>)
    requires
        store_intact(d),
        key@ == ADMIN@,
    ensures
        r is Ok <==> admin_of(d) == Some(Some(caller@)),
        r matches Err(AdminError::NotAdmin {}) ==> admin_of(d) is Some,
        r matches Err(AdminError::Std(_)) ==> admin_of(d) is None,
{
    Admin::new(key).assert_admin(d, &Addr::unchecked(caller)).map_err(
        |e|
            match e {
                AdminRefusal::Std(e) => AdminError::Std(e),
                AdminRefusal::NotAdmin {} => AdminError::NotAdmin {},
            },
    )
}

/// `Admin::execute_update_admin` with a new admin: it checks the sender as
/// `assert_admin` does, then writes the record as `Admin::set` does. So it
/// succeeds for the admin and for nobody else, and a failure leaves the store
/// as it was.
#[verifier::external_body]
pub(crate) fn admin_update(d: &mut DepsMut, key: &str, info: MessageInfo, admin: &str) -> (r:
    Result<(), AdminError>)
    requires
        intact_in(*old(d)),
        key@ == ADMIN@,
    ensures
        store_intact(reader(*final(d))),
        r is Ok <==> ledger_in(*old(d)).is_admin(sender_of(info)),
        r is Ok ==> ledger_in(*final(d)) == (Ledger {
            admin: Some(Some(admin@)),
            ..ledger_in(*old(d))
        }),
        r is Err ==> ledger_in(*final(d)) == ledger_in(*old(d)),
        r matches Err(AdminError::NotAdmin {}) ==> ledger_in(*old(d)).admin is Some,
        r matches Err(AdminError::Std(_)) ==> ledger_in(*old(d)).admin is None,
{
    Admin::new(key).execute_update_admin::<Empty>(
        d.branch(),
        info,
        Some(Addr::unchecked(admin)),
    ).map(|_| ()).map_err(
        |e|
            match e {
                AdminRefusal::Std(e) => AdminError::Std(e),
                AdminRefusal::NotAdmin {} => AdminError::NotAdmin {},
            },
    )
}

/// `Hooks::execute_add_hook`: it checks the sender as `assert_admin` does,
/// refuses an address that is on the list, and else writes the list with the
/// address at its end; a list of texts can always be written. So it succeeds
/// for the admin and an address that is not on the list, and for nothing
/// else. It hands back the attributes of its response. A failure leaves the
/// store as it was.
#[verifier::external_body]
pub(crate) fn hooks_add(
    d: &mut DepsMut,
    key: &str,
    admin_key: &str,
    info: MessageInfo,
    hook: &str,
) -> (r: Result<Vec<Attribute>, HookError>)
    requires
        intact_in(*old(d)),
        key@ == HOOKS@,
        admin_key@ == ADMIN@,
    ensures
        store_intact(reader(*final(d))),
        r is Ok <==> ledger_in(*old(d)).is_admin(sender_of(info)) && !ledger_in(
            *old(d),
        ).hook_list().contains(hook@),
        r is Ok ==> ledger_in(*final(d)) == (Ledger {
            hooks: Some(ledger_in(*old(d)).hook_list().push(hook@)),
            ..ledger_in(*old(d))
        }),
        r matches Ok(attributes) ==> attribute_views(attributes@) == seq![
            ("action"@, "add_hook"@),
            ("hook"@, hook@),
            ("sender"@, sender_of(info)),
        ],
        r is Err ==> ledger_in(*final(d)) == ledger_in(*old(d)),
        r matches Err(HookError::Admin(AdminError::Std(_))) ==> ledger_in(*old(d)).admin is None,
        r matches Err(HookError::Admin(AdminError::NotAdmin {})) ==> ledger_in(
            *old(d),
        ).admin is Some && !ledger_in(*old(d)).is_admin(sender_of(info)),
        r matches Err(HookError::HookAlreadyRegistered {}) ==> ledger_in(*old(d)).is_admin(
            sender_of(info),
        ),
        !(r matches Err(HookError::Std(_))),
        !(r matches Err(HookError::HookNotRegistered {})),
{
    match Hooks::new(key).execute_add_hook::<Empty>(&Admin::new(admin_key), d.branch(), info, Addr::unchecked(hook)) {
        Ok(resp) => Ok(resp.attributes.into_iter().map(|a| Attribute { key: a.key, value: a.value }).collect()),
        Err(HookRefusal::Std(e)) => Err(HookError::Std(e)),
        Err(HookRefusal::Admin(AdminRefusal::Std(e))) => Err(HookError::Admin(AdminError::Std(e))),
        Err(HookRefusal::Admin(AdminRefusal::NotAdmin {})) => Err(HookError::Admin(AdminError::NotAdmin {})),
        Err(HookRefusal::HookAlreadyRegistered {}) => Err(HookError::HookAlreadyRegistered {}),
        Err(HookRefusal::HookNotRegistered {}) => Err(HookError::HookNotRegistered {}),
    }
}

/// `Hooks::execute_remove_hook`: it checks the sender as `assert_admin` does,
/// fails with the store's failure where the store holds no hook list, refuses
/// an address that is not on the list, and else writes the list without the
/// first place that holds the address; a list of texts can always be
/// written. So it succeeds for the admin and an address on the list, and for
/// nothing else. It hands back the attributes of its response. A failure
/// leaves the store as it was.
#[verifier::external_body]
pub(crate) fn hooks_remove(
    d: &mut DepsMut,
    key: &str,
    admin_key: &str,
    info: MessageInfo,
    hook: &str,
) -> (r: Result<Vec<Attribute>, HookError>)
    requires
        intact_in(*old(d)),
        key@ == HOOKS@,
        admin_key@ == ADMIN@,
    ensures
        store_intact(reader(*final(d))),
        r is Ok <==> ledger_in(*old(d)).is_admin(sender_of(info)) && ledger_in(
            *old(d),
        ).hook_list().contains(hook@),
        r is Ok ==> ledger_in(*final(d)) == (Ledger {
            hooks: Some(ledger_in(*old(d)).hook_list().remove_value(hook@)),
            ..ledger_in(*old(d))
        }),
        r matches Ok(attributes) ==> attribute_views(attributes@) == seq![
            ("action"@, "remove_hook"@),
            ("hook"@, hook@),
            ("sender"@, sender_of(info)),
        ],
        r is Err ==> ledger_in(*final(d)) == ledger_in(*old(d)),
        r matches Err(HookError::Admin(AdminError::Std(_))) ==> ledger_in(*old(d)).admin is None,
        r matches Err(HookError::Admin(AdminError::NotAdmin {})) ==> ledger_in(
            *old(d),
        ).admin is Some && !ledger_in(*old(d)).is_admin(sender_of(info)),
        r matches Err(HookError::HookNotRegistered {}) ==> ledger_in(*old(d)).is_admin(
            sender_of(info),
        ) && ledger_in(*old(d)).hooks is Some,
        r matches Err(HookError::Std(_)) ==> ledger_in(*old(d)).is_admin(sender_of(info))
            && ledger_in(*old(d)).hooks is None,
        !(r matches Err(HookError::HookAlreadyRegistered {})),
{
    match Hooks::new(key).execute_remove_hook::<Empty>(&Admin::new(admin_key), d.branch(), info, Addr::unchecked(hook)) {
        Ok(resp) => Ok(resp.attributes.into_iter().map(|a| Attribute { key: a.key, value: a.value }).collect()),
        Err(HookRefusal::Std(e)) => Err(HookError::Std(e)),
        Err(HookRefusal::Admin(AdminRefusal::Std(e))) => Err(HookError::Admin(AdminError::Std(e))),
        Err(HookRefusal::Admin(AdminRefusal::NotAdmin {})) => Err(HookError::Admin(AdminError::NotAdmin {})),
        Err(HookRefusal::HookAlreadyRegistered {}) => Err(HookError::HookAlreadyRegistered {}),
        Err(HookRefusal::HookNotRegistered {}) => Err(HookError::HookNotRegistered {}),
    }
}

/// `Hooks::query_hooks`: the addresses on the hook list in their order, none
/// where the store holds no list.
#[verifier::external_body]
pub(crate) fn hooks_list(d: Deps, key: &str) -> (r: Result<Vec<String>, StdError>)
    requires
        store_intact(d),
        key@ == HOOKS@,
    ensures
        r is Ok,
        r matches Ok(hooks) ==> text_views(hooks@) == (match hooks_of(d) {
            Some(list) => list,
            None => Seq::empty(),
        }),
{
    Hooks::new(key).query_hooks(d).map(|resp| resp.hooks)
}

/// `Map::may_load` on the game records: the record of the pair, `None` where
/// the store holds none.
#[verifier::external_body]
pub(crate) fn games_read(d: Deps, records: &str, host: &str, opponent: &str) -> (r: Result<
    Option<GameRow>,
    StdError,
>)
    requires
        store_intact(d),
        records@ == GAMES@,
        fits_key(host@),
    ensures
        r is Ok,
        r matches Ok(Some(row)) ==> games_of(d).contains_key((host@, opponent@)) && games_of(
            d,
        )[(host@, opponent@)] == row@,
        r matches Ok(None) ==> !games_of(d).contains_key((host@, opponent@)),
{
    let map: cw_storage_plus::Map<(Addr, Addr), (Addr, Addr, u8, Option<u8>, Option<u8>)> = cw_storage_plus::Map::new(records);
    map.may_load(d.storage, (Addr::unchecked(host), Addr::unchecked(opponent))).map(
        |o| o.map(|t| GameRow { host: t.0.into_string(), opponent: t.1.into_string(), host_move: t.2, opp_move: t.3, result: t.4 }),
    )
}

/// `Map::save` on the game records: the store holds `row` for the pair
/// afterwards and nothing else has changed. The call fails only where the
/// record cannot be written as JSON, and the serializer has no failing path
/// for texts, numbers and optional numbers; so it succeeds.
#[verifier::external_body]
pub(crate) fn games_write(
    d: &mut DepsMut,
    records: &str,
    host: &str,
    opponent: &str,
    row: &GameRow,
) -> (r: Result<(), StdError>)
    requires
        intact_in(*old(d)),
        records@ == GAMES@,
        fits_key(host@),
    ensures
        r is Ok,
        store_intact(reader(*final(d))),
        ledger_in(*final(d)) == (Ledger {
            games: ledger_in(*old(d)).games.insert((host@, opponent@), row@),
            ..ledger_in(*old(d))
        }),
{
    let map: cw_storage_plus::Map<(Addr, Addr), (Addr, Addr, u8, Option<u8>, Option<u8>)> = cw_storage_plus::Map::new(records);
    let stored = (Addr::unchecked(row.host.as_str()), Addr::unchecked(row.opponent.as_str()), row.host_move, row.opp_move, row.result);
    map.save(d.storage, (Addr::unchecked(host), Addr::unchecked(opponent)), &stored)
}

/// `Map::remove` on the game records: the store holds no record for the pair
/// afterwards, and nothing else has changed.
#[verifier::external_body]
pub(crate) fn games_erase(d: &mut DepsMut, records: &str, host: &str, opponent: &str)
    requires
        intact_in(*old(d)),
        records@ == GAMES@,
        fits_key(host@),
    ensures
        store_intact(reader(*final(d))),
        ledger_in(*final(d)) == (Ledger {
            games: ledger_in(*old(d)).games.remove((host@, opponent@)),
            ..ledger_in(*old(d))
        }),
{
    let map: cw_storage_plus::Map<(Addr, Addr), (Addr, Addr, u8, Option<u8>, Option<u8>)> = cw_storage_plus::Map::new(records);
    map.remove(d.storage, (Addr::unchecked(host), Addr::unchecked(opponent)))
}

/// `Map::prefix` with a host and `Prefix::range` over all of it, ascending:
/// the records of the host's games in the order of the opponents' key bytes.
#[verifier::external_body]
pub(crate) fn games_under_host(d: Deps, records: &str, host: &str) -> (r: Result<
    Vec<GameRow>,
    StdError,
>)
    requires
        store_intact(d),
        records@ == GAMES@,
        fits_key(host@),
    ensures
        r is Ok,
        r matches Ok(rows) ==> host_walk(games_of(d), host@, row_views(rows@)),
{
    let map: cw_storage_plus::Map<(Addr, Addr), (Addr, Addr, u8, Option<u8>, Option<u8>)> = cw_storage_plus::Map::new(records);
    map.prefix(Addr::unchecked(host)).range(d.storage, None, None, Order::Ascending).map(
        |x| x.map(|(_, t)| GameRow { host: t.0.into_string(), opponent: t.1.into_string(), host_move: t.2, opp_move: t.3, result: t.4 }),
    ).collect()
}

/// What `MultiIndex::new` takes to file a record: the key of its index entry
/// is the record's opponent, then the record's own key.
#[verifier::external_body]
fn filed_under(stored: &(Addr, Addr, u8, Option<u8>, Option<u8>), pk: Vec<u8>) -> (Addr, Vec<u8>) {
    (stored.1.clone(), pk)
}

/// `Index::save` of the index by opponent, with the pair's joined key: the
/// index holds an entry for the pair under the opponent that `row` names
/// afterwards, and nothing else has changed. The call fails only where the
/// length of the key cannot be written as JSON, and a number always can; so
/// it succeeds.
#[verifier::external_body]
pub(crate) fn index_write(
    d: &mut DepsMut,
    records: &str,
    index: &str,
    host: &str,
    opponent: &str,
    row: &GameRow,
) -> (r: Result<(), StdError>)
    requires
        intact_in(*old(d)),
        records@ == GAMES@,
        index@ == GAMES_BY_OPPONENT@,
        fits_key(host@),
        fits_key(row.opponent@),
    ensures
        r is Ok,
        store_intact(reader(*final(d))),
        ledger_in(*final(d)) == (Ledger {
            index: ledger_in(*old(d)).index.insert((row.opponent@, (host@, opponent@))),
            ..ledger_in(*old(d))
        }),
{
    let by: MultiIndex<(Addr, Vec<u8>), (Addr, Addr, u8, Option<u8>, Option<u8>)> = MultiIndex::new(filed_under, records, index);
    let stored = (Addr::unchecked(row.host.as_str()), Addr::unchecked(row.opponent.as_str()), row.host_move, row.opp_move, row.result);
    by.save(d.storage, &(Addr::unchecked(host), Addr::unchecked(opponent)).joined_key(), &stored)
}

/// `Index::remove` of the index by opponent, with the pair's joined key: the
/// index holds no entry for the pair under the opponent that `row` names
/// afterwards, and nothing else has changed.
#[verifier::external_body]
pub(crate) fn index_erase(
    d: &mut DepsMut,
    records: &str,
    index: &str,
    host: &str,
    opponent: &str,
    row: &GameRow,
)
    requires
        intact_in(*old(d)),
        records@ == GAMES@,
        index@ == GAMES_BY_OPPONENT@,
        fits_key(host@),
        fits_key(row.opponent@),
    ensures
        store_intact(reader(*final(d))),
        ledger_in(*final(d)) == (Ledger {
            index: ledger_in(*old(d)).index.remove((row.opponent@, (host@, opponent@))),
            ..ledger_in(*old(d))
        }),
{
    let by: MultiIndex<(Addr, Vec<u8>), (Addr, Addr, u8, Option<u8>, Option<u8>)> = MultiIndex::new(filed_under, records, index);
    let stored = (Addr::unchecked(row.host.as_str()), Addr::unchecked(row.opponent.as_str()), row.host_move, row.opp_move, row.result);
    let _ = by.remove(d.storage, &(Addr::unchecked(host), Addr::unchecked(opponent)).joined_key(), &stored);
}

/// `MultiIndex::prefix` with an opponent and `Prefix::range` over all of it,
/// ascending: for each entry filed under the opponent, in the order of the
/// pairs' key bytes, the record that the store holds for the entry's pair,
/// `None` where it holds none.
#[verifier::external_body]
pub(crate) fn index_scan(d: Deps, records: &str, index: &str, opponent: &str) -> (r: Vec<
    Option<GameRow>,
>)
    requires
        store_intact(d),
        records@ == GAMES@,
        index@ == GAMES_BY_OPPONENT@,
        fits_key(opponent@),
    ensures
        opponent_walk(index_of(d), games_of(d), opponent@, found_views(r@)),
{
    let by: MultiIndex<(Addr, Vec<u8>), (Addr, Addr, u8, Option<u8>, Option<u8>)> = MultiIndex::new(filed_under, records, index);
    by.prefix(Addr::unchecked(opponent)).range(d.storage, None, None, Order::Ascending).map(
        |x| x.ok().map(|(_, t)| GameRow { host: t.0.into_string(), opponent: t.1.into_string(), host_move: t.2, opp_move: t.3, result: t.4 }),
    ).collect()
}

} // verus!
