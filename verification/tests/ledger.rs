use cosmwasm_std::testing::{mock_dependencies, mock_env, mock_info, MockApi, MockQuerier, MockStorage};
use cosmwasm_std::{Order, OwnedDeps, StdError, Storage};
use counter::contract::{
    add_hook, execute, games_by_host, games_by_opponent, instantiate, migrate, query, query_admin,
    query_count, query_games_by_host, query_games_by_opponent, query_hooks, query_owner,
    remove_hook, respond,
    try_decrement, try_increment, try_reset, try_respond, try_start_game, try_update_admin,
    try_update_owner, update_admin,
};
use counter::error::{AdminError, ContractError, HookError};
use counter::games::{Games, GAMES, GAMES_BY_OPPONENT};
use counter::keys::{is_key_part, MAX_KEY_PART};
use counter::msg::{
    Attribute, ExecuteMsg, GameMove, GameResult, InstantiateMsg, MigrateMsg, QueryMsg,
    QueryResponse, Response,
};
use counter::rules::judge;
use counter::state::{GameRow, GameState, State, ADMIN, HOOKS, STATE};
use counter::text::{decimal, holds_text, same_text};

type Store = OwnedDeps<MockStorage, MockApi, MockQuerier>;

fn ledger(count: i32) -> Store {
    let mut deps = mock_dependencies(&[]);
    instantiate(&mut deps.as_mut(), mock_env(), mock_info("creator", &[]), InstantiateMsg { count })
        .unwrap();
    deps
}

fn count(deps: &Store) -> i32 {
    query_count(deps.as_ref()).unwrap().count
}

fn open(deps: &mut Store, host: &str, opponent: &str, host_move: GameMove) -> Result<Response, ContractError> {
    try_start_game(&mut deps.as_mut(), mock_info(host, &[]), opponent.to_string(), host_move)
}

fn answer(deps: &mut Store, caller: &str, host: &str, opponent: &str, opp_move: GameMove) -> Result<Response, ContractError> {
    try_respond(
        &mut deps.as_mut(),
        mock_info(caller, &[]),
        host.to_string(),
        opponent.to_string(),
        opp_move,
    )
}

fn hosts_of(deps: &Store, opponent: &str) -> Vec<String> {
    query_games_by_opponent(deps.as_ref(), opponent.to_string())
        .unwrap()
        .into_iter()
        .map(|g| g.host)
        .collect()
}

fn opponents_of(deps: &Store, host: &str) -> Vec<String> {
    query_games_by_host(deps.as_ref(), host.to_string())
        .unwrap()
        .into_iter()
        .map(|g| g.opponent)
        .collect()
}

fn game(host: &str, opponent: &str, host_move: GameMove) -> GameState {
    GameState {
        host: host.to_string(),
        opponent: opponent.to_string(),
        host_move,
        opp_move: None,
        result: None,
    }
}

fn attribute(key: &str, value: &str) -> Attribute {
    Attribute { key: key.to_string(), value: value.to_string() }
}

#[test]
fn records_live_under_their_names() {
    assert_eq!(STATE, "state");
    assert_eq!(ADMIN, "admin");
    assert_eq!(HOOKS, "hooks");
    assert_eq!(GAMES, "states");
    assert_eq!(GAMES_BY_OPPONENT, "states__opponent");

    let mut deps = mock_dependencies(&[]);
    assert_eq!(deps.storage.range(None, None, Order::Ascending).count(), 0);
    instantiate(&mut deps.as_mut(), mock_env(), mock_info("creator", &[]), InstantiateMsg { count: 1 })
        .unwrap();
    assert!(deps.storage.get(b"state").is_some());
    assert!(deps.storage.get(b"admin").is_some());
    assert!(deps.storage.get(b"hooks").is_none());
    add_hook(&mut deps.as_mut(), mock_info("creator", &[]), Some("mallory".to_string())).unwrap();
    assert!(deps.storage.get(b"hooks").is_some());
    assert_eq!(deps.storage.range(None, None, Order::Ascending).count(), 3);

    // a game is one record under the pair, and one entry under the opponent
    open(&mut deps, "alice", "bob", GameMove::Rock).unwrap();
    assert!(deps.storage.get(b"\x00\x06states\x00\x05alicebob").is_some());
    assert!(deps
        .storage
        .get(b"\x00\x10states__opponent\x00\x03bob\x00\x05alicebob")
        .is_some());
    assert_eq!(deps.storage.range(None, None, Order::Ascending).count(), 5);
    answer(&mut deps, "bob", "alice", "bob", GameMove::Rock).unwrap();
    assert_eq!(deps.storage.range(None, None, Order::Ascending).count(), 3);
}

#[test]
fn every_request_with_room_succeeds() {
    let mut deps = ledger(i32::MAX - 3);
    for _ in 0..3 {
        assert!(try_increment(&mut deps.as_mut()).is_ok());
    }
    assert_eq!(count(&deps), i32::MAX);
    for _ in 0..3 {
        assert!(try_decrement(&mut deps.as_mut()).is_ok());
    }
    assert_eq!(count(&deps), i32::MAX - 3);
}

#[test]
fn raising_and_lowering_returns_to_the_start() {
    let mut deps = ledger(-3);
    for step in 1..=5 {
        try_increment(&mut deps.as_mut()).unwrap();
        assert_eq!(count(&deps), -3 + step);
    }
    for step in 1..=5 {
        try_decrement(&mut deps.as_mut()).unwrap();
        assert_eq!(count(&deps), 2 - step);
    }
    assert_eq!(count(&deps), -3);
}

#[test]
fn counter_stops_at_the_ends_of_its_range() {
    let mut deps = ledger(i32::MAX);
    assert_eq!(try_increment(&mut deps.as_mut()), Err(ContractError::Overflow {}));
    assert_eq!(count(&deps), i32::MAX);
    try_decrement(&mut deps.as_mut()).unwrap();
    assert_eq!(count(&deps), i32::MAX - 1);

    let mut deps = ledger(i32::MIN);
    assert_eq!(try_decrement(&mut deps.as_mut()), Err(ContractError::Overflow {}));
    assert_eq!(count(&deps), i32::MIN);
    try_increment(&mut deps.as_mut()).unwrap();
    assert_eq!(count(&deps), i32::MIN + 1);
}

#[test]
fn counter_requests_need_a_counter() {
    let mut deps = mock_dependencies(&[]);
    assert_eq!(try_increment(&mut deps.as_mut()), Err(ContractError::NotFound {}));
    assert_eq!(try_decrement(&mut deps.as_mut()), Err(ContractError::NotFound {}));
    assert_eq!(
        try_reset(&mut deps.as_mut(), mock_info("creator", &[]), 1),
        Err(ContractError::NotFound {})
    );
    assert_eq!(
        try_update_owner(&mut deps.as_mut(), mock_info("creator", &[]), "anyone".to_string()),
        Err(ContractError::NotFound {})
    );
    assert_eq!(query_count(deps.as_ref()), Err(ContractError::NotFound {}));
    assert_eq!(query_owner(deps.as_ref()), Err(ContractError::NotFound {}));
}

#[test]
fn instantiate_reports_owner_and_count() {
    let mut deps = mock_dependencies(&[]);
    let res = instantiate(
        &mut deps.as_mut(),
        mock_env(),
        mock_info("creator", &[]),
        InstantiateMsg { count: -42 },
    )
    .unwrap();
    assert_eq!(
        res.attributes,
        vec![
            attribute("method", "instantiate"),
            attribute("owner", "creator"),
            attribute("count", "-42"),
        ]
    );
    assert_eq!(res.data, None);
    assert_eq!(count(&deps), -42);
    assert_eq!(query_owner(deps.as_ref()).unwrap().owner, "creator");
    assert_eq!(query_admin(deps.as_ref()).unwrap().admin, "creator");
}

#[test]
fn reset_is_for_the_owner_only() {
    let mut deps = ledger(17);
    assert_eq!(
        try_reset(&mut deps.as_mut(), mock_info("anyone", &[]), 5),
        Err(ContractError::Unauthorized {})
    );
    assert_eq!(count(&deps), 17);
    assert_eq!(query_owner(deps.as_ref()).unwrap().owner, "creator");

    let res = try_reset(&mut deps.as_mut(), mock_info("creator", &[]), 5).unwrap();
    assert_eq!(res, Response::new().add_attribute("method", "reset"));
    assert_eq!(count(&deps), 5);
    assert_eq!(query_owner(deps.as_ref()).unwrap().owner, "creator");
}

#[test]
fn hand_over_moves_the_right_to_reset() {
    let mut deps = ledger(17);
    let res =
        try_update_owner(&mut deps.as_mut(), mock_info("creator", &[]), "anyone".to_string())
            .unwrap();
    assert_eq!(res, Response::new().add_attribute("method", "update_owner"));
    assert_eq!(count(&deps), 17);

    assert_eq!(
        try_reset(&mut deps.as_mut(), mock_info("creator", &[]), 1),
        Err(ContractError::Unauthorized {})
    );
    assert_eq!(
        try_update_owner(&mut deps.as_mut(), mock_info("creator", &[]), "creator".to_string()),
        Err(ContractError::Unauthorized {})
    );
    assert_eq!(count(&deps), 17);
    assert_eq!(query_owner(deps.as_ref()).unwrap().owner, "anyone");

    try_reset(&mut deps.as_mut(), mock_info("anyone", &[]), 2).unwrap();
    assert_eq!(count(&deps), 2);
    try_update_owner(&mut deps.as_mut(), mock_info("anyone", &[]), "third".to_string()).unwrap();
    assert_eq!(query_owner(deps.as_ref()).unwrap().owner, "third");
}

#[test]
fn hand_over_checks_the_owner_before_the_address() {
    let mut deps = ledger(17);
    // the chain refuses "no": it is too short for an address
    assert_eq!(
        try_update_owner(&mut deps.as_mut(), mock_info("anyone", &[]), "no".to_string()),
        Err(ContractError::Unauthorized {})
    );
    assert_eq!(
        try_update_owner(&mut deps.as_mut(), mock_info("creator", &[]), "no".to_string()),
        Err(ContractError::InvalidInput {})
    );
    assert_eq!(query_owner(deps.as_ref()).unwrap().owner, "creator");
}

#[test]
fn second_start_for_a_pair_is_refused() {
    let mut deps = ledger(0);
    open(&mut deps, "alice", "bob", GameMove::Rock).unwrap();
    for later in [GameMove::Rock, GameMove::Paper, GameMove::Scissors] {
        assert_eq!(open(&mut deps, "alice", "bob", later), Err(ContractError::AlreadyExists {}));
    }
    assert_eq!(
        query_games_by_host(deps.as_ref(), "alice".to_string()).unwrap(),
        vec![game("alice", "bob", GameMove::Rock)]
    );
    assert_eq!(hosts_of(&deps, "bob"), vec!["alice".to_string()]);
}

#[test]
fn pairs_are_ordered() {
    let mut deps = ledger(0);
    open(&mut deps, "alice", "bob", GameMove::Rock).unwrap();
    open(&mut deps, "bob", "alice", GameMove::Paper).unwrap();
    assert_eq!(
        query_games_by_host(deps.as_ref(), "alice".to_string()).unwrap(),
        vec![game("alice", "bob", GameMove::Rock)]
    );
    assert_eq!(
        query_games_by_host(deps.as_ref(), "bob".to_string()).unwrap(),
        vec![game("bob", "alice", GameMove::Paper)]
    );
    assert_eq!(
        query_games_by_opponent(deps.as_ref(), "alice".to_string()).unwrap(),
        vec![game("bob", "alice", GameMove::Paper)]
    );

    let res = answer(&mut deps, "alice", "bob", "alice", GameMove::Rock).unwrap();
    assert_eq!(res.data, Some(GameResult::HostWins));
    assert_eq!(opponents_of(&deps, "alice"), vec!["bob".to_string()]);
    assert!(opponents_of(&deps, "bob").is_empty());
}

#[test]
fn answer_decides_the_game_once() {
    let mut deps = ledger(0);
    open(&mut deps, "alice", "bob", GameMove::Rock).unwrap();
    let res = answer(&mut deps, "bob", "alice", "bob", GameMove::Paper).unwrap();
    assert_eq!(
        res,
        Response::new().add_attribute("method", "respond").set_data(GameResult::OpponentWins)
    );
    assert!(opponents_of(&deps, "alice").is_empty());
    assert!(hosts_of(&deps, "bob").is_empty());
    assert_eq!(
        answer(&mut deps, "bob", "alice", "bob", GameMove::Paper),
        Err(ContractError::NotFound {})
    );
    // the pair is free again
    open(&mut deps, "alice", "bob", GameMove::Scissors).unwrap();
    let res = answer(&mut deps, "bob", "alice", "bob", GameMove::Paper).unwrap();
    assert_eq!(res.data, Some(GameResult::HostWins));
}

#[test]
fn answer_is_for_the_opponent_only() {
    let mut deps = ledger(0);
    open(&mut deps, "alice", "bob", GameMove::Rock).unwrap();
    for caller in ["alice", "carol", "creator"] {
        assert_eq!(
            answer(&mut deps, caller, "alice", "bob", GameMove::Paper),
            Err(ContractError::Forbidden {})
        );
    }
    assert_eq!(
        query_games_by_host(deps.as_ref(), "alice".to_string()).unwrap(),
        vec![game("alice", "bob", GameMove::Rock)]
    );
    assert_eq!(hosts_of(&deps, "bob"), vec!["alice".to_string()]);
}

#[test]
fn answer_checks_in_order() {
    let mut deps = ledger(0);
    // a refused opponent comes first, whoever asks
    assert_eq!(
        answer(&mut deps, "bob", "alice", "no", GameMove::Rock),
        Err(ContractError::InvalidInput {})
    );
    // then the caller, before the host's address is looked at
    assert_eq!(
        answer(&mut deps, "carol", "no", "bob", GameMove::Rock),
        Err(ContractError::Forbidden {})
    );
    assert_eq!(
        answer(&mut deps, "bob", "no", "bob", GameMove::Rock),
        Err(ContractError::InvalidInput {})
    );
    assert_eq!(
        answer(&mut deps, "bob", "alice", "bob", GameMove::Rock),
        Err(ContractError::NotFound {})
    );
}

#[test]
fn respond_takes_the_host_judgement_as_given() {
    let mut deps = ledger(0);
    open(&mut deps, "alice", "bob", GameMove::Paper).unwrap();
    assert_eq!(
        respond(
            &mut deps.as_mut(),
            mock_info("bob", &[]),
            Some("alice".to_string()),
            None,
            GameMove::Rock
        ),
        Err(ContractError::InvalidInput {})
    );
    assert_eq!(
        respond(
            &mut deps.as_mut(),
            mock_info("bob", &[]),
            None,
            Some("bob".to_string()),
            GameMove::Rock
        ),
        Err(ContractError::InvalidInput {})
    );
    let res = respond(
        &mut deps.as_mut(),
        mock_info("bob", &[]),
        Some("alice".to_string()),
        Some("bob".to_string()),
        GameMove::Rock,
    )
    .unwrap();
    assert_eq!(res.data, Some(GameResult::HostWins));
}

#[test]
fn lists_follow_starts_and_answers() {
    let mut deps = ledger(0);
    open(&mut deps, "carol", "bob", GameMove::Rock).unwrap();
    open(&mut deps, "alice", "dave", GameMove::Paper).unwrap();
    open(&mut deps, "alice", "bob", GameMove::Scissors).unwrap();
    open(&mut deps, "zed", "bob", GameMove::Rock).unwrap();
    open(&mut deps, "alice", "carol", GameMove::Rock).unwrap();

    assert_eq!(
        opponents_of(&deps, "alice"),
        vec!["bob".to_string(), "carol".to_string(), "dave".to_string()]
    );
    // under one opponent the shorter host comes first, then the smaller bytes
    assert_eq!(
        hosts_of(&deps, "bob"),
        vec!["zed".to_string(), "alice".to_string(), "carol".to_string()]
    );
    assert_eq!(
        query_games_by_opponent(deps.as_ref(), "bob".to_string()).unwrap(),
        vec![
            game("zed", "bob", GameMove::Rock),
            game("alice", "bob", GameMove::Scissors),
            game("carol", "bob", GameMove::Rock),
        ]
    );

    answer(&mut deps, "bob", "alice", "bob", GameMove::Rock).unwrap();
    assert_eq!(opponents_of(&deps, "alice"), vec!["carol".to_string(), "dave".to_string()]);
    assert_eq!(hosts_of(&deps, "bob"), vec!["zed".to_string(), "carol".to_string()]);

    open(&mut deps, "bob", "alice", GameMove::Paper).unwrap();
    open(&mut deps, "alice", "bob", GameMove::Paper).unwrap();
    assert_eq!(
        opponents_of(&deps, "alice"),
        vec!["bob".to_string(), "carol".to_string(), "dave".to_string()]
    );
    assert_eq!(
        hosts_of(&deps, "bob"),
        vec!["zed".to_string(), "alice".to_string(), "carol".to_string()]
    );
    assert_eq!(hosts_of(&deps, "alice"), vec!["bob".to_string()]);
    assert!(hosts_of(&deps, "zed").is_empty());
    assert!(opponents_of(&deps, "dave").is_empty());

    // every game is on the list of its host and on the list of its opponent
    for host in ["alice", "bob", "carol", "zed"] {
        for listed in query_games_by_host(deps.as_ref(), host.to_string()).unwrap() {
            let against = query_games_by_opponent(deps.as_ref(), listed.opponent.clone()).unwrap();
            assert!(against.contains(&listed));
        }
    }
}

#[test]
fn keys_order_by_bytes_not_by_letters() {
    let mut deps = ledger(0);
    // a prefix comes before what it begins, and a digit before a letter
    for opponent in ["bobby", "bob", "bo7", "boa"] {
        open(&mut deps, "alice", opponent, GameMove::Rock).unwrap();
    }
    assert_eq!(
        opponents_of(&deps, "alice"),
        vec!["bo7".to_string(), "boa".to_string(), "bob".to_string(), "bobby".to_string()]
    );
}

#[test]
fn hosts_order_by_their_length_in_bytes() {
    let mut deps = ledger(0);
    // senders are not validated: "zz" has two bytes, "\u{e9}a" three, the others four
    for host in ["\u{e4}bc", "abcd", "\u{e9}a", "zz"] {
        open(&mut deps, host, "bob", GameMove::Rock).unwrap();
    }
    assert_eq!(
        hosts_of(&deps, "bob"),
        vec!["zz".to_string(), "\u{e9}a".to_string(), "abcd".to_string(), "\u{e4}bc".to_string()]
    );
    // one host's opponents come by their bytes alone
    for opponent in ["\u{e4}bc", "abcd", "zzz"] {
        open(&mut deps, "alice", opponent, GameMove::Rock).unwrap();
    }
    assert_eq!(
        opponents_of(&deps, "alice"),
        vec!["abcd".to_string(), "zzz".to_string(), "\u{e4}bc".to_string()]
    );
}

#[test]
fn an_entry_without_a_record_counts_as_no_game() {
    let mut deps = ledger(0);
    let games = Games::default();
    games.idx().on_insert(&mut deps.as_mut(), &game("ghost", "bob", GameMove::Rock)).unwrap();
    assert!(hosts_of(&deps, "bob").is_empty());
    assert!(opponents_of(&deps, "ghost").is_empty());

    open(&mut deps, "alice", "bob", GameMove::Paper).unwrap();
    assert_eq!(hosts_of(&deps, "bob"), vec!["alice".to_string()]);

    // the record that the entry waited for is listed once
    open(&mut deps, "ghost", "bob", GameMove::Scissors).unwrap();
    assert_eq!(
        query_games_by_opponent(deps.as_ref(), "bob".to_string()).unwrap(),
        vec![game("alice", "bob", GameMove::Paper), game("ghost", "bob", GameMove::Scissors)]
    );

    // the index lists what is filed in it: without its entry the record is
    // still there, and is not listed
    games.idx().on_remove(&mut deps.as_mut(), &game("ghost", "bob", GameMove::Scissors));
    assert_eq!(
        games.idx().by_opponent(deps.as_ref(), "bob"),
        Ok(vec![game("alice", "bob", GameMove::Paper)])
    );
    assert_eq!(
        games.by_host(deps.as_ref(), "ghost"),
        Ok(vec![game("ghost", "bob", GameMove::Scissors)])
    );
}

#[test]
fn games_collection_writes_and_removes() {
    let mut deps = ledger(0);
    let games = Games::default();
    assert_eq!(games.may_load(deps.as_ref(), "alice", "bob"), Ok(None));
    assert_eq!(
        games.remove(&mut deps.as_mut(), "alice", "bob"),
        Err(ContractError::NotFound {})
    );

    let mut played = game("alice", "bob", GameMove::Scissors);
    played.opp_move = Some(GameMove::Paper);
    played.result = Some(GameResult::HostWins);
    games.save(&mut deps.as_mut(), &played).unwrap();
    assert_eq!(games.may_load(deps.as_ref(), "alice", "bob"), Ok(Some(played.clone())));
    assert_eq!(games.may_load(deps.as_ref(), "bob", "alice"), Ok(None));
    assert_eq!(games.by_host(deps.as_ref(), "alice"), Ok(vec![played.clone()]));
    assert_eq!(games.idx().by_opponent(deps.as_ref(), "bob"), Ok(vec![played.clone()]));

    // a second write for the pair takes the place of the first
    let replayed = game("alice", "bob", GameMove::Rock);
    games.save(&mut deps.as_mut(), &replayed).unwrap();
    assert_eq!(games.by_host(deps.as_ref(), "alice"), Ok(vec![replayed.clone()]));
    assert_eq!(games.idx().by_opponent(deps.as_ref(), "bob"), Ok(vec![replayed.clone()]));

    assert_eq!(games.remove(&mut deps.as_mut(), "alice", "bob"), Ok(replayed));
    assert_eq!(games.may_load(deps.as_ref(), "alice", "bob"), Ok(None));
    assert_eq!(games.by_host(deps.as_ref(), "alice"), Ok(vec![]));
    assert_eq!(games.idx().by_opponent(deps.as_ref(), "bob"), Ok(vec![]));
    // the counter and the admin are as they were
    assert_eq!(count(&deps), 0);
    assert_eq!(query_admin(deps.as_ref()).unwrap().admin, "creator");
}

#[test]
fn hooks_are_for_the_admin_only() {
    let mut deps = ledger(0);
    let refused = Err(ContractError::Unauthorized {});
    assert_eq!(
        execute(
            &mut deps.as_mut(),
            mock_env(),
            mock_info("anyone", &[]),
            ExecuteMsg::AddHook { hook: "alice".to_string() }
        ),
        refused
    );
    // the list is as it was: alice may still open a game
    open(&mut deps, "alice", "bob", GameMove::Rock).unwrap();

    let res = execute(
        &mut deps.as_mut(),
        mock_env(),
        mock_info("creator", &[]),
        ExecuteMsg::AddHook { hook: "alice".to_string() },
    )
    .unwrap();
    assert_eq!(
        res,
        Response::new().add_attributes(vec![
            ("action", "add_hook"),
            ("hook", "alice"),
            ("sender", "creator")
        ])
    );
    assert_eq!(
        execute(
            &mut deps.as_mut(),
            mock_env(),
            mock_info("creator", &[]),
            ExecuteMsg::AddHook { hook: "alice".to_string() }
        ),
        Err(ContractError::Hook(HookError::HookAlreadyRegistered {}))
    );
    assert_eq!(
        execute(
            &mut deps.as_mut(),
            mock_env(),
            mock_info("anyone", &[]),
            ExecuteMsg::RemoveHook { hook: "alice".to_string() }
        ),
        Err(ContractError::Unauthorized {})
    );
    assert_eq!(open(&mut deps, "alice", "carol", GameMove::Rock), Err(ContractError::Blacklist {}));
}

#[test]
fn hook_list_keeps_the_others_when_one_leaves() {
    let mut deps = ledger(0);
    assert_eq!(query_hooks(deps.as_ref()), Ok(vec![]));
    let admin = || mock_info("creator", &[]);
    for hook in ["alice", "bob", "carol"] {
        add_hook(&mut deps.as_mut(), admin(), Some(hook.to_string())).unwrap();
    }
    assert_eq!(
        remove_hook(&mut deps.as_mut(), admin(), Some("dave".to_string())),
        Err(ContractError::Hook(HookError::HookNotRegistered {}))
    );
    let res = remove_hook(&mut deps.as_mut(), admin(), Some("bob".to_string())).unwrap();
    assert_eq!(
        res.attributes,
        vec![
            attribute("action", "remove_hook"),
            attribute("hook", "bob"),
            attribute("sender", "creator"),
        ]
    );
    assert_eq!(
        remove_hook(&mut deps.as_mut(), admin(), Some("bob".to_string())),
        Err(ContractError::Hook(HookError::HookNotRegistered {}))
    );
    assert_eq!(
        query_hooks(deps.as_ref()),
        Ok(vec!["alice".to_string(), "carol".to_string()])
    );
    assert_eq!(open(&mut deps, "alice", "zed", GameMove::Rock), Err(ContractError::Blacklist {}));
    assert_eq!(open(&mut deps, "carol", "zed", GameMove::Rock), Err(ContractError::Blacklist {}));
    open(&mut deps, "bob", "zed", GameMove::Rock).unwrap();
    // bob may come back, at the end of the list
    add_hook(&mut deps.as_mut(), admin(), Some("bob".to_string())).unwrap();
    assert_eq!(
        query_hooks(deps.as_ref()),
        Ok(vec!["alice".to_string(), "carol".to_string(), "bob".to_string()])
    );
    assert_eq!(open(&mut deps, "bob", "carol", GameMove::Rock), Err(ContractError::Blacklist {}));
}

#[test]
fn hooks_without_records() {
    let mut deps = mock_dependencies(&[]);
    // without an admin record nobody is the admin
    assert!(matches!(
        add_hook(&mut deps.as_mut(), mock_info("creator", &[]), Some("alice".to_string())),
        Err(ContractError::Hook(HookError::Admin(AdminError::Std(StdError::NotFound { .. }))))
    ));
    assert!(matches!(query_admin(deps.as_ref()), Err(ContractError::Std(StdError::NotFound { .. }))));
    assert!(matches!(
        try_update_admin(&mut deps.as_mut(), mock_info("creator", &[]), "alice".to_string()),
        Err(ContractError::Admin(AdminError::Std(StdError::NotFound { .. })))
    ));

    // on a list that was never written no address is registered
    let mut deps = ledger(0);
    assert_eq!(
        remove_hook(&mut deps.as_mut(), mock_info("creator", &[]), Some("alice".to_string())),
        Err(ContractError::Hook(HookError::HookNotRegistered {}))
    );
    assert_eq!(query_hooks(deps.as_ref()), Ok(vec![]));
    // the caller is asked for before the address
    assert_eq!(
        add_hook(&mut deps.as_mut(), mock_info("anyone", &[]), None),
        Err(ContractError::Unauthorized {})
    );
    assert_eq!(
        remove_hook(&mut deps.as_mut(), mock_info("anyone", &[]), None),
        Err(ContractError::Unauthorized {})
    );
    assert_eq!(
        add_hook(&mut deps.as_mut(), mock_info("creator", &[]), None),
        Err(ContractError::InvalidInput {})
    );
    assert_eq!(
        remove_hook(&mut deps.as_mut(), mock_info("creator", &[]), None),
        Err(ContractError::InvalidInput {})
    );
    for sender in ["anyone", "creator"] {
        assert_eq!(
            execute(
                &mut deps.as_mut(),
                mock_env(),
                mock_info(sender, &[]),
                ExecuteMsg::AddHook { hook: "no".to_string() }
            ),
            if sender == "creator" {
                Err(ContractError::InvalidInput {})
            } else {
                Err(ContractError::Unauthorized {})
            }
        );
    }
}

#[test]
fn blacklisted_host_is_refused_whatever_it_asks() {
    let mut deps = ledger(0);
    add_hook(&mut deps.as_mut(), mock_info("creator", &[]), Some("mallory".to_string())).unwrap();
    open(&mut deps, "alice", "bob", GameMove::Rock).unwrap();
    for opponent in ["bob", "no", "", "mallory", "Not-Lower-Case"] {
        for host_move in [GameMove::Rock, GameMove::Paper, GameMove::Scissors] {
            assert_eq!(
                open(&mut deps, "mallory", opponent, host_move),
                Err(ContractError::Blacklist {})
            );
        }
    }
    // the list bars hosts only: mallory can be an opponent, and can answer
    open(&mut deps, "alice", "mallory", GameMove::Rock).unwrap();
    let res = answer(&mut deps, "mallory", "alice", "mallory", GameMove::Scissors).unwrap();
    assert_eq!(res.data, Some(GameResult::HostWins));
    assert!(opponents_of(&deps, "mallory").is_empty());
}

#[test]
fn start_refuses_what_cannot_be_an_address() {
    let mut deps = ledger(0);
    for opponent in ["", "no", "Not-Lower-Case"] {
        assert_eq!(
            open(&mut deps, "alice", opponent, GameMove::Rock),
            Err(ContractError::InvalidInput {})
        );
    }
    let long = "a".repeat(MAX_KEY_PART + 1);
    assert!(!is_key_part(&long));
    assert!(is_key_part(&long[1..]));
    assert!(is_key_part(""));
    // the sender is not validated, and may be too long for a key
    assert_eq!(open(&mut deps, &long, "bob", GameMove::Rock), Err(ContractError::InvalidInput {}));
    assert_eq!(games_by_host(deps.as_ref(), Some(long.clone())), Ok(vec![]));
    assert_eq!(games_by_opponent(deps.as_ref(), Some(long.clone())), Ok(vec![]));
    assert_eq!(
        respond(
            &mut deps.as_mut(),
            mock_info(&long, &[]),
            Some(long.clone()),
            Some(long.clone()),
            GameMove::Rock
        ),
        Err(ContractError::NotFound {})
    );
    assert_eq!(games_by_host(deps.as_ref(), None), Err(ContractError::InvalidInput {}));
    assert_eq!(games_by_opponent(deps.as_ref(), None), Err(ContractError::InvalidInput {}));
    assert_eq!(
        query_games_by_host(deps.as_ref(), "no".to_string()),
        Err(ContractError::InvalidInput {})
    );
    assert_eq!(
        query_games_by_opponent(deps.as_ref(), "no".to_string()),
        Err(ContractError::InvalidInput {})
    );
    assert!(opponents_of(&deps, "alice").is_empty());
}

#[test]
fn admin_changes_hands() {
    let mut deps = ledger(0);
    assert_eq!(
        try_update_admin(&mut deps.as_mut(), mock_info("anyone", &[]), "anyone".to_string()),
        Err(ContractError::Unauthorized {})
    );
    // the caller is checked before the address
    assert_eq!(
        try_update_admin(&mut deps.as_mut(), mock_info("anyone", &[]), "no".to_string()),
        Err(ContractError::Unauthorized {})
    );
    assert_eq!(
        try_update_admin(&mut deps.as_mut(), mock_info("creator", &[]), "no".to_string()),
        Err(ContractError::InvalidInput {})
    );
    assert_eq!(
        update_admin(&mut deps.as_mut(), mock_info("creator", &[]), None),
        Err(ContractError::InvalidInput {})
    );
    assert_eq!(query_admin(deps.as_ref()).unwrap().admin, "creator");

    let res =
        try_update_admin(&mut deps.as_mut(), mock_info("creator", &[]), "anyone".to_string())
            .unwrap();
    assert_eq!(res, Response::new().add_attribute("method", "update_admin"));
    assert_eq!(query_admin(deps.as_ref()).unwrap().admin, "anyone");
    assert_eq!(
        try_update_admin(&mut deps.as_mut(), mock_info("creator", &[]), "creator".to_string()),
        Err(ContractError::Unauthorized {})
    );
    add_hook(&mut deps.as_mut(), mock_info("anyone", &[]), Some("alice".to_string())).unwrap();
    // the counter's owner is another matter
    assert_eq!(query_owner(deps.as_ref()).unwrap().owner, "creator");
}

#[test]
fn outcome_table() {
    let table = [
        (GameMove::Rock, GameMove::Rock, GameResult::Tie),
        (GameMove::Rock, GameMove::Paper, GameResult::OpponentWins),
        (GameMove::Rock, GameMove::Scissors, GameResult::HostWins),
        (GameMove::Paper, GameMove::Rock, GameResult::HostWins),
        (GameMove::Paper, GameMove::Paper, GameResult::Tie),
        (GameMove::Paper, GameMove::Scissors, GameResult::OpponentWins),
        (GameMove::Scissors, GameMove::Rock, GameResult::OpponentWins),
        (GameMove::Scissors, GameMove::Paper, GameResult::HostWins),
        (GameMove::Scissors, GameMove::Scissors, GameResult::Tie),
    ];
    for (host_move, opp_move, result) in table {
        assert_eq!(judge(host_move, opp_move), result);
        let swapped = match result {
            GameResult::HostWins => GameResult::OpponentWins,
            GameResult::OpponentWins => GameResult::HostWins,
            GameResult::Tie => GameResult::Tie,
        };
        assert_eq!(judge(opp_move, host_move), swapped);
    }
}

#[test]
fn every_answer_follows_the_table() {
    let moves = [GameMove::Rock, GameMove::Paper, GameMove::Scissors];
    for host_move in moves {
        for opp_move in moves {
            let mut deps = ledger(0);
            open(&mut deps, "alice", "bob", host_move).unwrap();
            let res = answer(&mut deps, "bob", "alice", "bob", opp_move).unwrap();
            assert_eq!(res.data, Some(judge(host_move, opp_move)));
        }
    }
}

#[test]
fn moves_and_results_have_codes_and_names() {
    let moves = [GameMove::Rock, GameMove::Paper, GameMove::Scissors];
    let results = [GameResult::HostWins, GameResult::OpponentWins, GameResult::Tie];
    for (code, (m, r)) in moves.into_iter().zip(results).enumerate() {
        assert_eq!(m.code(), code as u8);
        assert_eq!(r.code(), code as u8);
        assert_eq!(GameMove::from_code(code as u8), Some(m));
        assert_eq!(GameResult::from_code(code as u8), Some(r));
    }
    for code in [3u8, 4, 200, 255] {
        assert_eq!(GameMove::from_code(code), None);
        assert_eq!(GameResult::from_code(code), None);
    }
    assert_eq!(GameMove::Rock.name(), "rock");
    assert_eq!(GameMove::Paper.name(), "paper");
    assert_eq!(GameMove::Scissors.name(), "scissors");
}

#[test]
fn rows_stand_for_games() {
    let mut played = game("alice", "bob", GameMove::Paper);
    played.opp_move = Some(GameMove::Scissors);
    played.result = Some(GameResult::OpponentWins);
    let row = played.to_row();
    assert_eq!(
        row,
        GameRow {
            host: "alice".to_string(),
            opponent: "bob".to_string(),
            host_move: 1,
            opp_move: Some(2),
            result: Some(1),
        }
    );
    assert_eq!(row.to_game(), Some(played));
    assert_eq!(
        game("alice", "bob", GameMove::Rock).to_row().to_game(),
        Some(game("alice", "bob", GameMove::Rock))
    );
    let blank = GameRow {
        host: "alice".to_string(),
        opponent: "bob".to_string(),
        host_move: 0,
        opp_move: None,
        result: None,
    };
    assert_eq!(GameRow { host_move: 3, ..blank.clone() }.to_game(), None);
    assert_eq!(GameRow { opp_move: Some(9), ..blank.clone() }.to_game(), None);
    assert_eq!(GameRow { result: Some(3), ..blank }.to_game(), None);
}

#[test]
fn counter_record_rules() {
    let state = || State { count: 7, owner: "creator".to_string() };
    assert_eq!(state().incremented(), Ok(State { count: 8, owner: "creator".to_string() }));
    assert_eq!(state().decremented(), Ok(State { count: 6, owner: "creator".to_string() }));
    assert_eq!(
        State { count: i32::MAX, owner: "creator".to_string() }.incremented(),
        Err(ContractError::Overflow {})
    );
    assert_eq!(
        State { count: i32::MIN, owner: "creator".to_string() }.decremented(),
        Err(ContractError::Overflow {})
    );
    assert_eq!(state().reset("creator", -1), Ok(State { count: -1, owner: "creator".to_string() }));
    assert_eq!(state().reset("anyone", -1), Err(ContractError::Unauthorized {}));
    assert_eq!(
        state().transferred("creator", Some("anyone".to_string())),
        Ok(State { count: 7, owner: "anyone".to_string() })
    );
    assert_eq!(state().transferred("creator", None), Err(ContractError::InvalidInput {}));
    assert_eq!(state().transferred("anyone", None), Err(ContractError::Unauthorized {}));
    assert_eq!(
        state().transferred("anyone", Some("anyone".to_string())),
        Err(ContractError::Unauthorized {})
    );
}

#[test]
fn numbers_in_decimal() {
    assert_eq!(decimal(0), "0");
    assert_eq!(decimal(7), "7");
    assert_eq!(decimal(10), "10");
    assert_eq!(decimal(17), "17");
    assert_eq!(decimal(-5), "-5");
    assert_eq!(decimal(1000), "1000");
    assert_eq!(decimal(-1090), "-1090");
    assert_eq!(decimal(i32::MAX), "2147483647");
    assert_eq!(decimal(i32::MIN), "-2147483648");
}

#[test]
fn texts_compare_by_their_characters() {
    assert!(same_text("", ""));
    assert!(same_text("alice", "alice"));
    assert!(!same_text("alice", "alicE"));
    assert!(!same_text("alice", "alic"));
    let list = vec!["alice".to_string(), "bob".to_string()];
    assert!(holds_text(&list, "alice"));
    assert!(holds_text(&list, "bob"));
    assert!(!holds_text(&list, "bo"));
    assert!(!holds_text(&Vec::new(), "alice"));
}

#[test]
fn responses_are_built_in_order() {
    let built = Response::new()
        .add_attribute("first", "1")
        .add_attributes(vec![("second", "2"), ("third", "3")])
        .add_attributes(vec![])
        .set_data(GameResult::Tie);
    assert_eq!(
        built,
        Response {
            messages: vec![],
            attributes: vec![
                attribute("first", "1"),
                attribute("second", "2"),
                attribute("third", "3")
            ],
            data: Some(GameResult::Tie),
        }
    );
    assert_eq!(
        Response::default(),
        Response { messages: vec![], attributes: vec![], data: None }
    );
}

#[test]
fn migrate_changes_nothing() {
    let mut deps = ledger(9);
    open(&mut deps, "alice", "bob", GameMove::Rock).unwrap();
    let res = migrate(&mut deps.as_mut(), mock_env(), MigrateMsg {}).unwrap();
    assert_eq!(res, Response::default());
    assert_eq!(count(&deps), 9);
    assert_eq!(opponents_of(&deps, "alice"), vec!["bob".to_string()]);
}

#[test]
fn queries_answer_in_the_variant_of_their_kind() {
    let mut deps = ledger(3);
    open(&mut deps, "alice", "bob", GameMove::Rock).unwrap();
    let ask = |msg| query(deps.as_ref(), mock_env(), msg);
    assert!(matches!(ask(QueryMsg::GetCount {}), Ok(QueryResponse::Count(c)) if c.count == 3));
    assert!(matches!(ask(QueryMsg::GetOwner {}), Ok(QueryResponse::Owner(o)) if o.owner == "creator"));
    assert!(matches!(ask(QueryMsg::GetAdmin {}), Ok(QueryResponse::Admin(a)) if a.admin == "creator"));
    assert_eq!(
        ask(QueryMsg::GamesByHost { host: "alice".to_string() }),
        Ok(QueryResponse::Games(vec![game("alice", "bob", GameMove::Rock)]))
    );
    assert_eq!(
        ask(QueryMsg::GamesByOpponent { opponent: "bob".to_string() }),
        Ok(QueryResponse::Games(vec![game("alice", "bob", GameMove::Rock)]))
    );
    assert_eq!(
        ask(QueryMsg::GamesByOpponent { opponent: "alice".to_string() }),
        Ok(QueryResponse::Games(vec![]))
    );
    assert_eq!(
        ask(QueryMsg::GamesByHost { host: "no".to_string() }),
        Err(ContractError::InvalidInput {})
    );
}

#[test]
fn execute_carries_out_every_kind_of_request() {
    let mut deps = ledger(1);
    let mut run = |sender: &str, msg| execute(&mut deps.as_mut(), mock_env(), mock_info(sender, &[]), msg);
    run("anyone", ExecuteMsg::Increment {}).unwrap();
    run("anyone", ExecuteMsg::Increment {}).unwrap();
    run("anyone", ExecuteMsg::Decrement {}).unwrap();
    run("creator", ExecuteMsg::UpdateOwner { address: "owner".to_string() }).unwrap();
    run("owner", ExecuteMsg::Reset { count: 40 }).unwrap();
    run("creator", ExecuteMsg::UpdateAdmin { admin: "admin".to_string() }).unwrap();
    run("admin", ExecuteMsg::AddHook { hook: "mallory".to_string() }).unwrap();
    run("admin", ExecuteMsg::AddHook { hook: "alice".to_string() }).unwrap();
    run("admin", ExecuteMsg::RemoveHook { hook: "alice".to_string() }).unwrap();
    run("alice", ExecuteMsg::StartGame { opponent: "bob".to_string(), host_move: GameMove::Scissors })
        .unwrap();
    assert_eq!(
        run("mallory", ExecuteMsg::StartGame { opponent: "bob".to_string(), host_move: GameMove::Rock }),
        Err(ContractError::Blacklist {})
    );
    let res = run(
        "bob",
        ExecuteMsg::Respond {
            host: "alice".to_string(),
            opponent: "bob".to_string(),
            opp_move: GameMove::Scissors,
        },
    )
    .unwrap();
    assert_eq!(res.data, Some(GameResult::Tie));
    assert_eq!(count(&deps), 40);
    assert_eq!(query_owner(deps.as_ref()).unwrap().owner, "owner");
    assert_eq!(query_admin(deps.as_ref()).unwrap().admin, "admin");
}
