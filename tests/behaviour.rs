use quest_contract::{
    execute, instantiate, query, ContractError, ExecuteMsg, ExecuteOutcome, InstantiateMsg,
    QueryMsg, QueryResponse, State,
};

fn s(v: &str) -> String {
    v.to_string()
}

fn init(who: &str, fee: &str, initial: &str) -> State {
    let msg = InstantiateMsg { owner: None, quest_creation_fee: s(fee), initial_balance: s(initial) };
    instantiate(&s(who), msg, true).unwrap().0
}

fn create(state: &mut State, who: &str, reward: &str) -> Result<ExecuteOutcome, ContractError> {
    let msg = ExecuteMsg::CreateQuest {
        name: s("Quest"),
        description: s("A test quest"),
        reward_amount: s(reward),
    };
    execute(state, &s(who), 100, msg, true)
}

fn complete(state: &mut State, who: &str, id: u64) -> Result<ExecuteOutcome, ContractError> {
    execute(state, &s(who), 200, ExecuteMsg::CompleteQuest { quest_id: id }, true)
}

fn transfer(state: &mut State, from: &str, to: &str, amount: &str) -> Result<ExecuteOutcome, ContractError> {
    let msg = ExecuteMsg::Transfer { recipient: s(to), amount: s(amount) };
    execute(state, &s(from), 0, msg, true)
}

fn balance(state: &State, who: &str) -> (u128, u128) {
    match query(state, &QueryMsg::GetBalance { address: s(who) }, true).unwrap() {
        QueryResponse::Balance(b) => (b.balance, b.total_earned),
        other => panic!("unexpected answer {:?}", other),
    }
}

fn quest_of(state: &State, id: u64) -> quest_contract::Quest {
    match query(state, &QueryMsg::GetQuest { quest_id: id }, true).unwrap() {
        QueryResponse::Quest(q) => q.quest,
        other => panic!("unexpected answer {:?}", other),
    }
}

fn creator_with_one_quest() -> State {
    let mut state = init("creator", "5", "1000");
    match create(&mut state, "creator", "100").unwrap() {
        ExecuteOutcome::CreateQuest(o) => {
            assert_eq!(o.quest_id, 1);
            assert_eq!(o.fee_deducted, 5);
            assert_eq!(o.reward, 100);
            assert_eq!(o.new_balance, 995);
        }
        other => panic!("unexpected outcome {:?}", other),
    }
    state
}

#[test]
fn create_charges_fee() {
    let state = creator_with_one_quest();
    assert_eq!(balance(&state, "creator").0, 995);
    let q = quest_of(&state, 1);
    assert_eq!(q.id, 1);
    assert!(!q.completed);
    assert_eq!(q.reward_amount, 100);
    assert_eq!(q.created_at, 100);
}

#[test]
fn other_identity_completes_quest() {
    let mut state = creator_with_one_quest();
    complete(&mut state, "other", 1).unwrap();
    assert_eq!(balance(&state, "other"), (100, 100));
    assert_eq!(balance(&state, "creator").0, 995);
    let q = quest_of(&state, 1);
    assert!(q.completed);
    assert_eq!(q.completed_by, Some(s("other")));
    assert_eq!(q.completed_at, Some(200));
}

#[test]
fn creator_cannot_complete_own_quest() {
    let mut state = creator_with_one_quest();
    assert_eq!(complete(&mut state, "creator", 1).unwrap_err(), ContractError::SelfCompletionForbidden);
    assert_eq!(balance(&state, "creator").0, 995);
    assert!(!quest_of(&state, 1).completed);
}

#[test]
fn transfer_beyond_balance_fails() {
    let mut state = init("rich", "5", "1000");
    let e = transfer(&mut state, "rich", "other", "1500").unwrap_err();
    assert_eq!(e, ContractError::InsufficientFunds { required: 1500, available: 1000 });
    assert_eq!(balance(&state, "rich").0, 1000);
    assert_eq!(balance(&state, "other").0, 0);
}

#[test]
fn active_quests_skip_completed() {
    let mut state = init("creator", "5", "1000");
    for _ in 0..3 {
        create(&mut state, "creator", "10").unwrap();
    }
    complete(&mut state, "other", 2).unwrap();
    match query(&state, &QueryMsg::GetActiveQuests {}, true).unwrap() {
        QueryResponse::ActiveQuests(a) => {
            assert_eq!(a.count, 2);
            let ids: Vec<u64> = a.quests.iter().map(|q| q.id).collect();
            assert_eq!(ids, vec![1, 3]);
        }
        other => panic!("unexpected answer {:?}", other),
    }
}

#[test]
fn unknown_identity_reads_zero() {
    let state = init("creator", "5", "1000");
    assert_eq!(balance(&state, "stranger"), (0, 0));
    match query(&state, &QueryMsg::GetUserStats { address: s("stranger") }, true).unwrap() {
        QueryResponse::UserStats(st) => {
            assert_eq!((st.balance, st.total_earned, st.quests_created, st.quests_completed), (0, 0, 0, 0));
        }
        other => panic!("unexpected answer {:?}", other),
    }
}

#[test]
fn transfer_keeps_pair_sum() {
    let mut state = init("a", "5", "1000");
    transfer(&mut state, "a", "b", "300").unwrap();
    assert_eq!(balance(&state, "a").0 + balance(&state, "b").0, 1000);
    assert_eq!(balance(&state, "b").0, 300);
    transfer(&mut state, "b", "a", "100").unwrap();
    assert_eq!((balance(&state, "a").0, balance(&state, "b").0), (800, 200));
}

#[test]
fn transfer_to_self_changes_nothing() {
    let mut state = init("a", "5", "1000");
    match transfer(&mut state, "a", "a", "400").unwrap() {
        ExecuteOutcome::Transfer(o) => {
            assert_eq!(o.sender_new_balance, 1000);
            assert_eq!(o.recipient_new_balance, 1000);
        }
        other => panic!("unexpected outcome {:?}", other),
    }
    assert_eq!(balance(&state, "a").0, 1000);
}

#[test]
fn creation_without_fee_fails() {
    let mut state = init("creator", "5", "1000");
    let e = create(&mut state, "poor", "100").unwrap_err();
    assert_eq!(e, ContractError::InsufficientFunds { required: 5, available: 0 });
    assert_eq!(state.quests.len(), 0);
    assert_eq!(state.config.total_quests, 0);
}

#[test]
fn quest_ids_dense_across_creators() {
    let mut state = init("a", "5", "1000");
    transfer(&mut state, "a", "b", "100").unwrap();
    let mut ids = Vec::new();
    for who in ["a", "b", "a", "b"] {
        if let ExecuteOutcome::CreateQuest(o) = create(&mut state, who, "1").unwrap() {
            ids.push(o.quest_id);
        }
    }
    create(&mut state, "nobody", "1").unwrap_err();
    if let ExecuteOutcome::CreateQuest(o) = create(&mut state, "a", "1").unwrap() {
        ids.push(o.quest_id);
    }
    assert_eq!(ids, vec![1, 2, 3, 4, 5]);
    match query(&state, &QueryMsg::GetUserQuests { address: s("b") }, true).unwrap() {
        QueryResponse::UserQuests(qs) => {
            let got: Vec<u64> = qs.iter().map(|q| q.id).collect();
            assert_eq!(got, vec![2, 4]);
        }
        other => panic!("unexpected answer {:?}", other),
    }
}

#[test]
fn second_completion_fails() {
    let mut state = creator_with_one_quest();
    complete(&mut state, "other", 1).unwrap();
    let e = complete(&mut state, "third", 1).unwrap_err();
    assert_eq!(e, ContractError::AlreadyCompleted);
    assert_eq!(balance(&state, "third"), (0, 0));
    assert_eq!(balance(&state, "other"), (100, 100));
    let q = quest_of(&state, 1);
    assert!(q.completed);
    assert_eq!(q.completed_by, Some(s("other")));
    match query(&state, &QueryMsg::GetConfig {}, true).unwrap() {
        QueryResponse::Config(c) => {
            assert_eq!((c.total_quests, c.total_completed), (1, 1));
            assert_eq!(c.owner, "creator");
            assert_eq!(c.quest_creation_fee, 5);
        }
        other => panic!("unexpected answer {:?}", other),
    }
}

#[test]
fn unknown_quest_is_not_found() {
    let mut state = creator_with_one_quest();
    assert_eq!(complete(&mut state, "other", 0).unwrap_err(), ContractError::NotFound);
    assert_eq!(complete(&mut state, "other", 2).unwrap_err(), ContractError::NotFound);
    assert_eq!(query(&state, &QueryMsg::GetQuest { quest_id: 7 }, true).unwrap_err(), ContractError::NotFound);
}

#[test]
fn withdraw_by_owner_only() {
    let mut state = init("owner", "5", "1000");
    let msg = ExecuteMsg::AdminWithdraw { amount: s("10") };
    assert_eq!(execute(&mut state, &s("other"), 0, msg, true).unwrap_err(), ContractError::Unauthorized);
    let msg = ExecuteMsg::AdminWithdraw { amount: s("1001") };
    assert_eq!(
        execute(&mut state, &s("owner"), 0, msg, true).unwrap_err(),
        ContractError::InsufficientFunds { required: 1001, available: 1000 }
    );
    let msg = ExecuteMsg::AdminWithdraw { amount: s("250") };
    match execute(&mut state, &s("owner"), 0, msg, true).unwrap() {
        ExecuteOutcome::AdminWithdraw(o) => assert_eq!((o.amount, o.new_balance), (250, 750)),
        other => panic!("unexpected outcome {:?}", other),
    }
    assert_eq!(balance(&state, "owner").0, 750);
}

#[test]
fn requested_owner_is_recorded() {
    let msg = InstantiateMsg { owner: Some(s("boss")), quest_creation_fee: s("5"), initial_balance: s("70") };
    let (state, o) = instantiate(&s("caller"), msg, true).unwrap();
    assert_eq!(o.owner, "boss");
    assert_eq!(o.initial_balance, 70);
    assert_eq!(state.config.owner, "boss");
    assert_eq!(balance(&state, "caller").0, 70);
    assert_eq!(balance(&state, "boss").0, 0);
}

#[test]
fn malformed_amounts_are_rejected() {
    let bad = InstantiateMsg { owner: None, quest_creation_fee: s("five"), initial_balance: s("1") };
    assert_eq!(instantiate(&s("a"), bad, true).unwrap_err(), ContractError::InvalidAmount);
    let bad = InstantiateMsg { owner: None, quest_creation_fee: s("5"), initial_balance: s("-1") };
    assert_eq!(instantiate(&s("a"), bad, true).unwrap_err(), ContractError::InvalidAmount);
    let too_big = InstantiateMsg {
        owner: None,
        quest_creation_fee: s("340282366920938463463374607431768211456"),
        initial_balance: s("1"),
    };
    assert_eq!(instantiate(&s("a"), too_big, true).unwrap_err(), ContractError::InvalidAmount);
    let mut state = init("a", "5", "1000");
    assert_eq!(create(&mut state, "a", "").unwrap_err(), ContractError::InvalidAmount);
    assert_eq!(create(&mut state, "a", "1 0").unwrap_err(), ContractError::InvalidAmount);
    assert_eq!(transfer(&mut state, "a", "b", "+").unwrap_err(), ContractError::InvalidAmount);
    assert_eq!(balance(&state, "a").0, 1000);
}

#[test]
fn plus_sign_and_largest_amount_parse() {
    let mut state = init("a", "0", "340282366920938463463374607431768211455");
    assert_eq!(balance(&state, "a").0, u128::MAX);
    transfer(&mut state, "a", "b", "+7").unwrap();
    assert_eq!(balance(&state, "b").0, 7);
}

#[test]
fn invalid_addresses_are_rejected() {
    let msg = InstantiateMsg { owner: Some(s("bad")), quest_creation_fee: s("5"), initial_balance: s("1") };
    assert_eq!(instantiate(&s("a"), msg, false).unwrap_err(), ContractError::InvalidAddress);
    let mut state = init("a", "5", "1000");
    let msg = ExecuteMsg::Transfer { recipient: s("bad"), amount: s("1") };
    assert_eq!(execute(&mut state, &s("a"), 0, msg, false).unwrap_err(), ContractError::InvalidAddress);
    let msg = ExecuteMsg::Transfer { recipient: s("bad"), amount: s("x") };
    assert_eq!(execute(&mut state, &s("a"), 0, msg, false).unwrap_err(), ContractError::InvalidAmount);
    assert_eq!(
        query(&state, &QueryMsg::GetBalance { address: s("bad") }, false).unwrap_err(),
        ContractError::InvalidAddress
    );
    assert_eq!(balance(&state, "a").0, 1000);
}

#[test]
fn reward_overflow_is_refused() {
    let mut state = init("a", "0", "340282366920938463463374607431768211455");
    create(&mut state, "a", "1").unwrap();
    transfer(&mut state, "a", "b", "340282366920938463463374607431768211455").unwrap();
    assert_eq!(complete(&mut state, "b", 1).unwrap_err(), ContractError::Overflow);
    assert!(!quest_of(&state, 1).completed);
    assert_eq!(balance(&state, "b").0, u128::MAX);
}

#[test]
fn well_formedness_check() {
    let mut state = creator_with_one_quest();
    complete(&mut state, "other", 1).unwrap();
    assert!(state.is_well_formed());
    state.config.total_quests = 2;
    assert!(!state.is_well_formed());
    state.config.total_quests = 1;
    state.quests[0].id = 5;
    assert!(!state.is_well_formed());
    state.quests[0].id = 1;
    let dup = quest_contract::Account {
        info: quest_contract::UserBalance {
            address: s("other"),
            balance: 1,
            total_earned: 0,
            quests_created: 0,
            quests_completed: 0,
        },
        quest_ids: vec![],
    };
    state.accounts.push(dup);
    assert!(!state.is_well_formed());
    state.accounts.pop();
    state.accounts[0].quest_ids.push(9);
    assert!(!state.is_well_formed());
}
