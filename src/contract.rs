use crate::amount::{amount_of, parse_amount};
use crate::execute::{complete_quest_post, create_quest_post, transfer_post, withdraw_post};
use crate::msg::{
    ContractError, ExecuteMsg, ExecuteOutcome, GetQuestResponse, InstantiateMsg,
    InstantiateOutcome, QueryMsg, QueryResponse,
};
use crate::query::{active_quests, balance_response, config_response, resolve_quests, stats_response};
use crate::state::{Account, AccountView, Config, State, UserBalance};
use vstd::prelude::*;

verus! {

/// Why setup fails, checked in this order, or `None` where it succeeds.
/// `owner_valid` is the host validator's verdict on the requested owner.
pub open spec fn instantiate_error(msg: InstantiateMsg, owner_valid: bool) -> Option<ContractError> {
    if msg.owner is Some && !owner_valid {
        Some(ContractError::InvalidAddress)
    } else if amount_of(msg.quest_creation_fee@) is None {
        Some(ContractError::InvalidAmount)
    } else if amount_of(msg.initial_balance@) is None {
        Some(ContractError::InvalidAmount)
    } else {
        None
    }
}

/// The owner that setup by `sender` records.
pub open spec fn requested_owner(msg: InstantiateMsg, sender: String) -> String {
    match msg.owner {
        Some(o) => o,
        None => sender,
    }
}

/// Sets up a contract for `sender`: the owner is the requested one or else the
/// sender, counters start at zero, and only the sender holds a balance.
pub fn instantiate(sender: &String, msg: InstantiateMsg, owner_valid: bool) -> (r: Result<
    (State, InstantiateOutcome),
    ContractError,
>)
    ensures
        match instantiate_error(msg, owner_valid) {
            Some(e) => r == Err::<(State, InstantiateOutcome), ContractError>(e),
            None => r matches Ok((s, o)) && {
                let owner = requested_owner(msg, *sender);
                let balance = amount_of(msg.initial_balance@).unwrap();
                &&& s.wf()
                &&& s.config == Config {
                    owner,
                    quest_creation_fee: amount_of(msg.quest_creation_fee@).unwrap(),
                    total_quests: 0,
                    total_completed: 0,
                }
                &&& s.quests@.len() == 0
                &&& forall|b: Seq<char>|
                    #[trigger] s.account(b) == if b == sender@ {
                        AccountView { balance, ..AccountView::zero() }
                    } else {
                        AccountView::zero()
                    }
                &&& forall|b: Seq<char>| #[trigger] s.has_record(b) == (b == sender@)
                &&& o == InstantiateOutcome { owner, initial_balance: balance }
            },
        },
{
    let owner = match &msg.owner {
        Some(o) => {
            if !owner_valid {
                return Err(ContractError::InvalidAddress);
            }
            o.clone()
        },
        None => sender.clone(),
    };
    let fee = match parse_amount(msg.quest_creation_fee.as_str()) {
        Some(v) => v,
        None => return Err(ContractError::InvalidAmount),
    };
    let balance = match parse_amount(msg.initial_balance.as_str()) {
        Some(v) => v,
        None => return Err(ContractError::InvalidAmount),
    };
    let acct = Account {
        info: UserBalance {
            address: sender.clone(),
            balance,
            total_earned: 0,
            quests_created: 0,
            quests_completed: 0,
        },
        quest_ids: Vec::new(),
    };
    let mut state = State {
        config: Config {
            owner: owner.clone(),
            quest_creation_fee: fee,
            total_quests: 0,
            total_completed: 0,
        },
        accounts: Vec::new(),
        quests: Vec::new(),
    };
    assert(acct@ == AccountView { balance, ..AccountView::zero() });
    assert(forall|b: Seq<char>| !#[trigger] state.has_record(b));
    state.store_account(acct);
    Ok((state, InstantiateOutcome { owner, initial_balance: balance }))
}

/// What a state-changing call does: the contract of the handler that `msg`
/// selects, with its outcome wrapped in the matching variant.
pub open spec fn execute_post(
    old: State,
    new: State,
    sender: String,
    now: u64,
    msg: ExecuteMsg,
    address_valid: bool,
    r: Result<ExecuteOutcome, ContractError>,
) -> bool {
    match msg {
        ExecuteMsg::CreateQuest { name, description, reward_amount } => match r {
            Ok(ExecuteOutcome::CreateQuest(o)) => create_quest_post(
                old,
                new,
                sender,
                now,
                name,
                description,
                reward_amount@,
                Ok(o),
            ),
            Ok(_) => false,
            Err(e) => create_quest_post(
                old,
                new,
                sender,
                now,
                name,
                description,
                reward_amount@,
                Err(e),
            ),
        },
        ExecuteMsg::CompleteQuest { quest_id } => match r {
            Ok(ExecuteOutcome::CompleteQuest(o)) => complete_quest_post(
                old,
                new,
                sender,
                now,
                quest_id,
                Ok(o),
            ),
            Ok(_) => false,
            Err(e) => complete_quest_post(old, new, sender, now, quest_id, Err(e)),
        },
        ExecuteMsg::Transfer { recipient, amount } => match r {
            Ok(ExecuteOutcome::Transfer(o)) => transfer_post(
                old,
                new,
                sender,
                recipient,
                address_valid,
                amount@,
                Ok(o),
            ),
            Ok(_) => false,
            Err(e) => transfer_post(old, new, sender, recipient, address_valid, amount@, Err(e)),
        },
        ExecuteMsg::AdminWithdraw { amount } => match r {
            Ok(ExecuteOutcome::AdminWithdraw(o)) => withdraw_post(old, new, sender, amount@, Ok(o)),
            Ok(_) => false,
            Err(e) => withdraw_post(old, new, sender, amount@, Err(e)),
        },
    }
}

/// Applies the call `msg` from `sender` at time `now`. `address_valid` is the
/// host validator's verdict on the identity that the message names, if any.
pub fn execute(
    state: &mut State,
    sender: &String,
    now: u64,
    msg: ExecuteMsg,
    address_valid: bool,
) -> (r: Result<ExecuteOutcome, ContractError>)
    requires
        old(state).wf(),
    ensures
        final(state).wf(),
        execute_post(*old(state), *final(state), *sender, now, msg, address_valid, r),
{
    match msg {
        ExecuteMsg::CreateQuest { name, description, reward_amount } => {
            match state.create_quest(sender, now, name, description, reward_amount.as_str()) {
                Ok(o) => Ok(ExecuteOutcome::CreateQuest(o)),
                Err(e) => Err(e),
            }
        },
        ExecuteMsg::CompleteQuest { quest_id } => {
            match state.complete_quest(sender, now, quest_id) {
                Ok(o) => Ok(ExecuteOutcome::CompleteQuest(o)),
                Err(e) => Err(e),
            }
        },
        ExecuteMsg::Transfer { recipient, amount } => {
            match state.transfer(sender, &recipient, address_valid, amount.as_str()) {
                Ok(o) => Ok(ExecuteOutcome::Transfer(o)),
                Err(e) => Err(e),
            }
        },
        ExecuteMsg::AdminWithdraw { amount } => {
            match state.admin_withdraw(sender, amount.as_str()) {
                Ok(o) => Ok(ExecuteOutcome::AdminWithdraw(o)),
                Err(e) => Err(e),
            }
        },
    }
}

/// Answers the read-only call `msg`. `address_valid` is the host validator's
/// verdict on the identity that the message names, if any.
pub fn query(state: &State, msg: &QueryMsg, address_valid: bool) -> (r: Result<
    QueryResponse,
    ContractError,
>)
    requires
        state.wf(),
    ensures
        match *msg {
            QueryMsg::GetConfig {  } => r == Ok::<QueryResponse, ContractError>(
                QueryResponse::Config(config_response(*state)),
            ),
            QueryMsg::GetBalance { address } => r == if address_valid {
                Ok(QueryResponse::Balance(balance_response(*state, address)))
            } else {
                Err(ContractError::InvalidAddress)
            },
            QueryMsg::GetQuest { quest_id } => r == if state.quest_exists(quest_id) {
                Ok(QueryResponse::Quest(GetQuestResponse { quest: state.quest(quest_id) }))
            } else {
                Err(ContractError::NotFound)
            },
            QueryMsg::GetActiveQuests {  } => r matches Ok(QueryResponse::ActiveQuests(a))
                && a.quests@ == active_quests(state.quests@) && a.count == a.quests.len(),
            QueryMsg::GetUserQuests { address } => match r {
                Ok(QueryResponse::UserQuests(v)) => address_valid && v@ == resolve_quests(
                    state.account(address@).quest_ids,
                    state.quests@,
                ),
                Ok(_) => false,
                Err(e) => !address_valid && e == ContractError::InvalidAddress,
            },
            QueryMsg::GetUserStats { address } => r == if address_valid {
                Ok(QueryResponse::UserStats(stats_response(*state, address)))
            } else {
                Err(ContractError::InvalidAddress)
            },
        },
{
    match msg {
        QueryMsg::GetConfig {  } => Ok(QueryResponse::Config(state.query_config())),
        QueryMsg::GetBalance { address } => match state.query_balance(address, address_valid) {
            Ok(b) => Ok(QueryResponse::Balance(b)),
            Err(e) => Err(e),
        },
        QueryMsg::GetQuest { quest_id } => match state.query_quest(*quest_id) {
            Ok(q) => Ok(QueryResponse::Quest(q)),
            Err(e) => Err(e),
        },
        QueryMsg::GetActiveQuests {  } => Ok(QueryResponse::ActiveQuests(state.query_active_quests())),
        QueryMsg::GetUserQuests { address } => match state.query_user_quests(address, address_valid) {
            Ok(v) => Ok(QueryResponse::UserQuests(v)),
            Err(e) => Err(e),
        },
        QueryMsg::GetUserStats { address } => match state.query_user_stats(address, address_valid) {
            Ok(s) => Ok(QueryResponse::UserStats(s)),
            Err(e) => Err(e),
        },
    }
}

} // verus!
