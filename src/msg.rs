use crate::state::Quest;
use vstd::prelude::*;

verus! {

/// Why a call failed. A failed call changes nothing.
#[derive(Debug, Clone, Copy, PartialEq, Eq, Structural)]
pub enum ContractError {
    /// An amount is not a decimal literal of an unsigned 128-bit value.
    InvalidAmount,
    /// The host's validator rejected an identity.
    InvalidAddress,
    /// A balance is below the amount that the call takes from it.
    InsufficientFunds { required: u128, available: u128 },
    /// No quest has the given id.
    NotFound,
    /// The quest was completed already.
    AlreadyCompleted,
    /// The caller created the quest it tries to complete.
    SelfCompletionForbidden,
    /// Only the owner may make this call.
    Unauthorized,
    /// A counter or balance would exceed its range.
    Overflow,
}

/// Setup of a new contract: the owner (the caller where absent), the fee for
/// creating a quest and the caller's opening balance, as decimal literals.
pub struct InstantiateMsg {
    pub owner: Option<String>,
    pub quest_creation_fee: String,
    pub initial_balance: String,
}

/// The calls that change the state.
pub enum ExecuteMsg {
    CreateQuest { name: String, description: String, reward_amount: String },
    CompleteQuest { quest_id: u64 },
    Transfer { recipient: String, amount: String },
    AdminWithdraw { amount: String },
}

/// The calls that only read the state.
pub enum QueryMsg {
    GetConfig {},
    GetBalance { address: String },
    GetQuest { quest_id: u64 },
    GetActiveQuests {},
    GetUserQuests { address: String },
    GetUserStats { address: String },
}

/// What a successful setup reports.
#[derive(Debug)]
pub struct InstantiateOutcome {
    pub owner: String,
    pub initial_balance: u128,
}

/// What a successful quest creation reports.
#[derive(Debug)]
pub struct CreateQuestOutcome {
    pub quest_id: u64,
    pub quest_name: String,
    pub creator: String,
    pub fee_deducted: u128,
    pub reward: u128,
    pub new_balance: u128,
}

/// What a successful completion reports.
#[derive(Debug)]
pub struct CompleteQuestOutcome {
    pub quest_id: u64,
    pub completed_by: String,
    pub reward: u128,
    pub new_balance: u128,
    pub total_earned: u128,
}

/// What a successful transfer reports.
#[derive(Debug)]
pub struct TransferOutcome {
    pub from: String,
    pub to: String,
    pub amount: u128,
    pub sender_new_balance: u128,
    pub recipient_new_balance: u128,
}

/// What a successful withdrawal reports.
#[derive(Debug)]
pub struct WithdrawOutcome {
    pub amount: u128,
    pub new_balance: u128,
}

/// What a successful state-changing call reports.
#[derive(Debug)]
pub enum ExecuteOutcome {
    CreateQuest(CreateQuestOutcome),
    CompleteQuest(CompleteQuestOutcome),
    Transfer(TransferOutcome),
    AdminWithdraw(WithdrawOutcome),
}

#[derive(Debug)]
pub struct GetConfigResponse {
    pub owner: String,
    pub quest_creation_fee: u128,
    pub total_quests: u64,
    pub total_completed: u64,
}

#[derive(Debug)]
pub struct GetBalanceResponse {
    pub address: String,
    pub balance: u128,
    pub total_earned: u128,
}

#[derive(Debug)]
pub struct GetQuestResponse {
    pub quest: Quest,
}

#[derive(Debug)]
pub struct GetActiveQuestsResponse {
    pub quests: Vec<Quest>,
    pub count: u64,
}

#[derive(Debug)]
pub struct GetUserStatsResponse {
    pub address: String,
    pub balance: u128,
    pub total_earned: u128,
    pub quests_created: u64,
    pub quests_completed: u64,
}

/// The answer to a read-only call.
#[derive(Debug)]
pub enum QueryResponse {
    Config(GetConfigResponse),
    Balance(GetBalanceResponse),
    Quest(GetQuestResponse),
    ActiveQuests(GetActiveQuestsResponse),
    UserQuests(Vec<Quest>),
    UserStats(GetUserStatsResponse),
}

} // verus!
