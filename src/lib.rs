pub mod amount;
pub mod contract;
pub mod execute;
pub mod laws;
pub mod msg;
pub mod query;
pub mod state;

pub use contract::{execute, instantiate, query};
pub use msg::{
    CompleteQuestOutcome, ContractError, CreateQuestOutcome, ExecuteMsg, ExecuteOutcome,
    GetActiveQuestsResponse, GetBalanceResponse, GetConfigResponse, GetQuestResponse,
    GetUserStatsResponse, InstantiateMsg, InstantiateOutcome, QueryMsg, QueryResponse,
    TransferOutcome, WithdrawOutcome,
};
pub use state::{Account, Config, Quest, State, UserBalance};
