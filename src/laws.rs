use crate::amount::amount_of;
use crate::contract::execute_post;
use crate::execute::{complete_quest_post, transfer_post};
use crate::msg::{ContractError, ExecuteMsg, ExecuteOutcome, TransferOutcome, CompleteQuestOutcome};
use crate::state::State;
use vstd::prelude::*;

verus! {

/// What the call `msg` takes from a balance where it succeeds: the creation
/// fee, the transferred or withdrawn amount, or nothing for a completion.
pub open spec fn charge_of(s: State, msg: ExecuteMsg) -> int {
    match msg {
        ExecuteMsg::CreateQuest { .. } => s.config.quest_creation_fee as int,
        ExecuteMsg::CompleteQuest { .. } => 0,
        ExecuteMsg::Transfer { amount, .. } => amount_of(amount@).unwrap() as int,
        ExecuteMsg::AdminWithdraw { amount } => amount_of(amount@).unwrap() as int,
    }
}

/// A successful transfer keeps the sum of the sender's and the recipient's
/// balances, and leaves every other balance as it was.
pub proof fn transfer_conserves_balances(
    old: State,
    new: State,
    sender: String,
    recipient: String,
    recipient_valid: bool,
    amount: Seq<char>,
    o: TransferOutcome,
)
    requires
        transfer_post(old, new, sender, recipient, recipient_valid, amount, Ok(o)),
    ensures
        old.account(sender@).balance + old.account(recipient@).balance == new.account(
            sender@,
        ).balance + new.account(recipient@).balance,
        forall|b: Seq<char>|
            b != sender@ && b != recipient@ ==> #[trigger] new.account(b).balance == old.account(
                b,
            ).balance,
{
    assert(new.account(sender@) == new.account(sender@));
    assert(new.account(recipient@) == new.account(recipient@));
}

/// No balance ever goes below zero, and none is ever wrapped or saturated: a
/// call fails, changing nothing, where a balance does not cover what it takes;
/// where a balance drops, the call succeeded and took exactly its charge, which
/// the balance held.
pub proof fn debits_are_covered(
    old: State,
    new: State,
    sender: String,
    now: u64,
    msg: ExecuteMsg,
    address_valid: bool,
    r: Result<ExecuteOutcome, ContractError>,
)
    requires
        old.wf(),
        execute_post(old, new, sender, now, msg, address_valid, r),
    ensures
        r is Err ==> new == old,
        forall|required: u128, available: u128|
            r == Err::<ExecuteOutcome, ContractError>(
                ContractError::InsufficientFunds { required, available },
            ) ==> available < required,
        forall|b: Seq<char>|
            #[trigger] new.account(b).balance < old.account(b).balance ==> {
                &&& r is Ok
                &&& old.account(b).balance - new.account(b).balance == charge_of(old, msg)
                &&& charge_of(old, msg) <= old.account(b).balance
            },
{
    assert forall|b: Seq<char>| #[trigger]
        new.account(b).balance < old.account(b).balance implies {
        &&& r is Ok
        &&& old.account(b).balance - new.account(b).balance == charge_of(old, msg)
        &&& charge_of(old, msg) <= old.account(b).balance
    } by {
        assert(new.account(b) == new.account(b));
    }
}

/// Quest ids are dense: in every state the quest at index `i` has id `i + 1`
/// and the count of created quests is their number; a successful creation
/// appends exactly one quest, whose id is that number plus one, and every other
/// call keeps the number of quests.
pub proof fn quest_ids_are_dense(
    old: State,
    new: State,
    sender: String,
    now: u64,
    msg: ExecuteMsg,
    address_valid: bool,
    r: Result<ExecuteOutcome, ContractError>,
)
    requires
        old.wf(),
        new.wf(),
        execute_post(old, new, sender, now, msg, address_valid, r),
    ensures
        forall|i: int| 0 <= i < new.quests.len() ==> (#[trigger] new.quests@[i]).id == i + 1,
        new.config.total_quests == new.quests.len(),
        match r {
            Ok(ExecuteOutcome::CreateQuest(o)) => o.quest_id == old.quests.len() + 1
                && new.quests.len() == old.quests.len() + 1,
            _ => new.quests.len() == old.quests.len(),
        },
{
}

/// Completion is one-way: no call changes a completed quest, nor removes a
/// quest.
pub proof fn completion_is_permanent(
    old: State,
    new: State,
    sender: String,
    now: u64,
    msg: ExecuteMsg,
    address_valid: bool,
    r: Result<ExecuteOutcome, ContractError>,
)
    requires
        old.wf(),
        execute_post(old, new, sender, now, msg, address_valid, r),
    ensures
        new.quests.len() >= old.quests.len(),
        forall|i: int|
            0 <= i < old.quests.len() && (#[trigger] old.quests@[i]).completed ==> new.quests@[i]
                == old.quests@[i],
{
}

/// Completing a quest that is completed already fails with `AlreadyCompleted`
/// and changes nothing, balances included.
pub proof fn completing_twice_fails(
    old: State,
    new: State,
    sender: String,
    now: u64,
    quest_id: u64,
    r: Result<CompleteQuestOutcome, ContractError>,
)
    requires
        complete_quest_post(old, new, sender, now, quest_id, r),
        old.quest_exists(quest_id),
        old.quest(quest_id).completed,
    ensures
        r == Err::<CompleteQuestOutcome, ContractError>(ContractError::AlreadyCompleted),
        new == old,
{
}

/// A quest's creator can never complete it: the call fails and changes
/// nothing, with `SelfCompletionForbidden` unless the quest was completed
/// already.
pub proof fn self_completion_fails(
    old: State,
    new: State,
    sender: String,
    now: u64,
    quest_id: u64,
    r: Result<CompleteQuestOutcome, ContractError>,
)
    requires
        complete_quest_post(old, new, sender, now, quest_id, r),
        old.quest_exists(quest_id),
        old.quest(quest_id).creator@ == sender@,
    ensures
        r is Err,
        new == old,
        !old.quest(quest_id).completed ==> r == Err::<CompleteQuestOutcome, ContractError>(
            ContractError::SelfCompletionForbidden,
        ),
{
}

} // verus!
