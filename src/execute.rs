use crate::amount::{amount_of, parse_amount};
use crate::msg::{
    CompleteQuestOutcome, ContractError, CreateQuestOutcome, TransferOutcome, WithdrawOutcome,
};
use crate::state::{Account, AccountView, Config, Quest, State, UserBalance};
use vstd::prelude::*;

verus! {

/// Why creating a quest fails, checked in this order, or `None` where it
/// succeeds.
pub open spec fn create_quest_error(s: State, sender: Seq<char>, reward_amount: Seq<char>) -> Option<
    ContractError,
> {
    let acct = s.account(sender);
    if amount_of(reward_amount) is None {
        Some(ContractError::InvalidAmount)
    } else if acct.balance < s.config.quest_creation_fee {
        Some(
            ContractError::InsufficientFunds {
                required: s.config.quest_creation_fee,
                available: acct.balance,
            },
        )
    } else if s.config.total_quests == u64::MAX || acct.quests_created == u64::MAX {
        Some(ContractError::Overflow)
    } else {
        None
    }
}

/// Creating a quest: on failure nothing changes; on success the fee leaves the
/// creator's balance, the quest gets the next id and joins the creator's index.
pub open spec fn create_quest_post(
    old: State,
    new: State,
    sender: String,
    now: u64,
    name: String,
    description: String,
    reward_amount: Seq<char>,
    r: Result<CreateQuestOutcome, ContractError>,
) -> bool {
    match create_quest_error(old, sender@, reward_amount) {
        Some(e) => r == Err::<CreateQuestOutcome, ContractError>(e) && new == old,
        None => {
            let reward = amount_of(reward_amount).unwrap();
            let fee = old.config.quest_creation_fee;
            let id = (old.config.total_quests + 1) as u64;
            let acct = old.account(sender@);
            let new_acct = AccountView {
                balance: (acct.balance - fee) as u128,
                quests_created: (acct.quests_created + 1) as u64,
                quest_ids: acct.quest_ids.push(id),
                ..acct
            };
            &&& r == Ok::<CreateQuestOutcome, ContractError>(
                CreateQuestOutcome {
                    quest_id: id,
                    quest_name: name,
                    creator: sender,
                    fee_deducted: fee,
                    reward,
                    new_balance: new_acct.balance,
                },
            )
            &&& new.config == Config { total_quests: id, ..old.config }
            &&& new.quests@ == old.quests@.push(
                Quest {
                    id,
                    creator: sender,
                    name,
                    description,
                    reward_amount: reward,
                    completed: false,
                    completed_by: None,
                    created_at: now,
                    completed_at: None,
                },
            )
            &&& forall|b: Seq<char>|
                #[trigger] new.account(b) == if b == sender@ {
                    new_acct
                } else {
                    old.account(b)
                }
            &&& forall|b: Seq<char>|
                #[trigger] new.has_record(b) == (old.has_record(b) || b == sender@)
        },
    }
}

/// Why completing quest `id` fails, checked in this order, or `None` where it
/// succeeds.
pub open spec fn complete_quest_error(s: State, sender: Seq<char>, id: u64) -> Option<
    ContractError,
> {
    if !s.quest_exists(id) {
        Some(ContractError::NotFound)
    } else if s.quest(id).completed {
        Some(ContractError::AlreadyCompleted)
    } else if s.quest(id).creator@ == sender {
        Some(ContractError::SelfCompletionForbidden)
    } else {
        let acct = s.account(sender);
        let reward = s.quest(id).reward_amount;
        if acct.balance + reward > u128::MAX || acct.total_earned + reward > u128::MAX
            || acct.quests_completed == u64::MAX || s.config.total_completed == u64::MAX {
            Some(ContractError::Overflow)
        } else {
            None
        }
    }
}

/// Completing a quest: on failure nothing changes; on success the completer
/// earns the reward, the quest is marked completed by it at `now`, and the
/// creator's record exists.
pub open spec fn complete_quest_post(
    old: State,
    new: State,
    sender: String,
    now: u64,
    id: u64,
    r: Result<CompleteQuestOutcome, ContractError>,
) -> bool {
    match complete_quest_error(old, sender@, id) {
        Some(e) => r == Err::<CompleteQuestOutcome, ContractError>(e) && new == old,
        None => {
            let q = old.quest(id);
            let acct = old.account(sender@);
            let new_acct = AccountView {
                balance: (acct.balance + q.reward_amount) as u128,
                total_earned: (acct.total_earned + q.reward_amount) as u128,
                quests_completed: (acct.quests_completed + 1) as u64,
                ..acct
            };
            &&& r == Ok::<CompleteQuestOutcome, ContractError>(
                CompleteQuestOutcome {
                    quest_id: id,
                    completed_by: sender,
                    reward: q.reward_amount,
                    new_balance: new_acct.balance,
                    total_earned: new_acct.total_earned,
                },
            )
            &&& new.config == Config {
                total_completed: (old.config.total_completed + 1) as u64,
                ..old.config
            }
            &&& new.quests@ == old.quests@.update(
                id - 1,
                Quest { completed: true, completed_by: Some(sender), completed_at: Some(now), ..q },
            )
            &&& forall|b: Seq<char>|
                #[trigger] new.account(b) == if b == sender@ {
                    new_acct
                } else {
                    old.account(b)
                }
            &&& forall|b: Seq<char>|
                #[trigger] new.has_record(b) == (old.has_record(b) || b == sender@ || b
                    == q.creator@)
        },
    }
}

/// Why a transfer fails, checked in this order, or `None` where it succeeds.
/// `recipient_valid` is the host validator's verdict on the recipient.
pub open spec fn transfer_error(
    s: State,
    sender: Seq<char>,
    recipient: Seq<char>,
    recipient_valid: bool,
    amount: Seq<char>,
) -> Option<ContractError> {
    if amount_of(amount) is None {
        Some(ContractError::InvalidAmount)
    } else if !recipient_valid {
        Some(ContractError::InvalidAddress)
    } else if s.account(sender).balance < amount_of(amount).unwrap() {
        Some(
            ContractError::InsufficientFunds {
                required: amount_of(amount).unwrap(),
                available: s.account(sender).balance,
            },
        )
    } else if sender != recipient && s.account(recipient).balance + amount_of(amount).unwrap()
        > u128::MAX {
        Some(ContractError::Overflow)
    } else {
        None
    }
}

/// A transfer: on failure nothing changes; on success the amount moves from
/// the sender's balance to the recipient's (a transfer to oneself moves
/// nothing), and both records exist.
pub open spec fn transfer_post(
    old: State,
    new: State,
    sender: String,
    recipient: String,
    recipient_valid: bool,
    amount: Seq<char>,
    r: Result<TransferOutcome, ContractError>,
) -> bool {
    match transfer_error(old, sender@, recipient@, recipient_valid, amount) {
        Some(e) => r == Err::<TransferOutcome, ContractError>(e) && new == old,
        None => {
            let amt = amount_of(amount).unwrap();
            let from = old.account(sender@);
            let to = old.account(recipient@);
            let self_transfer = sender@ == recipient@;
            let from_balance = if self_transfer {
                from.balance
            } else {
                (from.balance - amt) as u128
            };
            let to_balance = if self_transfer {
                to.balance
            } else {
                (to.balance + amt) as u128
            };
            &&& r == Ok::<TransferOutcome, ContractError>(
                TransferOutcome {
                    from: sender,
                    to: recipient,
                    amount: amt,
                    sender_new_balance: from_balance,
                    recipient_new_balance: to_balance,
                },
            )
            &&& new.config == old.config
            &&& new.quests == old.quests
            &&& forall|b: Seq<char>|
                #[trigger] new.account(b) == if b == sender@ {
                    AccountView { balance: from_balance, ..from }
                } else if b == recipient@ {
                    AccountView { balance: to_balance, ..to }
                } else {
                    old.account(b)
                }
            &&& forall|b: Seq<char>|
                #[trigger] new.has_record(b) == (old.has_record(b) || b == sender@ || b
                    == recipient@)
        },
    }
}

/// Why a withdrawal by the owner fails, checked in this order, or `None` where
/// it succeeds.
pub open spec fn withdraw_error(s: State, sender: Seq<char>, amount: Seq<char>) -> Option<
    ContractError,
> {
    if amount_of(amount) is None {
        Some(ContractError::InvalidAmount)
    } else if sender != s.config.owner@ {
        Some(ContractError::Unauthorized)
    } else if s.account(sender).balance < amount_of(amount).unwrap() {
        Some(
            ContractError::InsufficientFunds {
                required: amount_of(amount).unwrap(),
                available: s.account(sender).balance,
            },
        )
    } else {
        None
    }
}

/// A withdrawal: on failure nothing changes; on success the amount leaves the
/// owner's balance and goes nowhere.
pub open spec fn withdraw_post(
    old: State,
    new: State,
    sender: String,
    amount: Seq<char>,
    r: Result<WithdrawOutcome, ContractError>,
) -> bool {
    match withdraw_error(old, sender@, amount) {
        Some(e) => r == Err::<WithdrawOutcome, ContractError>(e) && new == old,
        None => {
            let amt = amount_of(amount).unwrap();
            let acct = old.account(sender@);
            let new_balance = (acct.balance - amt) as u128;
            &&& r == Ok::<WithdrawOutcome, ContractError>(
                WithdrawOutcome { amount: amt, new_balance },
            )
            &&& new.config == old.config
            &&& new.quests == old.quests
            &&& forall|b: Seq<char>|
                #[trigger] new.account(b) == if b == sender@ {
                    AccountView { balance: new_balance, ..acct }
                } else {
                    old.account(b)
                }
            &&& forall|b: Seq<char>|
                #[trigger] new.has_record(b) == (old.has_record(b) || b == sender@)
        },
    }
}

impl State {
    /// Creates a quest by `sender` at time `now`, charging the creation fee.
    pub fn create_quest(
        &mut self,
        sender: &String,
        now: u64,
        name: String,
        description: String,
        reward_amount: &str,
    ) -> (r: Result<CreateQuestOutcome, ContractError>)
        requires
            old(self).wf(),
        ensures
            final(self).wf(),
            create_quest_post(
                *old(self),
                *final(self),
                *sender,
                now,
                name,
                description,
                reward_amount@,
                r,
            ),
    {
        let reward = match parse_amount(reward_amount) {
            Some(v) => v,
            None => return Err(ContractError::InvalidAmount),
        };
        let fee = self.config.quest_creation_fee;
        let mut acct = self.load_account(sender);
        if acct.info.balance < fee {
            return Err(ContractError::InsufficientFunds { required: fee, available: acct.info.balance });
        }
        if self.config.total_quests == u64::MAX || acct.info.quests_created == u64::MAX {
            return Err(ContractError::Overflow);
        }
        let ghost old_self = *self;
        let id = self.config.total_quests + 1;
        acct.info.balance = acct.info.balance - fee;
        acct.info.quests_created = acct.info.quests_created + 1;
        acct.quest_ids.push(id);
        let new_balance = acct.info.balance;
        let quest_name = name.clone();
        let quest = Quest {
            id,
            creator: sender.clone(),
            name,
            description,
            reward_amount: reward,
            completed: false,
            completed_by: None,
            created_at: now,
            completed_at: None,
        };
        self.config.total_quests = id;
        self.quests.push(quest);
        assert(self.accounts@ == old_self.accounts@);
        self.store_account(acct);
        Ok(
            CreateQuestOutcome {
                quest_id: id,
                quest_name,
                creator: sender.clone(),
                fee_deducted: fee,
                reward,
                new_balance,
            },
        )
    }

    /// Completes quest `quest_id` on behalf of `sender` at time `now`.
    pub fn complete_quest(&mut self, sender: &String, now: u64, quest_id: u64) -> (r: Result<
        CompleteQuestOutcome,
        ContractError,
    >)
        requires
            old(self).wf(),
        ensures
            final(self).wf(),
            complete_quest_post(*old(self), *final(self), *sender, now, quest_id, r),
    {
        if quest_id == 0 || quest_id > self.quests.len() as u64 {
            return Err(ContractError::NotFound);
        }
        let idx = (quest_id - 1) as usize;
        if self.quests[idx].completed {
            return Err(ContractError::AlreadyCompleted);
        }
        if self.quests[idx].creator == *sender {
            return Err(ContractError::SelfCompletionForbidden);
        }
        let reward = self.quests[idx].reward_amount;
        let mut acct = self.load_account(sender);
        if acct.info.balance > u128::MAX - reward || acct.info.total_earned > u128::MAX - reward
            || acct.info.quests_completed == u64::MAX || self.config.total_completed == u64::MAX {
            return Err(ContractError::Overflow);
        }
        let ghost old_self = *self;
        acct.info.balance = acct.info.balance + reward;
        acct.info.total_earned = acct.info.total_earned + reward;
        acct.info.quests_completed = acct.info.quests_completed + 1;
        let new_balance = acct.info.balance;
        let total_earned = acct.info.total_earned;
        let creator = self.quests[idx].creator.clone();
        self.store_account(acct);
        let ghost after_first = *self;
        let creator_acct = self.load_account(&creator);
        self.store_account(creator_acct);
        let ghost mid = *self;
        let mut quest = self.quests[idx].duplicate();
        quest.completed = true;
        quest.completed_by = Some(sender.clone());
        quest.completed_at = Some(now);
        self.quests.set(idx, quest);
        self.config.total_completed = self.config.total_completed + 1;
        assert forall|i: int| 0 <= i < self.quests.len() implies (#[trigger] self.quests@[i]).id
            == i + 1 by {
            if i != idx {
                assert(self.quests@[i] == mid.quests@[i]);
            }
        }
        assert(self.accounts@ == mid.accounts@);
        assert forall|b: Seq<char>| #[trigger] self.account(b) == if b == sender@ {
            AccountView {
                balance: (old_self.account(sender@).balance + reward) as u128,
                total_earned: (old_self.account(sender@).total_earned + reward) as u128,
                quests_completed: (old_self.account(sender@).quests_completed + 1) as u64,
                ..old_self.account(sender@)
            }
        } else {
            old_self.account(b)
        } by {
            assert(after_first.account(b) == old_self.account(b) || b == sender@);
            assert(mid.account(b) == after_first.account(b));
        }
        assert(self.quests@ =~= old_self.quests@.update(
            idx as int,
            Quest {
                completed: true,
                completed_by: Some(*sender),
                completed_at: Some(now),
                ..old_self.quests@[idx as int]
            },
        ));
        assert(self.config == Config {
            total_completed: (old_self.config.total_completed + 1) as u64,
            ..old_self.config
        });
        assert forall|b: Seq<char>| #[trigger] self.has_record(b) == (old_self.has_record(b)
            || b == sender@ || b == creator@) by {
            assert(mid.has_record(b) == (after_first.has_record(b) || b == creator@));
        }
        Ok(
            CompleteQuestOutcome {
                quest_id,
                completed_by: sender.clone(),
                reward,
                new_balance,
                total_earned,
            },
        )
    }

    /// Moves `amount` from `sender` to `recipient`; `recipient_valid` is the
    /// host validator's verdict on `recipient`.
    pub fn transfer(
        &mut self,
        sender: &String,
        recipient: &String,
        recipient_valid: bool,
        amount: &str,
    ) -> (r: Result<TransferOutcome, ContractError>)
        requires
            old(self).wf(),
        ensures
            final(self).wf(),
            transfer_post(*old(self), *final(self), *sender, *recipient, recipient_valid, amount@, r),
    {
        let amt = match parse_amount(amount) {
            Some(v) => v,
            None => return Err(ContractError::InvalidAmount),
        };
        if !recipient_valid {
            return Err(ContractError::InvalidAddress);
        }
        let mut from = self.load_account(sender);
        if from.info.balance < amt {
            return Err(ContractError::InsufficientFunds { required: amt, available: from.info.balance });
        }
        if *sender == *recipient {
            let balance = from.info.balance;
            self.store_account(from);
            return Ok(
                TransferOutcome {
                    from: sender.clone(),
                    to: recipient.clone(),
                    amount: amt,
                    sender_new_balance: balance,
                    recipient_new_balance: balance,
                },
            );
        }
        let mut to = self.load_account(recipient);
        if to.info.balance > u128::MAX - amt {
            return Err(ContractError::Overflow);
        }
        from.info.balance = from.info.balance - amt;
        to.info.balance = to.info.balance + amt;
        let sender_new_balance = from.info.balance;
        let recipient_new_balance = to.info.balance;
        self.store_account(from);
        self.store_account(to);
        Ok(
            TransferOutcome {
                from: sender.clone(),
                to: recipient.clone(),
                amount: amt,
                sender_new_balance,
                recipient_new_balance,
            },
        )
    }

    /// Takes `amount` out of circulation from the owner's balance; only the
    /// owner may call it.
    pub fn admin_withdraw(&mut self, sender: &String, amount: &str) -> (r: Result<
        WithdrawOutcome,
        ContractError,
    >)
        requires
            old(self).wf(),
        ensures
            final(self).wf(),
            withdraw_post(*old(self), *final(self), *sender, amount@, r),
    {
        let amt = match parse_amount(amount) {
            Some(v) => v,
            None => return Err(ContractError::InvalidAmount),
        };
        if *sender != self.config.owner {
            return Err(ContractError::Unauthorized);
        }
        let mut acct = self.load_account(sender);
        if acct.info.balance < amt {
            return Err(ContractError::InsufficientFunds { required: amt, available: acct.info.balance });
        }
        acct.info.balance = acct.info.balance - amt;
        let new_balance = acct.info.balance;
        self.store_account(acct);
        Ok(WithdrawOutcome { amount: amt, new_balance })
    }
}

} // verus!
