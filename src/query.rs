use crate::msg::{
    ContractError, GetActiveQuestsResponse, GetBalanceResponse, GetConfigResponse,
    GetQuestResponse, GetUserStatsResponse,
};
use crate::state::{Quest, State};
use vstd::prelude::*;

verus! {

/// The quests of `qs` that are not completed, in their order.
pub open spec fn active_quests(qs: Seq<Quest>) -> Seq<Quest>
    decreases qs.len(),
{
    if qs.len() == 0 {
        Seq::empty()
    } else {
        let rest = active_quests(qs.drop_last());
        if qs.last().completed {
            rest
        } else {
            rest.push(qs.last())
        }
    }
}

/// The quests that `ids` name, in the order of `ids`, skipping ids that name
/// none.
pub open spec fn resolve_quests(ids: Seq<u64>, qs: Seq<Quest>) -> Seq<Quest>
    decreases ids.len(),
{
    if ids.len() == 0 {
        Seq::empty()
    } else {
        let rest = resolve_quests(ids.drop_last(), qs);
        let id = ids.last();
        if 1 <= id <= qs.len() {
            rest.push(qs[id - 1])
        } else {
            rest
        }
    }
}

/// The answer to a config query on `s`.
pub open spec fn config_response(s: State) -> GetConfigResponse {
    GetConfigResponse {
        owner: s.config.owner,
        quest_creation_fee: s.config.quest_creation_fee,
        total_quests: s.config.total_quests,
        total_completed: s.config.total_completed,
    }
}

/// The answer to a balance query for identity `a` on `s`.
pub open spec fn balance_response(s: State, a: String) -> GetBalanceResponse {
    GetBalanceResponse {
        address: a,
        balance: s.account(a@).balance,
        total_earned: s.account(a@).total_earned,
    }
}

/// The answer to a statistics query for identity `a` on `s`.
pub open spec fn stats_response(s: State, a: String) -> GetUserStatsResponse {
    GetUserStatsResponse {
        address: a,
        balance: s.account(a@).balance,
        total_earned: s.account(a@).total_earned,
        quests_created: s.account(a@).quests_created,
        quests_completed: s.account(a@).quests_completed,
    }
}

impl State {
    /// The current settings and counters.
    pub fn query_config(&self) -> (r: GetConfigResponse)
        ensures
            r == config_response(*self),
    {
        GetConfigResponse {
            owner: self.config.owner.clone(),
            quest_creation_fee: self.config.quest_creation_fee,
            total_quests: self.config.total_quests,
            total_completed: self.config.total_completed,
        }
    }

    /// Balance and earnings of `address`, zero where it has no record;
    /// `address_valid` is the host validator's verdict on it.
    pub fn query_balance(&self, address: &String, address_valid: bool) -> (r: Result<
        GetBalanceResponse,
        ContractError,
    >)
        requires
            self.wf(),
        ensures
            r == if address_valid {
                Ok(balance_response(*self, *address))
            } else {
                Err(ContractError::InvalidAddress)
            },
    {
        if !address_valid {
            return Err(ContractError::InvalidAddress);
        }
        let acct = self.load_account(address);
        Ok(
            GetBalanceResponse {
                address: address.clone(),
                balance: acct.info.balance,
                total_earned: acct.info.total_earned,
            },
        )
    }

    /// The quest with id `quest_id`.
    pub fn query_quest(&self, quest_id: u64) -> (r: Result<GetQuestResponse, ContractError>)
        ensures
            r == if self.quest_exists(quest_id) {
                Ok(GetQuestResponse { quest: self.quest(quest_id) })
            } else {
                Err(ContractError::NotFound)
            },
    {
        if quest_id == 0 || quest_id > self.quests.len() as u64 {
            return Err(ContractError::NotFound);
        }
        Ok(GetQuestResponse { quest: self.quests[(quest_id - 1) as usize].duplicate() })
    }

    /// Every quest not yet completed, by ascending id, and their number.
    pub fn query_active_quests(&self) -> (r: GetActiveQuestsResponse)
        requires
            self.wf(),
        ensures
            r.quests@ == active_quests(self.quests@),
            r.count == r.quests.len(),
    {
        let mut out: Vec<Quest> = Vec::new();
        let mut i: usize = 0;
        while i < self.quests.len()
            invariant
                i <= self.quests.len(),
                out.len() <= i,
                out@ == active_quests(self.quests@.subrange(0, i as int)),
            decreases self.quests.len() - i,
        {
            assert(self.quests@.subrange(0, i + 1).drop_last() =~= self.quests@.subrange(
                0,
                i as int,
            ));
            if !self.quests[i].completed {
                out.push(self.quests[i].duplicate());
            }
            i += 1;
        }
        assert(self.quests@.subrange(0, i as int) =~= self.quests@);
        let count = out.len() as u64;
        GetActiveQuestsResponse { quests: out, count }
    }

    /// The quests that `address` created, in order of creation;
    /// `address_valid` is the host validator's verdict on it.
    pub fn query_user_quests(&self, address: &String, address_valid: bool) -> (r: Result<
        Vec<Quest>,
        ContractError,
    >)
        requires
            self.wf(),
        ensures
            match r {
                Ok(v) => address_valid && v@ == resolve_quests(
                    self.account(address@).quest_ids,
                    self.quests@,
                ),
                Err(e) => !address_valid && e == ContractError::InvalidAddress,
            },
    {
        if !address_valid {
            return Err(ContractError::InvalidAddress);
        }
        let acct = self.load_account(address);
        let ids = &acct.quest_ids;
        let mut out: Vec<Quest> = Vec::new();
        let mut i: usize = 0;
        while i < ids.len()
            invariant
                i <= ids.len(),
                out@ == resolve_quests(ids@.subrange(0, i as int), self.quests@),
            decreases ids.len() - i,
        {
            assert(ids@.subrange(0, i + 1).drop_last() =~= ids@.subrange(0, i as int));
            let id = ids[i];
            if id >= 1 && id <= self.quests.len() as u64 {
                out.push(self.quests[(id - 1) as usize].duplicate());
            }
            i += 1;
        }
        assert(ids@.subrange(0, i as int) =~= ids@);
        Ok(out)
    }

    /// Balance, earnings and quest counters of `address`, zero where it has no
    /// record; `address_valid` is the host validator's verdict on it.
    pub fn query_user_stats(&self, address: &String, address_valid: bool) -> (r: Result<
        GetUserStatsResponse,
        ContractError,
    >)
        requires
            self.wf(),
        ensures
            r == if address_valid {
                Ok(stats_response(*self, *address))
            } else {
                Err(ContractError::InvalidAddress)
            },
    {
        if !address_valid {
            return Err(ContractError::InvalidAddress);
        }
        let acct = self.load_account(address);
        Ok(
            GetUserStatsResponse {
                address: address.clone(),
                balance: acct.info.balance,
                total_earned: acct.info.total_earned,
                quests_created: acct.info.quests_created,
                quests_completed: acct.info.quests_completed,
            },
        )
    }
}

} // verus!
