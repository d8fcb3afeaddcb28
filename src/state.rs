use vstd::prelude::*;

verus! {

/// The contract's settings and counters.
#[derive(Debug)]
pub struct Config {
    pub owner: String,
    pub quest_creation_fee: u128,
    /// Number of quests created so far; also the id of the latest one.
    pub total_quests: u64,
    pub total_completed: u64,
}

/// A task that any identity other than its creator may complete once.
#[derive(Debug)]
pub struct Quest {
    pub id: u64,
    pub creator: String,
    pub name: String,
    pub description: String,
    pub reward_amount: u128,
    pub completed: bool,
    pub completed_by: Option<String>,
    pub created_at: u64,
    pub completed_at: Option<u64>,
}

/// The bookkeeping record of one identity.
#[derive(Debug)]
pub struct UserBalance {
    pub address: String,
    pub balance: u128,
    pub total_earned: u128,
    pub quests_created: u64,
    pub quests_completed: u64,
}

/// One identity's record together with the ids of the quests it created, in
/// order of creation.
#[derive(Debug)]
pub struct Account {
    pub info: UserBalance,
    pub quest_ids: Vec<u64>,
}

/// What an identity holds, as seen by contracts. An identity without a record
/// holds zeros and no quest ids.
pub struct AccountView {
    pub balance: u128,
    pub total_earned: u128,
    pub quests_created: u64,
    pub quests_completed: u64,
    pub quest_ids: Seq<u64>,
}

/// The whole persistent state of the contract.
#[derive(Debug)]
pub struct State {
    pub config: Config,
    /// At most one account per identity.
    pub accounts: Vec<Account>,
    /// The quest with id `n` is at index `n - 1`.
    pub quests: Vec<Quest>,
}

impl AccountView {
    pub open spec fn zero() -> AccountView {
        AccountView {
            balance: 0,
            total_earned: 0,
            quests_created: 0,
            quests_completed: 0,
            quest_ids: Seq::empty(),
        }
    }
}

impl Account {
    pub open spec fn view(&self) -> AccountView {
        AccountView {
            balance: self.info.balance,
            total_earned: self.info.total_earned,
            quests_created: self.info.quests_created,
            quests_completed: self.info.quests_completed,
            quest_ids: self.quest_ids@,
        }
    }
}

/// Whether index `i` of `accts` holds the account of identity `a`.
pub open spec fn holds_account(accts: Seq<Account>, a: Seq<char>, i: int) -> bool {
    0 <= i < accts.len() && accts[i].info.address@ == a
}

/// Whether `accts` has a record for identity `a`.
pub open spec fn has_record(accts: Seq<Account>, a: Seq<char>) -> bool {
    exists|i: int| holds_account(accts, a, i)
}

/// What identity `a` holds in `accts`: its record, or zeros where it has none.
pub open spec fn account_in(accts: Seq<Account>, a: Seq<char>) -> AccountView {
    if has_record(accts, a) {
        accts[choose|i: int| holds_account(accts, a, i)]@
    } else {
        AccountView::zero()
    }
}

/// No two accounts belong to the same identity.
pub open spec fn identities_unique(accts: Seq<Account>) -> bool {
    forall|i: int, j: int|
        0 <= i < accts.len() && 0 <= j < accts.len() && i != j ==> accts[i].info.address@
            != accts[j].info.address@
}

impl State {
    /// What identity `a` holds.
    pub open spec fn account(&self, a: Seq<char>) -> AccountView {
        account_in(self.accounts@, a)
    }

    /// Whether identity `a` has a record of its own.
    pub open spec fn has_record(&self, a: Seq<char>) -> bool {
        has_record(self.accounts@, a)
    }

    /// Whether a quest with id `id` exists.
    pub open spec fn quest_exists(&self, id: u64) -> bool {
        1 <= id <= self.quests.len()
    }

    /// The quest with id `id`, where it exists.
    pub open spec fn quest(&self, id: u64) -> Quest {
        self.quests@[id - 1]
    }

    /// The state's invariant: one account per identity, quest ids dense from 1
    /// and counted by the config, and every indexed quest id resolving to a
    /// quest.
    pub open spec fn wf(&self) -> bool {
        &&& identities_unique(self.accounts@)
        &&& self.config.total_quests == self.quests.len()
        &&& forall|i: int| 0 <= i < self.quests.len() ==> (#[trigger] self.quests@[i]).id == i + 1
        &&& forall|i: int, k: int|
            0 <= i < self.accounts.len() && 0 <= k < self.accounts@[i].quest_ids.len()
                ==> 1 <= #[trigger] self.accounts@[i].quest_ids@[k] <= self.quests.len()
    }
}

/// With one account per identity, the account at index `i` is the one that
/// `account_in` reads.
pub proof fn lemma_account_at(accts: Seq<Account>, a: Seq<char>, i: int)
    requires
        identities_unique(accts),
        holds_account(accts, a, i),
    ensures
        has_record(accts, a),
        account_in(accts, a) == accts[i]@,
{
    let j = choose|j: int| holds_account(accts, a, j);
    assert(holds_account(accts, a, j));
}

/// Replacing the account at index `k` by one of the same identity changes what
/// that identity holds and nothing else.
pub proof fn lemma_account_update(accts: Seq<Account>, k: int, acct: Account)
    requires
        identities_unique(accts),
        0 <= k < accts.len(),
        acct.info.address@ == accts[k].info.address@,
    ensures
        identities_unique(accts.update(k, acct)),
        forall|b: Seq<char>|
            #[trigger] has_record(accts.update(k, acct), b) == has_record(accts, b),
        forall|b: Seq<char>|
            #[trigger] account_in(accts.update(k, acct), b) == if b == acct.info.address@ {
                acct@
            } else {
                account_in(accts, b)
            },
{
    let n = accts.update(k, acct);
    assert forall|b: Seq<char>| #[trigger] has_record(n, b) == has_record(accts, b) by {
        if has_record(n, b) {
            let i = choose|i: int| holds_account(n, b, i);
            assert(holds_account(accts, b, i));
        }
        if has_record(accts, b) {
            let i = choose|i: int| holds_account(accts, b, i);
            assert(holds_account(n, b, i));
        }
    }
    assert forall|b: Seq<char>|
        #[trigger] account_in(n, b) == if b == acct.info.address@ {
            acct@
        } else {
            account_in(accts, b)
        } by {
        if b == acct.info.address@ {
            lemma_account_at(n, b, k);
        } else if has_record(accts, b) {
            let i = choose|i: int| holds_account(accts, b, i);
            lemma_account_at(accts, b, i);
            lemma_account_at(n, b, i);
        }
    }
}

/// Appending the account of an identity that had none changes what that
/// identity holds and nothing else.
pub proof fn lemma_account_push(accts: Seq<Account>, acct: Account)
    requires
        identities_unique(accts),
        !has_record(accts, acct.info.address@),
    ensures
        identities_unique(accts.push(acct)),
        forall|b: Seq<char>|
            #[trigger] has_record(accts.push(acct), b) == (has_record(accts, b) || b
                == acct.info.address@),
        forall|b: Seq<char>|
            #[trigger] account_in(accts.push(acct), b) == if b == acct.info.address@ {
                acct@
            } else {
                account_in(accts, b)
            },
{
    let n = accts.push(acct);
    let k = accts.len() as int;
    assert forall|i: int, j: int|
        0 <= i < n.len() && 0 <= j < n.len() && i != j implies n[i].info.address@
            != n[j].info.address@ by {
        if i == k {
            assert(!holds_account(accts, acct.info.address@, j));
        } else if j == k {
            assert(!holds_account(accts, acct.info.address@, i));
        }
    }
    assert forall|b: Seq<char>|
        #[trigger] has_record(n, b) == (has_record(accts, b) || b == acct.info.address@) by {
        if has_record(n, b) {
            let i = choose|i: int| holds_account(n, b, i);
            if i < k {
                assert(holds_account(accts, b, i));
            }
        }
        if has_record(accts, b) {
            let i = choose|i: int| holds_account(accts, b, i);
            assert(holds_account(n, b, i));
        }
        if b == acct.info.address@ {
            assert(holds_account(n, b, k));
        }
    }
    assert forall|b: Seq<char>|
        #[trigger] account_in(n, b) == if b == acct.info.address@ {
            acct@
        } else {
            account_in(accts, b)
        } by {
        if b == acct.info.address@ {
            lemma_account_at(n, b, k);
        } else if has_record(accts, b) {
            let i = choose|i: int| holds_account(accts, b, i);
            lemma_account_at(accts, b, i);
            lemma_account_at(n, b, i);
        } else {
            if has_record(n, b) {
                let i = choose|i: int| holds_account(n, b, i);
                assert(holds_account(accts, b, i));
            }
        }
    }
}


/// A copy of an optional identity.
pub fn copy_identity(o: &Option<String>) -> (r: Option<String>)
    ensures
        r == *o,
{
    match o {
        Some(s) => Some(s.clone()),
        None => None,
    }
}

impl Quest {
    /// A field-for-field copy.
    pub fn duplicate(&self) -> (r: Quest)
        ensures
            r == *self,
    {
        Quest {
            id: self.id,
            creator: self.creator.clone(),
            name: self.name.clone(),
            description: self.description.clone(),
            reward_amount: self.reward_amount,
            completed: self.completed,
            completed_by: copy_identity(&self.completed_by),
            created_at: self.created_at,
            completed_at: self.completed_at,
        }
    }
}

impl State {
    /// Whether the state meets its invariant, as a state read back from
    /// storage must before any call.
    #[verifier::loop_isolation(false)]
    pub fn is_well_formed(&self) -> (r: bool)
        ensures
            r == self.wf(),
    {
        if self.config.total_quests as u128 != self.quests.len() as u128 {
            return false;
        }
        let n = self.quests.len();
        let mut i: usize = 0;
        while i < n
            invariant
                n == self.quests.len(),
                i <= n,
                forall|j: int| 0 <= j < i ==> (#[trigger] self.quests@[j]).id == j + 1,
            decreases n - i,
        {
            if self.quests[i].id as u128 != i as u128 + 1 {
                return false;
            }
            i += 1;
        }
        let m = self.accounts.len();
        let mut a: usize = 0;
        while a < m
            invariant
                m == self.accounts.len(),
                n == self.quests.len(),
                a <= m,
                forall|x: int, y: int|
                    0 <= x < a && 0 <= y < m && x != y ==> self.accounts@[x].info.address@
                        != self.accounts@[y].info.address@,
                forall|x: int, k: int|
                    0 <= x < a && 0 <= k < self.accounts@[x].quest_ids.len() ==> 1
                        <= #[trigger] self.accounts@[x].quest_ids@[k] <= n,
            decreases m - a,
        {
            let mut b: usize = 0;
            while b < m
                invariant
                    m == self.accounts.len(),
                    a < m,
                    b <= m,
                    forall|y: int|
                        0 <= y < b && y != a ==> self.accounts@[a as int].info.address@
                            != #[trigger] self.accounts@[y].info.address@,
                decreases m - b,
            {
                if b != a && self.accounts[a].info.address == self.accounts[b].info.address {
                    assert(!identities_unique(self.accounts@)) by {
                        assert(self.accounts@[a as int].info.address@
                            == self.accounts@[b as int].info.address@);
                    }
                    return false;
                }
                b += 1;
            }
            let ids = &self.accounts[a].quest_ids;
            let mut k: usize = 0;
            while k < ids.len()
                invariant
                    n == self.quests.len(),
                    *ids == self.accounts@[a as int].quest_ids,
                    k <= ids.len(),
                    forall|j: int| 0 <= j < k ==> 1 <= #[trigger] ids@[j] <= n,
                decreases ids.len() - k,
            {
                if ids[k] == 0 || ids[k] as u128 > n as u128 {
                    assert(!(1 <= self.accounts@[a as int].quest_ids@[k as int] <= n));
                    return false;
                }
                k += 1;
            }
            a += 1;
        }
        true
    }

    /// The index of the account of identity `a`, if it has one.
    pub fn find_account(&self, a: &String) -> (r: Option<usize>)
        ensures
            match r {
                Some(i) => holds_account(self.accounts@, a@, i as int),
                None => !has_record(self.accounts@, a@),
            },
    {
        let mut i: usize = 0;
        while i < self.accounts.len()
            invariant
                i <= self.accounts.len(),
                forall|j: int| 0 <= j < i ==> !holds_account(self.accounts@, a@, j),
            decreases self.accounts.len() - i,
        {
            if self.accounts[i].info.address == *a {
                return Some(i);
            }
            i += 1;
        }
        None
    }

    /// The account of identity `a`: a copy of its record, or a fresh zeroed one
    /// where it has none yet.
    pub fn load_account(&self, a: &String) -> (r: Account)
        requires
            self.wf(),
        ensures
            r.info.address@ == a@,
            r@ == self.account(a@),
    {
        match self.find_account(a) {
            Some(i) => {
                proof {
                    lemma_account_at(self.accounts@, a@, i as int);
                }
                let acct = &self.accounts[i];
                let ids = acct.quest_ids.clone();
                assert(ids@ =~= acct.quest_ids@);
                Account {
                    info: UserBalance {
                        address: a.clone(),
                        balance: acct.info.balance,
                        total_earned: acct.info.total_earned,
                        quests_created: acct.info.quests_created,
                        quests_completed: acct.info.quests_completed,
                    },
                    quest_ids: ids,
                }
            },
            None => {
                let r = Account {
                    info: UserBalance {
                        address: a.clone(),
                        balance: 0,
                        total_earned: 0,
                        quests_created: 0,
                        quests_completed: 0,
                    },
                    quest_ids: Vec::new(),
                };
                assert(r@.quest_ids =~= Seq::<u64>::empty());
                r
            },
        }
    }

    /// Writes `acct` as the record of its identity, creating the record where
    /// there was none.
    pub fn store_account(&mut self, acct: Account)
        requires
            old(self).wf(),
            forall|k: int|
                0 <= k < acct.quest_ids.len() ==> 1 <= #[trigger] acct.quest_ids@[k]
                    <= old(self).quests.len(),
        ensures
            final(self).wf(),
            final(self).config == old(self).config,
            final(self).quests == old(self).quests,
            forall|b: Seq<char>|
                #[trigger] final(self).has_record(b) == (old(self).has_record(b) || b
                    == acct.info.address@),
            forall|b: Seq<char>|
                #[trigger] final(self).account(b) == if b == acct.info.address@ {
                    acct@
                } else {
                    old(self).account(b)
                },
    {
        let ghost a = acct.info.address@;
        let ghost olds = self.accounts@;
        match self.find_account(&acct.info.address) {
            Some(i) => {
                proof {
                    lemma_account_update(olds, i as int, acct);
                }
                self.accounts.set(i, acct);
                assert(self.accounts@ == olds.update(i as int, acct));
            },
            None => {
                proof {
                    lemma_account_push(olds, acct);
                }
                self.accounts.push(acct);
            },
        }
        assert forall|i: int, k: int|
            0 <= i < self.accounts.len() && 0 <= k < self.accounts@[i].quest_ids.len()
                implies 1 <= #[trigger] self.accounts@[i].quest_ids@[k] <= self.quests.len() by {
            if self.accounts@[i] != acct {
                assert(self.accounts@[i] == olds[i]);
            }
        }
    }
}

} // verus!
