//! Reward ledger: per-participant incentive accounting and transaction
//! log.
//!
//! The running total always equals the sum of the appended reward
//! entries, entries are append-only, and every accumulation is
//! overflow-checked, so the total is monotone and exact.

use vstd::prelude::*;

use crate::account::AccountId;
use crate::error::RecruSearchError;

verus! {

/// States of a logged transaction.
#[derive(Clone, Copy, Debug, PartialEq, Eq, Structural)]
pub enum TransactionStatus {
    Pending,
    Completed,
    Failed,
}

/// One incentive payment credited for a study.
#[derive(Clone, Copy, Debug, PartialEq, Eq, Structural)]
pub struct Reward {
    pub study_id: AccountId,
    pub amount: u64,
    pub timestamp: i64,
}

/// One entry of the transaction log.
#[derive(Clone, Copy, Debug, PartialEq, Eq, Structural)]
pub struct Transaction {
    /// Position in the log at the time of appending; unique per wallet.
    pub id: u64,
    pub status: TransactionStatus,
    pub timestamp: i64,
}

/// Per-participant running record of earned incentives.
#[derive(Debug)]
pub struct ParticipantWallet {
    /// The participant identity this ledger belongs to.
    pub participant: AccountId,
    /// External wallet address the ledger is bound to at initialization.
    pub phantom_public_key: AccountId,
    pub is_initialized: bool,
    pub is_active: bool,
    pub created_at: i64,
    pub last_activity: i64,
    pub last_reward_at: i64,
    /// Cumulative earned incentives; always the sum of `rewards`.
    pub total_rewards: u64,
    pub rewards: Vec<Reward>,
    pub transactions: Vec<Transaction>,
    pub metadata_uri: Option<String>,
}

/// Sum of the amounts of a list of reward entries.
pub open spec fn sum_amounts(rewards: Seq<Reward>) -> int
    decreases rewards.len(),
{
    if rewards.len() == 0 {
        0
    } else {
        sum_amounts(rewards.drop_last()) + rewards.last().amount
    }
}

/// True when some log entry carries the identifier.
pub open spec fn has_transaction(log: Seq<Transaction>, transaction_id: u64) -> bool {
    exists|i: int| 0 <= i < log.len() && log[i].id == transaction_id
}

/// The reward entries for one study, or all of them when no study is
/// named; order is kept.
pub open spec fn rewards_for(rewards: Seq<Reward>, study_id: Option<AccountId>) -> Seq<Reward>
    decreases rewards.len(),
{
    if rewards.len() == 0 {
        Seq::empty()
    } else {
        let rest = rewards_for(rewards.drop_last(), study_id);
        if reward_selected(rewards.last(), study_id) {
            rest.push(rewards.last())
        } else {
            rest
        }
    }
}

/// True when the entry belongs to the named study, or no study is named.
pub open spec fn reward_selected(reward: Reward, study_id: Option<AccountId>) -> bool {
    match study_id {
        Some(id) => reward.study_id == id,
        None => true,
    }
}

impl ParticipantWallet {
    /// The running total equals the sum of the entries.
    pub open spec fn wf(self) -> bool {
        self.total_rewards == sum_amounts(self.rewards@)
    }

    /// Checks that the running total equals the sum of the entries.
    pub fn is_well_formed(&self) -> (r: bool)
        ensures
            r == self.wf(),
    {
        let mut sum: u64 = 0;
        let mut i: usize = 0;
        let mut overflowed = false;
        while i < self.rewards.len()
            invariant
                i <= self.rewards@.len(),
                !overflowed ==> sum == sum_amounts(self.rewards@.take(i as int)),
                overflowed ==> sum_amounts(self.rewards@.take(i as int)) > u64::MAX,
            decreases self.rewards@.len() - i,
        {
            proof {
                lemma_sum_take_succ(self.rewards@, i as int);
            }
            let amount = self.rewards[i].amount;
            if overflowed || amount > u64::MAX - sum {
                overflowed = true;
                sum = u64::MAX;
            } else {
                sum = sum + amount;
            }
            i = i + 1;
        }
        proof {
            assert(self.rewards@.take(i as int) =~= self.rewards@);
        }
        !overflowed && self.total_rewards == sum
    }

    /// A fresh, not yet initialized ledger for the participant.
    pub fn new(participant: AccountId) -> (r: ParticipantWallet)
        ensures
            r.participant == participant,
            !r.is_initialized && !r.is_active,
            r.total_rewards == 0,
            r.rewards@ =~= Seq::<Reward>::empty(),
            r.transactions@ =~= Seq::<Transaction>::empty(),
            r.metadata_uri is None,
            r.created_at == 0 && r.last_activity == 0 && r.last_reward_at == 0,
            r.wf(),
    {
        ParticipantWallet {
            participant,
            phantom_public_key: AccountId { value: 0 },
            is_initialized: false,
            is_active: false,
            created_at: 0,
            last_activity: 0,
            last_reward_at: 0,
            total_rewards: 0,
            rewards: Vec::new(),
            transactions: Vec::new(),
            metadata_uri: None,
        }
    }

    /// Binds the ledger to an external wallet address and activates it.
    ///
    /// Fails with `AlreadyInitialized` exactly when the ledger was
    /// initialized before; on failure nothing changes.
    pub fn initialize(&mut self, phantom_public_key: AccountId, now: i64) -> (r: Result<
        (),
        RecruSearchError,
    >)
        ensures
            r is Ok <==> !old(self).is_initialized,
            r is Ok ==> *final(self) == (ParticipantWallet {
                phantom_public_key,
                is_initialized: true,
                is_active: true,
                created_at: now,
                last_activity: now,
                ..*old(self)
            }),
            r is Err ==> *final(self) == *old(self)
                && (r matches Err(e) && e == RecruSearchError::AlreadyInitialized),
            old(self).wf() ==> final(self).wf(),
    {
        if self.is_initialized {
            return Err(RecruSearchError::AlreadyInitialized);
        }
        self.phantom_public_key = phantom_public_key;
        self.is_initialized = true;
        self.is_active = true;
        self.created_at = now;
        self.last_activity = now;
        Ok(())
    }

    /// Credits one reward: raises the total, appends a reward entry and
    /// a `Completed` log entry, and stamps the activity times.
    ///
    /// Fails with `InactiveWallet` when the ledger is not active, then
    /// with `InvalidRewardAmount` when the amount is zero, then with
    /// `RewardOverflow` when the total cannot take the amount; on
    /// failure nothing changes.
    pub fn add_reward(&mut self, study_id: AccountId, amount: u64, now: i64) -> (r: Result<
        (),
        RecruSearchError,
    >)
        requires
            old(self).wf(),
        ensures
            r is Ok <==> old(self).is_active && amount > 0 && old(self).total_rewards + amount
                <= u64::MAX,
            r is Ok ==> *final(self) == (ParticipantWallet {
                total_rewards: (old(self).total_rewards + amount) as u64,
                rewards: final(self).rewards,
                transactions: final(self).transactions,
                last_reward_at: now,
                last_activity: now,
                ..*old(self)
            }),
            r is Ok ==> final(self).rewards@ == old(self).rewards@.push(
                Reward { study_id, amount, timestamp: now },
            ),
            r is Ok ==> final(self).transactions@ == old(self).transactions@.push(
                Transaction {
                    id: old(self).transactions@.len() as u64,
                    status: TransactionStatus::Completed,
                    timestamp: now,
                },
            ),
            r is Err ==> *final(self) == *old(self),
            !old(self).is_active ==> (r matches Err(e) && e == RecruSearchError::InactiveWallet),
            old(self).is_active && amount == 0 ==> (r matches Err(e)
                && e == RecruSearchError::InvalidRewardAmount),
            old(self).is_active && amount > 0 && old(self).total_rewards + amount > u64::MAX ==> (
            r matches Err(e) && e == RecruSearchError::RewardOverflow),
            final(self).total_rewards >= old(self).total_rewards,
            final(self).wf(),
    {
        if !self.is_active {
            return Err(RecruSearchError::InactiveWallet);
        }
        if amount == 0 {
            return Err(RecruSearchError::InvalidRewardAmount);
        }
        if amount > u64::MAX - self.total_rewards {
            return Err(RecruSearchError::RewardOverflow);
        }
        let next_id: u64 = self.transactions.len() as u64;
        let ghost previous_rewards = self.rewards@;
        self.rewards.push(Reward { study_id, amount, timestamp: now });
        proof {
            assert(self.rewards@.drop_last() =~= previous_rewards);
            assert(self.rewards@.last() == (Reward { study_id, amount, timestamp: now }));
        }
        self.transactions.push(
            Transaction { id: next_id, status: TransactionStatus::Completed, timestamp: now },
        );
        self.total_rewards = self.total_rewards + amount;
        self.last_reward_at = now;
        self.last_activity = now;
        Ok(())
    }

    /// Rewrites the status of the first log entry carrying the
    /// identifier and stamps the activity time; deliberately a no-op
    /// when no entry matches.
    pub fn update_transaction_status(
        &mut self,
        transaction_id: u64,
        status: TransactionStatus,
        now: i64,
    )
        ensures
            !has_transaction(old(self).transactions@, transaction_id) ==> *final(self) == *old(
                self,
            ),
            has_transaction(old(self).transactions@, transaction_id) ==> exists|i: int|
                {
                    &&& 0 <= i < old(self).transactions@.len()
                    &&& old(self).transactions@[i].id == transaction_id
                    &&& (forall|j: int|
                        0 <= j < i ==> old(self).transactions@[j].id != transaction_id)
                    &&& *final(self) == (ParticipantWallet {
                        transactions: final(self).transactions,
                        last_activity: now,
                        ..*old(self)
                    })
                    &&& final(self).transactions@ == old(self).transactions@.update(
                        i,
                        Transaction { status, ..old(self).transactions@[i] },
                    )
                },
            old(self).wf() ==> final(self).wf(),
    {
        match self.find_transaction(transaction_id) {
            Some(i) => {
                let updated = Transaction { status, ..self.transactions[i] };
                self.transactions.set(i, updated);
                self.last_activity = now;
            },
            None => {},
        }
    }

    /// Index of the first log entry carrying the identifier.
    pub fn find_transaction(&self, transaction_id: u64) -> (r: Option<usize>)
        ensures
            r matches Some(i) ==> i < self.transactions@.len()
                && self.transactions@[i as int].id == transaction_id && (forall|j: int|
                0 <= j < i ==> self.transactions@[j].id != transaction_id),
            r is None ==> !has_transaction(self.transactions@, transaction_id),
    {
        let mut i: usize = 0;
        while i < self.transactions.len()
            invariant
                i <= self.transactions@.len(),
                forall|j: int| 0 <= j < i ==> self.transactions@[j].id != transaction_id,
            decreases self.transactions@.len() - i,
        {
            if self.transactions[i].id == transaction_id {
                return Some(i);
            }
            i = i + 1;
        }
        None
    }

    /// Copies out the reward entries for one study, or all of them when
    /// no study is named, in ledger order.
    pub fn get_reward_history(&self, study_id: Option<AccountId>) -> (r: Vec<Reward>)
        ensures
            r@ == rewards_for(self.rewards@, study_id),
    {
        let mut selected: Vec<Reward> = Vec::new();
        let mut i: usize = 0;
        while i < self.rewards.len()
            invariant
                i <= self.rewards@.len(),
                selected@ == rewards_for(self.rewards@.take(i as int), study_id),
            decreases self.rewards@.len() - i,
        {
            proof {
                assert(self.rewards@.take(i as int + 1).drop_last() =~= self.rewards@.take(
                    i as int,
                ));
                assert(self.rewards@.take(i as int + 1).last() == self.rewards@[i as int]);
            }
            let entry = self.rewards[i];
            let keep = match study_id {
                Some(id) => entry.study_id == id,
                None => true,
            };
            if keep {
                selected.push(entry);
            }
            i = i + 1;
        }
        proof {
            assert(self.rewards@.take(i as int) =~= self.rewards@);
        }
        selected
    }

    /// Stamps the activity time.
    pub fn update_activity(&mut self, now: i64)
        ensures
            *final(self) == (ParticipantWallet { last_activity: now, ..*old(self) }),
    {
        self.last_activity = now;
    }

    /// Flips the active flag and stamps the activity time.
    pub fn toggle_active(&mut self, now: i64)
        ensures
            *final(self) == (ParticipantWallet {
                is_active: !old(self).is_active,
                last_activity: now,
                ..*old(self)
            }),
    {
        self.is_active = !self.is_active;
        self.last_activity = now;
    }

    /// Replaces the metadata link and stamps the activity time.
    pub fn update_metadata_uri(&mut self, uri: Option<String>, now: i64)
        ensures
            *final(self) == (ParticipantWallet {
                metadata_uri: uri,
                last_activity: now,
                ..*old(self)
            }),
    {
        self.metadata_uri = uri;
        self.last_activity = now;
    }

    /// True exactly when the given address is the bound external wallet.
    pub fn verify_phantom_ownership(&self, phantom_address: &AccountId) -> (r: bool)
        ensures
            r == (self.phantom_public_key == *phantom_address),
    {
        self.phantom_public_key.value == phantom_address.value
    }
}

/// Extending a prefix by one entry adds exactly that entry's amount.
proof fn lemma_sum_take_succ(rewards: Seq<Reward>, n: int)
    requires
        0 <= n < rewards.len(),
    ensures
        sum_amounts(rewards.take(n + 1)) == sum_amounts(rewards.take(n)) + rewards[n].amount,
{
    assert(rewards.take(n + 1).drop_last() =~= rewards.take(n));
    assert(rewards.take(n + 1).last() == rewards[n]);
}

} // verus!
