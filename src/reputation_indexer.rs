//! Reputation indexer: one record per identity, with a score kept within the
//! configured bounds and a tier derived from it after every mutation.

use vstd::prelude::*;
use crate::error::EscrowError;
use crate::external::now_secs;
use crate::payment_coordinator::expiry_after;
use crate::models::{
    amount_bonus, clamp, completion_amount_bonus, outcome_points, tier_name, tier_of,
    timeliness_points, Reputation, TaskState,
};
use crate::EscrowResult;

verus! {

/// Penalty points at which an identity is suspended.
pub const SUSPENSION_THRESHOLD: i32 = 100;

/// Length of a suspension, in seconds (seven days).
pub const SUSPENSION_SECS: i64 = 604800;

/// Seconds in a day.
pub const SECS_PER_DAY: i64 = 86400;

/// Configuration for the reputation indexer.
#[derive(Debug, Clone)]
pub struct ReputationIndexerConfig {
    /// Initial reputation score for new users
    pub initial_score: i32,
    /// Maximum reputation score
    pub max_score: i32,
    /// Minimum reputation score
    pub min_score: i32,
    /// Score decay per month of inactivity, in basis points (500 is 5%)
    pub decay_rate_bps: u32,
    /// Enable automatic score updates
    pub enable_auto_updates: bool,
}

impl Default for ReputationIndexerConfig {
    fn default() -> (r: Self)
        ensures
            r.initial_score == 500,
            r.max_score == 1000,
            r.min_score == 0,
            r.decay_rate_bps == 500,
            r.enable_auto_updates,
    {
        ReputationIndexerConfig {
            initial_score: 500,
            max_score: 1000,
            min_score: 0,
            decay_rate_bps: 500,
            enable_auto_updates: true,
        }
    }
}

/// What a reputation record holds, timestamps aside.
pub struct ReputationView {
    pub pubkey: Seq<char>,
    pub score: int,
    pub tier: Seq<char>,
    pub tasks_created: int,
    pub tasks_funded: int,
    pub tasks_cancelled: int,
    pub total_sats_paid: int,
    pub tasks_claimed: int,
    pub tasks_completed: int,
    pub tasks_failed: int,
    pub total_sats_earned: int,
    pub disputes_total: int,
    pub disputes_won: int,
    pub disputes_lost: int,
    pub badges: Seq<Seq<char>>,
    pub penalty_points: int,
}

impl View for Reputation {
    type V = ReputationView;

    open spec fn view(&self) -> ReputationView {
        ReputationView {
            pubkey: self.pubkey@,
            score: self.score as int,
            tier: self.tier@,
            tasks_created: self.tasks_created as int,
            tasks_funded: self.tasks_funded as int,
            tasks_cancelled: self.tasks_cancelled as int,
            total_sats_paid: self.total_sats_paid as int,
            tasks_claimed: self.tasks_claimed as int,
            tasks_completed: self.tasks_completed as int,
            tasks_failed: self.tasks_failed as int,
            total_sats_earned: self.total_sats_earned as int,
            disputes_total: self.disputes_total as int,
            disputes_won: self.disputes_won as int,
            disputes_lost: self.disputes_lost as int,
            badges: self.badges@.map_values(|b: String| b@),
            penalty_points: self.penalty_points as int,
        }
    }
}

/// A counter after one more event; it stops at the largest `i32`.
pub open spec fn bump(x: int) -> int {
    if x < i32::MAX {
        x + 1
    } else {
        x
    }
}

/// A sum of sats, limited to the range of `i64`.
pub open spec fn add_sats(x: int, y: int) -> int {
    clamp(x + y, i64::MIN as int, i64::MAX as int)
}

/// A change to a reputation record.
#[derive(Debug, Clone, Copy, PartialEq, Eq, Structural)]
pub enum ReputationUpdate {
    /// Adjust the score by a number of points.
    AdjustScore(i32),
    /// The identity created a task with the given reward.
    TaskCreated { reward_sats: i64 },
    /// The identity claimed a task.
    TaskClaimed,
    /// The identity completed a task on time or late and earned its reward.
    TaskCompleted { reward_sats: i64, on_time: bool },
    /// A task of the identity was paid out.
    TaskPaidOut { reward_sats: i64 },
    /// A task of the identity ended in `state`.
    TaskOutcome { state: TaskState, reward_sats: i64, on_time: bool },
    /// The identity won a dispute.
    DisputeWon,
    /// The identity lost a dispute and takes penalty points.
    DisputeLost { penalty_points: i32 },
}

/// Base points of a task outcome: completed and paid, refunded, disputed,
/// expired; other states count for nothing.
pub open spec fn outcome_base(state: TaskState) -> int {
    match state {
        TaskState::Paid => 50,
        TaskState::Refunded => -25,
        TaskState::Disputed => -10,
        TaskState::Expired => -5,
        _ => 0,
    }
}

/// Bonus of creating a task: one point per 50,000 sats of reward, at most
/// 25; rewards that are not positive earn none.
pub open spec fn creation_bonus(reward_sats: int) -> int {
    if reward_sats <= 0 {
        0
    } else if reward_sats / 50000 > 25 {
        25
    } else {
        reward_sats / 50000
    }
}

/// `x + y`, limited to the range of `i32`.
pub open spec fn add_i32(x: int, y: int) -> int {
    clamp(x + y, i32::MIN as int, i32::MAX as int)
}

/// A record after an update, before the score is brought within bounds.
pub open spec fn apply_update(v: ReputationView, u: ReputationUpdate) -> ReputationView {
    match u {
        ReputationUpdate::AdjustScore(d) => ReputationView { score: add_i32(v.score, d as int), ..v },
        ReputationUpdate::TaskOutcome { state, reward_sats, on_time } => ReputationView {
            score: add_i32(
                v.score,
                outcome_base(state) + completion_amount_bonus(reward_sats as int)
                    + timeliness_points(on_time),
            ),
            tasks_completed: if state == TaskState::Paid {
                bump(v.tasks_completed)
            } else {
                v.tasks_completed
            },
            ..v
        },
        ReputationUpdate::DisputeWon => ReputationView {
            disputes_total: bump(v.disputes_total),
            disputes_won: bump(v.disputes_won),
            ..v
        },
        ReputationUpdate::DisputeLost { penalty_points } => ReputationView {
            disputes_total: bump(v.disputes_total),
            disputes_lost: bump(v.disputes_lost),
            penalty_points: add_i32(v.penalty_points, penalty_points as int),
            ..v
        },
        ReputationUpdate::TaskCreated { reward_sats } => ReputationView {
            tasks_created: bump(v.tasks_created),
            score: add_i32(v.score, creation_bonus(reward_sats as int)),
            ..v
        },
        ReputationUpdate::TaskClaimed => ReputationView {
            tasks_claimed: bump(v.tasks_claimed),
            ..v
        },
        ReputationUpdate::TaskCompleted { reward_sats, on_time } => ReputationView {
            tasks_completed: bump(v.tasks_completed),
            total_sats_earned: add_sats(v.total_sats_earned, reward_sats as int),
            score: add_i32(v.score, outcome_points(true, reward_sats as int, on_time)),
            ..v
        },
        ReputationUpdate::TaskPaidOut { reward_sats } => ReputationView {
            tasks_funded: bump(v.tasks_funded),
            total_sats_paid: add_sats(v.total_sats_paid, reward_sats as int),
            ..v
        },
    }
}

/// A record with its score brought within `[min, max]` and its tier
/// recomputed.
pub open spec fn bounded(v: ReputationView, min: int, max: int) -> ReputationView {
    ReputationView {
        score: clamp(v.score, min, max),
        tier: tier_of(clamp(v.score, min, max)),
        ..v
    }
}

/// A fresh record for `pubkey` with score `initial`.
pub open spec fn fresh_record(pubkey: Seq<char>, initial: int) -> ReputationView {
    ReputationView {
        pubkey,
        score: initial,
        tier: tier_of(initial),
        tasks_created: 0,
        tasks_funded: 0,
        tasks_cancelled: 0,
        total_sats_paid: 0,
        tasks_claimed: 0,
        tasks_completed: 0,
        tasks_failed: 0,
        total_sats_earned: 0,
        disputes_total: 0,
        disputes_won: 0,
        disputes_lost: 0,
        badges: Seq::empty(),
        penalty_points: 0,
    }
}

/// Whole months (of 30 days) between `last_active_at` and `now`; none if
/// `now` is earlier.
pub open spec fn months_inactive(last_active_at: int, now: int) -> int {
    if now <= last_active_at {
        0
    } else {
        (now - last_active_at) / (30 * SECS_PER_DAY as int)
    }
}

/// The score after decay: `score * (1 - rate * months)`, rounded toward the
/// score, and never below `min`.
pub open spec fn decayed_score(score: int, rate_bps: int, months: int, min: int, max: int) -> int {
    clamp(score - (score * (rate_bps * months)) / 10000, min, max)
}

/// Reputation statistics over all records.
#[derive(Debug, Clone)]
pub struct ReputationStats {
    pub total_users: usize,
    pub avg_score: i32,
    /// Number of records in each tier, in band order.
    pub tier_distribution: Vec<(String, usize)>,
}

impl Default for ReputationStats {
    fn default() -> (r: Self)
        ensures
            r.total_users == 0,
            r.avg_score == 0,
            r.tier_distribution@.len() == 0,
    {
        ReputationStats { total_users: 0, avg_score: 0, tier_distribution: Vec::new() }
    }
}

/// Main reputation indexer.
pub struct ReputationIndexer {
    config: ReputationIndexerConfig,
    reputations: Vec<Reputation>,
}

impl ReputationIndexer {
    /// The indexer's configuration.
    pub closed spec fn spec_config(&self) -> ReputationIndexerConfig {
        self.config
    }

    /// The records, in order of first appearance.
    pub closed spec fn records(&self) -> Seq<Reputation> {
        self.reputations@
    }

    /// The position of the record of `pubkey`.
    pub open spec fn index_of(&self, pubkey: Seq<char>) -> Option<int> {
        if exists|i: int| 0 <= i < self.records().len() && self.records()[i].pubkey@ == pubkey {
            Some(
                choose|i: int| 0 <= i < self.records().len() && self.records()[i].pubkey@ == pubkey,
            )
        } else {
            None
        }
    }

    /// The record of `pubkey`, if there is one.
    pub open spec fn record(&self, pubkey: Seq<char>) -> Option<ReputationView> {
        match self.index_of(pubkey) {
            Some(i) => Some(self.records()[i]@),
            None => None,
        }
    }

    /// The record of `pubkey`, or the record that a new identity starts with.
    pub open spec fn record_or_fresh(&self, pubkey: Seq<char>) -> ReputationView {
        match self.record(pubkey) {
            Some(v) => v,
            None => fresh_record(pubkey, self.initial_score()),
        }
    }

    /// What reading the record of `pubkey` at time `now` gives: the record
    /// decayed for its whole months of inactivity, or a fresh record.
    pub open spec fn read_view(&self, pubkey: Seq<char>, now: int) -> ReputationView {
        match self.index_of(pubkey) {
            Some(i) => decayed(
                self.records()[i]@,
                self.spec_config().decay_rate_bps as int,
                months_inactive(self.records()[i].last_active_at as int, now),
                self.min(), self.max(),
            ),
            None => fresh_record(pubkey, self.initial_score()),
        }
    }

    /// The score that a new identity starts with.
    pub open spec fn initial_score(&self) -> int {
        clamp(
            self.spec_config().initial_score as int,
            self.spec_config().min_score as int,
            self.spec_config().max_score as int,
        )
    }

    /// The indexer's score bounds.
    pub open spec fn min(&self) -> int {
        self.spec_config().min_score as int
    }

    /// The indexer's score bounds.
    pub open spec fn max(&self) -> int {
        self.spec_config().max_score as int
    }

    /// Well-formedness: one record per identity, each with its score within
    /// the bounds and its tier derived from the score.
    pub open spec fn wf(&self) -> bool {
        &&& self.min() <= self.max()
        &&& forall|i: int, j: int|
            0 <= i < self.records().len() && 0 <= j < self.records().len() && i != j
                ==> #[trigger] self.records()[i].pubkey@ != #[trigger] self.records()[j].pubkey@
        &&& forall|i: int|
            0 <= i < self.records().len() ==> self.min() <= #[trigger] self.records()[i].score
                <= self.max() && self.records()[i].tier@ == tier_of(self.records()[i].score as int)
    }

    /// Only the record of `pubkey` differs between `self` and `after`, and
    /// records keep their positions (a new one is appended).
    pub open spec fn changes_only(&self, after: &Self, pubkey: Seq<char>) -> bool {
        &&& after.spec_config() == self.spec_config()
        &&& after.records().len() == self.records().len() + (if self.index_of(pubkey) is Some {
            0int
        } else {
            1int
        })
        &&& forall|i: int|
            0 <= i < self.records().len() && self.records()[i].pubkey@ != pubkey
                ==> #[trigger] after.records()[i] == self.records()[i]
    }

    /// Create a new reputation indexer with no records.
    pub fn new(config: ReputationIndexerConfig) -> (r: Self)
        requires
            config.min_score <= config.max_score,
        ensures
            r.wf(),
            r.spec_config() == config,
            r.records().len() == 0,
    {
        ReputationIndexer { config, reputations: Vec::new() }
    }

    /// Position of the record of `pubkey`.
    fn find(&self, pubkey: &str) -> (r: Option<usize>)
        requires
            self.wf(),
        ensures
            match r {
                Some(i) => self.index_of(pubkey@) == Some(i as int),
                None => self.index_of(pubkey@) is None,
            },
    {
        let key = String::from_str(pubkey);
        let mut i: usize = 0;
        while i < self.reputations.len()
            invariant
                self.wf(),
                key@ == pubkey@,
                i <= self.records().len(),
                forall|j: int| 0 <= j < i ==> self.records()[j].pubkey@ != pubkey@,
            decreases self.records().len() - i,
        {
            if self.reputations[i].pubkey == key {
                assert(self.index_of(pubkey@) == Some(i as int));
                return Some(i);
            }
            i = i + 1;
        }
        None
    }

    /// Position of the record of `pubkey`, appending a fresh record if there
    /// is none.
    fn find_or_create(&mut self, pubkey: &str) -> (r: usize)
        requires
            old(self).wf(),
        ensures
            final(self).wf(),
            old(self).changes_only(&*final(self), pubkey@),
            final(self).index_of(pubkey@) == Some(r as int),
            final(self).record(pubkey@) == Some(old(self).record_or_fresh(pubkey@)),
            old(self).index_of(pubkey@) matches Some(i) ==> r == i && final(self).records() == old(
                self,
            ).records(),
            old(self).index_of(pubkey@) is None ==> final(self).records()[r as int].suspended_until is None,
    {
        match self.find(pubkey) {
            Some(i) => i,
            None => {
                let mut rep = Reputation::new(String::from_str(pubkey));
                let init = self.config.initial_score;
                rep.score = if init < self.config.min_score {
                    self.config.min_score
                } else if init > self.config.max_score {
                    self.config.max_score
                } else {
                    init
                };
                rep.tier = tier_name(rep.score);
                assert(rep@.badges =~= Seq::<Seq<char>>::empty());
                self.reputations.push(rep);
                let n = self.reputations.len() - 1;
                assert(self.records()[n as int].pubkey@ == pubkey@);
                assert(self.index_of(pubkey@) == Some(n as int));
                n
            },
        }
    }

    /// Create the record of a new identity.
    fn create_reputation(&mut self, pubkey: &str)
        requires
            old(self).wf(),
        ensures
            final(self).wf(),
            old(self).changes_only(&*final(self), pubkey@),
            final(self).record(pubkey@) == Some(old(self).record_or_fresh(pubkey@)),
    {
        let _ = self.find_or_create(pubkey);
    }

    /// Replace the record at position `i` by `rep`, which keeps its identity
    /// and is within bounds.
    fn put(&mut self, i: usize, rep: Reputation)
        requires
            old(self).wf(),
            i < old(self).records().len(),
            rep.pubkey@ == old(self).records()[i as int].pubkey@,
            old(self).min() <= rep.score <= old(self).max(),
            rep.tier@ == tier_of(rep.score as int),
        ensures
            final(self).wf(),
            final(self).records() == old(self).records().update(i as int, rep),
            final(self).spec_config() == old(self).spec_config(),
            forall|k: Seq<char>| #[trigger] final(self).index_of(k) == old(self).index_of(k),
    {
        let ghost before = *self;
        self.reputations.set(i, rep);
        proof {
            assert forall|a: int, b: int|
                0 <= a < self.records().len() && 0 <= b < self.records().len() && a != b implies #[trigger] self.records()[a].pubkey@
                != #[trigger] self.records()[b].pubkey@ by {
                assert(self.records()[a].pubkey@ == before.records()[a].pubkey@);
                assert(self.records()[b].pubkey@ == before.records()[b].pubkey@);
            }
            lemma_same_keys(&before, self);
        }
    }

    /// The record of `pubkey` brought within bounds, its tier recomputed,
    /// and stored back at position `i`; a copy of it is returned.
    fn put_bounded(&mut self, i: usize, rep: Reputation) -> (r: Reputation)
        requires
            old(self).wf(),
            i < old(self).records().len(),
            rep.pubkey@ == old(self).records()[i as int].pubkey@,
        ensures
            final(self).wf(),
            final(self).records()[i as int]@ == bounded(rep@, old(self).min(), old(self).max()),
            r@ == final(self).records()[i as int]@,
            final(self).records()[i as int].suspended_until == rep.suspended_until,
            r.suspended_until == rep.suspended_until,
            final(self).records()[i as int].last_active_at == rep.last_active_at,
            final(self).records().len() == old(self).records().len(),
            forall|j: int|
                0 <= j < old(self).records().len() && j != i ==> #[trigger] final(self).records()[j]
                    == old(self).records()[j],
            final(self).spec_config() == old(self).spec_config(),
            forall|k: Seq<char>| #[trigger] final(self).index_of(k) == old(self).index_of(k),
    {
        let mut rep = rep;
        rep.updated_at = now_secs();
        rep.score = if rep.score < self.config.min_score {
            self.config.min_score
        } else if rep.score > self.config.max_score {
            self.config.max_score
        } else {
            rep.score
        };
        rep.calculate_tier();
        let out = rep.clone();
        assert(out@.badges =~= rep@.badges);
        self.put(i, rep);
        out
    }

    /// Get the reputation of an identity, creating its record if there is
    /// none. Inactivity decay is applied on read and stored back.
    pub fn get_reputation(&mut self, pubkey: &str) -> (r: EscrowResult<Reputation>)
        requires
            old(self).wf(),
        ensures
            final(self).wf(),
            old(self).changes_only(&*final(self), pubkey@),
            final(self).index_of(pubkey@) matches Some(i) && r matches Ok(x)
                && x.suspended_until == final(self).records()[i].suspended_until,
            final(self).record(pubkey@) matches Some(v) && r matches Ok(x) && x@ == v,
            exists|now: i64| #[trigger] old(self).read_view(pubkey@, now as int) == final(self).record(
                pubkey@,
            )->0,
    {
        let now = now_secs();
        let r = self.get_reputation_at(pubkey, now);
        assert(old(self).read_view(pubkey@, now as int) == self.record(pubkey@)->0);
        r
    }

    /// Read the reputation of an identity at time `now`: an existing record
    /// is decayed for its whole months of inactivity up to `now` (none if it
    /// was active within the last 30 days); a new identity gets a fresh
    /// record, undecayed. Either way the record counts as active at `now`.
    pub fn get_reputation_at(&mut self, pubkey: &str, now: i64) -> (r: EscrowResult<Reputation>)
        requires
            old(self).wf(),
        ensures
            final(self).wf(),
            old(self).changes_only(&*final(self), pubkey@),
            final(self).record(pubkey@) == Some(old(self).read_view(pubkey@, now as int)),
            r matches Ok(x) && x@ == old(self).read_view(pubkey@, now as int),
            final(self).index_of(pubkey@) matches Some(i) && r matches Ok(x)
                && x.suspended_until == final(self).records()[i].suspended_until
                && final(self).records()[i].last_active_at == now,
    {
        let existed = self.find(pubkey).is_some();
        let i = self.find_or_create(pubkey);
        let mut rep = self.reputations[i].clone();
        assert(rep@.badges =~= self.records()[i as int]@.badges);
        if existed {
            self.apply_decay_at(&mut rep, now);
        }
        rep.last_active_at = now;
        let out = self.put_bounded(i, rep);
        proof {
            lemma_index_of(self, i as int);
            assert(self.record(pubkey@) == Some(self.records()[i as int]@));
            assert(old(self).read_view(pubkey@, now as int) == bounded(rep@, self.min(), self.max()));
        }
        Ok(out)
    }

    /// Apply an update to the record of an identity, creating the record if
    /// there is none; the score is brought within bounds and the tier
    /// recomputed.
    pub fn update_reputation(&mut self, pubkey: &str, update: ReputationUpdate) -> (r:
        EscrowResult<Reputation>)
        requires
            old(self).wf(),
        ensures
            final(self).wf(),
            old(self).changes_only(&*final(self), pubkey@),
            final(self).record(pubkey@) == Some(
                bounded(
                    apply_update(old(self).record_or_fresh(pubkey@), update),
                    old(self).min(),
                    old(self).max(),
                ),
            ),
            r matches Ok(x) && Some(x@) == final(self).record(pubkey@),
    {
        let i = self.find_or_create(pubkey);
        let mut rep = self.reputations[i].clone();
        assert(rep@.badges =~= self.records()[i as int]@.badges);
        apply(&mut rep, update);
        rep.last_active_at = now_secs();
        let out = self.put_bounded(i, rep);
        proof {
            lemma_index_of(self, i as int);
        }
        Ok(out)
    }

    /// Update the reputation of an identity for the outcome of a task.
    pub fn update_for_task_completion(
        &mut self,
        pubkey: &str,
        task_state: TaskState,
        reward_sats: i64,
        completed_on_time: bool,
    ) -> (r: EscrowResult<Reputation>)
        requires
            old(self).wf(),
        ensures
            final(self).wf(),
            old(self).changes_only(&*final(self), pubkey@),
            final(self).record(pubkey@) == Some(
                bounded(
                    apply_update(
                        old(self).record_or_fresh(pubkey@),
                        ReputationUpdate::TaskOutcome {
                            state: task_state,
                            reward_sats,
                            on_time: completed_on_time,
                        },
                    ),
                    old(self).min(),
                    old(self).max(),
                ),
            ),
            r matches Ok(x) && Some(x@) == final(self).record(pubkey@),
    {
        self.update_reputation(
            pubkey,
            ReputationUpdate::TaskOutcome {
                state: task_state,
                reward_sats,
                on_time: completed_on_time,
            },
        )
    }

    /// Update the reputation of an identity for creating a task.
    pub fn update_for_task_creation(&mut self, pubkey: &str, reward_sats: i64) -> (r:
        EscrowResult<Reputation>)
        requires
            old(self).wf(),
        ensures
            final(self).wf(),
            old(self).changes_only(&*final(self), pubkey@),
            final(self).record(pubkey@) == Some(
                bounded(
                    apply_update(
                        old(self).record_or_fresh(pubkey@),
                        ReputationUpdate::TaskCreated { reward_sats },
                    ),
                    old(self).min(),
                    old(self).max(),
                ),
            ),
            r matches Ok(x) && Some(x@) == final(self).record(pubkey@),
    {
        self.update_reputation(pubkey, ReputationUpdate::TaskCreated { reward_sats })
    }

    /// Update both parties of a resolved dispute: one win or loss each, and
    /// the penalty for the loser.
    pub fn update_for_dispute_resolution(
        &mut self,
        employer_pubkey: &str,
        worker_pubkey: &str,
        employer_won: bool,
        penalty_points: i32,
    ) -> (r: EscrowResult<(Reputation, Reputation)>)
        requires
            old(self).wf(),
        ensures
            final(self).wf(),
            employer_pubkey@ != worker_pubkey@ ==> final(self).record(employer_pubkey@) == Some(
                bounded(
                    apply_update(
                        old(self).record_or_fresh(employer_pubkey@),
                        if employer_won {
                            ReputationUpdate::DisputeWon
                        } else {
                            ReputationUpdate::DisputeLost { penalty_points }
                        },
                    ),
                    old(self).min(),
                    old(self).max(),
                ),
            ),
            employer_pubkey@ != worker_pubkey@ ==> final(self).record(worker_pubkey@) == Some(
                bounded(
                    apply_update(
                        old(self).record_or_fresh(worker_pubkey@),
                        if employer_won {
                            ReputationUpdate::DisputeLost { penalty_points }
                        } else {
                            ReputationUpdate::DisputeWon
                        },
                    ),
                    old(self).min(),
                    old(self).max(),
                ),
            ),
            r matches Ok((e, w)) && Some(w@) == final(self).record(worker_pubkey@),
            employer_pubkey@ != worker_pubkey@ ==> (r matches Ok((e, w)) && Some(e@) == final(self).record(employer_pubkey@)),
    {
        let employer_update = if employer_won {
            ReputationUpdate::DisputeWon
        } else {
            ReputationUpdate::DisputeLost { penalty_points }
        };
        let worker_update = if employer_won {
            ReputationUpdate::DisputeLost { penalty_points }
        } else {
            ReputationUpdate::DisputeWon
        };
        let ghost start = *self;
        let employer_rep = match self.update_reputation(employer_pubkey, employer_update) {
            Ok(x) => x,
            Err(e) => {
                return Err(e);
            },
        };
        let ghost mid = *self;
        let worker_rep = match self.update_reputation(worker_pubkey, worker_update) {
            Ok(x) => x,
            Err(e) => {
                return Err(e);
            },
        };
        proof {
            if employer_pubkey@ != worker_pubkey@ {
                assert(mid.record_or_fresh(worker_pubkey@) == start.record_or_fresh(
                    worker_pubkey@,
                )) by {
                    lemma_other_record(&start, &mid, employer_pubkey@, worker_pubkey@);
                }
                lemma_other_record(&mid, self, worker_pubkey@, employer_pubkey@);
            }
        }
        Ok((employer_rep, worker_rep))
    }

    /// The records with the best scores, best first, at most `limit` of
    /// them.
    pub fn get_top_users(&self, limit: usize) -> (r: EscrowResult<Vec<Reputation>>)
        requires
            self.wf(),
        ensures
            r matches Ok(v) && is_top(self.records(), v@, limit),
    {
        let n = self.reputations.len();
        let k: usize = if limit < n {
            limit
        } else {
            n
        };
        let mut taken: Vec<bool> = Vec::new();
        let mut t: usize = 0;
        while t < n
            invariant
                t <= n,
                taken@.len() == t,
                forall|j: int| 0 <= j < t ==> !taken@[j],
            decreases n - t,
        {
            taken.push(false);
            t = t + 1;
        }
        let mut out: Vec<Reputation> = Vec::new();
        let ghost mut idx: Seq<int> = Seq::empty();
        while out.len() < k
            invariant
                self.wf(),
                n == self.records().len(),
                k <= n,
                k == (if limit < n {
                    limit
                } else {
                    n
                }),
                taken@.len() == n,
                out@.len() == idx.len(),
                out@.len() <= k,
                idx.no_duplicates(),
                forall|i: int|
                    0 <= i < idx.len() ==> 0 <= #[trigger] idx[i] < n && taken@[idx[i]]
                        && out@[i]@ == self.records()[idx[i]]@,
                forall|j: int| 0 <= j < n && #[trigger] taken@[j] ==> idx.contains(j),
                forall|i: int, j: int|
                    0 <= i < j < out@.len() ==> (#[trigger] out@[i]).score >= (#[trigger] out@[j]).score,
                forall|j: int|
                    0 <= j < n && !#[trigger] taken@[j] && out@.len() > 0 ==> self.records()[j].score
                        <= out@.last().score,
            decreases k - out@.len(),
        {
            proof {
                if forall|j: int| 0 <= j < n ==> #[trigger] taken@[j] {
                    vstd::set_lib::lemma_int_range(0, n as int);
                    idx.unique_seq_to_set();
                    assert forall|x: int|
                        #[trigger] vstd::set_lib::set_int_range(0, n as int).contains(
                            x,
                        ) implies idx.to_set().contains(x) by {
                        assert(taken@[x]);
                    }
                    assert(vstd::set_lib::set_int_range(0, n as int).subset_of(idx.to_set()));
                    vstd::set_lib::lemma_len_subset(
                        vstd::set_lib::set_int_range(0, n as int),
                        idx.to_set(),
                    );
                }
            }
            let mut best: usize = n;
            let mut j: usize = 0;
            while j < n
                invariant
                    j <= n,
                    taken@.len() == n,
                    n == self.records().len(),
                    best == n || (best < j && !taken@[best as int]),
                    best < n ==> forall|q: int|
                        0 <= q < j && !#[trigger] taken@[q] ==> self.records()[q].score
                            <= self.records()[best as int].score,
                    best == n ==> forall|q: int| 0 <= q < j ==> #[trigger] taken@[q],
                decreases n - j,
            {
                if !taken[j] && (best == n || self.reputations[j].score
                    > self.reputations[best].score) {
                    best = j;
                }
                j = j + 1;
            }
            let ghost old_taken = taken@;
            let ghost old_out = out@;
            taken.set(best, true);
            let c = self.reputations[best].clone();
            assert(c@.badges =~= self.records()[best as int]@.badges);
            out.push(c);
            proof {
                assert(!idx.contains(best as int));
                let ghost old_idx = idx;
                idx = idx.push(best as int);
                assert forall|q: int| 0 <= q < n && #[trigger] taken@[q] implies idx.contains(q) by {
                    if q != best as int {
                        assert(old_taken[q]);
                        assert(old_idx.contains(q));
                        let w = choose|w: int| 0 <= w < old_idx.len() && old_idx[w] == q;
                        assert(idx[w] == q);
                    } else {
                        assert(idx[idx.len() - 1] == q);
                    }
                }
                assert forall|a: int, b: int| 0 <= a < b < out@.len() implies (#[trigger] out@[a]).score
                    >= (#[trigger] out@[b]).score by {
                    if b == out@.len() - 1 && a < b {
                        assert(out@[a] == old_out[a]);
                        if old_out.len() > 0 {
                            assert(old_out[a].score >= old_out.last().score || a == old_out.len() - 1);
                        }
                    }
                }
            }
        }
        assert forall|q: int|
            0 <= q < self.records().len() && !idx.contains(q) && out@.len() > 0 implies #[trigger] self.records()[q].score
            <= out@.last().score by {
            assert(!taken@[q]);
        }
        assert(is_top_list(self.records(), out@, limit, idx));
        assert(is_top(self.records(), out@, limit));
        Ok(out)
    }

    /// The records whose tier is `tier`, in record order.
    pub fn get_users_by_tier(&self, tier: &str) -> (r: EscrowResult<Vec<Reputation>>)
        requires
            self.wf(),
        ensures
            r matches Ok(v) && v@.map_values(|x: Reputation| x@) == with_tier(self.records(), tier@),
    {
        let key = String::from_str(tier);
        let mut out: Vec<Reputation> = Vec::new();
        let mut i: usize = 0;
        while i < self.reputations.len()
            invariant
                i <= self.records().len(),
                key@ == tier@,
                out@.map_values(|x: Reputation| x@) == with_tier(
                    self.records().subrange(0, i as int),
                    tier@,
                ),
            decreases self.records().len() - i,
        {
            let ghost prefix = self.records().subrange(0, i as int);
            assert(self.records().subrange(0, i + 1).drop_last() =~= prefix);
            if self.reputations[i].tier == key {
                let c = self.reputations[i].clone();
                assert(c@.badges =~= self.records()[i as int]@.badges);
                out.push(c);
                assert(out@.map_values(|x: Reputation| x@) =~= with_tier(prefix, tier@).push(
                    self.records()[i as int]@,
                ));
            }
            i = i + 1;
        }
        assert(self.records().subrange(0, self.records().len() as int) =~= self.records());
        Ok(out)
    }

    /// Statistics over all records: their number, the average score
    /// (rounded toward zero), and the number of records in each tier band.
    pub fn get_reputation_stats(&self) -> (r: EscrowResult<ReputationStats>)
        requires
            self.wf(),
        ensures
            r matches Ok(st) && st.total_users == self.records().len() && (if self.records().len()
                == 0 {
                st.avg_score == 0 && st.tier_distribution@.len() == 0
            } else {
                &&& st.avg_score == sum_scores(self.records()) / self.records().len() as int
                &&& st.tier_distribution@.len() == 6
                &&& forall|k: int|
                    0 <= k < 6 ==> (#[trigger] st.tier_distribution@[k]).0@ == tier_of(
                        band_floor(k),
                    ) && st.tier_distribution@[k].1 == count_tier(
                        self.records(),
                        tier_of(band_floor(k)),
                    )
            }),
    {
        let n = self.reputations.len();
        if n == 0 {
            return Ok(ReputationStats::default());
        }
        let mut sum: i128 = 0;
        let mut i: usize = 0;
        while i < n
            invariant
                self.wf(),
                n == self.records().len(),
                i <= n,
                sum == sum_scores(self.records().subrange(0, i as int)),
                self.min() * i <= sum <= self.max() * i,
            decreases n - i,
        {
            assert(self.records().subrange(0, i + 1).drop_last() =~= self.records().subrange(
                0,
                i as int,
            ));
            let s = self.reputations[i].score;
            assert(self.min() * (i + 1) == self.min() * i + self.min()) by (nonlinear_arith);
            assert(self.max() * (i + 1) == self.max() * i + self.max()) by (nonlinear_arith);
            assert(-0x8000_0000 * 0x1_0000_0000_0000_0000 <= self.min() * i && self.max() * i
                <= 0x8000_0000 * 0x1_0000_0000_0000_0000) by (nonlinear_arith)
                requires
                    -0x8000_0000 <= self.min() <= self.max() <= 0x8000_0000,
                    0 <= i < 0x1_0000_0000_0000_0000,
            ;
            sum = sum + s as i128;
            i = i + 1;
        }
        assert(self.records().subrange(0, n as int) =~= self.records());
        assert(-0x8000_0000 * 0x1_0000_0000_0000_0000 <= self.min() * n && self.max() * n
            <= 0x8000_0000 * 0x1_0000_0000_0000_0000) by (nonlinear_arith)
            requires
                -0x8000_0000 <= self.min() <= self.max() <= 0x8000_0000,
                0 <= n < 0x1_0000_0000_0000_0000,
        ;
        let avg = floor_div(sum, n as i128);
        assert(self.min() <= avg <= self.max()) by (nonlinear_arith)
            requires
                self.min() * n <= sum <= self.max() * n,
                n > 0,
                avg as int == sum as int / n as int,
                self.min() <= self.max(),
        ;
        let mut dist: Vec<(String, usize)> = Vec::new();
        let mut k: usize = 0;
        while k < 6
            invariant
                k <= 6,
                n == self.records().len(),
                dist@.len() == k,
                forall|j: int|
                    0 <= j < k ==> (#[trigger] dist@[j]).0@ == tier_of(band_floor(j)) && dist@[j].1
                        == count_tier(self.records(), tier_of(band_floor(j))),
            decreases 6 - k,
        {
            let name = tier_name(band_floor_of(k));
            let c = self.count_in_tier(&name);
            dist.push((name, c));
            k = k + 1;
        }
        Ok(ReputationStats { total_users: n, avg_score: avg as i32, tier_distribution: dist })
    }

    /// How many records have tier `tier`.
    fn count_in_tier(&self, tier: &String) -> (r: usize)
        ensures
            r == count_tier(self.records(), tier@),
    {
        let mut c: usize = 0;
        let mut i: usize = 0;
        while i < self.reputations.len()
            invariant
                i <= self.records().len(),
                c == count_tier(self.records().subrange(0, i as int), tier@),
                c <= i,
            decreases self.records().len() - i,
        {
            assert(self.records().subrange(0, i + 1).drop_last() =~= self.records().subrange(
                0,
                i as int,
            ));
            if self.reputations[i].tier == *tier {
                c = c + 1;
            }
            i = i + 1;
        }
        assert(self.records().subrange(0, self.records().len() as int) =~= self.records());
        c
    }

    /// Whether an identity's score (after decay on read) is at least
    /// `min_score`.
    pub fn check_reputation_requirement(&mut self, pubkey: &str, min_score: i32) -> (r:
        EscrowResult<bool>)
        requires
            old(self).wf(),
        ensures
            final(self).wf(),
            old(self).changes_only(&*final(self), pubkey@),
            final(self).record(pubkey@) matches Some(v) && r matches Ok(b) && b == (v.score
                >= min_score),
    {
        let rep = self.get_reputation(pubkey)?;
        Ok(rep.score >= min_score)
    }

    /// The tier of an identity (after decay on read).
    pub fn get_user_tier(&mut self, pubkey: &str) -> (r: EscrowResult<String>)
        requires
            old(self).wf(),
        ensures
            final(self).wf(),
            old(self).changes_only(&*final(self), pubkey@),
            final(self).record(pubkey@) matches Some(v) && r matches Ok(t) && t@ == v.tier,
    {
        let rep = self.get_reputation(pubkey)?;
        Ok(rep.tier)
    }

    /// Award a badge to an identity; a badge it already holds is not added
    /// twice.
    pub fn award_badge(&mut self, pubkey: &str, badge: String) -> (r: EscrowResult<Reputation>)
        requires
            old(self).wf(),
        ensures
            final(self).wf(),
            old(self).changes_only(&*final(self), pubkey@),
            final(self).record(pubkey@) == Some(
                bounded(
                    ReputationView {
                        badges: if old(self).record_or_fresh(pubkey@).badges.contains(badge@) {
                            old(self).record_or_fresh(pubkey@).badges
                        } else {
                            old(self).record_or_fresh(pubkey@).badges.push(badge@)
                        },
                        ..old(self).record_or_fresh(pubkey@)
                    },
                    old(self).min(),
                    old(self).max(),
                ),
            ),
            r matches Ok(x) && Some(x@) == final(self).record(pubkey@),
    {
        let i = self.find_or_create(pubkey);
        let mut rep = self.reputations[i].clone();
        let ghost pre = rep@;
        assert(pre.badges =~= self.records()[i as int]@.badges);
        let mut found = false;
        let mut j: usize = 0;
        while j < rep.badges.len()
            invariant
                j <= rep.badges@.len(),
                rep@ == pre,
                found == exists|t: int| 0 <= t < j && rep.badges@[t]@ == badge@,
            decreases rep.badges@.len() - j,
        {
            if rep.badges[j] == badge {
                found = true;
            }
            j = j + 1;
        }
        proof {
            if found {
                let t = choose|t: int| 0 <= t < j && rep.badges@[t]@ == badge@;
                assert(pre.badges[t] == badge@);
            } else {
                assert forall|t: int| 0 <= t < pre.badges.len() implies pre.badges[t] != badge@ by {
                    assert(pre.badges[t] == rep.badges@[t]@);
                }
            }
        }
        if !found {
            rep.badges.push(badge);
            assert(rep@.badges =~= pre.badges.push(badge@));
        }
        rep.last_active_at = now_secs();
        let out = self.put_bounded(i, rep);
        proof {
            lemma_index_of(self, i as int);
        }
        Ok(out)
    }

    /// Apply penalty points to an identity: the score drops by as many
    /// points (within bounds), and at 100 accumulated points or more the
    /// identity is suspended for seven days.
    pub fn apply_penalty(&mut self, pubkey: &str, penalty_points: i32, reason: &str) -> (r:
        EscrowResult<Reputation>)
        requires
            old(self).wf(),
        ensures
            final(self).wf(),
            old(self).changes_only(&*final(self), pubkey@),
            final(self).record(pubkey@) == Some(
                bounded(
                    ReputationView {
                        penalty_points: add_i32(
                            old(self).record_or_fresh(pubkey@).penalty_points,
                            penalty_points as int,
                        ),
                        score: add_i32(
                            old(self).record_or_fresh(pubkey@).score,
                            -(penalty_points as int),
                        ),
                        ..old(self).record_or_fresh(pubkey@)
                    },
                    old(self).min(),
                    old(self).max(),
                ),
            ),
            r matches Ok(x) && Some(x@) == final(self).record(pubkey@),
            r matches Ok(x) ==> (x.penalty_points >= SUSPENSION_THRESHOLD ==> x.suspended_until is Some),
            r matches Ok(x) ==> (x.penalty_points < SUSPENSION_THRESHOLD ==> x.suspended_until == match old(self).index_of(pubkey@) {
                Some(i) => old(self).records()[i].suspended_until,
                None => None,
            }),
    {
        self.apply_penalty_at(pubkey, penalty_points, reason, now_secs())
    }

    /// Apply penalty points to an identity: the score drops by as many
    /// points (within bounds), and at 100 accumulated points or more the
    /// identity is suspended for seven days from `now`.
    pub fn apply_penalty_at(
        &mut self,
        pubkey: &str,
        penalty_points: i32,
        reason: &str,
        now: i64,
    ) -> (r: EscrowResult<Reputation>)
        requires
            old(self).wf(),
        ensures
            final(self).wf(),
            old(self).changes_only(&*final(self), pubkey@),
            final(self).record(pubkey@) == Some(
                bounded(
                    ReputationView {
                        penalty_points: add_i32(
                            old(self).record_or_fresh(pubkey@).penalty_points,
                            penalty_points as int,
                        ),
                        score: add_i32(
                            old(self).record_or_fresh(pubkey@).score,
                            -(penalty_points as int),
                        ),
                        ..old(self).record_or_fresh(pubkey@)
                    },
                    old(self).min(),
                    old(self).max(),
                ),
            ),
            r matches Ok(x) && Some(x@) == final(self).record(pubkey@),
            r matches Ok(x) ==> (x.penalty_points >= SUSPENSION_THRESHOLD ==> x.suspended_until == Some(
                (if now + SUSPENSION_SECS > i64::MAX {
                    i64::MAX as int
                } else {
                    now + SUSPENSION_SECS
                }) as i64,
            )),
            final(self).index_of(pubkey@) matches Some(k) && final(self).records()[k].last_active_at == now,
            r matches Ok(x) ==> (x.penalty_points < SUSPENSION_THRESHOLD ==> x.suspended_until == match old(self).index_of(pubkey@) {
                Some(i) => old(self).records()[i].suspended_until,
                None => None,
            }),
    {
        let i = self.find_or_create(pubkey);
        let mut rep = self.reputations[i].clone();
        assert(rep@.badges =~= self.records()[i as int]@.badges);
        rep.penalty_points = i32_sum(rep.penalty_points, penalty_points as i64);
        rep.score = i32_sum(rep.score, -(penalty_points as i64));
        if rep.penalty_points >= SUSPENSION_THRESHOLD {
            rep.suspended_until = Some(expiry_after(now, SUSPENSION_SECS as u64));
        }
        rep.last_active_at = now;
        let out = self.put_bounded(i, rep);
        proof {
            lemma_index_of(self, i as int);
        }
        Ok(out)
    }

    /// Whether an identity is suspended now.
    pub fn is_user_suspended(&mut self, pubkey: &str) -> (r: EscrowResult<bool>)
        requires
            old(self).wf(),
        ensures
            final(self).wf(),
            old(self).changes_only(&*final(self), pubkey@),
            final(self).index_of(pubkey@) matches Some(i) && r matches Ok(b) && (b
                ==> final(self).records()[i].suspended_until is Some),
    {
        let rep = self.get_reputation(pubkey)?;
        let now = now_secs();
        match rep.suspended_until {
            Some(t) => Ok(now < t),
            None => Ok(false),
        }
    }

    /// Whether decay applies to a record at time `now`: at least one whole
    /// month of inactivity.
    pub fn should_apply_decay(&self, reputation: &Reputation, now: i64) -> (r: bool)
        ensures
            r == (months_inactive(reputation.last_active_at as int, now as int) >= 1),
    {
        months_between(reputation.last_active_at, now) >= 1
    }

    /// Apply inactivity decay to a record at time `now`.
    pub fn apply_decay_at(&self, reputation: &mut Reputation, now: i64)
        ensures
            final(reputation)@ == (ReputationView {
                score: decayed_score(
                    old(reputation).score as int,
                    self.spec_config().decay_rate_bps as int,
                    months_inactive(old(reputation).last_active_at as int, now as int),
                    self.min(), self.max(),
                ),
                tier: final(reputation)@.tier,
                ..old(reputation)@
            }),
            final(reputation).last_active_at == old(reputation).last_active_at,
            final(reputation).suspended_until == old(reputation).suspended_until,
    {
        let months = months_between(reputation.last_active_at, now);
        let rate = self.config.decay_rate_bps;
        assert(0 <= rate as i128 * months as i128 <= 0x1_0000_0000 * 0x8000_0000_0000_0000) by (nonlinear_arith)
            requires
                0 <= rate <= 4294967295,
                0 <= months <= 9223372036854775807,
        ;
        let factor: i128 = rate as i128 * months as i128;
        let score = reputation.score;
        assert(-0x8000_0000 * (0x1_0000_0000 * 0x8000_0000_0000_0000) <= score as i128 * factor
            <= 0x8000_0000 * (0x1_0000_0000 * 0x8000_0000_0000_0000)) by (nonlinear_arith)
            requires
                -0x8000_0000 <= score < 0x8000_0000,
                0 <= factor <= 0x1_0000_0000 * 0x8000_0000_0000_0000,
        ;
        let cut = floor_div(score as i128 * factor, 10000);
        assert(-0x8000_0000 * (0x1_0000_0000 * 0x8000_0000_0000_0000) <= cut
            <= 0x8000_0000 * (0x1_0000_0000 * 0x8000_0000_0000_0000)) by (nonlinear_arith)
            requires
                -0x8000_0000 * (0x1_0000_0000 * 0x8000_0000_0000_0000) <= score as i128 * factor
                    <= 0x8000_0000 * (0x1_0000_0000 * 0x8000_0000_0000_0000),
                cut as int == (score as i128 * factor) as int / 10000,
        ;
        let decayed: i128 = score as i128 - cut;
        reputation.score = if decayed < self.config.min_score as i128 {
            self.config.min_score
        } else if decayed > self.config.max_score as i128 {
            self.config.max_score
        } else {
            decayed as i32
        };
        reputation.calculate_tier();
    }

    /// Apply inactivity decay to every record that has been inactive for a
    /// whole month or more; returns how many were decayed.
    pub fn apply_reputation_decay(&mut self) -> (r: EscrowResult<usize>)
        requires
            old(self).wf(),
        ensures
            final(self).wf(),
            final(self).records().len() == old(self).records().len(),
            exists|now: i64| #[trigger] all_decayed(old(self), final(self), now as int)
                && r == Ok::<usize, EscrowError>(count_stale(old(self).records(), now as int) as usize),
    {
        let now = now_secs();
        let r = self.apply_reputation_decay_at(now);
        assert(all_decayed(old(self), self, now as int));
        r
    }

    /// Apply inactivity decay at time `now` to every record that has been
    /// inactive for a whole month or more, and count those records as active
    /// at `now`; returns how many were decayed. A second sweep at the same
    /// time changes nothing (see `lemma_decay_sweep_idempotent`).
    pub fn apply_reputation_decay_at(&mut self, now: i64) -> (r: EscrowResult<usize>)
        requires
            old(self).wf(),
        ensures
            final(self).wf(),
            final(self).spec_config() == old(self).spec_config(),
            final(self).records().len() == old(self).records().len(),
            all_decayed(old(self), final(self), now as int),
            r == Ok::<usize, EscrowError>(count_stale(old(self).records(), now as int) as usize),
    {
        let mut count: usize = 0;
        let mut i: usize = 0;
        let ghost start = *self;
        while i < self.reputations.len()
            invariant
                self.wf(),
                self.spec_config() == start.spec_config(),
                self.records().len() == start.records().len(),
                i <= self.records().len(),
                count == count_stale(start.records().subrange(0, i as int), now as int),
                count <= i,
                forall|j: int| i <= j < self.records().len() ==> #[trigger] self.records()[j]
                    == start.records()[j],
                forall|j: int| 0 <= j < i ==> #[trigger] decayed_at(start.records()[j], self.records()[j], start.spec_config().decay_rate_bps as int, start.min(), start.max(), now as int),
            decreases self.records().len() - i,
        {
            assert(start.records().subrange(0, i + 1).drop_last() =~= start.records().subrange(
                0,
                i as int,
            ));
            let mut rep = self.reputations[i].clone();
            assert(rep@.badges =~= self.records()[i as int]@.badges);
            if self.should_apply_decay(&rep, now) {
                self.apply_decay_at(&mut rep, now);
                rep.last_active_at = now;
                let _ = self.put_bounded(i, rep);
                count = count + 1;
            } else {
                proof {
                    lemma_no_decay(
                        start.records()[i as int]@,
                        start.spec_config().decay_rate_bps as int,
                        start.min(),
                        start.max(),
                    );
                }
            }
            assert(decayed_at(start.records()[i as int], self.records()[i as int], start.spec_config().decay_rate_bps as int, start.min(), start.max(), now as int));
            i = i + 1;
        }
        assert(start.records().subrange(0, start.records().len() as int) =~= start.records());
        assert(all_decayed(&start, self, now as int));
        Ok(count)
    }
}

/// `after` is `before` decayed at time `now`: by its whole months of
/// inactivity, and, if that is at least one, counted as active at `now`.
pub open spec fn decayed_at(
    before: Reputation,
    after: Reputation,
    rate_bps: int,
    min: int,
    max: int,
    now: int,
) -> bool {
    let m = months_inactive(before.last_active_at as int, now);
    &&& after@ == decayed(before@, rate_bps, m, min, max)
    &&& after.last_active_at == if m >= 1 {
        now
    } else {
        before.last_active_at as int
    }
}

/// The number of records inactive for a whole month or more at `now`.
pub open spec fn count_stale(s: Seq<Reputation>, now: int) -> nat
    decreases s.len(),
{
    if s.len() == 0 {
        0
    } else if months_inactive(s.last().last_active_at as int, now) >= 1 {
        count_stale(s.drop_last(), now) + 1
    } else {
        count_stale(s.drop_last(), now)
    }
}

/// No record is stale when each one was active within a month of `now`.
proof fn lemma_count_stale_zero(s: Seq<Reputation>, now: int)
    requires
        forall|i: int| 0 <= i < s.len() ==> months_inactive(#[trigger] s[i].last_active_at as int, now) == 0,
    ensures
        count_stale(s, now) == 0,
    decreases s.len(),
{
    if s.len() > 0 {
        assert(months_inactive(s[s.len() - 1].last_active_at as int, now) == 0);
        lemma_count_stale_zero(s.drop_last(), now);
    }
}

/// Decay sweeps are idempotent: after a sweep at time `now`, no record is
/// stale at `now`, and decaying any record again at `now` leaves it as it
/// is, so a second sweep at the same time changes nothing and counts zero.
pub proof fn lemma_decay_sweep_idempotent(before: &ReputationIndexer, after: &ReputationIndexer, now: int)
    requires
        after.wf(),
        after.spec_config() == before.spec_config(),
        after.records().len() == before.records().len(),
        all_decayed(before, after, now),
    ensures
        count_stale(after.records(), now) == 0,
        forall|i: int|
            0 <= i < after.records().len() ==> decayed(
                after.records()[i]@,
                after.spec_config().decay_rate_bps as int,
                months_inactive(#[trigger] after.records()[i].last_active_at as int, now),
                after.min(), after.max(),
            ) == after.records()[i]@,
{
    assert forall|i: int| 0 <= i < after.records().len() implies months_inactive(
        #[trigger] after.records()[i].last_active_at as int,
        now,
    ) == 0 by {
        assert(decayed_at(before.records()[i], after.records()[i], before.spec_config().decay_rate_bps as int, before.min(), before.max(), now));
        lemma_no_decay(
            after.records()[i]@,
            after.spec_config().decay_rate_bps as int,
            after.min(),
            after.max(),
        );
    }
    lemma_count_stale_zero(after.records(), now);
}

/// No whole month of inactivity leaves a record within bounds as it is.
proof fn lemma_no_decay(v: ReputationView, rate_bps: int, min: int, max: int)
    requires
        min <= v.score <= max,
        v.tier == tier_of(v.score),
    ensures
        decayed(v, rate_bps, 0, min, max) == v,
{
    assert(v.score * (rate_bps * 0) == 0) by (nonlinear_arith);
}

/// A record after inactivity decay over `months` whole months.
pub open spec fn decayed(v: ReputationView, rate_bps: int, months: int, min: int, max: int) -> ReputationView {
    ReputationView {
        score: decayed_score(v.score, rate_bps, months, min, max),
        tier: tier_of(decayed_score(v.score, rate_bps, months, min, max)),
        ..v
    }
}

/// The views of the records with tier `tier`, in order.
pub open spec fn with_tier(s: Seq<Reputation>, tier: Seq<char>) -> Seq<ReputationView>
    decreases s.len(),
{
    if s.len() == 0 {
        Seq::empty()
    } else if s.last().tier@ == tier {
        with_tier(s.drop_last(), tier).push(s.last()@)
    } else {
        with_tier(s.drop_last(), tier)
    }
}

/// The number of records with tier `tier`.
pub open spec fn count_tier(s: Seq<Reputation>, tier: Seq<char>) -> nat
    decreases s.len(),
{
    if s.len() == 0 {
        0
    } else if s.last().tier@ == tier {
        count_tier(s.drop_last(), tier) + 1
    } else {
        count_tier(s.drop_last(), tier)
    }
}

/// The sum of the scores of the records.
pub open spec fn sum_scores(s: Seq<Reputation>) -> int
    decreases s.len(),
{
    if s.len() == 0 {
        0
    } else {
        sum_scores(s.drop_last()) + s.last().score
    }
}

/// The lowest score of the `k`-th tier band.
pub open spec fn band_floor(k: int) -> int {
    if k == 0 {
        0
    } else if k == 1 {
        100
    } else if k == 2 {
        300
    } else if k == 3 {
        600
    } else if k == 4 {
        800
    } else {
        950
    }
}

/// Whether `v` lists the best records: as many as `limit` allows, best
/// score first, each a distinct record (at the positions `idx`), and no
/// record left out has a better score than the last one listed.
pub open spec fn is_top_list(
    records: Seq<Reputation>,
    v: Seq<Reputation>,
    limit: usize,
    idx: Seq<int>,
) -> bool {
    &&& v.len() == (if limit < records.len() {
        limit as int
    } else {
        records.len() as int
    })
    &&& idx.len() == v.len()
    &&& idx.no_duplicates()
    &&& forall|i: int|
        0 <= i < v.len() ==> 0 <= #[trigger] idx[i] < records.len() && v[i]@ == records[idx[i]]@
    &&& forall|i: int, j: int| 0 <= i < j < v.len() ==> (#[trigger] v[i]).score >= (#[trigger] v[j]).score
    &&& forall|q: int|
        0 <= q < records.len() && !idx.contains(q) && v.len() > 0 ==> #[trigger] records[q].score
            <= v.last().score
}

/// Whether `v` lists the best `limit` records (see `is_top_list`).
pub open spec fn is_top(records: Seq<Reputation>, v: Seq<Reputation>, limit: usize) -> bool {
    exists|idx: Seq<int>| #[trigger] is_top_list(records, v, limit, idx)
}

/// Every record of `after` is the one at the same position of `before`,
/// decayed at time `now` (see `decayed_at`).
pub open spec fn all_decayed(before: &ReputationIndexer, after: &ReputationIndexer, now: int) -> bool {
    forall|i: int|
        0 <= i < before.records().len() ==> #[trigger] decayed_at(
            before.records()[i],
            after.records()[i],
            before.spec_config().decay_rate_bps as int,
            before.min(),
            before.max(),
            now,
        )
}

/// Scores stay within bounds and tiers follow the score alone. Any update
/// ends in `bounded`, whose score lies in `[min, max]` and whose tier is the
/// tier of that score; and in a well-formed indexer, which every operation
/// keeps well-formed, each record's score lies in `[min, max]` and two
/// records with the same score have the same tier, whatever updates led to
/// them.
pub proof fn lemma_score_bounds_and_tier(
    v: ReputationView,
    ix: &ReputationIndexer,
    i: int,
    j: int,
)
    requires
        ix.wf(),
        0 <= i < ix.records().len(),
        0 <= j < ix.records().len(),
    ensures
        ix.min() <= bounded(v, ix.min(), ix.max()).score <= ix.max(),
        bounded(v, ix.min(), ix.max()).tier == tier_of(bounded(v, ix.min(), ix.max()).score),
        ix.min() <= ix.records()[i].score <= ix.max(),
        ix.records()[i].tier@ == tier_of(ix.records()[i].score as int),
        ix.records()[i].score == ix.records()[j].score ==> ix.records()[i].tier@
            == ix.records()[j].tier@,
{
}

/// In a well-formed indexer, the record at position `i` is the one that
/// `index_of` finds for its identity.
proof fn lemma_index_of(ix: &ReputationIndexer, i: int)
    requires
        ix.wf(),
        0 <= i < ix.records().len(),
    ensures
        ix.index_of(ix.records()[i].pubkey@) == Some(i),
{
    let k = ix.records()[i].pubkey@;
    assert(ix.index_of(k) is Some);
}

/// Two well-formed indexers whose records hold the same identities at the
/// same positions find every identity at the same position.
proof fn lemma_same_keys(a: &ReputationIndexer, b: &ReputationIndexer)
    requires
        a.wf(),
        b.wf(),
        a.records().len() == b.records().len(),
        forall|i: int| 0 <= i < a.records().len() ==> #[trigger] a.records()[i].pubkey@ == b.records()[i].pubkey@,
    ensures
        forall|k: Seq<char>| #[trigger] b.index_of(k) == a.index_of(k),
{
    assert forall|k: Seq<char>| #[trigger] b.index_of(k) == a.index_of(k) by {
        if a.index_of(k) is Some {
            let i = a.index_of(k)->0;
            lemma_index_of(a, i);
            lemma_index_of(b, i);
        } else if b.index_of(k) is Some {
            let i = b.index_of(k)->0;
            lemma_index_of(b, i);
            assert(a.records()[i].pubkey@ == k);
        }
    }
}

/// A change of the record of `changed` leaves the record of any other
/// identity as it was.
pub proof fn lemma_other_record(
    a: &ReputationIndexer,
    b: &ReputationIndexer,
    changed: Seq<char>,
    other: Seq<char>,
)
    requires
        a.wf(),
        b.wf(),
        a.changes_only(b, changed),
        changed != other,
        b.record(changed) is Some,
    ensures
        b.record(other) == a.record(other),
        b.record_or_fresh(other) == a.record_or_fresh(other),
{
    if a.index_of(other) is Some {
        let i = a.index_of(other)->0;
        lemma_index_of(a, i);
        assert(b.records()[i] == a.records()[i]);
        lemma_index_of(b, i);
    } else if b.index_of(other) is Some {
        let i = b.index_of(other)->0;
        lemma_index_of(b, i);
        if i < a.records().len() {
            if a.records()[i].pubkey@ != changed {
                assert(b.records()[i] == a.records()[i]);
            } else {
                lemma_index_of(a, i);
            }
        } else {
            let j = b.index_of(changed)->0;
            lemma_index_of(b, j);
            if j < a.records().len() {
                lemma_index_of(a, j);
                assert(a.index_of(changed) is Some);
            }
        }
    }
}

/// Whole months (of 30 days) from `last` to `now`.
fn months_between(last: i64, now: i64) -> (r: i64)
    ensures
        r == months_inactive(last as int, now as int),
        r >= 0,
{
    if now <= last {
        0
    } else {
        let span: i128 = now as i128 - last as i128;
        let q: i128 = span / 2592000;
        assert(0 <= q <= span) by (nonlinear_arith)
            requires
                span > 0,
                q == span / 2592000,
        ;
        q as i64
    }
}

impl Default for ReputationIndexer {
    fn default() -> (r: Self)
        ensures
            r.wf(),
            r.records().len() == 0,
            r.spec_config().initial_score == 500,
            r.spec_config().min_score == 0,
            r.spec_config().max_score == 1000,
            r.spec_config().decay_rate_bps == 500,
    {
        ReputationIndexer::new(ReputationIndexerConfig::default())
    }
}

/// Apply an update to a record, before bounds.
fn apply(rep: &mut Reputation, update: ReputationUpdate)
    ensures
        final(rep)@ == apply_update(old(rep)@, update),
        final(rep).first_seen_at == old(rep).first_seen_at,
        final(rep).suspended_until == old(rep).suspended_until,
{
    match update {
        ReputationUpdate::AdjustScore(d) => {
            rep.score = i32_sum(rep.score, d as i64);
        },
        ReputationUpdate::TaskCreated { reward_sats } => {
            rep.tasks_created = bump_counter(rep.tasks_created);
            let bonus: i64 = if reward_sats <= 0 {
                0
            } else if reward_sats / 50000 > 25 {
                25
            } else {
                reward_sats / 50000
            };
            rep.score = i32_sum(rep.score, bonus);
        },
        ReputationUpdate::TaskOutcome { state, reward_sats, on_time } => {
            let base: i64 = match state {
                TaskState::Paid => 50,
                TaskState::Refunded => -25,
                TaskState::Disputed => -10,
                TaskState::Expired => -5,
                _ => 0,
            };
            let time_bonus: i64 = if on_time { 20 } else { -10 };
            rep.score = i32_sum(rep.score, base + amount_bonus(reward_sats) + time_bonus);
            if state == TaskState::Paid {
                rep.tasks_completed = bump_counter(rep.tasks_completed);
            }
        },
        ReputationUpdate::DisputeWon => {
            rep.disputes_total = bump_counter(rep.disputes_total);
            rep.disputes_won = bump_counter(rep.disputes_won);
        },
        ReputationUpdate::DisputeLost { penalty_points } => {
            rep.disputes_total = bump_counter(rep.disputes_total);
            rep.disputes_lost = bump_counter(rep.disputes_lost);
            rep.penalty_points = i32_sum(rep.penalty_points, penalty_points as i64);
        },
        ReputationUpdate::TaskClaimed => {
            rep.tasks_claimed = bump_counter(rep.tasks_claimed);
        },
        ReputationUpdate::TaskCompleted { reward_sats, on_time } => {
            rep.tasks_completed = bump_counter(rep.tasks_completed);
            rep.total_sats_earned = sats_sum(rep.total_sats_earned, reward_sats);
            let time_bonus: i64 = if on_time { 20 } else { -10 };
            rep.score = i32_sum(rep.score, 50 + amount_bonus(reward_sats) + time_bonus);
        },
        ReputationUpdate::TaskPaidOut { reward_sats } => {
            rep.tasks_funded = bump_counter(rep.tasks_funded);
            rep.total_sats_paid = sats_sum(rep.total_sats_paid, reward_sats);
        },
    }
}

/// The lowest score of the `k`-th tier band.
fn band_floor_of(k: usize) -> (r: i32)
    ensures
        r == band_floor(k as int),
{
    if k == 0 {
        0
    } else if k == 1 {
        100
    } else if k == 2 {
        300
    } else if k == 3 {
        600
    } else if k == 4 {
        800
    } else {
        950
    }
}

/// `a / b` rounded down.
fn floor_div(a: i128, b: i128) -> (r: i128)
    requires
        b > 0,
        i128::MIN < a,
    ensures
        r == a as int / b as int,
{
    if a >= 0 {
        a / b
    } else {
        let na: i128 = -a;
        let q: i128 = na / b;
        let rem: i128 = na % b;
        assert(na == q * b + rem && 0 <= rem < b) by (nonlinear_arith)
            requires
                b > 0,
                na >= 0,
                q as int == na as int / b as int,
                rem as int == na as int % b as int,
        ;
        assert(0 <= q <= na) by (nonlinear_arith)
            requires
                na == q * b + rem,
                0 <= rem < b,
                b > 0,
                na >= 0,
        ;
        if rem == 0 {
            proof {
                assert(a == (-q) * b + 0) by (nonlinear_arith)
                    requires
                        na == q * b + rem,
                        rem == 0,
                        na == -a,
                ;
                vstd::arithmetic::div_mod::lemma_fundamental_div_mod_converse(
                    a as int,
                    b as int,
                    -q as int,
                    0,
                );
            }
            -q
        } else {
            proof {
                assert(a == (-q - 1) * b + (b - rem)) by (nonlinear_arith)
                    requires
                        na == q * b + rem,
                        na == -a,
                ;
                vstd::arithmetic::div_mod::lemma_fundamental_div_mod_converse(
                    a as int,
                    b as int,
                    -q - 1,
                    b - rem,
                );
            }
            -q - 1
        }
    }
}

/// A counter after one more event.
fn bump_counter(x: i32) -> (r: i32)
    ensures
        r == bump(x as int),
{
    if x < i32::MAX {
        x + 1
    } else {
        x
    }
}

/// `x + y`, limited to the range of `i32`.
fn i32_sum(x: i32, y: i64) -> (r: i32)
    requires
        -4294967296 <= y <= 4294967296,
    ensures
        r == add_i32(x as int, y as int),
{
    let s: i64 = x as i64 + y;
    if s < i32::MIN as i64 {
        i32::MIN
    } else if s > i32::MAX as i64 {
        i32::MAX
    } else {
        s as i32
    }
}

/// A sum of sats, limited to the range of `i64`.
fn sats_sum(x: i64, y: i64) -> (r: i64)
    ensures
        r == add_sats(x as int, y as int),
{
    let s: i128 = x as i128 + y as i128;
    if s < i64::MIN as i128 {
        i64::MIN
    } else if s > i64::MAX as i128 {
        i64::MAX
    } else {
        s as i64
    }
}

} // verus!
