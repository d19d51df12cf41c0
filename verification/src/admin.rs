//! The single administrative authority and the platform dashboard.
//!
//! The dashboard keeps incrementally recomputed statistics as exact
//! integer sums and counts; every derived average over them equals the
//! incremental weighted mean `(old_avg * n + value) / (n + 1)` computed
//! over exact rationals.

use vstd::prelude::*;

use crate::account::AccountId;
use crate::error::RecruSearchError;
use crate::participant::Participant;
use crate::study::Study;
use crate::study::StudyType;

verus! {

/// Statistics for one study category.
#[derive(Clone, Copy, Debug, PartialEq, Eq, Structural)]
pub struct CategoryStats {
    pub category: StudyType,
    /// Studies of this category folded into the statistics.
    pub study_count: u32,
    /// Enrollees those studies carried when folded in.
    pub participant_count: u32,
    /// Sum of those studies' average ratings, in hundredths.
    pub rating_centi_sum: u64,
}

/// Platform-wide aggregates, as exact sums over the studies folded in.
#[derive(Clone, Copy, Debug, PartialEq, Eq, Structural)]
pub struct PlatformMetrics {
    /// Sum of the folded studies' completion percentages.
    pub completion_percent_sum: u64,
    /// Sum of the folded studies' ages at folding time, in seconds.
    pub duration_seconds_sum: i64,
}

/// Aggregated, incrementally updated platform statistics.
#[derive(Debug)]
pub struct AdminDashboard {
    /// Studies folded into the statistics so far.
    pub total_studies: u32,
    /// Studies currently in `Active` status.
    pub active_studies: u32,
    pub total_participants: u32,
    pub total_researchers: u32,
    pub total_rewards_distributed: u64,
    pub study_categories: Vec<CategoryStats>,
    pub platform_metrics: PlatformMetrics,
}

/// The single privileged principal performing moderation and
/// verification, with the dashboard it maintains.
#[derive(Debug)]
pub struct Admin {
    pub authority: AccountId,
    pub dashboard: AdminDashboard,
    pub verified_researchers: u32,
    pub pending_verifications: u32,
    pub last_updated: i64,
}

/// True when some entry tracks the category.
pub open spec fn has_category(categories: Seq<CategoryStats>, category: StudyType) -> bool {
    exists|i: int| 0 <= i < categories.len() && categories[i].category == category
}

/// The study's age at folding time, in seconds.
pub open spec fn study_elapsed(study: Study, now: i64) -> int {
    now - study.created_at
}

/// What one study contributes to a category entry.
pub open spec fn entry_absorbing(entry: CategoryStats, study: Study) -> CategoryStats {
    CategoryStats {
        study_count: (entry.study_count + 1) as u32,
        participant_count: (entry.participant_count + study.current_participants) as u32,
        rating_centi_sum: (entry.rating_centi_sum
            + study.analytics.spec_average_rating_centi()) as u64,
        ..entry
    }
}

/// The contributions to one category entry stay in range.
pub open spec fn entry_can_absorb(entry: CategoryStats, study: Study) -> bool {
    &&& entry.study_count < u32::MAX
    &&& entry.participant_count + study.current_participants <= u32::MAX
    &&& entry.rating_centi_sum + study.analytics.spec_average_rating_centi() <= u64::MAX
}

/// The contributions to the platform-wide sums stay in range.
pub open spec fn platform_can_absorb(dashboard: AdminDashboard, study: Study, now: i64) -> bool {
    &&& dashboard.total_studies < u32::MAX
    &&& dashboard.platform_metrics.completion_percent_sum
        + study.spec_completion_rate_percent() <= u64::MAX
    &&& i64::MIN <= dashboard.platform_metrics.duration_seconds_sum + study_elapsed(study, now)
        <= i64::MAX
}

/// The contributions to the study's category entry stay in range; a new
/// category always fits.
pub open spec fn category_can_absorb(categories: Seq<CategoryStats>, study: Study) -> bool {
    has_category(categories, study.category) ==> exists|i: int|
        {
            &&& 0 <= i < categories.len()
            &&& categories[i].category == study.category
            &&& (forall|j: int| 0 <= j < i ==> categories[j].category != study.category)
            &&& entry_can_absorb(categories[i], study)
        }
}

/// How a successful fold changes the dashboard: the study is counted,
/// its figures join its category's entry — a fresh entry at the end of
/// the list when the category is new — and the platform sums take its
/// completion percentage and age.
pub open spec fn dashboard_absorbs(
    pre: AdminDashboard,
    post: AdminDashboard,
    study: Study,
    now: i64,
) -> bool {
    &&& post.total_studies == pre.total_studies + 1
    &&& post.active_studies == pre.active_studies
    &&& post.total_participants == pre.total_participants
    &&& post.total_researchers == pre.total_researchers
    &&& post.total_rewards_distributed == pre.total_rewards_distributed
    &&& post.platform_metrics.completion_percent_sum == pre.platform_metrics.completion_percent_sum
        + study.spec_completion_rate_percent()
    &&& post.platform_metrics.duration_seconds_sum == pre.platform_metrics.duration_seconds_sum
        + study_elapsed(study, now)
    &&& if !has_category(pre.study_categories@, study.category) {
        post.study_categories@ == pre.study_categories@.push(
            CategoryStats {
                category: study.category,
                study_count: 1u32,
                participant_count: study.current_participants,
                rating_centi_sum: study.analytics.spec_average_rating_centi() as u64,
            },
        )
    } else {
        exists|i: int|
            {
                &&& 0 <= i < pre.study_categories@.len()
                &&& pre.study_categories@[i].category == study.category
                &&& (forall|j: int|
                    0 <= j < i ==> pre.study_categories@[j].category != study.category)
                &&& post.study_categories@ == pre.study_categories@.update(
                    i,
                    entry_absorbing(pre.study_categories@[i], study),
                )
            }
    }
}

impl Admin {
    /// The administrator record at deployment: everything zeroed.
    pub fn new(authority: AccountId, now: i64) -> (r: Admin)
        ensures
            r.authority == authority,
            r.last_updated == now,
            r.verified_researchers == 0 && r.pending_verifications == 0,
            r.dashboard.total_studies == 0 && r.dashboard.active_studies == 0,
            r.dashboard.total_participants == 0 && r.dashboard.total_researchers == 0,
            r.dashboard.total_rewards_distributed == 0,
            r.dashboard.study_categories@ =~= Seq::<CategoryStats>::empty(),
            r.dashboard.platform_metrics == (PlatformMetrics {
                completion_percent_sum: 0u64,
                duration_seconds_sum: 0i64,
            }),
    {
        Admin {
            authority,
            dashboard: AdminDashboard {
                total_studies: 0,
                active_studies: 0,
                total_participants: 0,
                total_researchers: 0,
                total_rewards_distributed: 0,
                study_categories: Vec::new(),
                platform_metrics: PlatformMetrics {
                    completion_percent_sum: 0,
                    duration_seconds_sum: 0,
                },
            },
            verified_researchers: 0,
            pending_verifications: 0,
            last_updated: now,
        }
    }

    /// True exactly when the actor is the administrative authority.
    pub fn is_authorized(&self, actor: &AccountId) -> (r: bool)
        ensures
            r == (*actor == self.authority),
    {
        actor.value == self.authority.value
    }

    /// Admits exactly the administrative authority; anyone else fails
    /// `UnauthorizedAdmin`.
    pub fn authorize(&self, actor: &AccountId) -> (r: Result<(), RecruSearchError>)
        ensures
            r is Ok <==> *actor == self.authority,
            r is Err ==> (r matches Err(e) && e == RecruSearchError::UnauthorizedAdmin),
    {
        crate::auth::authorize(*actor, crate::auth::RequiredRole::Admin, self.authority)
    }
}

impl AdminDashboard {
    /// Index of the first entry tracking the category.
    pub fn find_category(&self, category: StudyType) -> (r: Option<usize>)
        ensures
            r matches Some(i) ==> i < self.study_categories@.len()
                && self.study_categories@[i as int].category == category && (forall|j: int|
                0 <= j < i ==> self.study_categories@[j].category != category),
            r is None ==> !has_category(self.study_categories@, category),
    {
        let mut i: usize = 0;
        while i < self.study_categories.len()
            invariant
                i <= self.study_categories@.len(),
                forall|j: int| 0 <= j < i ==> self.study_categories@[j].category != category,
            decreases self.study_categories@.len() - i,
        {
            if self.study_categories[i].category == category {
                return Some(i);
            }
            i = i + 1;
        }
        None
    }

    /// Folds one study into the statistics: counts it, adds its
    /// enrollees and average rating to its category entry (creating the
    /// entry at the end of the list when the category is new), and adds
    /// its completion percentage and age to the platform sums.
    ///
    /// Fails with `ArithmeticOverflow` exactly when some sum would leave
    /// its range; on failure nothing changes.
    pub fn update_metrics(&mut self, study: &Study, now: i64) -> (r: Result<
        (),
        RecruSearchError,
    >)
        requires
            study.wf(),
        ensures
            r is Ok <==> platform_can_absorb(*old(self), *study, now) && category_can_absorb(
                old(self).study_categories@,
                *study,
            ),
            r is Ok ==> dashboard_absorbs(*old(self), *final(self), *study, now),
            r is Err ==> *final(self) == *old(self)
                && (r matches Err(e) && e == RecruSearchError::ArithmeticOverflow),
    {
        let completion_percent: u32 = study.completion_rate_percent();
        let average_centi: u64 = study.analytics.average_rating_centi();
        let found = self.find_category(study.category);
        if self.total_studies == u32::MAX {
            return Err(RecruSearchError::ArithmeticOverflow);
        }
        if (completion_percent as u64) > u64::MAX
            - self.platform_metrics.completion_percent_sum {
            return Err(RecruSearchError::ArithmeticOverflow);
        }
        let elapsed: i128 = (now as i128) - (study.created_at as i128);
        let widened_sum: i128 = (self.platform_metrics.duration_seconds_sum as i128) + elapsed;
        if widened_sum < (i64::MIN as i128) || widened_sum > (i64::MAX as i128) {
            return Err(RecruSearchError::ArithmeticOverflow);
        }
        match found {
            Some(i) => {
                let entry = self.study_categories[i];
                if entry.study_count == u32::MAX {
                    return Err(RecruSearchError::ArithmeticOverflow);
                }
                if study.current_participants > u32::MAX - entry.participant_count {
                    return Err(RecruSearchError::ArithmeticOverflow);
                }
                if average_centi > u64::MAX - entry.rating_centi_sum {
                    return Err(RecruSearchError::ArithmeticOverflow);
                }
                let updated = CategoryStats {
                    study_count: entry.study_count + 1,
                    participant_count: entry.participant_count + study.current_participants,
                    rating_centi_sum: entry.rating_centi_sum + average_centi,
                    ..entry
                };
                self.study_categories.set(i, updated);
            },
            None => {
                self.study_categories.push(
                    CategoryStats {
                        category: study.category,
                        study_count: 1,
                        participant_count: study.current_participants,
                        rating_centi_sum: average_centi,
                    },
                );
            },
        }
        self.total_studies = self.total_studies + 1;
        self.platform_metrics.completion_percent_sum = self
            .platform_metrics
            .completion_percent_sum + (completion_percent as u64);
        self.platform_metrics.duration_seconds_sum = widened_sum as i64;
        Ok(())
    }

    /// What `calculate_participant_retention` computes: the share of
    /// the participant's enrollments that were completed, as a whole
    /// percentage, 0 when there are none.
    pub open spec fn spec_retention_percent(participant: Participant) -> int {
        let completed = participant.profile.completed_studies@.len();
        let active = participant.profile.active_studies@.len();
        if completed + active == 0 {
            0
        } else {
            (completed * 100) as int / (completed + active) as int
        }
    }

    /// Share of the participant's enrollments that were completed, as a
    /// whole percentage.
    pub fn calculate_participant_retention(&self, participant: &Participant) -> (r: u32)
        requires
            participant.wf(),
        ensures
            r == AdminDashboard::spec_retention_percent(*participant),
            r <= 100,
    {
        let completed: u64 = participant.completed_studies as u64;
        let active: u64 = participant.active_studies as u64;
        if completed + active == 0 {
            0
        } else {
            let numerator: u64 = completed * 100;
            let q: u64 = numerator / (completed + active);
            assert(q * ((completed + active) as int) <= numerator) by (nonlinear_arith)
                requires
                    q == numerator as int / ((completed + active) as int),
                    completed + active > 0,
            ;
            assert(q <= 100) by (nonlinear_arith)
                requires
                    q * ((completed + active) as int) <= (completed as int) * 100,
                    completed <= completed + active,
                    completed + active > 0,
            ;
            q as u32
        }
    }
}

} // verus!
