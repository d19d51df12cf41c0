//! Study lifecycle: creation, status machine, capacity, progress and
//! feedback.
//!
//! A study is a recruitment campaign owned by a researcher. Its status
//! moves along a fixed legal table, its enrollment counters never leave
//! `0 <= current <= max` with `completed <= current`, and its running
//! rating analytics are kept as exact integer sums so the derived average
//! equals the incremental weighted mean at every step.

use vstd::prelude::*;

use crate::account::AccountId;
use crate::error::RecruSearchError;

verus! {

/// Minimum reputation a study demands of enrollees unless its creator
/// raises it; every new study starts at this threshold.
pub const DEFAULT_MIN_REPUTATION: u32 = 10;

/// Longest feedback text accepted, in characters.
pub const MAX_FEEDBACK_CHARS: usize = 500;

/// Lifecycle states of a study.
#[derive(Clone, Copy, Debug, PartialEq, Eq, Structural)]
pub enum StudyStatus {
    Draft,
    PendingReview,
    Active,
    Inactive,
    Completed,
    Suspended,
}

/// Category of a study.
#[derive(Clone, Copy, Debug, PartialEq, Eq, Structural)]
pub enum StudyType {
    Survey,
    Interview,
    Clinical,
    Observational,
    Experimental,
}

/// An inclusive range of running times, in whole days.
#[derive(Clone, Copy, Debug, PartialEq, Eq, Structural)]
pub struct StudyDuration {
    pub min_days: u32,
    pub max_days: u32,
}

/// Running per-study metrics, kept as exact sums and counts.
///
/// The derived average rating after each submission equals the weighted
/// mean `(old_avg * n + rating) / (n + 1)` computed over exact rationals,
/// because the sum and count are updated exactly.
#[derive(Clone, Copy, Debug, PartialEq, Eq, Structural)]
pub struct StudyAnalytics {
    /// Number of enrollments over the study's whole life.
    pub total_participants: u32,
    /// Sum of all submitted ratings.
    pub rating_sum: u64,
    /// Number of submitted ratings.
    pub rating_count: u32,
}

/// A recruitment campaign with capacity and reward terms.
#[derive(Debug)]
pub struct Study {
    /// Address of this study record in the host's store.
    pub id: AccountId,
    /// The researcher identity that owns the study.
    pub owner: AccountId,
    pub title: String,
    pub description: String,
    /// Hash of the eligibility criteria document; opaque text.
    pub criteria_hash: String,
    /// Tokens awarded to a participant for completing the study.
    pub reward_amount: u64,
    pub max_participants: u32,
    pub current_participants: u32,
    pub completed_participants: u32,
    /// Number of enrollees currently holding an active consent for this
    /// study.
    pub consented_participants: u32,
    pub status: StudyStatus,
    pub category: StudyType,
    /// Least reputation score the eligibility predicate accepts.
    pub min_reputation_score: u32,
    pub created_at: i64,
    pub analytics: StudyAnalytics,
}

impl StudyAnalytics {
    /// Sums and counts agree: no rating exceeds 5, so the sum is bounded
    /// by five per rating.
    pub open spec fn wf(self) -> bool {
        self.rating_sum <= 5 * self.rating_count
    }

    pub open spec fn spec_average_rating_centi(self) -> u64 {
        if self.rating_count == 0 {
            0
        } else {
            ((self.rating_sum * 100) as int / (self.rating_count as int)) as u64
        }
    }

    /// Average of all submitted ratings in hundredths, 0 when none was
    /// submitted.
    pub fn average_rating_centi(&self) -> (r: u64)
        requires
            self.wf(),
        ensures
            r == self.spec_average_rating_centi(),
            r <= 500,
    {
        if self.rating_count == 0 {
            0
        } else {
            assert(self.rating_sum * 100 <= 5 * (self.rating_count as u64) * 100) by (nonlinear_arith)
                requires
                    self.rating_sum <= 5 * self.rating_count,
            ;
            assert(5 * (self.rating_count as u64) * 100 <= 500 * 0xffff_ffffu64) by (nonlinear_arith)
                requires
                    self.rating_count <= 0xffff_ffffu64,
            ;
            let q: u64 = self.rating_sum * 100 / (self.rating_count as u64);
            assert(q * (self.rating_count as int) <= self.rating_sum * 100) by (nonlinear_arith)
                requires
                    q == self.rating_sum * 100 as int / (self.rating_count as int),
                    self.rating_count > 0,
            ;
            assert(q <= 500) by (nonlinear_arith)
                requires
                    q * (self.rating_count as int) <= 5 * (self.rating_count as int) * 100,
                    self.rating_count > 0,
            ;
            q
        }
    }
}

/// The legal table of status changes. Any pair not listed is refused.
pub open spec fn status_transition_allowed(from: StudyStatus, to: StudyStatus) -> bool {
    match (from, to) {
        (StudyStatus::Draft, StudyStatus::PendingReview) => true,
        (StudyStatus::PendingReview, StudyStatus::Active) => true,
        (StudyStatus::Active, StudyStatus::Inactive) => true,
        (StudyStatus::Active, StudyStatus::Completed) => true,
        (StudyStatus::Active, StudyStatus::Suspended) => true,
        (StudyStatus::Suspended, StudyStatus::Active) => true,
        _ => false,
    }
}

/// Decides the legal table of status changes.
pub fn transition_allowed(from: StudyStatus, to: StudyStatus) -> (r: bool)
    ensures
        r == status_transition_allowed(from, to),
{
    match (from, to) {
        (StudyStatus::Draft, StudyStatus::PendingReview) => true,
        (StudyStatus::PendingReview, StudyStatus::Active) => true,
        (StudyStatus::Active, StudyStatus::Inactive) => true,
        (StudyStatus::Active, StudyStatus::Completed) => true,
        (StudyStatus::Active, StudyStatus::Suspended) => true,
        (StudyStatus::Suspended, StudyStatus::Active) => true,
        _ => false,
    }
}

impl Study {
    /// Capacity and completion counters are in bounds, and the rating
    /// sums agree.
    pub open spec fn wf(self) -> bool {
        &&& self.current_participants <= self.max_participants
        &&& self.completed_participants <= self.current_participants
        &&& self.analytics.wf()
    }

    /// Checks the counter bounds of this record.
    pub fn is_well_formed(&self) -> (r: bool)
        ensures
            r == self.wf(),
    {
        self.current_participants <= self.max_participants
            && self.completed_participants <= self.current_participants
            && self.analytics.rating_sum <= 5 * (self.analytics.rating_count as u64)
    }

    /// What `completion_rate_percent` computes.
    pub open spec fn spec_completion_rate_percent(self) -> int {
        if self.current_participants == 0 {
            0
        } else {
            (self.completed_participants * 100) as int / (self.current_participants as int)
        }
    }

    /// Share of current enrollees who completed the study, as a whole
    /// percentage; 0 for an empty study.
    pub fn completion_rate_percent(&self) -> (r: u32)
        requires
            self.wf(),
        ensures
            r == self.spec_completion_rate_percent(),
            r <= 100,
    {
        if self.current_participants == 0 {
            0
        } else {
            let numerator: u64 = (self.completed_participants as u64) * 100;
            let q: u64 = numerator / (self.current_participants as u64);
            assert(q * (self.current_participants as int) <= numerator) by (nonlinear_arith)
                requires
                    q == numerator as int / (self.current_participants as int),
                    self.current_participants > 0,
            ;
            assert(q <= 100) by (nonlinear_arith)
                requires
                    q * (self.current_participants as int) <= (self.completed_participants as int)
                        * 100,
                    self.completed_participants <= self.current_participants,
                    self.current_participants > 0,
            ;
            q as u32
        }
    }

    /// Builds a new study in `Draft` status with all counters zero.
    ///
    /// Fails with `InvalidStudyParameters` exactly when the title, the
    /// description or the criteria hash is empty.
    pub fn create(
        id: AccountId,
        owner: AccountId,
        title: String,
        description: String,
        criteria_hash: String,
        reward_amount: u64,
        max_participants: u32,
        category: StudyType,
        now: i64,
    ) -> (r: Result<Study, RecruSearchError>)
        ensures
            r is Ok <==> title@.len() > 0 && description@.len() > 0 && criteria_hash@.len() > 0,
            r is Err ==> (r matches Err(e) && e == RecruSearchError::InvalidStudyParameters),
            r matches Ok(s) ==> (s == (Study {
                id,
                owner,
                title,
                description,
                criteria_hash,
                reward_amount,
                max_participants,
                current_participants: 0u32,
                completed_participants: 0u32,
                consented_participants: 0u32,
                status: StudyStatus::Draft,
                category,
                min_reputation_score: DEFAULT_MIN_REPUTATION,
                created_at: now,
                analytics: StudyAnalytics { total_participants: 0u32, rating_sum: 0u64, rating_count: 0u32 },
            })),
            r matches Ok(s) ==> s.wf(),
    {
        if title.as_str().is_empty() || description.as_str().is_empty()
            || criteria_hash.as_str().is_empty() {
            return Err(RecruSearchError::InvalidStudyParameters);
        }
        Ok(Study {
            id,
            owner,
            title,
            description,
            criteria_hash,
            reward_amount,
            max_participants,
            current_participants: 0,
            completed_participants: 0,
            consented_participants: 0,
            status: StudyStatus::Draft,
            category,
            min_reputation_score: DEFAULT_MIN_REPUTATION,
            created_at: now,
            analytics: StudyAnalytics { total_participants: 0, rating_sum: 0, rating_count: 0 },
        })
    }

    /// Moves the study along the legal status table, changing nothing
    /// else; any pair outside the table fails `InvalidStatusTransition`.
    pub fn transition(&mut self, new_status: StudyStatus) -> (r: Result<(), RecruSearchError>)
        ensures
            r is Ok <==> status_transition_allowed(old(self).status, new_status),
            r is Ok ==> *final(self) == (Study { status: new_status, ..*old(self) }),
            r is Err ==> *final(self) == *old(self)
                && (r matches Err(e) && e == RecruSearchError::InvalidStatusTransition),
    {
        if transition_allowed(self.status, new_status) {
            self.status = new_status;
            Ok(())
        } else {
            Err(RecruSearchError::InvalidStatusTransition)
        }
    }

    /// True exactly when an enrollment would be accepted.
    pub open spec fn accepts_participants(self) -> bool {
        self.status == StudyStatus::Active && self.current_participants < self.max_participants
    }

    /// Refuses enrollment with `StudyInactive` when the study is not
    /// active, with `StudyFull` when it is at capacity.
    pub fn can_accept_participants(&self) -> (r: Result<(), RecruSearchError>)
        ensures
            r is Ok <==> self.accepts_participants(),
            self.status != StudyStatus::Active ==> (r matches Err(e)
                && e == RecruSearchError::StudyInactive),
            self.status == StudyStatus::Active && self.current_participants
                >= self.max_participants ==> (r matches Err(e) && e == RecruSearchError::StudyFull),
    {
        if !matches!(self.status, StudyStatus::Active) {
            return Err(RecruSearchError::StudyInactive);
        }
        if self.current_participants >= self.max_participants {
            return Err(RecruSearchError::StudyFull);
        }
        Ok(())
    }

    /// Admits one enrollee: raises the live count and the lifetime count.
    ///
    /// Fails like `can_accept_participants`, and with
    /// `ArithmeticOverflow` when the lifetime count cannot grow; on any
    /// failure the study is unchanged.
    pub fn add_participant(&mut self) -> (r: Result<(), RecruSearchError>)
        ensures
            r is Ok <==> old(self).accepts_participants()
                && old(self).analytics.total_participants < u32::MAX,
            r is Ok ==> *final(self) == (Study {
                current_participants: (old(self).current_participants + 1) as u32,
                analytics: (StudyAnalytics {
                    total_participants: (old(self).analytics.total_participants + 1) as u32,
                    ..old(self).analytics
                }),
                ..*old(self)
            }),
            r is Err ==> *final(self) == *old(self),
            old(self).status != StudyStatus::Active ==> (r matches Err(e)
                && e == RecruSearchError::StudyInactive),
            old(self).status == StudyStatus::Active && old(self).current_participants
                >= old(self).max_participants ==> (r matches Err(e)
                && e == RecruSearchError::StudyFull),
            old(self).accepts_participants() && old(self).analytics.total_participants == u32::MAX
                ==> (r matches Err(e) && e == RecruSearchError::ArithmeticOverflow),
            old(self).wf() ==> final(self).wf(),
    {
        self.can_accept_participants()?;
        if self.analytics.total_participants == u32::MAX {
            return Err(RecruSearchError::ArithmeticOverflow);
        }
        self.current_participants = self.current_participants + 1;
        self.analytics.total_participants = self.analytics.total_participants + 1;
        Ok(())
    }

    /// Withdraws one uncompleted enrollee from the live count.
    ///
    /// Fails with `InvalidStudyParameters` when every current enrollee is
    /// already completed (including the empty study), since the completed
    /// count may never exceed the live count.
    pub fn remove_participant(&mut self) -> (r: Result<(), RecruSearchError>)
        ensures
            r is Ok <==> old(self).current_participants > old(self).completed_participants,
            r is Ok ==> *final(self) == (Study {
                current_participants: (old(self).current_participants - 1) as u32,
                ..*old(self)
            }),
            r is Err ==> *final(self) == *old(self)
                && (r matches Err(e) && e == RecruSearchError::InvalidStudyParameters),
            old(self).wf() ==> final(self).wf(),
    {
        if self.current_participants <= self.completed_participants {
            return Err(RecruSearchError::InvalidStudyParameters);
        }
        self.current_participants = self.current_participants - 1;
        Ok(())
    }

    /// Marks one more enrollee completed.
    ///
    /// Fails with `StudyCompletionCriteriaNotMet` when no uncompleted
    /// enrollee is left, which also keeps `completed <= current`.
    pub fn complete_participant(&mut self) -> (r: Result<(), RecruSearchError>)
        ensures
            r is Ok <==> old(self).completed_participants < old(self).current_participants,
            r is Ok ==> *final(self) == (Study {
                completed_participants: (old(self).completed_participants + 1) as u32,
                ..*old(self)
            }),
            r is Err ==> *final(self) == *old(self)
                && (r matches Err(e) && e == RecruSearchError::StudyCompletionCriteriaNotMet),
            old(self).wf() ==> final(self).wf(),
    {
        if self.completed_participants >= self.current_participants {
            return Err(RecruSearchError::StudyCompletionCriteriaNotMet);
        }
        self.completed_participants = self.completed_participants + 1;
        Ok(())
    }

    /// Counts one more enrollee holding an active consent.
    pub fn increment_consent(&mut self) -> (r: Result<(), RecruSearchError>)
        ensures
            r is Ok <==> old(self).consented_participants < u32::MAX,
            r is Ok ==> *final(self) == (Study {
                consented_participants: (old(self).consented_participants + 1) as u32,
                ..*old(self)
            }),
            r is Err ==> *final(self) == *old(self)
                && (r matches Err(e) && e == RecruSearchError::ArithmeticOverflow),
    {
        if self.consented_participants == u32::MAX {
            return Err(RecruSearchError::ArithmeticOverflow);
        }
        self.consented_participants = self.consented_participants + 1;
        Ok(())
    }

    /// Counts one fewer enrollee holding an active consent.
    pub fn decrement_consent(&mut self) -> (r: Result<(), RecruSearchError>)
        ensures
            r is Ok <==> old(self).consented_participants > 0,
            r is Ok ==> *final(self) == (Study {
                consented_participants: (old(self).consented_participants - 1) as u32,
                ..*old(self)
            }),
            r is Err ==> *final(self) == *old(self)
                && (r matches Err(e) && e == RecruSearchError::ArithmeticOverflow),
    {
        if self.consented_participants == 0 {
            return Err(RecruSearchError::ArithmeticOverflow);
        }
        self.consented_participants = self.consented_participants - 1;
        Ok(())
    }

    /// Validates a progress report; the record itself is kept on the
    /// participant. Fails with `InvalidProgress` exactly when the value
    /// exceeds 100; never mutates the study.
    pub fn update_progress(&mut self, progress: u8) -> (r: Result<(), RecruSearchError>)
        ensures
            *final(self) == *old(self),
            r is Ok <==> progress <= 100,
            r is Err ==> (r matches Err(e) && e == RecruSearchError::InvalidProgress),
    {
        if progress > 100 {
            return Err(RecruSearchError::InvalidProgress);
        }
        Ok(())
    }

    /// Folds one rating into the running analytics.
    ///
    /// Fails with `InvalidRating` when the rating is outside 1..=5, then
    /// with `FeedbackTooLong` when the feedback text exceeds
    /// `MAX_FEEDBACK_CHARS` characters, then with `ArithmeticOverflow`
    /// when the rating count cannot grow; on failure nothing changes.
    pub fn submit_feedback(&mut self, rating: u8, feedback: &Option<String>) -> (r: Result<
        (),
        RecruSearchError,
    >)
        requires
            old(self).wf(),
        ensures
            r is Ok <==> (1 <= rating <= 5 && feedback_fits(feedback)
                && old(self).analytics.rating_count < u32::MAX),
            r is Ok ==> *final(self) == (Study {
                analytics: (StudyAnalytics {
                    rating_sum: (old(self).analytics.rating_sum + rating) as u64,
                    rating_count: (old(self).analytics.rating_count + 1) as u32,
                    ..old(self).analytics
                }),
                ..*old(self)
            }),
            r is Err ==> *final(self) == *old(self),
            !(1 <= rating <= 5) ==> (r matches Err(e) && e == RecruSearchError::InvalidRating),
            1 <= rating <= 5 && !feedback_fits(feedback) ==> (r matches Err(e)
                && e == RecruSearchError::FeedbackTooLong),
            1 <= rating <= 5 && feedback_fits(feedback) && old(self).analytics.rating_count
                == u32::MAX ==> (r matches Err(e) && e == RecruSearchError::ArithmeticOverflow),
            final(self).wf(),
    {
        if rating < 1 || rating > 5 {
            return Err(RecruSearchError::InvalidRating);
        }
        match feedback {
            Some(text) => {
                if text.as_str().unicode_len() > MAX_FEEDBACK_CHARS {
                    return Err(RecruSearchError::FeedbackTooLong);
                }
            },
            None => {},
        }
        if self.analytics.rating_count == u32::MAX {
            return Err(RecruSearchError::ArithmeticOverflow);
        }
        assert(self.analytics.rating_sum + rating <= 5 * (self.analytics.rating_count + 1))
            by (nonlinear_arith)
            requires
                self.analytics.rating_sum <= 5 * self.analytics.rating_count,
                rating <= 5,
        ;
        assert(5 * ((self.analytics.rating_count + 1) as u64) <= 5 * 0x1_0000_0000u64)
            by (nonlinear_arith)
            requires
                self.analytics.rating_count < u32::MAX,
        ;
        self.analytics.rating_sum = self.analytics.rating_sum + (rating as u64);
        self.analytics.rating_count = self.analytics.rating_count + 1;
        Ok(())
    }
}

/// True when the optional feedback text is absent or within the length
/// cap.
pub open spec fn feedback_fits(feedback: &Option<String>) -> bool {
    match feedback {
        Some(text) => text@.len() <= MAX_FEEDBACK_CHARS,
        None => true,
    }
}

/// A conjunction of optional criteria for browsing studies; an absent
/// field constrains nothing.
#[derive(Clone, Copy, Debug, PartialEq, Eq, Structural)]
pub struct StudyFilter {
    pub category: Option<StudyType>,
    pub min_reward: Option<u64>,
    pub max_participants: Option<u32>,
    pub is_active: Option<bool>,
    pub created_after: Option<i64>,
    pub duration: Option<StudyDuration>,
}

/// Number of seconds in a whole day.
pub const SECONDS_PER_DAY: i64 = 86400;

impl StudyFilter {
    /// What `matches` decides: every present criterion holds of the
    /// study at time `now`.
    pub open spec fn spec_matches(self, s: Study, now: i64) -> bool {
        &&& (self.category matches Some(c) ==> s.category == c)
        &&& (self.min_reward matches Some(m) ==> s.reward_amount >= m)
        &&& (self.max_participants matches Some(m) ==> s.max_participants <= m)
        &&& (self.is_active matches Some(a) ==> (s.status == StudyStatus::Active) == a)
        &&& (self.created_after matches Some(t) ==> s.created_at >= t)
        &&& (self.duration matches Some(d) ==> d.min_days * SECONDS_PER_DAY <= now
            - s.created_at <= d.max_days * SECONDS_PER_DAY)
    }

    /// Decides whether the study passes every present criterion, taking
    /// the current time for the running-duration criterion.
    pub fn matches(&self, s: &Study, now: i64) -> (r: bool)
        ensures
            r == self.spec_matches(*s, now),
    {
        match self.category {
            Some(c) => {
                if !(s.category == c) {
                    return false;
                }
            },
            None => {},
        }
        match self.min_reward {
            Some(m) => {
                if s.reward_amount < m {
                    return false;
                }
            },
            None => {},
        }
        match self.max_participants {
            Some(m) => {
                if s.max_participants > m {
                    return false;
                }
            },
            None => {},
        }
        match self.is_active {
            Some(a) => {
                let active = matches!(s.status, StudyStatus::Active);
                if active != a {
                    return false;
                }
            },
            None => {},
        }
        match self.created_after {
            Some(t) => {
                if s.created_at < t {
                    return false;
                }
            },
            None => {},
        }
        match self.duration {
            Some(d) => {
                let elapsed: i128 = (now as i128) - (s.created_at as i128);
                assert((d.min_days as i128) * (SECONDS_PER_DAY as i128) <= 0xffff_ffffi128
                    * 86400) by (nonlinear_arith)
                    requires
                        d.min_days <= 0xffff_ffffu32,
                ;
                assert((d.max_days as i128) * (SECONDS_PER_DAY as i128) <= 0xffff_ffffi128
                    * 86400) by (nonlinear_arith)
                    requires
                        d.max_days <= 0xffff_ffffu32,
                ;
                let min_duration: i128 = (d.min_days as i128) * (SECONDS_PER_DAY as i128);
                let max_duration: i128 = (d.max_days as i128) * (SECONDS_PER_DAY as i128);
                if elapsed < min_duration || elapsed > max_duration {
                    return false;
                }
            },
            None => {},
        }
        true
    }
}

} // verus!
