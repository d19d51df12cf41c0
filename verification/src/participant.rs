//! Participant lifecycle: registration, moderation status, enrollment
//! records, eligibility and reputation.
//!
//! A participant's `active_studies` and `completed_studies` counters
//! always equal the number of open and completed enrollment records in
//! the profile; every mutator preserves that bookkeeping.

use vstd::prelude::*;

use crate::account::AccountId;
use crate::error::RecruSearchError;
use crate::study::Study;

verus! {

/// Hard cap on simultaneously open enrollments.
pub const MAX_ACTIVE_STUDIES: u32 = 3;

/// Moderation states of a participant.
#[derive(Clone, Copy, Debug, PartialEq, Eq, Structural)]
pub enum ParticipantStatus {
    Unverified,
    Active,
    Suspended,
    Frozen,
    Banned,
}

/// Moderation actions the administrator can take on a participant.
#[derive(Clone, Copy, Debug, PartialEq, Eq, Structural)]
pub enum ParticipantAction {
    Suspend,
    Unsuspend,
    Ban,
    Freeze,
}

/// The status a moderation action puts the participant in.
pub open spec fn action_target(action: ParticipantAction) -> ParticipantStatus {
    match action {
        ParticipantAction::Suspend => ParticipantStatus::Suspended,
        ParticipantAction::Unsuspend => ParticipantStatus::Active,
        ParticipantAction::Ban => ParticipantStatus::Banned,
        ParticipantAction::Freeze => ParticipantStatus::Frozen,
    }
}

/// The legal table of moderation actions: an active participant can be
/// suspended, frozen or banned, and only a suspended, frozen or banned
/// one can be made active again.
pub open spec fn participant_action_allowed(
    status: ParticipantStatus,
    action: ParticipantAction,
) -> bool {
    match action {
        ParticipantAction::Unsuspend => status == ParticipantStatus::Suspended || status
            == ParticipantStatus::Frozen || status == ParticipantStatus::Banned,
        _ => status == ParticipantStatus::Active,
    }
}

/// An open enrollment of a participant in one study.
#[derive(Clone, Copy, Debug, PartialEq, Eq, Structural)]
pub struct ActiveStudy {
    pub study_id: AccountId,
    pub start_date: i64,
    /// Most recent self-reported progress, 0..=100.
    pub progress: u8,
    pub last_update: i64,
}

/// A finished enrollment of a participant in one study.
#[derive(Debug)]
pub struct CompletedStudy {
    pub study_id: AccountId,
    pub completion_date: i64,
    pub reward_amount: u64,
    pub rating: Option<u8>,
    pub feedback: Option<String>,
}

/// One incentive payment remembered in the participant's own history.
#[derive(Debug)]
pub struct RewardRecord {
    pub study_id: AccountId,
    pub amount: u64,
    pub timestamp: i64,
    pub transaction_id: String,
}

/// Self-maintained profile data and the enrollment record lists.
#[derive(Debug)]
pub struct ParticipantProfile {
    pub age_group: String,
    pub gender: String,
    pub region: String,
    pub interests: Vec<String>,
    pub is_anonymous: bool,
    pub completed_studies: Vec<CompletedStudy>,
    pub active_studies: Vec<ActiveStudy>,
    pub reward_history: Vec<RewardRecord>,
}

/// An individual enrolling in studies, tracked by status and reputation.
#[derive(Debug)]
pub struct Participant {
    /// Address of this participant record in the host's store.
    pub id: AccountId,
    /// The wallet identity that owns and operates this record.
    pub owner: AccountId,
    pub profile: ParticipantProfile,
    /// Hash of the participant's eligibility proof; opaque text.
    pub eligibility_proof: String,
    pub registered_at: i64,
    pub status: ParticipantStatus,
    /// Number of open enrollment records in the profile.
    pub active_studies: u32,
    /// Number of completed enrollment records in the profile.
    pub completed_studies: u32,
    /// True while exactly one active consent names this participant.
    pub has_active_consent: bool,
    pub consent_issued_at: i64,
    pub consent_revoked_at: Option<i64>,
    pub reputation_score: u32,
}

/// True when some open enrollment record names the study.
pub open spec fn has_active_record(records: Seq<ActiveStudy>, study_id: AccountId) -> bool {
    exists|i: int| 0 <= i < records.len() && records[i].study_id == study_id
}

/// True when some completed enrollment record names the study.
pub open spec fn has_completed_record(records: Seq<CompletedStudy>, study_id: AccountId) -> bool {
    exists|i: int| 0 <= i < records.len() && records[i].study_id == study_id
}

/// Points a completed enrollment contributes to the reputation score:
/// ten for the completion and the rating on top, if one was given.
pub open spec fn record_score(record: CompletedStudy) -> int {
    10 + match record.rating {
        Some(rating) => rating as int,
        None => 0,
    }
}

/// Total reputation score earned by a list of completed enrollments.
pub open spec fn reputation_of(records: Seq<CompletedStudy>) -> int
    decreases records.len(),
{
    if records.len() == 0 {
        0
    } else {
        reputation_of(records.drop_last()) + record_score(records.last())
    }
}

impl Participant {
    /// The enrollment counters agree with the record lists.
    pub open spec fn wf(self) -> bool {
        &&& self.active_studies == self.profile.active_studies@.len()
        &&& self.completed_studies == self.profile.completed_studies@.len()
    }

    /// Checks that the enrollment counters agree with the record lists.
    pub fn is_well_formed(&self) -> (r: bool)
        ensures
            r == self.wf(),
    {
        self.active_studies as usize == self.profile.active_studies.len()
            && self.completed_studies as usize == self.profile.completed_studies.len()
    }

    /// Registers a participant: `Unverified`, zeroed counters, empty
    /// profile, no consent.
    pub fn create(id: AccountId, owner: AccountId, eligibility_proof: String, now: i64) -> (r:
        Participant)
        ensures
            r.id == id,
            r.owner == owner,
            r.eligibility_proof == eligibility_proof,
            r.registered_at == now,
            r.status == ParticipantStatus::Unverified,
            r.active_studies == 0 && r.completed_studies == 0,
            !r.has_active_consent,
            r.consent_issued_at == 0 && r.consent_revoked_at is None,
            r.reputation_score == 0,
            r.profile.active_studies@ =~= Seq::<ActiveStudy>::empty(),
            r.profile.completed_studies@ =~= Seq::<CompletedStudy>::empty(),
            r.profile.reward_history@ =~= Seq::<RewardRecord>::empty(),
            r.profile.interests@ =~= Seq::<String>::empty(),
            r.wf(),
    {
        Participant {
            id,
            owner,
            profile: ParticipantProfile {
                age_group: String::new(),
                gender: String::new(),
                region: String::new(),
                interests: Vec::new(),
                is_anonymous: false,
                completed_studies: Vec::new(),
                active_studies: Vec::new(),
                reward_history: Vec::new(),
            },
            eligibility_proof,
            registered_at: now,
            status: ParticipantStatus::Unverified,
            active_studies: 0,
            completed_studies: 0,
            has_active_consent: false,
            consent_issued_at: 0,
            consent_revoked_at: None,
            reputation_score: 0,
        }
    }

    /// Opens an enrollment record for the study and raises the counter.
    ///
    /// Fails with `ArithmeticOverflow` only when the counter cannot
    /// grow; on failure nothing changes.
    pub fn increment_active_studies(&mut self, study_id: AccountId, now: i64) -> (r: Result<
        (),
        RecruSearchError,
    >)
        requires
            old(self).wf(),
        ensures
            r is Ok <==> old(self).active_studies < u32::MAX,
            r is Ok ==> *final(self) == (Participant {
                active_studies: (old(self).active_studies + 1) as u32,
                profile: (ParticipantProfile {
                    active_studies: final(self).profile.active_studies,
                    ..old(self).profile
                }),
                ..*old(self)
            }),
            r is Ok ==> final(self).profile.active_studies@ == old(
                self,
            ).profile.active_studies@.push(
                ActiveStudy { study_id, start_date: now, progress: 0u8, last_update: now },
            ),
            r is Err ==> *final(self) == *old(self)
                && (r matches Err(e) && e == RecruSearchError::ArithmeticOverflow),
            final(self).wf(),
    {
        if self.active_studies == u32::MAX {
            return Err(RecruSearchError::ArithmeticOverflow);
        }
        self.profile.active_studies.push(
            ActiveStudy { study_id, start_date: now, progress: 0, last_update: now },
        );
        self.active_studies = self.active_studies + 1;
        Ok(())
    }

    /// Index of the first open enrollment record naming the study.
    pub fn find_active_record(&self, study_id: AccountId) -> (r: Option<usize>)
        ensures
            r matches Some(i) ==> i < self.profile.active_studies@.len()
                && self.profile.active_studies@[i as int].study_id == study_id && (forall|j: int|
                0 <= j < i ==> self.profile.active_studies@[j].study_id != study_id),
            r is None ==> !has_active_record(self.profile.active_studies@, study_id),
    {
        let mut i: usize = 0;
        while i < self.profile.active_studies.len()
            invariant
                i <= self.profile.active_studies@.len(),
                forall|j: int| 0 <= j < i ==> self.profile.active_studies@[j].study_id != study_id,
            decreases self.profile.active_studies@.len() - i,
        {
            if self.profile.active_studies[i].study_id == study_id {
                return Some(i);
            }
            i = i + 1;
        }
        None
    }

    /// Stores a progress report in the first open enrollment record for
    /// the study.
    ///
    /// Fails with `StudyNotFound` exactly when no such record exists; on
    /// failure nothing changes.
    pub fn update_progress_record(&mut self, study_id: AccountId, progress: u8, now: i64) -> (r:
        Result<(), RecruSearchError>)
        requires
            old(self).wf(),
        ensures
            r is Ok <==> has_active_record(old(self).profile.active_studies@, study_id),
            r is Ok ==> exists|i: int|
                {
                    &&& 0 <= i < old(self).profile.active_studies@.len()
                    &&& old(self).profile.active_studies@[i].study_id == study_id
                    &&& (forall|j: int|
                        0 <= j < i ==> old(self).profile.active_studies@[j].study_id != study_id)
                    &&& *final(self) == (Participant {
                        profile: (ParticipantProfile {
                            active_studies: final(self).profile.active_studies,
                            ..old(self).profile
                        }),
                        ..*old(self)
                    })
                    &&& final(self).profile.active_studies@ == old(
                        self,
                    ).profile.active_studies@.update(
                        i,
                        ActiveStudy {
                            progress,
                            last_update: now,
                            ..old(self).profile.active_studies@[i]
                        },
                    )
                },
            r is Err ==> *final(self) == *old(self)
                && (r matches Err(e) && e == RecruSearchError::StudyNotFound),
            final(self).wf(),
    {
        match self.find_active_record(study_id) {
            Some(i) => {
                let updated = ActiveStudy {
                    progress,
                    last_update: now,
                    ..self.profile.active_studies[i]
                };
                self.profile.active_studies.set(i, updated);
                Ok(())
            },
            None => Err(RecruSearchError::StudyNotFound),
        }
    }

    /// Closes the first open enrollment record for the study: removes
    /// it, appends a completed record and moves the counters.
    ///
    /// Fails with `StudyNotFound` when no open record names the study,
    /// and with `ArithmeticOverflow` when a counter cannot move; on
    /// failure nothing changes.
    pub fn complete_enrollment(
        &mut self,
        study_id: AccountId,
        completion_date: i64,
        reward_amount: u64,
    ) -> (r: Result<(), RecruSearchError>)
        requires
            old(self).wf(),
        ensures
            r is Ok <==> has_active_record(old(self).profile.active_studies@, study_id) && old(
                self,
            ).completed_studies < u32::MAX,
            r is Ok ==> exists|i: int|
                {
                    &&& 0 <= i < old(self).profile.active_studies@.len()
                    &&& old(self).profile.active_studies@[i].study_id == study_id
                    &&& (forall|j: int|
                        0 <= j < i ==> old(self).profile.active_studies@[j].study_id != study_id)
                    &&& final(self).profile.active_studies@ == old(
                        self,
                    ).profile.active_studies@.remove(i)
                },
            r is Ok ==> *final(self) == (Participant {
                active_studies: (old(self).active_studies - 1) as u32,
                completed_studies: (old(self).completed_studies + 1) as u32,
                profile: (ParticipantProfile {
                    active_studies: final(self).profile.active_studies,
                    completed_studies: final(self).profile.completed_studies,
                    ..old(self).profile
                }),
                ..*old(self)
            }),
            r is Ok ==> final(self).profile.completed_studies@ =~= old(
                self,
            ).profile.completed_studies@.push(
                CompletedStudy {
                    study_id,
                    completion_date,
                    reward_amount,
                    rating: None,
                    feedback: None,
                },
            ),
            r is Err ==> *final(self) == *old(self),
            !has_active_record(old(self).profile.active_studies@, study_id) ==> (r matches Err(e)
                && e == RecruSearchError::StudyNotFound),
            has_active_record(old(self).profile.active_studies@, study_id) && old(
                self,
            ).completed_studies == u32::MAX ==> (r matches Err(e)
                && e == RecruSearchError::ArithmeticOverflow),
            final(self).wf(),
    {
        match self.find_active_record(study_id) {
            Some(i) => {
                if self.completed_studies == u32::MAX {
                    return Err(RecruSearchError::ArithmeticOverflow);
                }
                self.profile.active_studies.remove(i);
                self.profile.completed_studies.push(
                    CompletedStudy {
                        study_id,
                        completion_date,
                        reward_amount,
                        rating: None,
                        feedback: None,
                    },
                );
                self.active_studies = self.active_studies - 1;
                self.completed_studies = self.completed_studies + 1;
                Ok(())
            },
            None => Err(RecruSearchError::StudyNotFound),
        }
    }

    /// Index of the first completed enrollment record naming the study.
    pub fn find_completed_record(&self, study_id: AccountId) -> (r: Option<usize>)
        ensures
            r matches Some(i) ==> i < self.profile.completed_studies@.len()
                && self.profile.completed_studies@[i as int].study_id == study_id && (forall|
                j: int,
            |
                0 <= j < i ==> self.profile.completed_studies@[j].study_id != study_id),
            r is None ==> !has_completed_record(self.profile.completed_studies@, study_id),
    {
        let mut i: usize = 0;
        while i < self.profile.completed_studies.len()
            invariant
                i <= self.profile.completed_studies@.len(),
                forall|j: int|
                    0 <= j < i ==> self.profile.completed_studies@[j].study_id != study_id,
            decreases self.profile.completed_studies@.len() - i,
        {
            if self.profile.completed_studies[i].study_id == study_id {
                return Some(i);
            }
            i = i + 1;
        }
        None
    }

    /// Stores the rating and feedback text in the first completed
    /// enrollment record naming the study.
    ///
    /// Fails with `StudyNotFound` exactly when no such record exists; on
    /// failure nothing changes.
    pub fn record_feedback(
        &mut self,
        study_id: AccountId,
        rating: u8,
        feedback: Option<String>,
    ) -> (r: Result<(), RecruSearchError>)
        requires
            old(self).wf(),
        ensures
            r is Ok <==> has_completed_record(old(self).profile.completed_studies@, study_id),
            r is Ok ==> exists|i: int|
                {
                    &&& 0 <= i < old(self).profile.completed_studies@.len()
                    &&& old(self).profile.completed_studies@[i].study_id == study_id
                    &&& (forall|j: int|
                        0 <= j < i ==> old(self).profile.completed_studies@[j].study_id
                            != study_id)
                    &&& *final(self) == (Participant {
                        profile: (ParticipantProfile {
                            completed_studies: final(self).profile.completed_studies,
                            ..old(self).profile
                        }),
                        ..*old(self)
                    })
                    &&& final(self).profile.completed_studies@ == old(
                        self,
                    ).profile.completed_studies@.update(
                        i,
                        CompletedStudy {
                            rating: Some(rating),
                            feedback,
                            ..old(self).profile.completed_studies@[i]
                        },
                    )
                },
            r is Err ==> *final(self) == *old(self)
                && (r matches Err(e) && e == RecruSearchError::StudyNotFound),
            final(self).wf(),
    {
        match self.find_completed_record(study_id) {
            Some(i) => {
                let ghost previous = self.profile.completed_studies@;
                let removed = self.profile.completed_studies.remove(i);
                let rated = CompletedStudy { rating: Some(rating), feedback, ..removed };
                self.profile.completed_studies.insert(i, rated);
                proof {
                    assert(self.profile.completed_studies@ =~= previous.update(
                        i as int,
                        CompletedStudy {
                            rating: Some(rating),
                            feedback,
                            ..previous[i as int]
                        },
                    ));
                }
                Ok(())
            },
            None => Err(RecruSearchError::StudyNotFound),
        }
    }

    /// Flips the consent flag and stamps the matching timestamp: issuing
    /// sets the issue time and clears the revocation time, revoking sets
    /// the revocation time.
    pub fn update_consent_status(&mut self, has_consent: bool, now: i64)
        ensures
            has_consent ==> *final(self) == (Participant {
                has_active_consent: true,
                consent_issued_at: now,
                consent_revoked_at: None,
                ..*old(self)
            }),
            !has_consent ==> *final(self) == (Participant {
                has_active_consent: false,
                consent_revoked_at: Some(now),
                ..*old(self)
            }),
    {
        self.has_active_consent = has_consent;
        if has_consent {
            self.consent_issued_at = now;
            self.consent_revoked_at = None;
        } else {
            self.consent_revoked_at = Some(now);
        }
    }

    /// Replaces the self-maintained demographic fields, leaving the
    /// enrollment records and counters untouched.
    pub fn update_profile(
        &mut self,
        age_group: String,
        gender: String,
        region: String,
        interests: Vec<String>,
        is_anonymous: bool,
    )
        ensures
            *final(self) == (Participant {
                profile: (ParticipantProfile {
                    age_group,
                    gender,
                    region,
                    interests,
                    is_anonymous,
                    ..old(self).profile
                }),
                ..*old(self)
            }),
    {
        self.profile.age_group = age_group;
        self.profile.gender = gender;
        self.profile.region = region;
        self.profile.interests = interests;
        self.profile.is_anonymous = is_anonymous;
    }

    /// Replaces the interest list, leaving everything else untouched.
    pub fn update_interests(&mut self, interests: Vec<String>)
        ensures
            *final(self) == (Participant {
                profile: (ParticipantProfile { interests, ..old(self).profile }),
                ..*old(self)
            }),
    {
        self.profile.interests = interests;
    }

    /// Applies a moderation action along the legal table; an action not
    /// in the table fails `InvalidParticipantAction` and changes
    /// nothing.
    pub fn apply_action(&mut self, action: ParticipantAction) -> (r: Result<
        (),
        RecruSearchError,
    >)
        ensures
            r is Ok <==> participant_action_allowed(old(self).status, action),
            r is Ok ==> *final(self) == (Participant {
                status: action_target(action),
                ..*old(self)
            }),
            r is Err ==> *final(self) == *old(self)
                && (r matches Err(e) && e == RecruSearchError::InvalidParticipantAction),
    {
        let allowed = match action {
            ParticipantAction::Unsuspend => matches!(
                self.status,
                ParticipantStatus::Suspended | ParticipantStatus::Frozen
                    | ParticipantStatus::Banned
            ),
            _ => matches!(self.status, ParticipantStatus::Active),
        };
        if !allowed {
            return Err(RecruSearchError::InvalidParticipantAction);
        }
        self.status = match action {
            ParticipantAction::Suspend => ParticipantStatus::Suspended,
            ParticipantAction::Unsuspend => ParticipantStatus::Active,
            ParticipantAction::Ban => ParticipantStatus::Banned,
            ParticipantAction::Freeze => ParticipantStatus::Frozen,
        };
        Ok(())
    }

    /// What `is_eligible_for_study` decides: the participant never
    /// enrolled in this study before, is under the open-enrollment cap,
    /// and meets the study's reputation threshold.
    pub open spec fn spec_eligible(self, study: Study) -> bool {
        &&& !has_active_record(self.profile.active_studies@, study.id)
        &&& !has_completed_record(self.profile.completed_studies@, study.id)
        &&& self.active_studies < MAX_ACTIVE_STUDIES
        &&& self.reputation_score >= study.min_reputation_score
    }

    /// Decides the eligibility predicate for one study.
    pub fn is_eligible_for_study(&self, study: &Study) -> (r: bool)
        requires
            self.wf(),
        ensures
            r == self.spec_eligible(*study),
    {
        if self.active_studies >= MAX_ACTIVE_STUDIES {
            return false;
        }
        if self.reputation_score < study.min_reputation_score {
            return false;
        }
        if self.find_active_record(study.id).is_some() {
            return false;
        }
        let mut i: usize = 0;
        while i < self.profile.completed_studies.len()
            invariant
                i <= self.profile.completed_studies@.len(),
                forall|j: int|
                    0 <= j < i ==> self.profile.completed_studies@[j].study_id != study.id,
            decreases self.profile.completed_studies@.len() - i,
        {
            if self.profile.completed_studies[i].study_id == study.id {
                return false;
            }
            i = i + 1;
        }
        true
    }
}

impl ParticipantProfile {
    /// Sums the reputation earned by the completed enrollments: ten per
    /// completion plus the rating given, when one was.
    pub fn calculate_reputation_score(&self) -> (r: u32)
        requires
            reputation_of(self.completed_studies@) <= u32::MAX,
        ensures
            r == reputation_of(self.completed_studies@),
    {
        let mut total: u32 = 0;
        let mut i: usize = 0;
        while i < self.completed_studies.len()
            invariant
                i <= self.completed_studies@.len(),
                total == reputation_of(self.completed_studies@.take(i as int)),
                reputation_of(self.completed_studies@) <= u32::MAX,
            decreases self.completed_studies@.len() - i,
        {
            proof {
                lemma_reputation_take_succ(self.completed_studies@, i as int);
                lemma_reputation_take_le(self.completed_studies@, i as int + 1);
            }
            let points: u32 = match self.completed_studies[i].rating {
                Some(rating) => 10 + (rating as u32),
                None => 10,
            };
            total = total + points;
            i = i + 1;
        }
        proof {
            assert(self.completed_studies@.take(i as int) =~= self.completed_studies@);
        }
        total
    }
}

/// Extending a prefix by one record adds exactly that record's score.
proof fn lemma_reputation_take_succ(records: Seq<CompletedStudy>, n: int)
    requires
        0 <= n < records.len(),
    ensures
        reputation_of(records.take(n + 1)) == reputation_of(records.take(n)) + record_score(
            records[n],
        ),
{
    assert(records.take(n + 1).drop_last() =~= records.take(n));
    assert(records.take(n + 1).last() == records[n]);
}

/// Every record contributes at least ten points, so a prefix never
/// scores more than the whole list.
proof fn lemma_reputation_take_le(records: Seq<CompletedStudy>, n: int)
    requires
        0 <= n <= records.len(),
    ensures
        reputation_of(records.take(n)) <= reputation_of(records),
    decreases records.len() - n,
{
    if n == records.len() {
        assert(records.take(n) =~= records);
    } else {
        lemma_reputation_take_succ(records, n);
        lemma_reputation_take_le(records, n + 1);
    }
}

} // verus!
