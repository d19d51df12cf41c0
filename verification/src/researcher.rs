//! Researcher lifecycle: registration, one-time verification review and
//! the study counters that gate creation rights.

use vstd::prelude::*;

use crate::account::AccountId;
use crate::error::RecruSearchError;
use crate::study::Study;

verus! {

/// Reputation a researcher starts with once verified.
pub const VERIFIED_BASELINE_REPUTATION: u32 = 100;

/// Reputation a researcher needs beyond verification to create studies.
pub const STUDY_CREATION_REPUTATION: u32 = 50;

/// Where a credential or a researcher stands in the review process.
#[derive(Clone, Copy, Debug, PartialEq, Eq, Structural)]
pub enum VerificationStatus {
    Pending,
    Verified,
    Rejected,
}

/// A verified principal permitted to create studies.
#[derive(Debug)]
pub struct Researcher {
    /// Address of this researcher record in the host's store.
    pub id: AccountId,
    /// The wallet identity that owns and operates this record.
    pub owner: AccountId,
    pub institution: String,
    /// Hash of the researcher's credentials; opaque text.
    pub credentials_hash: String,
    pub is_verified: bool,
    pub verification_status: VerificationStatus,
    pub registered_at: i64,
    pub studies_created: u32,
    pub active_studies: u32,
    /// Enrollees completed across all of this researcher's studies.
    pub total_participants: u32,
    pub reputation_score: u32,
}

impl Researcher {
    /// The active count never exceeds the created count, and the
    /// verified flag mirrors the review outcome.
    pub open spec fn wf(self) -> bool {
        &&& self.active_studies <= self.studies_created
        &&& self.is_verified == (self.verification_status == VerificationStatus::Verified)
    }

    /// Checks the counter bound and the verified-flag agreement.
    pub fn is_well_formed(&self) -> (r: bool)
        ensures
            r == self.wf(),
    {
        self.active_studies <= self.studies_created && self.is_verified == matches!(
            self.verification_status,
            VerificationStatus::Verified
        )
    }

    /// Registers a researcher awaiting review, with zeroed counters.
    ///
    /// Fails with `InvalidInstitutionName` when the institution is
    /// empty, then with `InvalidCredentials` when the credentials hash
    /// is empty.
    pub fn create(
        id: AccountId,
        owner: AccountId,
        institution: String,
        credentials_hash: String,
        now: i64,
    ) -> (r: Result<Researcher, RecruSearchError>)
        ensures
            r is Ok <==> institution@.len() > 0 && credentials_hash@.len() > 0,
            institution@.len() == 0 ==> (r matches Err(e)
                && e == RecruSearchError::InvalidInstitutionName),
            institution@.len() > 0 && credentials_hash@.len() == 0 ==> (r matches Err(e)
                && e == RecruSearchError::InvalidCredentials),
            r matches Ok(res) ==> (res == (Researcher {
                id,
                owner,
                institution,
                credentials_hash,
                is_verified: false,
                verification_status: VerificationStatus::Pending,
                registered_at: now,
                studies_created: 0u32,
                active_studies: 0u32,
                total_participants: 0u32,
                reputation_score: 0u32,
            })),
            r matches Ok(res) ==> res.wf(),
    {
        if institution.as_str().is_empty() {
            return Err(RecruSearchError::InvalidInstitutionName);
        }
        if credentials_hash.as_str().is_empty() {
            return Err(RecruSearchError::InvalidCredentials);
        }
        Ok(Researcher {
            id,
            owner,
            institution,
            credentials_hash,
            is_verified: false,
            verification_status: VerificationStatus::Pending,
            registered_at: now,
            studies_created: 0,
            active_studies: 0,
            total_participants: 0,
            reputation_score: 0,
        })
    }

    /// Accepts the researcher's one-time review: marks the record
    /// verified and grants the baseline reputation.
    ///
    /// Fails with `AlreadyVerified` exactly when the review was already
    /// decided either way; on failure nothing changes.
    pub fn verify(&mut self) -> (r: Result<(), RecruSearchError>)
        ensures
            r is Ok <==> old(self).verification_status == VerificationStatus::Pending,
            r is Ok ==> *final(self) == (Researcher {
                is_verified: true,
                verification_status: VerificationStatus::Verified,
                reputation_score: VERIFIED_BASELINE_REPUTATION,
                ..*old(self)
            }),
            r is Err ==> *final(self) == *old(self)
                && (r matches Err(e) && e == RecruSearchError::AlreadyVerified),
            old(self).wf() ==> final(self).wf(),
    {
        if !matches!(self.verification_status, VerificationStatus::Pending) {
            return Err(RecruSearchError::AlreadyVerified);
        }
        self.is_verified = true;
        self.verification_status = VerificationStatus::Verified;
        self.reputation_score = VERIFIED_BASELINE_REPUTATION;
        Ok(())
    }

    /// Declines the researcher's one-time review.
    ///
    /// Fails with `AlreadyVerified` exactly when the review was already
    /// decided either way; on failure nothing changes.
    pub fn reject(&mut self) -> (r: Result<(), RecruSearchError>)
        ensures
            r is Ok <==> old(self).verification_status == VerificationStatus::Pending,
            r is Ok ==> *final(self) == (Researcher {
                is_verified: false,
                verification_status: VerificationStatus::Rejected,
                ..*old(self)
            }),
            r is Err ==> *final(self) == *old(self)
                && (r matches Err(e) && e == RecruSearchError::AlreadyVerified),
            old(self).wf() ==> final(self).wf(),
    {
        if !matches!(self.verification_status, VerificationStatus::Pending) {
            return Err(RecruSearchError::AlreadyVerified);
        }
        self.is_verified = false;
        self.verification_status = VerificationStatus::Rejected;
        Ok(())
    }

    /// Counts one more created study.
    pub fn increment_studies_created(&mut self) -> (r: Result<(), RecruSearchError>)
        ensures
            r is Ok <==> old(self).studies_created < u32::MAX,
            r is Ok ==> *final(self) == (Researcher {
                studies_created: (old(self).studies_created + 1) as u32,
                ..*old(self)
            }),
            r is Err ==> *final(self) == *old(self)
                && (r matches Err(e) && e == RecruSearchError::ArithmeticOverflow),
            old(self).wf() ==> final(self).wf(),
    {
        if self.studies_created == u32::MAX {
            return Err(RecruSearchError::ArithmeticOverflow);
        }
        self.studies_created = self.studies_created + 1;
        Ok(())
    }

    /// Moves the active-study count by `delta` and credits ten
    /// reputation points per study moved.
    ///
    /// Fails with `NotVerified` when the researcher is unverified, with
    /// `InvalidStudyParameters` when the new count would leave
    /// `0..=studies_created`, and with `ArithmeticOverflow` when the
    /// reputation credit cannot be added; on failure nothing changes.
    pub fn update_active_studies(&mut self, delta: i32) -> (r: Result<(), RecruSearchError>)
        requires
            old(self).wf(),
        ensures
            r is Ok <==> old(self).is_verified && 0 <= old(self).active_studies + delta <= old(
                self,
            ).studies_created && old(self).reputation_score + abs_i32(delta) * 10 <= u32::MAX,
            r is Ok ==> *final(self) == (Researcher {
                active_studies: (old(self).active_studies + delta) as u32,
                reputation_score: (old(self).reputation_score + abs_i32(delta) * 10) as u32,
                ..*old(self)
            }),
            r is Err ==> *final(self) == *old(self),
            !old(self).is_verified ==> (r matches Err(e) && e == RecruSearchError::NotVerified),
            old(self).is_verified && !(0 <= old(self).active_studies + delta <= old(
                self,
            ).studies_created) ==> (r matches Err(e)
                && e == RecruSearchError::InvalidStudyParameters),
            old(self).is_verified && 0 <= old(self).active_studies + delta <= old(
                self,
            ).studies_created && old(self).reputation_score + abs_i32(delta) * 10 > u32::MAX ==> (
            r matches Err(e) && e == RecruSearchError::ArithmeticOverflow),
            final(self).wf(),
    {
        if !self.is_verified {
            return Err(RecruSearchError::NotVerified);
        }
        let shifted: i64 = (self.active_studies as i64) + (delta as i64);
        if shifted < 0 || shifted > (self.studies_created as i64) {
            return Err(RecruSearchError::InvalidStudyParameters);
        }
        let magnitude: i64 = if delta >= 0 {
            delta as i64
        } else {
            -(delta as i64)
        };
        let credit: u64 = (magnitude as u64) * 10;
        if credit > (u32::MAX - self.reputation_score) as u64 {
            return Err(RecruSearchError::ArithmeticOverflow);
        }
        self.active_studies = shifted as u32;
        self.reputation_score = self.reputation_score + (credit as u32);
        Ok(())
    }

    /// Moves the completed-enrollee count by `delta`.
    ///
    /// Fails with `ArithmeticOverflow` when the new count would leave
    /// the `u32` range; on failure nothing changes.
    pub fn update_total_participants(&mut self, delta: i32) -> (r: Result<(), RecruSearchError>)
        ensures
            r is Ok <==> 0 <= old(self).total_participants + delta <= u32::MAX,
            r is Ok ==> *final(self) == (Researcher {
                total_participants: (old(self).total_participants + delta) as u32,
                ..*old(self)
            }),
            r is Err ==> *final(self) == *old(self)
                && (r matches Err(e) && e == RecruSearchError::ArithmeticOverflow),
            old(self).wf() ==> final(self).wf(),
    {
        let shifted: i64 = (self.total_participants as i64) + (delta as i64);
        if shifted < 0 || shifted > (u32::MAX as i64) {
            return Err(RecruSearchError::ArithmeticOverflow);
        }
        self.total_participants = shifted as u32;
        Ok(())
    }

    /// Replaces the reputation score outright.
    pub fn update_reputation_score(&mut self, score: u32)
        ensures
            *final(self) == (Researcher { reputation_score: score, ..*old(self) }),
    {
        self.reputation_score = score;
    }
}

/// Magnitude of a 32-bit delta, as a mathematical integer.
pub open spec fn abs_i32(delta: i32) -> int {
    if delta >= 0 {
        delta as int
    } else {
        -(delta as int)
    }
}

/// One credential a researcher presents for review.
#[derive(Debug)]
pub struct Credential {
    pub credential_type: String,
    pub issuer: String,
    pub issue_date: i64,
    pub expiry_date: Option<i64>,
    pub verification_status: VerificationStatus,
}

/// True when the credential has no expiry or has not expired at `now`.
pub open spec fn credential_unexpired(credential: Credential, now: i64) -> bool {
    match credential.expiry_date {
        Some(expiry) => now <= expiry,
        None => true,
    }
}

/// Portfolio view of a researcher: presented credentials and the studies
/// they run, keyed by study address.
#[derive(Debug)]
pub struct ResearcherProfile {
    pub institution: String,
    pub credentials: Vec<Credential>,
    pub is_verified: bool,
    pub created_studies: Vec<AccountId>,
    pub active_studies: Vec<AccountId>,
    pub completed_studies: Vec<AccountId>,
    pub reputation_score: u32,
}

impl ResearcherProfile {
    /// True exactly when the profile is verified and carries at least
    /// the study-creation reputation.
    pub fn can_create_study(&self) -> (r: bool)
        ensures
            r == (self.is_verified && self.reputation_score >= STUDY_CREATION_REPUTATION),
    {
        self.is_verified && self.reputation_score >= STUDY_CREATION_REPUTATION
    }

    /// True exactly when at least one presented credential is unexpired
    /// at `now`.
    pub fn verify_credentials(&self, now: i64) -> (r: bool)
        ensures
            r == exists|i: int|
                0 <= i < self.credentials@.len() && credential_unexpired(self.credentials@[i], now),
    {
        let mut i: usize = 0;
        while i < self.credentials.len()
            invariant
                i <= self.credentials@.len(),
                forall|j: int| 0 <= j < i ==> !credential_unexpired(self.credentials@[j], now),
            decreases self.credentials@.len() - i,
        {
            let unexpired = match self.credentials[i].expiry_date {
                Some(expiry) => now <= expiry,
                None => true,
            };
            if unexpired {
                return true;
            }
            i = i + 1;
        }
        false
    }

    /// Credits reputation for a study's outcome: ten base points, up to
    /// twenty more for its completion share and up to fifty more for its
    /// average rating.
    ///
    /// Fails with `ArithmeticOverflow` when the credit cannot be added;
    /// on failure nothing changes.
    pub fn update_reputation(&mut self, study: &Study) -> (r: Result<(), RecruSearchError>)
        requires
            study.wf(),
        ensures
            r is Ok <==> old(self).reputation_score + reputation_credit(*study) <= u32::MAX,
            r is Ok ==> *final(self) == (ResearcherProfile {
                reputation_score: (old(self).reputation_score + reputation_credit(*study)) as u32,
                ..*old(self)
            }),
            r is Err ==> *final(self) == *old(self)
                && (r matches Err(e) && e == RecruSearchError::ArithmeticOverflow),
    {
        let completion_bonus: u64 = (study.completion_rate_percent() as u64) * 20 / 100;
        let rating_bonus: u64 = study.analytics.average_rating_centi() * 10 / 100;
        let credit: u64 = 10 + completion_bonus + rating_bonus;
        if credit > (u32::MAX - self.reputation_score) as u64 {
            return Err(RecruSearchError::ArithmeticOverflow);
        }
        self.reputation_score = self.reputation_score + (credit as u32);
        Ok(())
    }
}

/// Reputation points a study's outcome is worth: ten base points plus a
/// fifth of its completion percentage plus a tenth of its average rating
/// in hundredths.
pub open spec fn reputation_credit(study: Study) -> int {
    10 + (study.spec_completion_rate_percent() * 20) / 100 + (
    study.analytics.spec_average_rating_centi() * 10) / 100
}

} // verus!
