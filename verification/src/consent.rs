//! Consent registry: issuance and one-way revocation of per-participant
//! consent records.
//!
//! At any time at most one active consent names a participant, and the
//! participant's `has_active_consent` flag is true exactly when one
//! does. Both operations preserve that bookkeeping, for the participant
//! at hand and for every other one. Minting and burning of the consent
//! credential itself is delegated to the host's asset collaborator as
//! part of the same atomic unit.

use vstd::prelude::*;

use crate::account::AccountId;
use crate::error::RecruSearchError;
use crate::participant::Participant;
use crate::study::Study;

verus! {

/// A revocable record asserting informed agreement to a study's terms.
#[derive(Debug)]
pub struct Consent {
    /// The participant who gave the consent.
    pub participant_id: AccountId,
    /// The study the consent is for.
    pub study_id: AccountId,
    /// Version of the consent form; opaque text.
    pub version: String,
    /// Hash of the consent document; opaque text.
    pub consent_hash: String,
    pub issued_at: i64,
    /// Set exactly once, when the consent is revoked.
    pub revoked_at: Option<i64>,
    pub is_active: bool,
}

impl Consent {
    /// True exactly when the consent is active and was never revoked.
    pub fn is_valid(&self) -> (r: bool)
        ensures
            r == (self.is_active && self.revoked_at is None),
    {
        self.is_active && matches!(self.revoked_at, None)
    }
}

/// True of a consent that counts towards the participant's active total.
pub open spec fn active_for(consent: Consent, participant_id: AccountId) -> bool {
    consent.is_active && consent.participant_id == participant_id
}

/// Number of active consents naming the participant.
pub open spec fn count_active(consents: Seq<Consent>, participant_id: AccountId) -> nat
    decreases consents.len(),
{
    if consents.len() == 0 {
        0
    } else {
        count_active(consents.drop_last(), participant_id) + if active_for(
            consents.last(),
            participant_id,
        ) {
            1nat
        } else {
            0nat
        }
    }
}

/// The consent bookkeeping: the participant's flag is true exactly when
/// one active consent names them, and false exactly when none does.
pub open spec fn consent_sync(consents: Seq<Consent>, participant: Participant) -> bool {
    count_active(consents, participant.id) == if participant.has_active_consent {
        1nat
    } else {
        0nat
    }
}

/// True when the first active consent naming the participant is for the
/// given study.
pub open spec fn first_active_matches_study(
    consents: Seq<Consent>,
    participant_id: AccountId,
    study_id: AccountId,
) -> bool {
    exists|i: int|
        {
            &&& 0 <= i < consents.len()
            &&& active_for(consents[i], participant_id)
            &&& (forall|j: int| 0 <= j < i ==> !active_for(consents[j], participant_id))
            &&& consents[i].study_id == study_id
        }
}

/// The platform's single consent ledger and its lifetime counters.
#[derive(Debug)]
pub struct ConsentRegistry {
    /// The administrative authority that set the registry up.
    pub authority: AccountId,
    pub consents: Vec<Consent>,
    pub total_issued: u64,
    pub total_revoked: u64,
}

impl ConsentRegistry {
    /// An empty registry under the given authority.
    pub fn new(authority: AccountId) -> (r: ConsentRegistry)
        ensures
            r.authority == authority,
            r.consents@ =~= Seq::<Consent>::empty(),
            r.total_issued == 0 && r.total_revoked == 0,
    {
        ConsentRegistry { authority, consents: Vec::new(), total_issued: 0, total_revoked: 0 }
    }

    /// Checks the bookkeeping between this registry and a participant:
    /// the number of active consents naming them matches their flag.
    pub fn is_synced(&self, participant: &Participant) -> (r: bool)
        ensures
            r == consent_sync(self.consents@, *participant),
    {
        let mut active: u64 = 0;
        let mut i: usize = 0;
        while i < self.consents.len()
            invariant
                i <= self.consents@.len(),
                active == count_active(self.consents@.take(i as int), participant.id),
                active <= i,
            decreases self.consents@.len() - i,
        {
            proof {
                assert(self.consents@.take(i as int + 1).drop_last() =~= self.consents@.take(
                    i as int,
                ));
                assert(self.consents@.take(i as int + 1).last() == self.consents@[i as int]);
            }
            if self.consents[i].is_active && self.consents[i].participant_id.value
                == participant.id.value {
                active = active + 1;
            }
            i = i + 1;
        }
        proof {
            assert(self.consents@.take(i as int) =~= self.consents@);
        }
        if participant.has_active_consent {
            active == 1
        } else {
            active == 0
        }
    }

    /// Index of the first active consent naming the participant.
    pub fn find_active_consent(&self, participant_id: AccountId) -> (r: Option<usize>)
        ensures
            r matches Some(i) ==> i < self.consents@.len() && active_for(
                self.consents@[i as int],
                participant_id,
            ) && (forall|j: int| 0 <= j < i ==> !active_for(self.consents@[j], participant_id)),
            r is None ==> forall|j: int|
                0 <= j < self.consents@.len() ==> !active_for(self.consents@[j], participant_id),
    {
        let mut i: usize = 0;
        while i < self.consents.len()
            invariant
                i <= self.consents@.len(),
                forall|j: int| 0 <= j < i ==> !active_for(self.consents@[j], participant_id),
            decreases self.consents@.len() - i,
        {
            if self.consents[i].is_active && self.consents[i].participant_id.value
                == participant_id.value {
                return Some(i);
            }
            i = i + 1;
        }
        None
    }

    /// Issues a consent: appends an active record, flags the
    /// participant, counts the enrollee on the study and in the lifetime
    /// total.
    ///
    /// Fails with `ParticipantNotEligible` when the eligibility
    /// predicate refuses the pair, then with `DuplicateConsent` when the
    /// participant already holds an active consent, then with
    /// `ArithmeticOverflow` when a counter cannot grow; on failure
    /// nothing changes. The bookkeeping between the registry and the
    /// participant — at most one active consent, mirrored by the flag —
    /// is preserved, and the count of every other participant is
    /// untouched.
    pub fn issue(
        &mut self,
        study: &mut Study,
        participant: &mut Participant,
        version: String,
        consent_hash: String,
        now: i64,
    ) -> (r: Result<(), RecruSearchError>)
        requires
            old(participant).wf(),
            consent_sync(old(self).consents@, *old(participant)),
        ensures
            r is Ok <==> old(participant).spec_eligible(*old(study)) && !old(
                participant,
            ).has_active_consent && old(self).total_issued < u64::MAX && old(
                study,
            ).consented_participants < u32::MAX,
            r is Ok ==> final(self).consents@ == old(self).consents@.push(
                Consent {
                    participant_id: old(participant).id,
                    study_id: old(study).id,
                    version,
                    consent_hash,
                    issued_at: now,
                    revoked_at: None,
                    is_active: true,
                },
            ),
            r is Ok ==> *final(self) == (ConsentRegistry {
                consents: final(self).consents,
                total_issued: (old(self).total_issued + 1) as u64,
                ..*old(self)
            }),
            r is Ok ==> *final(participant) == (Participant {
                has_active_consent: true,
                consent_issued_at: now,
                consent_revoked_at: None,
                ..*old(participant)
            }),
            r is Ok ==> *final(study) == (Study {
                consented_participants: (old(study).consented_participants + 1) as u32,
                ..*old(study)
            }),
            r is Err ==> *final(self) == *old(self) && *final(participant) == *old(participant)
                && *final(study) == *old(study),
            !old(participant).spec_eligible(*old(study)) ==> (r matches Err(e)
                && e == RecruSearchError::ParticipantNotEligible),
            old(participant).spec_eligible(*old(study)) && old(participant).has_active_consent
                ==> (r matches Err(e) && e == RecruSearchError::DuplicateConsent),
            old(participant).spec_eligible(*old(study)) && !old(participant).has_active_consent
                && (old(self).total_issued == u64::MAX || old(study).consented_participants
                == u32::MAX) ==> (r matches Err(e) && e == RecruSearchError::ArithmeticOverflow),
            consent_sync(final(self).consents@, *final(participant)),
            forall|other: AccountId|
                other != old(participant).id ==> count_active(final(self).consents@, other)
                    == count_active(old(self).consents@, other),
            forall|i: int|
                0 <= i < old(self).consents@.len() ==> final(self).consents@[i] == old(
                    self,
                ).consents@[i],
            final(participant).wf(),
    {
        if !participant.is_eligible_for_study(study) {
            return Err(RecruSearchError::ParticipantNotEligible);
        }
        if participant.has_active_consent {
            return Err(RecruSearchError::DuplicateConsent);
        }
        if self.total_issued == u64::MAX || study.consented_participants == u32::MAX {
            return Err(RecruSearchError::ArithmeticOverflow);
        }
        let record = Consent {
            participant_id: participant.id,
            study_id: study.id,
            version,
            consent_hash,
            issued_at: now,
            revoked_at: None,
            is_active: true,
        };
        let ghost previous = self.consents@;
        let ghost issued = record;
        self.consents.push(record);
        self.total_issued = self.total_issued + 1;
        participant.update_consent_status(true, now);
        let _ = study.increment_consent();
        proof {
            assert forall|pid: AccountId|
                count_active(self.consents@, pid) == count_active(previous, pid) + (if active_for(
                    issued,
                    pid,
                ) {
                    1int
                } else {
                    0int
                }) by {
                assert(self.consents@.drop_last() =~= previous);
            }
        }
        Ok(())
    }

    /// Revokes the participant's single active consent: deactivates the
    /// record one-way, clears the participant's flag, uncounts the
    /// enrollee on the study and counts the lifetime revocation.
    ///
    /// Fails with `NoActiveConsent` when the participant holds no active
    /// consent, then with `StudyNotFound` when the study record handed
    /// in is not the one the consent names, then with
    /// `ArithmeticOverflow` when a counter cannot move; on failure
    /// nothing changes. The bookkeeping between the registry and the
    /// participant is preserved, and the count of every other
    /// participant is untouched.
    pub fn revoke(&mut self, study: &mut Study, participant: &mut Participant, now: i64) -> (r:
        Result<(), RecruSearchError>)
        requires
            consent_sync(old(self).consents@, *old(participant)),
        ensures
            r is Ok <==> old(participant).has_active_consent && first_active_matches_study(
                old(self).consents@,
                old(participant).id,
                old(study).id,
            ) && old(self).total_revoked < u64::MAX && old(study).consented_participants > 0,
            r is Ok ==> exists|i: int|
                {
                    &&& 0 <= i < old(self).consents@.len()
                    &&& active_for(old(self).consents@[i], old(participant).id)
                    &&& (forall|j: int|
                        0 <= j < i ==> !active_for(old(self).consents@[j], old(participant).id))
                    &&& final(self).consents@ == old(self).consents@.update(
                        i,
                        Consent {
                            is_active: false,
                            revoked_at: Some(now),
                            ..old(self).consents@[i]
                        },
                    )
                },
            r is Ok ==> *final(self) == (ConsentRegistry {
                consents: final(self).consents,
                total_revoked: (old(self).total_revoked + 1) as u64,
                ..*old(self)
            }),
            r is Ok ==> *final(participant) == (Participant {
                has_active_consent: false,
                consent_revoked_at: Some(now),
                ..*old(participant)
            }),
            r is Ok ==> *final(study) == (Study {
                consented_participants: (old(study).consented_participants - 1) as u32,
                ..*old(study)
            }),
            r is Err ==> *final(self) == *old(self) && *final(participant) == *old(participant)
                && *final(study) == *old(study),
            !old(participant).has_active_consent ==> (r matches Err(e)
                && e == RecruSearchError::NoActiveConsent),
            old(participant).has_active_consent && !first_active_matches_study(
                old(self).consents@,
                old(participant).id,
                old(study).id,
            ) ==> (r matches Err(e) && e == RecruSearchError::StudyNotFound),
            old(participant).has_active_consent && first_active_matches_study(
                old(self).consents@,
                old(participant).id,
                old(study).id,
            ) && (old(self).total_revoked == u64::MAX || old(study).consented_participants == 0)
                ==> (r matches Err(e) && e == RecruSearchError::ArithmeticOverflow),
            consent_sync(final(self).consents@, *final(participant)),
            forall|other: AccountId|
                other != old(participant).id ==> count_active(final(self).consents@, other)
                    == count_active(old(self).consents@, other),
            forall|i: int|
                0 <= i < old(self).consents@.len() ==> (final(self).consents@[i].is_active
                    ==> old(self).consents@[i].is_active),
    {
        if !participant.has_active_consent {
            return Err(RecruSearchError::NoActiveConsent);
        }
        match self.find_active_consent(participant.id) {
            Some(i) => {
                if !(self.consents[i].study_id.value == study.id.value) {
                    return Err(RecruSearchError::StudyNotFound);
                }
                if self.total_revoked == u64::MAX || study.consented_participants == 0 {
                    return Err(RecruSearchError::ArithmeticOverflow);
                }
                let ghost previous = self.consents@;
                let ghost position = i as int;
                let removed = self.consents.remove(i);
                let deactivated = Consent { is_active: false, revoked_at: Some(now), ..removed };
                self.consents.insert(i, deactivated);
                self.total_revoked = self.total_revoked + 1;
                participant.update_consent_status(false, now);
                let _ = study.decrement_consent();
                proof {
                    let ghost rewritten = Consent {
                        is_active: false,
                        revoked_at: Some(now),
                        ..previous[position]
                    };
                    assert(self.consents@ =~= previous.update(position, rewritten));
                    assert forall|pid: AccountId|
                        count_active(self.consents@, pid) == count_active(previous, pid) - (
                        if active_for(previous[position], pid) {
                            1int
                        } else {
                            0int
                        }) + (if active_for(rewritten, pid) {
                            1int
                        } else {
                            0int
                        }) by {
                        lemma_count_update(previous, position, rewritten, pid);
                    }
                }
                Ok(())
            },
            None => {
                proof {
                    lemma_count_none(self.consents@, participant.id);
                    assert(false);
                }
                Err(RecruSearchError::NoActiveConsent)
            },
        }
    }
}

/// Where no record counts for the participant, the count is zero.
proof fn lemma_count_none(consents: Seq<Consent>, participant_id: AccountId)
    requires
        forall|j: int| 0 <= j < consents.len() ==> !active_for(consents[j], participant_id),
    ensures
        count_active(consents, participant_id) == 0,
    decreases consents.len(),
{
    if consents.len() > 0 {
        lemma_count_none(consents.drop_last(), participant_id);
    }
}

/// Rewriting one record moves the count by the difference of what the
/// old and the new record contribute.
proof fn lemma_count_update(
    consents: Seq<Consent>,
    i: int,
    replacement: Consent,
    participant_id: AccountId,
)
    requires
        0 <= i < consents.len(),
    ensures
        count_active(consents.update(i, replacement), participant_id) == count_active(
            consents,
            participant_id,
        ) - (if active_for(consents[i], participant_id) {
            1int
        } else {
            0int
        }) + (if active_for(replacement, participant_id) {
            1int
        } else {
            0int
        }),
    decreases consents.len(),
{
    if i == consents.len() - 1 {
        assert(consents.update(i, replacement).drop_last() =~= consents.drop_last());
        assert(consents.update(i, replacement).last() == replacement);
    } else {
        assert(consents.update(i, replacement).drop_last() =~= consents.drop_last().update(
            i,
            replacement,
        ));
        assert(consents.update(i, replacement).last() == consents.last());
        lemma_count_update(consents.drop_last(), i, replacement, participant_id);
    }
}

} // verus!
