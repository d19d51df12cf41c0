//! The exposed operations: one per platform action.
//!
//! Every operation takes the acting identity and the current time as
//! plain values, validates the actor against the admin or ownership
//! rule first, then every precondition, and only then mutates; a failed
//! precondition aborts the whole operation with a specific error and no
//! partial mutation.

use vstd::prelude::*;

use crate::account::AccountId;
use crate::admin::Admin;
use crate::auth;
use crate::auth::RequiredRole;
use crate::consent::ConsentRegistry;
use crate::consent::consent_sync;
use crate::consent::count_active;
use crate::consent::first_active_matches_study;
use crate::error::RecruSearchError;
use crate::events::ConsentIssued;
use crate::events::ConsentRevoked;
use crate::events::RewardReceived;
use crate::events::WalletInitialized;
use crate::events::WalletMetadataUpdated;
use crate::participant::Participant;
use crate::participant::ParticipantAction;
use crate::participant::ParticipantProfile;
use crate::participant::action_target;
use crate::participant::has_active_record;
use crate::participant::participant_action_allowed;
use crate::researcher::Researcher;
use crate::study::Study;
use crate::study::StudyStatus;
use crate::study::StudyType;
use crate::study::status_transition_allowed;
use crate::study::transition_allowed;
use crate::wallet::ParticipantWallet;

verus! {

/// The dashboard bookkeeping a status change asks for: entering
/// `Active` raises the live count — and the first activation also folds
/// the study's figures in — while leaving `Active` lowers it.
pub open spec fn status_dashboard_ok(
    dashboard: crate::admin::AdminDashboard,
    from: StudyStatus,
    to: StudyStatus,
    study: Study,
    now: i64,
) -> bool {
    &&& (to == StudyStatus::Active && from != StudyStatus::Active ==> dashboard.active_studies
        < u32::MAX)
    &&& (from == StudyStatus::Active && to != StudyStatus::Active ==> dashboard.active_studies
        > 0)
    &&& (from == StudyStatus::PendingReview && to == StudyStatus::Active
        ==> crate::admin::platform_can_absorb(dashboard, study, now)
        && crate::admin::category_can_absorb(dashboard.study_categories@, study))
}

/// Sets the single administrative authority up at deployment.
pub fn initialize_admin(authority: AccountId, now: i64) -> (r: Admin)
    ensures
        r.authority == authority,
        r.last_updated == now,
        r.verified_researchers == 0 && r.pending_verifications == 0,
        r.dashboard.total_studies == 0 && r.dashboard.active_studies == 0,
        r.dashboard.total_rewards_distributed == 0,
{
    Admin::new(authority, now)
}

/// Registers a researcher awaiting review and counts the pending
/// verification on the admin record.
///
/// Fails with `InvalidInstitutionName` or `InvalidCredentials` when the
/// respective text is empty, and with `ArithmeticOverflow` when the
/// pending counter cannot grow; on failure the admin record is
/// unchanged.
pub fn register_researcher(
    admin: &mut Admin,
    id: AccountId,
    owner: AccountId,
    institution: String,
    credentials_hash: String,
    now: i64,
) -> (r: Result<Researcher, RecruSearchError>)
    ensures
        r is Ok <==> institution@.len() > 0 && credentials_hash@.len() > 0 && old(
            admin,
        ).pending_verifications < u32::MAX,
        institution@.len() == 0 ==> (r matches Err(e)
            && e == RecruSearchError::InvalidInstitutionName),
        institution@.len() > 0 && credentials_hash@.len() == 0 ==> (r matches Err(e)
            && e == RecruSearchError::InvalidCredentials),
        institution@.len() > 0 && credentials_hash@.len() > 0 && old(admin).pending_verifications
            == u32::MAX ==> (r matches Err(e) && e == RecruSearchError::ArithmeticOverflow),
        r is Err ==> *final(admin) == *old(admin),
        r matches Ok(res) ==> res.id == id && res.owner == owner && res.institution == institution
            && res.credentials_hash == credentials_hash && !res.is_verified && res.registered_at
            == now && res.studies_created == 0 && res.active_studies == 0 && res.reputation_score
            == 0 && res.wf(),
        r is Ok ==> *final(admin) == (Admin {
            pending_verifications: (old(admin).pending_verifications + 1) as u32,
            last_updated: now,
            ..*old(admin)
        }),
{
    if admin.pending_verifications == u32::MAX {
        if institution.as_str().is_empty() {
            return Err(RecruSearchError::InvalidInstitutionName);
        }
        if credentials_hash.as_str().is_empty() {
            return Err(RecruSearchError::InvalidCredentials);
        }
        return Err(RecruSearchError::ArithmeticOverflow);
    }
    let researcher = Researcher::create(id, owner, institution, credentials_hash, now)?;
    admin.pending_verifications = admin.pending_verifications + 1;
    admin.last_updated = now;
    Ok(researcher)
}

/// Accepts a researcher's one-time review: admin-only; marks the record
/// verified with the baseline reputation and moves the admin counters.
///
/// Fails with `UnauthorizedAdmin` for any actor but the authority, with
/// `AlreadyVerified` when the review was already decided, and with
/// `ArithmeticOverflow` when an admin counter cannot move; on failure
/// nothing changes.
pub fn verify_researcher(
    admin: &mut Admin,
    researcher: &mut Researcher,
    actor: AccountId,
    now: i64,
) -> (r: Result<(), RecruSearchError>)
    requires
        old(researcher).wf(),
    ensures
        r is Ok <==> actor == old(admin).authority && old(researcher).verification_status
            == crate::researcher::VerificationStatus::Pending && old(admin).verified_researchers
            < u32::MAX && old(admin).pending_verifications > 0 && old(
            admin,
        ).dashboard.total_researchers < u32::MAX,
        actor != old(admin).authority ==> (r matches Err(e)
            && e == RecruSearchError::UnauthorizedAdmin),
        actor == old(admin).authority && old(researcher).verification_status
            != crate::researcher::VerificationStatus::Pending ==> (r matches Err(e)
            && e == RecruSearchError::AlreadyVerified),
        actor == old(admin).authority && old(researcher).verification_status
            == crate::researcher::VerificationStatus::Pending && (old(admin).verified_researchers
            == u32::MAX || old(admin).pending_verifications == 0 || old(
            admin,
        ).dashboard.total_researchers == u32::MAX) ==> (r matches Err(e)
            && e == RecruSearchError::ArithmeticOverflow),
        r is Err ==> *final(admin) == *old(admin) && *final(researcher) == *old(researcher),
        r is Ok ==> *final(researcher) == (Researcher {
            is_verified: true,
            verification_status: crate::researcher::VerificationStatus::Verified,
            reputation_score: crate::researcher::VERIFIED_BASELINE_REPUTATION,
            ..*old(researcher)
        }),
        r is Ok ==> *final(admin) == (Admin {
            verified_researchers: (old(admin).verified_researchers + 1) as u32,
            pending_verifications: (old(admin).pending_verifications - 1) as u32,
            dashboard: (crate::admin::AdminDashboard {
                total_researchers: (old(admin).dashboard.total_researchers + 1) as u32,
                ..old(admin).dashboard
            }),
            last_updated: now,
            ..*old(admin)
        }),
        final(researcher).wf(),
{
    admin.authorize(&actor)?;
    if !matches!(
        researcher.verification_status,
        crate::researcher::VerificationStatus::Pending
    ) {
        return Err(RecruSearchError::AlreadyVerified);
    }
    if admin.verified_researchers == u32::MAX || admin.pending_verifications == 0
        || admin.dashboard.total_researchers == u32::MAX {
        return Err(RecruSearchError::ArithmeticOverflow);
    }
    let _ = researcher.verify();
    admin.verified_researchers = admin.verified_researchers + 1;
    admin.pending_verifications = admin.pending_verifications - 1;
    admin.dashboard.total_researchers = admin.dashboard.total_researchers + 1;
    admin.last_updated = now;
    Ok(())
}

/// Declines a researcher's one-time review: admin-only; marks the
/// record rejected and releases the pending verification.
///
/// Fails with `UnauthorizedAdmin` for any actor but the authority, with
/// `AlreadyVerified` when the review was already decided, and with
/// `ArithmeticOverflow` when the pending counter cannot move; on
/// failure nothing changes.
pub fn reject_researcher(
    admin: &mut Admin,
    researcher: &mut Researcher,
    actor: AccountId,
    now: i64,
) -> (r: Result<(), RecruSearchError>)
    requires
        old(researcher).wf(),
    ensures
        r is Ok <==> actor == old(admin).authority && old(researcher).verification_status
            == crate::researcher::VerificationStatus::Pending && old(admin).pending_verifications
            > 0,
        actor != old(admin).authority ==> (r matches Err(e)
            && e == RecruSearchError::UnauthorizedAdmin),
        actor == old(admin).authority && old(researcher).verification_status
            != crate::researcher::VerificationStatus::Pending ==> (r matches Err(e)
            && e == RecruSearchError::AlreadyVerified),
        actor == old(admin).authority && old(researcher).verification_status
            == crate::researcher::VerificationStatus::Pending && old(admin).pending_verifications
            == 0 ==> (r matches Err(e) && e == RecruSearchError::ArithmeticOverflow),
        r is Err ==> *final(admin) == *old(admin) && *final(researcher) == *old(researcher),
        r is Ok ==> *final(researcher) == (Researcher {
            is_verified: false,
            verification_status: crate::researcher::VerificationStatus::Rejected,
            ..*old(researcher)
        }),
        r is Ok ==> *final(admin) == (Admin {
            pending_verifications: (old(admin).pending_verifications - 1) as u32,
            last_updated: now,
            ..*old(admin)
        }),
        final(researcher).wf(),
{
    admin.authorize(&actor)?;
    if !matches!(
        researcher.verification_status,
        crate::researcher::VerificationStatus::Pending
    ) {
        return Err(RecruSearchError::AlreadyVerified);
    }
    if admin.pending_verifications == 0 {
        return Err(RecruSearchError::ArithmeticOverflow);
    }
    let _ = researcher.reject();
    admin.pending_verifications = admin.pending_verifications - 1;
    admin.last_updated = now;
    Ok(())
}

/// Creates a study in `Draft` status for a verified researcher and
/// counts it on the researcher's record.
///
/// Fails with `Unauthorized` when the actor does not own the researcher
/// record, with `ResearcherNotVerified` when the researcher is not
/// verified, with `InvalidStudyParameters` when a required text field
/// is empty, and with `ArithmeticOverflow` when the created-studies
/// counter cannot grow; on failure the researcher record is unchanged.
pub fn create_study(
    researcher: &mut Researcher,
    study_id: AccountId,
    actor: AccountId,
    title: String,
    description: String,
    criteria_hash: String,
    reward_amount: u64,
    max_participants: u32,
    category: StudyType,
    now: i64,
) -> (r: Result<Study, RecruSearchError>)
    requires
        old(researcher).wf(),
    ensures
        r is Ok <==> actor == old(researcher).owner && old(researcher).is_verified && title@.len()
            > 0 && description@.len() > 0 && criteria_hash@.len() > 0 && old(
            researcher,
        ).studies_created < u32::MAX,
        actor != old(researcher).owner ==> (r matches Err(e)
            && e == RecruSearchError::Unauthorized),
        actor == old(researcher).owner && !old(researcher).is_verified ==> (r matches Err(e)
            && e == RecruSearchError::ResearcherNotVerified),
        actor == old(researcher).owner && old(researcher).is_verified && (title@.len() == 0
            || description@.len() == 0 || criteria_hash@.len() == 0) ==> (r matches Err(e)
            && e == RecruSearchError::InvalidStudyParameters),
        actor == old(researcher).owner && old(researcher).is_verified && title@.len() > 0
            && description@.len() > 0 && criteria_hash@.len() > 0 && old(
            researcher,
        ).studies_created == u32::MAX ==> (r matches Err(e)
            && e == RecruSearchError::ArithmeticOverflow),
        r is Err ==> *final(researcher) == *old(researcher),
        r matches Ok(s) ==> s.id == study_id && s.owner == old(researcher).id && s.title == title
            && s.description == description && s.criteria_hash == criteria_hash && s.reward_amount
            == reward_amount && s.max_participants == max_participants && s.category == category
            && s.status == crate::study::StudyStatus::Draft && s.current_participants == 0
            && s.completed_participants == 0 && s.consented_participants == 0
            && s.min_reputation_score == crate::study::DEFAULT_MIN_REPUTATION && s.created_at
            == now && s.wf(),
        r is Ok ==> *final(researcher) == (Researcher {
            studies_created: (old(researcher).studies_created + 1) as u32,
            ..*old(researcher)
        }),
        final(researcher).wf(),
{
    auth::authorize(actor, RequiredRole::ResourceOwner, researcher.owner)?;
    if !researcher.is_verified {
        return Err(RecruSearchError::ResearcherNotVerified);
    }
    if researcher.studies_created == u32::MAX {
        if title.as_str().is_empty() || description.as_str().is_empty()
            || criteria_hash.as_str().is_empty() {
            return Err(RecruSearchError::InvalidStudyParameters);
        }
        return Err(RecruSearchError::ArithmeticOverflow);
    }
    let study = Study::create(
        study_id,
        researcher.id,
        title,
        description,
        criteria_hash,
        reward_amount,
        max_participants,
        category,
        now,
    )?;
    let _ = researcher.increment_studies_created();
    Ok(study)
}

/// Registers a participant: `Unverified`, zeroed counters, no consent.
pub fn register_participant(
    id: AccountId,
    owner: AccountId,
    eligibility_proof: String,
    now: i64,
) -> (r: Participant)
    ensures
        r.id == id,
        r.owner == owner,
        r.eligibility_proof == eligibility_proof,
        r.registered_at == now,
        r.status == crate::participant::ParticipantStatus::Unverified,
        r.active_studies == 0 && r.completed_studies == 0,
        !r.has_active_consent,
        r.reputation_score == 0,
        r.wf(),
{
    Participant::create(id, owner, eligibility_proof, now)
}

/// Enrolls a participant in a study: raises the study's counters and
/// opens an enrollment record on the participant.
///
/// Fails with `Unauthorized` when the actor does not own the
/// participant record, with `StudyInactive` or `StudyFull` by the
/// study's capacity rule, and with `ArithmeticOverflow` when a counter
/// cannot grow; on failure nothing changes.
pub fn join_study(
    study: &mut Study,
    participant: &mut Participant,
    actor: AccountId,
    now: i64,
) -> (r: Result<(), RecruSearchError>)
    requires
        old(participant).wf(),
        old(study).wf(),
    ensures
        r is Ok <==> actor == old(participant).owner && old(study).accepts_participants() && old(
            study,
        ).analytics.total_participants < u32::MAX && old(participant).active_studies < u32::MAX,
        actor != old(participant).owner ==> (r matches Err(e)
            && e == RecruSearchError::Unauthorized),
        actor == old(participant).owner && old(study).status != crate::study::StudyStatus::Active
            ==> (r matches Err(e) && e == RecruSearchError::StudyInactive),
        actor == old(participant).owner && old(study).status == crate::study::StudyStatus::Active
            && old(study).current_participants >= old(study).max_participants ==> (r matches Err(
        e,
        ) && e == RecruSearchError::StudyFull),
        r is Err ==> *final(study) == *old(study) && *final(participant) == *old(participant),
        r is Ok ==> *final(study) == (Study {
            current_participants: (old(study).current_participants + 1) as u32,
            analytics: (crate::study::StudyAnalytics {
                total_participants: (old(study).analytics.total_participants + 1) as u32,
                ..old(study).analytics
            }),
            ..*old(study)
        }),
        r is Ok ==> *final(participant) == (Participant {
            active_studies: (old(participant).active_studies + 1) as u32,
            profile: (ParticipantProfile {
                active_studies: final(participant).profile.active_studies,
                ..old(participant).profile
            }),
            ..*old(participant)
        }),
        r is Ok ==> final(participant).profile.active_studies@ == old(
            participant,
        ).profile.active_studies@.push(
            crate::participant::ActiveStudy {
                study_id: old(study).id,
                start_date: now,
                progress: 0u8,
                last_update: now,
            },
        ),
        final(study).wf(),
        final(participant).wf(),
{
    auth::authorize(actor, RequiredRole::ResourceOwner, participant.owner)?;
    if participant.active_studies == u32::MAX {
        study.can_accept_participants()?;
        return Err(RecruSearchError::ArithmeticOverflow);
    }
    let study_id = study.id;
    study.add_participant()?;
    let _ = participant.increment_active_studies(study_id, now);
    Ok(())
}

/// Stores a participant's progress report for one study.
///
/// Fails with `Unauthorized` when the actor does not own the
/// participant record, with `InvalidProgress` when the value exceeds
/// 100, and with `StudyNotFound` when the participant has no open
/// enrollment record for the study; on failure nothing changes.
pub fn track_study_progress(
    study: &Study,
    participant: &mut Participant,
    actor: AccountId,
    progress: u8,
    now: i64,
) -> (r: Result<(), RecruSearchError>)
    requires
        old(participant).wf(),
    ensures
        r is Ok <==> actor == old(participant).owner && progress <= 100 && has_active_record(
            old(participant).profile.active_studies@,
            study.id,
        ),
        actor != old(participant).owner ==> (r matches Err(e)
            && e == RecruSearchError::Unauthorized),
        actor == old(participant).owner && progress > 100 ==> (r matches Err(e)
            && e == RecruSearchError::InvalidProgress),
        actor == old(participant).owner && progress <= 100 && !has_active_record(
            old(participant).profile.active_studies@,
            study.id,
        ) ==> (r matches Err(e) && e == RecruSearchError::StudyNotFound),
        r is Err ==> *final(participant) == *old(participant),
        r is Ok ==> exists|i: int|
            {
                &&& 0 <= i < old(participant).profile.active_studies@.len()
                &&& old(participant).profile.active_studies@[i].study_id == study.id
                &&& final(participant).profile.active_studies@ == old(
                    participant,
                ).profile.active_studies@.update(
                    i,
                    crate::participant::ActiveStudy {
                        progress,
                        last_update: now,
                        ..old(participant).profile.active_studies@[i]
                    },
                )
            },
        final(participant).wf(),
{
    auth::authorize(actor, RequiredRole::ResourceOwner, participant.owner)?;
    if progress > 100 {
        return Err(RecruSearchError::InvalidProgress);
    }
    participant.update_progress_record(study.id, progress, now)
}

/// Applies a moderation action to a participant: admin-only, along the
/// legal table.
///
/// Fails with `UnauthorizedAdmin` for any actor but the authority and
/// with `InvalidParticipantAction` for a pair outside the table; on
/// failure nothing changes.
pub fn manage_participant(
    admin: &mut Admin,
    participant: &mut Participant,
    actor: AccountId,
    action: ParticipantAction,
    now: i64,
) -> (r: Result<(), RecruSearchError>)
    ensures
        r is Ok <==> actor == old(admin).authority && participant_action_allowed(
            old(participant).status,
            action,
        ),
        actor != old(admin).authority ==> (r matches Err(e)
            && e == RecruSearchError::UnauthorizedAdmin),
        actor == old(admin).authority && !participant_action_allowed(
            old(participant).status,
            action,
        ) ==> (r matches Err(e) && e == RecruSearchError::InvalidParticipantAction),
        r is Err ==> *final(admin) == *old(admin) && *final(participant) == *old(participant),
        r is Ok ==> *final(participant) == (Participant {
            status: action_target(action),
            ..*old(participant)
        }),
        r is Ok ==> *final(admin) == (Admin { last_updated: now, ..*old(admin) }),
{
    admin.authorize(&actor)?;
    participant.apply_action(action)?;
    admin.last_updated = now;
    Ok(())
}

/// Replaces a participant's interest list; self-service.
///
/// Fails with `Unauthorized` when the actor does not own the record.
pub fn update_participant_profile(
    participant: &mut Participant,
    actor: AccountId,
    interests: Vec<String>,
) -> (r: Result<(), RecruSearchError>)
    ensures
        r is Ok <==> actor == old(participant).owner,
        r is Err ==> *final(participant) == *old(participant)
            && (r matches Err(e) && e == RecruSearchError::Unauthorized),
        r is Ok ==> *final(participant) == (Participant {
            profile: (ParticipantProfile { interests, ..old(participant).profile }),
            ..*old(participant)
        }),
{
    auth::authorize(actor, RequiredRole::ResourceOwner, participant.owner)?;
    participant.update_interests(interests);
    Ok(())
}

/// Replaces a participant's interest list; self-service.
///
/// Fails with `Unauthorized` when the actor does not own the record.
pub fn update_interests(
    participant: &mut Participant,
    actor: AccountId,
    interests: Vec<String>,
) -> (r: Result<(), RecruSearchError>)
    ensures
        r is Ok <==> actor == old(participant).owner,
        r is Err ==> *final(participant) == *old(participant)
            && (r matches Err(e) && e == RecruSearchError::Unauthorized),
        r is Ok ==> *final(participant) == (Participant {
            profile: (ParticipantProfile { interests, ..old(participant).profile }),
            ..*old(participant)
        }),
{
    auth::authorize(actor, RequiredRole::ResourceOwner, participant.owner)?;
    participant.update_interests(interests);
    Ok(())
}

/// Sets the consent registry up; admin-only.
///
/// Fails with `UnauthorizedAdmin` for any actor but the authority.
pub fn initialize_consent_nft(admin: &Admin, actor: AccountId) -> (r: Result<
    ConsentRegistry,
    RecruSearchError,
>)
    ensures
        r is Ok <==> actor == admin.authority,
        r is Err ==> (r matches Err(e) && e == RecruSearchError::UnauthorizedAdmin),
        r matches Ok(reg) ==> reg.authority == admin.authority && reg.consents@ =~= Seq::<
            crate::consent::Consent,
        >::empty() && reg.total_issued == 0 && reg.total_revoked == 0,
{
    admin.authorize(&actor)?;
    Ok(ConsentRegistry::new(admin.authority))
}

/// Issues a consent to an eligible participant for a study and reports
/// the audit event. The credential itself is minted by the host's asset
/// collaborator within the same atomic unit.
///
/// Fails with `Unauthorized` when the actor does not own the
/// participant record, then by the registry's issuance rule
/// (`ParticipantNotEligible`, `DuplicateConsent`, overflow); on failure
/// nothing changes, and the consent bookkeeping is preserved either
/// way.
pub fn issue_consent_nft(
    registry: &mut ConsentRegistry,
    study: &mut Study,
    participant: &mut Participant,
    actor: AccountId,
    consent_version: String,
    consent_hash: String,
    now: i64,
) -> (r: Result<ConsentIssued, RecruSearchError>)
    requires
        old(participant).wf(),
        consent_sync(old(registry).consents@, *old(participant)),
    ensures
        r is Ok <==> actor == old(participant).owner && old(participant).spec_eligible(*old(study))
            && !old(participant).has_active_consent && old(registry).total_issued < u64::MAX
            && old(study).consented_participants < u32::MAX,
        actor != old(participant).owner ==> (r matches Err(e)
            && e == RecruSearchError::Unauthorized),
        actor == old(participant).owner && !old(participant).spec_eligible(*old(study)) ==> (
        r matches Err(e) && e == RecruSearchError::ParticipantNotEligible),
        actor == old(participant).owner && old(participant).spec_eligible(*old(study)) && old(
            participant,
        ).has_active_consent ==> (r matches Err(e) && e == RecruSearchError::DuplicateConsent),
        r is Err ==> *final(registry) == *old(registry) && *final(study) == *old(study) && *final(participant) == *old(participant),
        r is Ok ==> final(registry).consents@ == old(registry).consents@.push(
            crate::consent::Consent {
                participant_id: old(participant).id,
                study_id: old(study).id,
                version: consent_version,
                consent_hash,
                issued_at: now,
                revoked_at: None,
                is_active: true,
            },
        ),
        r is Ok ==> *final(participant) == (Participant {
            has_active_consent: true,
            consent_issued_at: now,
            consent_revoked_at: None,
            ..*old(participant)
        }),
        r is Ok ==> *final(study) == (Study {
            consented_participants: (old(study).consented_participants + 1) as u32,
            ..*old(study)
        }),
        r matches Ok(event) ==> event.participant == old(participant).id && event.study == old(
            study,
        ).id && event.version@ == consent_version@ && event.hash@ == consent_hash@
            && event.timestamp == now,
        consent_sync(final(registry).consents@, *final(participant)),
        forall|other: AccountId|
            other != old(participant).id ==> count_active(final(registry).consents@, other)
                == count_active(old(registry).consents@, other),
        final(participant).wf(),
{
    auth::authorize(actor, RequiredRole::ResourceOwner, participant.owner)?;
    let event_version = consent_version.clone();
    let event_hash = consent_hash.clone();
    let participant_id = participant.id;
    let study_id = study.id;
    registry.issue(study, participant, consent_version, consent_hash, now)?;
    Ok(
        ConsentIssued {
            participant: participant_id,
            study: study_id,
            version: event_version,
            hash: event_hash,
            timestamp: now,
        },
    )
}

/// Revokes a participant's active consent and reports the audit event.
/// The credential itself is burnt by the host's asset collaborator
/// within the same atomic unit.
///
/// Fails with `Unauthorized` when the actor does not own the
/// participant record, then by the registry's revocation rule
/// (`NoActiveConsent`, `StudyNotFound`, overflow); on failure nothing
/// changes, and the consent bookkeeping is preserved either way.
pub fn revoke_consent(
    registry: &mut ConsentRegistry,
    study: &mut Study,
    participant: &mut Participant,
    actor: AccountId,
    now: i64,
) -> (r: Result<ConsentRevoked, RecruSearchError>)
    requires
        consent_sync(old(registry).consents@, *old(participant)),
    ensures
        r is Ok <==> actor == old(participant).owner && old(participant).has_active_consent
            && first_active_matches_study(
            old(registry).consents@,
            old(participant).id,
            old(study).id,
        ) && old(registry).total_revoked < u64::MAX && old(study).consented_participants > 0,
        actor != old(participant).owner ==> (r matches Err(e)
            && e == RecruSearchError::Unauthorized),
        actor == old(participant).owner && !old(participant).has_active_consent ==> (
        r matches Err(e) && e == RecruSearchError::NoActiveConsent),
        r is Err ==> *final(registry) == *old(registry) && *final(study) == *old(study) && *final(participant) == *old(participant),
        r is Ok ==> *final(participant) == (Participant {
            has_active_consent: false,
            consent_revoked_at: Some(now),
            ..*old(participant)
        }),
        r is Ok ==> *final(study) == (Study {
            consented_participants: (old(study).consented_participants - 1) as u32,
            ..*old(study)
        }),
        r matches Ok(event) ==> event.participant == old(participant).id && event.timestamp == now,
        consent_sync(final(registry).consents@, *final(participant)),
        forall|other: AccountId|
            other != old(participant).id ==> count_active(final(registry).consents@, other)
                == count_active(old(registry).consents@, other),
{
    auth::authorize(actor, RequiredRole::ResourceOwner, participant.owner)?;
    let participant_id = participant.id;
    registry.revoke(study, participant, now)?;
    Ok(ConsentRevoked { participant: participant_id, timestamp: now })
}

/// Initializes a participant's reward ledger, binding it to an external
/// wallet address, and reports the audit event.
///
/// Fails with `Unauthorized` when the actor is not the ledger's
/// participant and with `AlreadyInitialized` the second time; on
/// failure nothing changes.
pub fn initialize_phantom_wallet(
    wallet: &mut ParticipantWallet,
    actor: AccountId,
    phantom_public_key: AccountId,
    now: i64,
) -> (r: Result<WalletInitialized, RecruSearchError>)
    ensures
        r is Ok <==> actor == old(wallet).participant && !old(wallet).is_initialized,
        actor != old(wallet).participant ==> (r matches Err(e)
            && e == RecruSearchError::Unauthorized),
        actor == old(wallet).participant && old(wallet).is_initialized ==> (r matches Err(e)
            && e == RecruSearchError::AlreadyInitialized),
        r is Err ==> *final(wallet) == *old(wallet),
        r is Ok ==> *final(wallet) == (ParticipantWallet {
            phantom_public_key,
            is_initialized: true,
            is_active: true,
            created_at: now,
            last_activity: now,
            ..*old(wallet)
        }),
        r matches Ok(event) ==> event == (WalletInitialized {
            participant: old(wallet).participant,
            phantom_public_key,
            timestamp: now,
        }),
        old(wallet).wf() ==> final(wallet).wf(),
{
    auth::authorize(actor, RequiredRole::ResourceOwner, wallet.participant)?;
    let participant = wallet.participant;
    wallet.initialize(phantom_public_key, now)?;
    Ok(WalletInitialized { participant, phantom_public_key, timestamp: now })
}

/// Credits a reward to a participant's ledger and reports the audit
/// event. The token transfer itself is the host's concern.
///
/// Fails with `Unauthorized` when the actor is not the ledger's
/// participant, then by the ledger's crediting rule (`InactiveWallet`,
/// `InvalidRewardAmount`, `RewardOverflow`); on failure nothing
/// changes.
pub fn receive_reward(
    wallet: &mut ParticipantWallet,
    actor: AccountId,
    study_id: AccountId,
    amount: u64,
    now: i64,
) -> (r: Result<RewardReceived, RecruSearchError>)
    requires
        old(wallet).wf(),
    ensures
        r is Ok <==> actor == old(wallet).participant && old(wallet).is_active && amount > 0
            && old(wallet).total_rewards + amount <= u64::MAX,
        actor != old(wallet).participant ==> (r matches Err(e)
            && e == RecruSearchError::Unauthorized),
        actor == old(wallet).participant && !old(wallet).is_active ==> (r matches Err(e)
            && e == RecruSearchError::InactiveWallet),
        actor == old(wallet).participant && old(wallet).is_active && amount == 0 ==> (
        r matches Err(e) && e == RecruSearchError::InvalidRewardAmount),
        actor == old(wallet).participant && old(wallet).is_active && amount > 0 && old(
            wallet,
        ).total_rewards + amount > u64::MAX ==> (r matches Err(e)
            && e == RecruSearchError::RewardOverflow),
        r is Err ==> *final(wallet) == *old(wallet),
        r is Ok ==> final(wallet).total_rewards == old(wallet).total_rewards + amount,
        r is Ok ==> final(wallet).rewards@ == old(wallet).rewards@.push(
            crate::wallet::Reward { study_id, amount, timestamp: now },
        ),
        r is Ok ==> *final(wallet) == (ParticipantWallet {
            total_rewards: (old(wallet).total_rewards + amount) as u64,
            rewards: final(wallet).rewards,
            transactions: final(wallet).transactions,
            last_reward_at: now,
            last_activity: now,
            ..*old(wallet)
        }),
        r matches Ok(event) ==> event == (RewardReceived {
            participant: old(wallet).participant,
            study: study_id,
            amount,
            timestamp: now,
        }),
        final(wallet).total_rewards >= old(wallet).total_rewards,
        final(wallet).wf(),
{
    auth::authorize(actor, RequiredRole::ResourceOwner, wallet.participant)?;
    let participant = wallet.participant;
    wallet.add_reward(study_id, amount, now)?;
    Ok(RewardReceived { participant, study: study_id, amount, timestamp: now })
}

/// Replaces a wallet's metadata link and reports the audit event.
///
/// Fails with `Unauthorized` when the actor is not the ledger's
/// participant; on failure nothing changes.
pub fn update_wallet_metadata(
    wallet: &mut ParticipantWallet,
    actor: AccountId,
    metadata_uri: Option<String>,
    now: i64,
) -> (r: Result<WalletMetadataUpdated, RecruSearchError>)
    ensures
        r is Ok <==> actor == old(wallet).participant,
        r is Err ==> *final(wallet) == *old(wallet)
            && (r matches Err(e) && e == RecruSearchError::Unauthorized),
        r is Ok ==> *final(wallet) == (ParticipantWallet {
            metadata_uri,
            last_activity: now,
            ..*old(wallet)
        }),
        r matches Ok(event) ==> event.participant == old(wallet).participant && event.timestamp
            == now && (match (event.metadata_uri, metadata_uri) {
            (Some(reported), Some(stored)) => reported@ == stored@,
            (None, None) => true,
            _ => false,
        }),
        old(wallet).wf() ==> final(wallet).wf(),
{
    auth::authorize(actor, RequiredRole::ResourceOwner, wallet.participant)?;
    let participant = wallet.participant;
    let event_uri: Option<String> = match &metadata_uri {
        Some(uri) => Some(uri.clone()),
        None => None,
    };
    wallet.update_metadata_uri(metadata_uri, now);
    Ok(WalletMetadataUpdated { participant, metadata_uri: event_uri, timestamp: now })
}

/// Moves a study along the legal status table: admin-only; keeps the
/// dashboard's live count of active studies in step, and folds the
/// study's figures into the statistics on its first activation.
///
/// Fails with `UnauthorizedAdmin` for any actor but the authority, with
/// `InvalidStatusTransition` for a pair outside the table, and with
/// `ArithmeticOverflow` when the dashboard cannot take the change; on
/// failure nothing changes. The study's own counters are never touched.
pub fn update_study_status(
    admin: &mut Admin,
    study: &mut Study,
    actor: AccountId,
    new_status: StudyStatus,
    now: i64,
) -> (r: Result<(), RecruSearchError>)
    requires
        old(study).wf(),
    ensures
        r is Ok <==> actor == old(admin).authority && status_transition_allowed(
            old(study).status,
            new_status,
        ) && status_dashboard_ok(old(admin).dashboard, old(study).status, new_status, *old(study), now),
        actor != old(admin).authority ==> (r matches Err(e)
            && e == RecruSearchError::UnauthorizedAdmin),
        actor == old(admin).authority && !status_transition_allowed(old(study).status, new_status)
            ==> (r matches Err(e) && e == RecruSearchError::InvalidStatusTransition),
        actor == old(admin).authority && status_transition_allowed(old(study).status, new_status)
            && !status_dashboard_ok(
            old(admin).dashboard,
            old(study).status,
            new_status,
            *old(study),
            now,
        ) ==> (r matches Err(e) && e == RecruSearchError::ArithmeticOverflow),
        r is Err ==> *final(admin) == *old(admin) && *final(study) == *old(study),
        r is Ok ==> *final(study) == (Study { status: new_status, ..*old(study) }),
        r is Ok ==> *final(admin) == (Admin {
            dashboard: final(admin).dashboard,
            last_updated: now,
            ..*old(admin)
        }),
        r is Ok && old(study).status == StudyStatus::PendingReview && new_status
            == StudyStatus::Active ==> crate::admin::dashboard_absorbs(
            old(admin).dashboard,
            (crate::admin::AdminDashboard {
                active_studies: old(admin).dashboard.active_studies,
                ..final(admin).dashboard
            }),
            *old(study),
            now,
        ) && final(admin).dashboard.active_studies == old(admin).dashboard.active_studies + 1,
        r is Ok && old(study).status == StudyStatus::Suspended && new_status
            == StudyStatus::Active ==> final(admin).dashboard == (crate::admin::AdminDashboard {
            active_studies: (old(admin).dashboard.active_studies + 1) as u32,
            ..old(admin).dashboard
        }),
        r is Ok && old(study).status == StudyStatus::Active ==> final(admin).dashboard == (
        crate::admin::AdminDashboard {
            active_studies: (old(admin).dashboard.active_studies - 1) as u32,
            ..old(admin).dashboard
        }),
        r is Ok && new_status != StudyStatus::Active && old(study).status != StudyStatus::Active
            ==> final(admin).dashboard == old(admin).dashboard,
        final(study).wf(),
{
    admin.authorize(&actor)?;
    let from = study.status;
    if !transition_allowed(from, new_status) {
        return Err(RecruSearchError::InvalidStatusTransition);
    }
    let entering = matches!(new_status, StudyStatus::Active) && !matches!(
        from,
        StudyStatus::Active
    );
    let leaving = matches!(from, StudyStatus::Active) && !matches!(
        new_status,
        StudyStatus::Active
    );
    if entering && admin.dashboard.active_studies == u32::MAX {
        return Err(RecruSearchError::ArithmeticOverflow);
    }
    if leaving && admin.dashboard.active_studies == 0 {
        return Err(RecruSearchError::ArithmeticOverflow);
    }
    if matches!(from, StudyStatus::PendingReview) && matches!(new_status, StudyStatus::Active) {
        admin.dashboard.update_metrics(study, now)?;
    }
    if entering {
        admin.dashboard.active_studies = admin.dashboard.active_studies + 1;
    }
    if leaving {
        admin.dashboard.active_studies = admin.dashboard.active_studies - 1;
    }
    admin.last_updated = now;
    let _ = study.transition(new_status);
    Ok(())
}

/// Completes one participant's enrollment in a study: marks the
/// completion on the study, moves the participant's enrollment record
/// from open to completed, counts the enrollee for the researcher,
/// credits the study's reward to the participant's ledger and adds it
/// to the platform's distributed total. The token movement itself is
/// the host's concern, within the same atomic unit.
///
/// Fails with `Unauthorized` when the records do not belong together or
/// the actor does not own the researcher record, with `WalletMismatch`
/// when the ledger is not the participant's, with `StudyNotFound` when
/// no open enrollment record names the study, with
/// `StudyCompletionCriteriaNotMet` when the study has no uncompleted
/// enrollee left, with `InactiveWallet`, `InvalidRewardAmount` or
/// `RewardOverflow` by the ledger's crediting rule, and with
/// `ArithmeticOverflow` when another counter cannot move; on failure
/// nothing changes anywhere.
pub fn complete_study(
    study: &mut Study,
    participant: &mut Participant,
    researcher: &mut Researcher,
    wallet: &mut ParticipantWallet,
    admin: &mut Admin,
    actor: AccountId,
    now: i64,
) -> (r: Result<(), RecruSearchError>)
    requires
        old(study).wf(),
        old(participant).wf(),
        old(researcher).wf(),
        old(wallet).wf(),
    ensures
        r is Ok <==> complete_study_allowed(
            *old(study),
            *old(participant),
            *old(researcher),
            *old(wallet),
            *old(admin),
            actor,
        ),
        r is Err ==> *final(study) == *old(study) && *final(participant) == *old(participant)
            && *final(researcher) == *old(researcher) && *final(wallet) == *old(wallet) && *final(admin) == *old(admin),
        !(old(study).owner == old(researcher).id && actor == old(researcher).owner) ==> (
        r matches Err(e) && e == RecruSearchError::Unauthorized),
        old(study).owner == old(researcher).id && actor == old(researcher).owner && old(
            wallet,
        ).participant != old(participant).owner ==> (r matches Err(e)
            && e == RecruSearchError::WalletMismatch),
        old(study).owner == old(researcher).id && actor == old(researcher).owner && old(
            wallet,
        ).participant == old(participant).owner && !has_active_record(
            old(participant).profile.active_studies@,
            old(study).id,
        ) ==> (r matches Err(e) && e == RecruSearchError::StudyNotFound),
        old(study).owner == old(researcher).id && actor == old(researcher).owner && old(
            wallet,
        ).participant == old(participant).owner && has_active_record(
            old(participant).profile.active_studies@,
            old(study).id,
        ) && old(study).completed_participants >= old(study).current_participants ==> (
        r matches Err(e) && e == RecruSearchError::StudyCompletionCriteriaNotMet),
        r is Ok ==> *final(study) == (Study {
            completed_participants: (old(study).completed_participants + 1) as u32,
            ..*old(study)
        }),
        r is Ok ==> *final(participant) == (Participant {
            active_studies: (old(participant).active_studies - 1) as u32,
            completed_studies: (old(participant).completed_studies + 1) as u32,
            profile: (ParticipantProfile {
                active_studies: final(participant).profile.active_studies,
                completed_studies: final(participant).profile.completed_studies,
                ..old(participant).profile
            }),
            ..*old(participant)
        }),
        r is Ok ==> final(participant).profile.completed_studies@ =~= old(
            participant,
        ).profile.completed_studies@.push(
            crate::participant::CompletedStudy {
                study_id: old(study).id,
                completion_date: now,
                reward_amount: old(study).reward_amount,
                rating: None,
                feedback: None,
            },
        ),
        r is Ok ==> *final(researcher) == (Researcher {
            total_participants: (old(researcher).total_participants + 1) as u32,
            ..*old(researcher)
        }),
        r is Ok ==> final(wallet).total_rewards == old(wallet).total_rewards + old(
            study,
        ).reward_amount,
        r is Ok ==> final(wallet).rewards@ == old(wallet).rewards@.push(
            crate::wallet::Reward {
                study_id: old(study).id,
                amount: old(study).reward_amount,
                timestamp: now,
            },
        ),
        r is Ok ==> *final(admin) == (Admin {
            dashboard: (crate::admin::AdminDashboard {
                total_rewards_distributed: (old(admin).dashboard.total_rewards_distributed + old(
                    study,
                ).reward_amount) as u64,
                ..old(admin).dashboard
            }),
            last_updated: now,
            ..*old(admin)
        }),
        final(study).wf(),
        final(participant).wf(),
        final(researcher).wf(),
        final(wallet).wf(),
{
    if !(study.owner.value == researcher.id.value) || !(actor.value == researcher.owner.value) {
        return Err(RecruSearchError::Unauthorized);
    }
    if !(wallet.participant.value == participant.owner.value) {
        return Err(RecruSearchError::WalletMismatch);
    }
    if participant.find_active_record(study.id).is_none() {
        return Err(RecruSearchError::StudyNotFound);
    }
    if study.completed_participants >= study.current_participants {
        return Err(RecruSearchError::StudyCompletionCriteriaNotMet);
    }
    if participant.completed_studies == u32::MAX {
        return Err(RecruSearchError::ArithmeticOverflow);
    }
    if researcher.total_participants == u32::MAX {
        return Err(RecruSearchError::ArithmeticOverflow);
    }
    if !wallet.is_active {
        return Err(RecruSearchError::InactiveWallet);
    }
    if study.reward_amount == 0 {
        return Err(RecruSearchError::InvalidRewardAmount);
    }
    if study.reward_amount > u64::MAX - wallet.total_rewards {
        return Err(RecruSearchError::RewardOverflow);
    }
    if study.reward_amount > u64::MAX - admin.dashboard.total_rewards_distributed {
        return Err(RecruSearchError::ArithmeticOverflow);
    }
    let study_id = study.id;
    let reward = study.reward_amount;
    let _ = study.complete_participant();
    let _ = participant.complete_enrollment(study_id, now, reward);
    let _ = researcher.update_total_participants(1);
    let _ = wallet.add_reward(study_id, reward, now);
    admin.dashboard.total_rewards_distributed = admin.dashboard.total_rewards_distributed
        + reward;
    admin.last_updated = now;
    Ok(())
}

/// When a completion succeeds: the records belong together, the actor
/// owns the researcher record, an open enrollment record names the
/// study, the study has an uncompleted enrollee left, every counter can
/// move, and the ledger accepts the study's reward.
pub open spec fn complete_study_allowed(
    study: Study,
    participant: Participant,
    researcher: Researcher,
    wallet: ParticipantWallet,
    admin: Admin,
    actor: AccountId,
) -> bool {
    &&& study.owner == researcher.id
    &&& actor == researcher.owner
    &&& wallet.participant == participant.owner
    &&& has_active_record(participant.profile.active_studies@, study.id)
    &&& study.completed_participants < study.current_participants
    &&& participant.completed_studies < u32::MAX
    &&& researcher.total_participants < u32::MAX
    &&& wallet.is_active
    &&& study.reward_amount > 0
    &&& wallet.total_rewards + study.reward_amount <= u64::MAX
    &&& admin.dashboard.total_rewards_distributed + study.reward_amount <= u64::MAX
}

/// Submits a participant's feedback for a completed study: folds the
/// rating into the study's running analytics and stores the rating and
/// text in the participant's completed record.
///
/// Fails with `Unauthorized` when the actor does not own the
/// participant record, with `InvalidRating` when the rating is outside
/// 1..=5, with `FeedbackTooLong` when the text exceeds the cap, with
/// `StudyNotFound` when the participant has no completed record for the
/// study, and with `ArithmeticOverflow` when the rating count cannot
/// grow; on failure nothing changes.
pub fn submit_study_feedback(
    study: &mut Study,
    participant: &mut Participant,
    actor: AccountId,
    rating: u8,
    feedback: Option<String>,
    now: i64,
) -> (r: Result<(), RecruSearchError>)
    requires
        old(study).wf(),
        old(participant).wf(),
    ensures
        r is Ok <==> actor == old(participant).owner && 1 <= rating <= 5 && crate::study::feedback_fits(
            &feedback,
        ) && crate::participant::has_completed_record(
            old(participant).profile.completed_studies@,
            old(study).id,
        ) && old(study).analytics.rating_count < u32::MAX,
        actor != old(participant).owner ==> (r matches Err(e)
            && e == RecruSearchError::Unauthorized),
        actor == old(participant).owner && !(1 <= rating <= 5) ==> (r matches Err(e)
            && e == RecruSearchError::InvalidRating),
        actor == old(participant).owner && 1 <= rating <= 5 && !crate::study::feedback_fits(
            &feedback,
        ) ==> (r matches Err(e) && e == RecruSearchError::FeedbackTooLong),
        actor == old(participant).owner && 1 <= rating <= 5 && crate::study::feedback_fits(
            &feedback,
        ) && !crate::participant::has_completed_record(
            old(participant).profile.completed_studies@,
            old(study).id,
        ) ==> (r matches Err(e) && e == RecruSearchError::StudyNotFound),
        r is Err ==> *final(study) == *old(study) && *final(participant) == *old(participant),
        r is Ok ==> *final(study) == (Study {
            analytics: (crate::study::StudyAnalytics {
                rating_sum: (old(study).analytics.rating_sum + rating) as u64,
                rating_count: (old(study).analytics.rating_count + 1) as u32,
                ..old(study).analytics
            }),
            ..*old(study)
        }),
        r is Ok ==> exists|i: int|
            {
                &&& 0 <= i < old(participant).profile.completed_studies@.len()
                &&& old(participant).profile.completed_studies@[i].study_id == old(study).id
                &&& final(participant).profile.completed_studies@ == old(
                    participant,
                ).profile.completed_studies@.update(
                    i,
                    crate::participant::CompletedStudy {
                        rating: Some(rating),
                        feedback,
                        ..old(participant).profile.completed_studies@[i]
                    },
                )
            },
        final(study).wf(),
        final(participant).wf(),
{
    auth::authorize(actor, RequiredRole::ResourceOwner, participant.owner)?;
    if rating < 1 || rating > 5 {
        return Err(RecruSearchError::InvalidRating);
    }
    match &feedback {
        Some(text) => {
            if text.as_str().unicode_len() > crate::study::MAX_FEEDBACK_CHARS {
                return Err(RecruSearchError::FeedbackTooLong);
            }
        },
        None => {},
    }
    if participant.find_completed_record(study.id).is_none() {
        return Err(RecruSearchError::StudyNotFound);
    }
    if study.analytics.rating_count == u32::MAX {
        return Err(RecruSearchError::ArithmeticOverflow);
    }
    let study_id = study.id;
    let _ = participant.record_feedback(study_id, rating, feedback);
    let _ = study.submit_feedback(rating, &None);
    Ok(())
}

} // verus!
