//! Platform-wide laws, stated over the same spec functions the
//! operations' contracts use and proved once for all states.

use vstd::prelude::*;

use crate::account::AccountId;
use crate::admin::Admin;
use crate::admin::AdminDashboard;
use crate::consent::Consent;
use crate::consent::consent_sync;
use crate::consent::count_active;
use crate::participant::Participant;
use crate::study::Study;
use crate::study::StudyStatus;
use crate::study::status_transition_allowed;

verus! {

/// Law: a well-formed study never holds more enrollees than its
/// capacity, and never more completions than enrollees. Every
/// constructor establishes `wf` and every mutating operation preserves
/// it, so this holds of every study at all times.
pub proof fn law_study_counters_bounded(study: Study)
    requires
        study.wf(),
    ensures
        0 <= study.current_participants <= study.max_participants,
        study.completed_participants <= study.current_participants,
{
}

/// Law: under the consent bookkeeping that issuance and revocation
/// preserve, a participant's flag is true exactly when exactly one
/// active consent names them, and false exactly when none does.
pub proof fn law_consent_flag_counts(consents: Seq<Consent>, participant: Participant)
    requires
        consent_sync(consents, participant),
    ensures
        participant.has_active_consent <==> count_active(consents, participant.id) == 1,
        !participant.has_active_consent <==> count_active(consents, participant.id) == 0,
{
}

/// Law: a successful revocation leaves the participant without the
/// consent flag and without any active consent in the registry, so a
/// second revocation meets exactly the `NoActiveConsent` clause of the
/// revocation contract. The symmetric half — a successful issuance
/// leaves the flag set, so a second issuance meets exactly the
/// `DuplicateConsent` clause — is the flag itself and stands in the
/// issuance contract directly.
pub proof fn law_second_revocation_unfounded(consents: Seq<Consent>, after_revoke: Participant)
    requires
        !after_revoke.has_active_consent,
        consent_sync(consents, after_revoke),
    ensures
        count_active(consents, after_revoke.id) == 0,
        forall|i: int|
            0 <= i < consents.len() ==> !crate::consent::active_for(
                consents[i],
                after_revoke.id,
            ),
{
    lemma_count_zero_means_none(consents, after_revoke.id);
}

/// Law: a study may not move from `Draft` to `Active` directly; the
/// legal table routes every activation through `PendingReview`.
pub proof fn law_no_direct_activation()
    ensures
        !status_transition_allowed(StudyStatus::Draft, StudyStatus::Active),
        status_transition_allowed(StudyStatus::Draft, StudyStatus::PendingReview),
        status_transition_allowed(StudyStatus::PendingReview, StudyStatus::Active),
{
}

/// Law: suspending an active study and reactivating it returns every
/// record to where it started, up to the stamped times: the study is
/// exactly as before, and the dashboard's live count is back at its
/// old value. The two `requires` blocks are the successful-outcome
/// shapes of the status-update operation for `Active` to `Suspended`
/// and `Suspended` back to `Active`.
pub proof fn law_suspend_resume_roundtrip(
    study: Study,
    admin: Admin,
    mid_study: Study,
    mid_admin: Admin,
    end_study: Study,
    end_admin: Admin,
    now1: i64,
    now2: i64,
)
    requires
        study.status == StudyStatus::Active,
        admin.dashboard.active_studies > 0,
        mid_study == (Study { status: StudyStatus::Suspended, ..study }),
        mid_admin == (Admin {
            dashboard: (AdminDashboard {
                active_studies: (admin.dashboard.active_studies - 1) as u32,
                ..admin.dashboard
            }),
            last_updated: now1,
            ..admin
        }),
        end_study == (Study { status: StudyStatus::Active, ..mid_study }),
        end_admin == (Admin {
            dashboard: (AdminDashboard {
                active_studies: (mid_admin.dashboard.active_studies + 1) as u32,
                ..mid_admin.dashboard
            }),
            last_updated: now2,
            ..mid_admin
        }),
    ensures
        end_study == study,
        end_admin.dashboard == admin.dashboard,
        end_study.current_participants == study.current_participants,
        end_study.completed_participants == study.completed_participants,
        end_study.consented_participants == study.consented_participants,
        end_admin.dashboard.active_studies == admin.dashboard.active_studies,
{
}

/// A zero active-consent count means no record counts for the
/// participant.
proof fn lemma_count_zero_means_none(consents: Seq<Consent>, participant_id: AccountId)
    requires
        count_active(consents, participant_id) == 0,
    ensures
        forall|i: int|
            0 <= i < consents.len() ==> !crate::consent::active_for(consents[i], participant_id),
    decreases consents.len(),
{
    if consents.len() > 0 {
        lemma_count_zero_means_none(consents.drop_last(), participant_id);
        assert forall|i: int|
            0 <= i < consents.len() implies !crate::consent::active_for(
            consents[i],
            participant_id,
        ) by {
            if i < consents.len() - 1 {
                assert(consents.drop_last()[i] == consents[i]);
            }
        }
    }
}

} // verus!
