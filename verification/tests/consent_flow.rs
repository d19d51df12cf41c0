use recru_search::account::AccountId;
use recru_search::consent::ConsentRegistry;
use recru_search::error::RecruSearchError;
use recru_search::ops;
use recru_search::participant::ActiveStudy;
use recru_search::participant::CompletedStudy;
use recru_search::participant::Participant;
use recru_search::study::Study;
use recru_search::study::StudyStatus;
use recru_search::study::StudyType;

const OWNER: u64 = 300;

fn eligible_participant() -> Participant {
    let mut p = Participant::create(
        AccountId::new(100),
        AccountId::new(OWNER),
        String::from("proof"),
        0,
    );
    p.reputation_score = 10;
    p
}

fn active_study(id: u64) -> Study {
    let mut study = Study::create(
        AccountId::new(id),
        AccountId::new(1),
        String::from("title"),
        String::from("description"),
        String::from("criteria"),
        50,
        10,
        StudyType::Survey,
        0,
    )
    .unwrap();
    study.transition(StudyStatus::PendingReview).unwrap();
    study.transition(StudyStatus::Active).unwrap();
    study
}

fn registry() -> ConsentRegistry {
    ConsentRegistry::new(AccountId::new(1))
}

fn issue(
    reg: &mut ConsentRegistry,
    study: &mut Study,
    p: &mut Participant,
    now: i64,
) -> Result<recru_search::events::ConsentIssued, RecruSearchError> {
    ops::issue_consent_nft(
        reg,
        study,
        p,
        AccountId::new(OWNER),
        String::from("v1"),
        String::from("hash-1"),
        now,
    )
}

#[test]
fn issuance_sets_the_flag_and_counts() {
    let mut reg = registry();
    let mut study = active_study(10);
    let mut p = eligible_participant();
    let event = issue(&mut reg, &mut study, &mut p, 500).unwrap();
    assert!(p.has_active_consent);
    assert_eq!(p.consent_issued_at, 500);
    assert_eq!(study.consented_participants, 1);
    assert_eq!(reg.total_issued, 1);
    assert_eq!(reg.consents.len(), 1);
    assert!(reg.consents[0].is_active);
    assert_eq!(reg.consents[0].version, "v1");
    assert_eq!(event.participant, AccountId::new(100));
    assert_eq!(event.study, AccountId::new(10));
    assert_eq!(event.version, "v1");
    assert_eq!(event.timestamp, 500);
}

#[test]
fn second_issuance_is_a_duplicate() {
    let mut reg = registry();
    let mut study = active_study(10);
    let mut p = eligible_participant();
    issue(&mut reg, &mut study, &mut p, 500).unwrap();
    let r = issue(&mut reg, &mut study, &mut p, 501);
    assert_eq!(r.unwrap_err(), RecruSearchError::DuplicateConsent);
    assert_eq!(reg.total_issued, 1);
    assert_eq!(study.consented_participants, 1);
}

#[test]
fn revocation_is_one_way_and_twice_fails() {
    let mut reg = registry();
    let mut study = active_study(10);
    let mut p = eligible_participant();
    issue(&mut reg, &mut study, &mut p, 500).unwrap();

    let event = ops::revoke_consent(&mut reg, &mut study, &mut p, AccountId::new(OWNER), 600)
        .unwrap();
    assert!(!p.has_active_consent);
    assert_eq!(p.consent_revoked_at, Some(600));
    assert_eq!(study.consented_participants, 0);
    assert_eq!(reg.total_revoked, 1);
    assert!(!reg.consents[0].is_active);
    assert_eq!(reg.consents[0].revoked_at, Some(600));
    assert!(!reg.consents[0].is_valid());
    assert_eq!(event.participant, AccountId::new(100));

    let again = ops::revoke_consent(&mut reg, &mut study, &mut p, AccountId::new(OWNER), 601);
    assert_eq!(again.unwrap_err(), RecruSearchError::NoActiveConsent);
    assert_eq!(reg.total_revoked, 1);
}

#[test]
fn reissue_after_revocation_creates_a_second_record() {
    let mut reg = registry();
    let mut study = active_study(10);
    let mut p = eligible_participant();
    issue(&mut reg, &mut study, &mut p, 500).unwrap();
    ops::revoke_consent(&mut reg, &mut study, &mut p, AccountId::new(OWNER), 600).unwrap();
    issue(&mut reg, &mut study, &mut p, 700).unwrap();
    assert_eq!(reg.consents.len(), 2);
    assert!(!reg.consents[0].is_active);
    assert!(reg.consents[1].is_active);
    assert!(p.has_active_consent);
}

#[test]
fn issuance_at_the_enrollment_cap_fails_before_any_mutation() {
    let mut reg = registry();
    let mut study = active_study(10);
    let mut p = eligible_participant();
    for i in 0..3u64 {
        p.profile.active_studies.push(ActiveStudy {
            study_id: AccountId::new(900 + i),
            start_date: 0,
            progress: 0,
            last_update: 0,
        });
    }
    p.active_studies = 3;
    let r = issue(&mut reg, &mut study, &mut p, 500);
    assert_eq!(r.unwrap_err(), RecruSearchError::ParticipantNotEligible);
    assert!(!p.has_active_consent);
    assert_eq!(study.consented_participants, 0);
    assert_eq!(reg.total_issued, 0);
    assert_eq!(reg.consents.len(), 0);
}

#[test]
fn issuance_needs_reputation_and_a_fresh_study() {
    let mut reg = registry();
    let mut study = active_study(10);

    let mut poor = eligible_participant();
    poor.reputation_score = 9;
    let r = issue(&mut reg, &mut study, &mut poor, 500);
    assert_eq!(r.unwrap_err(), RecruSearchError::ParticipantNotEligible);

    let mut veteran = eligible_participant();
    veteran.profile.completed_studies.push(CompletedStudy {
        study_id: AccountId::new(10),
        completion_date: 0,
        reward_amount: 0,
        rating: None,
        feedback: None,
    });
    veteran.completed_studies = 1;
    let r = issue(&mut reg, &mut study, &mut veteran, 500);
    assert_eq!(r.unwrap_err(), RecruSearchError::ParticipantNotEligible);
}

#[test]
fn issuance_under_the_wrong_actor_fails() {
    let mut reg = registry();
    let mut study = active_study(10);
    let mut p = eligible_participant();
    let r = ops::issue_consent_nft(
        &mut reg,
        &mut study,
        &mut p,
        AccountId::new(999),
        String::from("v1"),
        String::from("hash-1"),
        500,
    );
    assert_eq!(r.unwrap_err(), RecruSearchError::Unauthorized);
}

#[test]
fn revocation_names_the_consents_study() {
    let mut reg = registry();
    let mut study = active_study(10);
    let mut other = active_study(11);
    let mut p = eligible_participant();
    issue(&mut reg, &mut study, &mut p, 500).unwrap();
    let r = ops::revoke_consent(&mut reg, &mut other, &mut p, AccountId::new(OWNER), 600);
    assert_eq!(r.unwrap_err(), RecruSearchError::StudyNotFound);
    assert!(p.has_active_consent);
}

#[test]
fn registry_setup_is_admin_only() {
    let admin = ops::initialize_admin(AccountId::new(1), 0);
    let r = ops::initialize_consent_nft(&admin, AccountId::new(2));
    assert_eq!(r.unwrap_err(), RecruSearchError::UnauthorizedAdmin);
    let reg = ops::initialize_consent_nft(&admin, AccountId::new(1)).unwrap();
    assert_eq!(reg.total_issued, 0);
    assert_eq!(reg.total_revoked, 0);
    assert_eq!(reg.consents.len(), 0);
}

#[test]
fn bookkeeping_check_sees_flag_and_ledger_disagree() {
    let mut reg = registry();
    let mut study = active_study(10);
    let mut p = eligible_participant();
    assert!(reg.is_synced(&p));
    issue(&mut reg, &mut study, &mut p, 500).unwrap();
    assert!(reg.is_synced(&p));
    p.has_active_consent = false;
    assert!(!reg.is_synced(&p));
}

#[test]
fn eligibility_predicate_matches_its_parts() {
    let study = active_study(10);
    let mut p = eligible_participant();
    assert!(p.is_eligible_for_study(&study));
    p.active_studies = 3;
    p.profile.active_studies = vec![
        ActiveStudy { study_id: AccountId::new(901), start_date: 0, progress: 0, last_update: 0 },
        ActiveStudy { study_id: AccountId::new(902), start_date: 0, progress: 0, last_update: 0 },
        ActiveStudy { study_id: AccountId::new(903), start_date: 0, progress: 0, last_update: 0 },
    ];
    assert!(!p.is_eligible_for_study(&study));
}
