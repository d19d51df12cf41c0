use recru_search::account::AccountId;
use recru_search::admin::Admin;
use recru_search::error::RecruSearchError;
use recru_search::ops;
use recru_search::researcher::Credential;
use recru_search::researcher::Researcher;
use recru_search::researcher::ResearcherProfile;
use recru_search::researcher::VerificationStatus;
use recru_search::study::Study;
use recru_search::study::StudyType;

const ADMIN_KEY: u64 = 1;

fn fresh_admin() -> Admin {
    ops::initialize_admin(AccountId::new(ADMIN_KEY), 100)
}

fn registered(admin: &mut Admin) -> Researcher {
    ops::register_researcher(
        admin,
        AccountId::new(20),
        AccountId::new(30),
        String::from("MIT"),
        String::from("abc"),
        200,
    )
    .unwrap()
}

#[test]
fn registration_rejects_empty_institution() {
    let mut admin = fresh_admin();
    let r = ops::register_researcher(
        &mut admin,
        AccountId::new(20),
        AccountId::new(30),
        String::new(),
        String::from("abc"),
        200,
    );
    assert_eq!(r.unwrap_err(), RecruSearchError::InvalidInstitutionName);
    assert_eq!(admin.pending_verifications, 0);
}

#[test]
fn registration_rejects_empty_credentials() {
    let mut admin = fresh_admin();
    let r = ops::register_researcher(
        &mut admin,
        AccountId::new(20),
        AccountId::new(30),
        String::from("MIT"),
        String::new(),
        200,
    );
    assert_eq!(r.unwrap_err(), RecruSearchError::InvalidCredentials);
}

#[test]
fn registration_succeeds_unverified() {
    let mut admin = fresh_admin();
    let researcher = registered(&mut admin);
    assert!(!researcher.is_verified);
    assert_eq!(researcher.verification_status, VerificationStatus::Pending);
    assert_eq!(researcher.institution, "MIT");
    assert_eq!(researcher.credentials_hash, "abc");
    assert_eq!(admin.pending_verifications, 1);
}

#[test]
fn verification_is_admin_only_and_one_time() {
    let mut admin = fresh_admin();
    let mut researcher = registered(&mut admin);

    let r = ops::verify_researcher(&mut admin, &mut researcher, AccountId::new(99), 300);
    assert_eq!(r.unwrap_err(), RecruSearchError::UnauthorizedAdmin);
    assert!(!researcher.is_verified);

    ops::verify_researcher(&mut admin, &mut researcher, AccountId::new(ADMIN_KEY), 300).unwrap();
    assert!(researcher.is_verified);
    assert_eq!(researcher.reputation_score, 100);
    assert_eq!(admin.verified_researchers, 1);
    assert_eq!(admin.pending_verifications, 0);
    assert_eq!(admin.dashboard.total_researchers, 1);

    let again = ops::verify_researcher(&mut admin, &mut researcher, AccountId::new(ADMIN_KEY), 301);
    assert_eq!(again.unwrap_err(), RecruSearchError::AlreadyVerified);
}

#[test]
fn rejection_is_one_time_too() {
    let mut admin = fresh_admin();
    let mut researcher = registered(&mut admin);
    ops::reject_researcher(&mut admin, &mut researcher, AccountId::new(ADMIN_KEY), 300).unwrap();
    assert!(!researcher.is_verified);
    assert_eq!(researcher.verification_status, VerificationStatus::Rejected);
    assert_eq!(admin.pending_verifications, 0);
    let again = ops::reject_researcher(&mut admin, &mut researcher, AccountId::new(ADMIN_KEY), 301);
    assert_eq!(again.unwrap_err(), RecruSearchError::AlreadyVerified);
}

#[test]
fn study_creation_requires_verification() {
    let mut admin = fresh_admin();
    let mut researcher = registered(&mut admin);
    let r = ops::create_study(
        &mut researcher,
        AccountId::new(50),
        AccountId::new(30),
        String::from("title"),
        String::from("description"),
        String::from("criteria"),
        10,
        5,
        StudyType::Survey,
        400,
    );
    assert_eq!(r.unwrap_err(), RecruSearchError::ResearcherNotVerified);
    assert_eq!(researcher.studies_created, 0);
}

#[test]
fn study_creation_counts_on_the_researcher() {
    let mut admin = fresh_admin();
    let mut researcher = registered(&mut admin);
    ops::verify_researcher(&mut admin, &mut researcher, AccountId::new(ADMIN_KEY), 300).unwrap();
    let study = ops::create_study(
        &mut researcher,
        AccountId::new(50),
        AccountId::new(30),
        String::from("title"),
        String::from("description"),
        String::from("criteria"),
        10,
        5,
        StudyType::Survey,
        400,
    )
    .unwrap();
    assert_eq!(study.owner, researcher.id);
    assert_eq!(researcher.studies_created, 1);

    let wrong_actor = ops::create_study(
        &mut researcher,
        AccountId::new(51),
        AccountId::new(31),
        String::from("title"),
        String::from("description"),
        String::from("criteria"),
        10,
        5,
        StudyType::Survey,
        401,
    );
    assert_eq!(wrong_actor.unwrap_err(), RecruSearchError::Unauthorized);
}

#[test]
fn active_studies_updates_are_verified_and_bounded() {
    let mut admin = fresh_admin();
    let mut researcher = registered(&mut admin);
    assert_eq!(
        researcher.update_active_studies(1).unwrap_err(),
        RecruSearchError::NotVerified
    );
    ops::verify_researcher(&mut admin, &mut researcher, AccountId::new(ADMIN_KEY), 300).unwrap();

    // No studies created yet, so the active count may not rise.
    assert_eq!(
        researcher.update_active_studies(1).unwrap_err(),
        RecruSearchError::InvalidStudyParameters
    );
    researcher.increment_studies_created().unwrap();
    researcher.update_active_studies(1).unwrap();
    assert_eq!(researcher.active_studies, 1);
    assert_eq!(researcher.reputation_score, 110);
    researcher.update_active_studies(-1).unwrap();
    assert_eq!(researcher.active_studies, 0);
    assert_eq!(researcher.reputation_score, 120);
    assert_eq!(
        researcher.update_active_studies(-1).unwrap_err(),
        RecruSearchError::InvalidStudyParameters
    );
}

#[test]
fn total_participants_updates_are_checked() {
    let mut admin = fresh_admin();
    let mut researcher = registered(&mut admin);
    researcher.update_total_participants(2).unwrap();
    assert_eq!(researcher.total_participants, 2);
    researcher.update_total_participants(-2).unwrap();
    assert_eq!(researcher.total_participants, 0);
    assert_eq!(
        researcher.update_total_participants(-1).unwrap_err(),
        RecruSearchError::ArithmeticOverflow
    );
    researcher.total_participants = u32::MAX;
    assert_eq!(
        researcher.update_total_participants(1).unwrap_err(),
        RecruSearchError::ArithmeticOverflow
    );
    assert_eq!(researcher.total_participants, u32::MAX);
}

fn empty_profile() -> ResearcherProfile {
    ResearcherProfile {
        institution: String::from("MIT"),
        credentials: Vec::new(),
        is_verified: false,
        created_studies: Vec::new(),
        active_studies: Vec::new(),
        completed_studies: Vec::new(),
        reputation_score: 0,
    }
}

#[test]
fn creation_rights_need_verification_and_reputation() {
    let mut profile = empty_profile();
    assert!(!profile.can_create_study());
    profile.is_verified = true;
    profile.reputation_score = 49;
    assert!(!profile.can_create_study());
    profile.reputation_score = 50;
    assert!(profile.can_create_study());
}

#[test]
fn credentials_verify_while_one_is_unexpired() {
    let mut profile = empty_profile();
    assert!(!profile.verify_credentials(1_000));
    profile.credentials.push(Credential {
        credential_type: String::from("license"),
        issuer: String::from("board"),
        issue_date: 0,
        expiry_date: Some(500),
        verification_status: VerificationStatus::Pending,
    });
    assert!(!profile.verify_credentials(1_000));
    profile.credentials.push(Credential {
        credential_type: String::from("degree"),
        issuer: String::from("university"),
        issue_date: 0,
        expiry_date: None,
        verification_status: VerificationStatus::Pending,
    });
    assert!(profile.verify_credentials(1_000));
}

#[test]
fn outcome_reputation_credit_is_exact() {
    let mut study = Study::create(
        AccountId::new(50),
        AccountId::new(20),
        String::from("title"),
        String::from("description"),
        String::from("criteria"),
        10,
        5,
        StudyType::Survey,
        0,
    )
    .unwrap();
    study.transition(recru_search::study::StudyStatus::PendingReview).unwrap();
    study.transition(recru_search::study::StudyStatus::Active).unwrap();
    study.add_participant().unwrap();
    study.add_participant().unwrap();
    study.complete_participant().unwrap();
    study.submit_feedback(5, &None).unwrap();
    // completion 50% -> 50 * 20 / 100 = 10; rating 5.00 -> 500 * 10 / 100 = 50.
    let mut profile = empty_profile();
    profile.update_reputation(&study).unwrap();
    assert_eq!(profile.reputation_score, 10 + 10 + 50);
}
