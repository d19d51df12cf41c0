use recru_search::account::AccountId;
use recru_search::error::RecruSearchError;
use recru_search::participant::CompletedStudy;
use recru_search::participant::Participant;
use recru_search::participant::ParticipantProfile;
use recru_search::participant::ParticipantStatus;

fn fresh() -> Participant {
    Participant::create(AccountId::new(100), AccountId::new(300), String::from("proof"), 50)
}

#[test]
fn registration_zeroes_everything() {
    let p = fresh();
    assert_eq!(p.status, ParticipantStatus::Unverified);
    assert_eq!(p.active_studies, 0);
    assert_eq!(p.completed_studies, 0);
    assert!(!p.has_active_consent);
    assert_eq!(p.consent_revoked_at, None);
    assert_eq!(p.registered_at, 50);
    assert_eq!(p.reputation_score, 0);
    assert!(p.is_well_formed());
}

#[test]
fn enrollment_records_move_from_open_to_completed() {
    let mut p = fresh();
    p.increment_active_studies(AccountId::new(10), 100).unwrap();
    p.increment_active_studies(AccountId::new(11), 110).unwrap();
    assert_eq!(p.active_studies, 2);
    assert_eq!(p.profile.active_studies.len(), 2);

    p.complete_enrollment(AccountId::new(10), 200, 40).unwrap();
    assert_eq!(p.active_studies, 1);
    assert_eq!(p.completed_studies, 1);
    assert_eq!(p.profile.active_studies.len(), 1);
    assert_eq!(p.profile.active_studies[0].study_id, AccountId::new(11));
    assert_eq!(p.profile.completed_studies[0].study_id, AccountId::new(10));
    assert_eq!(p.profile.completed_studies[0].completion_date, 200);
    assert_eq!(p.profile.completed_studies[0].reward_amount, 40);
    assert!(p.is_well_formed());

    let r = p.complete_enrollment(AccountId::new(10), 210, 40);
    assert_eq!(r.unwrap_err(), RecruSearchError::StudyNotFound);
}

#[test]
fn progress_updates_hit_the_first_matching_record() {
    let mut p = fresh();
    p.increment_active_studies(AccountId::new(10), 100).unwrap();
    let r = p.update_progress_record(AccountId::new(99), 50, 150);
    assert_eq!(r.unwrap_err(), RecruSearchError::StudyNotFound);
    p.update_progress_record(AccountId::new(10), 50, 150).unwrap();
    assert_eq!(p.profile.active_studies[0].progress, 50);
    assert_eq!(p.profile.active_studies[0].last_update, 150);
    assert_eq!(p.profile.active_studies[0].start_date, 100);
}

#[test]
fn feedback_lands_in_the_completed_record() {
    let mut p = fresh();
    p.increment_active_studies(AccountId::new(10), 100).unwrap();
    p.complete_enrollment(AccountId::new(10), 200, 40).unwrap();
    p.record_feedback(AccountId::new(10), 5, Some(String::from("good"))).unwrap();
    assert_eq!(p.profile.completed_studies[0].rating, Some(5));
    assert_eq!(p.profile.completed_studies[0].feedback.as_deref(), Some("good"));
    let r = p.record_feedback(AccountId::new(99), 5, None);
    assert_eq!(r.unwrap_err(), RecruSearchError::StudyNotFound);
}

#[test]
fn consent_status_stamps_the_right_timestamps() {
    let mut p = fresh();
    p.update_consent_status(true, 500);
    assert!(p.has_active_consent);
    assert_eq!(p.consent_issued_at, 500);
    assert_eq!(p.consent_revoked_at, None);
    p.update_consent_status(false, 600);
    assert!(!p.has_active_consent);
    assert_eq!(p.consent_issued_at, 500);
    assert_eq!(p.consent_revoked_at, Some(600));
}

#[test]
fn demographics_replacement_keeps_the_records() {
    let mut p = fresh();
    p.increment_active_studies(AccountId::new(10), 100).unwrap();
    p.update_profile(
        String::from("25-34"),
        String::from("other"),
        String::from("EU"),
        vec![String::from("sleep")],
        true,
    );
    assert_eq!(p.profile.age_group, "25-34");
    assert!(p.profile.is_anonymous);
    assert_eq!(p.profile.active_studies.len(), 1);
    assert_eq!(p.active_studies, 1);
}

#[test]
fn reputation_score_sums_completions_and_ratings() {
    let profile = ParticipantProfile {
        age_group: String::new(),
        gender: String::new(),
        region: String::new(),
        interests: Vec::new(),
        is_anonymous: false,
        completed_studies: vec![
            CompletedStudy {
                study_id: AccountId::new(10),
                completion_date: 0,
                reward_amount: 0,
                rating: Some(5),
                feedback: None,
            },
            CompletedStudy {
                study_id: AccountId::new(11),
                completion_date: 0,
                reward_amount: 0,
                rating: None,
                feedback: None,
            },
            CompletedStudy {
                study_id: AccountId::new(12),
                completion_date: 0,
                reward_amount: 0,
                rating: Some(3),
                feedback: None,
            },
        ],
        active_studies: Vec::new(),
        reward_history: Vec::new(),
    };
    assert_eq!(profile.calculate_reputation_score(), 10 + 5 + 10 + 10 + 3);
}
