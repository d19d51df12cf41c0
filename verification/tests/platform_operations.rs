use recru_search::account::AccountId;
use recru_search::admin::Admin;
use recru_search::error::RecruSearchError;
use recru_search::ops;
use recru_search::participant::Participant;
use recru_search::participant::ParticipantAction;
use recru_search::participant::ParticipantStatus;
use recru_search::study::Study;
use recru_search::study::StudyStatus;
use recru_search::study::StudyType;
use recru_search::wallet::ParticipantWallet;

const ADMIN_KEY: u64 = 1;
const RESEARCHER_OWNER: u64 = 30;
const PARTICIPANT_OWNER: u64 = 300;

fn admin() -> Admin {
    ops::initialize_admin(AccountId::new(ADMIN_KEY), 100)
}

fn draft_study() -> Study {
    Study::create(
        AccountId::new(50),
        AccountId::new(20),
        String::from("title"),
        String::from("description"),
        String::from("criteria"),
        40,
        5,
        StudyType::Clinical,
        1_000,
    )
    .unwrap()
}

fn participant() -> Participant {
    Participant::create(
        AccountId::new(100),
        AccountId::new(PARTICIPANT_OWNER),
        String::from("proof"),
        0,
    )
}

#[test]
fn status_updates_are_admin_only_and_follow_the_table() {
    let mut adm = admin();
    let mut study = draft_study();

    let r = ops::update_study_status(&mut adm, &mut study, AccountId::new(2), StudyStatus::PendingReview, 200);
    assert_eq!(r.unwrap_err(), RecruSearchError::UnauthorizedAdmin);

    let r = ops::update_study_status(&mut adm, &mut study, AccountId::new(ADMIN_KEY), StudyStatus::Active, 200);
    assert_eq!(r.unwrap_err(), RecruSearchError::InvalidStatusTransition);
    assert_eq!(study.status, StudyStatus::Draft);

    ops::update_study_status(&mut adm, &mut study, AccountId::new(ADMIN_KEY), StudyStatus::PendingReview, 1_201)
        .unwrap();
    ops::update_study_status(&mut adm, &mut study, AccountId::new(ADMIN_KEY), StudyStatus::Active, 1_202)
        .unwrap();
    assert_eq!(study.status, StudyStatus::Active);
    assert_eq!(adm.dashboard.active_studies, 1);
    assert_eq!(adm.dashboard.total_studies, 1);
    assert_eq!(adm.dashboard.study_categories.len(), 1);
    assert_eq!(adm.dashboard.study_categories[0].category, StudyType::Clinical);
    assert_eq!(adm.dashboard.study_categories[0].study_count, 1);
    assert_eq!(adm.dashboard.study_categories[0].participant_count, 0);
    assert_eq!(adm.dashboard.study_categories[0].rating_centi_sum, 0);
    // Created at 1_000 and folded in at 1_202: 202 seconds old, nothing
    // completed yet.
    assert_eq!(adm.dashboard.platform_metrics.duration_seconds_sum, 202);
    assert_eq!(adm.dashboard.platform_metrics.completion_percent_sum, 0);
}

#[test]
fn suspension_roundtrip_returns_the_dashboard_count() {
    let mut adm = admin();
    let mut study = draft_study();
    ops::update_study_status(&mut adm, &mut study, AccountId::new(ADMIN_KEY), StudyStatus::PendingReview, 201)
        .unwrap();
    ops::update_study_status(&mut adm, &mut study, AccountId::new(ADMIN_KEY), StudyStatus::Active, 202)
        .unwrap();
    let folded_total = adm.dashboard.total_studies;
    let live = adm.dashboard.active_studies;
    let categories = adm.dashboard.study_categories.clone();
    let counters = (
        study.current_participants,
        study.completed_participants,
        study.consented_participants,
    );

    ops::update_study_status(&mut adm, &mut study, AccountId::new(ADMIN_KEY), StudyStatus::Suspended, 203)
        .unwrap();
    assert_eq!(adm.dashboard.active_studies, live - 1);
    ops::update_study_status(&mut adm, &mut study, AccountId::new(ADMIN_KEY), StudyStatus::Active, 204)
        .unwrap();

    assert_eq!(adm.dashboard.active_studies, live);
    assert_eq!(adm.dashboard.total_studies, folded_total);
    assert_eq!(adm.dashboard.study_categories, categories);
    assert_eq!(
        (
            study.current_participants,
            study.completed_participants,
            study.consented_participants,
        ),
        counters
    );
}

#[test]
fn leaving_active_with_an_empty_dashboard_count_is_refused() {
    let mut adm = admin();
    let mut study = draft_study();
    study.transition(StudyStatus::PendingReview).unwrap();
    study.transition(StudyStatus::Active).unwrap();
    // The dashboard never saw this study activate, so its live count is 0.
    let r = ops::update_study_status(&mut adm, &mut study, AccountId::new(ADMIN_KEY), StudyStatus::Suspended, 205);
    assert_eq!(r.unwrap_err(), RecruSearchError::ArithmeticOverflow);
    assert_eq!(study.status, StudyStatus::Active);
}

#[test]
fn moderation_actions_follow_the_legal_table() {
    let mut adm = admin();
    let mut p = participant();
    assert_eq!(p.status, ParticipantStatus::Unverified);

    let r = ops::manage_participant(&mut adm, &mut p, AccountId::new(2), ParticipantAction::Suspend, 300);
    assert_eq!(r.unwrap_err(), RecruSearchError::UnauthorizedAdmin);

    let r = ops::manage_participant(&mut adm, &mut p, AccountId::new(ADMIN_KEY), ParticipantAction::Suspend, 300);
    assert_eq!(r.unwrap_err(), RecruSearchError::InvalidParticipantAction);

    p.status = ParticipantStatus::Active;
    ops::manage_participant(&mut adm, &mut p, AccountId::new(ADMIN_KEY), ParticipantAction::Freeze, 301)
        .unwrap();
    assert_eq!(p.status, ParticipantStatus::Frozen);

    let r = ops::manage_participant(&mut adm, &mut p, AccountId::new(ADMIN_KEY), ParticipantAction::Ban, 302);
    assert_eq!(r.unwrap_err(), RecruSearchError::InvalidParticipantAction);

    ops::manage_participant(&mut adm, &mut p, AccountId::new(ADMIN_KEY), ParticipantAction::Unsuspend, 303)
        .unwrap();
    assert_eq!(p.status, ParticipantStatus::Active);
    ops::manage_participant(&mut adm, &mut p, AccountId::new(ADMIN_KEY), ParticipantAction::Ban, 304)
        .unwrap();
    assert_eq!(p.status, ParticipantStatus::Banned);
}

#[test]
fn profile_updates_are_self_service() {
    let mut p = participant();
    let r = ops::update_interests(&mut p, AccountId::new(999), vec![String::from("sleep")]);
    assert_eq!(r.unwrap_err(), RecruSearchError::Unauthorized);
    ops::update_interests(
        &mut p,
        AccountId::new(PARTICIPANT_OWNER),
        vec![String::from("sleep"), String::from("memory")],
    )
    .unwrap();
    assert_eq!(p.profile.interests.len(), 2);
    ops::update_participant_profile(&mut p, AccountId::new(PARTICIPANT_OWNER), vec![String::from("focus")])
        .unwrap();
    assert_eq!(p.profile.interests, vec![String::from("focus")]);
}

#[test]
fn progress_reports_update_the_enrollment_record() {
    let mut study = draft_study();
    study.transition(StudyStatus::PendingReview).unwrap();
    study.transition(StudyStatus::Active).unwrap();
    let mut p = participant();
    ops::join_study(&mut study, &mut p, AccountId::new(PARTICIPANT_OWNER), 400).unwrap();

    let r = ops::track_study_progress(&study, &mut p, AccountId::new(PARTICIPANT_OWNER), 101, 401);
    assert_eq!(r.unwrap_err(), RecruSearchError::InvalidProgress);

    ops::track_study_progress(&study, &mut p, AccountId::new(PARTICIPANT_OWNER), 40, 402).unwrap();
    assert_eq!(p.profile.active_studies[0].progress, 40);
    assert_eq!(p.profile.active_studies[0].last_update, 402);

    let stranger = draft_study();
    let mut other = Study { id: AccountId::new(51), ..stranger };
    other.transition(StudyStatus::PendingReview).unwrap();
    other.transition(StudyStatus::Active).unwrap();
    let r = ops::track_study_progress(&other, &mut p, AccountId::new(PARTICIPANT_OWNER), 40, 403);
    assert_eq!(r.unwrap_err(), RecruSearchError::StudyNotFound);
}

fn completion_fixture() -> (Study, Participant, recru_search::researcher::Researcher, ParticipantWallet, Admin) {
    let mut adm = admin();
    let mut researcher = ops::register_researcher(
        &mut adm,
        AccountId::new(20),
        AccountId::new(RESEARCHER_OWNER),
        String::from("MIT"),
        String::from("abc"),
        150,
    )
    .unwrap();
    ops::verify_researcher(&mut adm, &mut researcher, AccountId::new(ADMIN_KEY), 160).unwrap();
    let mut study = ops::create_study(
        &mut researcher,
        AccountId::new(50),
        AccountId::new(RESEARCHER_OWNER),
        String::from("title"),
        String::from("description"),
        String::from("criteria"),
        40,
        5,
        StudyType::Clinical,
        1_000,
    )
    .unwrap();
    ops::update_study_status(&mut adm, &mut study, AccountId::new(ADMIN_KEY), StudyStatus::PendingReview, 1_001)
        .unwrap();
    ops::update_study_status(&mut adm, &mut study, AccountId::new(ADMIN_KEY), StudyStatus::Active, 1_002)
        .unwrap();
    let mut p = participant();
    ops::join_study(&mut study, &mut p, AccountId::new(PARTICIPANT_OWNER), 1_100).unwrap();
    let mut wallet = ParticipantWallet::new(AccountId::new(PARTICIPANT_OWNER));
    ops::initialize_phantom_wallet(&mut wallet, AccountId::new(PARTICIPANT_OWNER), AccountId::new(77), 1_150)
        .unwrap();
    (study, p, researcher, wallet, adm)
}

#[test]
fn completion_moves_every_record_atomically() {
    let (mut study, mut p, mut researcher, mut wallet, mut adm) = completion_fixture();
    ops::complete_study(
        &mut study,
        &mut p,
        &mut researcher,
        &mut wallet,
        &mut adm,
        AccountId::new(RESEARCHER_OWNER),
        1_200,
    )
    .unwrap();
    assert_eq!(study.completed_participants, 1);
    assert_eq!(study.current_participants, 1);
    assert_eq!(p.active_studies, 0);
    assert_eq!(p.completed_studies, 1);
    assert_eq!(p.profile.active_studies.len(), 0);
    assert_eq!(p.profile.completed_studies.len(), 1);
    assert_eq!(p.profile.completed_studies[0].reward_amount, 40);
    assert_eq!(researcher.total_participants, 1);
    assert_eq!(wallet.total_rewards, 40);
    assert_eq!(wallet.rewards.len(), 1);
    assert_eq!(adm.dashboard.total_rewards_distributed, 40);
}

#[test]
fn completion_refuses_a_strangers_wallet_untouched() {
    let (mut study, mut p, mut researcher, _wallet, mut adm) = completion_fixture();
    let mut foreign = ParticipantWallet::new(AccountId::new(555));
    ops::initialize_phantom_wallet(&mut foreign, AccountId::new(555), AccountId::new(77), 1_150)
        .unwrap();
    let r = ops::complete_study(
        &mut study,
        &mut p,
        &mut researcher,
        &mut foreign,
        &mut adm,
        AccountId::new(RESEARCHER_OWNER),
        1_200,
    );
    assert_eq!(r.unwrap_err(), RecruSearchError::WalletMismatch);
    assert_eq!(study.completed_participants, 0);
    assert_eq!(p.completed_studies, 0);
    assert_eq!(foreign.total_rewards, 0);
}

#[test]
fn completion_requires_an_enrollment_record() {
    let (mut study, _p, mut researcher, mut wallet, mut adm) = completion_fixture();
    let mut outsider = Participant::create(
        AccountId::new(101),
        AccountId::new(PARTICIPANT_OWNER),
        String::from("proof-2"),
        0,
    );
    let r = ops::complete_study(
        &mut study,
        &mut outsider,
        &mut researcher,
        &mut wallet,
        &mut adm,
        AccountId::new(RESEARCHER_OWNER),
        1_200,
    );
    assert_eq!(r.unwrap_err(), RecruSearchError::StudyNotFound);
}

#[test]
fn completion_is_for_the_studys_researcher_only() {
    let (mut study, mut p, mut researcher, mut wallet, mut adm) = completion_fixture();
    let r = ops::complete_study(
        &mut study,
        &mut p,
        &mut researcher,
        &mut wallet,
        &mut adm,
        AccountId::new(999),
        1_200,
    );
    assert_eq!(r.unwrap_err(), RecruSearchError::Unauthorized);
}

#[test]
fn feedback_needs_a_completed_record_and_updates_both_sides() {
    let (mut study, mut p, mut researcher, mut wallet, mut adm) = completion_fixture();

    let early = ops::submit_study_feedback(
        &mut study,
        &mut p,
        AccountId::new(PARTICIPANT_OWNER),
        4,
        None,
        1_250,
    );
    assert_eq!(early.unwrap_err(), RecruSearchError::StudyNotFound);

    ops::complete_study(
        &mut study,
        &mut p,
        &mut researcher,
        &mut wallet,
        &mut adm,
        AccountId::new(RESEARCHER_OWNER),
        1_200,
    )
    .unwrap();

    let bad = ops::submit_study_feedback(
        &mut study,
        &mut p,
        AccountId::new(PARTICIPANT_OWNER),
        0,
        None,
        1_300,
    );
    assert_eq!(bad.unwrap_err(), RecruSearchError::InvalidRating);

    ops::submit_study_feedback(
        &mut study,
        &mut p,
        AccountId::new(PARTICIPANT_OWNER),
        4,
        Some(String::from("clear instructions")),
        1_300,
    )
    .unwrap();
    assert_eq!(study.analytics.rating_sum, 4);
    assert_eq!(study.analytics.rating_count, 1);
    assert_eq!(p.profile.completed_studies[0].rating, Some(4));
    assert_eq!(
        p.profile.completed_studies[0].feedback.as_deref(),
        Some("clear instructions")
    );
}

#[test]
fn completion_refuses_a_zero_reward_study() {
    let (study, mut p, mut researcher, mut wallet, mut adm) = completion_fixture();
    let mut free_study = Study { reward_amount: 0, ..study };
    let r = ops::complete_study(
        &mut free_study,
        &mut p,
        &mut researcher,
        &mut wallet,
        &mut adm,
        AccountId::new(RESEARCHER_OWNER),
        1_200,
    );
    assert_eq!(r.unwrap_err(), RecruSearchError::InvalidRewardAmount);
    assert_eq!(free_study.completed_participants, 0);
    assert_eq!(wallet.total_rewards, 0);
}

#[test]
fn retention_is_the_exact_percentage() {
    let adm = admin();
    let (mut study, mut p, mut researcher, mut wallet, mut platform) = completion_fixture();
    ops::complete_study(
        &mut study,
        &mut p,
        &mut researcher,
        &mut wallet,
        &mut platform,
        AccountId::new(RESEARCHER_OWNER),
        1_200,
    )
    .unwrap();
    // One completed enrollment and none open: 100%.
    assert_eq!(adm.dashboard.calculate_participant_retention(&p), 100);
    let fresh = participant();
    assert_eq!(adm.dashboard.calculate_participant_retention(&fresh), 0);
}
