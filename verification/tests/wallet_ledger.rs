use recru_search::account::AccountId;
use recru_search::error::RecruSearchError;
use recru_search::ops;
use recru_search::wallet::ParticipantWallet;
use recru_search::wallet::TransactionStatus;

const HOLDER: u64 = 400;

fn initialized_wallet() -> ParticipantWallet {
    let mut wallet = ParticipantWallet::new(AccountId::new(HOLDER));
    wallet.initialize(AccountId::new(77), 1_000).unwrap();
    wallet
}

#[test]
fn initialization_is_once_only() {
    let mut wallet = ParticipantWallet::new(AccountId::new(HOLDER));
    assert!(!wallet.is_initialized);
    assert_eq!(wallet.total_rewards, 0);
    wallet.initialize(AccountId::new(77), 1_000).unwrap();
    assert!(wallet.is_initialized);
    assert!(wallet.is_active);
    assert_eq!(wallet.created_at, 1_000);
    let again = wallet.initialize(AccountId::new(78), 1_001);
    assert_eq!(again.unwrap_err(), RecruSearchError::AlreadyInitialized);
    assert_eq!(wallet.phantom_public_key, AccountId::new(77));
}

#[test]
fn rewards_accumulate_and_overflow_is_refused() {
    let mut wallet = initialized_wallet();
    assert_eq!(wallet.total_rewards, 0);

    wallet.add_reward(AccountId::new(10), 50, 1_100).unwrap();
    assert_eq!(wallet.total_rewards, 50);
    assert_eq!(wallet.rewards.len(), 1);
    assert_eq!(wallet.rewards[0].amount, 50);
    assert_eq!(wallet.rewards[0].study_id, AccountId::new(10));

    let r = wallet.add_reward(AccountId::new(11), u64::MAX, 1_200);
    assert_eq!(r.unwrap_err(), RecruSearchError::RewardOverflow);
    assert_eq!(wallet.total_rewards, 50);
    assert_eq!(wallet.rewards.len(), 1);
}

#[test]
fn each_reward_appends_an_entry_and_a_log_line() {
    let mut wallet = initialized_wallet();
    wallet.add_reward(AccountId::new(10), 30, 1_100).unwrap();
    wallet.add_reward(AccountId::new(11), 20, 1_200).unwrap();
    assert_eq!(wallet.total_rewards, 50);
    assert_eq!(wallet.rewards.len(), 2);
    assert_eq!(wallet.transactions.len(), 2);
    assert_eq!(wallet.transactions[0].id, 0);
    assert_eq!(wallet.transactions[1].id, 1);
    assert_eq!(wallet.transactions[1].status, TransactionStatus::Completed);
    assert_eq!(wallet.last_reward_at, 1_200);
}

#[test]
fn zero_and_inactive_rewards_are_refused() {
    let mut wallet = initialized_wallet();
    assert_eq!(
        wallet.add_reward(AccountId::new(10), 0, 1_100).unwrap_err(),
        RecruSearchError::InvalidRewardAmount
    );
    let mut fresh = ParticipantWallet::new(AccountId::new(HOLDER));
    assert_eq!(
        fresh.add_reward(AccountId::new(10), 5, 1_100).unwrap_err(),
        RecruSearchError::InactiveWallet
    );
    wallet.toggle_active(1_150);
    assert_eq!(
        wallet.add_reward(AccountId::new(10), 5, 1_200).unwrap_err(),
        RecruSearchError::InactiveWallet
    );
}

#[test]
fn transaction_status_updates_in_place_and_ignores_strangers() {
    let mut wallet = initialized_wallet();
    wallet.add_reward(AccountId::new(10), 30, 1_100).unwrap();
    wallet.update_transaction_status(0, TransactionStatus::Failed, 1_300);
    assert_eq!(wallet.transactions[0].status, TransactionStatus::Failed);
    assert_eq!(wallet.last_activity, 1_300);

    let before = wallet.last_activity;
    wallet.update_transaction_status(42, TransactionStatus::Pending, 1_400);
    assert_eq!(wallet.transactions.len(), 1);
    assert_eq!(wallet.transactions[0].status, TransactionStatus::Failed);
    assert_eq!(wallet.last_activity, before);
}

#[test]
fn reward_history_filters_by_study() {
    let mut wallet = initialized_wallet();
    wallet.add_reward(AccountId::new(10), 30, 1_100).unwrap();
    wallet.add_reward(AccountId::new(11), 20, 1_200).unwrap();
    wallet.add_reward(AccountId::new(10), 5, 1_300).unwrap();

    let all = wallet.get_reward_history(None);
    assert_eq!(all.len(), 3);
    let tens = wallet.get_reward_history(Some(AccountId::new(10)));
    assert_eq!(tens.len(), 2);
    assert_eq!(tens[0].amount, 30);
    assert_eq!(tens[1].amount, 5);
    let none = wallet.get_reward_history(Some(AccountId::new(12)));
    assert_eq!(none.len(), 0);
}

#[test]
fn metadata_and_activity_updates() {
    let mut wallet = initialized_wallet();
    wallet.update_metadata_uri(Some(String::from("ipfs://meta")), 1_500);
    assert_eq!(wallet.metadata_uri.as_deref(), Some("ipfs://meta"));
    assert_eq!(wallet.last_activity, 1_500);
    wallet.update_activity(1_600);
    assert_eq!(wallet.last_activity, 1_600);
    assert!(wallet.verify_phantom_ownership(&AccountId::new(77)));
    assert!(!wallet.verify_phantom_ownership(&AccountId::new(78)));
}

#[test]
fn ledger_consistency_check_tracks_the_sum() {
    let mut wallet = initialized_wallet();
    assert!(wallet.is_well_formed());
    wallet.add_reward(AccountId::new(10), 30, 1_100).unwrap();
    assert!(wallet.is_well_formed());
    wallet.total_rewards = 31;
    assert!(!wallet.is_well_formed());
}

#[test]
fn receive_reward_operation_authorizes_and_reports() {
    let mut wallet = initialized_wallet();
    let r = ops::receive_reward(&mut wallet, AccountId::new(999), AccountId::new(10), 50, 1_100);
    assert_eq!(r.unwrap_err(), RecruSearchError::Unauthorized);
    assert_eq!(wallet.total_rewards, 0);

    let event =
        ops::receive_reward(&mut wallet, AccountId::new(HOLDER), AccountId::new(10), 50, 1_100)
            .unwrap();
    assert_eq!(event.participant, AccountId::new(HOLDER));
    assert_eq!(event.study, AccountId::new(10));
    assert_eq!(event.amount, 50);
    assert_eq!(event.timestamp, 1_100);
    assert_eq!(wallet.total_rewards, 50);
}

#[test]
fn wallet_operations_authorize_and_report() {
    let mut wallet = ParticipantWallet::new(AccountId::new(HOLDER));
    let r = ops::initialize_phantom_wallet(&mut wallet, AccountId::new(999), AccountId::new(77), 1_000);
    assert_eq!(r.unwrap_err(), RecruSearchError::Unauthorized);

    let event =
        ops::initialize_phantom_wallet(&mut wallet, AccountId::new(HOLDER), AccountId::new(77), 1_000)
            .unwrap();
    assert_eq!(event.participant, AccountId::new(HOLDER));
    assert_eq!(event.phantom_public_key, AccountId::new(77));

    let event = ops::update_wallet_metadata(
        &mut wallet,
        AccountId::new(HOLDER),
        Some(String::from("ipfs://meta")),
        1_100,
    )
    .unwrap();
    assert_eq!(event.metadata_uri.as_deref(), Some("ipfs://meta"));
    assert_eq!(wallet.metadata_uri.as_deref(), Some("ipfs://meta"));
}
