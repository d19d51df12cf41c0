//! Unified error taxonomy of the engine.
//!
//! Every operation aborts on its first failed precondition and returns one
//! of these kinds unmodified; no operation masks a failed precondition as
//! success.

use vstd::prelude::*;

verus! {

/// The error kinds an operation can surface.
#[derive(Clone, Copy, Debug, PartialEq, Eq, Structural)]
pub enum RecruSearchError {
    /// The actor is not the owner of the record it tries to mutate.
    Unauthorized,
    /// The actor is not the administrative authority.
    UnauthorizedAdmin,
    /// The study is not accepting interaction in its current status.
    StudyInactive,
    /// The study has reached its maximum participant capacity.
    StudyFull,
    /// The requested study status change is not in the legal table.
    InvalidStatusTransition,
    /// A required study text field is empty or a counter update is illegal.
    InvalidStudyParameters,
    /// No matching enrollment record exists for the study.
    StudyNotFound,
    /// The study has no uncompleted enrollee left to complete.
    StudyCompletionCriteriaNotMet,
    /// A progress value outside 0..=100 was supplied.
    InvalidProgress,
    /// A rating outside 1..=5 was supplied.
    InvalidRating,
    /// Feedback text exceeds the permitted length.
    FeedbackTooLong,
    /// The requested participant status change is not in the legal table.
    InvalidParticipantAction,
    /// The participant does not meet the study's eligibility predicate.
    ParticipantNotEligible,
    /// An empty institution name was supplied at registration.
    InvalidInstitutionName,
    /// An empty credentials hash was supplied at registration.
    InvalidCredentials,
    /// The researcher's verification was already decided.
    AlreadyVerified,
    /// The researcher is not verified and the action requires it.
    NotVerified,
    /// Study creation requires a verified researcher.
    ResearcherNotVerified,
    /// The participant already holds an active consent.
    DuplicateConsent,
    /// The participant holds no active consent to revoke.
    NoActiveConsent,
    /// The wallet was already initialized.
    AlreadyInitialized,
    /// The wallet is not active.
    InactiveWallet,
    /// A reward of zero was supplied.
    InvalidRewardAmount,
    /// Accumulating the reward would overflow the running total.
    RewardOverflow,
    /// The wallet does not belong to the acting participant.
    WalletMismatch,
    /// A checked counter update would overflow or underflow.
    ArithmeticOverflow,
}

/// The user-visible description of each error kind.
pub open spec fn spec_message(e: RecruSearchError) -> Seq<char> {
    match e {
        RecruSearchError::Unauthorized => "Unauthorized access"@,
        RecruSearchError::UnauthorizedAdmin => "Unauthorized admin access"@,
        RecruSearchError::StudyInactive => "Study is not active"@,
        RecruSearchError::StudyFull => "Study has reached maximum participant capacity"@,
        RecruSearchError::InvalidStatusTransition => "Invalid study status transition"@,
        RecruSearchError::InvalidStudyParameters => "Invalid study parameters"@,
        RecruSearchError::StudyNotFound => "Study not found"@,
        RecruSearchError::StudyCompletionCriteriaNotMet => "Study completion criteria not met"@,
        RecruSearchError::InvalidProgress => "Invalid progress value"@,
        RecruSearchError::InvalidRating => "Invalid rating value"@,
        RecruSearchError::FeedbackTooLong => "Feedback too long"@,
        RecruSearchError::InvalidParticipantAction => "Invalid participant action"@,
        RecruSearchError::ParticipantNotEligible => "Participant not eligible for study"@,
        RecruSearchError::InvalidInstitutionName => "Invalid institution name"@,
        RecruSearchError::InvalidCredentials => "Invalid credentials"@,
        RecruSearchError::AlreadyVerified => "Already verified"@,
        RecruSearchError::NotVerified => "Researcher is not verified"@,
        RecruSearchError::ResearcherNotVerified => "Researcher not verified"@,
        RecruSearchError::DuplicateConsent => "Participant already has an active consent"@,
        RecruSearchError::NoActiveConsent => "No active consent found"@,
        RecruSearchError::AlreadyInitialized => "Account already initialized"@,
        RecruSearchError::InactiveWallet => "Wallet is not active"@,
        RecruSearchError::InvalidRewardAmount => "Invalid reward amount"@,
        RecruSearchError::RewardOverflow => "Reward calculation overflow"@,
        RecruSearchError::WalletMismatch => "Wallet does not belong to participant"@,
        RecruSearchError::ArithmeticOverflow => "Arithmetic overflow"@,
    }
}

impl RecruSearchError {
    /// The user-visible description of this error kind.
    pub fn message(&self) -> (r: String)
        ensures
            r@ == spec_message(*self),
    {
        match self {
            RecruSearchError::Unauthorized => String::from_str("Unauthorized access"),
            RecruSearchError::UnauthorizedAdmin => String::from_str("Unauthorized admin access"),
            RecruSearchError::StudyInactive => String::from_str("Study is not active"),
            RecruSearchError::StudyFull => String::from_str(
                "Study has reached maximum participant capacity",
            ),
            RecruSearchError::InvalidStatusTransition => String::from_str(
                "Invalid study status transition",
            ),
            RecruSearchError::InvalidStudyParameters => String::from_str(
                "Invalid study parameters",
            ),
            RecruSearchError::StudyNotFound => String::from_str("Study not found"),
            RecruSearchError::StudyCompletionCriteriaNotMet => String::from_str(
                "Study completion criteria not met",
            ),
            RecruSearchError::InvalidProgress => String::from_str("Invalid progress value"),
            RecruSearchError::InvalidRating => String::from_str("Invalid rating value"),
            RecruSearchError::FeedbackTooLong => String::from_str("Feedback too long"),
            RecruSearchError::InvalidParticipantAction => String::from_str(
                "Invalid participant action",
            ),
            RecruSearchError::ParticipantNotEligible => String::from_str(
                "Participant not eligible for study",
            ),
            RecruSearchError::InvalidInstitutionName => String::from_str(
                "Invalid institution name",
            ),
            RecruSearchError::InvalidCredentials => String::from_str("Invalid credentials"),
            RecruSearchError::AlreadyVerified => String::from_str("Already verified"),
            RecruSearchError::NotVerified => String::from_str("Researcher is not verified"),
            RecruSearchError::ResearcherNotVerified => String::from_str(
                "Researcher not verified",
            ),
            RecruSearchError::DuplicateConsent => String::from_str(
                "Participant already has an active consent",
            ),
            RecruSearchError::NoActiveConsent => String::from_str("No active consent found"),
            RecruSearchError::AlreadyInitialized => String::from_str(
                "Account already initialized",
            ),
            RecruSearchError::InactiveWallet => String::from_str("Wallet is not active"),
            RecruSearchError::InvalidRewardAmount => String::from_str("Invalid reward amount"),
            RecruSearchError::RewardOverflow => String::from_str("Reward calculation overflow"),
            RecruSearchError::WalletMismatch => String::from_str(
                "Wallet does not belong to participant",
            ),
            RecruSearchError::ArithmeticOverflow => String::from_str("Arithmetic overflow"),
        }
    }
}

} // verus!
