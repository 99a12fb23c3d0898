//! Why a verification or a settlement failed, and how that is reported.
use vstd::prelude::*;
use vstd::string::*;

verus! {

/// Machine-readable reason codes; external callers may branch on these.
#[derive(Clone, Copy, Debug, PartialEq, Eq, Structural)]
pub enum ErrorReason {
    SchemeNetworkMismatch,
    AssetMismatch,
    AmountMismatch,
    RecipientMismatch,
    Expired,
    NotYetValid,
    InvalidSignature,
    NonceAlreadyUsed,
    InsufficientFunds,
    UnsupportedSchemeNetwork,
    MissingTokenDomain,
    ChainReadFailed,
    SubmissionFailed,
    ExecutionReverted,
    ConfirmationTimeout,
}

/// The wire name of each reason code.
pub open spec fn reason_name(r: ErrorReason) -> Seq<char> {
    match r {
        ErrorReason::SchemeNetworkMismatch => "SchemeNetworkMismatch"@,
        ErrorReason::AssetMismatch => "AssetMismatch"@,
        ErrorReason::AmountMismatch => "AmountMismatch"@,
        ErrorReason::RecipientMismatch => "RecipientMismatch"@,
        ErrorReason::Expired => "Expired"@,
        ErrorReason::NotYetValid => "NotYetValid"@,
        ErrorReason::InvalidSignature => "InvalidSignature"@,
        ErrorReason::NonceAlreadyUsed => "NonceAlreadyUsed"@,
        ErrorReason::InsufficientFunds => "InsufficientFunds"@,
        ErrorReason::UnsupportedSchemeNetwork => "UnsupportedSchemeNetwork"@,
        ErrorReason::MissingTokenDomain => "MissingTokenDomain"@,
        ErrorReason::ChainReadFailed => "ChainReadFailed"@,
        ErrorReason::SubmissionFailed => "SubmissionFailed"@,
        ErrorReason::ExecutionReverted => "ExecutionReverted"@,
        ErrorReason::ConfirmationTimeout => "ConfirmationTimeout"@,
    }
}

impl ErrorReason {
    /// The wire name of this reason code.
    pub fn name(&self) -> (s: &'static str)
        ensures
            s@ == reason_name(*self),
    {
        match self {
            ErrorReason::SchemeNetworkMismatch => "SchemeNetworkMismatch",
            ErrorReason::AssetMismatch => "AssetMismatch",
            ErrorReason::AmountMismatch => "AmountMismatch",
            ErrorReason::RecipientMismatch => "RecipientMismatch",
            ErrorReason::Expired => "Expired",
            ErrorReason::NotYetValid => "NotYetValid",
            ErrorReason::InvalidSignature => "InvalidSignature",
            ErrorReason::NonceAlreadyUsed => "NonceAlreadyUsed",
            ErrorReason::InsufficientFunds => "InsufficientFunds",
            ErrorReason::UnsupportedSchemeNetwork => "UnsupportedSchemeNetwork",
            ErrorReason::MissingTokenDomain => "MissingTokenDomain",
            ErrorReason::ChainReadFailed => "ChainReadFailed",
            ErrorReason::SubmissionFailed => "SubmissionFailed",
            ErrorReason::ExecutionReverted => "ExecutionReverted",
            ErrorReason::ConfirmationTimeout => "ConfirmationTimeout",
        }
    }
}

/// The payload is malformed or does not satisfy the requirements: the
/// payer can correct it.
#[derive(Clone, Copy, Debug, PartialEq, Eq, Structural)]
pub enum VerificationError {
    SchemeNetworkMismatch,
    AssetMismatch,
    AmountMismatch,
    RecipientMismatch,
    Expired,
    NotYetValid,
    InvalidSignature,
    NonceAlreadyUsed,
    InsufficientFunds,
    UnsupportedSchemeNetwork,
    MissingTokenDomain,
}

/// The payload was valid, but the chain could not be read, or executing it
/// on the chain failed or could not be confirmed.
#[derive(Clone, Debug)]
pub enum OnchainError {
    ReadFailed(String),
    NotRead,
    SubmissionFailed(String),
    ExecutionReverted(String),
    ConfirmationTimeout,
}

/// Every failure of a scheme handler is exactly one of the two kinds.
#[derive(Clone, Debug)]
pub enum SchemeError {
    PaymentVerification(VerificationError),
    OnchainFailure(OnchainError),
}

/// An engine error, tagged with the operation that raised it.
#[derive(Clone, Debug)]
pub enum FacilitatorError {
    Verification(SchemeError),
    Settlement(SchemeError),
}

/// The reason code of a verification failure.
pub open spec fn verification_reason(e: VerificationError) -> ErrorReason {
    match e {
        VerificationError::SchemeNetworkMismatch => ErrorReason::SchemeNetworkMismatch,
        VerificationError::AssetMismatch => ErrorReason::AssetMismatch,
        VerificationError::AmountMismatch => ErrorReason::AmountMismatch,
        VerificationError::RecipientMismatch => ErrorReason::RecipientMismatch,
        VerificationError::Expired => ErrorReason::Expired,
        VerificationError::NotYetValid => ErrorReason::NotYetValid,
        VerificationError::InvalidSignature => ErrorReason::InvalidSignature,
        VerificationError::NonceAlreadyUsed => ErrorReason::NonceAlreadyUsed,
        VerificationError::InsufficientFunds => ErrorReason::InsufficientFunds,
        VerificationError::UnsupportedSchemeNetwork => ErrorReason::UnsupportedSchemeNetwork,
        VerificationError::MissingTokenDomain => ErrorReason::MissingTokenDomain,
    }
}

/// The reason code of an on-chain failure.
pub open spec fn onchain_reason(e: OnchainError) -> ErrorReason {
    match e {
        OnchainError::ReadFailed(_) => ErrorReason::ChainReadFailed,
        OnchainError::NotRead => ErrorReason::ChainReadFailed,
        OnchainError::SubmissionFailed(_) => ErrorReason::SubmissionFailed,
        OnchainError::ExecutionReverted(_) => ErrorReason::ExecutionReverted,
        OnchainError::ConfirmationTimeout => ErrorReason::ConfirmationTimeout,
    }
}

/// The reason code of any scheme failure.
pub open spec fn scheme_reason(e: SchemeError) -> ErrorReason {
    match e {
        SchemeError::PaymentVerification(v) => verification_reason(v),
        SchemeError::OnchainFailure(o) => onchain_reason(o),
    }
}

/// The diagnostic text of a verification failure.
pub open spec fn verification_details(e: VerificationError) -> Seq<char> {
    match e {
        VerificationError::SchemeNetworkMismatch => "payload scheme or network differs from the requirements"@,
        VerificationError::AssetMismatch => "payload asset differs from the required asset"@,
        VerificationError::AmountMismatch => "authorized value differs from the required amount"@,
        VerificationError::RecipientMismatch => "authorized recipient differs from the required payee"@,
        VerificationError::Expired => "authorization window has closed"@,
        VerificationError::NotYetValid => "authorization window has not opened yet"@,
        VerificationError::InvalidSignature => "signature does not recover to the payer"@,
        VerificationError::NonceAlreadyUsed => "authorization nonce was already used"@,
        VerificationError::InsufficientFunds => "payer balance is below the authorized value"@,
        VerificationError::UnsupportedSchemeNetwork => "scheme and network combination is not supported"@,
        VerificationError::MissingTokenDomain => "requirements lack the token name and version"@,
    }
}

/// The diagnostic text of any scheme failure: the collaborator's own
/// message where there is one.
pub open spec fn scheme_details(e: SchemeError) -> Seq<char> {
    match e {
        SchemeError::PaymentVerification(v) => verification_details(v),
        SchemeError::OnchainFailure(o) => match o {
            OnchainError::ReadFailed(m) => m@,
            OnchainError::NotRead => "chain state was not read"@,
            OnchainError::SubmissionFailed(m) => m@,
            OnchainError::ExecutionReverted(m) => m@,
            OnchainError::ConfirmationTimeout => "transaction was not confirmed in time"@,
        },
    }
}

/// A reason code with its diagnostic text.
#[derive(Clone, Debug)]
pub struct PaymentProblem {
    pub reason: ErrorReason,
    pub details: String,
}

impl VerificationError {
    /// The reason code of this failure.
    pub fn reason(&self) -> (r: ErrorReason)
        ensures
            r == verification_reason(*self),
    {
        match self {
            VerificationError::SchemeNetworkMismatch => ErrorReason::SchemeNetworkMismatch,
            VerificationError::AssetMismatch => ErrorReason::AssetMismatch,
            VerificationError::AmountMismatch => ErrorReason::AmountMismatch,
            VerificationError::RecipientMismatch => ErrorReason::RecipientMismatch,
            VerificationError::Expired => ErrorReason::Expired,
            VerificationError::NotYetValid => ErrorReason::NotYetValid,
            VerificationError::InvalidSignature => ErrorReason::InvalidSignature,
            VerificationError::NonceAlreadyUsed => ErrorReason::NonceAlreadyUsed,
            VerificationError::InsufficientFunds => ErrorReason::InsufficientFunds,
            VerificationError::UnsupportedSchemeNetwork => ErrorReason::UnsupportedSchemeNetwork,
            VerificationError::MissingTokenDomain => ErrorReason::MissingTokenDomain,
        }
    }

    /// The diagnostic text of this failure.
    pub fn details(&self) -> (s: String)
        ensures
            s@ == verification_details(*self),
    {
        let text = match self {
            VerificationError::SchemeNetworkMismatch => "payload scheme or network differs from the requirements",
            VerificationError::AssetMismatch => "payload asset differs from the required asset",
            VerificationError::AmountMismatch => "authorized value differs from the required amount",
            VerificationError::RecipientMismatch => "authorized recipient differs from the required payee",
            VerificationError::Expired => "authorization window has closed",
            VerificationError::NotYetValid => "authorization window has not opened yet",
            VerificationError::InvalidSignature => "signature does not recover to the payer",
            VerificationError::NonceAlreadyUsed => "authorization nonce was already used",
            VerificationError::InsufficientFunds => "payer balance is below the authorized value",
            VerificationError::UnsupportedSchemeNetwork => "scheme and network combination is not supported",
            VerificationError::MissingTokenDomain => "requirements lack the token name and version",
        };
        String::from_str(text)
    }
}

impl SchemeError {
    /// Normalizes this failure into a reason code and a diagnostic text.
    pub fn as_payment_problem(&self) -> (p: PaymentProblem)
        ensures
            p.reason == scheme_reason(*self),
            p.details@ == scheme_details(*self),
    {
        match self {
            SchemeError::PaymentVerification(v) => PaymentProblem { reason: v.reason(), details: v.details() },
            SchemeError::OnchainFailure(o) => match o {
                OnchainError::ReadFailed(m) => PaymentProblem { reason: ErrorReason::ChainReadFailed, details: m.clone() },
                OnchainError::NotRead => PaymentProblem {
                    reason: ErrorReason::ChainReadFailed,
                    details: String::from_str("chain state was not read"),
                },
                OnchainError::SubmissionFailed(m) => PaymentProblem { reason: ErrorReason::SubmissionFailed, details: m.clone() },
                OnchainError::ExecutionReverted(m) => PaymentProblem { reason: ErrorReason::ExecutionReverted, details: m.clone() },
                OnchainError::ConfirmationTimeout => PaymentProblem {
                    reason: ErrorReason::ConfirmationTimeout,
                    details: String::from_str("transaction was not confirmed in time"),
                },
            },
        }
    }

    /// The HTTP status a transport reports for this failure: a client error
    /// for a verification failure, a server error for an on-chain one.
    pub fn status_code(&self) -> (code: u16)
        ensures
            code == (if self is PaymentVerification { 400u16 } else { 500u16 }),
    {
        match self {
            SchemeError::PaymentVerification(_) => 400,
            SchemeError::OnchainFailure(_) => 500,
        }
    }
}

/// The wire body of an error response.
#[derive(Clone, Debug)]
pub enum ErrorBody {
    Verification {
        is_valid: bool,
        invalid_reason: ErrorReason,
        invalid_reason_details: String,
        payer: String,
    },
    Settlement {
        success: bool,
        network: String,
        transaction: String,
        error_reason: ErrorReason,
        error_reason_details: String,
        payer: String,
    },
}

/// A status code with the body to send.
#[derive(Clone, Debug)]
pub struct ErrorResponse {
    pub status: u16,
    pub body: ErrorBody,
}

/// The failure that an engine error carries.
pub open spec fn inner_error(e: FacilitatorError) -> SchemeError {
    match e {
        FacilitatorError::Verification(s) => s,
        FacilitatorError::Settlement(s) => s,
    }
}

/// The response a transport sends for an engine error: a verification body
/// for a verify call, a settlement body for a settle call, with the status
/// of the failure's kind, its reason and details, and empty payer, network
/// and transaction.
pub open spec fn error_response_spec(e: FacilitatorError, r: ErrorResponse) -> bool {
    let s = inner_error(e);
    &&& r.status == (if s is PaymentVerification { 400u16 } else { 500u16 })
    &&& match e {
        FacilitatorError::Verification(_) => r.body matches ErrorBody::Verification {
            is_valid,
            invalid_reason,
            invalid_reason_details,
            payer,
        } && !is_valid && invalid_reason == scheme_reason(s) && invalid_reason_details@
            == scheme_details(s) && payer@.len() == 0,
        FacilitatorError::Settlement(_) => r.body matches ErrorBody::Settlement {
            success,
            network,
            transaction,
            error_reason,
            error_reason_details,
            payer,
        } && !success && network@.len() == 0 && transaction@.len() == 0 && error_reason
            == scheme_reason(s) && error_reason_details@ == scheme_details(s) && payer@.len()
            == 0,
    }
}

impl FacilitatorError {
    /// Builds the status and body that a transport sends for this error.
    pub fn error_response(&self) -> (r: ErrorResponse)
        ensures
            error_response_spec(*self, r),
    {
        match self {
            FacilitatorError::Verification(s) => {
                let problem = s.as_payment_problem();
                ErrorResponse {
                    status: s.status_code(),
                    body: ErrorBody::Verification {
                        is_valid: false,
                        invalid_reason: problem.reason,
                        invalid_reason_details: problem.details,
                        payer: String::new(),
                    },
                }
            },
            FacilitatorError::Settlement(s) => {
                let problem = s.as_payment_problem();
                ErrorResponse {
                    status: s.status_code(),
                    body: ErrorBody::Settlement {
                        success: false,
                        network: String::new(),
                        transaction: String::new(),
                        error_reason: problem.reason,
                        error_reason_details: problem.details,
                        payer: String::new(),
                    },
                }
            },
        }
    }
}

} // verus!
