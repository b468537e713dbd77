use vstd::prelude::*;

verus! {

#[verifier::external_type_specification]
#[verifier::external_body]
pub struct ExLwkError(lwk_wollet::Error);

#[verifier::external_type_specification]
#[verifier::external_body]
pub struct ExSignerError(lwk_signer::SignerError);

#[verifier::external_type_specification]
#[verifier::external_body]
pub struct ExAnyhowError(anyhow::Error);

/// Relies on the `Debug` impl of lwk_wollet::Error for a readable detail.
#[verifier::external_body]
fn lwk_error_detail(err: &lwk_wollet::Error) -> (r: String) {
    format!("{err:?}")
}

/// Relies on the `Debug` impl of lwk_signer::SignerError for a readable detail.
#[verifier::external_body]
fn signer_error_detail(err: &lwk_signer::SignerError) -> (r: String) {
    format!("{err:?}")
}

/// Relies on anyhow::Error's `Display` impl (its `to_string`) for the message.
#[verifier::external_body]
fn anyhow_error_message(err: &anyhow::Error) -> (r: String) {
    err.to_string()
}

/// A failure reported by the swap service's client: either a message of the
/// swap protocol, or any other failure, given by its description.
#[derive(Debug, Clone)]
pub enum SwapServiceFailure {
    Protocol(String),
    Other(String),
}

/// The closed set of failures that the wallet facade reports.
#[derive(Debug, Clone)]
pub enum PaymentError {
    AmountOutOfRange,
    AlreadyClaimed,
    Generic { err: String },
    InvalidInvoice,
    InvalidPreimage,
    LwkError { err: String },
    PairsNotFound,
    PersistError,
    SendError { err: String },
    SignerError { err: String },
}

/// Reported when an operation needs a session and none is active.
pub open spec fn not_initialized_message() -> Seq<char> {
    "Liquid wallet was not initialized"@
}

/// Reported when a session is started while another one is active.
pub open spec fn already_initialized_message() -> Seq<char> {
    "Static node services already set, please call disconnect() first"@
}

/// Reported when a pending swap's invoice carries no readable amount.
pub open spec fn corrupt_invoice_message() -> Seq<char> {
    "Swap record holds an invoice without a readable amount"@
}

/// Reported when a pending swap's amounts would give a negative fee.
pub open spec fn fee_inversion_message() -> Seq<char> {
    "Swap amounts would give a negative fee"@
}

/// The swap service's message for funds that were already spent.
pub open spec fn already_claimed_protocol_message() -> Seq<char> {
    "Could not find utxos for script"@
}

impl PaymentError {
    /// Whether this is a `Generic` error with exactly the given message.
    pub open spec fn is_generic_with(self, msg: Seq<char>) -> bool {
        self matches PaymentError::Generic { err } && err@ == msg
    }

    /// Maps a swap service failure: the protocol message for funds that are
    /// already spent becomes `AlreadyClaimed`; every other failure is
    /// `Generic`, with the message or description as detail.
    pub fn from_swap_service(failure: SwapServiceFailure) -> (r: PaymentError)
        ensures
            failure matches SwapServiceFailure::Protocol(msg) ==> (if msg@
                == already_claimed_protocol_message() {
                r is AlreadyClaimed
            } else {
                r.is_generic_with(msg@)
            }),
            failure matches SwapServiceFailure::Other(detail) ==> r.is_generic_with(detail@),
    {
        match failure {
            SwapServiceFailure::Protocol(msg) => {
                let claimed = "Could not find utxos for script".to_owned();
                if msg == claimed {
                    PaymentError::AlreadyClaimed
                } else {
                    PaymentError::Generic { err: msg }
                }
            },
            SwapServiceFailure::Other(detail) => PaymentError::Generic { err: detail },
        }
    }

    /// A failure of the wallet library, kept as an `LwkError` with its
    /// description.
    pub fn from_lwk(err: lwk_wollet::Error) -> (r: PaymentError)
        ensures
            r is LwkError,
    {
        PaymentError::LwkError { err: lwk_error_detail(&err) }
    }

    /// A failure of the signer, kept as a `SignerError` with its description.
    pub fn from_signer(err: lwk_signer::SignerError) -> (r: PaymentError)
        ensures
            r is SignerError,
    {
        PaymentError::SignerError { err: signer_error_detail(&err) }
    }

    /// Any other failure, kept as `Generic` with its message.
    pub fn from_anyhow(err: anyhow::Error) -> (r: PaymentError)
        ensures
            r is Generic,
    {
        PaymentError::Generic { err: anyhow_error_message(&err) }
    }

    pub fn not_initialized() -> (r: PaymentError)
        ensures
            r.is_generic_with(not_initialized_message()),
    {
        PaymentError::Generic { err: "Liquid wallet was not initialized".to_owned() }
    }

    pub fn already_initialized() -> (r: PaymentError)
        ensures
            r.is_generic_with(already_initialized_message()),
    {
        PaymentError::Generic {
            err: "Static node services already set, please call disconnect() first".to_owned(),
        }
    }

    pub fn corrupt_invoice() -> (r: PaymentError)
        ensures
            r.is_generic_with(corrupt_invoice_message()),
    {
        PaymentError::Generic {
            err: "Swap record holds an invoice without a readable amount".to_owned(),
        }
    }

    pub fn fee_inversion() -> (r: PaymentError)
        ensures
            r.is_generic_with(fee_inversion_message()),
    {
        PaymentError::Generic { err: "Swap amounts would give a negative fee".to_owned() }
    }
}

} // verus!
