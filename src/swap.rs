use vstd::prelude::*;

use crate::error::{corrupt_invoice_message, fee_inversion_message, PaymentError};
use crate::model::{OngoingSwap, Payment, PaymentType, PrepareSendResponse};

verus! {

/// Whole satoshi in an amount of millisatoshi, rounded down.
pub open spec fn sat_of_msat(msat: u64) -> u64 {
    msat / 1000
}

/// Whether the swap's amounts give a fee that is not negative, for the
/// amount `payer_amount_sat` that its invoice carries.
pub open spec fn fee_is_consistent(swap: OngoingSwap, payer_amount_sat: u64) -> bool {
    match swap {
        OngoingSwap::Send { receiver_amount_sat, .. } => payer_amount_sat <= receiver_amount_sat,
        OngoingSwap::Receive { receiver_amount_sat, .. } => receiver_amount_sat <= payer_amount_sat,
    }
}

/// The history entry that stands for a pending swap whose invoice carries
/// `payer_amount_sat`. Only a pending receive keeps its invoice, for the
/// payer to pay.
pub open spec fn projected_payment(swap: OngoingSwap, payer_amount_sat: u64) -> Payment {
    match swap {
        OngoingSwap::Send { receiver_amount_sat, .. } => Payment {
            id: None,
            timestamp: None,
            amount_sat: payer_amount_sat,
            fees_sat: Some((receiver_amount_sat - payer_amount_sat) as u64),
            payment_type: PaymentType::PendingSend,
            invoice: None,
        },
        OngoingSwap::Receive { invoice, receiver_amount_sat, .. } => Payment {
            id: None,
            timestamp: None,
            amount_sat: receiver_amount_sat,
            fees_sat: Some((payer_amount_sat - receiver_amount_sat) as u64),
            payment_type: PaymentType::PendingReceive,
            invoice: Some(invoice),
        },
    }
}

/// Whether `swap` can be projected when its invoice reads as `invoice_msat`.
pub open spec fn projection_ok(swap: OngoingSwap, invoice_msat: Option<u64>) -> bool {
    invoice_msat is Some && fee_is_consistent(swap, sat_of_msat(invoice_msat->0))
}

/// The amount in millisatoshi that a BOLT11 invoice string carries: `None`
/// where the string is no valid invoice or the invoice states no amount.
pub uninterp spec fn invoice_amount_msat_of(invoice: Seq<char>) -> Option<u64>;

/// Relies on lightning_invoice: `Bolt11Invoice`'s `FromStr` (which checks the
/// encoding and the signature) and `amount_milli_satoshis`.
#[verifier::external_body]
fn invoice_amount_msat(invoice: &str) -> (r: Option<u64>)
    ensures
        r == invoice_amount_msat_of(invoice@),
{
    match invoice.parse::<lightning_invoice::Bolt11Invoice>() {
        Ok(parsed) => parsed.amount_milli_satoshis(),
        Err(_) => None,
    }
}

/// The amount in whole satoshi that an invoice carries, rounded down from
/// its millisatoshi; `None` where the invoice does not parse or states no
/// amount.
pub fn invoice_amount_sat(invoice: &str) -> (r: Option<u64>)
    ensures
        r == match invoice_amount_msat_of(invoice@) {
            Some(msat) => Some(sat_of_msat(msat)),
            None => None,
        },
{
    match invoice_amount_msat(invoice) {
        Some(msat) => Some(msat / 1000),
        None => None,
    }
}

impl Payment {
    /// Projects a pending swap into a history entry, given the amount in
    /// millisatoshi that its invoice carries (`None` where the invoice has
    /// none or does not parse).
    pub fn from_swap_amount(swap: OngoingSwap, invoice_msat: Option<u64>) -> (r: Result<
        Payment,
        PaymentError,
    >)
        ensures
            r is Ok <==> projection_ok(swap, invoice_msat),
            projection_ok(swap, invoice_msat) ==> r == Ok::<Payment, PaymentError>(
                projected_payment(swap, sat_of_msat(invoice_msat->0)),
            ),
            invoice_msat is None ==> r->Err_0.is_generic_with(corrupt_invoice_message()),
            invoice_msat is Some && !projection_ok(swap, invoice_msat) ==> r->Err_0.is_generic_with(
                fee_inversion_message(),
            ),
    {
        let msat: u64 = match invoice_msat {
            Some(m) => m,
            None => return Err(PaymentError::corrupt_invoice()),
        };
        let payer_amount_sat: u64 = msat / 1000;
        match swap {
            OngoingSwap::Send { receiver_amount_sat, .. } => {
                if receiver_amount_sat < payer_amount_sat {
                    return Err(PaymentError::fee_inversion());
                }
                Ok(
                    Payment {
                        id: None,
                        timestamp: None,
                        amount_sat: payer_amount_sat,
                        fees_sat: Some(receiver_amount_sat - payer_amount_sat),
                        payment_type: PaymentType::PendingSend,
                        invoice: None,
                    },
                )
            },
            OngoingSwap::Receive { invoice, receiver_amount_sat, .. } => {
                if payer_amount_sat < receiver_amount_sat {
                    return Err(PaymentError::fee_inversion());
                }
                Ok(
                    Payment {
                        id: None,
                        timestamp: None,
                        amount_sat: receiver_amount_sat,
                        fees_sat: Some(payer_amount_sat - receiver_amount_sat),
                        payment_type: PaymentType::PendingReceive,
                        invoice: Some(invoice),
                    },
                )
            },
        }
    }
}

impl Payment {
    /// Projects a pending swap into a history entry, reading the payer's
    /// amount from the swap's invoice. A swap whose invoice cannot be read,
    /// or whose amounts give a negative fee, is reported as an error.
    pub fn from_swap(swap: OngoingSwap) -> (r: Result<Payment, PaymentError>)
        ensures
            r is Ok <==> projection_ok(swap, invoice_amount_msat_of(swap.spec_invoice()@)),
            r is Ok ==> r == Ok::<Payment, PaymentError>(
                projected_payment(
                    swap,
                    sat_of_msat(invoice_amount_msat_of(swap.spec_invoice()@)->0),
                ),
            ),
            invoice_amount_msat_of(swap.spec_invoice()@) is None ==> r->Err_0.is_generic_with(
                corrupt_invoice_message(),
            ),
            invoice_amount_msat_of(swap.spec_invoice()@) is Some && !projection_ok(
                swap,
                invoice_amount_msat_of(swap.spec_invoice()@),
            ) ==> r->Err_0.is_generic_with(fee_inversion_message()),
    {
        let invoice_msat = invoice_amount_msat(swap.invoice().as_str());
        Payment::from_swap_amount(swap, invoice_msat)
    }
}

/// Whether a send quote can be built: the invoice carries an amount, and the
/// swap's receiver amount covers it.
pub open spec fn send_quote_ok(invoice_msat: Option<u64>, receiver_amount_sat: u64) -> bool {
    invoice_msat is Some && sat_of_msat(invoice_msat->0) <= receiver_amount_sat
}

impl PrepareSendResponse {
    /// A negotiated send swap, given the amount in millisatoshi that its
    /// invoice carries: the payer amount is that amount in whole satoshi, and
    /// the total fee is what the swap's receiver amount adds to it. An
    /// invoice without an amount is `InvalidInvoice`; a receiver amount below
    /// the payer amount is reported as a negative fee.
    pub fn from_quote_amount(
        id: String,
        invoice: String,
        invoice_msat: Option<u64>,
        receiver_amount_sat: u64,
        funding_address: String,
    ) -> (r: Result<PrepareSendResponse, PaymentError>)
        ensures
            r is Ok <==> send_quote_ok(invoice_msat, receiver_amount_sat),
            r is Ok ==> r == Ok::<PrepareSendResponse, PaymentError>(
                (PrepareSendResponse {
                    id,
                    payer_amount_sat: sat_of_msat(invoice_msat->0),
                    receiver_amount_sat,
                    total_fees: (receiver_amount_sat - sat_of_msat(invoice_msat->0)) as u64,
                    funding_address,
                    invoice,
                }),
            ),
            invoice_msat is None ==> r->Err_0 is InvalidInvoice,
            invoice_msat is Some && !send_quote_ok(invoice_msat, receiver_amount_sat)
                ==> r->Err_0.is_generic_with(fee_inversion_message()),
    {
        let msat: u64 = match invoice_msat {
            Some(m) => m,
            None => return Err(PaymentError::InvalidInvoice),
        };
        let payer_amount_sat: u64 = msat / 1000;
        if receiver_amount_sat < payer_amount_sat {
            return Err(PaymentError::fee_inversion());
        }
        Ok(
            PrepareSendResponse {
                id,
                payer_amount_sat,
                receiver_amount_sat,
                total_fees: receiver_amount_sat - payer_amount_sat,
                funding_address,
                invoice,
            },
        )
    }

    /// A negotiated send swap for `invoice`, reading the payer amount from
    /// the invoice itself (see `from_quote_amount`).
    pub fn from_quote(
        id: String,
        invoice: String,
        receiver_amount_sat: u64,
        funding_address: String,
    ) -> (r: Result<PrepareSendResponse, PaymentError>)
        ensures
            r is Ok <==> send_quote_ok(invoice_amount_msat_of(invoice@), receiver_amount_sat),
            r is Ok ==> r == Ok::<PrepareSendResponse, PaymentError>(
                (PrepareSendResponse {
                    id,
                    payer_amount_sat: sat_of_msat(invoice_amount_msat_of(invoice@)->0),
                    receiver_amount_sat,
                    total_fees: (receiver_amount_sat - sat_of_msat(
                        invoice_amount_msat_of(invoice@)->0,
                    )) as u64,
                    funding_address,
                    invoice,
                }),
            ),
            invoice_amount_msat_of(invoice@) is None ==> r->Err_0 is InvalidInvoice,
            invoice_amount_msat_of(invoice@) is Some && !send_quote_ok(
                invoice_amount_msat_of(invoice@),
                receiver_amount_sat,
            ) ==> r->Err_0.is_generic_with(fee_inversion_message()),
    {
        let invoice_msat = invoice_amount_msat(invoice.as_str());
        PrepareSendResponse::from_quote_amount(
            id,
            invoice,
            invoice_msat,
            receiver_amount_sat,
            funding_address,
        )
    }
}

/// A send swap whose invoice carries `payer_amount_sat` no more than its
/// receiver amount shows that amount, the difference as fee, and is pending.
pub proof fn lemma_send_projection(swap: OngoingSwap, payer_amount_sat: u64)
    requires
        swap is Send,
        payer_amount_sat <= swap.spec_receiver_amount_sat(),
    ensures
        fee_is_consistent(swap, payer_amount_sat),
        projected_payment(swap, payer_amount_sat).amount_sat == payer_amount_sat,
        projected_payment(swap, payer_amount_sat).fees_sat == Some(
            (swap.spec_receiver_amount_sat() - payer_amount_sat) as u64,
        ),
        projected_payment(swap, payer_amount_sat).payment_type == PaymentType::PendingSend,
{
}

/// A receive swap whose invoice carries `payer_amount_sat` no less than its
/// receiver amount shows the receiver amount, the difference as fee, and is
/// pending.
pub proof fn lemma_receive_projection(swap: OngoingSwap, payer_amount_sat: u64)
    requires
        swap is Receive,
        swap.spec_receiver_amount_sat() <= payer_amount_sat,
    ensures
        fee_is_consistent(swap, payer_amount_sat),
        projected_payment(swap, payer_amount_sat).amount_sat == swap.spec_receiver_amount_sat(),
        projected_payment(swap, payer_amount_sat).fees_sat == Some(
            (payer_amount_sat - swap.spec_receiver_amount_sat()) as u64,
        ),
        projected_payment(swap, payer_amount_sat).payment_type == PaymentType::PendingReceive,
{
}

/// The entry projected from a send swap holds all that is needed to derive it
/// again: a send swap rebuilt with the entry's amount plus its fee as receiver
/// amount, for an invoice of that same amount, projects to the very same
/// entry, and the fee is the receiver amount less the shown amount.
pub proof fn lemma_send_projection_round_trip(
    swap: OngoingSwap,
    payer_amount_sat: u64,
    id: String,
    funding_address: String,
    invoice: String,
    txid: Option<String>,
)
    requires
        swap is Send,
        fee_is_consistent(swap, payer_amount_sat),
    ensures
        ({
            let p = projected_payment(swap, payer_amount_sat);
            let rebuilt = OngoingSwap::Send {
                id,
                funding_address,
                invoice,
                receiver_amount_sat: (p.amount_sat + p.fees_sat->0) as u64,
                txid,
            };
            &&& p.amount_sat + p.fees_sat->0 == swap.spec_receiver_amount_sat()
            &&& fee_is_consistent(rebuilt, p.amount_sat)
            &&& projected_payment(rebuilt, p.amount_sat) == p
        }),
{
}

} // verus!
