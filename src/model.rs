use vstd::prelude::*;

verus! {

/// The Liquid network a wallet session runs against.
#[derive(Debug, Clone, Copy, PartialEq, Eq, Structural)]
pub enum Network {
    Liquid,
    LiquidTestnet,
}

/// A request for a receive quote: at most one of the two amounts is given.
#[derive(Debug, Clone)]
pub struct PrepareReceiveRequest {
    pub payer_amount_sat: Option<u64>,
    pub receiver_amount_sat: Option<u64>,
}

/// A negotiated receive quote.
#[derive(Debug, Clone)]
pub struct PrepareReceiveResponse {
    pub pair_hash: String,
    pub payer_amount_sat: u64,
    pub fees_sat: u64,
}

/// The invoice and swap id issued for a prepared receive.
#[derive(Debug, Clone)]
pub struct ReceivePaymentResponse {
    pub id: String,
    pub invoice: String,
}

/// A negotiated send swap, ready to be funded.
#[derive(Debug, Clone)]
pub struct PrepareSendResponse {
    pub id: String,
    pub payer_amount_sat: u64,
    pub receiver_amount_sat: u64,
    pub total_fees: u64,
    pub funding_address: String,
    pub invoice: String,
}

/// The settlement transaction of a funded send swap.
#[derive(Debug, Clone)]
pub struct SendPaymentResponse {
    pub txid: String,
}

/// Balance and public key of the wallet at the time of the query.
#[derive(Debug, Clone)]
pub struct WalletInfo {
    pub balance_sat: u64,
    pub pubkey: String,
}

/// The kind of an entry of the payment history.
#[derive(Debug, Clone, Copy, PartialEq, Eq, Structural)]
pub enum PaymentType {
    Sent,
    Received,
    PendingReceive,
    PendingSend,
}

impl PaymentType {
    /// Whether the entry stands for a swap that has not settled yet.
    pub open spec fn spec_is_pending(self) -> bool {
        self == PaymentType::PendingReceive || self == PaymentType::PendingSend
    }

    pub fn is_pending(&self) -> (r: bool)
        ensures
            r == self.spec_is_pending(),
    {
        match self {
            PaymentType::PendingReceive | PaymentType::PendingSend => true,
            _ => false,
        }
    }
}

/// One entry of the payment history.
#[derive(Debug, Clone)]
pub struct Payment {
    pub id: Option<String>,
    pub timestamp: Option<u32>,
    pub amount_sat: u64,
    pub fees_sat: Option<u64>,
    pub payment_type: PaymentType,
    /// Only set for a pending receive: the invoice the payer is to pay.
    pub invoice: Option<String>,
}

/// A swap that has been negotiated but has not settled yet.
#[derive(Debug)]
pub enum OngoingSwap {
    Send {
        id: String,
        funding_address: String,
        invoice: String,
        receiver_amount_sat: u64,
        txid: Option<String>,
    },
    Receive {
        id: String,
        preimage: String,
        redeem_script: String,
        blinding_key: String,
        invoice: String,
        receiver_amount_sat: u64,
    },
}

impl OngoingSwap {
    pub open spec fn spec_invoice(&self) -> String {
        match self {
            OngoingSwap::Send { invoice, .. } => *invoice,
            OngoingSwap::Receive { invoice, .. } => *invoice,
        }
    }

    pub open spec fn spec_receiver_amount_sat(&self) -> u64 {
        match self {
            OngoingSwap::Send { receiver_amount_sat, .. } => *receiver_amount_sat,
            OngoingSwap::Receive { receiver_amount_sat, .. } => *receiver_amount_sat,
        }
    }

    /// The invoice the swap was negotiated for.
    pub fn invoice(&self) -> (r: &String)
        ensures
            *r == self.spec_invoice(),
    {
        match self {
            OngoingSwap::Send { invoice, .. } => invoice,
            OngoingSwap::Receive { invoice, .. } => invoice,
        }
    }
}

} // verus!
