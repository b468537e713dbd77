use breez_liquid_wrapper::error::PaymentError;
use breez_liquid_wrapper::model::{OngoingSwap, Payment, PaymentType};
use breez_liquid_wrapper::swap::invoice_amount_sat;

const INVOICE_250K_SAT: &str = "lnbc2500u1pvjluezsp5zyg3zyg3zyg3zyg3zyg3zyg3zyg3zyg3zyg3zyg3zyg3zyg3zygspp5qqqsyqcyq5rqwzqfqqqsyqcyq5rqwzqfqqqsyqcyq5rqwzqfqypqdq5xysxxatsyp3k7enxv4jsxqzpu9qrsgquk0rl77nj30yxdy8j9vdx85fkpmdla2087ne0xh8nhedh8w27kyke0lp53ut353s06fv3qfegext0eh0ymjpf39tuven09sam30g4vgpfna3rh";

fn send_swap(invoice: &str, receiver_amount_sat: u64) -> OngoingSwap {
    OngoingSwap::Send {
        id: "swap-send".to_string(),
        funding_address: "lq1qqfunding".to_string(),
        invoice: invoice.to_string(),
        receiver_amount_sat,
        txid: None,
    }
}

fn receive_swap(invoice: &str, receiver_amount_sat: u64) -> OngoingSwap {
    OngoingSwap::Receive {
        id: "swap-receive".to_string(),
        preimage: "00".to_string(),
        redeem_script: "51".to_string(),
        blinding_key: "02".to_string(),
        invoice: invoice.to_string(),
        receiver_amount_sat,
    }
}

fn generic_message(e: &PaymentError) -> String {
    match e {
        PaymentError::Generic { err } => err.clone(),
        other => panic!("expected a generic error, got {other:?}"),
    }
}

#[test]
fn send_projection_shows_invoice_amount_and_fee() {
    let p = Payment::from_swap_amount(send_swap("inv", 60), Some(50_000)).unwrap();
    assert_eq!(p.amount_sat, 50);
    assert_eq!(p.fees_sat, Some(10));
    assert_eq!(p.payment_type, PaymentType::PendingSend);
    assert_eq!(p.id, None);
    assert_eq!(p.timestamp, None);
    assert_eq!(p.invoice, None);
}

#[test]
fn receive_projection_shows_receiver_amount_and_fee() {
    let p = Payment::from_swap_amount(receive_swap("inv", 45), Some(50_000)).unwrap();
    assert_eq!(p.amount_sat, 45);
    assert_eq!(p.fees_sat, Some(5));
    assert_eq!(p.payment_type, PaymentType::PendingReceive);
    assert_eq!(p.invoice.as_deref(), Some("inv"));
}

#[test]
fn projection_with_equal_amounts_has_zero_fee() {
    let p = Payment::from_swap_amount(send_swap("inv", 50), Some(50_000)).unwrap();
    assert_eq!(p.fees_sat, Some(0));
    let p = Payment::from_swap_amount(receive_swap("inv", 50), Some(50_000)).unwrap();
    assert_eq!(p.fees_sat, Some(0));
}

#[test]
fn millisatoshi_round_down_to_satoshi() {
    let p = Payment::from_swap_amount(send_swap("inv", 100), Some(50_999)).unwrap();
    assert_eq!(p.amount_sat, 50);
    assert_eq!(p.fees_sat, Some(50));
}

#[test]
fn invoice_without_amount_is_a_corrupt_record() {
    let e = Payment::from_swap_amount(send_swap("inv", 60), None).unwrap_err();
    assert_eq!(generic_message(&e), "Swap record holds an invoice without a readable amount");
}

#[test]
fn inverted_send_amounts_are_reported() {
    let e = Payment::from_swap_amount(send_swap("inv", 40), Some(50_000)).unwrap_err();
    assert_eq!(generic_message(&e), "Swap amounts would give a negative fee");
}

#[test]
fn inverted_receive_amounts_are_reported() {
    let e = Payment::from_swap_amount(receive_swap("inv", 51), Some(50_000)).unwrap_err();
    assert_eq!(generic_message(&e), "Swap amounts would give a negative fee");
}

#[test]
fn repeated_send_projection_is_identical() {
    let a = Payment::from_swap_amount(send_swap("inv", 60), Some(50_000)).unwrap();
    let b = Payment::from_swap_amount(send_swap("inv", 60), Some(50_000)).unwrap();
    assert_eq!(format!("{a:?}"), format!("{b:?}"));
    let rebuilt = send_swap("inv", a.amount_sat + a.fees_sat.unwrap());
    let c = Payment::from_swap_amount(rebuilt, Some(50_000)).unwrap();
    assert_eq!(format!("{a:?}"), format!("{c:?}"));
}

#[test]
fn invoice_amount_is_read_from_a_real_invoice() {
    assert_eq!(invoice_amount_sat(INVOICE_250K_SAT), Some(250_000));
}

#[test]
fn unparsable_invoice_has_no_amount() {
    assert_eq!(invoice_amount_sat("lnbc-not-an-invoice"), None);
    assert_eq!(invoice_amount_sat(""), None);
}

#[test]
fn pending_send_is_projected_from_its_invoice() {
    let p = Payment::from_swap(send_swap(INVOICE_250K_SAT, 250_100)).unwrap();
    assert_eq!(p.amount_sat, 250_000);
    assert_eq!(p.fees_sat, Some(100));
    assert_eq!(p.payment_type, PaymentType::PendingSend);
    assert_eq!(p.invoice, None);
}

#[test]
fn pending_receive_is_projected_from_its_invoice() {
    let p = Payment::from_swap(receive_swap(INVOICE_250K_SAT, 249_000)).unwrap();
    assert_eq!(p.amount_sat, 249_000);
    assert_eq!(p.fees_sat, Some(1_000));
    assert_eq!(p.payment_type, PaymentType::PendingReceive);
    assert_eq!(p.invoice.as_deref(), Some(INVOICE_250K_SAT));
}

#[test]
fn pending_swap_with_unreadable_invoice_is_an_error_not_a_crash() {
    let e = Payment::from_swap(send_swap("garbage", 10)).unwrap_err();
    assert_eq!(generic_message(&e), "Swap record holds an invoice without a readable amount");
}
