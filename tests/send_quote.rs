use breez_liquid_wrapper::error::PaymentError;
use breez_liquid_wrapper::model::PrepareSendResponse;

const INVOICE_250K_SAT: &str = "lnbc2500u1pvjluezsp5zyg3zyg3zyg3zyg3zyg3zyg3zyg3zyg3zyg3zyg3zyg3zyg3zygspp5qqqsyqcyq5rqwzqfqqqsyqcyq5rqwzqfqqqsyqcyq5rqwzqfqypqdq5xysxxatsyp3k7enxv4jsxqzpu9qrsgquk0rl77nj30yxdy8j9vdx85fkpmdla2087ne0xh8nhedh8w27kyke0lp53ut353s06fv3qfegext0eh0ymjpf39tuven09sam30g4vgpfna3rh";

#[test]
fn fifty_thousand_millisatoshi_is_fifty_satoshi() {
    let quote = PrepareSendResponse::from_quote_amount(
        "id".to_string(),
        "lnbc500n".to_string(),
        Some(50_000),
        53,
        "lq1qqfunding".to_string(),
    )
    .unwrap();
    assert_eq!(quote.payer_amount_sat, 50);
    assert_eq!(quote.receiver_amount_sat, 53);
    assert_eq!(quote.total_fees, 3);
    assert_eq!(quote.invoice, "lnbc500n");
    assert_eq!(quote.funding_address, "lq1qqfunding");
}

#[test]
fn quote_without_invoice_amount_is_invalid_invoice() {
    let e = PrepareSendResponse::from_quote_amount(
        "id".to_string(),
        "x".to_string(),
        None,
        53,
        "a".to_string(),
    )
    .unwrap_err();
    assert!(matches!(e, PaymentError::InvalidInvoice));
}

#[test]
fn quote_below_invoice_amount_is_a_negative_fee() {
    let e = PrepareSendResponse::from_quote_amount(
        "id".to_string(),
        "x".to_string(),
        Some(50_000),
        49,
        "a".to_string(),
    )
    .unwrap_err();
    match e {
        PaymentError::Generic { err } => assert_eq!(err, "Swap amounts would give a negative fee"),
        other => panic!("unexpected {other:?}"),
    }
}

#[test]
fn quote_reads_the_amount_of_a_real_invoice() {
    let quote = PrepareSendResponse::from_quote(
        "id".to_string(),
        INVOICE_250K_SAT.to_string(),
        251_000,
        "a".to_string(),
    )
    .unwrap();
    assert_eq!(quote.payer_amount_sat, 250_000);
    assert_eq!(quote.total_fees, 1_000);
}

#[test]
fn quote_for_a_malformed_invoice_is_invalid_invoice() {
    let e = PrepareSendResponse::from_quote(
        "id".to_string(),
        "lnbc1notaninvoice".to_string(),
        10,
        "a".to_string(),
    )
    .unwrap_err();
    assert!(matches!(e, PaymentError::InvalidInvoice));
}
