use stellarforge::{
    build_payment_transaction, build_token_payment_transaction, Asset, Memo, Operation,
    PaymentRequest, ScArg, TokenPaymentRequest, TxError,
};

const SOURCE: &str = "GAAAAAAAAAAAAAAAAAAAAAAAAAAAAAAAAAAAAAAAAAAAAAAAAAAAAWHF";
const DEST: &str = "GAAAAAAAAAAAAAAAAAAAAAAAAAAAAAAAAAAAAAAAAAAAAAAAAAAAAWHF";
const CONTRACT: &str = "CAAAAAAAAAAAAAAAAAAAAAAAAAAAAAAAAAAAAAAAAAAAAAAAAAAABSC4";

#[test]
fn builds_xlm_payment_transaction() {
    let request = PaymentRequest::xlm(DEST, "25");
    let tx = build_payment_transaction(SOURCE, 1, 100, request).unwrap();

    assert_eq!(tx.source_account, SOURCE);
    assert_eq!(tx.operations.len(), 1);
    assert!(matches!(
        &tx.operations[0],
        Operation::Payment { asset, amount, .. }
            if *asset == Asset::Native && amount == "25"
    ));
    assert_eq!(tx.memo, Memo::NoMemo);
}

#[test]
fn builds_payment_transaction_with_memo() {
    let request = PaymentRequest::xlm(DEST, "25").with_memo("invoice-1038");
    let tx = build_payment_transaction(SOURCE, 1, 100, request).unwrap();
    assert_eq!(tx.memo, Memo::Text("invoice-1038".to_string()));
}

#[test]
fn rejects_payment_with_invalid_destination() {
    let request = PaymentRequest::xlm("not-an-address", "25");
    assert!(build_payment_transaction(SOURCE, 1, 100, request).is_err());
}

#[test]
fn rejects_payment_with_memo_over_limit() {
    let request = PaymentRequest::xlm(DEST, "25").with_memo(&"a".repeat(29));
    assert!(build_payment_transaction(SOURCE, 1, 100, request).is_err());
}

#[test]
fn xlm_builds_native_request_with_no_memo() {
    let req = PaymentRequest::xlm("GDEST", "25");
    assert_eq!(req.asset, Asset::Native);
    assert_eq!(req.amount, "25");
    assert_eq!(req.memo, None);
}

#[test]
fn with_memo_sets_memo() {
    let req = PaymentRequest::xlm("GDEST", "25").with_memo("invoice-1038");
    assert_eq!(req.memo, Some("invoice-1038".to_string()));
}

#[test]
fn builds_token_transfer_transaction() {
    let request = TokenPaymentRequest::new(CONTRACT, DEST, 250_0000000);
    let tx = build_token_payment_transaction(SOURCE, 1, 100, request).unwrap();

    assert_eq!(tx.operations.len(), 1);
    match &tx.operations[0] {
        Operation::InvokeContract {
            contract,
            function,
            args,
        } => {
            assert_eq!(contract, CONTRACT);
            assert_eq!(function, "transfer");
            assert_eq!(
                args,
                &vec![
                    ScArg::Address(SOURCE.to_string()),
                    ScArg::Address(DEST.to_string()),
                    ScArg::I128(250_0000000),
                ]
            );
        }
        other => panic!("expected InvokeContract, got {other:?}"),
    }
}

#[test]
fn rejects_zero_amount() {
    let request = TokenPaymentRequest::new(CONTRACT, DEST, 0);
    assert!(build_token_payment_transaction(SOURCE, 1, 100, request).is_err());
}

#[test]
fn rejects_negative_amount() {
    let request = TokenPaymentRequest::new(CONTRACT, DEST, -5);
    assert!(build_token_payment_transaction(SOURCE, 1, 100, request).is_err());
}

#[test]
fn rejects_non_contract_address() {
    let request = TokenPaymentRequest::new(DEST, DEST, 100);
    assert!(build_token_payment_transaction(SOURCE, 1, 100, request).is_err());
}

#[test]
fn carries_memo_through() {
    let request = TokenPaymentRequest::new(CONTRACT, DEST, 100).with_memo("token-payment");
    let tx = build_token_payment_transaction(SOURCE, 1, 100, request).unwrap();
    assert_eq!(tx.memo, Memo::Text("token-payment".to_string()));
}

// Further cases.

#[test]
fn payment_transaction_errors_in_order() {
    // A bad amount is reported before a bad source account.
    let err = build_payment_transaction("nope", 1, 100, PaymentRequest::xlm(DEST, "0")).unwrap_err();
    assert_eq!(err.to_string(), "transaction rejected: amount must be greater than zero: `0`");
    // A bad source account is reported before a bad memo and a low fee.
    let request = PaymentRequest::xlm(DEST, "1").with_memo(&"m".repeat(40));
    let err = build_payment_transaction("nope", 1, 1, request).unwrap_err();
    assert!(matches!(err, TxError::InvalidAddress(_)));
    // A bad memo is reported before a low fee.
    let request = PaymentRequest::xlm(DEST, "1").with_memo(&"m".repeat(40));
    let err = build_payment_transaction(SOURCE, 1, 1, request).unwrap_err();
    assert!(matches!(err, TxError::InvalidMemo(_)));
    let err = build_payment_transaction(SOURCE, 1, 1, PaymentRequest::xlm(DEST, "1")).unwrap_err();
    assert!(matches!(err, TxError::FeeTooLow { provided: 1, minimum: 100 }));
}

#[test]
fn payment_transaction_carries_fields() {
    let tx = build_payment_transaction(SOURCE, 42, 250, PaymentRequest::xlm(DEST, "3.5")).unwrap();
    assert_eq!(tx.sequence_number, 42);
    assert_eq!(tx.base_fee_stroops, 250);
    assert_eq!(tx.time_bounds, None);
    assert_eq!(tx.total_fee_stroops(), 250);
    assert_eq!(
        tx.operations[0],
        Operation::Payment {
            destination: DEST.to_string(),
            asset: Asset::Native,
            amount: "3.5".to_string(),
        }
    );
}

#[test]
fn token_payment_errors_and_messages() {
    let err = build_token_payment_transaction(SOURCE, 1, 100, TokenPaymentRequest::new(CONTRACT, DEST, -5))
        .unwrap_err();
    assert_eq!(
        err.to_string(),
        "transaction rejected: token payment amount must be greater than zero: -5"
    );
    let err = build_token_payment_transaction(
        SOURCE,
        1,
        100,
        TokenPaymentRequest::new(CONTRACT, DEST, i128::MIN),
    )
    .unwrap_err();
    assert_eq!(
        err.to_string(),
        format!("transaction rejected: token payment amount must be greater than zero: {}", i128::MIN)
    );
    // The source account is checked before the amount.
    let err = build_token_payment_transaction("nope", 1, 100, TokenPaymentRequest::new(CONTRACT, DEST, 0))
        .unwrap_err();
    assert!(matches!(err, TxError::InvalidAddress(_)));
    let err = build_token_payment_transaction(SOURCE, 1, 99, TokenPaymentRequest::new(CONTRACT, DEST, 1))
        .unwrap_err();
    assert!(matches!(err, TxError::FeeTooLow { provided: 99, minimum: 100 }));
}

#[test]
fn token_request_fields() {
    let req = TokenPaymentRequest::new(CONTRACT, DEST, 9).with_memo("m");
    assert_eq!(req.contract, CONTRACT);
    assert_eq!(req.destination, DEST);
    assert_eq!(req.amount, 9);
    assert_eq!(req.memo, Some("m".to_string()));
}
