use stellarforge::amount::validate_amount;
use stellarforge::{
    Asset, Memo, Operation, ScArg, TimeBounds, TransactionBuilder, TxError, MAX_OPERATIONS,
    MAX_TEXT_MEMO_BYTES, MIN_BASE_FEE_STROOPS,
};

const SOURCE: &str = "GAAAAAAAAAAAAAAAAAAAAAAAAAAAAAAAAAAAAAAAAAAAAAAAAAAAAWHF";
const DEST: &str = "GAAAAAAAAAAAAAAAAAAAAAAAAAAAAAAAAAAAAAAAAAAAAAAAAAAAAWHF";
const VALID_DESTINATION: &str = "GAAAAAAAAAAAAAAAAAAAAAAAAAAAAAAAAAAAAAAAAAAAAAAAAAAAAWHF";
const CONTRACT: &str = "CAAAAAAAAAAAAAAAAAAAAAAAAAAAAAAAAAAAAAAAAAAAAAAAAAAABSC4";

fn payment() -> Operation {
    Operation::payment(DEST, Asset::Native, "25").unwrap()
}

#[test]
fn builds_minimal_valid_transaction() {
    let tx = TransactionBuilder::new(SOURCE, 100)
        .unwrap()
        .add_operation(payment())
        .build()
        .unwrap();

    assert_eq!(tx.source_account, SOURCE);
    assert_eq!(tx.sequence_number, 100);
    assert_eq!(tx.base_fee_stroops, MIN_BASE_FEE_STROOPS);
    assert_eq!(tx.memo, Memo::NoMemo);
    assert_eq!(tx.operations.len(), 1);
}

#[test]
fn new_rejects_invalid_source_account() {
    assert!(TransactionBuilder::new("not-an-address", 1).is_err());
}

#[test]
fn build_rejects_zero_operations() {
    let err = TransactionBuilder::new(SOURCE, 1)
        .unwrap()
        .build()
        .unwrap_err();
    assert!(matches!(err, TxError::NoOperations));
}

#[test]
fn build_rejects_too_many_operations() {
    let mut builder = TransactionBuilder::new(SOURCE, 1).unwrap();
    for _ in 0..=MAX_OPERATIONS {
        builder = builder.add_operation(payment());
    }
    let err = builder.build().unwrap_err();
    assert!(matches!(err, TxError::TooManyOperations(101)));
}

#[test]
fn build_rejects_fee_below_minimum() {
    let err = TransactionBuilder::new(SOURCE, 1)
        .unwrap()
        .base_fee_stroops(50)
        .add_operation(payment())
        .build()
        .unwrap_err();
    assert!(matches!(
        err,
        TxError::FeeTooLow {
            provided: 50,
            minimum: MIN_BASE_FEE_STROOPS
        }
    ));
}

#[test]
fn total_fee_multiplies_by_operation_count() {
    let tx = TransactionBuilder::new(SOURCE, 1)
        .unwrap()
        .base_fee_stroops(200)
        .add_operation(payment())
        .add_operation(payment())
        .build()
        .unwrap();
    assert_eq!(tx.total_fee_stroops(), 400);
}

#[test]
fn memo_and_time_bounds_are_carried_through() {
    let bounds = TimeBounds::new(0, 100).unwrap();
    let tx = TransactionBuilder::new(SOURCE, 1)
        .unwrap()
        .memo(Memo::text("hi").unwrap())
        .time_bounds(bounds)
        .add_operation(payment())
        .build()
        .unwrap();
    assert_eq!(tx.memo, Memo::Text("hi".to_string()));
    assert_eq!(tx.time_bounds, Some(bounds));
}

#[test]
fn fee_too_low_display() {
    let err = TxError::FeeTooLow {
        provided: 50,
        minimum: 100,
    };
    assert_eq!(
        err.to_string(),
        "base fee 50 stroops is below the network minimum of 100 stroops"
    );
}

#[test]
fn too_many_operations_display() {
    let err = TxError::TooManyOperations(101);
    assert_eq!(
        err.to_string(),
        "transaction has 101 operations, maximum is 100"
    );
}

#[test]
fn from_core_error_wraps_as_invalid_address() {
    let core_err = stellarforge::Error::InvalidAddress {
        address: "bad".to_string(),
        reason: "too short".to_string(),
    };
    let tx_err: TxError = core_err.into();
    assert!(matches!(tx_err, TxError::InvalidAddress(_)));
}

#[test]
fn text_memo_within_limit_succeeds() {
    let memo = Memo::text("invoice-1038").unwrap();
    assert_eq!(memo, Memo::Text("invoice-1038".to_string()));
}

#[test]
fn text_memo_at_exact_limit_succeeds() {
    let value = "a".repeat(MAX_TEXT_MEMO_BYTES);
    assert!(Memo::text(&value).is_ok());
}

#[test]
fn text_memo_over_limit_is_rejected() {
    let value = "a".repeat(MAX_TEXT_MEMO_BYTES + 1);
    let err = Memo::text(&value).unwrap_err();
    assert!(matches!(err, TxError::InvalidMemo(_)));
}

#[test]
fn default_memo_is_none() {
    assert_eq!(Memo::default(), Memo::NoMemo);
    assert!(Memo::NoMemo.is_none());
    assert!(!Memo::Id(5).is_none());
}

#[test]
fn payment_with_valid_fields_succeeds() {
    let op = Operation::payment(VALID_DESTINATION, Asset::Native, "25").unwrap();
    assert!(
        matches!(op, Operation::Payment { asset, amount, .. } if asset == Asset::Native && amount == "25")
    );
}

#[test]
fn payment_with_fractional_amount_succeeds() {
    assert!(Operation::payment(VALID_DESTINATION, Asset::Native, "25.5000000").is_ok());
}

#[test]
fn payment_to_invalid_destination_is_rejected() {
    let err = Operation::payment("not-an-address", Asset::Native, "25").unwrap_err();
    assert!(matches!(err, TxError::InvalidAddress(_)));
}

#[test]
fn payment_with_zero_amount_is_rejected() {
    assert!(Operation::payment(VALID_DESTINATION, Asset::Native, "0").is_err());
    assert!(Operation::payment(VALID_DESTINATION, Asset::Native, "0.0").is_err());
}

#[test]
fn payment_with_negative_amount_is_rejected() {
    assert!(Operation::payment(VALID_DESTINATION, Asset::Native, "-5").is_err());
}

#[test]
fn payment_with_too_many_decimal_places_is_rejected() {
    assert!(Operation::payment(VALID_DESTINATION, Asset::Native, "1.12345678").is_err());
}

#[test]
fn payment_with_non_numeric_amount_is_rejected() {
    assert!(Operation::payment(VALID_DESTINATION, Asset::Native, "abc").is_err());
}

#[test]
fn new_rejects_max_before_min() {
    let err = TimeBounds::new(100, 50).unwrap_err();
    assert!(matches!(err, TxError::InvalidMemo(_)));
}

#[test]
fn new_rejects_equal_bounds() {
    assert!(TimeBounds::new(100, 100).is_err());
}

#[test]
fn valid_for_computes_max_time() {
    let bounds = TimeBounds::valid_for(1_000, 300).unwrap();
    assert_eq!(bounds.min_time, 1_000);
    assert_eq!(bounds.max_time, 1_300);
}

#[test]
fn contains_checks_inclusive_range() {
    let bounds = TimeBounds::new(100, 200).unwrap();
    assert!(bounds.contains(100));
    assert!(bounds.contains(200));
    assert!(bounds.contains(150));
    assert!(!bounds.contains(99));
    assert!(!bounds.contains(201));
}

// Further cases.

fn rejected_reason(err: TxError) -> String {
    match err {
        TxError::Rejected(reason) => reason,
        other => panic!("unexpected error {other:?}"),
    }
}

#[test]
fn amount_shapes() {
    for ok in ["1", "0.0000001", "25.5", "007", "100.1234567", "10.0"] {
        assert!(validate_amount(ok).is_ok(), "{ok} should be accepted");
    }
    for bad in ["", ".", ".5", "5.", "1.2.3", "1,5", " 1", "1e5", "+1", "1.12345678", "١"] {
        assert_eq!(
            rejected_reason(validate_amount(bad).unwrap_err()),
            format!("invalid amount: `{bad}`")
        );
    }
    for zero in ["0", "000", "0.0", "00.0000000"] {
        assert_eq!(
            rejected_reason(validate_amount(zero).unwrap_err()),
            format!("amount must be greater than zero: `{zero}`")
        );
    }
}

#[test]
fn payment_to_contract_destination_is_allowed() {
    assert!(Operation::payment(CONTRACT, Asset::Native, "1").is_ok());
}

#[test]
fn text_memo_limit_counts_bytes() {
    // Fourteen two-byte characters: exactly 28 bytes.
    assert!(Memo::text(&"é".repeat(14)).is_ok());
    let err = Memo::text(&"é".repeat(15)).unwrap_err();
    assert_eq!(err.to_string(), "invalid memo: text memo is 30 bytes, maximum is 28");
}

#[test]
fn time_bounds_error_message() {
    let err = TimeBounds::new(100, 50).unwrap_err();
    assert_eq!(
        err.to_string(),
        "invalid memo: max_time (50) must be after min_time (100)"
    );
    assert!(TimeBounds::valid_for(1_000, 0).is_err());
}

#[test]
fn missing_source_account_is_reported() {
    let err = TransactionBuilder::default()
        .add_operation(payment())
        .build()
        .unwrap_err();
    assert!(matches!(err, TxError::MissingField("source_account")));
    assert_eq!(err.to_string(), "missing required field: source_account");
}

#[test]
fn later_settings_replace_earlier_ones() {
    let tx = TransactionBuilder::new(SOURCE, 7)
        .unwrap()
        .base_fee_stroops(50)
        .base_fee_stroops(300)
        .memo(Memo::Id(1))
        .memo(Memo::Id(2))
        .add_operation(payment())
        .build()
        .unwrap();
    assert_eq!(tx.base_fee_stroops, 300);
    assert_eq!(tx.memo, Memo::Id(2));
    assert_eq!(tx.time_bounds, None);
}

#[test]
fn exactly_one_hundred_operations_is_allowed() {
    let mut builder = TransactionBuilder::new(SOURCE, 1).unwrap();
    for _ in 0..MAX_OPERATIONS {
        builder = builder.add_operation(payment());
    }
    let tx = builder.base_fee_stroops(100).build().unwrap();
    assert_eq!(tx.operations.len(), 100);
    assert_eq!(tx.total_fee_stroops(), 10_000);
}

#[test]
fn fee_check_comes_before_operation_count() {
    let err = TransactionBuilder::new(SOURCE, 1)
        .unwrap()
        .base_fee_stroops(99)
        .build()
        .unwrap_err();
    assert!(matches!(err, TxError::FeeTooLow { provided: 99, minimum: 100 }));
}

#[test]
fn invoke_contract_requires_a_contract_address() {
    let op = Operation::invoke_contract(CONTRACT, "transfer", vec![ScArg::U64(3)]).unwrap();
    assert_eq!(
        op,
        Operation::InvokeContract {
            contract: CONTRACT.to_string(),
            function: "transfer".to_string(),
            args: vec![ScArg::U64(3)],
        }
    );
    let err = Operation::invoke_contract(SOURCE, "transfer", vec![]).unwrap_err();
    assert_eq!(
        err.to_string(),
        format!("invalid Stellar address `{SOURCE}`: expected a contract address, got Account")
    );
    let err = Operation::invoke_contract("nope", "transfer", vec![]).unwrap_err();
    assert!(matches!(err, TxError::InvalidAddress(_)));
}

#[test]
fn remaining_error_messages() {
    assert_eq!(
        TxError::NoOperations.to_string(),
        "transaction must have at least one operation"
    );
    assert_eq!(
        TxError::Rejected("x".to_string()).to_string(),
        "transaction rejected: x"
    );
    assert_eq!(
        TxError::ConfirmationFailed("y".to_string()).to_string(),
        "confirmation failed: y"
    );
    let wrapped = TxError::InvalidAddress(stellarforge::Error::Transport("z".to_string()));
    assert_eq!(wrapped.to_string(), "transport error: z");
}

#[test]
fn build_rejects_oversized_text_memo_built_directly() {
    let err = TransactionBuilder::new(SOURCE, 1)
        .unwrap()
        .memo(Memo::Text("a".repeat(29)))
        .add_operation(payment())
        .build()
        .unwrap_err();
    assert!(matches!(err, TxError::InvalidMemo(_)));
    assert_eq!(
        err.to_string(),
        "invalid memo: text memo is 29 bytes, maximum is 28"
    );
}

#[test]
fn build_rejects_reversed_time_bounds_built_directly() {
    let err = TransactionBuilder::new(SOURCE, 1)
        .unwrap()
        .time_bounds(TimeBounds { min_time: 200, max_time: 100 })
        .add_operation(payment())
        .build()
        .unwrap_err();
    assert_eq!(
        err.to_string(),
        "invalid memo: max_time (100) must be after min_time (200)"
    );
    assert!(TransactionBuilder::new(SOURCE, 1)
        .unwrap()
        .time_bounds(TimeBounds { min_time: 5, max_time: 5 })
        .add_operation(payment())
        .build()
        .is_err());
}

#[test]
fn memo_and_bounds_checks_come_after_operation_count() {
    let err = TransactionBuilder::new(SOURCE, 1)
        .unwrap()
        .memo(Memo::Text("a".repeat(29)))
        .time_bounds(TimeBounds { min_time: 2, max_time: 1 })
        .build()
        .unwrap_err();
    assert!(matches!(err, TxError::NoOperations));
    let err = TransactionBuilder::new(SOURCE, 1)
        .unwrap()
        .memo(Memo::Text("a".repeat(29)))
        .time_bounds(TimeBounds { min_time: 2, max_time: 1 })
        .add_operation(payment())
        .build()
        .unwrap_err();
    assert!(err.to_string().contains("text memo is 29 bytes"));
}
