//! Laws of the library: what its operations do, stated over all inputs in terms of the
//! inputs and the results, and proved from the definitions the contracts use.

use crate::address::{address_outcome, AddressKind};
use crate::amount::{all_digits, amount_outcome, is_ascii_digit, is_decimal_amount, is_zero_amount};
use crate::asset::{all_ascii_alphanumeric, is_ascii_alphanumeric};
use crate::builder::Transaction;
use crate::memo::{text_memo_outcome, MemoView};
use crate::operation::invoke_outcome;
use crate::payment::{memo_for, payment_transaction_outcome};
use crate::strkey::{strkey_decoding, StrkeyClass};
use crate::submit::{body_preview, is_success_status, joined, trim_trailing_slashes, HorizonError};
use crate::text::decimal;
use crate::token::token_transaction_outcome;
use crate::arg::ScArgView;
use crate::asset::{credit_outcome, AssetView};
use crate::builder::BuilderView;
use crate::confirm::{confirmation_decision, PollActionView, PollEventView};
use crate::error::ErrorView;
use crate::memo::{memo_check, Memo};
use crate::operation::payment_outcome;
use crate::submit::SubmitResultView;
use crate::token::transfer_args;
use crate::tx_error::TxErrorView;
use vstd::prelude::*;
use vstd::utf8::*;

verus! {

/// A character that is an ASCII digit or an ASCII letter of either case.
pub open spec fn is_letter_or_digit(c: char) -> bool {
    ('0' <= c && c <= '9') || ('a' <= c && c <= 'z') || ('A' <= c && c <= 'Z')
}

/// A token payment is a `transfer(from, to, amount)` call: its first argument is the
/// address the tokens leave (the source account), its second the address they go to
/// (the destination), its third the amount.
pub proof fn law_token_transfer_goes_from_source_to_destination(
    source: Seq<char>,
    destination: Seq<char>,
    amount: i128,
)
    ensures
        transfer_args(source, destination, amount).len() == 3,
        transfer_args(source, destination, amount)[0] == ScArgView::Address(source),
        transfer_args(source, destination, amount)[1] == ScArgView::Address(destination),
        transfer_args(source, destination, amount)[2] == ScArgView::I128(amount),
{
}

/// While confirming, only a `404` before the deadline leads to polling again; a success
/// status leads to reading the record; every other status, and a `404` after the
/// deadline, ends the confirmation with a `ConfirmationFailed` error.
pub proof fn law_confirmation_only_retries_not_found(
    tx_hash: Seq<char>,
    timeout: Seq<char>,
    status: u16,
    deadline_passed: bool,
)
    ensures
        ({
            let action = confirmation_decision(
                tx_hash,
                timeout,
                PollEventView::Answered { status, deadline_passed },
            );
            &&& (action is WaitAndPoll) <==> (status == 404 && !deadline_passed)
            &&& (action is ReadRecord) <==> (200 <= status && status < 300)
            &&& (status != 404 && !(200 <= status && status < 300)) ==> (action matches
                PollActionView::Finish(Err(TxErrorView::ConfirmationFailed(_))))
            &&& (status == 404 && deadline_passed) ==> (action matches PollActionView::Finish(
                Err(TxErrorView::ConfirmationFailed(_)),
            ))
        }),
{
}

/// A record of a transaction ends the confirmation: with the record's hash and ledger
/// when the transaction succeeded, with a `ConfirmationFailed` error when it failed.
/// Failed requests and unreadable or unparseable bodies end it with an error too.
pub proof fn law_confirmation_finishes_on_records_and_failures(
    tx_hash: Seq<char>,
    timeout: Seq<char>,
    hash: Seq<char>,
    ledger: i64,
    successful: bool,
    text: Seq<char>,
)
    ensures
        successful ==> confirmation_decision(
            tx_hash,
            timeout,
            PollEventView::Record(Ok((hash, ledger, true))),
        ) == PollActionView::Finish(Ok(SubmitResultView { hash, ledger })),
        confirmation_decision(tx_hash, timeout, PollEventView::Record(Ok((hash, ledger, false))))
            matches PollActionView::Finish(Err(TxErrorView::ConfirmationFailed(_))),
        confirmation_decision(tx_hash, timeout, PollEventView::RequestFailed(text)) matches
            PollActionView::Finish(Err(TxErrorView::ConfirmationFailed(_))),
        confirmation_decision(tx_hash, timeout, PollEventView::BodyUnreadable(text)) matches
            PollActionView::Finish(Err(TxErrorView::ConfirmationFailed(_))),
        confirmation_decision(tx_hash, timeout, PollEventView::Record(Err(text))) matches
            PollActionView::Finish(Err(TxErrorView::ConfirmationFailed(_))),
{
}

/// A payment may go to any valid address — an account, a muxed account or a contract:
/// whenever the destination validates and the amount is a positive decimal, the payment
/// operation is accepted. An invalid destination is refused with its validation error.
pub proof fn law_payment_accepts_every_address_kind(destination: Seq<char>, amount: Seq<char>)
    ensures
        (address_outcome(destination) is Ok && amount_outcome(amount) is Ok) ==> payment_outcome(
            destination,
            amount,
        ) is Ok,
        address_outcome(destination) matches Err(e) ==> payment_outcome(destination, amount)
            == Err::<(), TxErrorView>(TxErrorView::InvalidAddress(e)),
        address_outcome(destination) is Ok ==> payment_outcome(destination, amount)
            == amount_outcome(amount),
{
}

/// Asset codes may use ASCII letters of either case and digits: a code of 1 to 12 such
/// characters with an account issuer always makes a credit asset, `ALPHANUM4` up to
/// four characters and `ALPHANUM12` beyond, carrying the code and issuer unchanged.
pub proof fn law_credit_accepts_letters_and_digits(code: Seq<char>, issuer: Seq<char>)
    requires
        1 <= code.len() <= 12,
        forall|i: int| 0 <= i < code.len() ==> #[trigger] is_letter_or_digit(code[i]),
        address_outcome(issuer) == Ok::<AddressKind, ErrorView>(AddressKind::Account),
    ensures
        code.len() <= 4 ==> credit_outcome(code, issuer) == Ok::<AssetView, ErrorView>(
            AssetView::CreditAlphanum4 { code, issuer },
        ),
        code.len() > 4 ==> credit_outcome(code, issuer) == Ok::<AssetView, ErrorView>(
            AssetView::CreditAlphanum12 { code, issuer },
        ),
{
    assert forall|i: int| 0 <= i < code.len() implies '\0' <= #[trigger] code[i] <= '\u{7f}' by {
        assert(is_letter_or_digit(code[i]));
    }
    assert(is_ascii_chars(code));
    is_ascii_chars_encode_utf8(code);
    assert forall|i: int| 0 <= i < code.len() implies #[trigger] crate::asset::is_ascii_alphanumeric(
        code[i],
    ) by {
        assert(is_letter_or_digit(code[i]));
    }
}

/// Only text memos have a constraint: a memo that is absent, an id, a hash or a return
/// hash is always valid.
pub proof fn law_non_text_memos_are_valid(id: u64, hash: [u8; 32])
    ensures
        memo_check(Memo::NoMemo) is Ok,
        memo_check(Memo::Id(id)) is Ok,
        memo_check(Memo::Hash(hash)) is Ok,
        memo_check(Memo::Return(hash)) is Ok,
{
}

/// The builder accepts every set of well-formed fields: a source account and sequence
/// number, a base fee of at least 100 stroops (or none, meaning 100), 1 to 100
/// operations, a memo that is not text or whose text has at most 28 UTF-8 bytes, and no
/// time bounds or bounds that end after they start. Any memo kind other than text is
/// accepted.
pub proof fn law_build_accepts_well_formed_fields(b: BuilderView)
    requires
        b.source_account is Some,
        b.sequence_number is Some,
        b.base_fee_stroops matches Some(fee) ==> fee >= 100,
        1 <= b.operations.len() <= 100,
        b.memo matches Memo::Text(t) ==> encode_utf8(t@).len() <= 28,
        b.time_bounds matches Some(bounds) ==> bounds.min_time < bounds.max_time,
    ensures
        b.build_outcome() is Ok,
        b.base_fee_stroops is None ==> b.effective_fee() == 100,
        b.base_fee_stroops matches Some(fee) ==> b.effective_fee() == fee,
{
}

/// The builder refuses each malformed field: a missing source account or sequence
/// number, a base fee under 100 stroops, no operations or more than 100, a text memo of
/// more than 28 UTF-8 bytes, and time bounds that do not end after they start.
pub proof fn law_build_refuses_malformed_fields(b: BuilderView)
    ensures
        b.source_account is None ==> b.build_outcome() is Err,
        b.sequence_number is None ==> b.build_outcome() is Err,
        (b.base_fee_stroops matches Some(fee) && fee < 100) ==> b.build_outcome() is Err,
        b.operations.len() == 0 ==> b.build_outcome() is Err,
        b.operations.len() > 100 ==> b.build_outcome() is Err,
        (b.memo matches Memo::Text(t) && encode_utf8(t@).len() > 28) ==> b.build_outcome() is Err,
        (b.time_bounds matches Some(bounds) && bounds.min_time >= bounds.max_time)
            ==> b.build_outcome() is Err,
{
}

/// Whole amounts: a nonempty string of ASCII digits is a valid amount unless every digit
/// is `0`, in which case it is refused for being zero.
pub proof fn law_amount_whole_numbers(s: Seq<char>)
    requires
        s.len() > 0,
        forall|i: int| 0 <= i < s.len() ==> '0' <= #[trigger] s[i] && s[i] <= '9',
    ensures
        (exists|i: int| 0 <= i < s.len() && #[trigger] s[i] != '0') ==> amount_outcome(s) is Ok,
        (forall|i: int| 0 <= i < s.len() ==> #[trigger] s[i] == '0') ==> amount_outcome(s)
            == Err::<(), TxErrorView>(
            TxErrorView::Rejected("amount must be greater than zero: `"@ + s + "`"@),
        ),
{
    assert forall|i: int| 0 <= i < s.len() implies #[trigger] is_ascii_digit(s[i]) by {}
    assert(all_digits(s));
    assert(is_decimal_amount(s));
    if exists|i: int| 0 <= i < s.len() && #[trigger] s[i] != '0' {
        let i = choose|i: int| 0 <= i < s.len() && #[trigger] s[i] != '0';
        assert(!(s[i] == '0' || s[i] == '.'));
        assert(!is_zero_amount(s));
    }
}

/// Amounts with a fraction: digits, a `.`, and one to seven digits form a valid amount
/// unless all of its digits are `0`; an empty fraction or one of more than seven digits
/// is refused as an invalid amount.
pub proof fn law_amount_fractions(w: Seq<char>, f: Seq<char>)
    requires
        w.len() > 0,
        forall|i: int| 0 <= i < w.len() ==> '0' <= #[trigger] w[i] && w[i] <= '9',
        forall|i: int| 0 <= i < f.len() ==> '0' <= #[trigger] f[i] && f[i] <= '9',
    ensures
        (1 <= f.len() <= 7 && ((exists|i: int| 0 <= i < w.len() && #[trigger] w[i] != '0')
            || (exists|i: int| 0 <= i < f.len() && #[trigger] f[i] != '0'))) ==> amount_outcome(
            w + seq!['.'] + f,
        ) is Ok,
        (f.len() == 0 || f.len() > 7) ==> amount_outcome(w + seq!['.'] + f) == Err::<
            (),
            TxErrorView,
        >(TxErrorView::Rejected("invalid amount: `"@ + (w + seq!['.'] + f) + "`"@)),
{
    let s = w + seq!['.'] + f;
    let k = w.len() as int;
    assert(s[k] == '.');
    assert(s.take(k) =~= w);
    assert(s.skip(k + 1) =~= f);
    assert forall|i: int| 0 <= i < w.len() implies #[trigger] is_ascii_digit(w[i]) by {}
    assert forall|i: int| 0 <= i < f.len() implies #[trigger] is_ascii_digit(f[i]) by {}
    assert(all_digits(w));
    assert(all_digits(f));
    if 1 <= f.len() <= 7 {
        assert(is_decimal_amount(s));
        if exists|i: int| 0 <= i < w.len() && #[trigger] w[i] != '0' {
            let i = choose|i: int| 0 <= i < w.len() && #[trigger] w[i] != '0';
            assert(s[i] == w[i]);
            assert(!(s[i] == '0' || s[i] == '.'));
        }
        if exists|i: int| 0 <= i < f.len() && #[trigger] f[i] != '0' {
            let i = choose|i: int| 0 <= i < f.len() && #[trigger] f[i] != '0';
            assert(s[k + 1 + i] == f[i]);
            assert(!(s[k + 1 + i] == '0' || s[k + 1 + i] == '.'));
        }
    } else {
        if is_decimal_amount(s) {
            if s.len() > 0 && all_digits(s) {
                assert(is_ascii_digit(s[k]));
            } else {
                let k2 = choose|k2: int|
                    0 < k2 < s.len() && #[trigger] s[k2] == '.' && all_digits(s.take(k2))
                        && all_digits(s.skip(k2 + 1)) && 1 <= s.len() - k2 - 1 <= 7;
                if k2 < k {
                    assert(s[k2] == w[k2]);
                    assert(is_ascii_digit(w[k2]));
                } else if k2 > k {
                    assert(is_ascii_digit(s.take(k2)[k]));
                }
            }
        }
    }
}

/// An amount must start with a digit: a sign, a point or any other character in first
/// place makes it an invalid amount.
pub proof fn law_amount_starts_with_a_digit(s: Seq<char>)
    requires
        s.len() > 0,
        !('0' <= s[0] && s[0] <= '9'),
    ensures
        amount_outcome(s) == Err::<(), TxErrorView>(
            TxErrorView::Rejected("invalid amount: `"@ + s + "`"@),
        ),
{
    if is_decimal_amount(s) {
        if s.len() > 0 && all_digits(s) {
            assert(is_ascii_digit(s[0]));
        } else {
            let k2 = choose|k2: int|
                0 < k2 < s.len() && #[trigger] s[k2] == '.' && all_digits(s.take(k2))
                    && all_digits(s.skip(k2 + 1)) && 1 <= s.len() - k2 - 1 <= 7;
            assert(is_ascii_digit(s.take(k2)[0]));
        }
    }
}

/// A text memo holds at most 28 bytes of UTF-8: up to that size it is accepted and keeps
/// its text, beyond it it is refused as an invalid memo. For ASCII text a byte is a
/// character, so up to 28 characters are accepted.
pub proof fn law_text_memo_holds_28_bytes(v: Seq<char>, t: String)
    ensures
        encode_utf8(v).len() <= 28 ==> text_memo_outcome(v) == Ok::<MemoView, TxErrorView>(
            MemoView::Text(v),
        ),
        encode_utf8(v).len() > 28 ==> text_memo_outcome(v) matches Err(
            TxErrorView::InvalidMemo(_),
        ),
        (is_ascii_chars(v) && v.len() <= 28) ==> text_memo_outcome(v) is Ok,
        (is_ascii_chars(v) && v.len() > 28) ==> text_memo_outcome(v) is Err,
        memo_check(Memo::Text(t)) is Ok <==> encode_utf8(t@).len() <= 28,
{
    if is_ascii_chars(v) {
        is_ascii_chars_encode_utf8(v);
    }
}

/// Asset codes are refused when empty, longer than 12 bytes, or holding a character that
/// is not an ASCII letter or digit; an issuer must be an account, so a muxed account or a
/// contract as issuer is refused, and an invalid issuer is refused with its own error.
pub proof fn law_credit_refusals(code: Seq<char>, issuer: Seq<char>)
    ensures
        code.len() == 0 ==> credit_outcome(code, issuer) matches Err(
            ErrorView::InvalidAddress { .. },
        ),
        encode_utf8(code).len() > 12 ==> credit_outcome(code, issuer) matches Err(
            ErrorView::InvalidAddress { .. },
        ),
        (exists|i: int| 0 <= i < code.len() && !is_letter_or_digit(#[trigger] code[i]))
            ==> credit_outcome(code, issuer) matches Err(ErrorView::InvalidAddress { .. }),
        ((1 <= code.len() <= 12 && forall|i: int|
            0 <= i < code.len() ==> #[trigger] is_letter_or_digit(code[i])) && (address_outcome(
            issuer,
        ) == Ok::<AddressKind, ErrorView>(AddressKind::MuxedAccount) || address_outcome(issuer)
            == Ok::<AddressKind, ErrorView>(AddressKind::Contract))) ==> (credit_outcome(
            code,
            issuer,
        ) matches Err(ErrorView::InvalidAddress { address, .. }) && address == issuer),
        ((1 <= code.len() <= 12 && forall|i: int|
            0 <= i < code.len() ==> #[trigger] is_letter_or_digit(code[i]))
            && address_outcome(issuer) is Err) ==> credit_outcome(code, issuer)
            == Err::<AssetView, ErrorView>(address_outcome(issuer)->Err_0),
{
    if exists|i: int| 0 <= i < code.len() && !is_letter_or_digit(#[trigger] code[i]) {
        let i = choose|i: int| 0 <= i < code.len() && !is_letter_or_digit(#[trigger] code[i]);
        assert(!is_ascii_alphanumeric(code[i]));
        assert(!all_ascii_alphanumeric(code));
    }
    if 1 <= code.len() <= 12 && forall|i: int|
        0 <= i < code.len() ==> #[trigger] is_letter_or_digit(code[i]) {
        assert forall|i: int| 0 <= i < code.len() implies '\0' <= #[trigger] code[i] <= '\u{7f}' by {
            assert(is_letter_or_digit(code[i]));
        }
        assert(is_ascii_chars(code));
        is_ascii_chars_encode_utf8(code);
        assert forall|i: int| 0 <= i < code.len() implies #[trigger] is_ascii_alphanumeric(code[i]) by {
            assert(is_letter_or_digit(code[i]));
        }
    }
}

/// Address validation follows the strkey's kind: a public key (`G…`) is an account, a
/// muxed account (`M…`) a muxed account, a contract (`C…`) a contract; any other kind is
/// refused, and a text that does not decode is refused with the decoder's message.
pub proof fn law_address_kinds(address: Seq<char>)
    ensures
        strkey_decoding(address) == Ok::<StrkeyClass, Seq<char>>(StrkeyClass::PublicKeyEd25519)
            ==> address_outcome(address) == Ok::<AddressKind, ErrorView>(AddressKind::Account),
        strkey_decoding(address) == Ok::<StrkeyClass, Seq<char>>(
            StrkeyClass::MuxedAccountEd25519,
        ) ==> address_outcome(address) == Ok::<AddressKind, ErrorView>(AddressKind::MuxedAccount),
        strkey_decoding(address) == Ok::<StrkeyClass, Seq<char>>(StrkeyClass::Contract)
            ==> address_outcome(address) == Ok::<AddressKind, ErrorView>(AddressKind::Contract),
        strkey_decoding(address) == Ok::<StrkeyClass, Seq<char>>(StrkeyClass::Other)
            ==> (address_outcome(address) matches Err(
            ErrorView::InvalidAddress { address: a, .. },
        ) && a == address),
        strkey_decoding(address) matches Err(message) ==> address_outcome(address) == Err::<
            AddressKind,
            ErrorView,
        >(ErrorView::InvalidAddress { address, reason: message }),
{
}

/// A contract call needs a contract address: a `C…` address is accepted, an account or
/// muxed account is refused, and an invalid address is refused with its own error.
pub proof fn law_invoke_needs_a_contract(contract: Seq<char>)
    ensures
        address_outcome(contract) == Ok::<AddressKind, ErrorView>(AddressKind::Contract)
            ==> invoke_outcome(contract) is Ok,
        address_outcome(contract) == Ok::<AddressKind, ErrorView>(AddressKind::Account)
            ==> invoke_outcome(contract) matches Err(TxErrorView::InvalidAddress(_)),
        address_outcome(contract) == Ok::<AddressKind, ErrorView>(AddressKind::MuxedAccount)
            ==> invoke_outcome(contract) matches Err(TxErrorView::InvalidAddress(_)),
        address_outcome(contract) matches Err(e) ==> invoke_outcome(contract) == Err::<
            (),
            TxErrorView,
        >(TxErrorView::InvalidAddress(e)),
{
}

/// A built transaction carries the builder's fields unchanged: source account, sequence
/// number, memo, time bounds and operations, and the base fee that was set, or 100
/// stroops when none was.
pub proof fn law_build_carries_fields(b: BuilderView, tx: Transaction)
    requires
        b.builds(tx),
    ensures
        b.source_account == Some(tx.source_account@),
        b.sequence_number == Some(tx.sequence_number),
        tx.memo == b.memo,
        tx.time_bounds == b.time_bounds,
        tx.operations@ == b.operations,
        b.base_fee_stroops matches Some(fee) ==> tx.base_fee_stroops == fee,
        b.base_fee_stroops is None ==> tx.base_fee_stroops == 100,
{
}

/// A payment transaction is built whenever its parts are valid: a valid destination, a
/// positive decimal amount, a valid source account, a memo of at most 28 bytes, and a base
/// fee of at least 100 stroops; a lower fee alone is refused with `FeeTooLow`. Its memo is
/// the request's text, or none when the request has none.
pub proof fn law_payment_transaction(
    source: Seq<char>,
    base_fee_stroops: u32,
    destination: Seq<char>,
    amount: Seq<char>,
    memo: Option<Seq<char>>,
    text: Seq<char>,
)
    ensures
        (address_outcome(destination) is Ok && amount_outcome(amount) is Ok && address_outcome(
            source,
        ) is Ok && (memo matches Some(m) ==> encode_utf8(m).len() <= 28)) ==> {
            &&& base_fee_stroops >= 100 ==> payment_transaction_outcome(
                source,
                base_fee_stroops,
                destination,
                amount,
                memo,
            ) is Ok
            &&& base_fee_stroops < 100 ==> payment_transaction_outcome(
                source,
                base_fee_stroops,
                destination,
                amount,
                memo,
            ) == Err::<(), TxErrorView>(
                TxErrorView::FeeTooLow { provided: base_fee_stroops, minimum: 100 },
            )
        },
        memo_for(None) == MemoView::NoMemo,
        memo_for(Some(text)) == MemoView::Text(text),
{
}

/// A token payment transaction is built whenever the source account is valid, the amount
/// is positive, the token is a contract, the memo has at most 28 bytes and the base fee is
/// at least 100 stroops. An amount of zero or less is refused, and so is a token address
/// that is an account or a muxed account.
pub proof fn law_token_transaction(
    source: Seq<char>,
    base_fee_stroops: u32,
    contract: Seq<char>,
    amount: i128,
    memo: Option<Seq<char>>,
)
    ensures
        (address_outcome(source) is Ok && amount > 0 && address_outcome(contract) == Ok::<
            AddressKind,
            ErrorView,
        >(AddressKind::Contract) && (memo matches Some(m) ==> encode_utf8(m).len() <= 28)
            && base_fee_stroops >= 100) ==> token_transaction_outcome(
            source,
            base_fee_stroops,
            contract,
            amount,
            memo,
        ) is Ok,
        (address_outcome(source) is Ok && amount <= 0) ==> token_transaction_outcome(
            source,
            base_fee_stroops,
            contract,
            amount,
            memo,
        ) matches Err(TxErrorView::Rejected(_)),
        (address_outcome(source) is Ok && amount > 0 && (address_outcome(contract) == Ok::<
            AddressKind,
            ErrorView,
        >(AddressKind::Account) || address_outcome(contract) == Ok::<AddressKind, ErrorView>(
            AddressKind::MuxedAccount,
        ))) ==> token_transaction_outcome(source, base_fee_stroops, contract, amount, memo) matches
            Err(TxErrorView::InvalidAddress(_)),
        address_outcome(source) is Err ==> token_transaction_outcome(
            source,
            base_fee_stroops,
            contract,
            amount,
            memo,
        ) matches Err(TxErrorView::InvalidAddress(_)),
{
}

/// Horizon's error summary is its title (or `unknown error`) when there are no result
/// codes; the operation codes are joined by `, `; a success status is one from 200 to 299;
/// a body preview is the body itself up to 200 characters and its first 200 otherwise.
pub proof fn law_horizon_answers(
    e: HorizonError,
    a: Seq<char>,
    b: Seq<char>,
    c: Seq<char>,
    raw: Seq<char>,
    status: u16,
)
    ensures
        e.extras is None ==> e.summary() == match e.title {
            Some(t) => t@,
            None => "unknown error"@,
        },
        joined(seq![a], ", "@) == a,
        joined(seq![a, b, c], ", "@) == a + ", "@ + b + ", "@ + c,
        is_success_status(status) <==> (200 <= status && status <= 299),
        raw.len() <= 200 ==> body_preview(raw) == raw,
        raw.len() > 200 ==> body_preview(raw).len() == 200 && body_preview(raw) == raw.subrange(
            0,
            200,
        ),
{
    let sep = ", "@;
    assert(seq![a, b, c].drop_last() =~= seq![a, b]);
    assert(seq![a, b].drop_last() =~= seq![a]);
    assert(joined(seq![a], sep) == a);
    assert(joined(seq![a, b], sep) == a + sep + b);
    assert(joined(seq![a, b, c], sep) == joined(seq![a, b], sep) + sep + c);
}

/// Removing trailing slashes leaves a prefix of the URL that does not end in `/`, and
/// everything removed is `/`.
pub proof fn law_trim_trailing_slashes(s: Seq<char>)
    ensures
        trim_trailing_slashes(s).len() <= s.len(),
        trim_trailing_slashes(s) == s.take(trim_trailing_slashes(s).len() as int),
        trim_trailing_slashes(s).len() > 0 ==> trim_trailing_slashes(s).last() != '/',
        forall|i: int|
            trim_trailing_slashes(s).len() <= i < s.len() ==> #[trigger] s[i] == '/',
    decreases s.len(),
{
    if s.len() > 0 && s.last() == '/' {
        law_trim_trailing_slashes(s.drop_last());
        let t = trim_trailing_slashes(s.drop_last());
        assert(s.drop_last().take(t.len() as int) =~= s.take(t.len() as int));
        assert forall|i: int| t.len() <= i < s.len() implies #[trigger] s[i] == '/' by {
            if i < s.len() - 1 {
                assert(s[i] == s.drop_last()[i]);
            }
        }
    } else {
        assert(s.take(s.len() as int) =~= s);
    }
}

/// The number a string of decimal digits denotes.
pub open spec fn numeral_value(s: Seq<char>) -> int
    decreases s.len(),
{
    if s.len() == 0 {
        0
    } else {
        numeral_value(s.drop_last()) * 10 + (s.last() as int - '0' as int)
    }
}

proof fn lemma_digit_value(d: nat)
    requires
        d < 10,
    ensures
        crate::text::digit_char(d) as int - '0' as int == d,
        '0' <= crate::text::digit_char(d) <= '9',
{
}

/// Numbers in messages are written in base ten: the rendering of `n` is made of ASCII
/// digits, has no leading zero (but for `0` itself), and denotes `n`.
pub proof fn law_decimal_is_base_ten(n: nat)
    ensures
        decimal(n).len() > 0,
        forall|i: int| 0 <= i < decimal(n).len() ==> '0' <= #[trigger] decimal(n)[i] <= '9',
        decimal(n)[0] == '0' ==> n == 0,
        numeral_value(decimal(n)) == n,
    decreases n,
{
    lemma_digit_value(n % 10);
    if n < 10 {
        assert(decimal(n).drop_last() =~= Seq::<char>::empty());
        assert(numeral_value(Seq::<char>::empty()) == 0);
        assert(numeral_value(decimal(n)) == n);
    } else {
        law_decimal_is_base_ten(n / 10);
        let d = decimal(n / 10);
        assert(decimal(n) == d + seq![crate::text::digit_char(n % 10)]);
        assert(decimal(n).drop_last() =~= d);
        assert(decimal(n)[0] == d[0]);
        assert(numeral_value(decimal(n)) == numeral_value(d) * 10 + (n % 10));
        assert((n / 10) * 10 + n % 10 == n);
    }
}

} // verus!
