//! Contract invocation argument values.
//!
//! A deliberately small subset of Soroban's `ScVal` type — enough to describe a contract call
//! (e.g. a SEP-41 `transfer`) before it is encoded to XDR.

use vstd::prelude::*;

verus! {

/// A single contract-call argument.
#[derive(Debug, Clone, PartialEq, Eq)]
pub enum ScArg {
    /// A Stellar address argument (account or contract), passed as its strkey string.
    Address(String),
    /// A 128-bit signed integer, used for token amounts (e.g. SEP-41 `i128` amounts).
    I128(i128),
    /// A 64-bit unsigned integer.
    U64(u64),
    /// A short symbol, such as a function selector argument or enum tag.
    Symbol(String),
}

/// A [`ScArg`] with its text taken as a character sequence.
pub enum ScArgView {
    Address(Seq<char>),
    I128(i128),
    U64(u64),
    Symbol(Seq<char>),
}

impl View for ScArg {
    type V = ScArgView;

    open spec fn view(&self) -> ScArgView {
        match self {
            ScArg::Address(address) => ScArgView::Address(address@),
            ScArg::I128(value) => ScArgView::I128(*value),
            ScArg::U64(value) => ScArgView::U64(*value),
            ScArg::Symbol(symbol) => ScArgView::Symbol(symbol@),
        }
    }
}

/// The views of a sequence of arguments.
pub open spec fn args_view(args: Seq<ScArg>) -> Seq<ScArgView> {
    args.map_values(|arg: ScArg| arg@)
}

} // verus!
