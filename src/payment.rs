//! The payment domain's errors.

use vstd::prelude::*;
use crate::client::Reportable;

verus! {

/// What can go wrong with a payment; each variant carries its message.
pub enum CustomErrorKind {
    InsufficientFunds(String),
    InvalidAmount(String),
}

impl CustomErrorKind {
    /// The variant's name, without its message.
    pub open spec fn kind_name(&self) -> Seq<char> {
        match self {
            CustomErrorKind::InsufficientFunds(_) => "InsufficientFunds"@,
            CustomErrorKind::InvalidAmount(_) => "InvalidAmount"@,
        }
    }

    /// The message that the variant carries.
    pub open spec fn message_of(&self) -> Seq<char> {
        match self {
            CustomErrorKind::InsufficientFunds(m) => m@,
            CustomErrorKind::InvalidAmount(m) => m@,
        }
    }

    /// The error as text: `<variant>: <message>`.
    pub fn to_string(&self) -> (r: String)
        ensures
            r@ == self.kind_name() + ": "@ + self.message_of(),
    {
        let mut r = Reportable::error_type(self);
        r.append(": ");
        r.append(Reportable::message(self).as_str());
        r
    }
}

impl Reportable for CustomErrorKind {
    open spec fn kind_spec(&self) -> Seq<char> {
        self.kind_name()
    }

    open spec fn message_spec(&self) -> Seq<char> {
        self.message_of()
    }

    fn error_type(&self) -> (r: String) {
        match self {
            CustomErrorKind::InsufficientFunds(_) => String::from_str("InsufficientFunds"),
            CustomErrorKind::InvalidAmount(_) => String::from_str("InvalidAmount"),
        }
    }

    fn message(&self) -> (r: String) {
        match self {
            CustomErrorKind::InsufficientFunds(m) => m.clone(),
            CustomErrorKind::InvalidAmount(m) => m.clone(),
        }
    }
}

/// The two errors are of the same variant.
pub open spec fn same_variant(a: CustomErrorKind, b: CustomErrorKind) -> bool {
    (a is InvalidAmount) == (b is InvalidAmount)
}

/// The error type depends on the variant alone: two errors of one variant
/// have the same error type whatever their messages, and errors of different
/// variants have different error types.
pub proof fn lemma_error_type_by_variant(a: CustomErrorKind, b: CustomErrorKind)
    ensures
        (a.kind_spec() == b.kind_spec()) <==> same_variant(a, b),
{
    reveal_strlit("InsufficientFunds");
    reveal_strlit("InvalidAmount");
    if !same_variant(a, b) {
        assert(a.kind_spec().len() != b.kind_spec().len());
    }
}

} // verus!
