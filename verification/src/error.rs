//! The ways in which planning fails.
use vstd::prelude::*;
use vstd::string::StringExecFns;

verus! {

/// The code with which the transaction builder reports success.
pub const OK: u32 = 0;

/// Why no plan could be made.
#[derive(Clone, Copy, Debug, PartialEq, Eq, Structural)]
pub enum PlanError {
    /// The request names no inscription.
    MissingInscription,
    /// The request names no tagged output.
    MissingTaggedOutput,
    /// An output of the request has no recipient.
    InvalidOutputVariant,
    /// An input of the request has no spending condition.
    InvalidInputVariant,
    /// The transaction builder refused a request; the code is the builder's own.
    Builder(u32),
    /// The estimated fee and the value of the tagged output add up to more
    /// than a transaction output can hold.
    AmountOverflow,
    /// The request asks for no kind of plan.
    MissingCompose,
}

impl PlanError {
    /// The text of [`PlanError::message`].
    pub open spec fn message_spec(self) -> Seq<char> {
        match self {
            PlanError::MissingInscription => "missing inscription"@,
            PlanError::MissingTaggedOutput => "missing tagged output"@,
            PlanError::InvalidOutputVariant => "output without a recipient"@,
            PlanError::InvalidInputVariant => "input without a spending condition"@,
            PlanError::Builder(_) => "the transaction builder reported an error"@,
            PlanError::AmountOverflow => "fee and tagged output exceed the largest amount"@,
            PlanError::MissingCompose => "missing kind of plan"@,
        }
    }

    /// A sentence for people; programs match on the variant.
    pub fn message(&self) -> (text: String)
        ensures
            text@ == self.message_spec(),
    {
        match self {
            PlanError::MissingInscription => String::from_str("missing inscription"),
            PlanError::MissingTaggedOutput => String::from_str("missing tagged output"),
            PlanError::InvalidOutputVariant => String::from_str("output without a recipient"),
            PlanError::InvalidInputVariant => String::from_str(
                "input without a spending condition",
            ),
            PlanError::Builder(_) => String::from_str("the transaction builder reported an error"),
            PlanError::AmountOverflow => String::from_str(
                "fee and tagged output exceed the largest amount",
            ),
            PlanError::MissingCompose => String::from_str("missing kind of plan"),
        }
    }
}

} // verus!
