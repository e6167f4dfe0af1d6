//! What the host boundary shares with the core: the failures it reports and
//! the one decision on series that needs no arithmetic.

use vstd::prelude::*;

verus! {

/// Which input of an operation could not be read.
#[derive(Clone, Copy, Debug, PartialEq, Eq, Structural)]
pub enum Operand {
    /// The only series of an operation that takes one.
    Values,
    /// The first series of a pair.
    Left,
    /// The second series of a pair.
    Right,
}

impl Operand {
    /// What a report on this input begins with.
    pub open spec fn prefix(self) -> Seq<char> {
        match self {
            Operand::Values => "Invalid input: "@,
            Operand::Left => "Invalid left input: "@,
            Operand::Right => "Invalid right input: "@,
        }
    }

    /// What a report on this input begins with.
    pub fn prefix_str(self) -> (s: &'static str)
        ensures
            s@ == self.prefix(),
    {
        match self {
            Operand::Values => "Invalid input: ",
            Operand::Left => "Invalid left input: ",
            Operand::Right => "Invalid right input: ",
        }
    }
}

/// A failure at the host boundary. The numeric core and the classifier never
/// fail; only reading the host's values and writing the result back can.
#[derive(Clone, Debug)]
pub enum BoundaryError {
    /// An input was malformed or of the wrong type; `detail` describes how.
    Decode { operand: Operand, detail: String },
    /// The result could not be written in the host's format.
    Encode { detail: String },
}

impl BoundaryError {
    /// The report shown to the host: a fixed beginning that tells the
    /// failures apart, then the underlying description unchanged.
    pub open spec fn message_text(self) -> Seq<char> {
        match self {
            BoundaryError::Decode { operand, detail } => operand.prefix() + detail@,
            BoundaryError::Encode { detail } => "Serialization error: "@ + detail@,
        }
    }

    /// The report shown to the host.
    pub fn message(&self) -> (text: String)
        ensures
            text@ == self.message_text(),
    {
        match self {
            BoundaryError::Decode { operand, detail } => {
                operand.prefix_str().to_owned().concat(detail.as_str())
            },
            BoundaryError::Encode { detail } => {
                "Serialization error: ".to_owned().concat(detail.as_str())
            },
        }
    }
}

/// Whether two series can be correlated. An empty series, or two series of
/// different lengths, cannot: their correlation is defined as zero.
pub open spec fn comparable(left_len: nat, right_len: nat) -> bool {
    left_len > 0 && left_len == right_len
}

/// Decides whether two series of the given lengths can be correlated.
pub fn series_comparable(left_len: usize, right_len: usize) -> (ok: bool)
    ensures
        ok == comparable(left_len as nat, right_len as nat),
{
    left_len != 0 && right_len != 0 && left_len == right_len
}

} // verus!
