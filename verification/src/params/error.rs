//! What can go wrong in calibration.

use vstd::prelude::*;

use crate::text::decimal;

verus! {

/// Errors of direction-independent calibration.
#[derive(Debug)]
pub enum DiCalibrateError {
    /// There isn't this much memory \[bytes\].
    InsufficientMemory { need_bytes: u64 },

    SolutionsRead(String),

    SolutionsWrite(String),

    Model(String),

    VisRead(String),

    VisWrite(String),

    Fitsio(String),

    IO(String),
}

/// How an amount of bytes is written for people, as `indicatif::HumanBytes`
/// has it.
pub uninterp spec fn human_bytes(n: u64) -> Seq<char>;

/// `indicatif::HumanBytes` as text: the amount with a binary prefix and two
/// decimal places, or in bytes where there are fewer than 1024.
#[verifier::external_body]
fn human_bytes_text(n: u64) -> (r: String)
    ensures
        r@ == human_bytes(n),
        n < 1024 ==> r@ == decimal(n as int) + " B"@,
{
    indicatif::HumanBytes(n).to_string()
}

/// The message about memory, for an amount as people read it.
pub open spec fn memory_message(amount: Seq<char>) -> Seq<char> {
    "Insufficient memory available to perform calibration; need "@ + amount
        + " of memory.\nYou could try using fewer timesteps and channels."@
}

/// The message about memory, for an amount as people read it.
pub fn insufficient_memory_message(amount: &str) -> (r: String)
    ensures
        r@ == memory_message(amount@),
{
    let mut r: String =
        "Insufficient memory available to perform calibration; need ".to_owned();
    r.append(amount);
    r.append(" of memory.\nYou could try using fewer timesteps and channels.");
    r
}

impl DiCalibrateError {
    /// The message of an error.
    pub open spec fn spec_message(self) -> Seq<char> {
        match self {
            DiCalibrateError::InsufficientMemory { need_bytes } => memory_message(
                human_bytes(need_bytes),
            ),
            DiCalibrateError::SolutionsRead(e) => e@,
            DiCalibrateError::SolutionsWrite(e) => e@,
            DiCalibrateError::Model(e) => e@,
            DiCalibrateError::VisRead(e) => e@,
            DiCalibrateError::VisWrite(e) => e@,
            DiCalibrateError::Fitsio(e) => e@,
            DiCalibrateError::IO(e) => e@,
        }
    }

    /// The message of this error; errors from elsewhere keep their own.
    pub fn message(&self) -> (r: String)
        ensures
            r@ == self.spec_message(),
    {
        match self {
            DiCalibrateError::InsufficientMemory { need_bytes } => insufficient_memory_message(
                human_bytes_text(*need_bytes).as_str(),
            ),
            DiCalibrateError::SolutionsRead(e) => e.clone(),
            DiCalibrateError::SolutionsWrite(e) => e.clone(),
            DiCalibrateError::Model(e) => e.clone(),
            DiCalibrateError::VisRead(e) => e.clone(),
            DiCalibrateError::VisWrite(e) => e.clone(),
            DiCalibrateError::Fitsio(e) => e.clone(),
            DiCalibrateError::IO(e) => e.clone(),
        }
    }
}

} // verus!
