//! The texts that a watcher announces: the reason of its ending, the
//! messages of its errors, and the name of its thread.

use vstd::prelude::*;
use vstd::string::*;
use crate::watcher::{Ending, WatcherError};

verus! {

/// The character of one hexadecimal digit, in lower case.
pub open spec fn hex_digit(d: nat) -> char
    recommends
        d < 16,
{
    seq!['0', '1', '2', '3', '4', '5', '6', '7', '8', '9', 'a', 'b', 'c', 'd', 'e', 'f'][d as int]
}

/// The lowest `count` hexadecimal digits of a number, the highest first.
pub open spec fn hex(n: nat, count: nat) -> Seq<char>
    decreases count,
{
    if count == 0 {
        Seq::empty()
    } else {
        hex(n / 16, (count - 1) as nat).push(hex_digit(n % 16))
    }
}

/// The text of the identifier with these 128 bits: its 32 hexadecimal
/// digits in groups of 8, 4, 4, 4 and 12, joined by hyphens.
pub open spec fn hyphenated(id: u128) -> Seq<char> {
    let digits = hex(id as nat, 32);
    digits.subrange(0, 8) + seq!['-'] + digits.subrange(8, 12) + seq!['-'] + digits.subrange(
        12,
        16,
    ) + seq!['-'] + digits.subrange(16, 20) + seq!['-'] + digits.subrange(20, 32)
}

/// A worked example of the text of an identifier.
pub proof fn lemma_hyphenated_example()
    ensures
        hyphenated(0x67e5_5044_10b1_426f_9247_bb68_0e5f_e0c8u128)
            == "67e55044-10b1-426f-9247-bb680e5fe0c8"@,
{
    reveal_with_fuel(hex, 33);
    reveal_strlit("67e55044-10b1-426f-9247-bb680e5fe0c8");
    assert(hyphenated(0x67e5_5044_10b1_426f_9247_bb68_0e5f_e0c8u128)
        =~= "67e55044-10b1-426f-9247-bb680e5fe0c8"@);
}

/// Trusted: `Display` of `uuid::Uuid`, reached through `to_string`, on the
/// identifier that `Uuid::from_u128` makes of `id`. `from_u128` lays the
/// number out with its highest byte first, and `Display` prints the bytes in
/// order as lower-case hexadecimal, hyphenated; the contract claims exactly
/// that text.
#[verifier::external_body]
fn hyphenated_text(id: u128) -> (text: String)
    ensures
        text@ == hyphenated(id),
{
    uuid::Uuid::from_u128(id).to_string()
}

/// The message of an error, for the pipeline with the identifier `id`.
pub open spec fn error_text(error: WatcherError, id: u128) -> Seq<char> {
    match error {
        WatcherError::PipelineGone => "Unable to access the Pipeline from its weak reference"@,
        WatcherError::BusUnavailable => "Unable to access the pipeline bus"@,
        WatcherError::StartSignalClosed => "Failed receiving start signal: Closed"@,
        WatcherError::SetState => "Failed setting Pipeline "@ + hyphenated(id)
            + " to Playing state. Reason: StateChangeError"@,
        WatcherError::KillswitchClosed => "Failed receiving killswitch: Closed"@,
    }
}

/// The reason announced for an outcome: one fixed text for every ending
/// without error, the error's message otherwise.
pub open spec fn reason_text(outcome: Result<Ending, WatcherError>, id: u128) -> Seq<char> {
    match outcome {
        Ok(_) => "Normal ending"@,
        Err(error) => error_text(error, id),
    }
}

/// The reason announced when the runner is destroyed.
pub open spec fn dropped_text() -> Seq<char> {
    "PipelineRunner Dropped."@
}

/// The name of the watcher's thread.
pub open spec fn thread_name_text(id: u128) -> Seq<char> {
    "PipelineRunner-"@ + hyphenated(id)
}

impl WatcherError {
    /// The message of this error, for the pipeline with the identifier `id`.
    pub fn message(&self, id: u128) -> (text: String)
        ensures
            text@ == error_text(*self, id),
    {
        match self {
            WatcherError::PipelineGone => String::from_str(
                "Unable to access the Pipeline from its weak reference",
            ),
            WatcherError::BusUnavailable => String::from_str("Unable to access the pipeline bus"),
            WatcherError::StartSignalClosed => String::from_str(
                "Failed receiving start signal: Closed",
            ),
            WatcherError::SetState => {
                let name = hyphenated_text(id);
                String::from_str("Failed setting Pipeline ").concat(name.as_str()).concat(
                    " to Playing state. Reason: StateChangeError",
                )
            },
            WatcherError::KillswitchClosed => String::from_str(
                "Failed receiving killswitch: Closed",
            ),
        }
    }
}

/// The reason to announce for the outcome of a watcher's loop.
pub fn reason(outcome: Result<Ending, WatcherError>, id: u128) -> (text: String)
    ensures
        text@ == reason_text(outcome, id),
{
    match outcome {
        Ok(_) => String::from_str("Normal ending"),
        Err(error) => error.message(id),
    }
}

/// The reason to announce when the runner is destroyed.
pub fn dropped_reason() -> (text: String)
    ensures
        text@ == dropped_text(),
{
    String::from_str("PipelineRunner Dropped.")
}

/// The name of the watcher's thread for the pipeline with the identifier `id`.
pub fn thread_name(id: u128) -> (text: String)
    ensures
        text@ == thread_name_text(id),
{
    let name = hyphenated_text(id);
    String::from_str("PipelineRunner-").concat(name.as_str())
}

} // verus!
