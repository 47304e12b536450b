//! Hardware-identifier retrieval.
//!
//! On Windows the identifier comes from a system management query run
//! by the surrounding program; this module decides what the query's raw
//! output means.  The query is the only operation of the bridge whose
//! failures are surfaced to the caller.

use vstd::prelude::*;
use crate::effects::Platform;
use crate::strutil::trim;
use crate::strutil::trimmed;

verus! {

/// Why no hardware identifier could be produced.
#[derive(Clone, Copy, PartialEq, Eq, Structural, Debug)]
pub enum HardwareIdError {
    /// The system management query could not be run.
    QueryFailed,
    /// The query ran but produced nothing beyond whitespace.
    EmptyOutput,
}

impl HardwareIdError {
    /// A human-readable description, for the UI layer.
    pub fn message(&self) -> (r: String)
        ensures
            *self == HardwareIdError::QueryFailed ==> r@ == "hardware id query failed"@,
            *self == HardwareIdError::EmptyOutput ==> r@ == "hardware id query returned nothing"@,
    {
        match self {
            HardwareIdError::QueryFailed => String::from_str("hardware id query failed"),
            HardwareIdError::EmptyOutput => String::from_str(
                "hardware id query returned nothing",
            ),
        }
    }
}

/// Turns the raw outcome of the hardware-id query into the bridge's
/// answer.  On Windows, `query_output` is the query's standard output,
/// or nothing when the query could not be run: the answer is the
/// trimmed output, an error when the query failed, and an error when
/// the trimmed output is empty.  On every other platform the query is
/// unsupported and a fixed sentinel string is returned.
pub fn get_hardware_id(platform: Platform, query_output: Option<&str>) -> (r: Result<
    String,
    HardwareIdError,
>)
    ensures
        platform != Platform::Windows ==> (r matches Ok(id) && id@ == "unsupported"@),
        platform == Platform::Windows ==> match query_output {
            None => r matches Err(e) && e == HardwareIdError::QueryFailed,
            Some(out) => if trimmed(out@).len() == 0 {
                r matches Err(e) && e == HardwareIdError::EmptyOutput
            } else {
                r matches Ok(id) && id@ == trimmed(out@)
            },
        },
{
    match platform {
        Platform::Windows => match query_output {
            None => Err(HardwareIdError::QueryFailed),
            Some(out) => {
                let t = trim(out);
                if t.as_str().unicode_len() == 0 {
                    Err(HardwareIdError::EmptyOutput)
                } else {
                    Ok(t)
                }
            },
        },
        Platform::MacOs => Ok(String::from_str("unsupported")),
        Platform::Other => Ok(String::from_str("unsupported")),
    }
}

} // verus!
