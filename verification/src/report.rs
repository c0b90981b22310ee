//! Normalizes a failure into a log entry and a caller-visible message.

use vstd::prelude::*;
use vstd::string::StringExecFns;

verus! {

/// Normalizes a failure: the first component is the log entry (the
/// failure-class prefix, a separator, and the underlying message), the
/// second is the plain-text message returned to the caller, which carries
/// the underlying message unchanged.
pub fn error(prefix: &str, message: String) -> (r: (String, String))
    ensures
        r.0@ == prefix@ + ": "@ + message@,
        r.1@ == message@,
{
    let mut line = prefix.to_owned();
    line.append(": ");
    line.append(message.as_str());
    (line, message)
}

} // verus!
