//! Error taxonomy for the relay core.

use vstd::prelude::*;

verus! {

/// Errors raised by this layer. `Network` covers header construction or
/// installation failures against the transport engine; `Parse` covers
/// timestamp-to-epoch conversion and wire decoding failures. Both carry a
/// human-readable message and an optional underlying cause description.
#[derive(Debug, Clone, PartialEq, Eq)]
pub enum RelayError {
    Network { message: String, cause: Option<String> },
    Parse { message: String, cause: Option<String> },
}

} // verus!
