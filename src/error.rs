use vstd::prelude::*;

verus! {

/// Why a call across the boundary failed. Each carries the message that the
/// host receives; a decode failure has a fixed one.
#[derive(Debug)]
pub enum BridgeError {
    Decode,
    Open(String),
    Connect(String),
    Query(String),
    /// A row held fewer values than the result has columns: a query error of
    /// row materialization.
    ShortRow,
}

} // verus!
