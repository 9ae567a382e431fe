//! What the boundary makes of a failure: a fixed return value, and a record for the error
//! stream where the failure was not one that the engine reported.
use crate::market_type::MarketType;
use vstd::prelude::*;

verus! {

/// Why a call failed without the engine saying so.
#[derive(Copy, Clone, Debug, PartialEq, Eq, Structural)]
pub enum Fault {
    /// An input buffer is not well-formed UTF-8.
    InvalidText,
    /// The engine gave up in the middle of its work.
    Engine,
    /// The engine's result could not be written as JSON.
    Encoding,
    /// The JSON text holds a NUL and cannot be closed by one.
    InteriorNul,
}

/// How one call into the engine ended.
pub enum EngineOutcome<T> {
    /// The engine returned a result.
    Completed(T),
    /// The engine reported that it has no result for this input.
    Declined,
    /// The engine did not return: its failure was caught on the way out.
    Faulted,
}

/// The record of a fault, with what the caller had passed: one line of the error stream.
#[derive(Debug)]
pub struct Diagnostic {
    /// The exchange identifier, as the caller's buffer held it.
    pub exchange: Vec<u8>,
    /// The market type of the call, where the call has one that the boundary can name.
    pub market_type: Option<MarketType>,
    /// The raw message, as the caller's buffer held it.
    pub msg: Vec<u8>,
    /// What went wrong.
    pub fault: Fault,
}

impl Diagnostic {
    /// Whether this is the record of the given fault on the given inputs.
    pub open spec fn records(
        self,
        exchange: Seq<u8>,
        market_type: Option<MarketType>,
        msg: Seq<u8>,
        fault: Fault,
    ) -> bool {
        &&& self.exchange@ == exchange
        &&& self.market_type == market_type
        &&& self.msg@ == msg
        &&& self.fault == fault
    }
}

/// What a boundary call hands back: the value for the caller and, after a fault, the one
/// record to write to the error stream.
pub struct Reply<T> {
    /// The value returned across the boundary.
    pub value: T,
    /// The record of the fault, if there was one.
    pub diagnostic: Option<Diagnostic>,
}

impl<T> Reply<T> {
    /// A reply that returns `value` and writes nothing.
    pub open spec fn is_silent(self, value: T) -> bool {
        self.value == value && self.diagnostic.is_none()
    }

    /// A reply that returns `value` and writes the record of `fault` on the given inputs.
    pub open spec fn is_logged(
        self,
        value: T,
        exchange: Seq<u8>,
        market_type: Option<MarketType>,
        msg: Seq<u8>,
        fault: Fault,
    ) -> bool {
        &&& self.value == value
        &&& self.diagnostic matches Some(d) && d.records(exchange, market_type, msg, fault)
    }

    /// Returns `value` and writes nothing.
    pub fn silent(value: T) -> (reply: Reply<T>)
        ensures
            reply.is_silent(value),
    {
        Reply { value, diagnostic: None }
    }

    /// Returns `value` and writes the given record.
    pub fn logged(value: T, diagnostic: Diagnostic) -> (reply: Reply<T>)
        ensures
            reply.value == value,
            reply.diagnostic == Some(diagnostic),
    {
        Reply { value, diagnostic: Some(diagnostic) }
    }
}

} // verus!
