//! The first half of a boundary call: from the caller's raw arguments to the one request
//! that is put to the engine.
use crate::firewall::{Diagnostic, Fault, Reply};
use crate::market_type::MarketType;
use crate::text::decode;
use crypto_market_type::MarketType as EngineMarketType;
use vstd::prelude::*;
use vstd::slice::slice_to_vec;
use vstd::utf8::{decode_utf8, encode_utf8, valid_utf8};

verus! {

/// The operations of the engine that the boundary reaches.
#[derive(Copy, Clone, Debug, PartialEq, Eq, Structural)]
pub enum Operation {
    ExtractSymbol,
    ExtractTimestamp,
    GetMsgType,
    ParseTrade,
    ParseL2,
    ParseL2TopK,
    ParseBbo,
    ParseFundingRate,
    ParseCandlestick,
}

/// One call of the engine, in the engine's own types.
#[derive(Copy, Clone, Debug)]
pub struct Request<'a> {
    /// Which operation to invoke.
    pub operation: Operation,
    /// The exchange identifier.
    pub exchange: &'a str,
    /// The market type, for the operations that take one.
    pub market_type: Option<EngineMarketType>,
    /// The raw message.
    pub msg: &'a str,
    /// When the message was received, in milliseconds since the epoch, where the caller
    /// said so.
    pub received_at: Option<i64>,
}

impl<'a> Request<'a> {
    /// The bytes of the exchange identifier, as the caller's buffer held them.
    pub open spec fn raw_exchange(self) -> Seq<u8> {
        encode_utf8(self.exchange@)
    }

    /// The bytes of the message, as the caller's buffer held them.
    pub open spec fn raw_msg(self) -> Seq<u8> {
        encode_utf8(self.msg@)
    }

    /// The market type of the request in the boundary's vocabulary.
    pub open spec fn boundary_market_type(self) -> Option<MarketType> {
        match self.market_type {
            Some(m) => MarketType::of_engine(m),
            None => None,
        }
    }

    /// Whether this is the request that the given arguments ask for: the same operation, the
    /// two texts that the buffers encode, the market type taken over the bridge, and the time
    /// of receipt as given.
    pub open spec fn is_for(
        self,
        operation: Operation,
        exchange: Seq<u8>,
        market_type: Option<MarketType>,
        msg: Seq<u8>,
        received_at: Option<i64>,
    ) -> bool {
        &&& self.operation == operation
        &&& self.exchange@ == decode_utf8(exchange)
        &&& self.market_type == match market_type {
            Some(m) => Some(m.engine()),
            None => None,
        }
        &&& self.msg@ == decode_utf8(msg)
        &&& self.received_at == received_at
    }

    /// Whether `reply` returns `value` and writes the record of `fault` on this request.
    pub open spec fn fails_with<T>(self, reply: Reply<T>, value: T, fault: Fault) -> bool {
        reply.is_logged(
            value,
            self.raw_exchange(),
            self.boundary_market_type(),
            self.raw_msg(),
            fault,
        )
    }

    /// Writes the record of a fault on this request, with the caller's bytes and market type
    /// restored from it.
    pub fn diagnose(&self, fault: Fault) -> (diagnostic: Diagnostic)
        ensures
            diagnostic.records(
                self.raw_exchange(),
                self.boundary_market_type(),
                self.raw_msg(),
                fault,
            ),
    {
        let market_type = match self.market_type {
            Some(m) => MarketType::from_rust(m),
            None => None,
        };
        Diagnostic {
            exchange: slice_to_vec(self.exchange.as_bytes()),
            market_type,
            msg: slice_to_vec(self.msg.as_bytes()),
            fault,
        }
    }
}

/// What the boundary does next: put a request to the engine, or return at once.
pub enum Step<'a, T> {
    /// Invoke the engine with this request, then close the call with what it did.
    Invoke(Request<'a>),
    /// Return this reply; the engine is not invoked.
    Return(Reply<T>),
}

/// The time of receipt that a caller's integer stands for.
pub open spec fn spec_receipt_time(received_at: i64) -> Option<i64> {
    if received_at <= 0 {
        None
    } else {
        Some(received_at)
    }
}

/// Reads the caller's time of receipt: zero and below mean that none is given, a positive
/// value is the time itself, in milliseconds since the epoch.
pub fn receipt_time(received_at: i64) -> (time: Option<i64>)
    ensures
        time == spec_receipt_time(received_at),
        time.is_none() <==> received_at <= 0,
        time matches Some(t) ==> t == received_at && t > 0,
{
    if received_at <= 0 {
        None
    } else {
        Some(received_at)
    }
}

/// Whether `step` is the first step of the call with the given arguments. With both buffers
/// well-formed UTF-8 it invokes the engine, with the request that the arguments ask for.
/// Otherwise it returns `sentinel` and the record of the arguments as they came, and the
/// engine is not invoked.
pub open spec fn begins<T>(
    step: Step<T>,
    sentinel: T,
    operation: Operation,
    exchange: Seq<u8>,
    market_type: Option<MarketType>,
    msg: Seq<u8>,
    received_at: Option<i64>,
) -> bool {
    match step {
        Step::Invoke(request) => {
            &&& valid_utf8(exchange)
            &&& valid_utf8(msg)
            &&& request.is_for(operation, exchange, market_type, msg, received_at)
        },
        Step::Return(reply) => {
            &&& !(valid_utf8(exchange) && valid_utf8(msg))
            &&& reply.is_logged(sentinel, exchange, market_type, msg, Fault::InvalidText)
        },
    }
}

/// Takes the first step of a call: reads both buffers as text and, if both are text, makes
/// the request for the engine.
pub fn begin<'a, T>(
    operation: Operation,
    exchange: &'a [u8],
    market_type: Option<MarketType>,
    msg: &'a [u8],
    received_at: Option<i64>,
    sentinel: T,
) -> (step: Step<'a, T>)
    ensures
        begins(step, sentinel, operation, exchange@, market_type, msg@, received_at),
{
    let exchange_text = decode(exchange);
    let msg_text = decode(msg);
    match (exchange_text, msg_text) {
        (Some(exchange_text), Some(msg_text)) => {
            let engine_market_type = match market_type {
                Some(m) => Some(m.to_rust()),
                None => None,
            };
            Step::Invoke(
                Request {
                    operation,
                    exchange: exchange_text,
                    market_type: engine_market_type,
                    msg: msg_text,
                    received_at,
                },
            )
        },
        _ => {
            let diagnostic = Diagnostic {
                exchange: slice_to_vec(exchange),
                market_type,
                msg: slice_to_vec(msg),
                fault: Fault::InvalidText,
            };
            Step::Return(Reply::logged(sentinel, diagnostic))
        },
    }
}

/// A request restores what the caller passed: the record of a fault on it holds the bytes
/// and the market type of the call that made the request.
pub proof fn lemma_request_restores_arguments(
    request: Request,
    operation: Operation,
    exchange: Seq<u8>,
    market_type: Option<MarketType>,
    msg: Seq<u8>,
    received_at: Option<i64>,
)
    requires
        valid_utf8(exchange),
        valid_utf8(msg),
        request.is_for(operation, exchange, market_type, msg, received_at),
    ensures
        request.raw_exchange() == exchange,
        request.raw_msg() == msg,
        request.boundary_market_type() == market_type,
{
    vstd::utf8::decode_utf8_encode_utf8(exchange);
    vstd::utf8::decode_utf8_encode_utf8(msg);
    if let Some(m) = market_type {
        crate::market_type::lemma_bridge_round_trip(m);
    }
}

} // verus!
