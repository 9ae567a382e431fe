//! The boundary functions. Each call has two halves around one invocation of the engine:
//! the function named after the operation reads the caller's arguments and says what to ask
//! of the engine; a `*_reply` function takes what the engine did and says what to return and
//! what to write to the error stream. The invocation itself, and the guard that catches an
//! engine that gives up, belong to whoever drives the call.
use crate::encode::{json_of_text, json_string};
use crate::firewall::{EngineOutcome, Fault, Reply};
use crate::market_type::MarketType;
use crate::request::{begin, begins, receipt_time, spec_receipt_time, Operation, Request, Step};
use crate::text::{nul_free, OutputBuffer};
use crypto_msg_type::MessageType;
use vstd::prelude::*;
use vstd::utf8::{encode_utf8, valid_utf8};

verus! {

/// The engine's message-type enumeration, read variant by variant as that crate declares it.
#[verifier::external_type_specification]
pub struct ExMessageType(MessageType);

/// Returned by `extract_timestamp` for a message that carries no timestamp.
pub const NO_TIMESTAMP: i64 = 0;

/// Returned by `extract_timestamp` when the engine reports that it cannot read the message.
pub const TIMESTAMP_DECLINED: i64 = -1;

/// Returned by `extract_timestamp` after a fault.
pub const TIMESTAMP_FAULT: i64 = 0;

/// Begins the extraction of the trading symbol of a message. With both buffers well-formed
/// UTF-8 the engine is to be invoked, and `symbol_reply` closes the call; otherwise no buffer
/// is returned, with the record of the refusal.
pub fn extract_symbol<'a>(
    exchange: &'a [u8],
    market_type: MarketType,
    msg: &'a [u8],
) -> (step: Step<'a, Option<OutputBuffer>>)
    ensures
        begins(
            step,
            None,
            Operation::ExtractSymbol,
            exchange@,
            Some(market_type),
            msg@,
            None,
        ),
{
    begin(Operation::ExtractSymbol, exchange, Some(market_type), msg, None, None)
}

/// Begins the extraction of the timestamp of a message. With both buffers well-formed UTF-8
/// the engine is to be invoked, and `timestamp_reply` closes the call; otherwise
/// `TIMESTAMP_FAULT` is returned, with the record of the refusal.
pub fn extract_timestamp<'a>(
    exchange: &'a [u8],
    market_type: MarketType,
    msg: &'a [u8],
) -> (step: Step<'a, i64>)
    ensures
        begins(
            step,
            TIMESTAMP_FAULT,
            Operation::ExtractTimestamp,
            exchange@,
            Some(market_type),
            msg@,
            None,
        ),
{
    begin(Operation::ExtractTimestamp, exchange, Some(market_type), msg, None, TIMESTAMP_FAULT)
}

/// Begins the classification of a message; the call has no market type. With both buffers
/// well-formed UTF-8 the engine is to be invoked, and `msg_type_reply` closes the call;
/// otherwise `Other` is returned, with the record of the refusal.
pub fn get_msg_type<'a>(exchange: &'a [u8], msg: &'a [u8]) -> (step: Step<'a, MessageType>)
    ensures
        begins(step, MessageType::Other, Operation::GetMsgType, exchange@, None, msg@, None),
{
    begin(Operation::GetMsgType, exchange, None, msg, None, MessageType::Other)
}

/// Begins the parsing of a trade message. With both buffers well-formed UTF-8 the engine is
/// to be invoked, and `text_reply` closes the call with the trades as JSON; otherwise no
/// buffer is returned, with the record of the refusal.
pub fn parse_trade<'a>(
    exchange: &'a [u8],
    market_type: MarketType,
    msg: &'a [u8],
) -> (step: Step<'a, Option<OutputBuffer>>)
    ensures
        begins(step, None, Operation::ParseTrade, exchange@, Some(market_type), msg@, None),
{
    begin(Operation::ParseTrade, exchange, Some(market_type), msg, None, None)
}

/// Begins the parsing of a level-2 order book update, received at `received_at` if that is
/// positive. With both buffers well-formed UTF-8 the engine is to be invoked, and
/// `text_reply` closes the call with the order books as JSON; otherwise no buffer is
/// returned, with the record of the refusal.
pub fn parse_l2<'a>(
    exchange: &'a [u8],
    market_type: MarketType,
    msg: &'a [u8],
    received_at: i64,
) -> (step: Step<'a, Option<OutputBuffer>>)
    ensures
        begins(
            step,
            None,
            Operation::ParseL2,
            exchange@,
            Some(market_type),
            msg@,
            spec_receipt_time(received_at),
        ),
{
    begin(Operation::ParseL2, exchange, Some(market_type), msg, receipt_time(received_at), None)
}

/// Begins the parsing of a level-2 order book snapshot of the best levels, received at
/// `received_at` if that is positive. With both buffers well-formed UTF-8 the engine is to be
/// invoked, and `text_reply` closes the call with the order books as JSON; otherwise no
/// buffer is returned, with the record of the refusal.
pub fn parse_l2_topk<'a>(
    exchange: &'a [u8],
    market_type: MarketType,
    msg: &'a [u8],
    received_at: i64,
) -> (step: Step<'a, Option<OutputBuffer>>)
    ensures
        begins(
            step,
            None,
            Operation::ParseL2TopK,
            exchange@,
            Some(market_type),
            msg@,
            spec_receipt_time(received_at),
        ),
{
    begin(
        Operation::ParseL2TopK,
        exchange,
        Some(market_type),
        msg,
        receipt_time(received_at),
        None,
    )
}

/// Begins the parsing of a best-bid-and-offer message, received at `received_at` if that is
/// positive. With both buffers well-formed UTF-8 the engine is to be invoked, and
/// `text_reply` closes the call with the records as JSON; otherwise no buffer is returned,
/// with the record of the refusal.
pub fn parse_bbo<'a>(
    exchange: &'a [u8],
    market_type: MarketType,
    msg: &'a [u8],
    received_at: i64,
) -> (step: Step<'a, Option<OutputBuffer>>)
    ensures
        begins(
            step,
            None,
            Operation::ParseBbo,
            exchange@,
            Some(market_type),
            msg@,
            spec_receipt_time(received_at),
        ),
{
    begin(Operation::ParseBbo, exchange, Some(market_type), msg, receipt_time(received_at), None)
}

/// Begins the parsing of a funding-rate message, received at `received_at` if that is
/// positive. With both buffers well-formed UTF-8 the engine is to be invoked, and
/// `text_reply` closes the call with the rates as JSON; otherwise no buffer is returned,
/// with the record of the refusal.
pub fn parse_funding_rate<'a>(
    exchange: &'a [u8],
    market_type: MarketType,
    msg: &'a [u8],
    received_at: i64,
) -> (step: Step<'a, Option<OutputBuffer>>)
    ensures
        begins(
            step,
            None,
            Operation::ParseFundingRate,
            exchange@,
            Some(market_type),
            msg@,
            spec_receipt_time(received_at),
        ),
{
    begin(
        Operation::ParseFundingRate,
        exchange,
        Some(market_type),
        msg,
        receipt_time(received_at),
        None,
    )
}

/// Begins the parsing of a candlestick message, received at `received_at` if that is
/// positive. With both buffers well-formed UTF-8 the engine is to be invoked, and
/// `text_reply` closes the call with the candlesticks as JSON; otherwise no buffer is
/// returned, with the record of the refusal.
pub fn parse_candlestick<'a>(
    exchange: &'a [u8],
    market_type: MarketType,
    msg: &'a [u8],
    received_at: i64,
) -> (step: Step<'a, Option<OutputBuffer>>)
    ensures
        begins(
            step,
            None,
            Operation::ParseCandlestick,
            exchange@,
            Some(market_type),
            msg@,
            spec_receipt_time(received_at),
        ),
{
    begin(
        Operation::ParseCandlestick,
        exchange,
        Some(market_type),
        msg,
        receipt_time(received_at),
        None,
    )
}

/// The outcome of a call whose result is text, with the text as its characters.
pub open spec fn text_outcome(outcome: EngineOutcome<String>) -> EngineOutcome<Seq<char>> {
    match outcome {
        EngineOutcome::Completed(text) => EngineOutcome::Completed(text@),
        EngineOutcome::Declined => EngineOutcome::Declined,
        EngineOutcome::Faulted => EngineOutcome::Faulted,
    }
}

/// Whether `reply` closes a call on `request` whose result, JSON text, came out as `outcome`.
/// A text is handed over in a buffer of its bytes and a closing NUL, and nothing is written.
/// After every failure no buffer is handed over; a failure that the engine reported is passed
/// over in silence, any other is written down.
pub open spec fn closes_text(
    reply: Reply<Option<OutputBuffer>>,
    request: Request,
    outcome: EngineOutcome<Seq<char>>,
) -> bool {
    match outcome {
        EngineOutcome::Completed(json) => if nul_free(encode_utf8(json)) {
            &&& reply.diagnostic.is_none()
            &&& reply.value matches Some(buffer) && buffer@ == encode_utf8(json).push(0u8)
                && buffer.text() == json
        } else {
            request.fails_with(reply, None, Fault::InteriorNul)
        },
        EngineOutcome::Declined => reply.is_silent(None),
        EngineOutcome::Faulted => request.fails_with(reply, None, Fault::Engine),
    }
}

/// Closes a call whose result is JSON text that the caller of this function has in hand:
/// the parsed records of a trade, order book, best-bid-and-offer, funding-rate or candlestick
/// message.
pub fn text_reply(
    request: &Request,
    outcome: EngineOutcome<String>,
) -> (reply: Reply<Option<OutputBuffer>>)
    ensures
        closes_text(reply, *request, text_outcome(outcome)),
{
    match outcome {
        EngineOutcome::Completed(json) => match OutputBuffer::acquire(json.as_str()) {
            Some(buffer) => Reply::silent(Some(buffer)),
            None => Reply::logged(None, request.diagnose(Fault::InteriorNul)),
        },
        EngineOutcome::Declined => Reply::silent(None),
        EngineOutcome::Faulted => Reply::logged(None, request.diagnose(Fault::Engine)),
    }
}

/// Closes a call whose result was put through the JSON library: its text is handed over as
/// `text_reply` hands over a completed call, its error is a fault.
pub fn encoded_reply(
    request: &Request,
    encoded: Result<String, serde_json::Error>,
) -> (reply: Reply<Option<OutputBuffer>>)
    ensures
        match encoded {
            Ok(json) => closes_text(reply, *request, EngineOutcome::Completed(json@)),
            Err(_) => request.fails_with(reply, None, Fault::Encoding),
        },
{
    match encoded {
        Ok(json) => text_reply(request, EngineOutcome::Completed(json)),
        Err(_) => Reply::logged(None, request.diagnose(Fault::Encoding)),
    }
}

/// Closes the extraction of a symbol. A symbol that the engine returned is always handed
/// over, and nothing is written: the buffer holds the symbol as the JSON library writes it, a
/// string literal in double quotes, and the closing NUL. After a failure no buffer is handed
/// over; a failure that the engine reported is passed over in silence, a fault is written
/// down.
pub fn symbol_reply(
    request: &Request,
    outcome: EngineOutcome<String>,
) -> (reply: Reply<Option<OutputBuffer>>)
    ensures
        match outcome {
            EngineOutcome::Completed(symbol) => {
                &&& reply.diagnostic.is_none()
                &&& reply.value matches Some(buffer) && buffer@ == encode_utf8(
                    json_of_text(symbol@),
                ).push(0u8) && buffer.text() == json_of_text(symbol@)
            },
            EngineOutcome::Declined => reply.is_silent(None),
            EngineOutcome::Faulted => request.fails_with(reply, None, Fault::Engine),
        },
{
    match outcome {
        EngineOutcome::Completed(symbol) => {
            let encoded = json_string(symbol.as_str());
            encoded_reply(request, encoded)
        },
        EngineOutcome::Declined => text_reply(request, EngineOutcome::Declined),
        EngineOutcome::Faulted => text_reply(request, EngineOutcome::Faulted),
    }
}

/// Closes the extraction of a timestamp: the timestamp in milliseconds since the epoch, or
/// `NO_TIMESTAMP` for a message without one, `TIMESTAMP_DECLINED` where the engine reported
/// that it cannot read the message, and `TIMESTAMP_FAULT` with a record after a fault.
pub fn timestamp_reply(
    request: &Request,
    outcome: EngineOutcome<Option<i64>>,
) -> (reply: Reply<i64>)
    ensures
        match outcome {
            EngineOutcome::Completed(Some(timestamp)) => reply.is_silent(timestamp),
            EngineOutcome::Completed(None) => reply.is_silent(NO_TIMESTAMP),
            EngineOutcome::Declined => reply.is_silent(TIMESTAMP_DECLINED),
            EngineOutcome::Faulted => request.fails_with(reply, TIMESTAMP_FAULT, Fault::Engine),
        },
{
    match outcome {
        EngineOutcome::Completed(Some(timestamp)) => Reply::silent(timestamp),
        EngineOutcome::Completed(None) => Reply::silent(NO_TIMESTAMP),
        EngineOutcome::Declined => Reply::silent(TIMESTAMP_DECLINED),
        EngineOutcome::Faulted => Reply::logged(TIMESTAMP_FAULT, request.diagnose(Fault::Engine)),
    }
}

/// Closes the classification of a message: the engine's answer, or `Other` where it has
/// none, with a record after a fault.
pub fn msg_type_reply(
    request: &Request,
    outcome: EngineOutcome<MessageType>,
) -> (reply: Reply<MessageType>)
    ensures
        match outcome {
            EngineOutcome::Completed(msg_type) => reply.is_silent(msg_type),
            EngineOutcome::Declined => reply.is_silent(MessageType::Other),
            EngineOutcome::Faulted => request.fails_with(reply, MessageType::Other, Fault::Engine),
        },
{
    match outcome {
        EngineOutcome::Completed(msg_type) => Reply::silent(msg_type),
        EngineOutcome::Declined => Reply::silent(MessageType::Other),
        EngineOutcome::Faulted => Reply::logged(
            MessageType::Other,
            request.diagnose(Fault::Engine),
        ),
    }
}

/// Releases a buffer that a boundary function handed over, or does nothing where there is
/// none. The buffer is taken by value: it cannot be released twice, and only a buffer made
/// by this library can be released at all.
pub fn deallocate_string(pointer: Option<OutputBuffer>) {
    match pointer {
        Some(buffer) => {
            let _ = buffer.into_bytes();
        },
        None => {},
    }
}

/// No buffer is handed over on a failure path: a reply for text holds a buffer or a record,
/// never both. A failure that the engine reported leaves neither, a fault leaves the record.
pub proof fn lemma_buffer_or_record(
    reply: Reply<Option<OutputBuffer>>,
    request: Request,
    outcome: EngineOutcome<Seq<char>>,
)
    requires
        closes_text(reply, request, outcome),
    ensures
        !(reply.value.is_some() && reply.diagnostic.is_some()),
        reply.value.is_some() ==> outcome is Completed,
        outcome is Declined ==> reply.value.is_none() && reply.diagnostic.is_none(),
        outcome is Faulted ==> reply.value.is_none() && reply.diagnostic.is_some(),
{
}

/// A call with a buffer that is not well-formed UTF-8 never reaches the engine: it returns
/// the sentinel of its function at once, with exactly one record, that of the arguments as
/// they came.
pub proof fn lemma_invalid_text_is_refused<T>(
    step: Step<T>,
    sentinel: T,
    operation: Operation,
    exchange: Seq<u8>,
    market_type: Option<MarketType>,
    msg: Seq<u8>,
    received_at: Option<i64>,
)
    requires
        begins(step, sentinel, operation, exchange, market_type, msg, received_at),
        !valid_utf8(exchange) || !valid_utf8(msg),
    ensures
        step matches Step::Return(reply) && reply.is_logged(
            sentinel,
            exchange,
            market_type,
            msg,
            Fault::InvalidText,
        ),
{
}

/// A call with two buffers of well-formed UTF-8 always reaches the engine, and a time of
/// receipt of zero or below reaches it as no time at all.
pub proof fn lemma_text_is_passed_on<T>(
    step: Step<T>,
    sentinel: T,
    operation: Operation,
    exchange: Seq<u8>,
    market_type: Option<MarketType>,
    msg: Seq<u8>,
    received_at: i64,
)
    requires
        begins(
            step,
            sentinel,
            operation,
            exchange,
            market_type,
            msg,
            spec_receipt_time(received_at),
        ),
        valid_utf8(exchange),
        valid_utf8(msg),
    ensures
        step matches Step::Invoke(request) && request.is_for(
            operation,
            exchange,
            market_type,
            msg,
            if received_at <= 0 {
                None
            } else {
                Some(received_at)
            },
        ),
{
}

/// Every time of receipt of zero or below asks the same of the engine: two calls that differ
/// in nothing else put the same request, one without a time of receipt.
pub proof fn lemma_absent_receipt_times_ask_the_same<T>(
    first: Step<T>,
    second: Step<T>,
    sentinel: T,
    operation: Operation,
    exchange: Seq<u8>,
    market_type: Option<MarketType>,
    msg: Seq<u8>,
    first_received_at: i64,
    second_received_at: i64,
)
    requires
        first_received_at <= 0,
        second_received_at <= 0,
        valid_utf8(exchange),
        valid_utf8(msg),
        begins(
            first,
            sentinel,
            operation,
            exchange,
            market_type,
            msg,
            spec_receipt_time(first_received_at),
        ),
        begins(
            second,
            sentinel,
            operation,
            exchange,
            market_type,
            msg,
            spec_receipt_time(second_received_at),
        ),
    ensures
        first matches Step::Invoke(a) && second matches Step::Invoke(b) && {
            &&& a.operation == b.operation
            &&& a.exchange@ == b.exchange@
            &&& a.market_type == b.market_type
            &&& a.msg@ == b.msg@
            &&& a.received_at == b.received_at
            &&& a.received_at.is_none()
        },
{
}

} // verus!
