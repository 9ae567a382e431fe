use crypto_market_type::MarketType as EngineMarketType;
use crypto_msg_type::MessageType;
use msg_boundary::boundary::{
    deallocate_string, encoded_reply, extract_symbol, extract_timestamp, get_msg_type,
    msg_type_reply, parse_bbo, parse_candlestick, parse_funding_rate, parse_l2, parse_l2_topk,
    parse_trade, symbol_reply, text_reply, timestamp_reply, NO_TIMESTAMP, TIMESTAMP_DECLINED,
    TIMESTAMP_FAULT,
};
use msg_boundary::firewall::{Diagnostic, EngineOutcome, Fault, Reply};
use msg_boundary::market_type::MarketType;
use msg_boundary::request::{begin, receipt_time, Operation, Request, Step};
use msg_boundary::text::{decode, OutputBuffer};

const NOT_TEXT: &[u8] = &[0x7b, 0xff, 0xfe, 0x7d];

fn request_of<T>(step: Step<T>) -> Request {
    match step {
        Step::Invoke(request) => request,
        Step::Return(_) => panic!("the engine was not to be invoked"),
    }
}

fn refusal_of<T>(step: Step<T>) -> Reply<T> {
    match step {
        Step::Invoke(_) => panic!("the engine was to be invoked"),
        Step::Return(reply) => reply,
    }
}

fn assert_record(
    diagnostic: &Option<Diagnostic>,
    exchange: &[u8],
    market_type: Option<MarketType>,
    msg: &[u8],
    fault: Fault,
) {
    let diagnostic = diagnostic.as_ref().unwrap();
    assert_eq!(diagnostic.exchange, exchange);
    assert_eq!(diagnostic.market_type, market_type);
    assert_eq!(diagnostic.msg, msg);
    assert_eq!(diagnostic.fault, fault);
}

#[test]
fn receipt_time_is_absent_up_to_zero() {
    assert_eq!(receipt_time(0), None);
    assert_eq!(receipt_time(-1), None);
    assert_eq!(receipt_time(i64::MIN), None);
    assert_eq!(receipt_time(1), Some(1));
    assert_eq!(receipt_time(1622370862564), Some(1622370862564));
    assert_eq!(receipt_time(i64::MAX), Some(i64::MAX));
}

#[test]
fn decode_reads_utf8_and_nothing_else() {
    assert_eq!(decode(b"binance"), Some("binance"));
    assert_eq!(decode(b""), Some(""));
    assert_eq!(decode("\u{20ac}\u{1f600}".as_bytes()), Some("\u{20ac}\u{1f600}"));
    assert_eq!(decode(NOT_TEXT), None);
    assert_eq!(decode(&[0xc0, 0x80]), None);
    assert_eq!(decode(&[0xe2, 0x82]), None);
}

#[test]
fn acquire_copies_and_terminates() {
    let buffer = OutputBuffer::acquire("[]").unwrap();
    assert_eq!(buffer.as_bytes(), b"[]\0");
    assert_eq!(buffer.into_bytes(), vec![b'[', b']', 0]);
    let empty = OutputBuffer::acquire("").unwrap();
    assert_eq!(empty.as_bytes(), &[0u8]);
    let euro = OutputBuffer::acquire("\u{20ac}").unwrap();
    assert_eq!(euro.as_bytes(), &[0xe2, 0x82, 0xac, 0]);
}

#[test]
fn acquire_refuses_an_interior_nul() {
    assert!(OutputBuffer::acquire("a\0b").is_none());
    assert!(OutputBuffer::acquire("\0").is_none());
    assert!(OutputBuffer::acquire("ab\0").is_none());
}

#[test]
fn deallocate_takes_nothing_and_something() {
    deallocate_string(None);
    deallocate_string(None);
    deallocate_string(OutputBuffer::acquire("[1,2]"));
    let reply = text_reply(
        &request_of(parse_trade(b"binance", MarketType::Spot, b"{}")),
        EngineOutcome::Completed("[]".to_string()),
    );
    deallocate_string(reply.value);
}

#[test]
fn requests_carry_the_arguments_in_the_engine_types() {
    let request = request_of(parse_l2(b"binance", MarketType::InverseSwap, b"{\"a\":1}", 5));
    assert_eq!(request.operation, Operation::ParseL2);
    assert_eq!(request.exchange, "binance");
    assert_eq!(request.market_type, Some(EngineMarketType::InverseSwap));
    assert_eq!(request.msg, "{\"a\":1}");
    assert_eq!(request.received_at, Some(5));

    let request = request_of(parse_l2_topk(b"okx", MarketType::Spot, b"x", 0));
    assert_eq!(request.operation, Operation::ParseL2TopK);
    assert_eq!(request.market_type, Some(EngineMarketType::Spot));
    assert_eq!(request.received_at, None);

    let request = request_of(parse_bbo(b"okx", MarketType::BVOL, b"x", -7));
    assert_eq!(request.operation, Operation::ParseBbo);
    assert_eq!(request.market_type, Some(EngineMarketType::BVOL));
    assert_eq!(request.received_at, None);

    let request = request_of(parse_funding_rate(b"okx", MarketType::Move, b"x", i64::MAX));
    assert_eq!(request.operation, Operation::ParseFundingRate);
    assert_eq!(request.received_at, Some(i64::MAX));

    let request = request_of(parse_candlestick(b"okx", MarketType::QuantoSwap, b"x", 1));
    assert_eq!(request.operation, Operation::ParseCandlestick);
    assert_eq!(request.market_type, Some(EngineMarketType::QuantoSwap));
    assert_eq!(request.received_at, Some(1));

    let request = request_of(parse_trade(b"", MarketType::LinearFuture, b""));
    assert_eq!(request.operation, Operation::ParseTrade);
    assert_eq!(request.exchange, "");
    assert_eq!(request.msg, "");
    assert_eq!(request.received_at, None);

    let request = request_of(extract_symbol(b"ftx", MarketType::Move, b"m"));
    assert_eq!(request.operation, Operation::ExtractSymbol);
    assert_eq!(request.received_at, None);

    let request = request_of(extract_timestamp(b"ftx", MarketType::Move, b"m"));
    assert_eq!(request.operation, Operation::ExtractTimestamp);
    assert_eq!(request.market_type, Some(EngineMarketType::Move));

    let request = request_of(get_msg_type(b"ftx", b"m"));
    assert_eq!(request.operation, Operation::GetMsgType);
    assert_eq!(request.market_type, None);
    assert_eq!(request.received_at, None);
}

#[test]
fn invalid_message_text_returns_the_sentinel_with_one_record() {
    let market_type = MarketType::LinearSwap;
    let some = Some(market_type);
    let fault = Fault::InvalidText;

    let reply = refusal_of(extract_symbol(b"binance", market_type, NOT_TEXT));
    assert!(reply.value.is_none());
    assert_record(&reply.diagnostic, b"binance", some, NOT_TEXT, fault);

    let reply = refusal_of(extract_timestamp(b"binance", market_type, NOT_TEXT));
    assert_eq!(reply.value, 0);
    assert_eq!(reply.value, TIMESTAMP_FAULT);
    assert_record(&reply.diagnostic, b"binance", some, NOT_TEXT, fault);

    let reply = refusal_of(get_msg_type(b"binance", NOT_TEXT));
    assert_eq!(reply.value, MessageType::Other);
    assert_record(&reply.diagnostic, b"binance", None, NOT_TEXT, fault);

    let reply = refusal_of(parse_trade(b"binance", market_type, NOT_TEXT));
    assert!(reply.value.is_none());
    assert_record(&reply.diagnostic, b"binance", some, NOT_TEXT, fault);

    let reply = refusal_of(parse_l2(b"binance", market_type, NOT_TEXT, 0));
    assert!(reply.value.is_none());
    assert_record(&reply.diagnostic, b"binance", some, NOT_TEXT, fault);

    let reply = refusal_of(parse_l2_topk(b"binance", market_type, NOT_TEXT, 1));
    assert!(reply.value.is_none());
    assert_record(&reply.diagnostic, b"binance", some, NOT_TEXT, fault);

    let reply = refusal_of(parse_bbo(b"binance", market_type, NOT_TEXT, -1));
    assert!(reply.value.is_none());
    assert_record(&reply.diagnostic, b"binance", some, NOT_TEXT, fault);

    let reply = refusal_of(parse_funding_rate(b"binance", market_type, NOT_TEXT, 2));
    assert!(reply.value.is_none());
    assert_record(&reply.diagnostic, b"binance", some, NOT_TEXT, fault);

    let reply = refusal_of(parse_candlestick(b"binance", market_type, NOT_TEXT, 3));
    assert!(reply.value.is_none());
    assert_record(&reply.diagnostic, b"binance", some, NOT_TEXT, fault);
}

#[test]
fn invalid_exchange_text_returns_the_sentinel_with_one_record() {
    let reply = refusal_of(parse_trade(NOT_TEXT, MarketType::Spot, b"{}"));
    assert!(reply.value.is_none());
    assert_record(&reply.diagnostic, NOT_TEXT, Some(MarketType::Spot), b"{}", Fault::InvalidText);

    let reply = refusal_of(begin(Operation::ParseBbo, NOT_TEXT, None, NOT_TEXT, Some(9), 77_u8));
    assert_eq!(reply.value, 77);
    assert_record(&reply.diagnostic, NOT_TEXT, None, NOT_TEXT, Fault::InvalidText);
}

#[test]
fn text_reply_hands_over_completed_text() {
    let request = request_of(parse_trade(b"binance", MarketType::Spot, b"{}"));
    let reply = text_reply(&request, EngineOutcome::Completed("[{\"a\":1}]".to_string()));
    assert!(reply.diagnostic.is_none());
    assert_eq!(reply.value.unwrap().as_bytes(), b"[{\"a\":1}]\0");

    let reply = text_reply(&request, EngineOutcome::Completed("[]".to_string()));
    assert!(reply.diagnostic.is_none());
    assert_eq!(reply.value.unwrap().as_bytes(), b"[]\0");
}

#[test]
fn text_reply_is_silent_when_the_engine_declines() {
    let request = request_of(parse_bbo(b"binance", MarketType::Spot, b"{}", 0));
    let reply = text_reply(&request, EngineOutcome::Declined);
    assert!(reply.value.is_none());
    assert!(reply.diagnostic.is_none());
}

#[test]
fn text_reply_records_a_fault_of_the_engine() {
    let request = request_of(parse_candlestick(b"binance", MarketType::InverseFuture, b"{]", 0));
    let reply = text_reply(&request, EngineOutcome::Faulted);
    assert!(reply.value.is_none());
    assert_record(
        &reply.diagnostic,
        b"binance",
        Some(MarketType::InverseFuture),
        b"{]",
        Fault::Engine,
    );
}

#[test]
fn text_reply_records_text_that_cannot_be_terminated() {
    let request = request_of(parse_trade(b"kraken", MarketType::Spot, b"m"));
    let reply = text_reply(&request, EngineOutcome::Completed("[\0]".to_string()));
    assert!(reply.value.is_none());
    assert_record(&reply.diagnostic, b"kraken", Some(MarketType::Spot), b"m", Fault::InteriorNul);
}

#[test]
fn encoded_reply_records_an_error_of_the_json_library() {
    let request = request_of(extract_symbol(b"kraken", MarketType::Spot, b"m"));
    let error = serde_json::from_str::<bool>("not json").unwrap_err();
    let reply = encoded_reply(&request, Err(error));
    assert!(reply.value.is_none());
    assert_record(&reply.diagnostic, b"kraken", Some(MarketType::Spot), b"m", Fault::Encoding);

    let reply = encoded_reply(&request, Ok("\"ALL\"".to_string()));
    assert!(reply.diagnostic.is_none());
    assert_eq!(reply.value.unwrap().as_bytes(), b"\"ALL\"\0");
}

#[test]
fn symbol_reply_quotes_and_escapes_the_symbol() {
    let request = request_of(extract_symbol(b"binance", MarketType::Spot, b"{}"));
    let reply = symbol_reply(&request, EngineOutcome::Completed("NONE".to_string()));
    assert!(reply.diagnostic.is_none());
    assert_eq!(reply.value.unwrap().as_bytes(), b"\"NONE\"\0");

    let reply = symbol_reply(&request, EngineOutcome::Completed("a\"b\\c".to_string()));
    assert!(reply.diagnostic.is_none());
    assert_eq!(reply.value.unwrap().as_bytes(), b"\"a\\\"b\\\\c\"\0");

    let reply = symbol_reply(&request, EngineOutcome::Completed("a\0b".to_string()));
    assert!(reply.diagnostic.is_none());
    assert_eq!(reply.value.unwrap().as_bytes(), b"\"a\\u0000b\"\0");
}

#[test]
fn symbol_reply_always_hands_over_a_returned_symbol() {
    let request = request_of(extract_symbol(b"binance", MarketType::Spot, b"{}"));
    for symbol in ["", "ALL", "BTC/USD", "\u{0}\u{1}\u{1f}", "\n\t\r", "\u{20ac}\u{1f600}"] {
        let reply = symbol_reply(&request, EngineOutcome::Completed(symbol.to_string()));
        assert!(reply.diagnostic.is_none());
        let buffer = reply.value.unwrap();
        let bytes = buffer.as_bytes();
        let text = std::str::from_utf8(&bytes[..bytes.len() - 1]).unwrap();
        assert_eq!(bytes[bytes.len() - 1], 0);
        assert!(!text.contains('\0'));
        assert_eq!(serde_json::from_str::<String>(text).unwrap(), symbol);
    }
    let reply = symbol_reply(&request, EngineOutcome::Completed("\u{0}\u{1f}".to_string()));
    assert_eq!(reply.value.unwrap().as_bytes(), b"\"\\u0000\\u001f\"\0");
    let reply = symbol_reply(&request, EngineOutcome::Completed("".to_string()));
    assert_eq!(reply.value.unwrap().as_bytes(), b"\"\"\0");
}

#[test]
fn symbol_reply_passes_failures_on() {
    let request = request_of(extract_symbol(b"binance", MarketType::QuantoFuture, b"{}"));
    let reply = symbol_reply(&request, EngineOutcome::Declined);
    assert!(reply.value.is_none());
    assert!(reply.diagnostic.is_none());

    let reply = symbol_reply(&request, EngineOutcome::Faulted);
    assert!(reply.value.is_none());
    assert_record(
        &reply.diagnostic,
        b"binance",
        Some(MarketType::QuantoFuture),
        b"{}",
        Fault::Engine,
    );
}

#[test]
fn timestamp_reply_tells_the_four_outcomes_apart() {
    let request = request_of(extract_timestamp(b"binance", MarketType::InverseSwap, b"{}"));

    let reply = timestamp_reply(&request, EngineOutcome::Completed(Some(1622370862564)));
    assert_eq!(reply.value, 1622370862564);
    assert!(reply.diagnostic.is_none());

    let reply = timestamp_reply(&request, EngineOutcome::Completed(None));
    assert_eq!(reply.value, 0);
    assert_eq!(NO_TIMESTAMP, 0);
    assert!(reply.diagnostic.is_none());

    let reply = timestamp_reply(&request, EngineOutcome::Declined);
    assert_eq!(reply.value, -1);
    assert_eq!(TIMESTAMP_DECLINED, -1);
    assert!(reply.diagnostic.is_none());

    let reply = timestamp_reply(&request, EngineOutcome::Faulted);
    assert_eq!(reply.value, 0);
    assert_record(
        &reply.diagnostic,
        b"binance",
        Some(MarketType::InverseSwap),
        b"{}",
        Fault::Engine,
    );
}

#[test]
fn msg_type_reply_falls_back_to_other() {
    let request = request_of(get_msg_type(b"binance", b"{}"));

    let reply = msg_type_reply(&request, EngineOutcome::Completed(MessageType::FundingRate));
    assert_eq!(reply.value, MessageType::FundingRate);
    assert!(reply.diagnostic.is_none());

    let reply = msg_type_reply(&request, EngineOutcome::Declined);
    assert_eq!(reply.value, MessageType::Other);
    assert!(reply.diagnostic.is_none());

    let reply = msg_type_reply(&request, EngineOutcome::Faulted);
    assert_eq!(reply.value, MessageType::Other);
    assert_record(&reply.diagnostic, b"binance", None, b"{}", Fault::Engine);
}

#[test]
fn diagnose_restores_the_bytes_of_the_call() {
    let exchange = "b\u{00f6}rse".as_bytes();
    let msg = "{\"s\":\"\u{20ac}\"}".as_bytes();
    for market_type in [MarketType::Spot, MarketType::AmericanOption, MarketType::BVOL] {
        let request = request_of(parse_trade(exchange, market_type, msg));
        let diagnostic = Some(request.diagnose(Fault::Engine));
        assert_record(&diagnostic, exchange, Some(market_type), msg, Fault::Engine);
    }
}
