use crypto_market_type::MarketType as EngineMarketType;
use msg_boundary::market_type::{MarketType, MARKET_TYPE_COUNT};

const ALL: [MarketType; 11] = [
    MarketType::Spot,
    MarketType::LinearFuture,
    MarketType::InverseFuture,
    MarketType::LinearSwap,
    MarketType::InverseSwap,
    MarketType::AmericanOption,
    MarketType::EuropeanOption,
    MarketType::QuantoFuture,
    MarketType::QuantoSwap,
    MarketType::Move,
    MarketType::BVOL,
];

#[test]
fn bridge_round_trip_is_the_identity() {
    for market_type in ALL {
        assert_eq!(MarketType::from_rust(market_type.to_rust()), Some(market_type));
    }
}

#[test]
fn bridge_maps_each_variant_to_its_namesake() {
    assert_eq!(MarketType::Spot.to_rust(), EngineMarketType::Spot);
    assert_eq!(MarketType::LinearFuture.to_rust(), EngineMarketType::LinearFuture);
    assert_eq!(MarketType::InverseFuture.to_rust(), EngineMarketType::InverseFuture);
    assert_eq!(MarketType::LinearSwap.to_rust(), EngineMarketType::LinearSwap);
    assert_eq!(MarketType::InverseSwap.to_rust(), EngineMarketType::InverseSwap);
    assert_eq!(MarketType::AmericanOption.to_rust(), EngineMarketType::AmericanOption);
    assert_eq!(MarketType::EuropeanOption.to_rust(), EngineMarketType::EuropeanOption);
    assert_eq!(MarketType::QuantoFuture.to_rust(), EngineMarketType::QuantoFuture);
    assert_eq!(MarketType::QuantoSwap.to_rust(), EngineMarketType::QuantoSwap);
    assert_eq!(MarketType::Move.to_rust(), EngineMarketType::Move);
    assert_eq!(MarketType::BVOL.to_rust(), EngineMarketType::BVOL);
}

#[test]
fn bridge_has_no_place_for_unknown() {
    assert_eq!(MarketType::from_rust(EngineMarketType::Unknown), None);
    assert_eq!(MarketType::from_rust(EngineMarketType::BVOL), Some(MarketType::BVOL));
    assert_eq!(MarketType::from_rust(EngineMarketType::Spot), Some(MarketType::Spot));
}

#[test]
fn codes_follow_the_declaration() {
    assert_eq!(MARKET_TYPE_COUNT, 11);
    let mut expected: u32 = 0;
    for market_type in ALL {
        assert_eq!(market_type.code(), expected);
        assert_eq!(MarketType::from_code(expected), Some(market_type));
        expected += 1;
    }
    assert_eq!(MarketType::InverseSwap.code(), 4);
    assert_eq!(MarketType::BVOL.code(), 10);
}

#[test]
fn integers_that_are_no_code_name_no_market_type() {
    assert_eq!(MarketType::from_code(11), None);
    assert_eq!(MarketType::from_code(12), None);
    assert_eq!(MarketType::from_code(u32::MAX), None);
}
