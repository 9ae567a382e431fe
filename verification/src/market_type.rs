//! The market-type vocabulary as it crosses the boundary, and its bridge to the engine's own.
use crypto_market_type::MarketType as EngineMarketType;
use vstd::prelude::*;

verus! {

/// The engine's market-type enumeration, read variant by variant as that crate declares it.
/// It has one variant more than the boundary vocabulary, `Unknown`, which no caller can name.
#[verifier::external_type_specification]
pub struct ExEngineMarketType(EngineMarketType);

/// Market type, as callers across the boundary name it. A caller passes it as a fixed-width
/// integer, the variant's place in this declaration, counted from zero.
#[derive(Copy, Clone, Debug, PartialEq, Eq, Structural)]
pub enum MarketType {
    Spot,
    LinearFuture,
    InverseFuture,
    LinearSwap,
    InverseSwap,
    AmericanOption,
    EuropeanOption,
    QuantoFuture,
    QuantoSwap,
    Move,
    BVOL,
}

/// How many market types the boundary knows.
pub const MARKET_TYPE_COUNT: u32 = 11;

impl MarketType {
    /// The integer that stands for this market type across the boundary.
    pub open spec fn spec_code(self) -> int {
        match self {
            MarketType::Spot => 0,
            MarketType::LinearFuture => 1,
            MarketType::InverseFuture => 2,
            MarketType::LinearSwap => 3,
            MarketType::InverseSwap => 4,
            MarketType::AmericanOption => 5,
            MarketType::EuropeanOption => 6,
            MarketType::QuantoFuture => 7,
            MarketType::QuantoSwap => 8,
            MarketType::Move => 9,
            MarketType::BVOL => 10,
        }
    }

    /// The engine's variant of the same name.
    pub open spec fn engine(self) -> EngineMarketType {
        match self {
            MarketType::Spot => EngineMarketType::Spot,
            MarketType::LinearFuture => EngineMarketType::LinearFuture,
            MarketType::InverseFuture => EngineMarketType::InverseFuture,
            MarketType::LinearSwap => EngineMarketType::LinearSwap,
            MarketType::InverseSwap => EngineMarketType::InverseSwap,
            MarketType::AmericanOption => EngineMarketType::AmericanOption,
            MarketType::EuropeanOption => EngineMarketType::EuropeanOption,
            MarketType::QuantoFuture => EngineMarketType::QuantoFuture,
            MarketType::QuantoSwap => EngineMarketType::QuantoSwap,
            MarketType::Move => EngineMarketType::Move,
            MarketType::BVOL => EngineMarketType::BVOL,
        }
    }

    /// The boundary variant that the engine's variant stands for: the one whose `engine()`
    /// it is, and none for the engine's `Unknown`.
    pub open spec fn of_engine(market_type: EngineMarketType) -> Option<MarketType> {
        if exists|m: MarketType| m.engine() == market_type {
            Some(choose|m: MarketType| m.engine() == market_type)
        } else {
            None
        }
    }

    /// The boundary variant with the given code, if the code is one.
    pub open spec fn of_code(code: int) -> Option<MarketType> {
        if exists|m: MarketType| m.spec_code() == code {
            Some(choose|m: MarketType| m.spec_code() == code)
        } else {
            None
        }
    }

    /// The integer that stands for this market type across the boundary.
    pub fn code(self) -> (code: u32)
        ensures
            code == self.spec_code(),
            code < MARKET_TYPE_COUNT,
    {
        match self {
            MarketType::Spot => 0,
            MarketType::LinearFuture => 1,
            MarketType::InverseFuture => 2,
            MarketType::LinearSwap => 3,
            MarketType::InverseSwap => 4,
            MarketType::AmericanOption => 5,
            MarketType::EuropeanOption => 6,
            MarketType::QuantoFuture => 7,
            MarketType::QuantoSwap => 8,
            MarketType::Move => 9,
            MarketType::BVOL => 10,
        }
    }

    /// Reads a market type from its code; `None` for an integer that is no code.
    pub fn from_code(code: u32) -> (market_type: Option<MarketType>)
        ensures
            market_type == Self::of_code(code as int),
            market_type.is_some() <==> code < MARKET_TYPE_COUNT,
            market_type matches Some(m) ==> m.spec_code() == code,
    {
        let found = match code {
            0 => Some(MarketType::Spot),
            1 => Some(MarketType::LinearFuture),
            2 => Some(MarketType::InverseFuture),
            3 => Some(MarketType::LinearSwap),
            4 => Some(MarketType::InverseSwap),
            5 => Some(MarketType::AmericanOption),
            6 => Some(MarketType::EuropeanOption),
            7 => Some(MarketType::QuantoFuture),
            8 => Some(MarketType::QuantoSwap),
            9 => Some(MarketType::Move),
            10 => Some(MarketType::BVOL),
            _ => None,
        };
        proof {
            match found {
                Some(m) => {
                    assert(m.spec_code() == code);
                    lemma_code_injective(m, choose|n: MarketType| n.spec_code() == code as int);
                },
                None => {
                    assert forall|m: MarketType| m.spec_code() != code as int by {
                        lemma_code_in_range(m);
                    }
                },
            }
        }
        found
    }

    /// Converts a boundary market type to the engine's.
    pub fn to_rust(self) -> (engine: EngineMarketType)
        ensures
            engine == self.engine(),
            engine != EngineMarketType::Unknown,
            Self::of_engine(engine) == Some(self),
    {
        proof {
            lemma_bridge_round_trip(self);
        }
        match self {
            MarketType::Spot => EngineMarketType::Spot,
            MarketType::LinearFuture => EngineMarketType::LinearFuture,
            MarketType::InverseFuture => EngineMarketType::InverseFuture,
            MarketType::LinearSwap => EngineMarketType::LinearSwap,
            MarketType::InverseSwap => EngineMarketType::InverseSwap,
            MarketType::AmericanOption => EngineMarketType::AmericanOption,
            MarketType::EuropeanOption => EngineMarketType::EuropeanOption,
            MarketType::QuantoFuture => EngineMarketType::QuantoFuture,
            MarketType::QuantoSwap => EngineMarketType::QuantoSwap,
            MarketType::Move => EngineMarketType::Move,
            MarketType::BVOL => EngineMarketType::BVOL,
        }
    }

    /// Converts an engine market type to the boundary's; `None` for the engine's `Unknown`,
    /// which has no place in the boundary vocabulary.
    pub fn from_rust(market_type: EngineMarketType) -> (boundary: Option<MarketType>)
        ensures
            boundary == Self::of_engine(market_type),
            boundary.is_none() <==> market_type == EngineMarketType::Unknown,
            boundary matches Some(m) ==> m.engine() == market_type,
    {
        let found = match market_type {
            EngineMarketType::Unknown => None,
            EngineMarketType::Spot => Some(MarketType::Spot),
            EngineMarketType::LinearFuture => Some(MarketType::LinearFuture),
            EngineMarketType::InverseFuture => Some(MarketType::InverseFuture),
            EngineMarketType::LinearSwap => Some(MarketType::LinearSwap),
            EngineMarketType::InverseSwap => Some(MarketType::InverseSwap),
            EngineMarketType::AmericanOption => Some(MarketType::AmericanOption),
            EngineMarketType::EuropeanOption => Some(MarketType::EuropeanOption),
            EngineMarketType::QuantoFuture => Some(MarketType::QuantoFuture),
            EngineMarketType::QuantoSwap => Some(MarketType::QuantoSwap),
            EngineMarketType::Move => Some(MarketType::Move),
            EngineMarketType::BVOL => Some(MarketType::BVOL),
        };
        proof {
            match found {
                Some(m) => {
                    lemma_bridge_round_trip(m);
                },
                None => {
                    assert forall|m: MarketType| m.engine() != market_type by {
                        lemma_engine_never_unknown(m);
                    }
                },
            }
        }
        found
    }
}

/// Every code lies below the number of market types.
pub proof fn lemma_code_in_range(m: MarketType)
    ensures
        0 <= m.spec_code() < MARKET_TYPE_COUNT,
{
}

/// Two market types with one code are one market type.
pub proof fn lemma_code_injective(m: MarketType, n: MarketType)
    requires
        m.spec_code() == n.spec_code(),
    ensures
        m == n,
{
}

/// A market type's code reads back as that market type.
pub proof fn lemma_code_round_trip(m: MarketType)
    ensures
        MarketType::of_code(m.spec_code()) == Some(m),
{
    lemma_code_injective(m, choose|n: MarketType| n.spec_code() == m.spec_code());
}

/// The bridge never names the engine's `Unknown`.
pub proof fn lemma_engine_never_unknown(m: MarketType)
    ensures
        m.engine() != EngineMarketType::Unknown,
{
}

/// The bridge keeps apart what the boundary keeps apart.
pub proof fn lemma_bridge_injective(m: MarketType, n: MarketType)
    requires
        m.engine() == n.engine(),
    ensures
        m == n,
{
}

/// The bridge keeps the order of declaration: the engine's variants follow one another as
/// the boundary's do, one place later because `Unknown` comes first there.
pub proof fn lemma_bridge_keeps_order(m: MarketType)
    ensures
        engine_place(m.engine()) == m.spec_code() + 1,
{
}

/// The place of an engine variant in its declaration, counted from zero.
pub open spec fn engine_place(market_type: EngineMarketType) -> int {
    match market_type {
        EngineMarketType::Unknown => 0,
        EngineMarketType::Spot => 1,
        EngineMarketType::LinearFuture => 2,
        EngineMarketType::InverseFuture => 3,
        EngineMarketType::LinearSwap => 4,
        EngineMarketType::InverseSwap => 5,
        EngineMarketType::AmericanOption => 6,
        EngineMarketType::EuropeanOption => 7,
        EngineMarketType::QuantoFuture => 8,
        EngineMarketType::QuantoSwap => 9,
        EngineMarketType::Move => 10,
        EngineMarketType::BVOL => 11,
    }
}

/// To the engine and back is the identity, for each of the eleven market types.
pub proof fn lemma_bridge_round_trip(m: MarketType)
    ensures
        MarketType::of_engine(m.engine()) == Some(m),
{
    lemma_bridge_injective(m, choose|n: MarketType| n.engine() == m.engine());
}

/// From the engine and back is the identity too, for every engine variant but `Unknown`.
pub proof fn lemma_bridge_round_trip_from_engine(market_type: EngineMarketType)
    requires
        market_type != EngineMarketType::Unknown,
    ensures
        MarketType::of_engine(market_type) matches Some(m) && m.engine() == market_type,
{
    let witness = match market_type {
        EngineMarketType::Unknown => MarketType::Spot,
        EngineMarketType::Spot => MarketType::Spot,
        EngineMarketType::LinearFuture => MarketType::LinearFuture,
        EngineMarketType::InverseFuture => MarketType::InverseFuture,
        EngineMarketType::LinearSwap => MarketType::LinearSwap,
        EngineMarketType::InverseSwap => MarketType::InverseSwap,
        EngineMarketType::AmericanOption => MarketType::AmericanOption,
        EngineMarketType::EuropeanOption => MarketType::EuropeanOption,
        EngineMarketType::QuantoFuture => MarketType::QuantoFuture,
        EngineMarketType::QuantoSwap => MarketType::QuantoSwap,
        EngineMarketType::Move => MarketType::Move,
        EngineMarketType::BVOL => MarketType::BVOL,
    };
    assert(witness.engine() == market_type);
}

} // verus!
