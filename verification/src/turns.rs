//! A time step, one building at a time.
//!
//! Each building of a kind has its turn on the stock that the ones before it
//! left. A satellite factory or a miner that the stock cannot supply stands
//! idle and the next one is asked; the refiners stop at the first that cannot
//! be supplied. Since a turn never adds to what the buildings of the same kind
//! draw on, both ways of going through a kind serve the same number of
//! buildings, and that number is the one that the closed forms of
//! [`crate::chain`] compute.

use vstd::prelude::*;
use crate::chain::{
    after_collectors, after_factories, after_miners, after_refiners, after_tick,
};
use crate::game::{
    capped, Economy, Stock, COLLECTOR_ELECTRICITY_PRODUCTION, MINER_ELECTRICITY_CONSUMPTION,
    MINER_ORE_PRODUCTION, REFINER_ELECTRICITY_CONSUMPTION, REFINER_METAL_PRODUCTION,
    REFINER_ORE_CONSUMPTION, SATELLITE_FACTORY_ELECTRICITY_CONSUMPTION,
    SATELLITE_FACTORY_METAL_CONSUMPTION,
};

verus! {

/// The turn of one solar collector: it adds its electricity.
pub open spec fn collector_turn(stock: Stock) -> Stock {
    Stock {
        electricity: capped(stock.electricity + COLLECTOR_ELECTRICITY_PRODUCTION),
        ..stock
    }
}

/// Whether the stock can supply one satellite factory.
pub open spec fn factory_can_work(stock: Stock) -> bool {
    &&& stock.metal >= SATELLITE_FACTORY_METAL_CONSUMPTION
    &&& stock.electricity >= SATELLITE_FACTORY_ELECTRICITY_CONSUMPTION
}

/// The turn of one satellite factory: it turns electricity and metal into a
/// satellite, or stands idle.
pub open spec fn factory_turn(stock: Stock) -> Stock {
    if factory_can_work(stock) {
        Stock {
            electricity: stock.electricity - SATELLITE_FACTORY_ELECTRICITY_CONSUMPTION,
            metal: stock.metal - SATELLITE_FACTORY_METAL_CONSUMPTION,
            satellites: capped(stock.satellites + 1),
            ..stock
        }
    } else {
        stock
    }
}

/// Whether the stock can supply one refiner.
pub open spec fn refiner_can_work(stock: Stock) -> bool {
    &&& stock.ore >= REFINER_ORE_CONSUMPTION
    &&& stock.electricity >= REFINER_ELECTRICITY_CONSUMPTION
}

/// The turn of one refiner that the stock can supply: it turns electricity
/// and ore into metal.
pub open spec fn refiner_turn(stock: Stock) -> Stock {
    Stock {
        electricity: stock.electricity - REFINER_ELECTRICITY_CONSUMPTION,
        ore: stock.ore - REFINER_ORE_CONSUMPTION,
        metal: capped(stock.metal + REFINER_METAL_PRODUCTION),
        ..stock
    }
}

/// Whether the stock can supply one miner.
pub open spec fn miner_can_work(stock: Stock) -> bool {
    stock.electricity >= MINER_ELECTRICITY_CONSUMPTION
}

/// The turn of one miner: it turns electricity into ore, or stands idle.
pub open spec fn miner_turn(stock: Stock) -> Stock {
    if miner_can_work(stock) {
        Stock {
            electricity: stock.electricity - MINER_ELECTRICITY_CONSUMPTION,
            ore: capped(stock.ore + MINER_ORE_PRODUCTION),
            ..stock
        }
    } else {
        stock
    }
}

/// The stock once each of `units` solar collectors had its turn.
pub open spec fn collector_turns(stock: Stock, units: nat) -> Stock
    decreases units,
{
    if units == 0 {
        stock
    } else {
        collector_turns(collector_turn(stock), (units - 1) as nat)
    }
}

/// The stock once each of `units` satellite factories had its turn. An idle
/// factory does not keep the next one from being asked.
pub open spec fn factory_turns(stock: Stock, units: nat) -> Stock
    decreases units,
{
    if units == 0 {
        stock
    } else {
        factory_turns(factory_turn(stock), (units - 1) as nat)
    }
}

/// The stock once `units` refiners had their turn, up to the first that the
/// stock cannot supply: the refiners behind it are not asked.
pub open spec fn refiner_turns(stock: Stock, units: nat) -> Stock
    decreases units,
{
    if units == 0 || !refiner_can_work(stock) {
        stock
    } else {
        refiner_turns(refiner_turn(stock), (units - 1) as nat)
    }
}

/// The stock once each of `units` miners had its turn. An idle miner does not
/// keep the next one from being asked.
pub open spec fn miner_turns(stock: Stock, units: nat) -> Stock
    decreases units,
{
    if units == 0 {
        stock
    } else {
        miner_turns(miner_turn(stock), (units - 1) as nat)
    }
}

/// One time step, building by building: the collectors, then the satellite
/// factories, the refiners and the miners.
pub open spec fn tick_by_turns(economy: Economy) -> Economy {
    let fed = collector_turns(economy.stock, economy.fleet.collectors as nat);
    let assembled = factory_turns(fed, economy.fleet.satellite_factories as nat);
    let refined = refiner_turns(assembled, economy.fleet.refiners as nat);
    let mined = miner_turns(refined, economy.fleet.miners as nat);
    Economy { stock: mined, fleet: economy.fleet }
}

/// Collectors that feed one after the other add up to what they feed
/// together.
pub proof fn collector_turns_add_up(stock: Stock, units: nat)
    requires
        stock.fits(),
    ensures
        collector_turns(stock, units) == after_collectors(stock, units as int),
    decreases units,
{
    if units > 0 {
        collector_turns_add_up(collector_turn(stock), (units - 1) as nat);
    }
}

/// Asking each satellite factory in turn serves as many of them as the stock
/// reaches for.
pub proof fn factory_turns_add_up(stock: Stock, units: nat)
    requires
        stock.fits(),
    ensures
        factory_turns(stock, units) == after_factories(stock, units as int),
    decreases units,
{
    if units > 0 {
        factory_turns_add_up(factory_turn(stock), (units - 1) as nat);
    }
}

/// Asking the refiners in turn, and stopping at the first that cannot work,
/// serves as many of them as the stock reaches for.
pub proof fn refiner_turns_add_up(stock: Stock, units: nat)
    requires
        stock.fits(),
    ensures
        refiner_turns(stock, units) == after_refiners(stock, units as int),
    decreases units,
{
    if units > 0 && refiner_can_work(stock) {
        refiner_turns_add_up(refiner_turn(stock), (units - 1) as nat);
    }
}

/// Asking each miner in turn serves as many of them as the stock reaches for.
pub proof fn miner_turns_add_up(stock: Stock, units: nat)
    requires
        stock.fits(),
    ensures
        miner_turns(stock, units) == after_miners(stock, units as int),
    decreases units,
{
    if units > 0 {
        miner_turns_add_up(miner_turn(stock), (units - 1) as nat);
    }
}

/// A time step gone through building by building ends in the state that the
/// closed forms give.
pub proof fn turns_agree_with_closed_form(economy: Economy)
    requires
        economy.fits(),
    ensures
        tick_by_turns(economy) == after_tick(economy),
{
    let fleet = economy.fleet;
    let fed = after_collectors(economy.stock, fleet.collectors);
    let assembled = after_factories(fed, fleet.satellite_factories);
    let refined = after_refiners(assembled, fleet.refiners);
    collector_turns_add_up(economy.stock, fleet.collectors as nat);
    factory_turns_add_up(fed, fleet.satellite_factories as nat);
    refiner_turns_add_up(assembled, fleet.refiners as nat);
    miner_turns_add_up(refined, fleet.miners as nat);
}

} // verus!
