//! The production chain: what one time step does to a stock.
//!
//! A time step serves the buildings kind by kind, in a fixed order: the solar
//! collectors feed electricity, then the satellite factories, the refiners and
//! the miners draw on what is there. All buildings of a kind cost the same, so
//! a kind is served as far as the stock reaches; the functions named
//! `after_..` say so in closed form. [`crate::turns`] describes the same step
//! one building at a time and shows that both descriptions agree.

use vstd::prelude::*;
use crate::game::{
    capped, Economy, Fleet, Resources, State, Stock,
    COLLECTOR_ELECTRICITY_PRODUCTION, MINER_ELECTRICITY_CONSUMPTION, MINER_ORE_PRODUCTION,
    REFINER_ELECTRICITY_CONSUMPTION, REFINER_METAL_PRODUCTION, REFINER_ORE_CONSUMPTION,
    SATELLITE_FACTORY_ELECTRICITY_CONSUMPTION, SATELLITE_FACTORY_METAL_CONSUMPTION,
};

verus! {

/// The smaller of two integers.
pub open spec fn least(a: int, b: int) -> int {
    if a <= b {
        a
    } else {
        b
    }
}

/// The stock once `units` solar collectors have fed it. A collector needs
/// nothing, so each of them adds its electricity.
pub open spec fn after_collectors(stock: Stock, units: int) -> Stock {
    Stock {
        electricity: capped(stock.electricity + units * COLLECTOR_ELECTRICITY_PRODUCTION),
        ..stock
    }
}

/// How many of `units` satellite factories the stock can supply with both
/// electricity and metal.
pub open spec fn factories_served(stock: Stock, units: int) -> int {
    least(
        units,
        least(
            stock.electricity / (SATELLITE_FACTORY_ELECTRICITY_CONSUMPTION as int),
            stock.metal / (SATELLITE_FACTORY_METAL_CONSUMPTION as int),
        ),
    )
}

/// The stock once `units` satellite factories had their turn: each factory
/// that is served takes its electricity and metal and adds one satellite.
pub open spec fn after_factories(stock: Stock, units: int) -> Stock {
    let served = factories_served(stock, units);
    Stock {
        electricity: stock.electricity - served * SATELLITE_FACTORY_ELECTRICITY_CONSUMPTION,
        metal: stock.metal - served * SATELLITE_FACTORY_METAL_CONSUMPTION,
        satellites: capped(stock.satellites + served),
        ..stock
    }
}

/// How many of `units` refiners the stock can supply with both electricity
/// and ore.
pub open spec fn refiners_served(stock: Stock, units: int) -> int {
    least(
        units,
        least(
            stock.electricity / (REFINER_ELECTRICITY_CONSUMPTION as int),
            stock.ore / (REFINER_ORE_CONSUMPTION as int),
        ),
    )
}

/// The stock once `units` refiners had their turn: each refiner that is served
/// takes its electricity and ore and adds its metal.
pub open spec fn after_refiners(stock: Stock, units: int) -> Stock {
    let served = refiners_served(stock, units);
    Stock {
        electricity: stock.electricity - served * REFINER_ELECTRICITY_CONSUMPTION,
        ore: stock.ore - served * REFINER_ORE_CONSUMPTION,
        metal: capped(stock.metal + served * REFINER_METAL_PRODUCTION),
        ..stock
    }
}

/// How many of `units` miners the stock can supply with electricity.
pub open spec fn miners_served(stock: Stock, units: int) -> int {
    least(units, stock.electricity / (MINER_ELECTRICITY_CONSUMPTION as int))
}

/// The stock once `units` miners had their turn: each miner that is served
/// takes its electricity and adds its ore.
pub open spec fn after_miners(stock: Stock, units: int) -> Stock {
    let served = miners_served(stock, units);
    Stock {
        electricity: stock.electricity - served * MINER_ELECTRICITY_CONSUMPTION,
        ore: capped(stock.ore + served * MINER_ORE_PRODUCTION),
        ..stock
    }
}

/// The stock after one time step with the buildings of `fleet`: collectors,
/// satellite factories, refiners and miners, in this order. Launchers take no
/// part.
pub open spec fn stock_after_tick(stock: Stock, fleet: Fleet) -> Stock {
    let fed = after_collectors(stock, fleet.collectors);
    let assembled = after_factories(fed, fleet.satellite_factories);
    let refined = after_refiners(assembled, fleet.refiners);
    after_miners(refined, fleet.miners)
}

/// The economy after one time step: the stock moves, the buildings stay.
pub open spec fn after_tick(economy: Economy) -> Economy {
    Economy { stock: stock_after_tick(economy.stock, economy.fleet), fleet: economy.fleet }
}

/// `amount` and `units` times `yield_per_unit`, as far as a counter can hold
/// the sum.
fn capped_sum(amount: u32, units: u32, yield_per_unit: u32) -> (sum: u32)
    ensures
        sum == capped(amount + units * yield_per_unit),
{
    assert(0 <= units * yield_per_unit <= 0xffff_ffff * 0xffff_ffff) by (nonlinear_arith)
        requires
            0 <= units <= 0xffff_ffff,
            0 <= yield_per_unit <= 0xffff_ffff,
    ;
    let wide: u64 = amount as u64 + units as u64 * yield_per_unit as u64;
    if wide > u32::MAX as u64 {
        u32::MAX
    } else {
        wide as u32
    }
}

/// The smaller of two counters.
fn smaller(a: u32, b: u32) -> (least_of_both: u32)
    ensures
        least_of_both == least(a as int, b as int),
{
    if a <= b {
        a
    } else {
        b
    }
}

/// Lets `units` solar collectors feed the stock.
fn run_collectors(stock: &mut Resources, units: u32)
    ensures
        final(stock)@ == after_collectors(old(stock)@, units as int),
{
    stock.electricity = capped_sum(stock.electricity, units, COLLECTOR_ELECTRICITY_PRODUCTION);
}

/// Gives `units` satellite factories their turn.
fn run_factories(stock: &mut Resources, units: u32)
    ensures
        final(stock)@ == after_factories(old(stock)@, units as int),
{
    let by_electricity: u32 = stock.electricity / SATELLITE_FACTORY_ELECTRICITY_CONSUMPTION;
    let by_metal: u32 = stock.metal / SATELLITE_FACTORY_METAL_CONSUMPTION;
    let served: u32 = smaller(units, smaller(by_electricity, by_metal));
    stock.electricity = stock.electricity - served * SATELLITE_FACTORY_ELECTRICITY_CONSUMPTION;
    stock.metal = stock.metal - served * SATELLITE_FACTORY_METAL_CONSUMPTION;
    stock.satellites = capped_sum(stock.satellites, served, 1);
}

/// Gives `units` refiners their turn, one after the other, and stops at the
/// first that the stock cannot supply: no later one could be supplied either.
fn run_refiners(stock: &mut Resources, units: u32)
    ensures
        final(stock)@ == after_refiners(old(stock)@, units as int),
{
    let ghost before = stock@;
    let mut done: u32 = 0;
    while done < units
        invariant_except_break
            done <= units,
            done <= refiners_served(before, units as int),
            stock@ == after_refiners(before, done as int),
        ensures
            stock@ == after_refiners(before, units as int),
        decreases units - done,
    {
        if stock.ore >= REFINER_ORE_CONSUMPTION && stock.electricity
            >= REFINER_ELECTRICITY_CONSUMPTION {
            stock.metal = stock.metal.saturating_add(REFINER_METAL_PRODUCTION);
            stock.electricity = stock.electricity - REFINER_ELECTRICITY_CONSUMPTION;
            stock.ore = stock.ore - REFINER_ORE_CONSUMPTION;
            done = done + 1;
        } else {
            break ;
        }
    }
}

/// Gives `units` miners their turn.
fn run_miners(stock: &mut Resources, units: u32)
    ensures
        final(stock)@ == after_miners(old(stock)@, units as int),
{
    let by_electricity: u32 = stock.electricity / MINER_ELECTRICITY_CONSUMPTION;
    let served: u32 = smaller(units, by_electricity);
    stock.electricity = stock.electricity - served * MINER_ELECTRICITY_CONSUMPTION;
    stock.ore = capped_sum(stock.ore, served, MINER_ORE_PRODUCTION);
}

impl State {
    /// One time step: the state in which the buildings have produced and
    /// consumed what the stock let them. The buildings themselves stay as
    /// they are. Where a stockpile would grow past what a counter holds, it
    /// stays at that bound.
    pub fn tick(&self) -> (next: State)
        ensures
            next@ == after_tick(self@),
            next.buildings == self.buildings,
            self@.fleet.is_empty() ==> next == *self,
    {
        let mut stock = self.resources;
        run_collectors(&mut stock, self.buildings.collectors);
        run_factories(&mut stock, self.buildings.satellite_factories);
        run_refiners(&mut stock, self.buildings.refiners);
        run_miners(&mut stock, self.buildings.miners);
        State { resources: stock, buildings: self.buildings }
    }
}

/// A time step leaves every building count as it was.
pub proof fn tick_keeps_buildings(economy: Economy)
    ensures
        after_tick(economy).fleet == economy.fleet,
{
}

/// A time step never takes more than is there, nor stores more than a counter
/// holds: from amounts that are not negative and fit, it leads to such
/// amounts.
pub proof fn tick_keeps_stock_in_range(economy: Economy)
    requires
        economy.fits(),
    ensures
        after_tick(economy).fits(),
        after_tick(economy).stock.electricity >= 0,
        after_tick(economy).stock.ore >= 0,
        after_tick(economy).stock.metal >= 0,
        after_tick(economy).stock.satellites >= 0,
{
}

/// Where no building stands, a time step changes nothing.
pub proof fn tick_without_buildings_changes_nothing(economy: Economy)
    requires
        economy.fits(),
        economy.fleet.is_empty(),
    ensures
        after_tick(economy) == economy,
{
}

/// Where only solar collectors stand, a time step adds their electricity and
/// changes nothing else.
pub proof fn tick_with_collectors_only(economy: Economy)
    requires
        economy.fits(),
        economy.fleet.miners == 0,
        economy.fleet.refiners == 0,
        economy.fleet.satellite_factories == 0,
    ensures
        after_tick(economy).stock == (Stock {
            electricity: capped(
                economy.stock.electricity + economy.fleet.collectors
                    * COLLECTOR_ELECTRICITY_PRODUCTION,
            ),
            ..economy.stock
        }),
        after_tick(economy).fleet == economy.fleet,
{
}

/// Each kind is served as far as the stock reaches and no further: the
/// number served is within the number that stand, its whole demand is in
/// stock, and where a building is left unserved, the stock falls short of
/// the demand of one more.
pub proof fn served_as_far_as_stock_reaches(stock: Stock, units: int)
    requires
        stock.fits(),
        units >= 0,
    ensures
        ({
            let served = factories_served(stock, units);
            &&& 0 <= served <= units
            &&& served * SATELLITE_FACTORY_ELECTRICITY_CONSUMPTION <= stock.electricity
            &&& served * SATELLITE_FACTORY_METAL_CONSUMPTION <= stock.metal
            &&& served < units ==> (served + 1) * SATELLITE_FACTORY_ELECTRICITY_CONSUMPTION
                > stock.electricity || (served + 1) * SATELLITE_FACTORY_METAL_CONSUMPTION
                > stock.metal
        }),
        ({
            let served = refiners_served(stock, units);
            &&& 0 <= served <= units
            &&& served * REFINER_ELECTRICITY_CONSUMPTION <= stock.electricity
            &&& served * REFINER_ORE_CONSUMPTION <= stock.ore
            &&& served < units ==> (served + 1) * REFINER_ELECTRICITY_CONSUMPTION
                > stock.electricity || (served + 1) * REFINER_ORE_CONSUMPTION > stock.ore
        }),
        ({
            let served = miners_served(stock, units);
            &&& 0 <= served <= units
            &&& served * MINER_ELECTRICITY_CONSUMPTION <= stock.electricity
            &&& served < units ==> (served + 1) * MINER_ELECTRICITY_CONSUMPTION
                > stock.electricity
        }),
{
}

} // verus!
