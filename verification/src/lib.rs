//! The economy of an idle game about harvesting a star: a stockpile of
//! resources, a set of buildings, and the rules by which one time step turns
//! the one into the other.
//!
//! A host holds one [`State`], grows its set of buildings with the `build_..`
//! and `add_..` functions and calls [`State::tick`] once per time step. Every
//! function takes a state and gives a state; nothing is kept between calls.
//!
//! The rules, as they are fixed here:
//! - a game starts with one solar collector, one miner and one refiner, and
//!   with nothing in stock;
//! - a working miner adds 10 ore;
//! - a stockpile or a building counter that would pass the largest `u32`
//!   stays at that value;
//! - an order that the metal in stock pays for is carried out even where the
//!   counter of that kind is full: the price is taken and the count stays.

pub mod chain;
pub mod codec;
pub mod display;
pub mod game;
pub mod turns;

pub use crate::game::{
    Building, Buildings, Resource, Resources, State, COLLECTOR_BUILD_COST,
    COLLECTOR_ELECTRICITY_PRODUCTION, LAUNCHER_BUILD_COST, MINER_BUILD_COST,
    MINER_ELECTRICITY_CONSUMPTION, MINER_ORE_PRODUCTION, REFINER_BUILD_COST,
    REFINER_ELECTRICITY_CONSUMPTION, REFINER_METAL_PRODUCTION, REFINER_ORE_CONSUMPTION,
    SATELLITE_FACTORY_BUILD_COST, SATELLITE_FACTORY_ELECTRICITY_CONSUMPTION,
    SATELLITE_FACTORY_METAL_CONSUMPTION,
};

use crate::game::{Economy, Fleet, Stock};
use vstd::prelude::*;

verus! {

/// The economy that a game starts with: one solar collector, one miner, one
/// refiner, and nothing in stock.
pub open spec fn starting_economy() -> Economy {
    Economy {
        stock: Stock { electricity: 0, ore: 0, metal: 0, satellites: 0 },
        fleet: Fleet { collectors: 1, miners: 1, refiners: 1, satellite_factories: 0, launchers: 0 },
    }
}

/// The state that a game starts with.
pub fn new_game_state() -> (state: State)
    ensures
        state@ == starting_economy(),
{
    State {
        resources: Resources { electricity: 0, ore: 0, metal: 0, satellites: 0 },
        buildings: Buildings {
            collectors: 1,
            miners: 1,
            refiners: 1,
            satellite_factories: 0,
            launchers: 0,
        },
    }
}

} // verus!
