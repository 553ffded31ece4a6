//! The state of a game: what is in stock and what has been built.
//!
//! Every counter is a `u32`. Contracts speak of a state through its view, in
//! which each counter is an unbounded integer, so that a rule can be written
//! down as plain arithmetic and the bound of the counters shows up only where
//! a rule has to respect it.

use vstd::prelude::*;

verus! {

/// Electricity that one solar collector adds in a time step.
pub const COLLECTOR_ELECTRICITY_PRODUCTION: u32 = 1;

/// Electricity that one miner needs to work for a time step.
pub const MINER_ELECTRICITY_CONSUMPTION: u32 = 15;

/// Ore that one working miner adds in a time step.
pub const MINER_ORE_PRODUCTION: u32 = 10;

/// Electricity that one refiner needs to work for a time step.
pub const REFINER_ELECTRICITY_CONSUMPTION: u32 = 50;

/// Ore that one refiner needs to work for a time step.
pub const REFINER_ORE_CONSUMPTION: u32 = 5;

/// Metal that one working refiner adds in a time step.
pub const REFINER_METAL_PRODUCTION: u32 = 1;

/// Electricity that one satellite factory needs to work for a time step.
pub const SATELLITE_FACTORY_ELECTRICITY_CONSUMPTION: u32 = 45;

/// Metal that one satellite factory needs to work for a time step.
pub const SATELLITE_FACTORY_METAL_CONSUMPTION: u32 = 15;

/// Metal that a solar collector costs.
pub const COLLECTOR_BUILD_COST: u32 = 2;

/// Metal that a miner costs.
pub const MINER_BUILD_COST: u32 = 35;

/// Metal that a refiner costs.
pub const REFINER_BUILD_COST: u32 = 20;

/// Metal that a satellite factory costs.
pub const SATELLITE_FACTORY_BUILD_COST: u32 = 50;

/// Metal that a launcher costs.
pub const LAUNCHER_BUILD_COST: u32 = 100;

/// The kinds of resource that are kept in stock.
#[derive(Debug, Copy, Clone, PartialEq, Eq, Structural)]
pub enum Resource {
    Electricity,
    Ore,
    Metal,
    Satellite,
}

/// The kinds of building.
///
/// A launcher can be built and is counted, but takes no part in a time step.
#[derive(Debug, Copy, Clone, PartialEq, Eq, Structural)]
pub enum Building {
    SolarCollector,
    Miner,
    Refiner,
    SatelliteFactory,
    Launcher,
}

/// What is in stock of each resource.
#[derive(Debug, Copy, Clone, PartialEq, Eq, Structural)]
pub struct Resources {
    pub electricity: u32,
    pub ore: u32,
    pub metal: u32,
    pub satellites: u32,
}

/// How many buildings of each kind stand.
#[derive(Debug, Copy, Clone, PartialEq, Eq, Structural)]
pub struct Buildings {
    pub collectors: u32,
    pub miners: u32,
    pub refiners: u32,
    pub satellite_factories: u32,
    pub launchers: u32,
}

/// The whole state of a game. Nothing else is remembered between two calls.
#[derive(Debug, Copy, Clone, PartialEq, Eq, Structural)]
pub struct State {
    pub resources: Resources,
    pub buildings: Buildings,
}

/// The largest amount that a stockpile or a building counter can hold.
pub open spec fn limit() -> int {
    u32::MAX as int
}

/// `amount`, or the largest amount that can be held where `amount` is more.
pub open spec fn capped(amount: int) -> int {
    if amount > limit() {
        limit()
    } else {
        amount
    }
}

/// Whether a counter can hold `amount`.
pub open spec fn holdable(amount: int) -> bool {
    0 <= amount <= limit()
}

/// A stock of resources, each amount an unbounded integer.
pub struct Stock {
    pub electricity: int,
    pub ore: int,
    pub metal: int,
    pub satellites: int,
}

/// A set of buildings, each count an unbounded integer.
pub struct Fleet {
    pub collectors: int,
    pub miners: int,
    pub refiners: int,
    pub satellite_factories: int,
    pub launchers: int,
}

/// A stock and a set of buildings: what a [`State`] stands for.
pub struct Economy {
    pub stock: Stock,
    pub fleet: Fleet,
}

impl Stock {
    /// Whether a `Resources` value can hold these amounts.
    pub open spec fn fits(self) -> bool {
        &&& holdable(self.electricity)
        &&& holdable(self.ore)
        &&& holdable(self.metal)
        &&& holdable(self.satellites)
    }

    /// The amount in stock of one kind of resource.
    pub open spec fn amount(self, kind: Resource) -> int {
        match kind {
            Resource::Electricity => self.electricity,
            Resource::Ore => self.ore,
            Resource::Metal => self.metal,
            Resource::Satellite => self.satellites,
        }
    }
}

impl Fleet {
    /// Whether a `Buildings` value can hold these counts.
    pub open spec fn fits(self) -> bool {
        &&& holdable(self.collectors)
        &&& holdable(self.miners)
        &&& holdable(self.refiners)
        &&& holdable(self.satellite_factories)
        &&& holdable(self.launchers)
    }

    /// Whether no building of any kind stands.
    pub open spec fn is_empty(self) -> bool {
        &&& self.collectors == 0
        &&& self.miners == 0
        &&& self.refiners == 0
        &&& self.satellite_factories == 0
        &&& self.launchers == 0
    }

    /// The number of buildings of one kind.
    pub open spec fn count(self, kind: Building) -> int {
        match kind {
            Building::SolarCollector => self.collectors,
            Building::Miner => self.miners,
            Building::Refiner => self.refiners,
            Building::SatelliteFactory => self.satellite_factories,
            Building::Launcher => self.launchers,
        }
    }

    /// The same set with the count of one kind replaced.
    pub open spec fn with_count(self, kind: Building, count: int) -> Fleet {
        match kind {
            Building::SolarCollector => Fleet { collectors: count, ..self },
            Building::Miner => Fleet { miners: count, ..self },
            Building::Refiner => Fleet { refiners: count, ..self },
            Building::SatelliteFactory => Fleet { satellite_factories: count, ..self },
            Building::Launcher => Fleet { launchers: count, ..self },
        }
    }
}

impl Economy {
    /// Whether a `State` can hold this economy.
    pub open spec fn fits(self) -> bool {
        self.stock.fits() && self.fleet.fits()
    }
}

impl View for Resources {
    type V = Stock;

    open spec fn view(&self) -> Stock {
        Stock {
            electricity: self.electricity as int,
            ore: self.ore as int,
            metal: self.metal as int,
            satellites: self.satellites as int,
        }
    }
}

impl View for Buildings {
    type V = Fleet;

    open spec fn view(&self) -> Fleet {
        Fleet {
            collectors: self.collectors as int,
            miners: self.miners as int,
            refiners: self.refiners as int,
            satellite_factories: self.satellite_factories as int,
            launchers: self.launchers as int,
        }
    }
}

impl View for State {
    type V = Economy;

    open spec fn view(&self) -> Economy {
        Economy { stock: self.resources@, fleet: self.buildings@ }
    }
}

/// The view of a state fits, and two states with the same view are the same
/// state: a contract that fixes the view of a result fixes the result.
pub proof fn view_is_faithful(a: State, b: State)
    ensures
        a@.fits(),
        a@ == b@ ==> a == b,
{
}

/// The metal that a building of the given kind costs.
pub open spec fn cost_of(kind: Building) -> int {
    match kind {
        Building::SolarCollector => COLLECTOR_BUILD_COST as int,
        Building::Miner => MINER_BUILD_COST as int,
        Building::Refiner => REFINER_BUILD_COST as int,
        Building::SatelliteFactory => SATELLITE_FACTORY_BUILD_COST as int,
        Building::Launcher => LAUNCHER_BUILD_COST as int,
    }
}

impl Economy {
    /// The economy with one more building of the given kind, free of charge.
    /// A count that already is the largest that a counter holds stays there.
    pub open spec fn with_added(self, kind: Building) -> Economy {
        Economy {
            stock: self.stock,
            fleet: self.fleet.with_count(kind, capped(self.fleet.count(kind) + 1)),
        }
    }

    /// Whether the metal in stock pays for a building of the given kind.
    pub open spec fn affords(self, kind: Building) -> bool {
        self.stock.metal >= cost_of(kind)
    }

    /// The economy after an order for a building of the given kind: where
    /// the metal in stock pays for it, the price is taken and the building
    /// added; where it does not, nothing changes.
    pub open spec fn with_built(self, kind: Building) -> Economy {
        if self.affords(kind) {
            Economy {
                stock: Stock { metal: self.stock.metal - cost_of(kind), ..self.stock },
                fleet: self.fleet.with_count(kind, capped(self.fleet.count(kind) + 1)),
            }
        } else {
            self
        }
    }
}

/// The metal that a building of the given kind costs.
pub fn build_cost(kind: Building) -> (cost: u32)
    ensures
        cost == cost_of(kind),
{
    match kind {
        Building::SolarCollector => COLLECTOR_BUILD_COST,
        Building::Miner => MINER_BUILD_COST,
        Building::Refiner => REFINER_BUILD_COST,
        Building::SatelliteFactory => SATELLITE_FACTORY_BUILD_COST,
        Building::Launcher => LAUNCHER_BUILD_COST,
    }
}

impl Buildings {
    /// No building of any kind.
    pub fn new() -> (buildings: Buildings)
        ensures
            buildings@.is_empty(),
    {
        Buildings { collectors: 0, miners: 0, refiners: 0, satellite_factories: 0, launchers: 0 }
    }

    /// The number of buildings of the given kind.
    pub fn count(&self, kind: Building) -> (count: u32)
        ensures
            count == self@.count(kind),
    {
        match kind {
            Building::SolarCollector => self.collectors,
            Building::Miner => self.miners,
            Building::Refiner => self.refiners,
            Building::SatelliteFactory => self.satellite_factories,
            Building::Launcher => self.launchers,
        }
    }

    /// The same buildings and one more of the given kind, as far as the
    /// counter holds it.
    pub fn with_one_more(self, kind: Building) -> (more: Buildings)
        ensures
            more@ == self@.with_count(kind, capped(self@.count(kind) + 1)),
    {
        match kind {
            Building::SolarCollector => Buildings {
                collectors: self.collectors.saturating_add(1),
                ..self
            },
            Building::Miner => Buildings { miners: self.miners.saturating_add(1), ..self },
            Building::Refiner => Buildings { refiners: self.refiners.saturating_add(1), ..self },
            Building::SatelliteFactory => Buildings {
                satellite_factories: self.satellite_factories.saturating_add(1),
                ..self
            },
            Building::Launcher => Buildings { launchers: self.launchers.saturating_add(1), ..self },
        }
    }
}

impl Resources {
    /// The amount in stock of the given kind of resource.
    pub fn amount(&self, kind: Resource) -> (amount: u32)
        ensures
            amount == self@.amount(kind),
    {
        match kind {
            Resource::Electricity => self.electricity,
            Resource::Ore => self.ore,
            Resource::Metal => self.metal,
            Resource::Satellite => self.satellites,
        }
    }
}

impl State {
    /// An empty stock and no building.
    pub fn new() -> (state: State)
        ensures
            state@.fleet.is_empty(),
            state@.stock == (Stock { electricity: 0, ore: 0, metal: 0, satellites: 0 }),
    {
        State {
            resources: Resources { electricity: 0, ore: 0, metal: 0, satellites: 0 },
            buildings: Buildings::new(),
        }
    }

    /// Adds a building of the given kind without charging for it.
    pub fn add(self, kind: Building) -> (next: State)
        ensures
            next@ == self@.with_added(kind),
            next.resources == self.resources,
    {
        State { resources: self.resources, buildings: self.buildings.with_one_more(kind) }
    }

    /// Orders a building of the given kind. Where the metal in stock pays for
    /// it, the price is taken and the building added; where it does not, the
    /// state comes back unchanged.
    pub fn build(self, kind: Building) -> (next: State)
        ensures
            next@ == self@.with_built(kind),
            !self@.affords(kind) ==> next == self,
    {
        let cost = build_cost(kind);
        if self.resources.metal >= cost {
            State {
                resources: Resources { metal: self.resources.metal - cost, ..self.resources },
                buildings: self.buildings.with_one_more(kind),
            }
        } else {
            self
        }
    }

    /// Adds a solar collector without charging for it.
    pub fn add_collector(self) -> (next: State)
        ensures
            next@ == self@.with_added(Building::SolarCollector),
    {
        self.add(Building::SolarCollector)
    }

    /// Adds a miner without charging for it.
    pub fn add_miner(self) -> (next: State)
        ensures
            next@ == self@.with_added(Building::Miner),
    {
        self.add(Building::Miner)
    }

    /// Adds a refiner without charging for it.
    pub fn add_refiner(self) -> (next: State)
        ensures
            next@ == self@.with_added(Building::Refiner),
    {
        self.add(Building::Refiner)
    }

    /// Adds a satellite factory without charging for it.
    pub fn add_satellite_factory(self) -> (next: State)
        ensures
            next@ == self@.with_added(Building::SatelliteFactory),
    {
        self.add(Building::SatelliteFactory)
    }

    /// Adds a launcher without charging for it.
    pub fn add_launcher(self) -> (next: State)
        ensures
            next@ == self@.with_added(Building::Launcher),
    {
        self.add(Building::Launcher)
    }

    /// Orders a solar collector: see [`State::build`].
    pub fn build_collector(self) -> (next: State)
        ensures
            next@ == self@.with_built(Building::SolarCollector),
            self.resources.metal < COLLECTOR_BUILD_COST ==> next == self,
    {
        self.build(Building::SolarCollector)
    }

    /// Orders a miner: see [`State::build`].
    pub fn build_miner(self) -> (next: State)
        ensures
            next@ == self@.with_built(Building::Miner),
            self.resources.metal < MINER_BUILD_COST ==> next == self,
    {
        self.build(Building::Miner)
    }

    /// Orders a refiner: see [`State::build`].
    pub fn build_refiner(self) -> (next: State)
        ensures
            next@ == self@.with_built(Building::Refiner),
            self.resources.metal < REFINER_BUILD_COST ==> next == self,
    {
        self.build(Building::Refiner)
    }

    /// Orders a satellite factory: see [`State::build`].
    pub fn build_satellite_factory(self) -> (next: State)
        ensures
            next@ == self@.with_built(Building::SatelliteFactory),
            self.resources.metal < SATELLITE_FACTORY_BUILD_COST ==> next == self,
    {
        self.build(Building::SatelliteFactory)
    }

    /// Orders a launcher: see [`State::build`].
    pub fn build_launcher(self) -> (next: State)
        ensures
            next@ == self@.with_built(Building::Launcher),
            self.resources.metal < LAUNCHER_BUILD_COST ==> next == self,
    {
        self.build(Building::Launcher)
    }
}

/// An order that the metal in stock does not pay for changes nothing.
pub proof fn unaffordable_order_changes_nothing(economy: Economy, kind: Building)
    requires
        economy.stock.metal < cost_of(kind),
    ensures
        economy.with_built(kind) == economy,
{
}

/// An order that the metal in stock pays for takes exactly the price from the
/// metal, adds one building of the kind ordered unless its counter is full,
/// and touches nothing else.
pub proof fn affordable_order_is_carried_out(economy: Economy, kind: Building)
    requires
        economy.fits(),
        economy.stock.metal >= cost_of(kind),
    ensures
        economy.with_built(kind).fits(),
        economy.with_built(kind).stock == (Stock {
            metal: economy.stock.metal - cost_of(kind),
            ..economy.stock
        }),
        economy.fleet.count(kind) < limit() ==> economy.with_built(kind).fleet.count(kind)
            == economy.fleet.count(kind) + 1,
        economy.fleet.count(kind) == limit() ==> economy.with_built(kind).fleet
            == economy.fleet,
        forall|other: Building|
            other != kind ==> economy.with_built(kind).fleet.count(other)
                == economy.fleet.count(other),
{
}

/// An order placed with exactly the price in stock leaves no metal and adds
/// the building.
pub proof fn order_at_exact_price(economy: Economy, kind: Building)
    requires
        economy.fits(),
        economy.stock.metal == cost_of(kind),
        economy.fleet.count(kind) < limit(),
    ensures
        economy.with_built(kind).stock.metal == 0,
        economy.with_built(kind).fleet.count(kind) == economy.fleet.count(kind) + 1,
{
}

/// Adding a building leaves the stock alone and raises one count by one,
/// unless its counter is full.
pub proof fn added_building_is_counted(economy: Economy, kind: Building)
    requires
        economy.fits(),
    ensures
        economy.with_added(kind).fits(),
        economy.with_added(kind).stock == economy.stock,
        economy.fleet.count(kind) < limit() ==> economy.with_added(kind).fleet.count(kind)
            == economy.fleet.count(kind) + 1,
        economy.fleet.count(kind) == limit() ==> economy.with_added(kind) == economy,
        forall|other: Building|
            other != kind ==> economy.with_added(kind).fleet.count(other)
                == economy.fleet.count(other),
{
}

} // verus!
