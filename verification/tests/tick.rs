use idle_economy::{Buildings, Resources, State};
use idle_economy::{
    COLLECTOR_ELECTRICITY_PRODUCTION, MINER_ELECTRICITY_CONSUMPTION, MINER_ORE_PRODUCTION,
    REFINER_ELECTRICITY_CONSUMPTION, REFINER_METAL_PRODUCTION, REFINER_ORE_CONSUMPTION,
    SATELLITE_FACTORY_ELECTRICITY_CONSUMPTION, SATELLITE_FACTORY_METAL_CONSUMPTION,
};

fn state(stock: [u32; 4], built: [u32; 5]) -> State {
    State {
        resources: Resources {
            electricity: stock[0],
            ore: stock[1],
            metal: stock[2],
            satellites: stock[3],
        },
        buildings: Buildings {
            collectors: built[0],
            miners: built[1],
            refiners: built[2],
            satellite_factories: built[3],
            launchers: built[4],
        },
    }
}

/// A time step gone through one building at a time.
fn tick_by_turns(before: &State) -> State {
    let mut electricity = before.resources.electricity;
    let mut ore = before.resources.ore;
    let mut metal = before.resources.metal;
    let mut satellites = before.resources.satellites;
    for _ in 0..before.buildings.collectors {
        electricity = electricity.saturating_add(COLLECTOR_ELECTRICITY_PRODUCTION);
    }
    for _ in 0..before.buildings.satellite_factories {
        if metal >= SATELLITE_FACTORY_METAL_CONSUMPTION
            && electricity >= SATELLITE_FACTORY_ELECTRICITY_CONSUMPTION
        {
            satellites = satellites.saturating_add(1);
            electricity -= SATELLITE_FACTORY_ELECTRICITY_CONSUMPTION;
            metal -= SATELLITE_FACTORY_METAL_CONSUMPTION;
        }
    }
    for _ in 0..before.buildings.refiners {
        if ore >= REFINER_ORE_CONSUMPTION && electricity >= REFINER_ELECTRICITY_CONSUMPTION {
            metal = metal.saturating_add(REFINER_METAL_PRODUCTION);
            electricity -= REFINER_ELECTRICITY_CONSUMPTION;
            ore -= REFINER_ORE_CONSUMPTION;
        } else {
            break;
        }
    }
    for _ in 0..before.buildings.miners {
        if electricity >= MINER_ELECTRICITY_CONSUMPTION {
            ore = ore.saturating_add(MINER_ORE_PRODUCTION);
            electricity -= MINER_ELECTRICITY_CONSUMPTION;
        }
    }
    State {
        resources: Resources { electricity, ore, metal, satellites },
        buildings: before.buildings,
    }
}

#[test]
fn constants_are_the_documented_ones() {
    assert_eq!(COLLECTOR_ELECTRICITY_PRODUCTION, 1);
    assert_eq!(MINER_ELECTRICITY_CONSUMPTION, 15);
    assert_eq!(MINER_ORE_PRODUCTION, 10);
    assert_eq!(REFINER_ELECTRICITY_CONSUMPTION, 50);
    assert_eq!(REFINER_ORE_CONSUMPTION, 5);
    assert_eq!(REFINER_METAL_PRODUCTION, 1);
    assert_eq!(SATELLITE_FACTORY_ELECTRICITY_CONSUMPTION, 45);
    assert_eq!(SATELLITE_FACTORY_METAL_CONSUMPTION, 15);
}

#[test]
fn tick_keeps_every_building_count() {
    let before = state([500, 12, 31, 7], [3, 2, 5, 4, 9]);
    let after = before.tick();
    assert_eq!(after.buildings, before.buildings);
    let full = state([u32::MAX; 4], [u32::MAX; 5]);
    assert_eq!(full.tick().buildings, full.buildings);
}

#[test]
fn tick_without_buildings_returns_the_input() {
    let before = state([17, 23, 99, 4], [0, 0, 0, 0, 0]);
    assert_eq!(before.tick(), before);
    let empty = State::new();
    assert_eq!(empty.tick(), empty);
    let full = state([u32::MAX; 4], [0; 5]);
    assert_eq!(full.tick(), full);
}

#[test]
fn launchers_take_no_part() {
    let before = state([100, 100, 100, 100], [0, 0, 0, 0, 12]);
    assert_eq!(before.tick(), before);
}

#[test]
fn one_collector_adds_one_electricity() {
    let before = state([0, 0, 0, 0], [1, 0, 0, 0, 0]);
    let after = before.tick();
    assert_eq!(after, state([1, 0, 0, 0], [1, 0, 0, 0, 0]));
}

#[test]
fn collectors_add_one_electricity_each() {
    let after = state([5, 6, 7, 8], [40, 0, 0, 0, 0]).tick();
    assert_eq!(after, state([45, 6, 7, 8], [40, 0, 0, 0, 0]));
}

#[test]
fn miner_waits_until_electricity_suffices() {
    let mut current = state([0, 0, 0, 0], [1, 1, 0, 0, 0]);
    current = current.tick();
    assert_eq!(current.resources.electricity, 1);
    assert_eq!(current.resources.ore, 0);
    for _ in 0..13 {
        current = current.tick();
    }
    assert_eq!(current.resources.electricity, 14);
    assert_eq!(current.resources.ore, 0);
    current = current.tick();
    assert_eq!(current.resources.electricity, 0);
    assert_eq!(current.resources.ore, MINER_ORE_PRODUCTION);
    assert_eq!(current.resources.ore, 10);
    assert_eq!(current.resources.metal, 0);
    assert_eq!(current.resources.satellites, 0);
}

#[test]
fn every_stage_is_served_in_order() {
    // 503 electricity after the collectors; two factories (metal for two);
    // two refiners (ore for two); both miners.
    let after = state([500, 12, 31, 7], [3, 2, 5, 4, 9]).tick();
    assert_eq!(after, state([283, 22, 3, 9], [3, 2, 5, 4, 9]));
}

#[test]
fn factories_are_limited_by_electricity() {
    // 100 electricity serve two factories, though metal would serve three.
    let after = state([100, 0, 45, 0], [0, 0, 0, 5, 0]).tick();
    assert_eq!(after, state([10, 0, 15, 2], [0, 0, 0, 5, 0]));
}

#[test]
fn factories_are_limited_by_metal() {
    let after = state([1000, 0, 44, 1], [0, 0, 0, 5, 0]).tick();
    assert_eq!(after, state([910, 0, 14, 3], [0, 0, 0, 5, 0]));
}

#[test]
fn factories_are_limited_by_their_number() {
    let after = state([1000, 0, 1000, 0], [0, 0, 0, 3, 0]).tick();
    assert_eq!(after, state([865, 0, 955, 3], [0, 0, 0, 3, 0]));
}

#[test]
fn factories_do_not_use_metal_refined_in_the_same_step() {
    // 14 metal is one short; the refiner adds one only after the factories.
    let after = state([200, 5, 14, 0], [0, 0, 1, 1, 0]).tick();
    assert_eq!(after, state([150, 0, 15, 0], [0, 0, 1, 1, 0]));
    let next = after.tick();
    assert_eq!(next, state([105, 0, 0, 1], [0, 0, 1, 1, 0]));
}

#[test]
fn refiners_do_not_use_ore_mined_in_the_same_step() {
    let after = state([65, 0, 0, 0], [0, 1, 1, 0, 0]).tick();
    assert_eq!(after, state([50, 10, 0, 0], [0, 1, 1, 0, 0]));
    let next = after.tick();
    assert_eq!(next, state([0, 5, 1, 0], [0, 1, 1, 0, 0]));
}

#[test]
fn collectors_feed_before_anything_draws() {
    // 44 in stock and one collector make the 45 that the factory needs.
    let after = state([44, 0, 15, 0], [1, 0, 0, 1, 0]).tick();
    assert_eq!(after, state([0, 0, 0, 1], [1, 0, 0, 1, 0]));
}

#[test]
fn refiners_stop_when_ore_runs_out() {
    let after = state([1000, 14, 0, 0], [0, 0, 10, 0, 0]).tick();
    assert_eq!(after, state([900, 4, 2, 0], [0, 0, 10, 0, 0]));
}

#[test]
fn refiners_stop_when_electricity_runs_out() {
    let after = state([149, 100, 0, 0], [0, 0, 10, 0, 0]).tick();
    assert_eq!(after, state([49, 90, 2, 0], [0, 0, 10, 0, 0]));
}

#[test]
fn miners_get_what_refiners_leave() {
    // One refiner takes 50 of 79; the 29 left serve one of three miners.
    let after = state([79, 5, 0, 0], [0, 3, 1, 0, 0]).tick();
    assert_eq!(after, state([14, 10, 1, 0], [0, 3, 1, 0, 0]));
}

#[test]
fn miners_are_limited_by_electricity() {
    let after = state([44, 1, 0, 0], [0, 7, 0, 0, 0]).tick();
    assert_eq!(after, state([14, 21, 0, 0], [0, 7, 0, 0, 0]));
}

#[test]
fn electricity_stays_at_the_bound() {
    let after = state([u32::MAX - 2, 0, 0, 0], [10, 0, 0, 0, 0]).tick();
    assert_eq!(after.resources.electricity, u32::MAX);
    let full = state([u32::MAX, 0, 0, 0], [u32::MAX, 0, 0, 0, 0]).tick();
    assert_eq!(full.resources.electricity, u32::MAX);
}

#[test]
fn ore_stays_at_the_bound() {
    let after = state([150, u32::MAX - 15, 0, 0], [0, 10, 0, 0, 0]).tick();
    assert_eq!(after, state([0, u32::MAX, 0, 0], [0, 10, 0, 0, 0]));
}

#[test]
fn metal_stays_at_the_bound() {
    let after = state([150, 15, u32::MAX - 1, 0], [0, 0, 3, 0, 0]).tick();
    assert_eq!(after, state([0, 0, u32::MAX, 0], [0, 0, 3, 0, 0]));
}

#[test]
fn satellites_stay_at_the_bound() {
    let after = state([135, 0, 45, u32::MAX - 1], [0, 0, 0, 3, 0]).tick();
    assert_eq!(after, state([0, 0, 0, u32::MAX], [0, 0, 0, 3, 0]));
}

#[test]
fn many_buildings_are_served_at_once() {
    let before = state([u32::MAX, u32::MAX, u32::MAX, 0], [u32::MAX; 5]);
    let after = before.tick();
    // 4294967295 / 45 = 95443717 factories draw electricity; what is left,
    // 30 units, serves no refiner and two miners.
    assert_eq!(after.resources.satellites, 95_443_717);
    assert_eq!(after.resources.electricity, 0);
    assert_eq!(after.resources.metal, u32::MAX - 95_443_717 * 15);
    assert_eq!(after.resources.ore, u32::MAX);
    assert_eq!(after.buildings, before.buildings);
}

#[test]
fn tick_agrees_with_going_through_building_by_building() {
    let mut seed: u64 = 0x2545_f491_4f6c_dd1d;
    let mut draw = |bound: u32| -> u32 {
        seed ^= seed << 13;
        seed ^= seed >> 7;
        seed ^= seed << 17;
        (seed % u64::from(bound)) as u32
    };
    for _ in 0..2000 {
        let before = state(
            [draw(600), draw(60), draw(80), draw(10)],
            [draw(20), draw(8), draw(8), draw(8), draw(3)],
        );
        assert_eq!(before.tick(), tick_by_turns(&before));
    }
    for _ in 0..200 {
        let before = state(
            [u32::MAX - draw(300), u32::MAX - draw(40), u32::MAX - draw(40), u32::MAX - draw(4)],
            [draw(400), draw(30), draw(30), draw(30), draw(3)],
        );
        assert_eq!(before.tick(), tick_by_turns(&before));
    }
}

#[test]
fn tick_leaves_its_input_alone() {
    let before = state([500, 12, 31, 7], [3, 2, 5, 4, 9]);
    let copy = before;
    let _ = before.tick();
    assert_eq!(before, copy);
    assert_eq!(before.tick(), before.tick());
}
