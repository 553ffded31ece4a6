//! A state as a record of plain integers, for a host that stores or sends it.
//!
//! The record holds the nine counters in a fixed order: electricity, ore,
//! metal, satellites, then the solar collectors, miners, refiners, satellite
//! factories and launchers. How the integers are written out as text is the
//! host's choice. What comes back from outside is examined here: a record
//! becomes a state only if it has nine fields and a counter can hold each.

use vstd::prelude::*;
use crate::game::{holdable, limit, Building, Buildings, Resource, Resources, State};

verus! {

/// The number of fields in the record of a state.
pub const FIELD_COUNT: usize = 9;

/// One of the nine counters of a state.
#[derive(Debug, Copy, Clone, PartialEq, Eq, Structural)]
pub enum Field {
    Stock(Resource),
    Count(Building),
}

/// Why a record is not the record of any state.
#[derive(Debug, Copy, Clone, PartialEq, Eq, Structural)]
pub enum DecodeError {
    /// The record does not have nine fields.
    FieldCount,
    /// The first field that no counter can hold is below zero.
    Negative(Field),
    /// The first field that no counter can hold is above the largest amount.
    TooLarge(Field),
}

/// The counter that stands at a place of the record.
pub open spec fn field_at(index: int) -> Field {
    if index == 0 {
        Field::Stock(Resource::Electricity)
    } else if index == 1 {
        Field::Stock(Resource::Ore)
    } else if index == 2 {
        Field::Stock(Resource::Metal)
    } else if index == 3 {
        Field::Stock(Resource::Satellite)
    } else if index == 4 {
        Field::Count(Building::SolarCollector)
    } else if index == 5 {
        Field::Count(Building::Miner)
    } else if index == 6 {
        Field::Count(Building::Refiner)
    } else if index == 7 {
        Field::Count(Building::SatelliteFactory)
    } else {
        Field::Count(Building::Launcher)
    }
}

/// What a state holds in one of its counters.
pub open spec fn value_of(state: State, field: Field) -> int {
    match field {
        Field::Stock(kind) => state@.stock.amount(kind),
        Field::Count(kind) => state@.fleet.count(kind),
    }
}

/// The record of a state.
pub open spec fn record_of(state: State) -> Seq<i64> {
    Seq::new(FIELD_COUNT as nat, |index: int| value_of(state, field_at(index)) as i64)
}

/// Whether `index` is the first place of the record whose value no counter
/// can hold.
pub open spec fn is_first_unfit(record: Seq<i64>, index: int) -> bool {
    &&& 0 <= index < record.len()
    &&& !holdable(record[index] as int)
    &&& forall|earlier: int| 0 <= earlier < index ==> holdable(#[trigger] record[earlier] as int)
}

/// Whether a record is the record of some state.
pub open spec fn is_record(record: Seq<i64>) -> bool {
    &&& record.len() == FIELD_COUNT
    &&& forall|index: int| 0 <= index < record.len() ==> holdable(#[trigger] record[index] as int)
}

/// The state whose counters are the fields of a record.
pub open spec fn state_of(record: Seq<i64>) -> State {
    State {
        resources: Resources {
            electricity: record[0] as u32,
            ore: record[1] as u32,
            metal: record[2] as u32,
            satellites: record[3] as u32,
        },
        buildings: Buildings {
            collectors: record[4] as u32,
            miners: record[5] as u32,
            refiners: record[6] as u32,
            satellite_factories: record[7] as u32,
            launchers: record[8] as u32,
        },
    }
}

/// What reading a record gives: the state, where the record is the record of
/// one; else the reason why it is not, which names the first field that no
/// counter can hold.
pub open spec fn decoded(record: Seq<i64>) -> Result<State, DecodeError> {
    if record.len() != FIELD_COUNT {
        Err(DecodeError::FieldCount)
    } else if is_record(record) {
        Ok(state_of(record))
    } else {
        let index = choose|index: int| is_first_unfit(record, index);
        if record[index] < 0 {
            Err(DecodeError::Negative(field_at(index)))
        } else {
            Err(DecodeError::TooLarge(field_at(index)))
        }
    }
}

/// A record has at most one first field that no counter can hold.
pub proof fn first_unfit_is_unique(record: Seq<i64>, index: int, other: int)
    requires
        is_first_unfit(record, index),
        is_first_unfit(record, other),
    ensures
        index == other,
{
    if index < other {
        assert(holdable(record[index] as int));
    } else if other < index {
        assert(holdable(record[other] as int));
    }
}

/// The counter that stands at a place of the record.
fn field_in_place(index: usize) -> (field: Field)
    requires
        index < FIELD_COUNT,
    ensures
        field == field_at(index as int),
{
    if index == 0 {
        Field::Stock(Resource::Electricity)
    } else if index == 1 {
        Field::Stock(Resource::Ore)
    } else if index == 2 {
        Field::Stock(Resource::Metal)
    } else if index == 3 {
        Field::Stock(Resource::Satellite)
    } else if index == 4 {
        Field::Count(Building::SolarCollector)
    } else if index == 5 {
        Field::Count(Building::Miner)
    } else if index == 6 {
        Field::Count(Building::Refiner)
    } else if index == 7 {
        Field::Count(Building::SatelliteFactory)
    } else {
        Field::Count(Building::Launcher)
    }
}

/// Writes a state out as its record.
pub fn encode(state: &State) -> (record: Vec<i64>)
    ensures
        record@ == record_of(*state),
        decoded(record@) == Ok::<State, DecodeError>(*state),
{
    let mut record: Vec<i64> = Vec::new();
    record.push(state.resources.electricity as i64);
    record.push(state.resources.ore as i64);
    record.push(state.resources.metal as i64);
    record.push(state.resources.satellites as i64);
    record.push(state.buildings.collectors as i64);
    record.push(state.buildings.miners as i64);
    record.push(state.buildings.refiners as i64);
    record.push(state.buildings.satellite_factories as i64);
    record.push(state.buildings.launchers as i64);
    assert(record@ =~= record_of(*state));
    proof {
        record_reads_back(*state);
    }
    record
}

/// Reads a state from a record. A record that is the record of a state gives
/// that state; any other is refused, with the first field that stands in the
/// way.
pub fn decode(record: &[i64]) -> (result: Result<State, DecodeError>)
    ensures
        result == decoded(record@),
        result is Ok <==> is_record(record@),
        result matches Ok(state) ==> record@ == record_of(state),
{
    if record.len() != FIELD_COUNT {
        return Err(DecodeError::FieldCount);
    }
    let mut index: usize = 0;
    while index < FIELD_COUNT
        invariant
            index <= FIELD_COUNT,
            record@.len() == FIELD_COUNT,
            forall|earlier: int|
                0 <= earlier < index ==> holdable(#[trigger] record@[earlier] as int),
        decreases FIELD_COUNT - index,
    {
        let value: i64 = record[index];
        if value < 0 || value > u32::MAX as i64 {
            proof {
                assert(is_first_unfit(record@, index as int));
                let chosen = choose|chosen: int| is_first_unfit(record@, chosen);
                first_unfit_is_unique(record@, index as int, chosen);
            }
            let field = field_in_place(index);
            if value < 0 {
                return Err(DecodeError::Negative(field));
            } else {
                return Err(DecodeError::TooLarge(field));
            }
        }
        index = index + 1;
    }
    let state = State {
        resources: Resources {
            electricity: record[0] as u32,
            ore: record[1] as u32,
            metal: record[2] as u32,
            satellites: record[3] as u32,
        },
        buildings: Buildings {
            collectors: record[4] as u32,
            miners: record[5] as u32,
            refiners: record[6] as u32,
            satellite_factories: record[7] as u32,
            launchers: record[8] as u32,
        },
    };
    Ok(state)
}

/// A state that is written out and read back is the same state.
pub proof fn record_reads_back(state: State)
    ensures
        is_record(record_of(state)),
        decoded(record_of(state)) == Ok::<State, DecodeError>(state),
{
}

/// Only the record of a state is read as that state: whatever else a record
/// holds, reading it gives another state or none.
pub proof fn only_its_record_reads_as_state(record: Seq<i64>, state: State)
    requires
        decoded(record) == Ok::<State, DecodeError>(state),
    ensures
        record == record_of(state),
{
    assert(record =~= record_of(state));
}

/// A record is refused exactly if it has the wrong number of fields or a
/// field that no counter can hold, and the reason given says which: the field
/// named is the first such field, and it is called negative or too large as
/// it is.
pub proof fn refusal_names_first_unfit_field(record: Seq<i64>)
    ensures
        decoded(record) is Ok <==> is_record(record),
        decoded(record) == Err::<State, DecodeError>(DecodeError::FieldCount) <==> record.len()
            != FIELD_COUNT,
        forall|field: Field|
            decoded(record) == Err::<State, DecodeError>(DecodeError::Negative(field))
                <==> record.len() == FIELD_COUNT && exists|index: int|
                #![auto]
                is_first_unfit(record, index) && field == field_at(index) && record[index] < 0,
        forall|field: Field|
            decoded(record) == Err::<State, DecodeError>(DecodeError::TooLarge(field))
                <==> record.len() == FIELD_COUNT && exists|index: int|
                #![auto]
                is_first_unfit(record, index) && field == field_at(index) && record[index]
                    > limit(),
{
    if record.len() == FIELD_COUNT && !is_record(record) {
        let unfit = choose|index: int|
            0 <= index < record.len() && !holdable(#[trigger] record[index] as int);
        first_unfit_exists(record, unfit);
        let first = choose|index: int| is_first_unfit(record, index);
        assert forall|index: int| is_first_unfit(record, index) implies index == first by {
            first_unfit_is_unique(record, index, first);
        }
    }
}

/// A record with a field that no counter can hold has a first such field.
pub proof fn first_unfit_exists(record: Seq<i64>, unfit: int)
    requires
        0 <= unfit < record.len(),
        !holdable(record[unfit] as int),
    ensures
        exists|index: int| is_first_unfit(record, index),
    decreases unfit,
{
    if exists|earlier: int| 0 <= earlier < unfit && !holdable(#[trigger] record[earlier] as int) {
        let earlier = choose|earlier: int|
            0 <= earlier < unfit && !holdable(#[trigger] record[earlier] as int);
        first_unfit_exists(record, earlier);
    } else {
        assert(is_first_unfit(record, unfit));
    }
}

} // verus!
