//! Counters as text, for a host that shows them.

use vstd::prelude::*;
use vstd::string::*;
use crate::game::State;

verus! {

/// The character that stands for a digit from 0 to 9.
pub open spec fn digit(value: int) -> char {
    ('0' as int + value) as char
}

/// A number written in base ten: most significant digit first, no sign, no
/// leading zero, and `0` for zero.
pub open spec fn decimal(number: nat) -> Seq<char>
    decreases number,
{
    if number < 10 {
        seq![digit(number as int)]
    } else {
        decimal(number / 10) + seq![digit((number % 10) as int)]
    }
}

/// The number that a run of digits stands for, read in base ten.
pub open spec fn number_of(digits: Seq<char>) -> nat
    decreases digits.len(),
{
    if digits.len() == 0 {
        0
    } else {
        (10 * number_of(digits.drop_last()) + (digits.last() as int - '0' as int)) as nat
    }
}

/// Reading back what was written gives the number that was written, so two
/// numbers are written alike only if they are the same.
pub proof fn decimal_reads_back(number: nat)
    ensures
        number_of(decimal(number)) == number,
        1 <= decimal(number).len(),
    decreases number,
{
    if number < 10 {
        assert(number_of(decimal(number).drop_last()) == 0);
    } else {
        decimal_reads_back(number / 10);
        assert(decimal(number).drop_last() =~= decimal(number / 10));
    }
}

/// A number is written with digits only, and with a leading zero only where
/// it is zero.
pub proof fn decimal_is_plain(number: nat)
    ensures
        forall|i: int|
            0 <= i < decimal(number).len() ==> '0' <= #[trigger] decimal(number)[i] <= '9',
        decimal(number)[0] == '0' ==> number == 0,
    decreases number,
{
    if number >= 10 {
        decimal_is_plain(number / 10);
        decimal_reads_back(number / 10);
    }
}

/// The one-character text of a digit.
fn digit_text(value: u32) -> (text: &'static str)
    requires
        value < 10,
    ensures
        text@ == seq![digit(value as int)],
{
    proof {
        reveal_strlit("0");
        reveal_strlit("1");
        reveal_strlit("2");
        reveal_strlit("3");
        reveal_strlit("4");
        reveal_strlit("5");
        reveal_strlit("6");
        reveal_strlit("7");
        reveal_strlit("8");
        reveal_strlit("9");
    }
    match value {
        0 => "0",
        1 => "1",
        2 => "2",
        3 => "3",
        4 => "4",
        5 => "5",
        6 => "6",
        7 => "7",
        8 => "8",
        _ => "9",
    }
}

/// Writes a counter in base ten.
pub fn decimal_text(number: u32) -> (text: String)
    ensures
        text@ == decimal(number as nat),
    decreases number,
{
    if number < 10 {
        String::from_str(digit_text(number))
    } else {
        let mut text = decimal_text(number / 10);
        text.append(digit_text(number % 10));
        text
    }
}

impl State {
    /// The number of solar collectors, written in base ten.
    pub fn collector_count(&self) -> (text: String)
        ensures
            text@ == decimal(self.buildings.collectors as nat),
    {
        decimal_text(self.buildings.collectors)
    }

    /// The number of miners, written in base ten.
    pub fn miner_count(&self) -> (text: String)
        ensures
            text@ == decimal(self.buildings.miners as nat),
    {
        decimal_text(self.buildings.miners)
    }

    /// The number of refiners, written in base ten.
    pub fn refiner_count(&self) -> (text: String)
        ensures
            text@ == decimal(self.buildings.refiners as nat),
    {
        decimal_text(self.buildings.refiners)
    }

    /// The number of satellite factories, written in base ten.
    pub fn satellite_factory_count(&self) -> (text: String)
        ensures
            text@ == decimal(self.buildings.satellite_factories as nat),
    {
        decimal_text(self.buildings.satellite_factories)
    }

    /// The number of launchers, written in base ten.
    pub fn launcher_count(&self) -> (text: String)
        ensures
            text@ == decimal(self.buildings.launchers as nat),
    {
        decimal_text(self.buildings.launchers)
    }

    /// The electricity in stock, written in base ten.
    pub fn electricity_count(&self) -> (text: String)
        ensures
            text@ == decimal(self.resources.electricity as nat),
    {
        decimal_text(self.resources.electricity)
    }

    /// The ore in stock, written in base ten.
    pub fn ore_count(&self) -> (text: String)
        ensures
            text@ == decimal(self.resources.ore as nat),
    {
        decimal_text(self.resources.ore)
    }

    /// The metal in stock, written in base ten.
    pub fn metal_count(&self) -> (text: String)
        ensures
            text@ == decimal(self.resources.metal as nat),
    {
        decimal_text(self.resources.metal)
    }

    /// The satellites in stock, written in base ten.
    pub fn satellite_count(&self) -> (text: String)
        ensures
            text@ == decimal(self.resources.satellites as nat),
    {
        decimal_text(self.resources.satellites)
    }
}

} // verus!
