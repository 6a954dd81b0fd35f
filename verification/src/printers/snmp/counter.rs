//! Page counters of a printer as read over SNMP.
use vstd::prelude::*;

verus! {

/// The object identifiers of a printer model's page counters.
#[derive(Debug, Clone)]
pub struct CounterOids {
    pub total: Vec<u64>,
    pub print_black: Vec<u64>,
    pub print_color: Option<Vec<u64>>,
    pub copy_black: Vec<u64>,
    pub copy_color: Option<Vec<u64>>,
}

/// Counter values; the colour counters exist on colour printers only.
#[derive(Debug, Clone, Copy)]
pub struct CounterValues {
    pub total: u64,
    pub print_black: u64,
    pub print_color: Option<u64>,
    pub copy_black: u64,
    pub copy_color: Option<u64>,
}

/// The difference of two optional counters: known only when both are.
pub open spec fn optional_difference(a: Option<u64>, b: Option<u64>) -> Option<u64> {
    match (a, b) {
        (Some(x), Some(y)) => Some((x - y) as u64),
        _ => None,
    }
}

pub open spec fn optional_at_least(a: Option<u64>, b: Option<u64>) -> bool {
    match (a, b) {
        (Some(x), Some(y)) => x >= y,
        _ => true,
    }
}

/// Every counter of `a` is at least the counter of `b`.
pub open spec fn counters_at_least(a: CounterValues, b: CounterValues) -> bool {
    &&& a.total >= b.total
    &&& a.print_black >= b.print_black
    &&& a.copy_black >= b.copy_black
    &&& optional_at_least(a.print_color, b.print_color)
    &&& optional_at_least(a.copy_color, b.copy_color)
}

impl CounterValues {
    /// The pages counted between two readings, counter by counter.
    pub fn sub(self, other: CounterValues) -> (res: CounterValues)
        requires
            counters_at_least(self, other),
        ensures
            res.total == self.total - other.total,
            res.print_black == self.print_black - other.print_black,
            res.copy_black == self.copy_black - other.copy_black,
            res.print_color == optional_difference(self.print_color, other.print_color),
            res.copy_color == optional_difference(self.copy_color, other.copy_color),
    {
        let total = self.total - other.total;
        let print_black = self.print_black - other.print_black;
        let copy_black = self.copy_black - other.copy_black;
        let print_color = match (self.print_color, other.print_color) {
            (Some(some), Some(other)) => Some(some - other),
            _ => None,
        };
        let copy_color = match (self.copy_color, other.copy_color) {
            (Some(some), Some(other)) => Some(some - other),
            _ => None,
        };
        CounterValues { total, print_black, copy_black, print_color, copy_color }
    }
}

} // verus!
