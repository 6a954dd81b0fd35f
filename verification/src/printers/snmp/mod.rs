//! How a printer is reached over SNMP: its address, community and the object
//! identifiers of its counters and controls.
use vstd::prelude::*;

pub mod counter;

use crate::printers::snmp::counter::CounterOids;
use crate::text::{chars_of, parse_unsigned, parse_unsigned_chars, split, split_chars, views};

verus! {

/// The largest value of a `u64`.
pub open spec fn max_u64() -> nat {
    18446744073709551615
}

/// The components of a dotted object identifier such as `1.3.6.1.2`.
pub open spec fn oid_parts(oid: Seq<char>) -> Seq<Seq<char>> {
    split(oid, '.')
}

/// Every component of the identifier is a `u64`.
pub open spec fn oid_is_valid(oid: Seq<char>) -> bool {
    forall|i: int|
        0 <= i < oid_parts(oid).len() ==> #[trigger] parse_unsigned(oid_parts(oid)[i], max_u64())
            is Some
}

/// The numbers of a valid dotted object identifier.
pub open spec fn oid_numbers(oid: Seq<char>) -> Seq<u64> {
    oid_parts(oid).map_values(|p: Seq<char>| parse_unsigned(p, max_u64())->0 as u64)
}

/// Reads a dotted object identifier into its numbers.
pub fn vec_from_oid_str(oid: &str) -> (res: Vec<u64>)
    requires
        oid_is_valid(oid@),
    ensures
        res@ =~= oid_numbers(oid@),
{
    match checked_vec_from_oid_str(oid) {
        Some(v) => v,
        None => Vec::new(),
    }
}

/// Reads a dotted object identifier into its numbers, or `None` when a
/// component is not a `u64`.
pub fn checked_vec_from_oid_str(oid: &str) -> (res: Option<Vec<u64>>)
    ensures
        match res {
            Some(v) => oid_is_valid(oid@) && v@ == oid_numbers(oid@),
            None => !oid_is_valid(oid@),
        },
{
    let chars = chars_of(oid);
    let parts = split_chars(&chars, '.');
    let mut res: Vec<u64> = Vec::new();
    let mut i: usize = 0;
    while i < parts.len()
        invariant
            i <= parts.len(),
            views(parts@) == oid_parts(oid@),
            forall|k: int| 0 <= k < i ==> #[trigger] parse_unsigned(oid_parts(oid@)[k], max_u64()) is Some,
            res@ =~= oid_numbers(oid@).take(i as int),
        decreases parts.len() - i,
    {
        assert(parts[i as int]@ == oid_parts(oid@)[i as int]);
        match parse_unsigned_chars(&parts[i], 18446744073709551615) {
            Some(v) => {
                res.push(v);
            },
            None => {
                assert(parse_unsigned(oid_parts(oid@)[i as int], max_u64()) is None);
                return None;
            },
        }
        i = i + 1;
    }
    assert(res@ =~= oid_numbers(oid@));
    Some(res)
}

/// The stored counter identifiers of a printer model, as text.
#[derive(Debug, Clone)]
pub struct Counter {
    pub total: String,
    pub print_black: String,
    pub print_color: Option<String>,
    pub copy_black: String,
    pub copy_color: Option<String>,
}

/// The stored queue control of a printer model.
#[derive(Debug, Clone)]
pub struct QueueCtl {
    pub oid: String,
    pub cancel: i32,
    pub clear: i32,
}

/// The stored energy control of a printer model.
#[derive(Debug, Clone)]
pub struct EnergyCtl {
    pub oid: String,
    pub wake: i32,
    pub sleep: i32,
}

/// The object to set for cancelling or clearing the print queue, and the
/// values that do it.
#[derive(Debug, Clone)]
pub struct QueueControl {
    pub oid: Vec<u64>,
    pub cancel: i32,
    pub clear: i32,
}

/// The object to set for waking a printer or sending it to sleep, and the
/// values that do it.
#[derive(Debug, Clone)]
pub struct EnergyControl {
    pub oid: Vec<u64>,
    pub wake: i32,
    pub sleep: i32,
}

impl QueueControl {
    pub fn from(queue_ctl: QueueCtl) -> (res: QueueControl)
        requires
            oid_is_valid(queue_ctl.oid@),
        ensures
            res.oid@ == oid_numbers(queue_ctl.oid@),
            res.cancel == queue_ctl.cancel,
            res.clear == queue_ctl.clear,
    {
        QueueControl {
            oid: vec_from_oid_str(queue_ctl.oid.as_str()),
            cancel: queue_ctl.cancel,
            clear: queue_ctl.clear,
        }
    }
}

impl EnergyControl {
    pub fn from(energy_ctl: EnergyCtl) -> (res: EnergyControl)
        requires
            oid_is_valid(energy_ctl.oid@),
        ensures
            res.oid@ == oid_numbers(energy_ctl.oid@),
            res.wake == energy_ctl.wake,
            res.sleep == energy_ctl.sleep,
    {
        EnergyControl {
            oid: vec_from_oid_str(energy_ctl.oid.as_str()),
            wake: energy_ctl.wake,
            sleep: energy_ctl.sleep,
        }
    }
}

pub open spec fn optional_oid_is_valid(oid: Option<String>) -> bool {
    match oid {
        Some(s) => oid_is_valid(s@),
        None => true,
    }
}

pub open spec fn optional_oid_numbers(oid: Option<String>) -> Option<Seq<u64>> {
    match oid {
        Some(s) => Some(oid_numbers(s@)),
        None => None,
    }
}

pub open spec fn optional_oid_view(oid: Option<Vec<u64>>) -> Option<Seq<u64>> {
    match oid {
        Some(v) => Some(v@),
        None => None,
    }
}

/// Every stored identifier of the counters is valid.
pub open spec fn counter_is_valid(row: Counter) -> bool {
    &&& oid_is_valid(row.total@)
    &&& oid_is_valid(row.print_black@)
    &&& optional_oid_is_valid(row.print_color)
    &&& oid_is_valid(row.copy_black@)
    &&& optional_oid_is_valid(row.copy_color)
}

fn optional_oid(oid: &Option<String>) -> (res: Option<Vec<u64>>)
    requires
        optional_oid_is_valid(*oid),
    ensures
        optional_oid_view(res) == optional_oid_numbers(*oid),
{
    match oid {
        Some(s) => Some(vec_from_oid_str(s.as_str())),
        None => None,
    }
}

/// Everything needed to talk to one printer.
#[derive(Debug, Clone)]
pub struct PrinterInterface {
    pub ip: String,
    pub community: String,
    pub counter: CounterOids,
    pub queue_ctl: QueueControl,
    pub energy_ctl: EnergyControl,
}

impl PrinterInterface {
    /// The interface from the stored rows of a printer and its model.
    pub fn from_rows(
        row: Counter,
        queue_ctl: QueueCtl,
        energy_ctl: EnergyCtl,
        community: String,
        ip: String,
    ) -> (res: PrinterInterface)
        requires
            counter_is_valid(row),
            oid_is_valid(queue_ctl.oid@),
            oid_is_valid(energy_ctl.oid@),
        ensures
            res.ip == ip,
            res.community == community,
            res.counter.total@ == oid_numbers(row.total@),
            res.counter.print_black@ == oid_numbers(row.print_black@),
            optional_oid_view(res.counter.print_color) == optional_oid_numbers(row.print_color),
            res.counter.copy_black@ == oid_numbers(row.copy_black@),
            optional_oid_view(res.counter.copy_color) == optional_oid_numbers(row.copy_color),
            res.queue_ctl.oid@ == oid_numbers(queue_ctl.oid@),
            res.queue_ctl.cancel == queue_ctl.cancel,
            res.queue_ctl.clear == queue_ctl.clear,
            res.energy_ctl.oid@ == oid_numbers(energy_ctl.oid@),
            res.energy_ctl.wake == energy_ctl.wake,
            res.energy_ctl.sleep == energy_ctl.sleep,
    {
        PrinterInterface {
            ip,
            community,
            counter: CounterOids {
                total: vec_from_oid_str(row.total.as_str()),
                print_black: vec_from_oid_str(row.print_black.as_str()),
                print_color: optional_oid(&row.print_color),
                copy_black: vec_from_oid_str(row.copy_black.as_str()),
                copy_color: optional_oid(&row.copy_color),
            },
            queue_ctl: QueueControl::from(queue_ctl),
            energy_ctl: EnergyControl::from(energy_ctl),
        }
    }
}

} // verus!
