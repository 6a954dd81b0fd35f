//! Changes of a printer's stored details.
use vstd::prelude::*;

verus! {

/// A printer as it is stored.
#[derive(Debug, Clone)]
pub struct Printer {
    pub id: u32,
    pub hostname: String,
    pub ip: String,
    pub community: String,
    pub mac: String,
    pub device_id: u32,
    pub location: String,
    pub has_a3: bool,
    pub coin_operated: bool,
    pub description: String,
    pub watch_toner: bool,
    pub watch_tray1: bool,
    pub watch_tray2: bool,
    pub watch_tray3: bool,
    pub watch_interval: u32,
}

/// A change of some details; the details left `None` stay as they are.
#[derive(Debug, Clone)]
pub struct PrinterUpdate {
    pub hostname: Option<String>,
    pub ip: Option<String>,
    pub community: Option<String>,
    pub mac: Option<String>,
    pub device_id: Option<u32>,
    pub location: Option<String>,
    pub has_a3: Option<bool>,
    pub coin_operated: Option<bool>,
    pub description: Option<String>,
    pub watch_toner: Option<bool>,
    pub watch_tray1: Option<bool>,
    pub watch_tray2: Option<bool>,
    pub watch_tray3: Option<bool>,
    pub watch_interval: Option<u32>,
}

pub open spec fn given_or<T>(update: Option<T>, current: T) -> T {
    match update {
        Some(v) => v,
        None => current,
    }
}

/// The printer after an update: every given detail replaces the stored one,
/// the identifier never changes.
pub open spec fn updated_printer(update: PrinterUpdate, printer: Printer) -> Printer {
    Printer {
        id: printer.id,
        hostname: given_or(update.hostname, printer.hostname),
        ip: given_or(update.ip, printer.ip),
        community: given_or(update.community, printer.community),
        mac: given_or(update.mac, printer.mac),
        device_id: given_or(update.device_id, printer.device_id),
        location: given_or(update.location, printer.location),
        has_a3: given_or(update.has_a3, printer.has_a3),
        coin_operated: given_or(update.coin_operated, printer.coin_operated),
        description: given_or(update.description, printer.description),
        watch_toner: given_or(update.watch_toner, printer.watch_toner),
        watch_tray1: given_or(update.watch_tray1, printer.watch_tray1),
        watch_tray2: given_or(update.watch_tray2, printer.watch_tray2),
        watch_tray3: given_or(update.watch_tray3, printer.watch_tray3),
        watch_interval: given_or(update.watch_interval, printer.watch_interval),
    }
}

fn given_string(update: &Option<String>, current: String) -> (res: String)
    ensures
        res == given_or(*update, current),
{
    match update {
        Some(value) => value.clone(),
        None => current,
    }
}

fn given_value<T: Copy>(update: Option<T>, current: T) -> (res: T)
    ensures
        res == given_or(update, current),
{
    match update {
        Some(value) => value,
        None => current,
    }
}

impl PrinterUpdate {
    /// Applies the update to a printer.
    pub fn update(&self, printer: Printer) -> (res: Printer)
        ensures
            res == updated_printer(*self, printer),
    {
        Printer {
            id: printer.id,
            hostname: given_string(&self.hostname, printer.hostname),
            ip: given_string(&self.ip, printer.ip),
            community: given_string(&self.community, printer.community),
            mac: given_string(&self.mac, printer.mac),
            device_id: given_value(self.device_id, printer.device_id),
            location: given_string(&self.location, printer.location),
            has_a3: given_value(self.has_a3, printer.has_a3),
            coin_operated: given_value(self.coin_operated, printer.coin_operated),
            description: given_string(&self.description, printer.description),
            watch_toner: given_value(self.watch_toner, printer.watch_toner),
            watch_tray1: given_value(self.watch_tray1, printer.watch_tray1),
            watch_tray2: given_value(self.watch_tray2, printer.watch_tray2),
            watch_tray3: given_value(self.watch_tray3, printer.watch_tray3),
            watch_interval: given_value(self.watch_interval, printer.watch_interval),
        }
    }
}


/// Applying an update twice gives what applying it once gives.
pub proof fn lemma_update_idempotent(update: PrinterUpdate, printer: Printer)
    ensures
        updated_printer(update, updated_printer(update, printer)) == updated_printer(update, printer),
{
}

/// An update replaces exactly the details it gives: each given detail becomes
/// the printer's, each detail left `None` stays as stored, and the identifier
/// never changes.
pub proof fn lemma_update_replaces_given_details(update: PrinterUpdate, printer: Printer)
    ensures
        updated_printer(update, printer).id == printer.id,
        update.hostname matches Some(v) ==> updated_printer(update, printer).hostname == v,
        update.hostname is None ==> updated_printer(update, printer).hostname == printer.hostname,
        update.ip matches Some(v) ==> updated_printer(update, printer).ip == v,
        update.ip is None ==> updated_printer(update, printer).ip == printer.ip,
        update.community matches Some(v) ==> updated_printer(update, printer).community == v,
        update.community is None ==> updated_printer(update, printer).community == printer.community,
        update.mac matches Some(v) ==> updated_printer(update, printer).mac == v,
        update.mac is None ==> updated_printer(update, printer).mac == printer.mac,
        update.device_id matches Some(v) ==> updated_printer(update, printer).device_id == v,
        update.device_id is None ==> updated_printer(update, printer).device_id == printer.device_id,
        update.location matches Some(v) ==> updated_printer(update, printer).location == v,
        update.location is None ==> updated_printer(update, printer).location == printer.location,
        update.has_a3 matches Some(v) ==> updated_printer(update, printer).has_a3 == v,
        update.has_a3 is None ==> updated_printer(update, printer).has_a3 == printer.has_a3,
        update.coin_operated matches Some(v) ==> updated_printer(update, printer).coin_operated == v,
        update.coin_operated is None ==> updated_printer(update, printer).coin_operated == printer.coin_operated,
        update.description matches Some(v) ==> updated_printer(update, printer).description == v,
        update.description is None ==> updated_printer(update, printer).description == printer.description,
        update.watch_toner matches Some(v) ==> updated_printer(update, printer).watch_toner == v,
        update.watch_toner is None ==> updated_printer(update, printer).watch_toner == printer.watch_toner,
        update.watch_tray1 matches Some(v) ==> updated_printer(update, printer).watch_tray1 == v,
        update.watch_tray1 is None ==> updated_printer(update, printer).watch_tray1 == printer.watch_tray1,
        update.watch_tray2 matches Some(v) ==> updated_printer(update, printer).watch_tray2 == v,
        update.watch_tray2 is None ==> updated_printer(update, printer).watch_tray2 == printer.watch_tray2,
        update.watch_tray3 matches Some(v) ==> updated_printer(update, printer).watch_tray3 == v,
        update.watch_tray3 is None ==> updated_printer(update, printer).watch_tray3 == printer.watch_tray3,
        update.watch_interval matches Some(v) ==> updated_printer(update, printer).watch_interval == v,
        update.watch_interval is None ==> updated_printer(update, printer).watch_interval == printer.watch_interval,
{
}

} // verus!
