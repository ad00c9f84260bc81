//! Book-keeping for the set of open GPIO pins.
//!
//! The driver itself is reached through ioctl calls that live outside the
//! library; this module owns the table that maps a logical pin id to the
//! record handed to the driver, and the conversions between logical levels
//! and the driver's byte encoding. Every operation on a pin that is not open
//! fails here, before anything reaches the driver.

use std::collections::HashMap;
use vstd::prelude::*;
use vstd::string::*;
use crate::error::Error;

verus! {

broadcast use vstd::std_specs::hash::group_hash_axioms;

/// Converts a logical pin level to the driver's byte encoding.
pub fn bool_to_u8(value: bool) -> (r: u8)
    ensures
        r == (if value { 1u8 } else { 0u8 }),
{
    if value {
        1
    } else {
        0
    }
}

/// Converts the driver's byte encoding back to a logical pin level.
pub fn u8_to_bool(value: u8) -> (r: bool)
    ensures
        r == (value == 1u8),
{
    value == 1
}

/// One open pin as the driver sees it: the last level written or read, the
/// physical pin number, and the direction it was opened with.
#[derive(Debug, Clone, Copy, PartialEq, Eq, Structural)]
pub struct PinRecord {
    pub value: u8,
    pub pin_num: u32,
    pub output: u8,
}

/// The table of open pins, keyed by logical id.
pub struct PinRegistry {
    pins: HashMap<u32, PinRecord>,
}

/// The error every operation on a pin that is not open returns.
fn pin_not_open_error() -> (e: Error)
    ensures
        e matches Error::InvalidArgument(m) && m@ == "Pin not open"@,
{
    Error::InvalidArgument(String::from_str("Pin not open"))
}

impl PinRegistry {
    /// The open pins, by logical id.
    pub closed spec fn pin_map(&self) -> Map<u32, PinRecord> {
        self.pins@
    }

    /// An empty table: no pin is open.
    pub fn new() -> (r: PinRegistry)
        ensures
            r.pin_map() == Map::<u32, PinRecord>::empty(),
    {
        PinRegistry { pins: HashMap::new() }
    }

    /// Records a pin as open: level zero, the given physical pin number, and
    /// the given direction. An id already present is overwritten.
    pub fn record_open(&mut self, id: u32, pin_num: u32, output: bool)
        ensures
            final(self).pin_map() == old(self).pin_map().insert(
                id,
                (PinRecord { value: 0, pin_num, output: if output { 1u8 } else { 0u8 } }),
            ),
    {
        let record = PinRecord { value: 0, pin_num, output: bool_to_u8(output) };
        self.pins.insert(id, record);
    }

    /// The record of an open pin, or the not-open error.
    pub fn pin_record(&self, id: u32) -> (r: Result<PinRecord, Error>)
        ensures
            self.pin_map().contains_key(id) ==> r == Ok::<PinRecord, Error>(self.pin_map()[id]),
            !self.pin_map().contains_key(id) ==> (r matches Err(e) && e matches
                Error::InvalidArgument(m) && m@ == "Pin not open"@),
    {
        match self.pins.get(&id) {
            Some(record) => Ok(*record),
            None => Err(pin_not_open_error()),
        }
    }

    /// Takes an open pin out of the table, handing its record back for the
    /// close call, or fails with the not-open error and changes nothing.
    pub fn remove_pin(&mut self, id: u32) -> (r: Result<PinRecord, Error>)
        ensures
            old(self).pin_map().contains_key(id) ==> {
                &&& r == Ok::<PinRecord, Error>(old(self).pin_map()[id])
                &&& final(self).pin_map() == old(self).pin_map().remove(id)
            },
            !old(self).pin_map().contains_key(id) ==> {
                &&& r matches Err(e) && e matches Error::InvalidArgument(m) && m@
                    == "Pin not open"@
                &&& final(self).pin_map() == old(self).pin_map()
            },
    {
        match self.pins.remove(&id) {
            Some(record) => Ok(record),
            None => Err(pin_not_open_error()),
        }
    }

    /// Stores the level a write call is about to drive on an open pin and
    /// hands back the updated record for the driver, or fails with the
    /// not-open error and changes nothing.
    pub fn set_output_value(&mut self, id: u32, value: bool) -> (r: Result<PinRecord, Error>)
        ensures
            old(self).pin_map().contains_key(id) ==> ({
                let updated = (PinRecord {
                    value: if value { 1u8 } else { 0u8 },
                    ..old(self).pin_map()[id]
                });
                &&& r == Ok::<PinRecord, Error>(updated)
                &&& final(self).pin_map() == old(self).pin_map().insert(id, updated)
            }),
            !old(self).pin_map().contains_key(id) ==> {
                &&& r matches Err(e) && e matches Error::InvalidArgument(m) && m@
                    == "Pin not open"@
                &&& final(self).pin_map() == old(self).pin_map()
            },
    {
        match self.pins.get(&id) {
            Some(record) => {
                let updated = PinRecord { value: bool_to_u8(value), ..*record };
                self.pins.insert(id, updated);
                Ok(updated)
            },
            None => Err(pin_not_open_error()),
        }
    }

    /// Stores the raw level a read call got back from the driver for an open
    /// pin and converts it to a logical level, or fails with the not-open
    /// error and changes nothing.
    pub fn record_input_value(&mut self, id: u32, raw: u8) -> (r: Result<bool, Error>)
        ensures
            old(self).pin_map().contains_key(id) ==> {
                &&& r == Ok::<bool, Error>(raw == 1u8)
                &&& final(self).pin_map() == old(self).pin_map().insert(
                    id,
                    (PinRecord { value: raw, ..old(self).pin_map()[id] }),
                )
            },
            !old(self).pin_map().contains_key(id) ==> {
                &&& r matches Err(e) && e matches Error::InvalidArgument(m) && m@
                    == "Pin not open"@
                &&& final(self).pin_map() == old(self).pin_map()
            },
    {
        match self.pins.get(&id) {
            Some(record) => {
                let updated = PinRecord { value: raw, ..*record };
                self.pins.insert(id, updated);
                Ok(u8_to_bool(raw))
            },
            None => Err(pin_not_open_error()),
        }
    }
}

} // verus!
