//! Enumeration of input devices into stable per-call ordinals.
//!
//! The host application queries the audio backend for its input devices in
//! host-defined order and hands over each device's name — or nothing, when
//! resolving a single name fails. This module assigns the ordinal indices
//! and degrades missing names to a placeholder instead of failing the call.

use vstd::prelude::*;

verus! {

/// One enumerated input device. The index is valid only against the
/// enumeration call that produced it.
#[derive(Debug)]
pub struct DeviceInfo {
    pub index: usize,
    pub name: String,
}

/// The listed name for an enumerated device: its own name when resolution
/// succeeded, the placeholder otherwise.
pub open spec fn resolved_name(name: Option<String>) -> Seq<char> {
    match name {
        Option::Some(n) => n@,
        Option::None => "Unknown"@,
    }
}

/// Builds the device catalog from the enumerated names, in enumeration
/// order: device `i` gets index `i`, and a device whose name could not be
/// resolved is listed as "Unknown" rather than failing the whole call.
pub fn catalog_from_names(names: &Vec<Option<String>>) -> (devices: Vec<DeviceInfo>)
    ensures
        devices@.len() == names@.len(),
        forall|i: int| 0 <= i < devices@.len() ==> {
            &&& (#[trigger] devices@[i]).index == i
            &&& devices@[i].name@ == resolved_name(names@[i])
        },
{
    let mut devices: Vec<DeviceInfo> = Vec::new();
    let mut i: usize = 0;
    let n = names.len();
    while i < n
        invariant
            n == names@.len(),
            i <= n,
            devices@.len() == i,
            forall|j: int| 0 <= j < i ==> {
                &&& (#[trigger] devices@[j]).index == j
                &&& devices@[j].name@ == resolved_name(names@[j])
            },
        decreases n - i,
    {
        let name = match &names[i] {
            Some(given) => given.clone(),
            None => String::from_str("Unknown"),
        };
        devices.push(DeviceInfo { index: i, name });
        i = i + 1;
    }
    devices
}

} // verus!
