//! The bridge entities this tool works with, reduced to the plain values the
//! logic reads: lights with their power state and groups with their member
//! light identifiers.

use vstd::prelude::*;

verus! {

/// A light as reported by the bridge: its identifier, display name,
/// reachability flag, and on/off state. The on/off state is absent when the
/// bridge does not know whether the light is powered.
#[derive(Debug, PartialEq, Eq)]
pub struct Light {
    pub id: String,
    pub name: String,
    pub reachable: bool,
    pub on: Option<bool>,
}

/// A group as reported by the bridge: its identifier, display name, and the
/// identifiers of the lights it contains, in the order the bridge gave them.
#[derive(Debug, PartialEq, Eq)]
pub struct Group {
    pub id: String,
    pub name: String,
    pub lights: Vec<String>,
}

} // verus!
