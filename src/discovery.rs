use vstd::prelude::*;

verus! {

/// The hardware board that discovery reported.
#[derive(PartialEq, Eq, Structural, Clone, Copy, Debug)]
pub enum Boards {
    Metis,
    Hermes,
    Hermes2,
    Angelia,
    Orion,
    Orion2,
    Saturn,
    HermesLite,
    HermesLite2,
    Unknown,
}

/// What discovery found out about one hardware unit; fixed for a session.
#[derive(Clone, Copy, Debug)]
pub struct Device {
    /// IPv4 address of the unit.
    pub address: [u8; 4],
    pub mac: [u8; 6],
    pub device: u8,
    pub board: Boards,
    /// Protocol version, 1 or 2.
    pub protocol: u8,
    pub adcs: u8,
    pub supported_receivers: u8,
}

} // verus!
