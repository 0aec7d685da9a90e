use vstd::prelude::*;

verus! {

/// The part a node plays on the network.
#[derive(Debug, Clone, Copy, PartialEq, Eq, Structural)]
pub enum NetworkRole {
    Server,
    Client,
    Peer,
}

/// An envelope for a payload stamped with simulated time and a sequence
/// number.
#[derive(Debug, Clone)]
pub struct Packet {
    pub simulation_time: u64,
    pub sequence: u64,
    pub payload: Vec<u8>,
}

impl Packet {
    pub fn new(simulation_time: u64, sequence: u64, payload: Vec<u8>) -> (r: Self)
        ensures
            r.simulation_time == simulation_time,
            r.sequence == sequence,
            r.payload@ == payload@,
    {
        Packet { simulation_time, sequence, payload }
    }
}

} // verus!
