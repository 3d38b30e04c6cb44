use vstd::prelude::*;
use crate::machine::{Machine, PortAccess};

verus! {

/// The machine of the CPUville single board computer: 64 KiB of memory and 256 input
/// ports; it records the last port read and the last port written, with the value, so
/// that the host can serve its serial console.
pub struct VilleMachine {
    /// Memory
    pub mem: [u8; 65536],
    /// What each input port reads
    pub in_values: [u8; 256],
    /// Low byte of the last port read, until the host takes it
    pub in_port: Option<u8>,
    /// Low byte of the last port written, until the host takes it
    pub out_port: Option<u8>,
    /// Last value written to a port
    pub out_value: u8,
    /// The port accesses made so far
    pub log: Ghost<Seq<PortAccess>>,
}

impl VilleMachine {
    /// Returns the machine with memory and ports cleared and nothing recorded.
    pub fn new() -> (r: VilleMachine)
        ensures
            forall|a: u16| #[trigger] r.memory()[a] == 0,
            r.in_port.is_none(),
            r.out_port.is_none(),
            r.out_value == 0,
            forall|i: int| 0 <= i < 256 ==> #[trigger] r.in_values[i] == 0,
    {
        VilleMachine { mem: [0u8; 65536], in_values: [0u8; 256], in_port: None, out_port: None, out_value: 0, log: Ghost(Seq::empty()) }
    }
}

impl Machine for VilleMachine {
    open spec fn memory(&self) -> Map<u16, u8> {
        Map::new(|a: u16| true, |a: u16| self.mem@[a as int])
    }

    open spec fn port_log(&self) -> Seq<PortAccess> {
        self.log@
    }

    fn peek(&self, address: u16) -> (r: u8) {
        self.mem[address as usize]
    }

    fn poke(&mut self, address: u16, value: u8) {
        self.mem[address as usize] = value;
        assert(self.memory() =~= old(self).memory().insert(address, value));
    }

    fn port_in(&mut self, address: u16) -> (r: u8) {
        let port = (address % 256) as u8;
        self.in_port = Some(port);
        let r = self.in_values[port as usize];
        self.log = Ghost(self.log@.push(PortAccess::In(address, r)));
        r
    }

    fn port_out(&mut self, address: u16, value: u8) {
        self.out_port = Some((address % 256) as u8);
        self.out_value = value;
        self.log = Ghost(self.log@.push(PortAccess::Out(address, value)));
    }
}

} // verus!
