use vstd::prelude::*;

verus! {

/// One access to an I/O port, as the CPU made it.
#[derive(Copy, Clone, Debug, PartialEq, Eq, Structural)]
pub enum PortAccess {
    /// A read of the port at the address, which gave the byte
    In(u16, u8),
    /// A write of the byte to the port at the address
    Out(u16, u8),
}

/// The device that hosts the CPU: memory and I/O ports.
pub trait Machine {
    /// What the memory holds, by address.
    spec fn memory(&self) -> Map<u16, u8>;

    /// The port accesses made so far, oldest first.
    spec fn port_log(&self) -> Seq<PortAccess>;

    /// Returns the memory contents at `address`.
    fn peek(&self, address: u16) -> (r: u8)
        ensures
            r == self.memory()[address],
    ;

    /// Writes `value` to memory at `address`.
    fn poke(&mut self, address: u16, value: u8)
        ensures
            final(self).memory() == old(self).memory().insert(address, value),
            final(self).port_log() == old(self).port_log(),
    ;

    /// Reads a byte from the port at `address`; memory is left as it was.
    fn port_in(&mut self, address: u16) -> (r: u8)
        ensures
            final(self).memory() == old(self).memory(),
            final(self).port_log() == old(self).port_log().push(PortAccess::In(address, r)),
    ;

    /// Writes a byte to the port at `address`; memory is left as it was.
    fn port_out(&mut self, address: u16, value: u8)
        ensures
            final(self).memory() == old(self).memory(),
            final(self).port_log() == old(self).port_log().push(PortAccess::Out(address, value)),
    ;
}

/// The address after `a`, wrapping at 0xffff.
pub open spec fn next_addr(a: u16) -> u16 {
    ((a as int + 1) % 0x10000) as u16
}

/// The little endian word that memory `m` holds at `a`.
pub open spec fn word_at(m: Map<u16, u8>, a: u16) -> u16 {
    (m[a] as int + 256 * m[next_addr(a)] as int) as u16
}

/// Reads the little endian word at `address`.
pub fn peek16<M: Machine>(sys: &M, address: u16) -> (r: u16)
    ensures
        r == word_at(sys.memory(), address),
{
    let lo = sys.peek(address);
    let hi = sys.peek(address.wrapping_add(1));
    lo as u16 + (hi as u16) * 256
}

/// Writes the little endian word `value` at `address`: low byte first.
pub fn poke16<M: Machine>(sys: &mut M, address: u16, value: u16)
    ensures
        final(sys).memory() == old(sys).memory().insert(address, (value % 256) as u8).insert(
            next_addr(address),
            (value / 256) as u8,
        ),
        final(sys).port_log() == old(sys).port_log(),
{
    sys.poke(address, (value % 256) as u8);
    sys.poke(address.wrapping_add(1), (value / 256) as u8);
}

/// A machine with 64 KiB of memory and 64 KiB of ports.
pub struct PlainMachine {
    mem: [u8; 65536],
    io: [u8; 65536],
    log: Ghost<Seq<PortAccess>>,
}

impl PlainMachine {
    /// Returns a machine with memory and ports cleared.
    pub fn new() -> (r: PlainMachine)
        ensures
            forall|a: u16| #[trigger] r.memory()[a] == 0,
    {
        let r = PlainMachine { mem: [0u8; 65536], io: [0u8; 65536], log: Ghost(Seq::empty()) };
        r
    }
}

impl Machine for PlainMachine {
    closed spec fn memory(&self) -> Map<u16, u8> {
        Map::new(|a: u16| true, |a: u16| self.mem@[a as int])
    }

    closed spec fn port_log(&self) -> Seq<PortAccess> {
        self.log@
    }

    fn peek(&self, address: u16) -> (r: u8) {
        self.mem[address as usize]
    }

    fn poke(&mut self, address: u16, value: u8) {
        self.mem[address as usize] = value;
        assert(self.memory() =~= old(self).memory().insert(address, value));
    }

    fn port_in(&mut self, address: u16) -> (r: u8) {
        let r = self.io[address as usize];
        self.log = Ghost(self.log@.push(PortAccess::In(address, r)));
        r
    }

    fn port_out(&mut self, address: u16, value: u8) {
        self.io[address as usize] = value;
        self.log = Ghost(self.log@.push(PortAccess::Out(address, value)));
    }
}

} // verus!
