//! The serial transfer registers.
//!
//! Two memory-mapped registers: the data register at 0xFF01 and the
//! control register at 0xFF02. Writing the control register with both
//! the transfer-start bit and the internal-clock bit set emits the
//! current data byte at once; emitted bytes accumulate in an output
//! buffer that the embedding program drains.
use vstd::prelude::*;

verus! {

/// The abstract state of the serial device: the two registers and the
/// bytes emitted so far, oldest first.
#[verifier::ext_equal]
pub struct SerialView {
    pub data: u8,
    pub control: u8,
    pub output: Seq<u8>,
}

impl SerialView {
    /// The byte a read of one of the two serial addresses yields.
    pub open spec fn read_spec(self, addr: u16) -> u8 {
        if addr == 0xFF01 {
            self.data
        } else {
            self.control
        }
    }

    /// Whether writing `value` to the control register starts a
    /// transfer: bit 7 (transfer start) and bit 0 (internal clock) both
    /// set.
    pub open spec fn starts_transfer(value: u8) -> bool {
        value / 128 == 1 && value % 2 == 1
    }

    /// The device state after a write: 0xFF01 stores the data byte;
    /// 0xFF02 stores the control byte and, when the written value
    /// starts a transfer, emits the current data byte immediately.
    pub open spec fn write_spec(self, addr: u16, value: u8) -> SerialView {
        if addr == 0xFF01 {
            SerialView { data: value, ..self }
        } else {
            if Self::starts_transfer(value) {
                SerialView { control: value, output: self.output.push(self.data), ..self }
            } else {
                SerialView { control: value, ..self }
            }
        }
    }
}

/// The serial device: data and control registers plus the buffer of
/// bytes emitted so far.
#[derive(Debug)]
pub struct Serial {
    /// FF01 - SB - Serial transfer data (R/W)
    /// 8 Bits of data to be read/written
    pub data: u8,
    /// FF02 - SC - Serial Transfer Control (R/W)
    ///   Bit 7 - Transfer Start Flag (0=No Transfer, 1=Start)
    ///   Bit 0 - Shift Clock (0=External Clock, 1=Internal Clock)
    pub control: u8,
    /// Bytes emitted by started transfers, oldest first, awaiting the
    /// embedding program.
    pub output: Vec<u8>,
}

impl View for Serial {
    type V = SerialView;

    open spec fn view(&self) -> SerialView {
        SerialView { data: self.data, control: self.control, output: self.output@ }
    }
}

impl Serial {
    pub fn new() -> (r: Serial)
        ensures
            r@ == (SerialView { data: 0u8, control: 0u8, output: Seq::<u8>::empty() }),
    {
        let r = Serial { data: 0, control: 0, output: Vec::new() };
        proof {
            assert(r@ =~= (SerialView { data: 0u8, control: 0u8, output: Seq::<u8>::empty() }));
        }
        r
    }

    /// Reads one of the two serial registers.
    pub fn read(&self, addr: u16) -> (r: u8)
        requires
            addr == 0xFF01 || addr == 0xFF02,
        ensures
            r == self@.read_spec(addr),
    {
        if addr == 0xFF01 {
            self.data
        } else {
            self.control
        }
    }

    /// Writes one of the two serial registers; a control write whose
    /// value has the transfer-start and internal-clock bits set emits
    /// the current data byte into the output buffer at once.
    pub fn write(&mut self, addr: u16, value: u8)
        requires
            addr == 0xFF01 || addr == 0xFF02,
        ensures
            final(self)@ == old(self)@.write_spec(addr, value),
    {
        if addr == 0xFF01 {
            self.data = value;
        } else {
            self.control = value;
            if value / 128 == 1 && value % 2 == 1 {
                self.output.push(self.data);
            }
        }
    }

    /// Hands the emitted bytes to the caller and empties the buffer.
    pub fn take_output(&mut self) -> (r: Vec<u8>)
        ensures
            r@ == old(self)@.output,
            final(self)@ == (SerialView { output: Seq::<u8>::empty(), ..old(self)@ }),
    {
        let mut taken: Vec<u8> = Vec::new();
        core::mem::swap(&mut taken, &mut self.output);
        proof {
            assert(self@ =~= (SerialView { output: Seq::<u8>::empty(), ..old(self)@ }));
        }
        taken
    }
}

} // verus!
