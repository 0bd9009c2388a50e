//! Device handle and bus transaction framing.
//!
//! A bus transaction is an atomic sequence of byte spans: a header
//! identifying the operation and its target, followed by the payload
//! written to or read from the chip. The functions here produce the
//! exact header bytes for each of the four operations; the caller's bus
//! driver performs the transaction and hands payloads to the codecs.
//!
//! Wire formats:
//! - register read: `[0x1D, address high, address low, 0x00]`, then the
//!   register's fixed width is read back;
//! - register write: `[0x0D, address high, address low]`, then the
//!   encoded value is written;
//! - buffer write: `[0x0E, offset]`, then the payload is written;
//! - buffer read: `[0x1E, offset, 0x00]`, then the payload is read;
//! - command: the opcode byte, then the encoded parameters are written
//!   and the declared response width is read back.

use crate::wire::spec_u16_be;
use vstd::prelude::*;

verus! {

/// Handle owning the bus interface used to reach one radio.
///
/// The codec layer never touches the bus; this handle only carries the
/// interface between the caller's driver functions, which own the
/// transactions, and releases it on request.
pub struct Device<SPI> {
    spi: SPI,
}

impl<SPI> Device<SPI> {
    /// The wrapped bus interface.
    pub closed spec fn spec_bus(self) -> SPI {
        self.spi
    }

    /// Creates a new device handle wrapping the provided bus interface.
    pub fn new(spi: SPI) -> (r: Self)
        ensures
            r.spec_bus() == spi,
    {
        Device { spi }
    }

    /// Releases the underlying bus interface, consuming the handle.
    pub fn release(self) -> (r: SPI)
        ensures
            r == self.spec_bus(),
    {
        self.spi
    }
}

/// The header of a register read: opcode 0x1D, the big-endian register
/// address, and one dummy byte clocked out before the data.
pub open spec fn spec_read_register_header(addr: u16) -> Seq<u8> {
    seq![0x1Du8] + spec_u16_be(addr) + seq![0x00u8]
}

/// The header of a register write: opcode 0x0D and the big-endian
/// register address.
pub open spec fn spec_write_register_header(addr: u16) -> Seq<u8> {
    seq![0x0Du8] + spec_u16_be(addr)
}

/// The header of a buffer write: opcode 0x0E and the buffer offset.
pub open spec fn spec_write_buffer_header(offset: u8) -> Seq<u8> {
    seq![0x0Eu8, offset]
}

/// The header of a buffer read: opcode 0x1E, the buffer offset, and one
/// dummy byte clocked out before the data.
pub open spec fn spec_read_buffer_header(offset: u8) -> Seq<u8> {
    seq![0x1Eu8, offset, 0x00u8]
}

pub fn read_register_header(addr: u16) -> (r: [u8; 4])
    ensures
        r@ == spec_read_register_header(addr),
{
    let r = [0x1D, (addr / 0x100) as u8, (addr % 0x100) as u8, 0x00];
    proof {
        assert(r@ =~= spec_read_register_header(addr));
    }
    r
}

pub fn write_register_header(addr: u16) -> (r: [u8; 3])
    ensures
        r@ == spec_write_register_header(addr),
{
    let r = [0x0D, (addr / 0x100) as u8, (addr % 0x100) as u8];
    proof {
        assert(r@ =~= spec_write_register_header(addr));
    }
    r
}

pub fn write_buffer_header(offset: u8) -> (r: [u8; 2])
    ensures
        r@ == spec_write_buffer_header(offset),
{
    let r = [0x0E, offset];
    proof {
        assert(r@ =~= spec_write_buffer_header(offset));
    }
    r
}

pub fn read_buffer_header(offset: u8) -> (r: [u8; 3])
    ensures
        r@ == spec_read_buffer_header(offset),
{
    let r = [0x1E, offset, 0x00];
    proof {
        assert(r@ =~= spec_read_buffer_header(offset));
    }
    r
}

} // verus!
