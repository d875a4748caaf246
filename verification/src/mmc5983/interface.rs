//! I2C/SPI framing of the MMC5983MA register accesses.
use vstd::prelude::*;

use crate::mmc5983::private::Sealed;
use crate::mmc5983::types::Error;

verus! {

/// MMC5983 I2C address (7-bit)
pub const MMC5983_ADDR: u8 = 0b0110000;

/// The read/write bit of the first SPI byte: set for a read.
pub const SPI_RW: u8 = 0x80;

/// The largest number of bytes that one SPI transfer of the driver carries.
pub const SPI_TRANSFER_LEN: usize = 32;

/// I2C interface
#[derive(Debug)]
pub struct I2cInterface<I2C> {
    pub i2c: I2C,
}

/// SPI interface
#[derive(Debug)]
pub struct SpiInterface<SPI> {
    pub spi: SPI,
}

impl<I2C> Sealed for I2cInterface<I2C> {}

impl<SPI> Sealed for SpiInterface<SPI> {}

/// The bytes that an I2C write of `data` to register `addr` sends.
pub open spec fn i2c_write_bytes(addr: u8, data: u8) -> Seq<u8> {
    seq![addr, data]
}

/// The bytes that an SPI write of `data` to register `addr` sends.
pub open spec fn spi_write_bytes(addr: u8, data: u8) -> Seq<u8> {
    seq![addr & !SPI_RW, data]
}

/// A register write sends the same two bytes over SPI as over I2C, for
/// every register address below the read bit.
pub proof fn lemma_write_bytes_agree(addr: u8, data: u8)
    requires
        addr < SPI_RW,
    ensures
        spi_write_bytes(addr, data) == i2c_write_bytes(addr, data),
{
    assert(addr & !0x80u8 == addr) by (bit_vector)
        requires
            addr < 0x80u8,
    ;
}

impl<I2C> I2cInterface<I2C> {
    /// The bytes written to the device to store `data` in register `addr`.
    pub fn write_payload(addr: u8, data: u8) -> (r: [u8; 2])
        ensures
            r@ == i2c_write_bytes(addr, data),
    {
        [addr, data]
    }

    /// The bytes written to the device before reading registers from `addr` on.
    pub fn read_command(addr: u8) -> (r: [u8; 1])
        ensures
            r@ == seq![addr],
    {
        [addr]
    }
}

impl<SPI> SpiInterface<SPI> {
    /// The bytes transferred to store `data` in register `addr`: the address
    /// with the read bit cleared, then the data.
    pub fn write_payload(addr: u8, data: u8) -> (r: [u8; 2])
        ensures
            r@ == spi_write_bytes(addr, data),
    {
        [addr & !SPI_RW, data]
    }

    /// The frame exchanged in place to read register `addr`: the address with
    /// the read bit set, then a byte that the register value replaces.
    pub fn read_register_frame(addr: u8) -> (r: [u8; 2])
        ensures
            r@ == seq![SPI_RW | addr, 0u8],
    {
        [SPI_RW | addr, 0]
    }

    /// The buffer of a transfer that reads `len` consecutive registers from
    /// `start_addr` on: the address with the read bit set, then bytes that
    /// the register values replace; the transfer exchanges its first
    /// `len + 1` bytes. Refused when those would not fit in one transfer.
    pub fn consecutive_frame<E>(start_addr: u8, len: usize) -> (r: Result<
        [u8; SPI_TRANSFER_LEN],
        Error<E>,
    >)
        ensures
            len >= SPI_TRANSFER_LEN <==> r is Err,
            r matches Err(e) ==> e is InvalidInputData,
            r matches Ok(frame) ==> frame@ == seq![SPI_RW | start_addr] + Seq::new(
                (SPI_TRANSFER_LEN - 1) as nat,
                |i: int| 0u8,
            ),
    {
        if len >= SPI_TRANSFER_LEN {
            return Err(Error::InvalidInputData);
        }
        let mut frame = [0u8; SPI_TRANSFER_LEN];
        frame[0] = SPI_RW | start_addr;
        assert(frame@ =~= seq![SPI_RW | start_addr] + Seq::new(
            (SPI_TRANSFER_LEN - 1) as nat,
            |i: int| 0u8,
        ));
        Ok(frame)
    }

    /// Copies the register values carried by an exchanged frame, every byte
    /// after the address byte, into `buffer`.
    pub fn frame_data(frame: &[u8], buffer: &mut [u8])
        requires
            frame@.len() == old(buffer)@.len() + 1,
        ensures
            final(buffer)@ == frame@.subrange(1, frame@.len() as int),
    {
        let mut i: usize = 0;
        while i < buffer.len()
            invariant
                frame@.len() == buffer@.len() + 1,
                buffer@.len() == old(buffer)@.len(),
                i <= buffer@.len(),
                forall|j: int| 0 <= j < i ==> buffer@[j] == frame@[j + 1],
            decreases buffer@.len() - i,
        {
            buffer[i] = frame[i + 1];
            i = i + 1;
        }
        assert(buffer@ =~= frame@.subrange(1, frame@.len() as int));
    }
}

} // verus!
