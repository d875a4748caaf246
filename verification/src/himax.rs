//! Recording command of the Grove AI (Himax) module over its I2C
//! communication protocol.
use vstd::prelude::*;

use crate::crc::{crc_shift_n, shift_byte};

verus! {

/// 7-bit address of the module.
pub const GROVE_I2C_ADDR: u8 = 0x62;

/// Feature byte of the recorder.
pub const I2C_FEATURE_RECORDER: u8 = 0x80;

/// Command byte that starts a recording.
pub const I2C_CMD_RECORD_START: u8 = 0x01;

/// The CRC-16/CCITT polynomial.
pub const CRC16_POLY: u16 = 0x1021;

/// The CRC-16/CCITT register after `bytes`, from 0xFFFF.
pub open spec fn crc16_register(bytes: Seq<u8>) -> u16
    decreases bytes.len(),
{
    if bytes.len() == 0 {
        0xFFFF
    } else {
        crc_shift_n(
            crc16_register(bytes.drop_last()) ^ ((bytes.last() as u16) << 8u16),
            CRC16_POLY,
            8,
        )
    }
}

/// CRC-16/CCITT of `buf`, with initial value 0xFFFF.
pub fn crc16_ccitt(buf: &[u8]) -> (r: u16)
    ensures
        r == crc16_register(buf@),
{
    let mut crc: u16 = 0xFFFF;
    let mut i: usize = 0;
    while i < buf.len()
        invariant
            i <= buf@.len(),
            crc == crc16_register(buf@.take(i as int)),
        decreases buf@.len() - i,
    {
        let b = buf[i];
        proof {
            assert(buf@.take(i + 1).drop_last() =~= buf@.take(i as int));
        }
        crc = crc ^ ((b as u16) << 8u16);
        crc = shift_byte(crc, CRC16_POLY);
        i = i + 1;
    }
    assert(buf@.take(buf@.len() as int) =~= buf@);
    crc
}

/// Whether a start-recording command carries the threshold as payload.
pub open spec fn threshold_in_range(threshold: i32) -> bool {
    0 <= threshold <= 100
}

/// Feature, command, payload length (least significant byte first) and
/// payload of the start-recording command.
pub open spec fn record_start_body(threshold: i32) -> Seq<u8> {
    if threshold_in_range(threshold) {
        seq![I2C_FEATURE_RECORDER, I2C_CMD_RECORD_START, 1u8, 0u8, threshold as u8]
    } else {
        seq![I2C_FEATURE_RECORDER, I2C_CMD_RECORD_START, 0u8, 0u8]
    }
}

/// `body` followed by its CRC-16/CCITT, least significant byte first.
pub open spec fn with_crc16(body: Seq<u8>) -> Seq<u8> {
    body + seq![(crc16_register(body) & 0xFF) as u8, ((crc16_register(body) >> 8u16) & 0xFF) as u8]
}

/// The packet that starts a recording on the module: feature, command,
/// payload length, the threshold as payload when it lies in 0..=100, and the
/// CRC-16/CCITT of all that. The packet is the first `len` bytes of the
/// array, where `(bytes, len)` is the result.
pub fn grove_start_recording_packet(threshold: i32) -> (r: ([u8; 8], usize))
    ensures
        r.1 <= 8,
        r.0@.subrange(0, r.1 as int) == with_crc16(record_start_body(threshold)),
{
    let mut pkt = [0u8; 8];
    let mut payload_len: u16 = 0;

    pkt[0] = I2C_FEATURE_RECORDER;
    pkt[1] = I2C_CMD_RECORD_START;

    if 0 <= threshold && threshold <= 100 {
        payload_len = 1;
        pkt[4] = threshold as u8;
    }

    let len_lo = (payload_len & 0xFF) as u8;
    let len_hi = ((payload_len >> 8u16) & 0xFF) as u8;
    assert(len_lo == payload_len && len_hi == 0) by (bit_vector)
        requires
            len_lo == (payload_len & 0xFF) as u8,
            len_hi == ((payload_len >> 8u16) & 0xFF) as u8,
            payload_len <= 1,
    ;
    pkt[2] = len_lo;
    pkt[3] = len_hi;

    let mut total: usize = 4 + payload_len as usize;
    let body = vstd::slice::slice_subrange(&pkt, 0, total);
    assert(body@ =~= record_start_body(threshold));
    let crc = crc16_ccitt(body);
    pkt[total] = (crc & 0xFF) as u8;
    pkt[total + 1] = ((crc >> 8u16) & 0xFF) as u8;
    total += 2;

    assert(pkt@.subrange(0, total as int) =~= with_crc16(record_start_body(threshold)));
    (pkt, total)
}

/// First address of the bus scan.
pub const SCAN_FIRST_ADDR: u8 = 0x03;

/// Last address of the bus scan.
pub const SCAN_LAST_ADDR: u8 = 0x77;

/// Number of times the module is probed again when the scan missed it.
pub const PROBE_RETRIES: u8 = 10;

/// The search for the module at start-up: a scan of the bus addresses
/// `0x03..=0x77`, then, when the module did not answer, up to ten more
/// probes of its address.
#[derive(Debug)]
pub struct GroveProbe {
    next_addr: u8,
    found_count: u8,
    found_in_scan: bool,
    found: bool,
    retries: u8,
}

/// What a probe remembers: the next address to scan, the number of devices
/// that answered the scan, whether the module answered the scan, whether it
/// answered at all, and the number of retries made.
pub struct GroveProbeView {
    pub next_addr: u8,
    pub found_count: u8,
    pub found_in_scan: bool,
    pub found: bool,
    pub retries: u8,
}

impl View for GroveProbe {
    type V = GroveProbeView;

    closed spec fn view(&self) -> GroveProbeView {
        GroveProbeView {
            next_addr: self.next_addr,
            found_count: self.found_count,
            found_in_scan: self.found_in_scan,
            found: self.found,
            retries: self.retries,
        }
    }
}

impl GroveProbe {
    #[verifier::type_invariant]
    spec fn inv(&self) -> bool {
        &&& SCAN_FIRST_ADDR <= self.next_addr <= SCAN_LAST_ADDR + 1
        &&& self.found_count <= self.next_addr - SCAN_FIRST_ADDR
        &&& self.retries <= PROBE_RETRIES
        &&& self.found_in_scan ==> self.found
    }

    /// A probe that has scanned nothing yet.
    pub fn new() -> (r: Self)
        ensures
            r@ == (GroveProbeView {
                next_addr: SCAN_FIRST_ADDR,
                found_count: 0,
                found_in_scan: false,
                found: false,
                retries: 0,
            }),
    {
        GroveProbe {
            next_addr: SCAN_FIRST_ADDR,
            found_count: 0,
            found_in_scan: false,
            found: false,
            retries: 0,
        }
    }

    /// The next address to scan, or `None` once the scan is over.
    pub fn next_scan_address(&self) -> (r: Option<u8>)
        ensures
            self@.next_addr <= SCAN_LAST_ADDR ==> r == Some(self@.next_addr),
            self@.next_addr > SCAN_LAST_ADDR ==> r is None,
    {
        if self.next_addr <= SCAN_LAST_ADDR {
            Some(self.next_addr)
        } else {
            None
        }
    }

    /// Records whether the address given by `next_scan_address` answered.
    pub fn record_scan(&mut self, acked: bool)
        requires
            old(self)@.next_addr <= SCAN_LAST_ADDR,
        ensures
            final(self)@.next_addr == old(self)@.next_addr + 1,
            final(self)@.found_count == old(self)@.found_count + if acked {
                1int
            } else {
                0int
            },
            final(self)@.found_in_scan == (old(self)@.found_in_scan || (acked && old(self)@.next_addr
                == GROVE_I2C_ADDR)),
            final(self)@.found == (old(self)@.found || (acked && old(self)@.next_addr
                == GROVE_I2C_ADDR)),
            final(self)@.retries == old(self)@.retries,
    {
        proof {
            use_type_invariant(&*self);
        }
        let addr = self.next_addr;
        let mut found_count = self.found_count;
        let mut found_in_scan = self.found_in_scan;
        let mut found = self.found;
        if acked {
            found_count = found_count + 1;
            if addr == GROVE_I2C_ADDR {
                found_in_scan = true;
                found = true;
            }
        }
        *self = GroveProbe {
            next_addr: addr + 1,
            found_count,
            found_in_scan,
            found,
            retries: self.retries,
        };
    }

    /// The index of the next retry, or `None` when no retry is due: the scan
    /// is not over, the module has answered, or the ten retries are spent.
    pub fn next_retry(&self) -> (r: Option<u8>)
        ensures
            r is Some <==> (self@.next_addr > SCAN_LAST_ADDR && !self@.found && self@.retries
                < PROBE_RETRIES),
            r matches Some(i) ==> i == self@.retries,
    {
        if self.next_addr > SCAN_LAST_ADDR && !self.found && self.retries < PROBE_RETRIES {
            Some(self.retries)
        } else {
            None
        }
    }

    /// Records whether the module answered the retry given by `next_retry`.
    pub fn record_retry(&mut self, acked: bool)
        requires
            old(self)@.next_addr > SCAN_LAST_ADDR,
            !old(self)@.found,
            old(self)@.retries < PROBE_RETRIES,
        ensures
            final(self)@ == (GroveProbeView {
                retries: (old(self)@.retries + 1) as u8,
                found: acked,
                ..old(self)@
            }),
    {
        proof {
            use_type_invariant(&*self);
        }
        *self = GroveProbe {
            next_addr: self.next_addr,
            found_count: self.found_count,
            found_in_scan: self.found_in_scan,
            found: acked,
            retries: self.retries + 1,
        };
    }

    /// Number of devices that answered the scan so far.
    pub fn found_count(&self) -> (r: u8)
        ensures
            r == self@.found_count,
    {
        self.found_count
    }

    /// Whether the module has answered, in the scan or in a retry.
    pub fn target_found(&self) -> (r: bool)
        ensures
            r == self@.found,
    {
        self.found
    }

    /// The outcome of the start-up search: 1 when the module answered the
    /// scan, else 0, even when it answered a later retry.
    pub fn result(&self) -> (r: u16)
        ensures
            r == if self@.found_in_scan {
                1u16
            } else {
                0u16
            },
    {
        if self.found_in_scan {
            1
        } else {
            0
        }
    }
}

} // verus!
