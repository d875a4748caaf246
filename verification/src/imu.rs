//! Selection and decoding of the newest complete packet in a FIFO read from
//! the IMU.
use vstd::prelude::*;

verus! {

/// Number of bytes in one word of the FIFO buffer.
pub const WORD_BYTES: usize = 4;

/// The byte range, within the bytes of the FIFO buffer, of the last complete
/// packet among the `num_words` words read, the first word being skipped,
/// or `None` when they hold no complete packet.
pub open spec fn last_packet_range(num_words: nat, packet_size: nat) -> Option<(int, int)> {
    let skip: nat = if num_words >= 1 { 1 } else { 0 };
    let bytes: int = WORD_BYTES * (num_words - skip);
    let count: int = bytes / (packet_size as int);
    if count == 0 {
        None
    } else {
        Some((
            WORD_BYTES * skip + (count - 1) * packet_size,
            WORD_BYTES * skip + count * packet_size,
        ))
    }
}

/// The byte range of the last complete packet of `packet_size` bytes among
/// the `num_words` words that a FIFO read filled in a buffer of
/// `buffer_words` words; the first word read is skipped.
pub fn last_fifo_packet(num_words: usize, buffer_words: usize, packet_size: usize) -> (r: Option<
    (usize, usize),
>)
    requires
        num_words <= buffer_words,
        buffer_words <= usize::MAX / 4,
        packet_size > 0,
    ensures
        r matches Some((start, end)) ==> last_packet_range(num_words as nat, packet_size as nat)
            == Some((start as int, end as int)) && end <= WORD_BYTES * buffer_words,
        r is None ==> last_packet_range(num_words as nat, packet_size as nat) is None,
{
    let skip: usize = if num_words < 1 {
        num_words
    } else {
        1
    };
    let bytes = WORD_BYTES * (num_words - skip);
    let count = bytes / packet_size;
    if count == 0 {
        return None;
    }
    proof {
        assert(count * packet_size <= bytes) by (nonlinear_arith)
            requires
                count == bytes / packet_size,
                packet_size > 0,
        ;
        assert((count - 1) * packet_size == count * packet_size - packet_size) by (nonlinear_arith);
    }
    let end = WORD_BYTES * skip + count * packet_size;
    let start = end - packet_size;
    Some((start, end))
}

/// Number of bytes of one FIFO packet of the fourth format: header, high and
/// middle bytes of the six accelerometer and gyroscope axes, temperature,
/// timestamp and the three bytes of low nibbles.
pub const FIFO_PACKET_LEN: usize = 20;

/// One decoded FIFO packet: 20-bit signed accelerometer and gyroscope
/// readings and the raw temperature.
#[derive(Debug, Clone, Copy, PartialEq, Eq)]
pub struct FifoSample {
    /// Accelerometer X, Y, Z
    pub accel: (i32, i32, i32),
    /// Gyroscope X, Y, Z
    pub gyro: (i32, i32, i32),
    /// Raw temperature
    pub temperature: u16,
}

/// The signed value of a 20-bit two's complement number.
pub open spec fn sign_extend20(v: int) -> int {
    if v >= 0x80000 {
        v - 0x100000
    } else {
        v
    }
}

/// The 20-bit reading made of bits 19..12 in `high`, bits 11..4 in `low`
/// and bits 3..0 in `ext`.
pub open spec fn reading20(high: u8, low: u8, ext: u8) -> int {
    sign_extend20(high * 4096 + low * 16 + ext)
}

/// What a packet of 20 bytes holds: byte 0 is the header, bytes 1..12 the
/// high and middle bytes of accelerometer X, Y, Z and gyroscope X, Y, Z,
/// bytes 13 and 14 the temperature, bytes 15 and 16 the timestamp, and
/// bytes 17..19 the low nibbles of X, Y, Z, accelerometer above gyroscope.
pub open spec fn fifo_sample_of(b: Seq<u8>) -> FifoSample {
    FifoSample {
        accel: (
            reading20(b[1], b[2], b[17] / 16) as i32,
            reading20(b[3], b[4], b[18] / 16) as i32,
            reading20(b[5], b[6], b[19] / 16) as i32,
        ),
        gyro: (
            reading20(b[7], b[8], b[17] % 16) as i32,
            reading20(b[9], b[10], b[18] % 16) as i32,
            reading20(b[11], b[12], b[19] % 16) as i32,
        ),
        temperature: (b[13] * 256 + b[14]) as u16,
    }
}

/// `bytemuck::from_bytes` of the bytes as an `icm426xx::fifo::FifoPacket4`,
/// then its accessors `accel_data_x`, `accel_data_y`, `accel_data_z`,
/// `gyro_data_x`, `gyro_data_y`, `gyro_data_z` and `temperature_raw`. The
/// packet type is `repr(C)` with twenty `u8` fields, so it has size 20 and
/// alignment 1 and the cast does not fail; each accessor joins its three
/// parts into 20 bits and sign-extends them, and the temperature is the
/// big-endian pair of its two bytes.
#[verifier::external_body]
fn decode_fifo_packet(bytes: &[u8]) -> (r: FifoSample)
    requires
        bytes@.len() == FIFO_PACKET_LEN,
    ensures
        r.accel.0 == reading20(bytes@[1], bytes@[2], bytes@[17] / 16),
        r.accel.1 == reading20(bytes@[3], bytes@[4], bytes@[18] / 16),
        r.accel.2 == reading20(bytes@[5], bytes@[6], bytes@[19] / 16),
        r.gyro.0 == reading20(bytes@[7], bytes@[8], bytes@[17] % 16),
        r.gyro.1 == reading20(bytes@[9], bytes@[10], bytes@[18] % 16),
        r.gyro.2 == reading20(bytes@[11], bytes@[12], bytes@[19] % 16),
        r.temperature == bytes@[13] * 256 + bytes@[14],
{
    let packet: &icm426xx::fifo::FifoPacket4 = bytemuck::from_bytes(bytes);
    FifoSample {
        accel: (packet.accel_data_x(), packet.accel_data_y(), packet.accel_data_z()),
        gyro: (packet.gyro_data_x(), packet.gyro_data_y(), packet.gyro_data_z()),
        temperature: packet.temperature_raw(),
    }
}

/// The newest complete packet among the `num_words` words that a FIFO read
/// filled in a buffer of `buffer_words` words, whose bytes are `bytes`,
/// decoded; `None` when the words read hold no complete packet.
pub fn newest_fifo_sample(bytes: &[u8], num_words: usize, buffer_words: usize) -> (r: Option<
    FifoSample,
>)
    requires
        num_words <= buffer_words,
        buffer_words <= usize::MAX / 4,
        bytes@.len() == WORD_BYTES * buffer_words,
    ensures
        match last_packet_range(num_words as nat, FIFO_PACKET_LEN as nat) {
            None => r is None,
            Some((start, end)) => r == Some(fifo_sample_of(bytes@.subrange(start, end))),
        },
{
    match last_fifo_packet(num_words, buffer_words, FIFO_PACKET_LEN) {
        None => None,
        Some((start, end)) => {
            let packet = vstd::slice::slice_subrange(bytes, start, end);
            let sample = decode_fifo_packet(packet);
            proof {
                let b = packet@;
                lemma_reading20_fits(b[1], b[2], b[17] / 16);
                lemma_reading20_fits(b[3], b[4], b[18] / 16);
                lemma_reading20_fits(b[5], b[6], b[19] / 16);
                lemma_reading20_fits(b[7], b[8], b[17] % 16);
                lemma_reading20_fits(b[9], b[10], b[18] % 16);
                lemma_reading20_fits(b[11], b[12], b[19] % 16);
            }
            Some(sample)
        },
    }
}

proof fn lemma_reading20_fits(high: u8, low: u8, ext: u8)
    requires
        0 <= ext < 16,
    ensures
        -0x80000 <= reading20(high, low, ext) < 0x80000,
        reading20(high, low, ext) as i32 == reading20(high, low, ext),
{
}

} // verus!
