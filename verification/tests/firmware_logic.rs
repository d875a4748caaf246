use sensor_drivers::comms::{frame_text_message, Action, UART_HEADER};
use sensor_drivers::himax::{crc16_ccitt, grove_start_recording_packet};
use sensor_drivers::motor::{GainselPin, GainselState, MotorId, MotorIndex, PwmChannel};

#[test]
fn crc16_check_value() {
    assert_eq!(crc16_ccitt(b"123456789"), 0x29B1);
    assert_eq!(crc16_ccitt(&[]), 0xFFFF);
}

fn grove_packet(threshold: i32) -> Vec<u8> {
    let (bytes, len) = grove_start_recording_packet(threshold);
    bytes[..len].to_vec()
}

#[test]
fn grove_packet_with_threshold() {
    assert_eq!(grove_packet(50), vec![0x80, 0x01, 0x01, 0x00, 0x32, 0x49, 0x64]);
}

#[test]
fn grove_packet_without_threshold() {
    assert_eq!(grove_packet(-1), vec![0x80, 0x01, 0x00, 0x00, 0xC8, 0x6E]);
    assert_eq!(grove_packet(101), vec![0x80, 0x01, 0x00, 0x00, 0xC8, 0x6E]);
    assert_eq!(grove_packet(100).len(), 7);
    assert_eq!(grove_packet(0)[4], 0);
}

#[test]
fn text_message_framing() {
    let msg = frame_text_message(b"hi").unwrap();
    assert_eq!(msg.as_slice(), &[0x11, 0x0F, 0xFF, 0x00, 8, 5, b'h', b'i']);
    assert_eq!(&msg[..4], &UART_HEADER);
    let empty = frame_text_message(&[]).unwrap();
    assert_eq!(empty.as_slice(), &[0x11, 0x0F, 0xFF, 0x00, 6, 5]);
    let longest = frame_text_message(&[7u8; 249]).unwrap();
    assert_eq!(longest.len(), 255);
    assert_eq!(longest[4], 255);
    assert!(longest[6..].iter().all(|b| *b == 7));
    assert!(frame_text_message(&[7u8; 250]).is_none());
}

#[test]
fn gainsel() {
    assert_eq!(GainselState::default(), GainselState::HighCurrent);
    assert_eq!(GainselState::HighCurrent.num(), 0);
    assert_eq!(GainselState::MedCurrent.num(), 1);
    assert_eq!(GainselState::LowCurrent.num(), 2);
    assert_eq!(GainselState::LowCurrent.pin(), GainselPin::OutputLow);
    assert_eq!(GainselState::MedCurrent.pin(), GainselPin::Analog);
    assert_eq!(GainselState::HighCurrent.pin(), GainselPin::OutputHigh);
}

#[test]
fn motor_mapping_and_channels() {
    let m: MotorIndex = MotorId::BL.into();
    assert_eq!(m, MotorIndex::M2);
    assert_eq!(MotorIndex::from(MotorId::TR).num(), 1);
    assert_eq!(MotorIndex::M3.num(), 3);
    assert_eq!(MotorIndex::M0.drive_channels(true), (PwmChannel::Tim1Ch3, PwmChannel::Tim1Ch4));
    assert_eq!(MotorIndex::M2.drive_channels(false), (PwmChannel::Tim3Ch2, PwmChannel::Tim3Ch1));
    let all = [MotorIndex::M0, MotorIndex::M1, MotorIndex::M2, MotorIndex::M3];
    let mut seen = Vec::new();
    for m in all {
        let (a, b) = m.drive_channels(true);
        assert!(!seen.contains(&a) && !seen.contains(&b) && a != b);
        seen.push(a);
        seen.push(b);
    }
}

#[test]
fn action_codes() {
    assert_eq!(Action::Noop.code(), 0);
    assert_eq!(Action::SetMotorSpeeds.code(), 2);
}

use sensor_drivers::himax::{GroveProbe, GROVE_I2C_ADDR};
use sensor_drivers::imu::{last_fifo_packet, newest_fifo_sample, FifoSample};

#[test]
fn fifo_last_packet() {
    // 1 skipped word, then 10 words = 40 bytes: two 16-byte packets
    assert_eq!(last_fifo_packet(11, 128, 16), Some((4 + 16, 4 + 32)));
    assert_eq!(last_fifo_packet(5, 128, 16), Some((4, 20)));
    assert_eq!(last_fifo_packet(4, 128, 16), None);
    assert_eq!(last_fifo_packet(0, 128, 16), None);
    assert_eq!(last_fifo_packet(128, 128, 20), Some((4 + 20 * 24, 4 + 20 * 25)));
}

const NEWEST_PACKET: [u8; 20] = [
    0x68, 0x12, 0x34, 0x80, 0x00, 0xFF, 0xFF, 0x01, 0x02, 0x7F, 0xFF, 0x80, 0x00, 0x0B, 0xB8,
    0x00, 0x10, 0xAB, 0x1C, 0xF0,
];

#[test]
fn fifo_newest_sample_is_decoded() {
    // one skipped word, an older packet of ones, then the newest packet
    let mut bytes = [0u8; 64];
    for b in bytes[4..24].iter_mut() {
        *b = 0x11;
    }
    bytes[24..44].copy_from_slice(&NEWEST_PACKET);
    let sample = newest_fifo_sample(&bytes, 11, 16);
    assert_eq!(
        sample,
        Some(FifoSample {
            accel: (74570, -524287, -1),
            gyro: (4139, 524284, -524288),
            temperature: 3000,
        })
    );
    // a single packet after the skipped word
    let older = newest_fifo_sample(&bytes, 6, 16).unwrap();
    assert_eq!(older.accel.0, 0x11111);
    assert_eq!(older.gyro.2, 0x11111);
    assert_eq!(older.temperature, 0x1111);
    // fewer than 20 bytes after the skipped word
    assert_eq!(newest_fifo_sample(&bytes, 5, 16), None);
    assert_eq!(newest_fifo_sample(&bytes, 0, 16), None);
}

fn scan(probe: &mut GroveProbe, answering: &[u8]) {
    while let Some(addr) = probe.next_scan_address() {
        probe.record_scan(answering.contains(&addr));
    }
}

#[test]
fn grove_probe_found_in_scan() {
    let mut probe = GroveProbe::new();
    scan(&mut probe, &[0x28, GROVE_I2C_ADDR]);
    assert_eq!(probe.found_count(), 2);
    assert!(probe.target_found());
    assert_eq!(probe.next_retry(), None);
    assert_eq!(probe.result(), 1);
}

#[test]
fn grove_probe_retries() {
    let mut probe = GroveProbe::new();
    scan(&mut probe, &[0x28]);
    assert_eq!(probe.found_count(), 1);
    let mut tries = 0;
    while let Some(i) = probe.next_retry() {
        assert_eq!(i, tries);
        tries += 1;
        probe.record_retry(tries == 3);
    }
    assert_eq!(tries, 3);
    assert!(probe.target_found());
    // found only on a retry: the search still reports failure
    assert_eq!(probe.result(), 0);

    let mut probe = GroveProbe::new();
    scan(&mut probe, &[]);
    let mut tries = 0;
    while probe.next_retry().is_some() {
        tries += 1;
        probe.record_retry(false);
    }
    assert_eq!(tries, 10);
    assert!(!probe.target_found());
    assert_eq!(probe.result(), 0);
}
