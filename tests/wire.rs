use drgdfu::codec::{decode_status_frame, encode_command_frame, FRAME_SIZE};
use drgdfu::firmware::{FirmwareError, FirmwareFileMeta};
use drgdfu::gatt::{gatt_block, gatt_step, mtu_from_char, offset_from_le};
use drgdfu::protocol::{bytes_eq, Command, Status, UpdateStatus};

#[test]
fn command_frame_round_trips() {
    let cmds = vec![
        Command::Write { version: b"2.0".to_vec(), correlation_id: None, offset: 8, data: vec![1, 2, 3] },
        Command::Swap { version: b"2.0".to_vec(), correlation_id: Some(2), checksum: vec![0; 32] },
        Command::Sync { version: b"2.0".to_vec(), correlation_id: None, poll: None },
        Command::Wait { correlation_id: None, poll: Some(1) },
    ];
    for c in cmds {
        let frame = encode_command_frame(&c).unwrap();
        assert_eq!(frame.len(), FRAME_SIZE);
        let wire: embedded_update::Command = postcard::from_bytes(&frame).unwrap();
        let back = match wire {
            embedded_update::Command::Write { version, correlation_id, offset, data } => Command::Write {
                version: version.to_vec(),
                correlation_id,
                offset,
                data: data.to_vec(),
            },
            embedded_update::Command::Swap { version, correlation_id, checksum } => Command::Swap {
                version: version.to_vec(),
                correlation_id,
                checksum: checksum.to_vec(),
            },
            embedded_update::Command::Sync { version, correlation_id, poll } => Command::Sync {
                version: version.to_vec(),
                correlation_id,
                poll,
            },
            embedded_update::Command::Wait { correlation_id, poll } => Command::Wait { correlation_id, poll },
        };
        assert_eq!(back, c);
    }
}

#[test]
fn command_frame_pads_with_zeros() {
    let c = Command::Sync { version: b"1".to_vec(), correlation_id: None, poll: None };
    let frame = encode_command_frame(&c).unwrap();
    let payload = postcard::to_allocvec(&embedded_update::Command::new_sync(b"1", None, None)).unwrap();
    assert_eq!(&frame[..payload.len()], &payload[..]);
    assert!(frame[payload.len()..].iter().all(|b| *b == 0));
}

#[test]
fn oversized_command_has_no_frame() {
    let c = Command::Write { version: b"2".to_vec(), correlation_id: None, offset: 0, data: vec![1; FRAME_SIZE] };
    assert_eq!(encode_command_frame(&c), None);
}

#[test]
fn status_frame_decodes() {
    let wire = embedded_update::Status::update(b"1.0", Some(968), 40, b"2.0", None);
    let mut frame = postcard::to_allocvec(&wire).unwrap();
    frame.resize(FRAME_SIZE, 0);
    let s = decode_status_frame(&frame).unwrap();
    assert_eq!(
        s,
        Status {
            version: b"1.0".to_vec(),
            mtu: Some(968),
            correlation_id: None,
            update: Some(UpdateStatus { version: b"2.0".to_vec(), offset: 40 }),
        }
    );
    let first = postcard::to_allocvec(&embedded_update::Status::first(b"1.0", None, Some(5))).unwrap();
    let s = decode_status_frame(&first).unwrap();
    assert_eq!(s.update, None);
    assert_eq!(s.correlation_id, Some(5));
}

#[test]
fn garbage_status_frame_is_none() {
    assert_eq!(decode_status_frame(&[]), None);
}

#[test]
fn metadata_loads_matching_image() {
    let meta = FirmwareFileMeta::new("2.0", 4, "fw.bin");
    assert_eq!(meta.version, "2.0");
    assert_eq!(meta.file, "fw.bin");
    let img = meta.load(vec![1, 2, 3, 4]).unwrap();
    assert_eq!(img.version(), b"2.0");
    assert_eq!(img.data(), &[1, 2, 3, 4][..]);
}

#[test]
fn metadata_size_mismatch() {
    let meta = FirmwareFileMeta::new("2.0", 5, "fw.bin");
    assert_eq!(
        meta.load(vec![1, 2, 3, 4]).err(),
        Some(FirmwareError::SizeMismatch { expected: 5, actual: 4 })
    );
}

#[test]
fn offset_characteristic_is_little_endian() {
    assert_eq!(offset_from_le(&[0x00, 0x10, 0x00, 0x00]), Some(4096));
    assert_eq!(offset_from_le(&[0x78, 0x56, 0x34, 0x12, 0xff]), Some(0x12345678));
    assert_eq!(offset_from_le(&[0xff, 0xff, 0xff, 0xff]), Some(u32::MAX));
    assert_eq!(offset_from_le(&[1, 2, 3]), None);
}

#[test]
fn mtu_characteristic_is_first_byte() {
    assert_eq!(mtu_from_char(&[128, 1]), Some(128));
    assert_eq!(mtu_from_char(&[]), None);
}

#[test]
fn gatt_blocks_are_padded() {
    let fw: Vec<u8> = (1..=10).collect();
    assert_eq!(gatt_block(&fw, 0, 4), vec![1, 2, 3, 4]);
    assert_eq!(gatt_block(&fw, 8, 4), vec![9, 10, 0, 0]);
    assert_eq!(gatt_block(&fw, 10, 3), vec![0, 0, 0]);
}

#[test]
fn version_bytes_compare_exactly() {
    assert!(bytes_eq(b"1.0", b"1.0"));
    assert!(!bytes_eq(b"1.0", b"1.00"));
    assert!(!bytes_eq(b"1.0", b"1.1"));
    assert!(bytes_eq(b"", b""));
}

#[test]
fn payload_framing() {
    let f = drgdfu::codec::frame_payload(vec![7, 8]).unwrap();
    assert_eq!(f.len(), FRAME_SIZE);
    assert_eq!(&f[..2], &[7, 8]);
    assert!(f[2..].iter().all(|b| *b == 0));
    assert_eq!(drgdfu::codec::frame_payload(vec![1; FRAME_SIZE]).unwrap(), vec![1; FRAME_SIZE]);
    assert_eq!(drgdfu::codec::frame_payload(vec![1; FRAME_SIZE + 1]), None);
}

#[test]
fn gatt_steps_by_mtu() {
    assert_eq!(gatt_step(0, 4096, 128), Some((128, 4224)));
    assert_eq!(gatt_step(8, u32::MAX - 4, 4), Some((12, u32::MAX)));
    assert_eq!(gatt_step(8, u32::MAX - 4, 5), None);
}
