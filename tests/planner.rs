use drgdfu::planner::{FirmwareImage, PlanError, DEFAULT_MTU};
use drgdfu::protocol::{Command, Status, UpdateStatus};

fn image(version: &[u8], data: Vec<u8>) -> FirmwareImage {
    FirmwareImage::new(version.to_vec(), data).unwrap()
}

fn counting(n: usize) -> Vec<u8> {
    (0..n).map(|i| i as u8).collect()
}

fn status(version: &[u8], mtu: Option<u32>, update: Option<(&[u8], u32)>) -> Status {
    Status {
        version: version.to_vec(),
        mtu,
        correlation_id: None,
        update: update.map(|(v, offset)| UpdateStatus { version: v.to_vec(), offset }),
    }
}

#[test]
fn already_in_sync_answers_sync() {
    let img = image(b"1.0", vec![0; 100]);
    let r = img.plan(&status(b"1.0", None, None)).unwrap();
    assert_eq!(
        r,
        Command::Sync { version: b"1.0".to_vec(), correlation_id: None, poll: None }
    );
}

#[test]
fn same_version_syncs_even_with_pending_update() {
    let img = image(b"2.0", vec![1; 10]);
    let r = img.plan(&status(b"2.0", Some(4), Some((b"3.0", 7)))).unwrap();
    assert!(matches!(r, Command::Sync { .. }));
}

#[test]
fn fresh_update_single_chunk() {
    let img = image(b"2.0", vec![0xAA; 10]);
    let first = img.plan(&status(b"1.0", Some(4096), None)).unwrap();
    assert_eq!(
        first,
        Command::Write {
            version: b"2.0".to_vec(),
            correlation_id: None,
            offset: 0,
            data: vec![0xAA; 10],
        }
    );
    let second = img.plan(&status(b"1.0", Some(4096), Some((b"2.0", 10)))).unwrap();
    assert_eq!(
        second,
        Command::Swap { version: b"2.0".to_vec(), correlation_id: None, checksum: vec![0; 32] }
    );
    let third = img.plan(&status(b"2.0", Some(4096), None)).unwrap();
    assert_eq!(
        third,
        Command::Sync { version: b"2.0".to_vec(), correlation_id: None, poll: None }
    );
}

#[test]
fn fresh_update_multi_chunk() {
    let data = counting(10);
    let img = image(b"2.0", data.clone());
    let mut offsets = Vec::new();
    let mut s = status(b"1.0", Some(4), None);
    loop {
        match img.plan(&s).unwrap() {
            Command::Write { version, offset, data: block, .. } => {
                assert_eq!(version, b"2.0".to_vec());
                assert_eq!(block, data[offset as usize..offset as usize + block.len()].to_vec());
                offsets.push((offset, block.len()));
                s.update = Some(UpdateStatus { version, offset: offset + block.len() as u32 });
            }
            Command::Swap { version, .. } => {
                assert_eq!(version, b"2.0".to_vec());
                break;
            }
            other => panic!("unexpected command {:?}", other),
        }
    }
    assert_eq!(offsets, vec![(0, 4), (4, 4), (8, 2)]);
}

#[test]
fn resume_continues_at_reported_offset() {
    let data = counting(10);
    let img = image(b"2.0", data.clone());
    let r = img.plan(&status(b"1.0", Some(4), Some((b"2.0", 4)))).unwrap();
    assert_eq!(
        r,
        Command::Write {
            version: b"2.0".to_vec(),
            correlation_id: None,
            offset: 4,
            data: data[4..8].to_vec(),
        }
    );
}

#[test]
fn wrong_target_restarts_from_zero() {
    let data = counting(10);
    let img = image(b"2.0", data.clone());
    let r = img.plan(&status(b"1.0", Some(4), Some((b"1.9", 20)))).unwrap();
    assert_eq!(
        r,
        Command::Write {
            version: b"2.0".to_vec(),
            correlation_id: None,
            offset: 0,
            data: data[0..4].to_vec(),
        }
    );
}

#[test]
fn offset_beyond_image_is_an_error() {
    let img = image(b"2.0", counting(10));
    let r = img.plan(&status(b"1.0", Some(4), Some((b"2.0", 11))));
    assert_eq!(r, Err(PlanError::OffsetBeyondImage));
}

#[test]
fn default_mtu_applies_without_one() {
    let img = image(b"2.0", counting(5000));
    match img.plan(&status(b"1.0", None, None)).unwrap() {
        Command::Write { data, .. } => assert_eq!(data.len(), DEFAULT_MTU as usize),
        other => panic!("unexpected command {:?}", other),
    }
}

#[test]
fn correlation_id_is_echoed() {
    let img = image(b"2.0", counting(3));
    let mut s = status(b"1.0", Some(8), None);
    s.correlation_id = Some(77);
    match img.plan(&s).unwrap() {
        Command::Write { correlation_id, data, .. } => {
            assert_eq!(correlation_id, Some(77));
            assert_eq!(data, counting(3));
        }
        other => panic!("unexpected command {:?}", other),
    }
}

#[test]
fn write_and_swap_name_image_version() {
    let img = image(b"9", counting(6));
    for s in [
        status(b"1", Some(4), None),
        status(b"1", Some(4), Some((b"8", 2))),
        status(b"1", Some(4), Some((b"9", 2))),
        status(b"1", Some(4), Some((b"9", 6))),
    ] {
        match img.plan(&s).unwrap() {
            Command::Write { version, .. } | Command::Swap { version, .. } => {
                assert_eq!(version, b"9".to_vec())
            }
            other => panic!("unexpected command {:?}", other),
        }
    }
}

#[test]
fn write_stays_within_mtu_and_image() {
    let img = image(b"9", counting(13));
    for mtu in [1u32, 3, 5, 13, 100] {
        for offset in 0..13u32 {
            match img.plan(&status(b"1", Some(mtu), Some((b"9", offset)))).unwrap() {
                Command::Write { offset: o, data, .. } => {
                    assert_eq!(o, offset);
                    assert!(data.len() <= mtu as usize);
                    assert!(o as usize + data.len() <= 13);
                    assert_eq!(data.len(), std::cmp::min(mtu as usize, 13 - offset as usize));
                }
                other => panic!("unexpected command {:?}", other),
            }
        }
    }
}

#[test]
fn zero_mtu_gives_empty_block() {
    let img = image(b"9", counting(4));
    match img.plan(&status(b"1", Some(0), None)).unwrap() {
        Command::Write { data, offset, .. } => {
            assert_eq!(offset, 0);
            assert!(data.is_empty());
        }
        other => panic!("unexpected command {:?}", other),
    }
}

#[test]
fn empty_image_swaps_after_start() {
    let img = image(b"2", Vec::new());
    assert_eq!(img.size(), 0);
    match img.plan(&status(b"1", Some(4), None)).unwrap() {
        Command::Write { offset, data, .. } => {
            assert_eq!(offset, 0);
            assert!(data.is_empty());
        }
        other => panic!("unexpected command {:?}", other),
    }
    assert!(matches!(
        img.plan(&status(b"1", Some(4), Some((b"2", 0)))).unwrap(),
        Command::Swap { .. }
    ));
}

#[test]
fn image_accessors() {
    let img = image(b"3.1", counting(7));
    assert_eq!(img.version(), b"3.1");
    assert_eq!(img.data(), &counting(7)[..]);
    assert_eq!(img.size(), 7);
}
