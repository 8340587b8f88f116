use drgdfu::cloud::{
    decimal_string, device_user, request_body, CloudAction, DrogueFirmwareService,
    DEFAULT_BACKOFF_MS,
};
use drgdfu::error::DfuError;
use drgdfu::protocol::{Command, Status, UpdateStatus};

fn service() -> DrogueFirmwareService {
    DrogueFirmwareService::new("https://http.example.com", "dev@app", "secret", 30)
}

fn cbor_sync(version: &[u8]) -> Vec<u8> {
    serde_cbor::to_vec(&embedded_update::Command::new_sync(version, Some(60), None)).unwrap()
}

#[test]
fn backoff_once_then_sync() {
    let svc = service();
    let mut sleeps = Vec::new();
    let mut delivered = Vec::new();
    let answers: Vec<(u16, Vec<u8>)> = vec![(200, vec![0xff, 0x00, 0x13]), (200, cbor_sync(b"2.0"))];
    for (code, body) in answers {
        match svc.on_response(code, &body) {
            CloudAction::Backoff { ms } => sleeps.push(ms),
            CloudAction::Deliver(c) => delivered.push(c),
            CloudAction::Fail(e) => panic!("unexpected failure {:?}", e),
        }
    }
    assert_eq!(sleeps, vec![DEFAULT_BACKOFF_MS]);
    assert_eq!(
        delivered,
        vec![Command::Sync { version: b"2.0".to_vec(), correlation_id: None, poll: Some(60) }]
    );
}

#[test]
fn non_success_status_fails() {
    let svc = service();
    assert_eq!(svc.on_response(404, &cbor_sync(b"1")), CloudAction::Fail(DfuError::Http(404)));
    assert_eq!(svc.on_response(503, b""), CloudAction::Fail(DfuError::Http(503)));
    assert_eq!(svc.on_response(199, b""), CloudAction::Fail(DfuError::Http(199)));
}

#[test]
fn classify_response_uses_configured_backoff() {
    let svc = service().with_backoff(5000);
    assert_eq!(svc.classify_response(204, None), CloudAction::Backoff { ms: 5000 });
    let c = Command::Wait { correlation_id: None, poll: Some(3) };
    assert_eq!(svc.classify_response(299, Some(c.clone())), CloudAction::Deliver(c));
    assert_eq!(svc.classify_response(300, None), CloudAction::Fail(DfuError::Http(300)));
}

#[test]
fn endpoint_and_query() {
    let svc = service();
    assert_eq!(svc.endpoint(), "https://http.example.com/v1/dfu");
    assert_eq!(svc.query(), vec![("ct".to_string(), "30".to_string())]);
    let svc = svc.acting_as("sensor-1");
    assert_eq!(
        svc.query(),
        vec![
            ("ct".to_string(), "30".to_string()),
            ("as".to_string(), "sensor-1".to_string())
        ]
    );
    assert_eq!(svc.user, "dev@app");
    assert_eq!(svc.password, "secret");
}

#[test]
fn client_waits_longer_than_long_poll() {
    assert_eq!(service().client_timeout_secs(), 35);
    let svc = DrogueFirmwareService::new("u", "a", "b", u64::MAX);
    assert_eq!(svc.client_timeout_secs(), u64::MAX);
}

#[test]
fn decimal_writing() {
    assert_eq!(decimal_string(0), "0");
    assert_eq!(decimal_string(7), "7");
    assert_eq!(decimal_string(10), "10");
    assert_eq!(decimal_string(4096), "4096");
    assert_eq!(decimal_string(u64::MAX), u64::MAX.to_string());
}

#[test]
fn gateway_user_name() {
    assert_eq!(device_user("sensor-1", "my-app"), "sensor-1@my-app");
}

#[test]
fn request_body_decodes_to_the_status() {
    let s = Status {
        version: b"1.0".to_vec(),
        mtu: Some(512),
        correlation_id: Some(3),
        update: Some(UpdateStatus { version: b"2.0".to_vec(), offset: 1024 }),
    };
    let body = request_body(&s);
    let wire: embedded_update::Status = serde_cbor::from_slice(&body).unwrap();
    assert_eq!(&wire.version[..], b"1.0");
    assert_eq!(wire.mtu, Some(512));
    assert_eq!(wire.correlation_id, Some(3));
    let u = wire.update.unwrap();
    assert_eq!(&u.version[..], b"2.0");
    assert_eq!(u.offset, 1024);
}

#[test]
fn request_body_keeps_absent_fields() {
    let s = Status { version: b"1.0".to_vec(), mtu: None, correlation_id: None, update: None };
    let body = request_body(&s);
    let wire: embedded_update::Status = serde_cbor::from_slice(&body).unwrap();
    assert_eq!(&wire.version[..], b"1.0");
    assert_eq!(wire.mtu, None);
    assert_eq!(wire.correlation_id, None);
    assert!(wire.update.is_none());
}

#[test]
fn every_command_variant_decodes_from_cbor() {
    let svc = service();
    let cases = vec![
        (
            embedded_update::Command::new_wait(Some(9), Some(1)),
            Command::Wait { correlation_id: Some(1), poll: Some(9) },
        ),
        (
            embedded_update::Command::new_sync(b"1", None, None),
            Command::Sync { version: b"1".to_vec(), correlation_id: None, poll: None },
        ),
        (
            embedded_update::Command::new_write(b"2", 16, &[1, 2, 3], Some(4)),
            Command::Write { version: b"2".to_vec(), correlation_id: Some(4), offset: 16, data: vec![1, 2, 3] },
        ),
        (
            embedded_update::Command::new_swap(b"2", &[7; 32], None),
            Command::Swap { version: b"2".to_vec(), correlation_id: None, checksum: vec![7; 32] },
        ),
    ];
    for (wire, expected) in cases {
        let body = serde_cbor::to_vec(&wire).unwrap();
        assert_eq!(svc.on_response(200, &body), CloudAction::Deliver(expected));
    }
}
