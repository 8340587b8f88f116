//! Binary encodings of the wire records: CBOR towards the cloud, and
//! fixed-size postcard frames over a serial line.
use vstd::prelude::*;

use embedded_update::Command as WireCommand;
use embedded_update::Status as WireStatus;

use crate::protocol::{Command, CommandView, Status, StatusView, UpdateStatus};

verus! {

/// Size of every frame on the serial line.
pub const FRAME_SIZE: usize = 1024;

/// The CBOR encoding of a status, as serde_cbor writes it.
pub uninterp spec fn cbor_of_status(s: StatusView) -> Seq<u8>;

/// The command that CBOR bytes decode to, if they are one whole command.
pub uninterp spec fn command_of_cbor(b: Seq<u8>) -> Option<CommandView>;

/// The postcard encoding of a command.
pub uninterp spec fn postcard_of_command(c: CommandView) -> Seq<u8>;

/// The status that postcard decodes from the start of a byte string.
pub uninterp spec fn status_of_postcard(b: Seq<u8>) -> Option<StatusView>;

/// Model of a decoded command.
pub open spec fn command_option_view(r: Option<Command>) -> Option<CommandView> {
    match r {
        Some(c) => Some(c@),
        None => None,
    }
}

/// Model of a decoded status.
pub open spec fn status_option_view(r: Option<Status>) -> Option<StatusView> {
    match r {
        Some(s) => Some(s@),
        None => None,
    }
}

/// A frame: `payload` followed by zeros up to `FRAME_SIZE` bytes.
pub open spec fn frame_of(payload: Seq<u8>) -> Seq<u8> {
    payload + Seq::new((FRAME_SIZE - payload.len()) as nat, |i: int| 0u8)
}

/// Relies on serde_cbor::to_vec over embedded_update's `Status`: it writes
/// the record's CBOR encoding, and cannot fail, since writing to a `Vec`
/// always succeeds and the record holds only byte strings, options and
/// 32-bit integers.
#[verifier::external_body]
pub(crate) fn cbor_encode_status(s: &Status) -> (r: Option<Vec<u8>>)
    ensures
        r is Some,
        r matches Some(b) ==> b@ == cbor_of_status(s@),
{
    let wire = match &s.update {
        None => WireStatus::first(&s.version, s.mtu, s.correlation_id),
        Some(u) => WireStatus::update(&s.version, s.mtu, u.offset, &u.version, s.correlation_id),
    };
    serde_cbor::to_vec(&wire).ok()
}

/// Relies on serde_cbor::from_slice into embedded_update's `Command`: it
/// decodes one whole command, or fails.
#[verifier::external_body]
pub(crate) fn cbor_decode_command(b: &[u8]) -> (r: Option<Command>)
    ensures
        command_option_view(r) == command_of_cbor(b@),
{
    Some(match serde_cbor::from_slice::<WireCommand>(b).ok()? {
        WireCommand::Wait { correlation_id, poll } => Command::Wait { correlation_id, poll },
        WireCommand::Sync { version, correlation_id, poll } => Command::Sync { version: version.to_vec(), correlation_id, poll },
        WireCommand::Write { version, correlation_id, offset, data } => Command::Write { version: version.to_vec(), correlation_id, offset, data: data.to_vec() },
        WireCommand::Swap { version, correlation_id, checksum } => Command::Swap { version: version.to_vec(), correlation_id, checksum: checksum.to_vec() },
    })
}

/// Relies on postcard::to_allocvec over embedded_update's `Command`: it
/// writes the record's postcard encoding, and cannot fail, since the `Vec`
/// flavour always accepts more bytes.
#[verifier::external_body]
fn postcard_encode_command(c: &Command) -> (r: Option<Vec<u8>>)
    ensures
        r is Some,
        r matches Some(b) ==> b@ == postcard_of_command(c@),
{
    postcard::to_allocvec(&match c {
        Command::Wait { correlation_id, poll } => WireCommand::new_wait(*poll, *correlation_id),
        Command::Sync { version, correlation_id, poll } => WireCommand::new_sync(version, *poll, *correlation_id),
        Command::Write { version, correlation_id, offset, data } => WireCommand::new_write(version, *offset, data, *correlation_id),
        Command::Swap { version, correlation_id, checksum } => WireCommand::new_swap(version, checksum, *correlation_id),
    }).ok()
}

/// Relies on postcard::from_bytes into embedded_update's `Status`: it decodes
/// a status from the start of the bytes and ignores the rest.
#[verifier::external_body]
fn postcard_decode_status(b: &[u8]) -> (r: Option<Status>)
    ensures
        status_option_view(r) == status_of_postcard(b@),
{
    let s = postcard::from_bytes::<WireStatus>(b).ok()?;
    let update = s.update.map(|u| UpdateStatus { version: u.version.to_vec(), offset: u.offset });
    Some(Status { version: s.version.to_vec(), mtu: s.mtu, correlation_id: s.correlation_id, update })
}

/// The frame that carries `payload`: the payload padded with zeros to
/// `FRAME_SIZE` bytes; `None` when it does not fit.
pub fn frame_payload(payload: Vec<u8>) -> (r: Option<Vec<u8>>)
    ensures
        payload@.len() <= FRAME_SIZE ==> (r matches Some(f) && f@ == frame_of(payload@)),
        payload@.len() > FRAME_SIZE ==> r is None,
{
    if payload.len() > FRAME_SIZE {
        return None;
    }
    let mut frame = payload;
    let ghost p = frame@;
    while frame.len() < FRAME_SIZE
        invariant
            p.len() <= frame@.len() <= FRAME_SIZE,
            frame@ == p + Seq::new((frame@.len() - p.len()) as nat, |i: int| 0u8),
        decreases FRAME_SIZE - frame@.len(),
    {
        frame.push(0u8);
        assert(frame@ =~= p + Seq::new((frame@.len() - p.len()) as nat, |i: int| 0u8));
    }
    Some(frame)
}

/// The serial frame that carries `c`: its postcard encoding padded with
/// zeros to `FRAME_SIZE` bytes; `None` when the encoding does not fit in a
/// frame.
pub fn encode_command_frame(c: &Command) -> (r: Option<Vec<u8>>)
    ensures
        postcard_of_command(c@).len() <= FRAME_SIZE ==> (r matches Some(f) && f@ == frame_of(
            postcard_of_command(c@),
        )),
        postcard_of_command(c@).len() > FRAME_SIZE ==> r is None,
{
    match postcard_encode_command(c) {
        Some(p) => frame_payload(p),
        None => None,
    }
}

/// The status a serial frame carries, read from the frame's start.
pub fn decode_status_frame(frame: &[u8]) -> (r: Option<Status>)
    ensures
        status_option_view(r) == status_of_postcard(frame@),
{
    postcard_decode_status(frame)
}

} // verus!
