//! Wire records of the update protocol: the report a device sends (`Status`)
//! and the instruction a firmware source answers with (`Command`).
use vstd::prelude::*;
use vstd::slice::slice_to_vec;

verus! {

/// Number of bytes of the checksum that a `Swap` carries.
pub const CHECKSUM_LEN: usize = 32;

/// The record of an update in progress on a device: it has accepted `offset`
/// bytes of the firmware declared to be `version`.
#[derive(Clone, Debug, PartialEq, Eq)]
pub struct UpdateStatus {
    pub version: Vec<u8>,
    pub offset: u32,
}

/// Mathematical model of an [`UpdateStatus`].
pub struct UpdateStatusView {
    pub version: Seq<u8>,
    pub offset: u32,
}

impl View for UpdateStatus {
    type V = UpdateStatusView;

    open spec fn view(&self) -> UpdateStatusView {
        UpdateStatusView { version: self.version@, offset: self.offset }
    }
}

/// A report from a device to a firmware source.
#[derive(Clone, Debug, PartialEq, Eq)]
pub struct Status {
    /// The firmware version the device runs.
    pub version: Vec<u8>,
    /// The largest block the device accepts in one write, if it says so.
    pub mtu: Option<u32>,
    /// Token that the source echoes in its answer.
    pub correlation_id: Option<u32>,
    /// The update in progress on the device, if any.
    pub update: Option<UpdateStatus>,
}

/// Mathematical model of a [`Status`].
pub struct StatusView {
    pub version: Seq<u8>,
    pub mtu: Option<u32>,
    pub correlation_id: Option<u32>,
    pub update: Option<UpdateStatusView>,
}

pub open spec fn update_view(u: Option<UpdateStatus>) -> Option<UpdateStatusView> {
    match u {
        Some(u) => Some(u@),
        None => None,
    }
}

impl View for Status {
    type V = StatusView;

    open spec fn view(&self) -> StatusView {
        StatusView {
            version: self.version@,
            mtu: self.mtu,
            correlation_id: self.correlation_id,
            update: update_view(self.update),
        }
    }
}

/// An instruction from a firmware source to a device.
#[derive(Clone, Debug, PartialEq, Eq)]
pub enum Command {
    /// Report again later; nothing to do now.
    Wait { correlation_id: Option<u32>, poll: Option<u32> },
    /// The device runs `version`, which is the one wanted; `poll` advises the
    /// delay in seconds before the next report.
    Sync { version: Vec<u8>, correlation_id: Option<u32>, poll: Option<u32> },
    /// Persist `data` at `offset` of the firmware `version` being written.
    Write { version: Vec<u8>, correlation_id: Option<u32>, offset: u32, data: Vec<u8> },
    /// The whole of `version` has been written: commit it.
    Swap { version: Vec<u8>, correlation_id: Option<u32>, checksum: Vec<u8> },
}

/// Mathematical model of a [`Command`].
pub enum CommandView {
    Wait { correlation_id: Option<u32>, poll: Option<u32> },
    Sync { version: Seq<u8>, correlation_id: Option<u32>, poll: Option<u32> },
    Write { version: Seq<u8>, correlation_id: Option<u32>, offset: u32, data: Seq<u8> },
    Swap { version: Seq<u8>, correlation_id: Option<u32>, checksum: Seq<u8> },
}

impl View for Command {
    type V = CommandView;

    open spec fn view(&self) -> CommandView {
        match self {
            Command::Wait { correlation_id, poll } => CommandView::Wait {
                correlation_id: *correlation_id,
                poll: *poll,
            },
            Command::Sync { version, correlation_id, poll } => CommandView::Sync {
                version: version@,
                correlation_id: *correlation_id,
                poll: *poll,
            },
            Command::Write { version, correlation_id, offset, data } => CommandView::Write {
                version: version@,
                correlation_id: *correlation_id,
                offset: *offset,
                data: data@,
            },
            Command::Swap { version, correlation_id, checksum } => CommandView::Swap {
                version: version@,
                correlation_id: *correlation_id,
                checksum: checksum@,
            },
        }
    }
}

/// Whether two byte strings are equal; versions compare this way.
pub fn bytes_eq(a: &[u8], b: &[u8]) -> (r: bool)
    ensures
        r == (a@ == b@),
{
    if a.len() != b.len() {
        return false;
    }
    let mut i: usize = 0;
    while i < a.len()
        invariant
            a@.len() == b@.len(),
            i <= a@.len(),
            forall|j: int| 0 <= j < i ==> a@[j] == b@[j],
        decreases a@.len() - i,
    {
        if a[i] != b[i] {
            return false;
        }
        i = i + 1;
    }
    assert(a@ =~= b@);
    true
}

/// An owned copy of a byte string.
pub fn copy_bytes(b: &[u8]) -> (r: Vec<u8>)
    ensures
        r@ == b@,
{
    slice_to_vec(b)
}

impl UpdateStatus {
    /// A field-by-field copy.
    pub fn copied(&self) -> (r: UpdateStatus)
        ensures
            r@ == self@,
    {
        UpdateStatus { version: copy_bytes(self.version.as_slice()), offset: self.offset }
    }
}

impl Command {
    /// A field-by-field copy.
    pub fn copied(&self) -> (r: Command)
        ensures
            r@ == self@,
    {
        match self {
            Command::Wait { correlation_id, poll } => Command::Wait {
                correlation_id: *correlation_id,
                poll: *poll,
            },
            Command::Sync { version, correlation_id, poll } => Command::Sync {
                version: copy_bytes(version.as_slice()),
                correlation_id: *correlation_id,
                poll: *poll,
            },
            Command::Write { version, correlation_id, offset, data } => Command::Write {
                version: copy_bytes(version.as_slice()),
                correlation_id: *correlation_id,
                offset: *offset,
                data: copy_bytes(data.as_slice()),
            },
            Command::Swap { version, correlation_id, checksum } => Command::Swap {
                version: copy_bytes(version.as_slice()),
                correlation_id: *correlation_id,
                checksum: copy_bytes(checksum.as_slice()),
            },
        }
    }
}

impl Status {
    /// A field-by-field copy.
    pub fn copied(&self) -> (r: Status)
        ensures
            r@ == self@,
    {
        let update = match &self.update {
            Some(u) => Some(u.copied()),
            None => None,
        };
        Status {
            version: copy_bytes(self.version.as_slice()),
            mtu: self.mtu,
            correlation_id: self.correlation_id,
            update,
        }
    }
}

} // verus!
