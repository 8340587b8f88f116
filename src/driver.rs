//! The update driver: turns a firmware source and a device into a session
//! that ends when the source answers `Sync`.
//!
//! A session reports the device's state to the source, carries out the
//! command it gets back, and keeps its own copy of the report up to date.
use vstd::prelude::*;

use crate::error::{DeviceError, DfuError};
use crate::laws::{lemma_run_steps_last, run_steps};
use crate::planner::{plan_of, FirmwareImage, ImageView, PlanError};
use crate::protocol::{
    copy_bytes, update_view, Command, CommandView, Status, StatusView, UpdateStatus,
    UpdateStatusView,
};
use crate::simulator::{report, DeviceSimulator, DeviceView};

verus! {

/// What the device must do to carry out a command.
#[derive(Debug, PartialEq, Eq)]
pub enum DeviceAction {
    /// Persist `data` at `offset` of `version`; when `start` holds, prepare
    /// the device for `version` first.
    Write { start: bool, version: Vec<u8>, offset: u32, data: Vec<u8> },
    /// Commit `version`.
    Swap { version: Vec<u8>, checksum: Vec<u8> },
    /// The device is in sync: tell it so and end the session.
    Synced { poll: Option<u32> },
    /// Report again after `poll` seconds, if given.
    Wait { poll: Option<u32> },
}

/// The driver's state across one session.
pub struct Session {
    /// The version the device ran when the session began.
    pub current_version: Vec<u8>,
    /// The device's MTU, reported in every status.
    pub mtu: u32,
    /// The report the source gets next.
    pub status: Status,
    /// A swap was dispatched since the agent began.
    pub updated: bool,
}

/// The report a session starts from: what the device runs, its MTU and the
/// update it has pending.
pub open spec fn initial_status(
    version: Seq<u8>,
    mtu: u32,
    pending: Option<UpdateStatusView>,
) -> StatusView {
    StatusView { version, mtu: Some(mtu), correlation_id: None, update: pending }
}

/// The report after `len` bytes of `version` were written at `offset`.
pub open spec fn status_after_write(
    s: StatusView,
    version: Seq<u8>,
    offset: u32,
    len: nat,
) -> StatusView {
    StatusView {
        update: Some(UpdateStatusView { version, offset: (offset + len) as u32 }),
        ..s
    }
}

/// Whether a device is midway through `img` with exactly the image's first
/// bytes, or busy with another version.
pub open spec fn holds_prefix_of(d: DeviceView, img: ImageView) -> bool {
    d.next_version == Some(img.version) ==> {
        &&& d.received.len() <= img.data.len()
        &&& d.received == img.data.subrange(0, d.received.len() as int)
    }
}

/// Whether a device that is midway through `img` claims no more bytes than
/// the image holds.
pub open spec fn fits_image(d: DeviceView, img: ImageView) -> bool {
    d.next_version == Some(img.version) ==> d.received.len() <= img.data.len()
}

/// Bound on the commands still needed to bring a device to `img`.
pub open spec fn commands_left(d: DeviceView, img: ImageView) -> nat {
    if d.version == img.version {
        0
    } else if d.next_version == Some(img.version) && d.received.len() <= img.data.len() {
        (img.data.len() - d.received.len() + 2) as nat
    } else {
        img.data.len() + 3
    }
}

/// Whether a list of commands is a session of updates that ends in the
/// `Sync` of `version`.
pub open spec fn ends_in_sync(cmds: Seq<Command>, version: Seq<u8>) -> bool {
    &&& cmds.len() >= 1
    &&& cmds.last()@ matches CommandView::Sync { version: v, .. } && v == version
    &&& forall|i: int|
        0 <= i < cmds.len() - 1 ==> (#[trigger] cmds[i]@ is Write || cmds[i]@ is Swap)
}

impl DeviceAction {
    /// Whether this action carries out command `c`.
    pub open spec fn carries_out(self, c: CommandView) -> bool {
        match c {
            CommandView::Write { version, offset, data, .. } => self matches DeviceAction::Write {
                start: st,
                version: v,
                offset: o,
                data: d,
            } && st == (offset == 0) && v@ == version && o == offset && d@ == data,
            CommandView::Swap { version, checksum, .. } => self matches DeviceAction::Swap {
                version: v,
                checksum: k,
            } && v@ == version && k@ == checksum,
            CommandView::Sync { poll, .. } => self matches DeviceAction::Synced { poll: p } && p
                == poll,
            CommandView::Wait { poll, .. } => self matches DeviceAction::Wait { poll: p } && p
                == poll,
        }
    }
}

impl Session {
    /// Starts a session for a device that runs `version`, takes blocks of
    /// `mtu` bytes and reports `pending`; `updated` says whether a swap was
    /// already dispatched before the device came back.
    pub fn begin(version: Vec<u8>, mtu: u32, pending: Option<UpdateStatus>, updated: bool) -> (r:
        Session)
        ensures
            r.current_version@ == version@,
            r.mtu == mtu,
            r.status@ == initial_status(version@, mtu, update_view(pending)),
            r.updated == updated,
    {
        let status = Status {
            version: copy_bytes(version.as_slice()),
            mtu: Some(mtu),
            correlation_id: None,
            update: pending,
        };
        Session { current_version: version, mtu, status, updated }
    }

    /// What the device must do for command `c`: a `Write` at offset zero
    /// starts the transfer of its version first.
    pub fn action_for(c: Command) -> (r: DeviceAction)
        ensures
            r.carries_out(c@),
    {
        match c {
            Command::Write { version, offset, data, .. } => DeviceAction::Write {
                start: offset == 0,
                version,
                offset,
                data,
            },
            Command::Swap { version, checksum, .. } => DeviceAction::Swap { version, checksum },
            Command::Sync { poll, .. } => DeviceAction::Synced { poll },
            Command::Wait { poll, .. } => DeviceAction::Wait { poll },
        }
    }

    /// Records that the device accepted `len` bytes of `version` at `offset`:
    /// the next report shows the update at `offset + len`. Fails with
    /// `Protocol` when that offset does not fit in 32 bits.
    pub fn wrote(&mut self, version: &[u8], offset: u32, len: usize) -> (r: Result<(), DfuError>)
        ensures
            offset + len <= u32::MAX ==> r is Ok && final(self).status@ == status_after_write(
                old(self).status@,
                version@,
                offset,
                len as nat,
            ),
            offset + len > u32::MAX ==> r == Err::<(), DfuError>(DfuError::Protocol)
                && final(self).status@ == old(self).status@,
            final(self).current_version@ == old(self).current_version@,
            final(self).mtu == old(self).mtu,
            final(self).updated == old(self).updated,
    {
        if len > (u32::MAX - offset) as usize {
            return Err(DfuError::Protocol);
        }
        self.status.update = Some(
            UpdateStatus { version: copy_bytes(version), offset: offset + len as u32 },
        );
        Ok(())
    }

    /// Settles a swap request: a transport failure after the request left
    /// counts as delivered (see [`settle_swap`]); once delivered, the swap is
    /// recorded and the session must start again from the device's report.
    pub fn swap_done(&mut self, result: Result<(), DfuError>, request_sent: bool) -> (r: Result<
        (),
        DfuError,
    >)
        ensures
            r == (if request_sent && result == Err::<(), DfuError>(DfuError::Transport) {
                Ok(())
            } else {
                result
            }),
            final(self).updated == (old(self).updated || r is Ok),
            final(self).status@ == old(self).status@,
            final(self).current_version@ == old(self).current_version@,
            final(self).mtu == old(self).mtu,
    {
        let r = settle_swap(result, request_sent);
        if r.is_ok() {
            self.updated = true;
        }
        r
    }
}

/// Seconds a `Wait` lasts when it names no delay.
pub const DEFAULT_WAIT_SECS: u32 = 1;

/// Milliseconds to wait for a `Wait` with delay `poll` in seconds: the
/// default when none is given, and at most `u32::MAX`.
pub fn wait_delay_ms(poll: Option<u32>) -> (r: u32)
    ensures
        r == (if 1000 * (match poll {
            Some(p) => p,
            None => DEFAULT_WAIT_SECS,
        }) <= u32::MAX {
            (1000 * (match poll {
                Some(p) => p,
                None => DEFAULT_WAIT_SECS,
            })) as u32
        } else {
            u32::MAX
        }),
{
    let secs = match poll {
        Some(p) => p,
        None => DEFAULT_WAIT_SECS,
    };
    if secs > u32::MAX / 1000 {
        u32::MAX
    } else {
        secs * 1000
    }
}

/// The outcome of a swap request: a transport failure after the request left
/// the wire counts as delivered, since the device may have reset.
pub fn settle_swap(result: Result<(), DfuError>, request_sent: bool) -> (r: Result<(), DfuError>)
    ensures
        r == (if request_sent && result == Err::<(), DfuError>(DfuError::Transport) {
            Ok(())
        } else {
            result
        }),
{
    match result {
        Err(DfuError::Transport) if request_sent => Ok(()),
        other => other,
    }
}

/// Runs update sessions between `image`, as the source, and a simulated
/// device until the source answers `Sync`; returns the commands the source
/// gave, in order.
///
/// A device that already runs the image's version gets exactly one `Sync`
/// and no write. A device with a non-zero MTU always gets there, unless it
/// claims more bytes of the image's version than the image holds. One that
/// holds only the image's first bytes of any update of its version ends up
/// running the image, made of exactly its bytes, marked good.
pub fn run_local_session(device: &mut DeviceSimulator, image: &FirmwareImage) -> (r: Result<
    Vec<Command>,
    DfuError,
>)
    ensures
        old(device)@.mtu == 0 ==> r == Err::<Vec<Command>, DfuError>(
            DfuError::Device(DeviceError::ZeroMtu),
        ),
        old(device)@.mtu > 0 && fits_image(old(device)@, image@) ==> r is Ok,
        old(device)@.mtu > 0 && old(device)@.version != image@.version && !fits_image(
            old(device)@,
            image@,
        ) ==> r == Err::<Vec<Command>, DfuError>(DfuError::Planner(PlanError::OffsetBeyondImage)),
        r is Ok ==> final(device)@.version == image@.version,
        r is Ok ==> ends_in_sync(r->Ok_0@, image@.version),
        old(device)@.mtu > 0 && old(device)@.version == image@.version ==> r is Ok && r->Ok_0@.len()
            == 1 && final(device)@ == crate::simulator::synced(old(device)@),
        r is Ok && holds_prefix_of(old(device)@, image@) && old(device)@.version != image@.version
            ==> final(device)@.firmware == image@.data && final(device)@.booted,
        r is Err ==> final(device)@ == old(device)@,
        r matches Ok(cmds) ==> final(device)@ == run_steps(old(device)@, image@, cmds@.len() as nat),
        r matches Ok(cmds) ==> forall|i: int|
            0 <= i < cmds@.len() ==> plan_of(
                report(#[trigger] run_steps(old(device)@, image@, i as nat)),
                image@,
            ) == Ok::<CommandView, PlanError>(cmds@[i]@),
{
    let mtu = device.mtu();
    if mtu == 0 {
        return Err(DfuError::Device(DeviceError::ZeroMtu));
    }
    let size = image.size();
    let ghost start = device@;
    let ghost mut swapped_once = false;
    let mut commands: Vec<Command> = Vec::new();
    let mut session = Session::begin(device.version(), mtu, device.status(), false);
    loop
        invariant
            session.status@ == report(device@),
            device@.mtu == mtu,
            mtu > 0,
            size == image@.data.len(),
            commands@.len() == 0 ==> device@ == start,
            !swapped_once ==> device@.version == start.version && device@.firmware == start.firmware
                && device@.updated == start.updated && device@.booted == start.booted,
            swapped_once ==> device@.version == image@.version && device@.updated,
            swapped_once && holds_prefix_of(start, image@) ==> device@.firmware == image@.data,
            holds_prefix_of(start, image@) ==> holds_prefix_of(device@, image@),
            fits_image(start, image@) ==> fits_image(device@, image@),
            !fits_image(start, image@) && start.version != image@.version ==> commands@.len() == 0,
            forall|i: int|
                0 <= i < commands@.len() ==> (#[trigger] commands@[i]@ is Write
                    || commands@[i]@ is Swap),
            start.version == image@.version ==> commands@.len() == 0 && !swapped_once,
            start.mtu == mtu,
            start == old(device)@,
            device@.received.len() <= u32::MAX,
            device@ == run_steps(start, image@, commands@.len() as nat),
            forall|i: int|
                0 <= i < commands@.len() ==> plan_of(
                    report(#[trigger] run_steps(start, image@, i as nat)),
                    image@,
                ) == Ok::<CommandView, PlanError>(commands@[i]@),
        decreases commands_left(device@, image@),
    {
        let cmd = match image.plan(&session.status) {
            Ok(c) => c,
            Err(e) => return Err(DfuError::Planner(e)),
        };
        let ghost k = commands@.len() as nat;
        let ghost dk = device@;
        proof {
            lemma_run_steps_last(start, image@, k);
        }
        commands.push(cmd.copied());
        match Session::action_for(cmd) {
            DeviceAction::Write { start: st, version, offset, data } => {
                if st {
                    device.start(version.as_slice());
                }
                let ghost before = device@;
                match device.write(offset, data.as_slice()) {
                    Ok(()) => {},
                    Err(e) => return Err(DfuError::Device(e)),
                }
                proof {
                    if before.next_version == Some(image@.version) && holds_prefix_of(
                        before,
                        image@,
                    ) {
                        assert(device@.received =~= image@.data.subrange(
                            0,
                            device@.received.len() as int,
                        ));
                    }
                }
                match session.wrote(version.as_slice(), offset, data.len()) {
                    Ok(()) => {},
                    Err(e) => return Err(e),
                }
            },
            DeviceAction::Swap { version, checksum } => {
                device.swap(version.as_slice(), checksum.as_slice());
                proof {
                    swapped_once = true;
                }
                match session.swap_done(Ok(()), true) {
                    Ok(()) => {},
                    Err(e) => return Err(e),
                }
                let updated = session.updated;
                session = Session::begin(device.version(), mtu, device.status(), updated);
            },
            DeviceAction::Synced { .. } => {
                device.synced();
                return Ok(commands);
            },
            DeviceAction::Wait { .. } => {
                return Err(DfuError::Protocol);
            },
        }
    }
}

} // verus!
