//! A simulated device: it keeps the bytes it is sent and installs them on
//! `swap`, as a real target would.
use vstd::prelude::*;
use vstd::string::StringSliceAdditionalSpecFns;

use crate::error::DeviceError;
use crate::protocol::{copy_bytes, StatusView, UpdateStatus, UpdateStatusView};

verus! {

/// Block size the simulator asks for unless told otherwise.
pub const SIMULATOR_MTU: u32 = 256;

/// Simulated firmware device.
pub struct DeviceSimulator {
    version: Vec<u8>,
    mtu: u32,
    next_version: Option<Vec<u8>>,
    received: Vec<u8>,
    firmware: Vec<u8>,
    updated: bool,
    booted: bool,
}

/// Mathematical model of a [`DeviceSimulator`].
pub struct DeviceView {
    /// The version it runs.
    pub version: Seq<u8>,
    /// Largest block it accepts in one write.
    pub mtu: u32,
    /// The version being written, if an update was started.
    pub next_version: Option<Seq<u8>>,
    /// The bytes accepted for the update in progress.
    pub received: Seq<u8>,
    /// The bytes installed by the last swap.
    pub firmware: Seq<u8>,
    /// A swap happened and its image has not been marked good yet.
    pub updated: bool,
    /// The running image was marked good after a swap.
    pub booted: bool,
}

impl View for DeviceSimulator {
    type V = DeviceView;

    closed spec fn view(&self) -> DeviceView {
        DeviceView {
            version: self.version@,
            mtu: self.mtu,
            next_version: match self.next_version {
                Some(v) => Some(v@),
                None => None,
            },
            received: self.received@,
            firmware: self.firmware@,
            updated: self.updated,
            booted: self.booted,
        }
    }
}

/// The pending-update record a device reports.
pub open spec fn pending_of(d: DeviceView) -> Option<UpdateStatusView> {
    match d.next_version {
        Some(v) => Some(UpdateStatusView { version: v, offset: d.received.len() as u32 }),
        None => None,
    }
}

/// The report a device makes of itself.
pub open spec fn report(d: DeviceView) -> StatusView {
    StatusView { version: d.version, mtu: Some(d.mtu), correlation_id: None, update: pending_of(d) }
}

/// The state a device takes after `start(version)`.
pub open spec fn started(d: DeviceView, version: Seq<u8>) -> DeviceView {
    DeviceView { next_version: Some(version), received: Seq::empty(), ..d }
}

/// Whether `write(offset, data)` is accepted.
pub open spec fn write_ok(d: DeviceView, offset: u32, data: Seq<u8>) -> bool {
    &&& d.next_version is Some
    &&& offset == d.received.len()
    &&& offset + data.len() <= u32::MAX
}

/// The state a device takes after an accepted write.
pub open spec fn written(d: DeviceView, data: Seq<u8>) -> DeviceView {
    DeviceView { received: d.received + data, ..d }
}

/// The state a device takes after `swap(version)`: it runs `version`, made of
/// the bytes it received.
pub open spec fn swapped(d: DeviceView, version: Seq<u8>) -> DeviceView {
    DeviceView {
        version,
        next_version: None,
        received: Seq::empty(),
        firmware: d.received,
        updated: true,
        booted: false,
        ..d
    }
}

/// The state a device takes after `synced`.
pub open spec fn synced(d: DeviceView) -> DeviceView {
    if d.updated {
        DeviceView { updated: false, booted: true, ..d }
    } else {
        d
    }
}

impl DeviceSimulator {
    #[verifier::type_invariant]
    spec fn offsets_fit(self) -> bool {
        self.received@.len() <= u32::MAX
    }

    /// A simulated device that runs `version`, with no update in progress.
    pub fn new(version: &str) -> (r: DeviceSimulator)
        ensures
            r@.version == version.spec_bytes(),
            r@.mtu == SIMULATOR_MTU,
            r@.next_version is None,
            r@.received.len() == 0,
            r@.firmware.len() == 0,
            !r@.updated,
            !r@.booted,
    {
        DeviceSimulator::with_mtu(version.as_bytes(), SIMULATOR_MTU)
    }

    /// A simulated device that runs `version` and takes blocks of at most
    /// `mtu` bytes.
    pub fn with_mtu(version: &[u8], mtu: u32) -> (r: DeviceSimulator)
        ensures
            r@.version == version@,
            r@.mtu == mtu,
            r@.next_version is None,
            r@.received.len() == 0,
            r@.firmware.len() == 0,
            !r@.updated,
            !r@.booted,
    {
        DeviceSimulator {
            version: copy_bytes(version),
            mtu,
            next_version: None,
            received: Vec::new(),
            firmware: Vec::new(),
            updated: false,
            booted: false,
        }
    }

    /// Largest block the device accepts in one write.
    pub fn mtu(&self) -> (r: u32)
        ensures
            r == self@.mtu,
            self@.received.len() <= u32::MAX,
    {
        proof {
            use_type_invariant(self);
        }
        self.mtu
    }

    /// The version the device runs.
    pub fn version(&self) -> (r: Vec<u8>)
        ensures
            r@ == self@.version,
    {
        copy_bytes(self.version.as_slice())
    }

    /// The bytes installed by the last swap.
    pub fn firmware(&self) -> (r: &[u8])
        ensures
            r@ == self@.firmware,
    {
        self.firmware.as_slice()
    }

    /// Whether the running image was marked good after a swap.
    pub fn is_booted(&self) -> (r: bool)
        ensures
            r == self@.booted,
    {
        self.booted
    }

    /// The update in progress: the version being written and how many bytes
    /// of it the device holds.
    pub fn status(&self) -> (r: Option<UpdateStatus>)
        ensures
            match r {
                Some(u) => pending_of(self@) == Some(u@),
                None => pending_of(self@) is None,
            },
            self@.received.len() <= u32::MAX,
    {
        proof {
            use_type_invariant(self);
        }
        match &self.next_version {
            Some(v) => Some(
                UpdateStatus { version: copy_bytes(v.as_slice()), offset: self.received.len() as u32 },
            ),
            None => None,
        }
    }

    /// Prepares the device to receive `version` from offset zero.
    pub fn start(&mut self, version: &[u8])
        ensures
            final(self)@ == started(old(self)@, version@),
            final(self)@.received.len() <= u32::MAX,
    {
        proof {
            use_type_invariant(&*self);
        }
        self.next_version = Some(copy_bytes(version));
        self.received = Vec::new();
    }

    /// Accepts `data` at `offset`, which must be where the last write stopped.
    pub fn write(&mut self, offset: u32, data: &[u8]) -> (r: Result<(), DeviceError>)
        ensures
            write_ok(old(self)@, offset, data@) ==> r is Ok && final(self)@ == written(old(self)@, data@),
            !write_ok(old(self)@, offset, data@) ==> final(self)@ == old(self)@,
            old(self)@.next_version is None ==> r == Err::<(), DeviceError>(DeviceError::OffsetMismatch),
            old(self)@.next_version is Some && offset != old(self)@.received.len()
                ==> r == Err::<(), DeviceError>(DeviceError::OffsetMismatch),
            old(self)@.next_version is Some && offset == old(self)@.received.len()
                && offset + data@.len() > u32::MAX ==> r == Err::<(), DeviceError>(DeviceError::TooLarge),
            final(self)@.received.len() <= u32::MAX,
    {
        proof {
            use_type_invariant(&*self);
        }
        if self.next_version.is_none() || offset as usize != self.received.len() {
            return Err(DeviceError::OffsetMismatch);
        }
        if data.len() > (u32::MAX - offset) as usize {
            return Err(DeviceError::TooLarge);
        }
        let mut received = copy_bytes(self.received.as_slice());
        received.extend_from_slice(data);
        assert(received@ =~= old(self)@.received + data@);
        self.received = received;
        Ok(())
    }

    /// Commits the bytes received as firmware `version` and reboots into it.
    pub fn swap(&mut self, version: &[u8], checksum: &[u8])
        ensures
            final(self)@ == swapped(old(self)@, version@),
            final(self)@.received.len() <= u32::MAX,
    {
        proof {
            use_type_invariant(&*self);
        }
        self.firmware = copy_bytes(self.received.as_slice());
        self.received = Vec::new();
        self.version = copy_bytes(version);
        self.next_version = None;
        self.updated = true;
        self.booted = false;
    }

    /// Told that the device is in sync: a freshly swapped image is marked good.
    pub fn synced(&mut self)
        ensures
            final(self)@ == synced(old(self)@),
            final(self)@.received.len() <= u32::MAX,
    {
        proof {
            use_type_invariant(&*self);
        }
        if self.updated {
            self.updated = false;
            self.booted = true;
        }
    }
}

} // verus!
