//! The local-image firmware source: a pure planner that answers a device
//! report with the next command, from a firmware image held in memory.
use vstd::prelude::*;
use vstd::slice::slice_subrange;
use vstd::slice::slice_to_vec;

use crate::protocol::{bytes_eq, copy_bytes, Command, CommandView, Status, StatusView, CHECKSUM_LEN};

verus! {

/// Block size used when a report does not state the device's MTU.
pub const DEFAULT_MTU: u32 = 4096;

/// Why a report cannot be answered.
#[derive(Clone, Copy, Debug, PartialEq, Eq, Structural)]
pub enum PlanError {
    /// The device claims more bytes of the image than the image holds.
    OffsetBeyondImage,
}

/// A firmware image: the version it is and its bytes.
pub struct FirmwareImage {
    version: Vec<u8>,
    data: Vec<u8>,
}

/// Mathematical model of a [`FirmwareImage`].
pub struct ImageView {
    pub version: Seq<u8>,
    pub data: Seq<u8>,
}

impl View for FirmwareImage {
    type V = ImageView;

    closed spec fn view(&self) -> ImageView {
        ImageView { version: self.version@, data: self.data@ }
    }
}

/// The block size a report asks for.
pub open spec fn mtu_used(mtu: Option<u32>) -> nat {
    match mtu {
        Some(m) => m as nat,
        None => DEFAULT_MTU as nat,
    }
}

/// Length of the block that starts at `offset` of an image of `size` bytes.
pub open spec fn block_len(mtu: Option<u32>, size: nat, offset: nat) -> nat {
    let rest = (size - offset) as nat;
    if mtu_used(mtu) < rest {
        mtu_used(mtu)
    } else {
        rest
    }
}

/// The `Write` of the image's block at `offset`.
pub open spec fn write_at(img: ImageView, s: StatusView, offset: u32) -> CommandView {
    CommandView::Write {
        version: img.version,
        correlation_id: s.correlation_id,
        offset,
        data: img.data.subrange(
            offset as int,
            offset + block_len(s.mtu, img.data.len(), offset as nat),
        ),
    }
}

/// The checksum a `Swap` carries: its computation is not part of the
/// protocol, so every byte is zero.
pub open spec fn zero_checksum() -> Seq<u8> {
    Seq::new(CHECKSUM_LEN as nat, |i: int| 0u8)
}

/// The answer to report `s` from image `img`, rule by rule.
pub open spec fn plan_of(s: StatusView, img: ImageView) -> Result<CommandView, PlanError> {
    if s.version == img.version {
        Ok(CommandView::Sync { version: s.version, correlation_id: s.correlation_id, poll: None })
    } else {
        match s.update {
            None => Ok(write_at(img, s, 0)),
            Some(u) => if u.version != img.version {
                Ok(write_at(img, s, 0))
            } else if u.offset == img.data.len() {
                Ok(
                    CommandView::Swap {
                        version: img.version,
                        correlation_id: s.correlation_id,
                        checksum: zero_checksum(),
                    },
                )
            } else if u.offset > img.data.len() {
                Err(PlanError::OffsetBeyondImage)
            } else {
                Ok(write_at(img, s, u.offset))
            },
        }
    }
}

/// Model of a planner result.
pub open spec fn plan_view(r: Result<Command, PlanError>) -> Result<CommandView, PlanError> {
    match r {
        Ok(c) => Ok(c@),
        Err(e) => Err(e),
    }
}

impl FirmwareImage {
    #[verifier::type_invariant]
    spec fn offsets_fit(self) -> bool {
        self.data@.len() <= u32::MAX
    }

    /// An image of `version` made of `data`; `None` when it is too large for
    /// the protocol's 32-bit offsets.
    pub fn new(version: Vec<u8>, data: Vec<u8>) -> (r: Option<FirmwareImage>)
        ensures
            data@.len() <= u32::MAX ==> r is Some && r->0@ == (ImageView { version: version@, data: data@ }),
            data@.len() > u32::MAX ==> r is None,
    {
        if data.len() > u32::MAX as usize {
            None
        } else {
            Some(FirmwareImage { version, data })
        }
    }

    pub fn version(&self) -> (r: &[u8])
        ensures
            r@ == self@.version,
    {
        self.version.as_slice()
    }

    pub fn data(&self) -> (r: &[u8])
        ensures
            r@ == self@.data,
    {
        self.data.as_slice()
    }

    /// The image's size in bytes.
    pub fn size(&self) -> (r: u32)
        ensures
            r == self@.data.len(),
    {
        proof {
            use_type_invariant(self);
        }
        self.data.len() as u32
    }

    /// The `Write` of the block at `offset`, sized by the report's MTU.
    fn write_at(&self, s: &Status, offset: u32) -> (r: Command)
        requires
            offset <= self@.data.len(),
        ensures
            r@ == write_at(self@, s@, offset),
    {
        let m: usize = match s.mtu {
            Some(m) => m as usize,
            None => DEFAULT_MTU as usize,
        };
        let rest: usize = self.data.len() - offset as usize;
        let n: usize = if m < rest {
            m
        } else {
            rest
        };
        let block = slice_subrange(self.data.as_slice(), offset as usize, offset as usize + n);
        Command::Write {
            version: copy_bytes(self.version.as_slice()),
            correlation_id: s.correlation_id,
            offset,
            data: slice_to_vec(block),
        }
    }

    /// Answers report `s`: `Sync` when the device runs this image's version,
    /// `Swap` when it holds the whole image, else the `Write` of the next block
    /// (from the start, unless the device is midway through this very
    /// version).
    pub fn plan(&self, s: &Status) -> (r: Result<Command, PlanError>)
        ensures
            plan_view(r) == plan_of(s@, self@),
    {
        if bytes_eq(s.version.as_slice(), self.version.as_slice()) {
            return Ok(
                Command::Sync {
                    version: copy_bytes(s.version.as_slice()),
                    correlation_id: s.correlation_id,
                    poll: None,
                },
            );
        }
        match &s.update {
            None => Ok(self.write_at(s, 0)),
            Some(u) => {
                if !bytes_eq(u.version.as_slice(), self.version.as_slice()) {
                    Ok(self.write_at(s, 0))
                } else if u.offset as usize == self.data.len() {
                    let checksum: Vec<u8> = vec![0u8; CHECKSUM_LEN];
                    assert(checksum@ =~= zero_checksum());
                    Ok(
                        Command::Swap {
                            version: copy_bytes(self.version.as_slice()),
                            correlation_id: s.correlation_id,
                            checksum,
                        },
                    )
                } else if u.offset as usize > self.data.len() {
                    Err(PlanError::OffsetBeyondImage)
                } else {
                    Ok(self.write_at(s, u.offset))
                }
            },
        }
    }
}

} // verus!
