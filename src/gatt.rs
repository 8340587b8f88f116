//! The values of the firmware service's GATT characteristics, and the
//! blocks in which firmware is written to it.
use vstd::prelude::*;

verus! {

/// Control value that starts an update.
pub const CONTROL_START: u8 = 1;

/// Control value that commits the written firmware.
pub const CONTROL_SWAP: u8 = 2;

/// Control value that marks the running firmware good.
pub const CONTROL_MARK_BOOTED: u8 = 3;

/// The little-endian integer of four bytes.
pub open spec fn le_u32(b0: u8, b1: u8, b2: u8, b3: u8) -> int {
    b0 + 256 * b1 + 65536 * b2 + 16777216 * b3
}

/// The offset characteristic's value: a little-endian integer in its first
/// four bytes; `None` when it holds fewer.
pub fn offset_from_le(data: &[u8]) -> (r: Option<u32>)
    ensures
        data@.len() < 4 ==> r is None,
        data@.len() >= 4 ==> (r matches Some(v) && v == le_u32(data@[0], data@[1], data@[2], data@[3])),
{
    if data.len() < 4 {
        return None;
    }
    let v: u32 = data[0] as u32 + 256 * data[1] as u32 + 65536 * data[2] as u32 + 16777216
        * data[3] as u32;
    Some(v)
}

/// The MTU characteristic's value: its first byte; `None` when it is empty.
pub fn mtu_from_char(data: &[u8]) -> (r: Option<u8>)
    ensures
        data@.len() == 0 ==> r is None,
        data@.len() > 0 ==> r == Some(data@[0]),
{
    if data.len() == 0 {
        None
    } else {
        Some(data[0])
    }
}

/// After the block at `start` is written, where the next block starts and
/// the offset the device then reports; `None` when either overflows.
pub fn gatt_step(start: usize, offset: u32, mtu: u8) -> (r: Option<(usize, u32)>)
    ensures
        start + mtu <= usize::MAX && offset + mtu <= u32::MAX ==> r == Some(
            ((start + mtu) as usize, (offset + mtu) as u32),
        ),
        start + mtu > usize::MAX || offset + mtu > u32::MAX ==> r is None,
{
    if start > usize::MAX - mtu as usize || offset > u32::MAX - mtu as u32 {
        None
    } else {
        Some((start + mtu as usize, offset + mtu as u32))
    }
}

/// Block of `mtu` bytes that starts at `start` of `firmware`, padded with
/// zeros past the firmware's end.
pub open spec fn padded_block(firmware: Seq<u8>, start: nat, mtu: nat) -> Seq<u8> {
    let end = if start + mtu <= firmware.len() {
        start + mtu
    } else {
        firmware.len()
    };
    firmware.subrange(start as int, end as int) + Seq::new(
        (mtu - (end - start)) as nat,
        |i: int| 0u8,
    )
}

/// The block of `mtu` bytes written at `start` of `firmware`: the firmware's
/// bytes from there, padded with zeros to the full block.
pub fn gatt_block(firmware: &[u8], start: usize, mtu: usize) -> (r: Vec<u8>)
    requires
        start <= firmware@.len(),
    ensures
        r@ == padded_block(firmware@, start as nat, mtu as nat),
        r@.len() == mtu,
{
    let rest = firmware.len() - start;
    let end: usize = if mtu <= rest {
        start + mtu
    } else {
        firmware.len()
    };
    let mut block: Vec<u8> = Vec::new();
    let mut i: usize = start;
    while i < end
        invariant
            start <= i <= end <= firmware@.len(),
            block@ == firmware@.subrange(start as int, i as int),
        decreases end - i,
    {
        block.push(firmware[i]);
        i = i + 1;
        assert(block@ =~= firmware@.subrange(start as int, i as int));
    }
    let ghost body = block@;
    while block.len() < mtu
        invariant
            body.len() <= block@.len() <= mtu,
            block@ == body + Seq::new((block@.len() - body.len()) as nat, |j: int| 0u8),
        decreases mtu - block@.len(),
    {
        block.push(0u8);
        assert(block@ =~= body + Seq::new((block@.len() - body.len()) as nat, |j: int| 0u8));
    }
    block
}

} // verus!
