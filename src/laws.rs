//! Properties of the planner, alone and against a device that carries out
//! every command it gets.
use vstd::prelude::*;

use crate::driver::{commands_left, holds_prefix_of};
use crate::planner::{mtu_used, plan_of, ImageView};
use crate::protocol::{CommandView, StatusView};
use crate::simulator::{report, started, swapped, synced, write_ok, written, DeviceView};

verus! {

/// The state a device takes after carrying out command `c`: a `Write` at
/// offset zero starts the transfer first, and a refused write changes nothing.
pub open spec fn apply(d: DeviceView, c: CommandView) -> DeviceView {
    match c {
        CommandView::Write { version, offset, data, .. } => {
            let d1 = if offset == 0 {
                started(d, version)
            } else {
                d
            };
            if write_ok(d1, offset, data) {
                written(d1, data)
            } else {
                d1
            }
        },
        CommandView::Swap { version, .. } => swapped(d, version),
        CommandView::Sync { .. } => synced(d),
        CommandView::Wait { .. } => d,
    }
}

/// One round: the device reports, the planner answers from `img`, the device
/// carries the answer out.
pub open spec fn step(d: DeviceView, img: ImageView) -> DeviceView {
    match plan_of(report(d), img) {
        Ok(c) => apply(d, c),
        Err(_) => d,
    }
}

/// The device after `n` rounds.
pub open spec fn run_steps(d: DeviceView, img: ImageView, n: nat) -> DeviceView
    decreases n,
{
    if n == 0 {
        d
    } else {
        run_steps(step(d, img), img, (n - 1) as nat)
    }
}

/// `n + 1` rounds are `n` rounds and one more.
pub proof fn lemma_run_steps_last(d: DeviceView, img: ImageView, n: nat)
    ensures
        run_steps(d, img, n + 1) == step(run_steps(d, img, n), img),
    decreases n,
{
    assert(run_steps(d, img, n + 1) == run_steps(step(d, img), img, n));
    if n > 0 {
        lemma_run_steps_last(step(d, img), img, (n - 1) as nat);
        assert(run_steps(d, img, n) == run_steps(step(d, img), img, (n - 1) as nat));
    } else {
        assert(run_steps(step(d, img), img, 0) == step(d, img));
    }
}

/// Every `Write` and every `Swap` the planner gives names the image's version.
pub proof fn law_commands_name_image_version(s: StatusView, img: ImageView)
    ensures
        plan_of(s, img) matches Ok(CommandView::Write { version, .. }) ==> version == img.version,
        plan_of(s, img) matches Ok(CommandView::Swap { version, .. }) ==> version == img.version,
{
}

/// A device that already runs the image's version is told it is in sync.
pub proof fn law_same_version_syncs(s: StatusView, img: ImageView)
    requires
        s.version == img.version,
    ensures
        plan_of(s, img) == Ok::<CommandView, crate::planner::PlanError>(
            CommandView::Sync { version: s.version, correlation_id: s.correlation_id, poll: None },
        ),
{
}

/// Every `Write` carries at most the MTU in use and at most what is left of
/// the image after its offset, and ends within the image.
pub proof fn law_write_within_bounds(s: StatusView, img: ImageView)
    ensures
        plan_of(s, img) matches Ok(CommandView::Write { offset, data, .. }) ==> {
            &&& data.len() <= mtu_used(s.mtu)
            &&& offset <= img.data.len()
            &&& data.len() <= img.data.len() - offset
            &&& offset + data.len() <= img.data.len()
        },
{
}

/// One round keeps a device's received bytes a prefix of the image, and a
/// swap to the image's version installs exactly the image's bytes.
pub proof fn lemma_step_keeps_prefix(d: DeviceView, img: ImageView)
    requires
        holds_prefix_of(d, img),
        d.received.len() <= u32::MAX,
        img.data.len() <= u32::MAX,
    ensures
        holds_prefix_of(step(d, img), img),
        step(d, img).received.len() <= u32::MAX,
        d.version != img.version && step(d, img).version == img.version ==> step(d, img).firmware
            == img.data,
        d.version == img.version ==> step(d, img).version == img.version && step(d, img).firmware
            == d.firmware,
{
    let e = step(d, img);
    if let Ok(CommandView::Write { version, offset, data, .. }) = plan_of(report(d), img) {
        let d1 = if offset == 0 {
            started(d, version)
        } else {
            d
        };
        if write_ok(d1, offset, data) {
            assert(e.received =~= img.data.subrange(0, e.received.len() as int));
        }
    }
}

/// Whatever rounds a device goes through, the bytes it has received are the
/// image's first bytes, in order; once it has swapped to the image's version,
/// what it installed is exactly the image.
pub proof fn law_delivery_in_order(d: DeviceView, img: ImageView, n: nat)
    requires
        holds_prefix_of(d, img),
        d.received.len() <= u32::MAX,
        img.data.len() <= u32::MAX,
    ensures
        holds_prefix_of(run_steps(d, img, n), img),
        run_steps(d, img, n).received.len() <= u32::MAX,
        d.version != img.version && run_steps(d, img, n).version == img.version ==> run_steps(
            d,
            img,
            n,
        ).firmware == img.data,
    decreases n,
{
    if n > 0 {
        lemma_step_keeps_prefix(d, img);
        let e = step(d, img);
        law_delivery_in_order(e, img, (n - 1) as nat);
        if e.version == img.version {
            lemma_same_version_stays(e, img, (n - 1) as nat);
        }
    }
}

/// A device that runs the image's version keeps it, and keeps what it had
/// installed, round after round.
pub proof fn lemma_same_version_stays(d: DeviceView, img: ImageView, n: nat)
    requires
        d.version == img.version,
    ensures
        run_steps(d, img, n).version == img.version,
        run_steps(d, img, n).firmware == d.firmware,
    decreases n,
{
    if n > 0 {
        lemma_same_version_stays(step(d, img), img, (n - 1) as nat);
    }
}

/// A round on a device that does not run the image yet brings it closer.
pub proof fn lemma_step_progress(d: DeviceView, img: ImageView)
    requires
        holds_prefix_of(d, img),
        d.received.len() <= u32::MAX,
        img.data.len() <= u32::MAX,
        d.mtu > 0,
        d.version != img.version,
    ensures
        commands_left(step(d, img), img) < commands_left(d, img),
{
}

/// A device with a non-zero MTU runs the image after at most
/// `commands_left(d, img)` rounds.
pub proof fn law_update_completes(d: DeviceView, img: ImageView, n: nat)
    requires
        holds_prefix_of(d, img),
        d.received.len() <= u32::MAX,
        img.data.len() <= u32::MAX,
        d.mtu > 0,
        n >= commands_left(d, img),
    ensures
        run_steps(d, img, n).version == img.version,
    decreases n,
{
    if d.version == img.version {
        lemma_same_version_stays(d, img, n);
    } else {
        lemma_step_progress(d, img);
        lemma_step_keeps_prefix(d, img);
        law_update_completes(step(d, img), img, (n - 1) as nat);
    }
}

} // verus!
