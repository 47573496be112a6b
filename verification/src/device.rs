//! A session bound to one device, whose index was checked against the
//! device count when the two were bound.

use vstd::prelude::*;
use crate::bindings::{
    asked, bare, exchange, lemma_asked_extends, made_since, Call, Exchange, Foreign, Reply,
};
use crate::decode::text_view;
use crate::error::{status_kind, RocmErr};
use crate::queries::pcie::{pcie_view, Pcie};
use crate::queries::power::{is_power_run, power_outcome, power_view, Power};
use crate::record::Recorded;
use crate::{begun, start, RocmSmi};

verus! {

/// What the check of a device index decides, given what the query for the
/// device count returned: the error of that query where it failed, the
/// out-of-bounds error where the index is not below the count, and success
/// in every other case.
pub open spec fn index_outcome(id: u32, count: Result<u32, RocmErr>) -> Result<(), RocmErr> {
    match count {
        Err(e) => Err(e),
        Ok(c) => if id < c {
            Ok(())
        } else {
            Err(RocmErr::RsmiStatusInputOutOfBounds)
        },
    }
}

/// The record shows that `id` was checked and passed: it holds a query for
/// the device count that was answered with a count above `id`.
pub open spec fn validated(h: Seq<Exchange>, id: u32) -> bool {
    exists|k: int|
        0 <= k < h.len() && (#[trigger] h[k]).call == Call::NumDevices && h[k].well_shaped()
            && index_outcome(id, h[k].reply.u32_outcome()) is Ok
}

/// An index that was checked stays checked: whatever is asked later, the
/// record keeps the exchange that shows it. The count is not read again, so
/// this says nothing of the count at a later moment.
pub proof fn lemma_stays_validated(before: Seq<Exchange>, after: Seq<Exchange>, id: u32)
    requires
        validated(before, id),
        before.is_prefix_of(after),
    ensures
        validated(after, id),
{
    let k = choose|k: int|
        0 <= k < before.len() && (#[trigger] before[k]).call == Call::NumDevices
            && before[k].well_shaped() && index_outcome(id, before[k].reply.u32_outcome()) is Ok;
    assert(after[k] == before[k]);
}

/// Checks a device index against what the query for the device count
/// returned.
pub fn check_index(id: u32, count: Result<u32, RocmErr>) -> (r: Result<(), RocmErr>)
    ensures
        r == index_outcome(id, count),
{
    match count {
        Err(e) => Err(e),
        Ok(dev_c) => {
            if id >= dev_c {
                return Err(RocmErr::RsmiStatusInputOutOfBounds);
            }
            Ok(())
        },
    }
}

/// `t` is what binding from nothing exchanges: the call that initializes
/// the subsystem, and after it, only where it succeeded, the query for the
/// device count.
pub open spec fn is_bind_run(t: Seq<Exchange>) -> bool {
    &&& 1 <= t.len() <= 2
    &&& t[0].call == Call::Init
    &&& t[0].well_shaped()
    &&& (t.len() == 2 <==> t[0].reply.status == 0)
    &&& (t.len() == 2 ==> t[1].call == Call::NumDevices && t[1].well_shaped())
}

/// What binding from nothing to the device at `id` returns after the
/// exchanges `t`: the error of the start where it failed, and else what
/// the check of `id` against the count decides.
pub open spec fn bind_outcome(id: u32, t: Seq<Exchange>) -> Result<(), RocmErr> {
    if t[0].reply.status != 0 {
        Err(status_kind(t[0].reply.status))
    } else {
        index_outcome(id, t[1].reply.u32_outcome())
    }
}

/// Binding from nothing is starting and then checking: where a start is
/// followed, only after its success, by a check of the index, the two
/// together are a binding run, and its outcome is the error of the start
/// or else the outcome of the check.
pub proof fn lemma_bind_is_start_then_check(
    before: Seq<Exchange>,
    started: Seq<Exchange>,
    after: Seq<Exchange>,
    id: u32,
)
    requires
        asked(before, started, Call::Init),
        started.last().reply.status == 0 ==> asked(started, after, Call::NumDevices),
        started.last().reply.status != 0 ==> after == started,
    ensures
        before.is_prefix_of(after),
        is_bind_run(made_since(before, after)),
        bind_outcome(id, made_since(before, after)) == match started.last().reply.unit_outcome() {
            Err(e) => Err(e),
            Ok(()) => index_outcome(id, after.last().reply.u32_outcome()),
        },
{
    lemma_asked_extends(before, started, Call::Init);
    let t = made_since(before, after);
    if started.last().reply.status == 0 {
        lemma_asked_extends(started, after, Call::NumDevices);
        assert(after.drop_last() == started);
        assert(after[before.len() as int] == started.last());
        assert(t[0] == started.last());
        assert(t[1] == after.last());
    } else {
        assert(t[0] == started.last());
    }
}

/// Initializes the subsystem and checks `id` against the device count:
/// two calls, the second only where the first succeeded.
pub fn start_and_check<F: Foreign>(foreign: &mut Recorded<F>, id: u32) -> (r: Result<
    (),
    RocmErr,
>)
    ensures
        old(foreign).history().is_prefix_of(final(foreign).history()),
        is_bind_run(made_since(old(foreign).history(), final(foreign).history())),
        r == bind_outcome(id, made_since(old(foreign).history(), final(foreign).history())),
{
    let ghost before = foreign.history();
    match start(foreign) {
        Ok(()) => {},
        Err(e) => {
            proof {
                lemma_bind_is_start_then_check(before, foreign.history(), foreign.history(), id);
            }
            return Err(e);
        },
    }
    let ghost started = foreign.history();
    let dev_c = foreign.num_devices();
    proof {
        assert(foreign.history().drop_last() =~= started);
        lemma_bind_is_start_then_check(before, started, foreign.history(), id);
    }
    check_index(id, dev_c.decode())
}

/// One device of a session. Its index was below the device count at the
/// moment of binding; the count is not read again.
pub struct RocmSmiDevice<F: Foreign> {
    id: u32,
    rocm: RocmSmi<F>,
}

impl<F: Foreign> RocmSmiDevice<F> {
    /// The index of the device.
    pub closed spec fn index(&self) -> u32 {
        self.id
    }

    /// The calls that the session has made, oldest first.
    pub closed spec fn history(&self) -> Seq<Exchange> {
        self.rocm.history()
    }

    /// Binds the session to the device at `id`, as
    /// [`RocmSmi::check_device_index`] decides: the device count is read
    /// once, and the binding is made where that succeeds with a count
    /// above `id`. The error is one that the check gives for `id`.
    pub fn new_from_rocm(rocm: RocmSmi<F>, id: u32) -> (r: Result<Self, RocmErr>)
        ensures
            match r {
                Ok(dev) => {
                    &&& dev.index() == id
                    &&& asked(rocm.history(), dev.history(), Call::NumDevices)
                    &&& index_outcome(id, dev.history().last().reply.u32_outcome()) is Ok
                    &&& validated(dev.history(), id)
                },
                Err(e) => exists|count: Reply|
                    #[trigger] index_outcome(id, count.u32_outcome()) == Err::<(), RocmErr>(e),
            },
    {
        let mut rocm = rocm;
        match rocm.check_device_index(id) {
            Ok(()) => {
                assert(rocm.history()[rocm.history().len() - 1] == rocm.history().last());
                Ok(Self { id, rocm })
            },
            Err(e) => {
                assert(index_outcome(id, rocm.history().last().reply.u32_outcome()) == Err::<
                    (),
                    RocmErr,
                >(e));
                Err(e)
            },
        }
    }

    /// Initializes the subsystem behind `foreign` and binds the session to
    /// the device at `id`, as [`start_and_check`] does on a new record. The
    /// device is returned where that succeeds, and its record is then the
    /// whole run; the error is one that a run gives for `id`.
    pub fn new(foreign: F, id: u32) -> (r: Result<Self, RocmErr>)
        ensures
            match r {
                Ok(dev) => {
                    &&& dev.index() == id
                    &&& is_bind_run(dev.history())
                    &&& bind_outcome(id, dev.history()) == Ok::<(), RocmErr>(())
                    &&& begun(dev.history())
                    &&& validated(dev.history(), id)
                },
                Err(e) => exists|t: Seq<Exchange>|
                    #[trigger] is_bind_run(t) && bind_outcome(id, t) == Err::<(), RocmErr>(e),
            },
    {
        let mut foreign = Recorded::new(foreign);
        match start_and_check(&mut foreign, id) {
            Ok(()) => {
                proof {
                    let t = made_since(Seq::<Exchange>::empty(), foreign.history());
                    assert(t =~= foreign.history());
                    assert(foreign.history()[0] == exchange(Call::Init, bare(0)));
                }
                Ok(Self { id, rocm: RocmSmi::over(foreign) })
            },
            Err(e) => {
                proof {
                    let t = made_since(Seq::<Exchange>::empty(), foreign.history());
                    assert(is_bind_run(t) && bind_outcome(id, t) == Err::<(), RocmErr>(e));
                }
                Err(e)
            },
        }
    }

    /// The identifier of the device.
    pub fn get_id(&mut self) -> (r: Result<u16, RocmErr>)
        ensures
            final(self).index() == old(self).index(),
            asked(old(self).history(), final(self).history(), Call::DeviceId(old(self).index())),
            r == final(self).history().last().reply.u16_outcome(),
    {
        self.rocm.get_device_id(self.id)
    }

    /// The name of the device.
    pub fn get_name(&mut self) -> (r: Result<String, RocmErr>)
        ensures
            final(self).index() == old(self).index(),
            asked(old(self).history(), final(self).history(), Call::DeviceName(old(self).index())),
            text_view(r) == final(self).history().last().reply.text_outcome(),
    {
        self.rocm.get_device_name(self.id)
    }

    /// The identifier of the device's vendor.
    pub fn get_vemdor_id(&mut self) -> (r: Result<u16, RocmErr>)
        ensures
            final(self).index() == old(self).index(),
            asked(old(self).history(), final(self).history(), Call::DeviceVendorId(old(self).index())),
            r == final(self).history().last().reply.u16_outcome(),
    {
        self.rocm.get_vendor_id(self.id)
    }

    /// The brand of the device.
    pub fn get_brand(&mut self) -> (r: Result<String, RocmErr>)
        ensures
            final(self).index() == old(self).index(),
            asked(old(self).history(), final(self).history(), Call::DeviceBrand(old(self).index())),
            text_view(r) == final(self).history().last().reply.text_outcome(),
    {
        self.rocm.get_device_brand(self.id)
    }

    /// The name of the device's vendor.
    pub fn get_vendor_name(&mut self) -> (r: Result<String, RocmErr>)
        ensures
            final(self).index() == old(self).index(),
            asked(old(self).history(), final(self).history(), Call::DeviceVendorName(old(self).index())),
            text_view(r) == final(self).history().last().reply.text_outcome(),
    {
        self.rocm.get_device_vendor_name(self.id)
    }

    /// The name of the vendor of the device's memory.
    pub fn get_vram_vendor_name(&mut self) -> (r: Result<String, RocmErr>)
        ensures
            final(self).index() == old(self).index(),
            asked(old(self).history(), final(self).history(), Call::DeviceVramVendorName(old(self).index())),
            text_view(r) == final(self).history().last().reply.text_outcome(),
    {
        self.rocm.get_device_vram_vendor_name(self.id)
    }

    /// The serial number of the device.
    pub fn get_serial_number(&mut self) -> (r: Result<String, RocmErr>)
        ensures
            final(self).index() == old(self).index(),
            asked(old(self).history(), final(self).history(), Call::DeviceSerial(old(self).index())),
            text_view(r) == final(self).history().last().reply.text_outcome(),
    {
        self.rocm.get_device_serial_number(self.id)
    }

    /// The identifier of the device's subsystem.
    pub fn get_subsystem_id(&mut self) -> (r: Result<u16, RocmErr>)
        ensures
            final(self).index() == old(self).index(),
            asked(old(self).history(), final(self).history(), Call::DeviceSubsystemId(old(self).index())),
            r == final(self).history().last().reply.u16_outcome(),
    {
        self.rocm.get_device_subsystem_id(self.id)
    }

    /// The name of the device's subsystem.
    pub fn get_subsystem_name(&mut self) -> (r: Result<String, RocmErr>)
        ensures
            final(self).index() == old(self).index(),
            asked(old(self).history(), final(self).history(), Call::DeviceSubsystemName(old(self).index())),
            text_view(r) == final(self).history().last().reply.text_outcome(),
    {
        self.rocm.get_device_subsystem_name(self.id)
    }

    /// The minor number of the device's render node.
    pub fn get_drm_render_minor(&mut self) -> (r: Result<u32, RocmErr>)
        ensures
            final(self).index() == old(self).index(),
            asked(old(self).history(), final(self).history(), Call::DeviceDrmRender(old(self).index())),
            r == final(self).history().last().reply.u32_outcome(),
    {
        self.rocm.get_device_drm_render_minor(self.id)
    }

    /// The identifier of the vendor of the device's subsystem.
    pub fn get_subsystem_vendor_id(&mut self) -> (r: Result<u16, RocmErr>)
        ensures
            final(self).index() == old(self).index(),
            asked(old(self).history(), final(self).history(), Call::DeviceSubsystemVendorId(old(self).index())),
            r == final(self).history().last().reply.u16_outcome(),
    {
        self.rocm.get_device_subsystem_vendor_id(self.id)
    }

    /// The unique identifier of the device.
    pub fn get_unique_id(&mut self) -> (r: Result<u64, RocmErr>)
        ensures
            final(self).index() == old(self).index(),
            asked(old(self).history(), final(self).history(), Call::DeviceUniqueId(old(self).index())),
            r == final(self).history().last().reply.u64_outcome(),
    {
        self.rocm.get_device_unique_id(self.id)
    }

    /// The link configurations of the device.
    pub fn get_pcie_data(&mut self) -> (r: Result<Pcie, RocmErr>)
        ensures
            final(self).index() == old(self).index(),
            asked(old(self).history(), final(self).history(), Call::PciBandwidth(old(self).index())),
            pcie_view(r) == final(self).history().last().reply.pcie_outcome(),
    {
        self.rocm.get_pcie_data(self.id)
    }

    /// The power record of the device: the planned calls in their order up
    /// to the first that fails, and a record only when none did.
    pub fn get_power_data(&mut self) -> (r: Result<Power, RocmErr>)
        ensures
            final(self).index() == old(self).index(),
            old(self).history().is_prefix_of(final(self).history()),
            is_power_run(
                old(self).index(),
                made_since(old(self).history(), final(self).history()),
            ),
            power_view(r) == power_outcome(made_since(old(self).history(), final(self).history())),
            r matches Ok(p) ==> p.wf(),
    {
        self.rocm.get_device_power_data(self.id)
    }
}

} // verus!
