//! A typed, owned query layer over a device-management interface for
//! accelerator devices that are enumerated by index.
//!
//! Every query makes its calls through a [`bindings::Foreign`], keeps the
//! [`record`] of them, reads each reply by the one rule of [`decode`], and
//! returns an owned value or the error of the first call that failed.

use vstd::prelude::*;

pub mod bindings;
pub mod decode;
pub mod device;
pub mod error;
pub mod queries;
pub mod record;
pub mod scripted;

use crate::bindings::{asked, bare, exchange, made_since, Call, Exchange, Foreign};
use crate::decode::text_view;
use crate::device::{check_index, index_outcome};
use crate::error::{check_res, status_kind, RocmErr};
use crate::queries::pcie::{pcie_view, Pcie};
use crate::queries::power::{is_power_run, power_outcome, power_view, Power};
use crate::record::Recorded;

verus! {

/// The record of a session that is ready: it begins with the call that
/// initialized the subsystem, answered with success.
pub open spec fn begun(h: Seq<Exchange>) -> bool {
    h.len() >= 1 && h[0] == exchange(Call::Init, bare(0))
}

/// A session that is ready stays so: whatever is asked later, the record
/// keeps its beginning.
pub proof fn lemma_stays_begun(before: Seq<Exchange>, after: Seq<Exchange>)
    requires
        begun(before),
        before.is_prefix_of(after),
    ensures
        begun(after),
{
    assert(after[0] == before[0]);
}

/// What a query of one call returns is decided by the reply alone: where
/// the same call gets the same reply a second time, in whatever record,
/// the exchange is the same and so is everything that is read from it.
pub proof fn lemma_same_reply_same_result(
    before: Seq<Exchange>,
    after: Seq<Exchange>,
    again_before: Seq<Exchange>,
    again_after: Seq<Exchange>,
    call: Call,
)
    requires
        asked(before, after, call),
        asked(again_before, again_after, call),
        after.last().reply == again_after.last().reply,
    ensures
        after.last() == again_after.last(),
        after.last().reply.u16_outcome() == again_after.last().reply.u16_outcome(),
        after.last().reply.u32_outcome() == again_after.last().reply.u32_outcome(),
        after.last().reply.u64_outcome() == again_after.last().reply.u64_outcome(),
        after.last().reply.text_outcome() == again_after.last().reply.text_outcome(),
        after.last().reply.pcie_outcome() == again_after.last().reply.pcie_outcome(),
{
}

/// Initializes the subsystem, with one call: `Ok` where the status of the
/// reply is zero, and else the error of the kind of that status.
pub fn start<F: Foreign>(foreign: &mut Recorded<F>) -> (r: Result<(), RocmErr>)
    ensures
        asked(old(foreign).history(), final(foreign).history(), Call::Init),
        r == final(foreign).history().last().reply.unit_outcome(),
{
    let code = foreign.init_c();
    check_res(code)
}

/// A session: the subsystem behind `F`, initialized with success.
///
/// A query borrows the session for itself alone, so the calls of two
/// queries never interleave.
pub struct RocmSmi<F: Foreign> {
    foreign: Recorded<F>,
}

impl<F: Foreign> RocmSmi<F> {
    /// The record that the session keeps: the calls made through its
    /// interface since the record began, oldest first, the one that
    /// initialized the subsystem included.
    pub closed spec fn history(&self) -> Seq<Exchange> {
        self.foreign.history()
    }

    /// Begins a session on a record that shows the subsystem initialized
    /// with success.
    pub fn over(foreign: Recorded<F>) -> (smi: Self)
        requires
            begun(foreign.history()),
        ensures
            smi.history() == foreign.history(),
    {
        RocmSmi { foreign }
    }

    /// Initializes the subsystem behind `foreign`, as [`start`] does on a
    /// new record, and begins a session where that succeeds. The error is
    /// that of a status other than zero.
    pub fn init(foreign: F) -> (r: Result<Self, RocmErr>)
        ensures
            match r {
                Ok(smi) => smi.history() == seq![exchange(Call::Init, bare(0))] && begun(
                    smi.history(),
                ),
                Err(e) => exists|status: u16| status != 0 && e == #[trigger] status_kind(status),
            },
    {
        let mut foreign = Recorded::new(foreign);
        match start(&mut foreign) {
            Ok(()) => {
                assert(foreign.history() =~= seq![exchange(Call::Init, bare(0))]);
                Ok(RocmSmi::over(foreign))
            },
            Err(e) => {
                assert(e == status_kind(foreign.history().last().reply.status));
                Err(e)
            },
        }
    }

    /// How many devices there are now.
    pub fn get_device_count(&mut self) -> (r: Result<u32, RocmErr>)
        ensures
            asked(old(self).history(), final(self).history(), Call::NumDevices),
            r == final(self).history().last().reply.u32_outcome(),
    {
        let res = self.foreign.num_devices();
        res.decode()
    }

    /// Checks `id` against the device count, which is read now: `id`
    /// passes where the count was read with success and lies above it, and
    /// is out of bounds where the count was read and does not.
    pub fn check_device_index(&mut self, id: u32) -> (r: Result<(), RocmErr>)
        ensures
            asked(old(self).history(), final(self).history(), Call::NumDevices),
            r == index_outcome(id, final(self).history().last().reply.u32_outcome()),
    {
        let dev_c = self.get_device_count();
        check_index(id, dev_c)
    }

    /// The identifier of the device at `dev_id`.
    pub fn get_device_id(&mut self, dev_id: u32) -> (r: Result<u16, RocmErr>)
        ensures
            asked(old(self).history(), final(self).history(), Call::DeviceId(dev_id)),
            r == final(self).history().last().reply.u16_outcome(),
    {
        let res = self.foreign.device_id(dev_id);
        res.decode()
    }

    /// The name of the device at `dev_id`.
    pub fn get_device_name(&mut self, dev_id: u32) -> (r: Result<String, RocmErr>)
        ensures
            asked(old(self).history(), final(self).history(), Call::DeviceName(dev_id)),
            text_view(r) == final(self).history().last().reply.text_outcome(),
    {
        let res = self.foreign.device_name(dev_id);
        res.decode()
    }

    /// The identifier of the vendor of the device at `dev_id`.
    pub fn get_vendor_id(&mut self, dev_id: u32) -> (r: Result<u16, RocmErr>)
        ensures
            asked(old(self).history(), final(self).history(), Call::DeviceVendorId(dev_id)),
            r == final(self).history().last().reply.u16_outcome(),
    {
        let res = self.foreign.device_vendor_id(dev_id);
        res.decode()
    }

    /// The brand of the device at `dev_id`.
    pub fn get_device_brand(&mut self, dev_id: u32) -> (r: Result<String, RocmErr>)
        ensures
            asked(old(self).history(), final(self).history(), Call::DeviceBrand(dev_id)),
            text_view(r) == final(self).history().last().reply.text_outcome(),
    {
        let res = self.foreign.device_brand(dev_id);
        res.decode()
    }

    /// The name of the vendor of the device at `dev_id`.
    pub fn get_device_vendor_name(&mut self, dev_id: u32) -> (r: Result<String, RocmErr>)
        ensures
            asked(old(self).history(), final(self).history(), Call::DeviceVendorName(dev_id)),
            text_view(r) == final(self).history().last().reply.text_outcome(),
    {
        let res = self.foreign.device_vendor_name(dev_id);
        res.decode()
    }

    /// The name of the vendor of the memory of the device at `dev_id`.
    pub fn get_device_vram_vendor_name(&mut self, dev_id: u32) -> (r: Result<String, RocmErr>)
        ensures
            asked(old(self).history(), final(self).history(), Call::DeviceVramVendorName(dev_id)),
            text_view(r) == final(self).history().last().reply.text_outcome(),
    {
        let res = self.foreign.device_vram_vendor_name(dev_id);
        res.decode()
    }

    /// The serial number of the device at `dev_id`.
    pub fn get_device_serial_number(&mut self, dev_id: u32) -> (r: Result<String, RocmErr>)
        ensures
            asked(old(self).history(), final(self).history(), Call::DeviceSerial(dev_id)),
            text_view(r) == final(self).history().last().reply.text_outcome(),
    {
        let res = self.foreign.device_serial(dev_id);
        res.decode()
    }

    /// The identifier of the subsystem of the device at `dev_id`.
    pub fn get_device_subsystem_id(&mut self, dev_id: u32) -> (r: Result<u16, RocmErr>)
        ensures
            asked(old(self).history(), final(self).history(), Call::DeviceSubsystemId(dev_id)),
            r == final(self).history().last().reply.u16_outcome(),
    {
        let res = self.foreign.device_subsystem_id(dev_id);
        res.decode()
    }

    /// The name of the subsystem of the device at `dev_id`.
    pub fn get_device_subsystem_name(&mut self, dev_id: u32) -> (r: Result<String, RocmErr>)
        ensures
            asked(old(self).history(), final(self).history(), Call::DeviceSubsystemName(dev_id)),
            text_view(r) == final(self).history().last().reply.text_outcome(),
    {
        let res = self.foreign.device_subsystem_name(dev_id);
        res.decode()
    }

    /// The minor number of the render node of the device at `dev_id`.
    pub fn get_device_drm_render_minor(&mut self, dev_id: u32) -> (r: Result<u32, RocmErr>)
        ensures
            asked(old(self).history(), final(self).history(), Call::DeviceDrmRender(dev_id)),
            r == final(self).history().last().reply.u32_outcome(),
    {
        let res = self.foreign.device_drm_render(dev_id);
        res.decode()
    }

    /// The identifier of the vendor of the subsystem of the device at `dev_id`.
    pub fn get_device_subsystem_vendor_id(&mut self, dev_id: u32) -> (r: Result<u16, RocmErr>)
        ensures
            asked(old(self).history(), final(self).history(), Call::DeviceSubsystemVendorId(dev_id)),
            r == final(self).history().last().reply.u16_outcome(),
    {
        let res = self.foreign.device_subsystem_vendor_id(dev_id);
        res.decode()
    }

    /// The unique identifier of the device at `dev_id`.
    pub fn get_device_unique_id(&mut self, dev_id: u32) -> (r: Result<u64, RocmErr>)
        ensures
            asked(old(self).history(), final(self).history(), Call::DeviceUniqueId(dev_id)),
            r == final(self).history().last().reply.u64_outcome(),
    {
        let res = self.foreign.device_unique_id(dev_id);
        res.decode()
    }

    /// The link configurations of the device at `dev_id`.
    pub fn get_pcie_data(&mut self, dev_id: u32) -> (r: Result<Pcie, RocmErr>)
        ensures
            asked(old(self).history(), final(self).history(), Call::PciBandwidth(dev_id)),
            pcie_view(r) == final(self).history().last().reply.pcie_outcome(),
    {
        Pcie::get_pcie(&mut self.foreign, dev_id)
    }

    /// The power record of the device at `dev_id`: the planned calls in
    /// their order up to the first that fails, and a record only when none
    /// did.
    pub fn get_device_power_data(&mut self, dev_id: u32) -> (r: Result<Power, RocmErr>)
        ensures
            old(self).history().is_prefix_of(final(self).history()),
            is_power_run(dev_id, made_since(old(self).history(), final(self).history())),
            power_view(r) == power_outcome(made_since(old(self).history(), final(self).history())),
            r matches Ok(p) ==> p.wf(),
    {
        Power::get_power(&mut self.foreign, dev_id)
    }
}

} // verus!
