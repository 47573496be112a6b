//! The call contract of the device-management interface: its calls, the
//! shapes of their replies, and what a record of calls and replies says.

use vstd::prelude::*;

verus! {

/// One call of the interface with its arguments: a device index and, for
/// the calls on one power sensor, the index of the sensor.
#[derive(Debug, Clone, Copy, PartialEq, Eq, Structural)]
pub enum Call {
    Init,
    NumDevices,
    DeviceId(u32),
    DeviceName(u32),
    DeviceVendorId(u32),
    DeviceBrand(u32),
    DeviceVendorName(u32),
    DeviceVramVendorName(u32),
    DeviceSerial(u32),
    DeviceSubsystemId(u32),
    DeviceSubsystemName(u32),
    DeviceDrmRender(u32),
    DeviceSubsystemVendorId(u32),
    DeviceUniqueId(u32),
    PowerSensorCount(u32),
    PowerSensor(u32, u16),
    PowerAvgAll(u32),
    PowerCap(u32, u16),
    DefaultPowerCap(u32),
    PowerCapRange(u32),
    PciBandwidth(u32),
}

/// What a reply carries beside its status.
pub enum Payload {
    /// Nothing: the reply is a status alone.
    Nothing,
    U16(u16),
    U32(u32),
    U64(u64),
    /// The bytes of a text, as the interface gave them, or `None` where
    /// it pointed at nothing.
    Text(Option<Seq<u8>>),
    /// Two readings that belong together.
    Dual(u64, u64),
    /// The link configurations of a device: the index of the one in use,
    /// then the lane count of each and the transfer rate of each, either
    /// list `None` where the interface pointed at nothing.
    Bandwidth(u32, Option<Seq<u32>>, Option<Seq<u64>>),
}

/// A reply as the contracts see it: the status, zero for success, and the
/// payload, which means something only beside a zero status.
pub struct Reply {
    pub status: u16,
    pub payload: Payload,
}

/// One call together with the reply that it got.
pub struct Exchange {
    pub call: Call,
    pub reply: Reply,
}

/// The exchange in which `call` was answered with `reply`.
pub open spec fn exchange(call: Call, reply: Reply) -> Exchange {
    Exchange { call, reply }
}

impl Exchange {
    /// The payload has the shape that belongs to the call.
    pub open spec fn well_shaped(self) -> bool {
        match self.call {
            Call::Init => self.reply.payload is Nothing,
            Call::NumDevices | Call::DeviceDrmRender(_) => self.reply.payload is U32,
            Call::DeviceId(_)
            | Call::DeviceVendorId(_)
            | Call::DeviceSubsystemId(_)
            | Call::DeviceSubsystemVendorId(_)
            | Call::PowerSensorCount(_) => self.reply.payload is U16,
            Call::DeviceName(_)
            | Call::DeviceBrand(_)
            | Call::DeviceVendorName(_)
            | Call::DeviceVramVendorName(_)
            | Call::DeviceSerial(_)
            | Call::DeviceSubsystemName(_) => self.reply.payload is Text,
            Call::DeviceUniqueId(_)
            | Call::PowerSensor(_, _)
            | Call::PowerAvgAll(_)
            | Call::PowerCap(_, _)
            | Call::DefaultPowerCap(_) => self.reply.payload is U64,
            Call::PowerCapRange(_) => self.reply.payload is Dual,
            Call::PciBandwidth(_) => self.reply.payload is Bandwidth,
        }
    }
}

/// Between `before` and `after` exactly one call was made, and it was
/// `call`: `after` is `before` with one exchange more, whose payload has
/// the shape of that call.
pub open spec fn asked(before: Seq<Exchange>, after: Seq<Exchange>, call: Call) -> bool {
    &&& after.len() == before.len() + 1
    &&& after.drop_last() =~= before
    &&& after.last().call == call
    &&& after.last().well_shaped()
}

/// The exchanges that `after` holds beyond the first `before.len()`: the
/// calls made since the record was `before`.
pub open spec fn made_since(before: Seq<Exchange>, after: Seq<Exchange>) -> Seq<Exchange> {
    after.skip(before.len() as int)
}

/// One call adds to the end of the record and changes nothing before it.
pub proof fn lemma_asked_extends(before: Seq<Exchange>, after: Seq<Exchange>, call: Call)
    requires
        asked(before, after, call),
    ensures
        before.is_prefix_of(after),
        made_since(before, after) == seq![after.last()],
{
    assert(forall|k: int| 0 <= k < before.len() ==> before[k] == after.drop_last()[k]);
    assert(made_since(before, after) =~= seq![after.last()]);
}

/// A reply that carries a 16-bit value.
#[derive(Debug, Clone, Copy, PartialEq, Eq, Structural)]
pub struct ResultU16 {
    pub status: u16,
    pub data: u16,
}

/// A reply that carries a 32-bit value.
#[derive(Debug, Clone, Copy, PartialEq, Eq, Structural)]
pub struct ResultU32 {
    pub status: u16,
    pub data: u32,
}

/// A reply that carries a 64-bit value.
#[derive(Debug, Clone, Copy, PartialEq, Eq, Structural)]
pub struct ResultU64 {
    pub status: u16,
    pub data: u64,
}

/// A reply that carries two 64-bit values.
#[derive(Debug, Clone, Copy, PartialEq, Eq, Structural)]
pub struct ResultU64Dual {
    pub status: u16,
    pub data1: u64,
    pub data2: u64,
}

/// A reply that carries a text: a copy of the bytes that the interface
/// pointed at, with or without the zero byte that ends them, and `None`
/// where its pointer was null.
#[derive(Debug, Clone)]
pub struct ResultStr {
    pub status: u16,
    pub data: Option<Vec<u8>>,
}

/// A reply that carries the link configurations of a device. A list is
/// `None` where the pointer to it was null.
#[derive(Debug, Clone)]
pub struct ResultPcie {
    pub status: u16,
    pub current_index: u32,
    pub lanes: Option<Vec<u32>>,
    pub transfer_rates: Option<Vec<u64>>,
}

/// What an optional list holds, as a sequence.
pub open spec fn list_view<T>(list: Option<Vec<T>>) -> Option<Seq<T>> {
    match list {
        Some(v) => Some(v@),
        None => None,
    }
}

impl View for ResultU16 {
    type V = Reply;

    open spec fn view(&self) -> Reply {
        Reply { status: self.status, payload: Payload::U16(self.data) }
    }
}

impl View for ResultU32 {
    type V = Reply;

    open spec fn view(&self) -> Reply {
        Reply { status: self.status, payload: Payload::U32(self.data) }
    }
}

impl View for ResultU64 {
    type V = Reply;

    open spec fn view(&self) -> Reply {
        Reply { status: self.status, payload: Payload::U64(self.data) }
    }
}

impl View for ResultU64Dual {
    type V = Reply;

    open spec fn view(&self) -> Reply {
        Reply { status: self.status, payload: Payload::Dual(self.data1, self.data2) }
    }
}

impl View for ResultStr {
    type V = Reply;

    open spec fn view(&self) -> Reply {
        Reply { status: self.status, payload: Payload::Text(list_view(self.data)) }
    }
}

impl View for ResultPcie {
    type V = Reply;

    open spec fn view(&self) -> Reply {
        Reply {
            status: self.status,
            payload: Payload::Bandwidth(
                self.current_index,
                list_view(self.lanes),
                list_view(self.transfer_rates),
            ),
        }
    }
}

/// The reply of the call that initializes the subsystem: a status alone.
pub open spec fn bare(status: u16) -> Reply {
    Reply { status, payload: Payload::Nothing }
}

/// The device-management interface, one method for each of its calls.
///
/// Nothing is promised of a reply: what the subsystem answers is its own
/// to decide, and may differ from one call to the next.
pub trait Foreign {
    /// Initializes the subsystem.
    fn init_c(&mut self) -> u16;

    /// How many devices there are.
    fn num_devices(&mut self) -> ResultU32;

    /// The identifier of a device.
    fn device_id(&mut self, dev_id: u32) -> ResultU16;

    /// The name of a device.
    fn device_name(&mut self, dev_id: u32) -> ResultStr;

    /// The identifier of a device's vendor.
    fn device_vendor_id(&mut self, dev_id: u32) -> ResultU16;

    /// The brand of a device.
    fn device_brand(&mut self, dev_id: u32) -> ResultStr;

    /// The name of a device's vendor.
    fn device_vendor_name(&mut self, dev_id: u32) -> ResultStr;

    /// The name of the vendor of a device's memory.
    fn device_vram_vendor_name(&mut self, dev_id: u32) -> ResultStr;

    /// The serial number of a device.
    fn device_serial(&mut self, dev_id: u32) -> ResultStr;

    /// The identifier of a device's subsystem.
    fn device_subsystem_id(&mut self, dev_id: u32) -> ResultU16;

    /// The name of a device's subsystem.
    fn device_subsystem_name(&mut self, dev_id: u32) -> ResultStr;

    /// The minor number of a device's render node.
    fn device_drm_render(&mut self, dev_id: u32) -> ResultU32;

    /// The identifier of the vendor of a device's subsystem.
    fn device_subsystem_vendor_id(&mut self, dev_id: u32) -> ResultU16;

    /// The unique identifier of a device.
    fn device_unique_id(&mut self, dev_id: u32) -> ResultU64;

    /// How many power sensors a device has.
    fn power_sensor_count(&mut self, dev_id: u32) -> ResultU16;

    /// The power that one sensor of a device reads now, in milliwatts.
    fn power_sensor(&mut self, dev_id: u32, sensor: u16) -> ResultU64;

    /// The average power of a device over all its sensors, in milliwatts.
    fn power_avg_all(&mut self, dev_id: u32) -> ResultU64;

    /// The power cap set for one sensor of a device, in milliwatts.
    fn power_cap(&mut self, dev_id: u32, sensor: u16) -> ResultU64;

    /// The power cap that a device starts with, in milliwatts.
    fn default_power_cap(&mut self, dev_id: u32) -> ResultU64;

    /// The least and the greatest power cap that a device accepts, in milliwatts.
    fn power_cap_range(&mut self, dev_id: u32) -> ResultU64Dual;

    /// The link configurations of a device.
    fn pci_bandwidth(&mut self, dev_id: u32) -> ResultPcie;
}

} // verus!
