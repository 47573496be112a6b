//! An interface that answers from a script: a stand-in for the subsystem
//! whose every reply is chosen beforehand.

use vstd::prelude::*;
use crate::bindings::{
    bare, Call, Foreign, Payload, Reply, ResultPcie, ResultStr, ResultU16, ResultU32, ResultU64,
    ResultU64Dual,
};

verus! {

/// The status of every reply to a call on a device, or on a sensor, that
/// the script does not hold.
pub const REFUSED: u16 = 1;

/// The replies that one device gives, one for each call on it.
#[derive(Debug, Clone)]
pub struct DeviceScript {
    pub id: ResultU16,
    pub name: ResultStr,
    pub vendor_id: ResultU16,
    pub brand: ResultStr,
    pub vendor_name: ResultStr,
    pub vram_vendor_name: ResultStr,
    pub serial: ResultStr,
    pub subsystem_id: ResultU16,
    pub subsystem_name: ResultStr,
    pub drm_render_minor: ResultU32,
    pub subsystem_vendor_id: ResultU16,
    pub unique_id: ResultU64,
    pub sensor_count: ResultU16,
    /// The reply for the reading of each sensor, at the sensor's index.
    pub sensor_power: Vec<ResultU64>,
    pub power_avg: ResultU64,
    /// The reply for the cap of each sensor, at the sensor's index.
    pub sensor_cap: Vec<ResultU64>,
    pub default_cap: ResultU64,
    pub cap_range: ResultU64Dual,
    pub pcie: ResultPcie,
}

/// The payload of the shape of `call` that holds nothing: zeros, and no
/// text and no list.
pub open spec fn blank(call: Call) -> Payload {
    match call {
        Call::Init => Payload::Nothing,
        Call::NumDevices | Call::DeviceDrmRender(_) => Payload::U32(0),
        Call::DeviceId(_)
        | Call::DeviceVendorId(_)
        | Call::DeviceSubsystemId(_)
        | Call::DeviceSubsystemVendorId(_)
        | Call::PowerSensorCount(_) => Payload::U16(0),
        Call::DeviceName(_)
        | Call::DeviceBrand(_)
        | Call::DeviceVendorName(_)
        | Call::DeviceVramVendorName(_)
        | Call::DeviceSerial(_)
        | Call::DeviceSubsystemName(_) => Payload::Text(None),
        Call::DeviceUniqueId(_)
        | Call::PowerSensor(_, _)
        | Call::PowerAvgAll(_)
        | Call::PowerCap(_, _)
        | Call::DefaultPowerCap(_) => Payload::U64(0),
        Call::PowerCapRange(_) => Payload::Dual(0, 0),
        Call::PciBandwidth(_) => Payload::Bandwidth(0, None, None),
    }
}

/// The reply that refuses `call`.
pub open spec fn refusal(call: Call) -> Reply {
    Reply { status: REFUSED, payload: blank(call) }
}

/// The device that `call` is about, where it is about one.
pub open spec fn device_of(call: Call) -> Option<u32> {
    match call {
        Call::Init | Call::NumDevices => None,
        Call::DeviceId(d)
        | Call::DeviceName(d)
        | Call::DeviceVendorId(d)
        | Call::DeviceBrand(d)
        | Call::DeviceVendorName(d)
        | Call::DeviceVramVendorName(d)
        | Call::DeviceSerial(d)
        | Call::DeviceSubsystemId(d)
        | Call::DeviceSubsystemName(d)
        | Call::DeviceDrmRender(d)
        | Call::DeviceSubsystemVendorId(d)
        | Call::DeviceUniqueId(d)
        | Call::PowerSensorCount(d)
        | Call::PowerSensor(d, _)
        | Call::PowerAvgAll(d)
        | Call::PowerCap(d, _)
        | Call::DefaultPowerCap(d)
        | Call::PowerCapRange(d)
        | Call::PciBandwidth(d) => Some(d),
    }
}

impl DeviceScript {
    /// A device whose every reply has the status `status` and holds
    /// nothing, and which has no sensor.
    pub fn failing(status: u16) -> (d: DeviceScript)
        ensures
            forall|call: Call|
                device_of(call) is Some ==> #[trigger] d.reply_to(call) == (Reply {
                    status: if call is PowerSensor || call is PowerCap {
                        REFUSED
                    } else {
                        status
                    },
                    payload: blank(call),
                }),
    {
        DeviceScript {
            id: ResultU16 { status, data: 0 },
            name: ResultStr { status, data: None },
            vendor_id: ResultU16 { status, data: 0 },
            brand: ResultStr { status, data: None },
            vendor_name: ResultStr { status, data: None },
            vram_vendor_name: ResultStr { status, data: None },
            serial: ResultStr { status, data: None },
            subsystem_id: ResultU16 { status, data: 0 },
            subsystem_name: ResultStr { status, data: None },
            drm_render_minor: ResultU32 { status, data: 0 },
            subsystem_vendor_id: ResultU16 { status, data: 0 },
            unique_id: ResultU64 { status, data: 0 },
            sensor_count: ResultU16 { status, data: 0 },
            sensor_power: Vec::new(),
            power_avg: ResultU64 { status, data: 0 },
            sensor_cap: Vec::new(),
            default_cap: ResultU64 { status, data: 0 },
            cap_range: ResultU64Dual { status, data1: 0, data2: 0 },
            pcie: ResultPcie { status, current_index: 0, lanes: None, transfer_rates: None },
        }
    }

    /// What the device answers to `call`. The calls on one sensor are
    /// refused where the script holds no reply for that sensor.
    pub open spec fn reply_to(&self, call: Call) -> Reply {
        match call {
            Call::Init | Call::NumDevices => refusal(call),
            Call::DeviceId(_) => self.id@,
            Call::DeviceName(_) => self.name@,
            Call::DeviceVendorId(_) => self.vendor_id@,
            Call::DeviceBrand(_) => self.brand@,
            Call::DeviceVendorName(_) => self.vendor_name@,
            Call::DeviceVramVendorName(_) => self.vram_vendor_name@,
            Call::DeviceSerial(_) => self.serial@,
            Call::DeviceSubsystemId(_) => self.subsystem_id@,
            Call::DeviceSubsystemName(_) => self.subsystem_name@,
            Call::DeviceDrmRender(_) => self.drm_render_minor@,
            Call::DeviceSubsystemVendorId(_) => self.subsystem_vendor_id@,
            Call::DeviceUniqueId(_) => self.unique_id@,
            Call::PowerSensorCount(_) => self.sensor_count@,
            Call::PowerSensor(_, s) => if s < self.sensor_power@.len() {
                self.sensor_power@[s as int]@
            } else {
                refusal(call)
            },
            Call::PowerAvgAll(_) => self.power_avg@,
            Call::PowerCap(_, s) => if s < self.sensor_cap@.len() {
                self.sensor_cap@[s as int]@
            } else {
                refusal(call)
            },
            Call::DefaultPowerCap(_) => self.default_cap@,
            Call::PowerCapRange(_) => self.cap_range@,
            Call::PciBandwidth(_) => self.pcie@,
        }
    }
}

/// A copy of a text reply.
fn copy_text(r: &ResultStr) -> (c: ResultStr)
    ensures
        c@ == r@,
{
    let data = match &r.data {
        Some(bytes) => {
            let copy = bytes.clone();
            assert(copy@ =~= bytes@);
            Some(copy)
        },
        None => None,
    };
    ResultStr { status: r.status, data }
}

/// A copy of a reply with link configurations.
fn copy_pcie(r: &ResultPcie) -> (c: ResultPcie)
    ensures
        c@ == r@,
{
    let lanes = match &r.lanes {
        Some(list) => {
            let copy = list.clone();
            assert(copy@ =~= list@);
            Some(copy)
        },
        None => None,
    };
    let transfer_rates = match &r.transfer_rates {
        Some(list) => {
            let copy = list.clone();
            assert(copy@ =~= list@);
            Some(copy)
        },
        None => None,
    };
    ResultPcie { status: r.status, current_index: r.current_index, lanes, transfer_rates }
}

/// What the subsystem is to answer: the script.
#[derive(Debug, Clone)]
pub struct Script {
    /// The status that the call to initialize gets.
    pub init_status: u16,
    /// The reply to the query for the device count. The script may hold
    /// more devices or fewer than it tells.
    pub device_count: ResultU32,
    /// The devices, each at its index.
    pub devices: Vec<DeviceScript>,
}

impl Script {
    /// What the script answers to `call`: the status to initialize with,
    /// the device count, the reply of the device that the call is about,
    /// and a refusal where the script holds no such device.
    pub open spec fn reply_to(&self, call: Call) -> Reply {
        match device_of(call) {
            None => if call is Init {
                bare(self.init_status)
            } else {
                self.device_count@
            },
            Some(d) => if d < self.devices@.len() {
                self.devices@[d as int].reply_to(call)
            } else {
                refusal(call)
            },
        }
    }
}

/// An interface that answers every call from a script, and keeps the list
/// of the calls it was asked.
pub struct Scripted {
    script: Script,
    calls: Vec<Call>,
}

/// Between `before` and `after`, `call` was asked once and answered with
/// `reply`, as the script has it, and the script stayed as it was.
pub open spec fn answered(before: Scripted, after: Scripted, call: Call, reply: Reply) -> bool {
    &&& reply == before.script().reply_to(call)
    &&& after.script() == before.script()
    &&& after.asked() == before.asked().push(call)
}

/// Asked the same call twice, a scripted interface gives the same reply
/// twice, whatever it was asked in between.
pub proof fn lemma_script_repeats(
    a: Scripted,
    b: Scripted,
    c: Scripted,
    d: Scripted,
    call: Call,
    first: Reply,
    second: Reply,
)
    requires
        answered(a, b, call, first),
        b.script() == c.script(),
        answered(c, d, call, second),
    ensures
        first == second,
        d.script() == a.script(),
{
}

impl Scripted {
    /// The script that the interface answers by.
    pub closed spec fn script(&self) -> Script {
        self.script
    }

    /// The calls asked so far, oldest first.
    pub closed spec fn asked(&self) -> Seq<Call> {
        self.calls@
    }

    /// An interface that answers by `script` and was asked nothing yet.
    pub fn new(script: Script) -> (s: Scripted)
        ensures
            s.script() == script,
            s.asked() == Seq::<Call>::empty(),
    {
        Scripted { script, calls: Vec::new() }
    }

    /// The calls asked so far, oldest first.
    pub fn calls(&self) -> (calls: &Vec<Call>)
        ensures
            calls@ == self.asked(),
    {
        &self.calls
    }

    /// Adds `call` to the list of the calls asked.
    fn record(&mut self, call: Call)
        ensures
            final(self).script() == old(self).script(),
            final(self).asked() == old(self).asked().push(call),
    {
        self.calls.push(call);
    }
}

impl Foreign for Scripted {
    fn init_c(&mut self) -> (status: u16)
        ensures
            answered(*old(self), *final(self), Call::Init, bare(status)),
    {
        let status = self.script.init_status;
        self.record(Call::Init);
        status
    }

    fn num_devices(&mut self) -> (reply: ResultU32)
        ensures
            answered(*old(self), *final(self), Call::NumDevices, reply@),
    {
        let reply = self.script.device_count;
        self.record(Call::NumDevices);
        reply
    }

    fn device_id(&mut self, dev_id: u32) -> (reply: ResultU16)
        ensures
            answered(*old(self), *final(self), Call::DeviceId(dev_id), reply@),
    {
        let i = dev_id as usize;
        let reply = if i < self.script.devices.len() {
            self.script.devices[i].id
        } else {
            ResultU16 { status: REFUSED, data: 0 }
        };
        self.record(Call::DeviceId(dev_id));
        reply
    }

    fn device_name(&mut self, dev_id: u32) -> (reply: ResultStr)
        ensures
            answered(*old(self), *final(self), Call::DeviceName(dev_id), reply@),
    {
        let i = dev_id as usize;
        let reply = if i < self.script.devices.len() {
            copy_text(&self.script.devices[i].name)
        } else {
            ResultStr { status: REFUSED, data: None }
        };
        self.record(Call::DeviceName(dev_id));
        reply
    }

    fn device_vendor_id(&mut self, dev_id: u32) -> (reply: ResultU16)
        ensures
            answered(*old(self), *final(self), Call::DeviceVendorId(dev_id), reply@),
    {
        let i = dev_id as usize;
        let reply = if i < self.script.devices.len() {
            self.script.devices[i].vendor_id
        } else {
            ResultU16 { status: REFUSED, data: 0 }
        };
        self.record(Call::DeviceVendorId(dev_id));
        reply
    }

    fn device_brand(&mut self, dev_id: u32) -> (reply: ResultStr)
        ensures
            answered(*old(self), *final(self), Call::DeviceBrand(dev_id), reply@),
    {
        let i = dev_id as usize;
        let reply = if i < self.script.devices.len() {
            copy_text(&self.script.devices[i].brand)
        } else {
            ResultStr { status: REFUSED, data: None }
        };
        self.record(Call::DeviceBrand(dev_id));
        reply
    }

    fn device_vendor_name(&mut self, dev_id: u32) -> (reply: ResultStr)
        ensures
            answered(*old(self), *final(self), Call::DeviceVendorName(dev_id), reply@),
    {
        let i = dev_id as usize;
        let reply = if i < self.script.devices.len() {
            copy_text(&self.script.devices[i].vendor_name)
        } else {
            ResultStr { status: REFUSED, data: None }
        };
        self.record(Call::DeviceVendorName(dev_id));
        reply
    }

    fn device_vram_vendor_name(&mut self, dev_id: u32) -> (reply: ResultStr)
        ensures
            answered(*old(self), *final(self), Call::DeviceVramVendorName(dev_id), reply@),
    {
        let i = dev_id as usize;
        let reply = if i < self.script.devices.len() {
            copy_text(&self.script.devices[i].vram_vendor_name)
        } else {
            ResultStr { status: REFUSED, data: None }
        };
        self.record(Call::DeviceVramVendorName(dev_id));
        reply
    }

    fn device_serial(&mut self, dev_id: u32) -> (reply: ResultStr)
        ensures
            answered(*old(self), *final(self), Call::DeviceSerial(dev_id), reply@),
    {
        let i = dev_id as usize;
        let reply = if i < self.script.devices.len() {
            copy_text(&self.script.devices[i].serial)
        } else {
            ResultStr { status: REFUSED, data: None }
        };
        self.record(Call::DeviceSerial(dev_id));
        reply
    }

    fn device_subsystem_id(&mut self, dev_id: u32) -> (reply: ResultU16)
        ensures
            answered(*old(self), *final(self), Call::DeviceSubsystemId(dev_id), reply@),
    {
        let i = dev_id as usize;
        let reply = if i < self.script.devices.len() {
            self.script.devices[i].subsystem_id
        } else {
            ResultU16 { status: REFUSED, data: 0 }
        };
        self.record(Call::DeviceSubsystemId(dev_id));
        reply
    }

    fn device_subsystem_name(&mut self, dev_id: u32) -> (reply: ResultStr)
        ensures
            answered(*old(self), *final(self), Call::DeviceSubsystemName(dev_id), reply@),
    {
        let i = dev_id as usize;
        let reply = if i < self.script.devices.len() {
            copy_text(&self.script.devices[i].subsystem_name)
        } else {
            ResultStr { status: REFUSED, data: None }
        };
        self.record(Call::DeviceSubsystemName(dev_id));
        reply
    }

    fn device_drm_render(&mut self, dev_id: u32) -> (reply: ResultU32)
        ensures
            answered(*old(self), *final(self), Call::DeviceDrmRender(dev_id), reply@),
    {
        let i = dev_id as usize;
        let reply = if i < self.script.devices.len() {
            self.script.devices[i].drm_render_minor
        } else {
            ResultU32 { status: REFUSED, data: 0 }
        };
        self.record(Call::DeviceDrmRender(dev_id));
        reply
    }

    fn device_subsystem_vendor_id(&mut self, dev_id: u32) -> (reply: ResultU16)
        ensures
            answered(*old(self), *final(self), Call::DeviceSubsystemVendorId(dev_id), reply@),
    {
        let i = dev_id as usize;
        let reply = if i < self.script.devices.len() {
            self.script.devices[i].subsystem_vendor_id
        } else {
            ResultU16 { status: REFUSED, data: 0 }
        };
        self.record(Call::DeviceSubsystemVendorId(dev_id));
        reply
    }

    fn device_unique_id(&mut self, dev_id: u32) -> (reply: ResultU64)
        ensures
            answered(*old(self), *final(self), Call::DeviceUniqueId(dev_id), reply@),
    {
        let i = dev_id as usize;
        let reply = if i < self.script.devices.len() {
            self.script.devices[i].unique_id
        } else {
            ResultU64 { status: REFUSED, data: 0 }
        };
        self.record(Call::DeviceUniqueId(dev_id));
        reply
    }

    fn power_sensor_count(&mut self, dev_id: u32) -> (reply: ResultU16)
        ensures
            answered(*old(self), *final(self), Call::PowerSensorCount(dev_id), reply@),
    {
        let i = dev_id as usize;
        let reply = if i < self.script.devices.len() {
            self.script.devices[i].sensor_count
        } else {
            ResultU16 { status: REFUSED, data: 0 }
        };
        self.record(Call::PowerSensorCount(dev_id));
        reply
    }

    fn power_sensor(&mut self, dev_id: u32, sensor: u16) -> (reply: ResultU64)
        ensures
            answered(*old(self), *final(self), Call::PowerSensor(dev_id, sensor), reply@),
    {
        let i = dev_id as usize;
        let s = sensor as usize;
        let reply = if i < self.script.devices.len() && s < self.script.devices[i].sensor_power.len() {
            self.script.devices[i].sensor_power[s]
        } else {
            ResultU64 { status: REFUSED, data: 0 }
        };
        self.record(Call::PowerSensor(dev_id, sensor));
        reply
    }

    fn power_avg_all(&mut self, dev_id: u32) -> (reply: ResultU64)
        ensures
            answered(*old(self), *final(self), Call::PowerAvgAll(dev_id), reply@),
    {
        let i = dev_id as usize;
        let reply = if i < self.script.devices.len() {
            self.script.devices[i].power_avg
        } else {
            ResultU64 { status: REFUSED, data: 0 }
        };
        self.record(Call::PowerAvgAll(dev_id));
        reply
    }

    fn power_cap(&mut self, dev_id: u32, sensor: u16) -> (reply: ResultU64)
        ensures
            answered(*old(self), *final(self), Call::PowerCap(dev_id, sensor), reply@),
    {
        let i = dev_id as usize;
        let s = sensor as usize;
        let reply = if i < self.script.devices.len() && s < self.script.devices[i].sensor_cap.len() {
            self.script.devices[i].sensor_cap[s]
        } else {
            ResultU64 { status: REFUSED, data: 0 }
        };
        self.record(Call::PowerCap(dev_id, sensor));
        reply
    }

    fn default_power_cap(&mut self, dev_id: u32) -> (reply: ResultU64)
        ensures
            answered(*old(self), *final(self), Call::DefaultPowerCap(dev_id), reply@),
    {
        let i = dev_id as usize;
        let reply = if i < self.script.devices.len() {
            self.script.devices[i].default_cap
        } else {
            ResultU64 { status: REFUSED, data: 0 }
        };
        self.record(Call::DefaultPowerCap(dev_id));
        reply
    }

    fn power_cap_range(&mut self, dev_id: u32) -> (reply: ResultU64Dual)
        ensures
            answered(*old(self), *final(self), Call::PowerCapRange(dev_id), reply@),
    {
        let i = dev_id as usize;
        let reply = if i < self.script.devices.len() {
            self.script.devices[i].cap_range
        } else {
            ResultU64Dual { status: REFUSED, data1: 0, data2: 0 }
        };
        self.record(Call::PowerCapRange(dev_id));
        reply
    }

    fn pci_bandwidth(&mut self, dev_id: u32) -> (reply: ResultPcie)
        ensures
            answered(*old(self), *final(self), Call::PciBandwidth(dev_id), reply@),
    {
        let i = dev_id as usize;
        let reply = if i < self.script.devices.len() {
            copy_pcie(&self.script.devices[i].pcie)
        } else {
            ResultPcie { status: REFUSED, current_index: 0, lanes: None, transfer_rates: None }
        };
        self.record(Call::PciBandwidth(dev_id));
        reply
    }
}

} // verus!
