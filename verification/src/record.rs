//! The interface together with the record of what was asked through it.

use vstd::prelude::*;
use crate::bindings::{
    bare, exchange, Call, Exchange, Foreign, ResultPcie, ResultStr, ResultU16, ResultU32,
    ResultU64, ResultU64Dual,
};

verus! {

/// An interface and the record of every call made through this value,
/// oldest first, each with the reply that it got.
///
/// The record is kept here, by the one who asks: each method makes its
/// call, once, and adds the call and the reply it returns at the end of
/// the record.
pub struct Recorded<F: Foreign> {
    foreign: F,
    log: Ghost<Seq<Exchange>>,
}

impl<F: Foreign> Recorded<F> {
    /// The calls made so far, oldest first.
    pub closed spec fn history(&self) -> Seq<Exchange> {
        self.log@
    }

    /// Takes an interface and begins an empty record.
    pub fn new(foreign: F) -> (r: Self)
        ensures
            r.history() == Seq::<Exchange>::empty(),
            r.inner() == foreign,
    {
        Recorded { foreign, log: Ghost(Seq::empty()) }
    }

    /// The interface that the calls are made through.
    pub closed spec fn inner(&self) -> F {
        self.foreign
    }

    /// The interface that the calls are made through, to look at.
    pub fn foreign(&self) -> (foreign: &F)
        ensures
            *foreign == self.inner(),
    {
        &self.foreign
    }

    /// Initializes the subsystem.
    pub fn init_c(&mut self) -> (status: u16)
        ensures
            final(self).history() == old(self).history().push(exchange(Call::Init, bare(status))),
    {
        let status = self.foreign.init_c();
        proof {
            self.log@ = self.log@.push(exchange(Call::Init, bare(status)));
        }
        status
    }

    /// How many devices there are.
    pub fn num_devices(&mut self) -> (reply: ResultU32)
        ensures
            final(self).history() == old(self).history().push(exchange(Call::NumDevices, reply@)),
    {
        let reply = self.foreign.num_devices();
        proof {
            self.log@ = self.log@.push(exchange(Call::NumDevices, reply@));
        }
        reply
    }

    /// The identifier of a device.
    pub fn device_id(&mut self, dev_id: u32) -> (reply: ResultU16)
        ensures
            final(self).history() == old(self).history().push(exchange(Call::DeviceId(dev_id), reply@)),
    {
        let reply = self.foreign.device_id(dev_id);
        proof {
            self.log@ = self.log@.push(exchange(Call::DeviceId(dev_id), reply@));
        }
        reply
    }

    /// The name of a device.
    pub fn device_name(&mut self, dev_id: u32) -> (reply: ResultStr)
        ensures
            final(self).history() == old(self).history().push(exchange(Call::DeviceName(dev_id), reply@)),
    {
        let reply = self.foreign.device_name(dev_id);
        proof {
            self.log@ = self.log@.push(exchange(Call::DeviceName(dev_id), reply@));
        }
        reply
    }

    /// The identifier of a device's vendor.
    pub fn device_vendor_id(&mut self, dev_id: u32) -> (reply: ResultU16)
        ensures
            final(self).history() == old(self).history().push(exchange(Call::DeviceVendorId(dev_id), reply@)),
    {
        let reply = self.foreign.device_vendor_id(dev_id);
        proof {
            self.log@ = self.log@.push(exchange(Call::DeviceVendorId(dev_id), reply@));
        }
        reply
    }

    /// The brand of a device.
    pub fn device_brand(&mut self, dev_id: u32) -> (reply: ResultStr)
        ensures
            final(self).history() == old(self).history().push(exchange(Call::DeviceBrand(dev_id), reply@)),
    {
        let reply = self.foreign.device_brand(dev_id);
        proof {
            self.log@ = self.log@.push(exchange(Call::DeviceBrand(dev_id), reply@));
        }
        reply
    }

    /// The name of a device's vendor.
    pub fn device_vendor_name(&mut self, dev_id: u32) -> (reply: ResultStr)
        ensures
            final(self).history() == old(self).history().push(exchange(Call::DeviceVendorName(dev_id), reply@)),
    {
        let reply = self.foreign.device_vendor_name(dev_id);
        proof {
            self.log@ = self.log@.push(exchange(Call::DeviceVendorName(dev_id), reply@));
        }
        reply
    }

    /// The name of the vendor of a device's memory.
    pub fn device_vram_vendor_name(&mut self, dev_id: u32) -> (reply: ResultStr)
        ensures
            final(self).history() == old(self).history().push(exchange(Call::DeviceVramVendorName(dev_id), reply@)),
    {
        let reply = self.foreign.device_vram_vendor_name(dev_id);
        proof {
            self.log@ = self.log@.push(exchange(Call::DeviceVramVendorName(dev_id), reply@));
        }
        reply
    }

    /// The serial number of a device.
    pub fn device_serial(&mut self, dev_id: u32) -> (reply: ResultStr)
        ensures
            final(self).history() == old(self).history().push(exchange(Call::DeviceSerial(dev_id), reply@)),
    {
        let reply = self.foreign.device_serial(dev_id);
        proof {
            self.log@ = self.log@.push(exchange(Call::DeviceSerial(dev_id), reply@));
        }
        reply
    }

    /// The identifier of a device's subsystem.
    pub fn device_subsystem_id(&mut self, dev_id: u32) -> (reply: ResultU16)
        ensures
            final(self).history() == old(self).history().push(exchange(Call::DeviceSubsystemId(dev_id), reply@)),
    {
        let reply = self.foreign.device_subsystem_id(dev_id);
        proof {
            self.log@ = self.log@.push(exchange(Call::DeviceSubsystemId(dev_id), reply@));
        }
        reply
    }

    /// The name of a device's subsystem.
    pub fn device_subsystem_name(&mut self, dev_id: u32) -> (reply: ResultStr)
        ensures
            final(self).history() == old(self).history().push(exchange(Call::DeviceSubsystemName(dev_id), reply@)),
    {
        let reply = self.foreign.device_subsystem_name(dev_id);
        proof {
            self.log@ = self.log@.push(exchange(Call::DeviceSubsystemName(dev_id), reply@));
        }
        reply
    }

    /// The minor number of a device's render node.
    pub fn device_drm_render(&mut self, dev_id: u32) -> (reply: ResultU32)
        ensures
            final(self).history() == old(self).history().push(exchange(Call::DeviceDrmRender(dev_id), reply@)),
    {
        let reply = self.foreign.device_drm_render(dev_id);
        proof {
            self.log@ = self.log@.push(exchange(Call::DeviceDrmRender(dev_id), reply@));
        }
        reply
    }

    /// The identifier of the vendor of a device's subsystem.
    pub fn device_subsystem_vendor_id(&mut self, dev_id: u32) -> (reply: ResultU16)
        ensures
            final(self).history() == old(self).history().push(exchange(Call::DeviceSubsystemVendorId(dev_id), reply@)),
    {
        let reply = self.foreign.device_subsystem_vendor_id(dev_id);
        proof {
            self.log@ = self.log@.push(exchange(Call::DeviceSubsystemVendorId(dev_id), reply@));
        }
        reply
    }

    /// The unique identifier of a device.
    pub fn device_unique_id(&mut self, dev_id: u32) -> (reply: ResultU64)
        ensures
            final(self).history() == old(self).history().push(exchange(Call::DeviceUniqueId(dev_id), reply@)),
    {
        let reply = self.foreign.device_unique_id(dev_id);
        proof {
            self.log@ = self.log@.push(exchange(Call::DeviceUniqueId(dev_id), reply@));
        }
        reply
    }

    /// How many power sensors a device has.
    pub fn power_sensor_count(&mut self, dev_id: u32) -> (reply: ResultU16)
        ensures
            final(self).history() == old(self).history().push(exchange(Call::PowerSensorCount(dev_id), reply@)),
    {
        let reply = self.foreign.power_sensor_count(dev_id);
        proof {
            self.log@ = self.log@.push(exchange(Call::PowerSensorCount(dev_id), reply@));
        }
        reply
    }

    /// The power that one sensor of a device reads now, in milliwatts.
    pub fn power_sensor(&mut self, dev_id: u32, sensor: u16) -> (reply: ResultU64)
        ensures
            final(self).history() == old(self).history().push(exchange(Call::PowerSensor(dev_id, sensor), reply@)),
    {
        let reply = self.foreign.power_sensor(dev_id, sensor);
        proof {
            self.log@ = self.log@.push(exchange(Call::PowerSensor(dev_id, sensor), reply@));
        }
        reply
    }

    /// The average power of a device over all its sensors, in milliwatts.
    pub fn power_avg_all(&mut self, dev_id: u32) -> (reply: ResultU64)
        ensures
            final(self).history() == old(self).history().push(exchange(Call::PowerAvgAll(dev_id), reply@)),
    {
        let reply = self.foreign.power_avg_all(dev_id);
        proof {
            self.log@ = self.log@.push(exchange(Call::PowerAvgAll(dev_id), reply@));
        }
        reply
    }

    /// The power cap set for one sensor of a device, in milliwatts.
    pub fn power_cap(&mut self, dev_id: u32, sensor: u16) -> (reply: ResultU64)
        ensures
            final(self).history() == old(self).history().push(exchange(Call::PowerCap(dev_id, sensor), reply@)),
    {
        let reply = self.foreign.power_cap(dev_id, sensor);
        proof {
            self.log@ = self.log@.push(exchange(Call::PowerCap(dev_id, sensor), reply@));
        }
        reply
    }

    /// The power cap that a device starts with, in milliwatts.
    pub fn default_power_cap(&mut self, dev_id: u32) -> (reply: ResultU64)
        ensures
            final(self).history() == old(self).history().push(exchange(Call::DefaultPowerCap(dev_id), reply@)),
    {
        let reply = self.foreign.default_power_cap(dev_id);
        proof {
            self.log@ = self.log@.push(exchange(Call::DefaultPowerCap(dev_id), reply@));
        }
        reply
    }

    /// The least and the greatest power cap that a device accepts, in milliwatts.
    pub fn power_cap_range(&mut self, dev_id: u32) -> (reply: ResultU64Dual)
        ensures
            final(self).history() == old(self).history().push(exchange(Call::PowerCapRange(dev_id), reply@)),
    {
        let reply = self.foreign.power_cap_range(dev_id);
        proof {
            self.log@ = self.log@.push(exchange(Call::PowerCapRange(dev_id), reply@));
        }
        reply
    }

    /// The link configurations of a device.
    pub fn pci_bandwidth(&mut self, dev_id: u32) -> (reply: ResultPcie)
        ensures
            final(self).history() == old(self).history().push(exchange(Call::PciBandwidth(dev_id), reply@)),
    {
        let reply = self.foreign.pci_bandwidth(dev_id);
        proof {
            self.log@ = self.log@.push(exchange(Call::PciBandwidth(dev_id), reply@));
        }
        reply
    }
}

} // verus!
