//! The link configurations of a device, read with one call.

use vstd::prelude::*;
use crate::bindings::{asked, Call, Foreign, Reply};
use crate::error::{check_res, status_kind, RocmErr};
use crate::record::Recorded;

verus! {

/// The link configurations that a device supports, and which of them is in
/// use. The lane count and the transfer rate of one configuration stand at
/// the same index.
#[derive(Debug, Clone)]
pub struct Pcie {
    pub current_index: u32,
    pub lanes: Vec<u32>,
    pub transfer_rates: Vec<u64>,
}

/// A link record with sequences in place of its vectors.
pub struct PcieView {
    pub current_index: u32,
    pub lanes: Seq<u32>,
    pub transfer_rates: Seq<u64>,
}

impl View for Pcie {
    type V = PcieView;

    open spec fn view(&self) -> PcieView {
        PcieView {
            current_index: self.current_index,
            lanes: self.lanes@,
            transfer_rates: self.transfer_rates@,
        }
    }
}

impl PcieView {
    /// The lane count and the transfer rate of the configuration in use,
    /// where the index of it lies within both lists.
    pub open spec fn current(self) -> Option<(u32, u64)> {
        if self.current_index < self.lanes.len() && self.current_index < self.transfer_rates.len() {
            Some(
                (
                    self.lanes[self.current_index as int],
                    self.transfer_rates[self.current_index as int],
                ),
            )
        } else {
            None
        }
    }
}

impl Reply {
    /// What a reply with link configurations says: beside a zero status
    /// the record of them, and the unknown error where either list is not
    /// there.
    pub open spec fn pcie_outcome(self) -> Result<PcieView, RocmErr> {
        if self.status != 0 {
            Err(status_kind(self.status))
        } else {
            match (self.payload->Bandwidth_1, self.payload->Bandwidth_2) {
                (Some(lanes), Some(transfer_rates)) => Ok(
                    PcieView { current_index: self.payload->Bandwidth_0, lanes, transfer_rates },
                ),
                _ => Err(RocmErr::RsmiStatusUnknownError),
            }
        }
    }
}

/// A result of the link query with the record's view in the record's
/// place.
pub open spec fn pcie_view(r: Result<Pcie, RocmErr>) -> Result<PcieView, RocmErr> {
    match r {
        Ok(p) => Ok(p@),
        Err(e) => Err(e),
    }
}

impl Pcie {
    /// Reads the link configurations of the device at `dev_id`.
    pub fn get_pcie<F: Foreign>(foreign: &mut Recorded<F>, dev_id: u32) -> (r: Result<Pcie, RocmErr>)
        ensures
            asked(old(foreign).history(), final(foreign).history(), Call::PciBandwidth(dev_id)),
            pcie_view(r) == final(foreign).history().last().reply.pcie_outcome(),
    {
        let res = foreign.pci_bandwidth(dev_id);
        match check_res(res.status) {
            Ok(()) => match (res.lanes, res.transfer_rates) {
                (Some(lanes), Some(transfer_rates)) => Ok(
                    Pcie { current_index: res.current_index, lanes, transfer_rates },
                ),
                _ => Err(RocmErr::RsmiStatusUnknownError),
            },
            Err(e) => Err(e),
        }
    }

    /// The lane count and the transfer rate of the configuration in use,
    /// and `None` where its index lies beyond either list.
    pub fn get_current(&self) -> (r: Option<(u32, u64)>)
        ensures
            r == self@.current(),
    {
        let i = self.current_index as usize;
        if i < self.lanes.len() && i < self.transfer_rates.len() {
            Some((self.lanes[i], self.transfer_rates[i]))
        } else {
            None
        }
    }
}

} // verus!
