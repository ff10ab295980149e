//! What identifies a device on the bus and which kind of device it is.

use vstd::prelude::*;

verus! {

/// The USB vendor identifier of every supported device.
pub const VENDOR_BEACN: u16 = 0x33ae;

/// The USB product identifier of the Beacn Mic.
pub const PID_BEACN_MIC: u16 = 0x0001;

/// The USB product identifier of the Beacn Studio.
pub const PID_BEACN_STUDIO: u16 = 0x0003;

/// Where a device sits: the number of its bus and its address on that bus.
#[derive(Copy, Clone, Debug, PartialEq, Eq, Hash, Structural)]
pub struct DeviceLocation {
    pub bus_number: u8,
    pub address: u8,
}

/// The kinds of device that a session can be opened on.
#[derive(Copy, Clone, Debug, PartialEq, Eq, Hash, Structural)]
pub enum DeviceType {
    BeacnMic,
    BeacnStudio,
}

impl DeviceType {
    /// The kind of device that a product identifier names, if it names one.
    pub open spec fn of_product_id(product_id: u16) -> Option<DeviceType> {
        if product_id == PID_BEACN_MIC {
            Some(DeviceType::BeacnMic)
        } else if product_id == PID_BEACN_STUDIO {
            Some(DeviceType::BeacnStudio)
        } else {
            None
        }
    }

    /// Classifies a device by its product identifier.
    pub fn from_product_id(product_id: u16) -> (kind: Option<DeviceType>)
        ensures
            kind == Self::of_product_id(product_id),
    {
        if product_id == PID_BEACN_MIC {
            Some(DeviceType::BeacnMic)
        } else if product_id == PID_BEACN_STUDIO {
            Some(DeviceType::BeacnStudio)
        } else {
            None
        }
    }
}

/// One attached USB device, as enumeration reports it.
#[derive(Copy, Clone, Debug, PartialEq, Eq, Hash, Structural)]
pub struct DeviceInfo {
    pub vendor_id: u16,
    pub product_id: u16,
    pub location: DeviceLocation,
}

impl DeviceInfo {
    /// Whether this is a device of the supported vendor at the given location.
    pub open spec fn is_at(self, location: DeviceLocation) -> bool {
        self.vendor_id == VENDOR_BEACN && self.location == location
    }
}

} // verus!
