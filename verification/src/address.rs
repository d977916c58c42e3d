use vstd::prelude::*;

verus! {

/// The bus address of the device.
#[derive(Clone, Copy, Debug, PartialEq, Eq, Structural)]
pub enum DeviceAddr {
    /// The default address, 0x28.
    Default,
    /// Any other 7-bit address, e.g. when sitting behind an address
    /// multiplexer.
    Custom(u8),
}

/// The byte an address puts on the bus.
pub open spec fn addr_byte(addr: DeviceAddr) -> u8 {
    match addr {
        DeviceAddr::Default => 0x28,
        DeviceAddr::Custom(a) => a,
    }
}

impl From<DeviceAddr> for u8 {
    fn from(addr: DeviceAddr) -> (r: u8)
        ensures
            r == addr_byte(addr),
    {
        match addr {
            DeviceAddr::Default => 0x28,
            DeviceAddr::Custom(a) => a,
        }
    }
}

impl vstd::std_specs::convert::FromSpecImpl<DeviceAddr> for u8 {
    open spec fn obeys_from_spec() -> bool {
        true
    }

    open spec fn from_spec(addr: DeviceAddr) -> u8 {
        addr_byte(addr)
    }
}

impl Default for DeviceAddr {
    /// The address a client uses when none is given: `DeviceAddr::Default`.
    fn default() -> (r: Self)
        ensures
            r == DeviceAddr::Default,
    {
        DeviceAddr::Default
    }
}

} // verus!
