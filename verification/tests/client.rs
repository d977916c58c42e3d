use fs3000_rs::{Blocking, DeviceAddr, Error, Packet, Transport, FS3000, FS3000_1005};

/// A test double for the bus: hands back one fixed packet, or fails.
struct FixedTransport {
    bytes: [u8; 5],
    fail: bool,
}

impl Transport for FixedTransport {
    type Error = u8;

    fn read_packet(&mut self, _address: u8) -> Result<Packet, u8> {
        if self.fail {
            Err(7)
        } else {
            Ok(Packet(self.bytes))
        }
    }

    fn probe(&mut self, _address: u8) -> Result<(), u8> {
        if self.fail {
            Err(7)
        } else {
            Ok(())
        }
    }
}

#[test]
fn test_read_velocity_end_to_end() {
    // The datasheet packet: checksum valid, measurement 409, which is
    // the floor point of the narrow-range table.
    let transport = FixedTransport { bytes: [0xCC, 0x01, 0x99, 0x01, 0x99], fail: false };
    let mut client = FS3000::<FS3000_1005, Blocking, _>::new(DeviceAddr::Default, transport);
    assert_eq!(client.read_raw().unwrap(), 409);
    assert_eq!(client.read_velocity().unwrap(), 0);
}

#[test]
fn test_read_velocity_checksum_failure() {
    let transport = FixedTransport { bytes: [0x00, 0x01, 0x02, 0x03, 0x04], fail: false };
    let mut client = FS3000::<FS3000_1005, Blocking, _>::new(DeviceAddr::Default, transport);
    assert!(matches!(client.read_velocity(), Err(Error::ChecksumFailed)));
    assert!(matches!(client.read_raw(), Err(Error::ChecksumFailed)));
}

#[test]
fn test_transport_error_passes_through() {
    let transport = FixedTransport { bytes: [0; 5], fail: true };
    let mut client = FS3000::<FS3000_1005, Blocking, _>::new(DeviceAddr::Default, transport);
    assert!(matches!(client.read_velocity(), Err(Error::I2C(7))));
    assert!(matches!(client.read_raw(), Err(Error::I2C(7))));
    assert!(matches!(client.connected(), Err(7)));
}

#[test]
fn test_connected() {
    let transport = FixedTransport { bytes: [0; 5], fail: false };
    let mut client = FS3000::<FS3000_1005, Blocking, _>::new(DeviceAddr::Custom(0x29), transport);
    assert!(client.connected().is_ok());
}

#[test]
fn test_device_addr() {
    assert_eq!(u8::from(DeviceAddr::Default), 0x28);
    assert_eq!(u8::from(DeviceAddr::Custom(0x55)), 0x55);
    assert_eq!(u8::from(DeviceAddr::default()), 0x28);
}
