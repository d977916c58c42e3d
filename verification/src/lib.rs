//! A platform-agnostic driver for FS3000 airflow sensors on a two-wire
//! serial bus.
//!
//! The driver validates and decodes the device's five-byte response
//! packets and converts the raw 12-bit reading to an air velocity via a
//! per-variant calibration table. Velocities are reported as integers in
//! micrometers per second, so every step of the conversion carries an
//! exact contract.

mod address;
mod interpolate;
mod protocol;
mod sealed;
mod types;

use core::marker::PhantomData;
use vstd::prelude::*;

pub use address::{addr_byte, DeviceAddr};

pub use interpolate::{
    interpolate, interpolate_spec, lemma_interpolate_ceiling, lemma_interpolate_exact,
    lemma_interpolate_floor, lemma_interpolate_monotonic, lemma_table_sorted, seg_index,
    wf_table, CalPoint,
};
pub use protocol::{byte_sum, checksum_ok, decode_packet, measurement_of, Packet};
pub use types::{
    raw_to_velocity, table_1005, table_1015, Async, Blocking, ClientType, DeviceType,
    FS3000_1005, FS3000_1015,
};

verus! {

/// Any error that can occur when using this library.
#[derive(Debug)]
pub enum Error<I2CError> {
    /// A packet was received but its checksum did not validate: a
    /// corrupted transaction or a faulty link. Not retried here; the
    /// caller decides whether to issue the read again.
    ChecksumFailed,
    /// An error of the underlying bus transport, passed through
    /// unmodified.
    I2C(I2CError),
}

/// The abstract bus capability a blocking client consumes: something
/// that can run a five-byte read, or an empty probe transaction,
/// against a 7-bit address.
///
/// Implementations live outside the verified library — a real bus
/// behind a hardware abstraction, or a test double. Nothing is assumed
/// about the bytes a read produces: every packet is validated before
/// it is believed.
pub trait Transport {
    /// The transport's own error type.
    type Error;

    /// Read exactly the five bytes of one response packet from the
    /// device at `address`.
    fn read_packet(&mut self, address: u8) -> Result<Packet, Self::Error>;

    /// Issue an empty transaction against `address`: a presence check.
    fn probe(&mut self, address: u8) -> Result<(), Self::Error>;
}

/// A client for one FS3000 device.
///
/// The type is tagged at construction with one device variant and one
/// execution mode, so the matching calibration table and I/O
/// discipline are fixed at compile time and can never be mixed. The
/// methods below exist for `Client = Blocking`; a suspending client
/// performs the same validated decoding through the public codec and
/// conversion functions, with only its bus call differing.
pub struct FS3000<Device: DeviceType, Client: ClientType, T> {
    address: DeviceAddr,
    transport: T,
    device: PhantomData<Device>,
    client: PhantomData<Client>,
}

impl<Device: DeviceType, Client: ClientType, T> FS3000<Device, Client, T> {
    /// The address this client was configured with.
    pub closed spec fn spec_address(&self) -> DeviceAddr {
        self.address
    }
}

impl<Device: DeviceType, T: Transport> FS3000<Device, Blocking, T> {
    /// Create a new client bound to one device variant and the
    /// blocking execution mode.
    pub fn new(address: DeviceAddr, i2c: T) -> (r: Self)
        ensures
            r.spec_address() == address,
    {
        FS3000 { address, transport: i2c, device: PhantomData, client: PhantomData }
    }

    /// Check that a device acknowledges at the configured address:
    /// one empty transaction. Any transport error is returned
    /// unmodified.
    pub fn connected(&mut self) -> (r: Result<(), T::Error>)
        ensures
            final(self).spec_address() == old(self).spec_address(),
    {
        let address = u8::from(self.address);
        self.transport.probe(address)
    }

    /// Fetch one raw measurement: exactly one five-byte read
    /// transaction, validated and decoded.
    ///
    /// Any measurement this returns was decoded from a packet whose
    /// checksum validated; a packet that fails validation is reported
    /// as `Error::ChecksumFailed`, and a transport failure is passed
    /// through as `Error::I2C`.
    pub fn read_raw(&mut self) -> (r: Result<u16, Error<T::Error>>)
        ensures
            final(self).spec_address() == old(self).spec_address(),
            match r {
                Ok(m) => exists|b: Seq<u8>|
                    b.len() == 5 && #[trigger] checksum_ok(b) && m as int == measurement_of(b)
                        && m < 4096,
                Err(Error::ChecksumFailed) => exists|b: Seq<u8>|
                    b.len() == 5 && !#[trigger] checksum_ok(b),
                Err(Error::I2C(_)) => true,
            },
    {
        let address = u8::from(self.address);
        let packet = match self.transport.read_packet(address) {
            Ok(p) => p,
            Err(e) => {
                return Err(Error::I2C(e));
            },
        };
        match decode_packet(&packet) {
            Some(m) => Ok(m),
            None => Err(Error::ChecksumFailed),
        }
    }

    /// Fetch one measurement and convert it through the calibration
    /// table bound to this client's device variant. The velocity is
    /// in micrometers per second.
    pub fn read_velocity(&mut self) -> (r: Result<u32, Error<T::Error>>)
        ensures
            final(self).spec_address() == old(self).spec_address(),
            match r {
                Ok(v) => exists|b: Seq<u8>|
                    b.len() == 5 && #[trigger] checksum_ok(b) && v as int == interpolate_spec(
                        Device::table(),
                        measurement_of(b),
                    ),
                Err(Error::ChecksumFailed) => exists|b: Seq<u8>|
                    b.len() == 5 && !#[trigger] checksum_ok(b),
                Err(Error::I2C(_)) => true,
            },
    {
        match self.read_raw() {
            Ok(m) => {
                let v = raw_to_velocity::<Device>(m);
                proof {
                    let b = choose|b: Seq<u8>|
                        b.len() == 5 && #[trigger] checksum_ok(b) && m as int == measurement_of(b)
                            && m < 4096;
                    assert(v as int == interpolate_spec(Device::table(), measurement_of(b)));
                }
                Ok(v)
            },
            Err(e) => Err(e),
        }
    }
}

} // verus!
