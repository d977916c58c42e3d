use vstd::prelude::*;

verus! {

/// A raw five-byte response packet as it arrives from the device.
///
/// Byte 0 carries the checksum, bytes 1 and 2 encode the 12-bit
/// measurement, bytes 3 and 4 are unused by this driver.
pub struct Packet(pub [u8; 5]);

/// Mathematical sum of a sequence of bytes.
pub open spec fn byte_sum(b: Seq<u8>) -> int
    decreases b.len(),
{
    if b.len() == 0 {
        0
    } else {
        byte_sum(b.drop_last()) + b.last()
    }
}

/// A packet is intact iff the 8-bit wrapping sum of all five bytes,
/// the checksum byte included, comes out to zero; equivalently, iff
/// the full byte sum is divisible by 256.
pub open spec fn checksum_ok(b: Seq<u8>) -> bool {
    byte_sum(b) % 256 == 0
}

/// The 12-bit measurement a packet encodes: the low four bits of
/// byte 1 form the high nibble, byte 2 the low byte.
pub open spec fn measurement_of(b: Seq<u8>) -> int {
    (b[1] as int % 16) * 256 + b[2] as int
}

impl Packet {
    /// Decode the raw measurement from bytes 1 and 2.
    ///
    /// Callable whether or not the packet validates; the caller must
    /// check `valid` first and discard the value otherwise.
    pub fn measurement(&self) -> (r: u16)
        ensures
            r as int == measurement_of(self.0@),
            r < 4096,
    {
        let b1 = self.0[1];
        let b2 = self.0[2];

        // Only the least significant four bits of the high byte are valid.
        let data_high: u16 = (b1 & 0x0f) as u16;
        let data_low: u16 = b2 as u16;
        let airflow: u16 = (data_high << 8) | data_low;
        proof {
            assert(airflow == (b1 as u16 % 16) * 256 + b2 as u16 && airflow < 4096)
                by (bit_vector)
                requires
                    data_high == (b1 & 0x0f) as u16,
                    data_low == b2 as u16,
                    airflow == (data_high << 8) | data_low,
            ;
        }
        airflow
    }

    /// Check the packet's integrity: the 8-bit wrapping sum over all
    /// five bytes, the checksum byte itself included, must equal zero.
    pub fn valid(&self) -> (r: bool)
        ensures
            r == checksum_ok(self.0@),
    {
        let mut acc: u16 = 0;
        let mut i: usize = 0;
        while i < 5
            invariant
                i <= 5,
                acc < 256,
                acc as int == byte_sum(self.0@.take(i as int)) % 256,
            decreases 5 - i,
        {
            proof {
                let prefix = self.0@.take(i as int);
                let next = self.0@.take(i + 1);
                assert(next.drop_last() =~= prefix);
                assert(next.last() == self.0@[i as int]);
                vstd::arithmetic::div_mod::lemma_add_mod_noop(
                    byte_sum(prefix),
                    self.0@[i as int] as int,
                    256,
                );
                vstd::arithmetic::div_mod::lemma_small_mod(self.0@[i as int] as nat, 256);
                vstd::arithmetic::div_mod::lemma_mod_bound(byte_sum(next), 256);
            }
            acc = (acc + self.0[i] as u16) % 256;
            i += 1;
        }
        proof {
            assert(self.0@.take(5) =~= self.0@);
        }
        acc == 0
    }
}

/// Validate a packet and decode its measurement: the exact decision the
/// driver applies to whatever five bytes the transport produced.
pub fn decode_packet(packet: &Packet) -> (r: Option<u16>)
    ensures
        match r {
            Some(m) => checksum_ok(packet.0@) && m as int == measurement_of(packet.0@) && m
                < 4096,
            None => !checksum_ok(packet.0@),
        },
{
    if packet.valid() {
        Some(packet.measurement())
    } else {
        None
    }
}

} // verus!
