use vstd::prelude::*;

verus! {

use crate::interpolate::{interpolate, interpolate_spec, wf_table, CalPoint};
use crate::sealed::Sealed;

/// Marker trait binding a client to exactly one hardware variant; it
/// selects the calibration table used for every conversion. Sealed:
/// only the two variants below implement it.
pub trait DeviceType: Sealed {
    /// The calibration table bound to this variant.
    spec fn table() -> Seq<CalPoint>;

    /// Every variant's table is well formed in the sense of `wf_table`.
    proof fn lemma_table_wf()
        ensures
            wf_table(Self::table()),
    ;

    /// The table as data: one `CalPoint` per reference point.
    fn datapoints() -> (r: Vec<CalPoint>)
        ensures
            r@ == Self::table(),
    ;
}

/// The narrow-range variant, measuring up to 7.23 meters per second.
#[allow(non_camel_case_types)]
pub struct FS3000_1005;

/// The wide-range variant, measuring up to 15 meters per second.
#[allow(non_camel_case_types)]
pub struct FS3000_1015;

/// The calibration table of the narrow-range variant, velocities in
/// micrometers per second.
pub open spec fn table_1005() -> Seq<CalPoint> {
    seq![
        CalPoint { raw: 409, velocity: 0 },
        CalPoint { raw: 915, velocity: 1_070_000 },
        CalPoint { raw: 1522, velocity: 2_010_000 },
        CalPoint { raw: 2066, velocity: 3_000_000 },
        CalPoint { raw: 2523, velocity: 3_970_000 },
        CalPoint { raw: 2908, velocity: 4_960_000 },
        CalPoint { raw: 3256, velocity: 5_980_000 },
        CalPoint { raw: 3572, velocity: 6_990_000 },
        CalPoint { raw: 3686, velocity: 7_230_000 },
    ]
}

/// The calibration table of the wide-range variant, velocities in
/// micrometers per second.
pub open spec fn table_1015() -> Seq<CalPoint> {
    seq![
        CalPoint { raw: 409, velocity: 0 },
        CalPoint { raw: 1203, velocity: 2_000_000 },
        CalPoint { raw: 1597, velocity: 3_000_000 },
        CalPoint { raw: 1908, velocity: 4_000_000 },
        CalPoint { raw: 2187, velocity: 5_000_000 },
        CalPoint { raw: 2400, velocity: 6_000_000 },
        CalPoint { raw: 2629, velocity: 7_000_000 },
        CalPoint { raw: 2801, velocity: 8_000_000 },
        CalPoint { raw: 3006, velocity: 9_000_000 },
        CalPoint { raw: 3178, velocity: 10_000_000 },
        CalPoint { raw: 3309, velocity: 11_000_000 },
        CalPoint { raw: 3563, velocity: 13_000_000 },
        CalPoint { raw: 3686, velocity: 15_000_000 },
    ]
}

impl Sealed for FS3000_1005 {

}

impl DeviceType for FS3000_1005 {
    open spec fn table() -> Seq<CalPoint> {
        table_1005()
    }

    proof fn lemma_table_wf() {
    }

    fn datapoints() -> (r: Vec<CalPoint>) {
        let mut v: Vec<CalPoint> = Vec::new();
        v.push(CalPoint { raw: 409, velocity: 0 });
        v.push(CalPoint { raw: 915, velocity: 1_070_000 });
        v.push(CalPoint { raw: 1522, velocity: 2_010_000 });
        v.push(CalPoint { raw: 2066, velocity: 3_000_000 });
        v.push(CalPoint { raw: 2523, velocity: 3_970_000 });
        v.push(CalPoint { raw: 2908, velocity: 4_960_000 });
        v.push(CalPoint { raw: 3256, velocity: 5_980_000 });
        v.push(CalPoint { raw: 3572, velocity: 6_990_000 });
        v.push(CalPoint { raw: 3686, velocity: 7_230_000 });
        proof {
            assert(v@ =~= table_1005());
        }
        v
    }
}

impl Sealed for FS3000_1015 {

}

impl DeviceType for FS3000_1015 {
    open spec fn table() -> Seq<CalPoint> {
        table_1015()
    }

    proof fn lemma_table_wf() {
    }

    fn datapoints() -> (r: Vec<CalPoint>) {
        let mut v: Vec<CalPoint> = Vec::new();
        v.push(CalPoint { raw: 409, velocity: 0 });
        v.push(CalPoint { raw: 1203, velocity: 2_000_000 });
        v.push(CalPoint { raw: 1597, velocity: 3_000_000 });
        v.push(CalPoint { raw: 1908, velocity: 4_000_000 });
        v.push(CalPoint { raw: 2187, velocity: 5_000_000 });
        v.push(CalPoint { raw: 2400, velocity: 6_000_000 });
        v.push(CalPoint { raw: 2629, velocity: 7_000_000 });
        v.push(CalPoint { raw: 2801, velocity: 8_000_000 });
        v.push(CalPoint { raw: 3006, velocity: 9_000_000 });
        v.push(CalPoint { raw: 3178, velocity: 10_000_000 });
        v.push(CalPoint { raw: 3309, velocity: 11_000_000 });
        v.push(CalPoint { raw: 3563, velocity: 13_000_000 });
        v.push(CalPoint { raw: 3686, velocity: 15_000_000 });
        proof {
            assert(v@ =~= table_1015());
        }
        v
    }
}

/// Convert a raw reading to an air velocity in micrometers per second
/// using the calibration table of device variant `D`.
pub fn raw_to_velocity<D: DeviceType>(measurement: u16) -> (r: u32)
    ensures
        r as int == interpolate_spec(D::table(), measurement as int),
{
    proof {
        D::lemma_table_wf();
    }
    let table = D::datapoints();
    interpolate(measurement, &table)
}

/// Marker trait for the two execution modes a client can be built in;
/// sealed, so blocking and suspending are the only two.
pub trait ClientType: Sealed {

}

/// Marker type: bus transactions block the caller until they finish.
pub struct Blocking;

/// Marker type: bus transactions suspend the caller and resume on
/// completion. The suspending client itself lives outside the
/// verified library, next to the bus glue it needs.
pub struct Async;

impl Sealed for Blocking {

}

impl Sealed for Async {

}

impl ClientType for Blocking {

}

impl ClientType for Async {

}

} // verus!
