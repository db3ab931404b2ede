//! The fixed fly-to table: the named places the UI offers.

use vstd::prelude::*;
use vstd::string::StringSliceAdditionalSpecFns;
use crate::camera::GeoPosition;

verus! {

/// What a fly-to request resolves a place name to.  The table is a fixed
/// constant set; an unknown name resolves to nothing.
pub open spec fn spec_lookup_location(name: &str) -> Option<GeoPosition> {
    if name.spec_bytes() == "paris".spec_bytes() {
        Some(GeoPosition { lat_e4: 488566, lon_e4: 23522 })
    } else if name.spec_bytes() == "new_york".spec_bytes() {
        Some(GeoPosition { lat_e4: 407128, lon_e4: -740060i64 })
    } else if name.spec_bytes() == "tokyo".spec_bytes() {
        Some(GeoPosition { lat_e4: 356762, lon_e4: 1396503 })
    } else {
        None
    }
}

/// Byte-for-byte equality of two byte strings.
pub fn bytes_equal(a: &[u8], b: &[u8]) -> (r: bool)
    ensures
        r == (a@ == b@),
{
    if a.len() != b.len() {
        return false;
    }
    let mut i: usize = 0;
    while i < a.len()
        invariant
            i <= a@.len(),
            a@.len() == b@.len(),
            forall|j: int| 0 <= j < i ==> a@[j] == b@[j],
        decreases a@.len() - i,
    {
        if a[i] != b[i] {
            return false;
        }
        i += 1;
    }
    proof {
        assert(a@ =~= b@);
    }
    true
}

/// Looks a place name up in the fixed table.
pub fn lookup_location(name: &str) -> (r: Option<GeoPosition>)
    ensures
        r == spec_lookup_location(name),
{
    let n = name.as_bytes();
    if bytes_equal(n, "paris".as_bytes()) {
        Some(GeoPosition { lat_e4: 488566, lon_e4: 23522 })
    } else if bytes_equal(n, "new_york".as_bytes()) {
        Some(GeoPosition { lat_e4: 407128, lon_e4: -740060 })
    } else if bytes_equal(n, "tokyo".as_bytes()) {
        Some(GeoPosition { lat_e4: 356762, lon_e4: 1396503 })
    } else {
        None
    }
}

/// Every entry of the table lies inside the valid coordinate ranges.
pub proof fn lemma_table_positions_wf(name: &str)
    ensures
        spec_lookup_location(name) matches Some(pos) ==> pos.wf(),
{
}

} // verus!
