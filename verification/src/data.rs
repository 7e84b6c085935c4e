//! The camera view state and the two synthetic oceanographic datasets:
//! fishing-abundance point samples and a regular sea-surface-temperature
//! grid.
//!
//! Real-valued quantities are carried as integers in thousandths: a
//! longitude of 12.2 degrees is stored as `12200`, a sample weight of 0.3 as
//! `300`.  The generators are fully deterministic, so their output is pinned
//! record for record by the predicates below.

use vstd::prelude::*;

verus! {

/// Camera parameters defining the initial viewport.  Angles and zoom are in
/// thousandths of a unit.
#[derive(PartialEq, Eq, Structural, Clone, Copy, Debug)]
pub struct ViewState {
    pub longitude: i64,
    pub latitude: i64,
    pub zoom: i64,
    pub pitch: i64,
    pub bearing: i64,
}

/// The fixed initial camera: centered on the Angolan exclusive economic
/// zone at 12.0 E, -11.0 S, zoom 5.
pub open spec fn spec_initial_view() -> ViewState {
    ViewState { longitude: 12000, latitude: -11000i64, zoom: 5000, pitch: 0, bearing: 0 }
}

/// One fishing-abundance sample: a lon/lat position (thousandths of a
/// degree), an abundance estimate (thousandths), a species label and the
/// name of the coastal zone the sample belongs to.
#[derive(Debug)]
pub struct FishingZone {
    pub position: Vec<i64>,
    pub abundance: i64,
    pub species: String,
    pub zone: String,
}

/// One sea-surface-temperature sample: a lon/lat position (thousandths of a
/// degree) and a weight (thousandths, intended within roughly 0 to 1.5).
#[derive(Debug)]
pub struct TemperaturePoint {
    pub position: Vec<i64>,
    pub weight: i64,
}

/// Name of the `z`-th coastal zone (meaningful for `0 <= z < 5`).
pub open spec fn zone_name(z: int) -> Seq<char> {
    if z == 0 {
        "Cabinda"@
    } else if z == 1 {
        "Soyo"@
    } else if z == 2 {
        "Luanda"@
    } else if z == 3 {
        "Benguela"@
    } else {
        "Namibe"@
    }
}

/// Base latitude of the `z`-th coastal zone, thousandths of a degree.
pub open spec fn zone_latitude(z: int) -> int {
    if z == 0 {
        -5500
    } else if z == 1 {
        -6100
    } else if z == 2 {
        -8800
    } else if z == 3 {
        -12600
    } else {
        -15200
    }
}

/// Base longitude of the `z`-th coastal zone, thousandths of a degree.
pub open spec fn zone_longitude(z: int) -> int {
    if z == 0 {
        12200
    } else if z == 1 {
        12300
    } else if z == 2 {
        13200
    } else if z == 3 {
        13400
    } else {
        12100
    }
}

/// Name of the `j`-th species of the catalog (meaningful for `0 <= j < 5`).
pub open spec fn species_name(j: int) -> Seq<char> {
    if j == 0 {
        "Sardinha"@
    } else if j == 1 {
        "Atum"@
    } else if j == 2 {
        "Carapau"@
    } else if j == 3 {
        "Corvina"@
    } else {
        "Garoupa"@
    }
}

/// The `i`-th sample of zone `z`: offset `(i - 5) * 0.1` degrees from the
/// zone's base position in both axes, abundance `50 + 15 i`, species taken
/// from the catalog round robin.
pub open spec fn fishing_record_ok(p: FishingZone, z: int, i: int) -> bool {
    &&& p.position@.len() == 2
    &&& p.position@[0] == zone_longitude(z) + (i - 5) * 100
    &&& p.position@[1] == zone_latitude(z) + (i - 5) * 100
    &&& p.abundance == 50000 + i * 15000
    &&& p.species@ == species_name(i % 5)
    &&& p.zone@ == zone_name(z)
}

/// The full fishing dataset: ten samples for each of the five zones, in
/// zone-major order.
pub open spec fn fishing_dataset_ok(s: Seq<FishingZone>) -> bool {
    &&& s.len() == 50
    &&& forall|k: int| 0 <= k < 50 ==> #[trigger] fishing_record_ok(s[k], k / 10, k % 10)
}

/// Latitude of the `row`-th grid line, thousandths of a degree: -16 to -4
/// in steps of 2 degrees.
pub open spec fn temperature_latitude(row: int) -> int {
    -16000 + row * 2000
}

/// Longitude of the `col`-th grid line, thousandths of a degree: 11 to 14
/// in steps of 1 degree.
pub open spec fn temperature_longitude(col: int) -> int {
    11000 + col * 1000
}

/// Weight of every sample on the `row`-th grid line, thousandths:
/// `0.3 + (latitude + 10) * 0.05` for a latitude of `-16 + 2 * row` degrees.
pub open spec fn temperature_weight(row: int) -> int {
    300 + ((-16 + 2 * row) + 10) * 50
}

/// The sample of grid row `row` and column `col`.
pub open spec fn temperature_record_ok(p: TemperaturePoint, row: int, col: int) -> bool {
    &&& p.position@.len() == 2
    &&& p.position@[0] == temperature_longitude(col)
    &&& p.position@[1] == temperature_latitude(row)
    &&& p.weight == temperature_weight(row)
}

/// The full temperature dataset: seven rows of four columns, row-major.
pub open spec fn temperature_dataset_ok(s: Seq<TemperaturePoint>) -> bool {
    &&& s.len() == 28
    &&& forall|k: int| 0 <= k < 28 ==> #[trigger] temperature_record_ok(s[k], k / 4, k % 4)
}

/// `s` is one of the five species labels of the catalog.
pub open spec fn is_catalog_species(s: Seq<char>) -> bool {
    exists|j: int| 0 <= j < 5 && s == #[trigger] species_name(j)
}

/// `s` is one of the five coastal zone names.
pub open spec fn is_catalog_zone(s: Seq<char>) -> bool {
    exists|z: int| 0 <= z < 5 && s == #[trigger] zone_name(z)
}

/// Every record of a well-formed fishing dataset names one of the five
/// catalog species and one of the five coastal zones.
pub proof fn lemma_fishing_catalog(s: Seq<FishingZone>)
    requires
        fishing_dataset_ok(s),
    ensures
        s.len() == 50,
        forall|k: int| 0 <= k < 50 ==> is_catalog_species(#[trigger] s[k].species@),
        forall|k: int| 0 <= k < 50 ==> is_catalog_zone(#[trigger] s[k].zone@),
{
    assert forall|k: int| 0 <= k < 50 implies is_catalog_species(#[trigger] s[k].species@) by {
        assert(fishing_record_ok(s[k], k / 10, k % 10));
        let j = (k % 10) % 5;
        assert(0 <= j < 5);
        assert(s[k].species@ == species_name(j));
    }
    assert forall|k: int| 0 <= k < 50 implies is_catalog_zone(#[trigger] s[k].zone@) by {
        assert(fishing_record_ok(s[k], k / 10, k % 10));
        let z = k / 10;
        assert(0 <= z < 5);
        assert(s[k].zone@ == zone_name(z));
    }
}

/// Weights of a well-formed temperature dataset lie between 0.0 and 0.6
/// (thousandths: 0 to 600); on the rows at latitude -10 and above — the
/// records from index 12 on — they lie between 0.3 and 0.6.
pub proof fn lemma_temperature_weight_range(s: Seq<TemperaturePoint>)
    requires
        temperature_dataset_ok(s),
    ensures
        s.len() == 28,
        forall|k: int| 0 <= k < 28 ==> 0 <= #[trigger] s[k].weight <= 600,
        forall|k: int| 12 <= k < 28 ==> 300 <= #[trigger] s[k].weight <= 600,
{
    assert forall|k: int| 0 <= k < 28 implies 0 <= #[trigger] s[k].weight <= 600 by {
        assert(temperature_record_ok(s[k], k / 4, k % 4));
    }
    assert forall|k: int| 12 <= k < 28 implies 300 <= #[trigger] s[k].weight by {
        assert(temperature_record_ok(s[k], k / 4, k % 4));
        assert(k / 4 >= 3);
    }
}

/// Species label of index `j` of the catalog.
pub fn species_at(j: usize) -> (r: String)
    requires
        j < 5,
    ensures
        r@ == species_name(j as int),
{
    let s: &str = match j {
        0 => "Sardinha",
        1 => "Atum",
        2 => "Carapau",
        3 => "Corvina",
        _ => "Garoupa",
    };
    s.to_owned()
}

/// Name and base position (latitude, longitude; thousandths of a degree) of
/// the `z`-th coastal zone.
pub fn zone_at(z: usize) -> (r: (String, i64, i64))
    requires
        z < 5,
    ensures
        r.0@ == zone_name(z as int),
        r.1 == zone_latitude(z as int),
        r.2 == zone_longitude(z as int),
{
    match z {
        0 => ("Cabinda".to_owned(), -5500, 12200),
        1 => ("Soyo".to_owned(), -6100, 12300),
        2 => ("Luanda".to_owned(), -8800, 13200),
        3 => ("Benguela".to_owned(), -12600, 13400),
        _ => ("Namibe".to_owned(), -15200, 12100),
    }
}

} // verus!
