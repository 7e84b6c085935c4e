//! The structural value representation exchanged with the host environment,
//! and the lossless transcoding of layer configurations and data records
//! into it.
//!
//! Numbers are carried as integers in thousandths of a unit, matching the
//! convention of [`crate::data`]; the host turns them into its native
//! floating-point numbers at the boundary.

use crate::data::{FishingZone, TemperaturePoint};
use vstd::prelude::*;

verus! {

/// A structural host value: the shape of the records the renderer receives.
#[derive(Debug, PartialEq)]
pub enum HostValue {
    Bool(bool),
    /// A number, in thousandths of a unit.
    Num(i64),
    Str(String),
    Arr(Vec<HostValue>),
    Obj(Vec<(String, HostValue)>),
}

/// A named, typed layer configuration: a rendering-style tag bundled with
/// the data payload pushed wholesale to the renderer.  Duplicate ids are
/// allowed; the registry keeps every configuration appended to it.
#[derive(Debug)]
pub struct LayerConfig {
    pub id: String,
    pub layer_type: String,
    pub data: Vec<HostValue>,
}

/// The mathematical model of a layer configuration.
pub ghost struct LayerModel {
    pub id: Seq<char>,
    pub layer_type: Seq<char>,
    pub data: Seq<HostValue>,
}

impl LayerConfig {
    /// The model of this configuration.
    pub open spec fn model(&self) -> LayerModel {
        LayerModel { id: self.id@, layer_type: self.layer_type@, data: self.data@ }
    }
}

/// `v` is the host form of a layer configuration with model `m`: an object
/// with the fields `id`, `type` and `data`, in that order.
pub open spec fn encodes_layer_config(v: HostValue, m: LayerModel) -> bool {
    &&& v matches HostValue::Obj(fields)
    &&& fields@.len() == 3
    &&& fields@[0].0@ == "id"@
    &&& fields@[0].1 matches HostValue::Str(s) && s@ == m.id
    &&& fields@[1].0@ == "type"@
    &&& fields@[1].1 matches HostValue::Str(t) && t@ == m.layer_type
    &&& fields@[2].0@ == "data"@
    &&& fields@[2].1 matches HostValue::Arr(d) && d@ == m.data
}

impl LayerConfig {
    /// Transcodes the configuration into its structural host form.  The
    /// mapping is lossless: every field of the configuration reappears
    /// under its host name (`type` for the rendering-style tag).
    pub fn to_host_value(self) -> (v: HostValue)
        ensures
            encodes_layer_config(v, self.model()),
    {
        let LayerConfig { id, layer_type, data } = self;
        let mut fields: Vec<(String, HostValue)> = Vec::new();
        fields.push(("id".to_owned(), HostValue::Str(id)));
        fields.push(("type".to_owned(), HostValue::Str(layer_type)));
        fields.push(("data".to_owned(), HostValue::Arr(data)));
        HostValue::Obj(fields)
    }

    /// Recovers a configuration from its host form.  Returns the
    /// configuration whose host form `v` is, or `None` when `v` is not the
    /// host form of any configuration.
    pub fn from_host_value(v: HostValue) -> (r: Option<LayerConfig>)
        ensures
            r matches Some(c) ==> encodes_layer_config(v, c.model()),
            r is None ==> forall|m: LayerModel| !encodes_layer_config(v, m),
    {
        match v {
            HostValue::Obj(mut fields) => {
                if fields.len() != 3 {
                    return None;
                }
                let ghost all = fields@;
                let f2 = fields.pop().unwrap();
                let f1 = fields.pop().unwrap();
                let f0 = fields.pop().unwrap();
                proof {
                    assert(f0 == all[0]);
                    assert(f1 == all[1]);
                    assert(f2 == all[2]);
                }
                if !(f0.0 == "id".to_owned() && f1.0 == "type".to_owned() && f2.0
                    == "data".to_owned()) {
                    return None;
                }
                match (f0.1, f1.1, f2.1) {
                    (HostValue::Str(id), HostValue::Str(layer_type), HostValue::Arr(data)) => Some(
                        LayerConfig { id, layer_type, data },
                    ),
                    _ => None,
                }
            },
            _ => None,
        }
    }
}

/// A host value is the form of at most one layer-configuration model.
/// Together with the contracts of `to_host_value` and `from_host_value`
/// this is the round-trip law: transcoding a configuration into its host
/// form and reading it back yields, field for field, the configuration
/// that was written.
pub proof fn lemma_host_form_unique(v: HostValue, m1: LayerModel, m2: LayerModel)
    requires
        encodes_layer_config(v, m1),
        encodes_layer_config(v, m2),
    ensures
        m1 == m2,
{
}

/// `v` is a two-element array holding the numbers `pos[0]` and `pos[1]`.
pub open spec fn encodes_position(v: HostValue, pos: Seq<i64>) -> bool {
    &&& v matches HostValue::Arr(a)
    &&& a@.len() == 2
    &&& pos.len() == 2
    &&& a@[0] matches HostValue::Num(x) && x == pos[0]
    &&& a@[1] matches HostValue::Num(y) && y == pos[1]
}

/// `v` is the host form of the fishing sample `p`: an object with the
/// fields `position`, `abundance`, `species` and `zone`, in that order.
pub open spec fn encodes_fishing(v: HostValue, p: FishingZone) -> bool {
    &&& v matches HostValue::Obj(fields)
    &&& fields@.len() == 4
    &&& fields@[0].0@ == "position"@
    &&& encodes_position(fields@[0].1, p.position@)
    &&& fields@[1].0@ == "abundance"@
    &&& fields@[1].1 matches HostValue::Num(a) && a == p.abundance
    &&& fields@[2].0@ == "species"@
    &&& fields@[2].1 matches HostValue::Str(s) && s@ == p.species@
    &&& fields@[3].0@ == "zone"@
    &&& fields@[3].1 matches HostValue::Str(z) && z@ == p.zone@
}

/// `v` is the host form of the temperature sample `p`: an object with the
/// fields `position` and `weight`, in that order.
pub open spec fn encodes_temperature(v: HostValue, p: TemperaturePoint) -> bool {
    &&& v matches HostValue::Obj(fields)
    &&& fields@.len() == 2
    &&& fields@[0].0@ == "position"@
    &&& encodes_position(fields@[0].1, p.position@)
    &&& fields@[1].0@ == "weight"@
    &&& fields@[1].1 matches HostValue::Num(w) && w == p.weight
}

/// `v` is the host form of the `i`-th fishing sample of zone `z`.
pub open spec fn fishing_value_ok(v: HostValue, z: int, i: int) -> bool {
    exists|p: FishingZone| #[trigger] encodes_fishing(v, p) && crate::data::fishing_record_ok(p, z, i)
}

/// `v` is the host form of the temperature sample of grid row `row`,
/// column `col`.
pub open spec fn temperature_value_ok(v: HostValue, row: int, col: int) -> bool {
    exists|p: TemperaturePoint|
        #[trigger] encodes_temperature(v, p) && crate::data::temperature_record_ok(p, row, col)
}

impl FishingZone {
    /// Transcodes the sample into its structural host form.
    pub fn to_host_value(&self) -> (v: HostValue)
        requires
            self.position@.len() == 2,
        ensures
            encodes_fishing(v, *self),
    {
        let mut pos: Vec<HostValue> = Vec::new();
        pos.push(HostValue::Num(self.position[0]));
        pos.push(HostValue::Num(self.position[1]));
        let mut fields: Vec<(String, HostValue)> = Vec::new();
        fields.push(("position".to_owned(), HostValue::Arr(pos)));
        fields.push(("abundance".to_owned(), HostValue::Num(self.abundance)));
        fields.push(("species".to_owned(), HostValue::Str(self.species.clone())));
        fields.push(("zone".to_owned(), HostValue::Str(self.zone.clone())));
        HostValue::Obj(fields)
    }
}

impl TemperaturePoint {
    /// Transcodes the sample into its structural host form.
    pub fn to_host_value(&self) -> (v: HostValue)
        requires
            self.position@.len() == 2,
        ensures
            encodes_temperature(v, *self),
    {
        let mut pos: Vec<HostValue> = Vec::new();
        pos.push(HostValue::Num(self.position[0]));
        pos.push(HostValue::Num(self.position[1]));
        let mut fields: Vec<(String, HostValue)> = Vec::new();
        fields.push(("position".to_owned(), HostValue::Arr(pos)));
        fields.push(("weight".to_owned(), HostValue::Num(self.weight)));
        HostValue::Obj(fields)
    }
}

} // verus!
