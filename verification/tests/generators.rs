use deckgl_session::controller::BGAPPDeckGLWASM;
use deckgl_session::doubles::RecordingRenderer;

fn controller() -> BGAPPDeckGLWASM<RecordingRenderer> {
    BGAPPDeckGLWASM::new("map".to_owned())
}

#[test]
fn fishing_data_has_fifty_records() {
    let c = controller();
    let data = c.create_angola_fishing_data();
    assert_eq!(data.len(), 50);
}

#[test]
fn fishing_species_and_zones_come_from_the_catalogs() {
    let species = ["Sardinha", "Atum", "Carapau", "Corvina", "Garoupa"];
    let zones = ["Cabinda", "Soyo", "Luanda", "Benguela", "Namibe"];
    let c = controller();
    let data = c.create_angola_fishing_data();
    for rec in &data {
        assert!(species.iter().any(|s| rec.species == *s));
        assert!(zones.iter().any(|z| rec.zone == *z));
    }
}

#[test]
fn fishing_first_and_last_records_are_exact() {
    let c = controller();
    let data = c.create_angola_fishing_data();
    // First record: zone Cabinda (12.2 E, -5.5 S), offset -0.5 degrees.
    assert_eq!(data[0].position, vec![11700, -6000]);
    assert_eq!(data[0].abundance, 50000);
    assert_eq!(data[0].species, "Sardinha");
    assert_eq!(data[0].zone, "Cabinda");
    // Last record: zone Namibe (12.1 E, -15.2 S), offset +0.4 degrees,
    // abundance 50 + 9 * 15 = 185.
    assert_eq!(data[49].position, vec![12500, -14800]);
    assert_eq!(data[49].abundance, 185000);
    assert_eq!(data[49].species, "Garoupa");
    assert_eq!(data[49].zone, "Namibe");
}

#[test]
fn temperature_data_has_twenty_eight_records() {
    let c = controller();
    let data = c.create_temperature_data();
    assert_eq!(data.len(), 28);
}

#[test]
fn temperature_grid_and_weights_are_exact() {
    let c = controller();
    let data = c.create_temperature_data();
    // First cell: latitude -16, longitude 11, weight 0.3 + (-6) * 0.05 = 0.0.
    assert_eq!(data[0].position, vec![11000, -16000]);
    assert_eq!(data[0].weight, 0);
    // First cell of the -10 degree row: weight exactly 0.3.
    assert_eq!(data[12].position, vec![11000, -10000]);
    assert_eq!(data[12].weight, 300);
    // Last cell: latitude -4, longitude 14, weight 0.6.
    assert_eq!(data[27].position, vec![14000, -4000]);
    assert_eq!(data[27].weight, 600);
    for rec in &data {
        assert!(0 <= rec.weight && rec.weight <= 600);
    }
}

#[test]
fn generators_are_deterministic() {
    let c = controller();
    let a = c.create_angola_fishing_data();
    let b = c.create_angola_fishing_data();
    for (x, y) in a.iter().zip(b.iter()) {
        assert_eq!(x.position, y.position);
        assert_eq!(x.abundance, y.abundance);
        assert_eq!(x.species, y.species);
        assert_eq!(x.zone, y.zone);
    }
    let t1 = c.create_temperature_data();
    let t2 = c.create_temperature_data();
    for (x, y) in t1.iter().zip(t2.iter()) {
        assert_eq!(x.position, y.position);
        assert_eq!(x.weight, y.weight);
    }
}
