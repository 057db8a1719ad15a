use biology::vitals::LiveVitals;
use biology::vitals::VitalStatus;
use biology::Anatomy;
use biology::Mammal;
use biology::Mobility;
use biology::Nomenclature;

#[test]
fn test_mammal_creation() {
    let mammal = Mammal::new("Domestic Cat".to_string());

    assert_eq!(mammal.species, "Domestic Cat");
    assert_eq!(mammal.has_fur, true);
    assert!(matches!(mammal.vitals, VitalStatus::Alive(_)));
}

#[test]
fn test_mammal_with_fur_false() {
    let mammal = Mammal::new("Hairless Mole Rat".to_string()).with_fur(false);

    assert_eq!(mammal.has_fur, false);
}

#[test]
fn test_mammal_nomenclature() {
    let mammal = Mammal::new("Elephant".to_string());
    assert_eq!(mammal.display_name(), "Elephant");
}

#[test]
fn test_mammal_anatomy_with_fur() {
    let mammal = Mammal::new("Wolf".to_string());
    let anatomy = mammal.describe_anatomy();

    assert!(anatomy.contains("Wolf"));
    assert!(anatomy.contains("with fur"));
    assert!(anatomy.contains("warm-blooded"));
}

#[test]
fn test_mammal_anatomy_hairless() {
    let mammal = Mammal::new("Dolphin".to_string()).with_fur(false);
    let anatomy = mammal.describe_anatomy();

    assert!(anatomy.contains("hairless"));
}

#[test]
fn test_mammal_mobility() {
    let mammal = Mammal::new("Horse".to_string());
    let mobility = mammal.describe_locomotion();

    assert!(mobility.contains("Mammalian locomotion"));
}

#[test]
fn test_mammal_builder_pattern() {
    let mammal = Mammal::new("Test Mammal".to_string())
        .with_fur(false)
        .with_vitals(VitalStatus::Alive(LiveVitals::default()));

    assert_eq!(mammal.species, "Test Mammal");
    assert_eq!(mammal.has_fur, false);
}
