use biology::vitals::PostMortemReport;
use biology::vitals::VitalStatus;
use biology::Anatomy;
use biology::Animal;
use biology::Mobility;
use biology::Nomenclature;
use biology::Summarizable;

#[test]
fn test_animal_creation() {
    let animal = Animal::new("Generic Dog".to_string());

    assert_eq!(animal.species, "Generic Dog");
    assert!(matches!(animal.vitals, VitalStatus::Alive(_)));
}

#[test]
fn test_animal_with_vitals() {
    let deceased_report = PostMortemReport {
        cause_of_death: "Natural causes".to_string(),
        date_of_death: "2024-01-01".to_string(),
        findings: vec![],
    };

    let animal =
        Animal::new("Test Animal".to_string()).with_vitals(VitalStatus::Deceased(deceased_report));

    assert!(matches!(animal.vitals, VitalStatus::Deceased(_)));
}

#[test]
fn test_animal_nomenclature() {
    let animal = Animal::new("Wild Cat".to_string());
    assert_eq!(animal.display_name(), "Wild Cat");
}

#[test]
fn test_animal_anatomy() {
    let animal = Animal::new("Bird".to_string());
    let anatomy = animal.describe_anatomy();
    assert!(anatomy.contains("Bird"));
    assert!(anatomy.contains("anatomical structure"));
}

#[test]
fn test_animal_mobility() {
    let animal = Animal::new("Fish".to_string());
    let mobility = animal.describe_locomotion();
    assert!(mobility.contains("species-appropriate"));
}

#[test]
fn test_animal_summary() {
    let animal = Animal::new("Test Species".to_string());
    let summary = animal.summary();

    assert!(summary.contains("Generic Animal"));
    assert!(summary.contains("Test Species"));
    assert!(summary.contains("Anatomy:"));
    assert!(summary.contains("Mobility:"));
}
