use biology::anatomy::ArmMeasurements;
use biology::anatomy::LegMeasurements;
use biology::templates::AnatomyTemplate;
use biology::Anatomy;
use biology::Animal;
use biology::Centimeters;
use biology::Human;
use biology::Mammal;
use biology::NameParts;
use biology::Nomenclature;
use biology::Sex;
use biology::Summarizable;

/// Average adult male, North American: the same measurement defaults the
/// anthropometric reference tables carry.
fn avg_north_american_male() -> AnatomyTemplate {
    AnatomyTemplate {
        arm_measurements: ArmMeasurements {
            upper_length: Centimeters(38),
            triceps_length: Centimeters(26),
            span: Centimeters(175),
            flexed_bicep: Centimeters(35),
            unflexed_bicep: Centimeters(33),
        },
        leg_measurements: LegMeasurements { inseam: Centimeters(81), quad: Centimeters(58) },
    }
}

#[test]
fn test_progressive_complexity() {
    let animal = Animal::new("Generic Bird".to_string());
    assert_eq!(animal.display_name(), "Generic Bird");

    let mammal = Mammal::new("Generic Cat".to_string());
    assert_eq!(mammal.display_name(), "Generic Cat");
    assert_eq!(mammal.has_fur, true);

    let human = Human::builder()
        .name(NameParts::from_full_name("John Doe"))
        .sex(Sex::Male)
        .using_template(&avg_north_american_male())
        .build();
    assert_eq!(human.display_name(), "John Doe");
    assert_eq!(human.appendages.len(), 4);
}

#[test]
fn test_all_types_summarizable() {
    let animal = Animal::new("Test Animal".to_string());
    let mammal = Mammal::new("Test Mammal".to_string());
    let human = Human::builder()
        .designation("Test Human".to_string())
        .sex(Sex::Unknown)
        .using_template(&avg_north_american_male())
        .build();

    assert!(animal.summary().contains("Generic Animal"));
    assert!(mammal.summary().contains("Generic Mammal"));
    assert!(human.summary().contains("Human"));
}

#[test]
fn test_import_paths() {
    let _animal: Animal = Animal::new("Test".to_string());
    let _mammal: Mammal = Mammal::new("Test".to_string());
    let _human: Human = Human::builder()
        .designation("Test".to_string())
        .sex(Sex::Male)
        .using_template(&avg_north_american_male())
        .build();

    assert!(true);
}

#[test]
fn test_polymorphic_collection() {
    let animal = Animal::new("Polymorphic Test".to_string());
    let mammal = Mammal::new("Polymorphic Test".to_string());
    let human = Human::builder()
        .designation("Polymorphic Test".to_string())
        .sex(Sex::Male)
        .using_template(&avg_north_american_male())
        .build();

    let summaries: Vec<&dyn Summarizable> = vec![&animal, &mammal, &human];

    assert_eq!(summaries.len(), 3);
    for entity in summaries {
        let summary = entity.summary();
        assert!(!summary.is_empty());
    }
}

#[test]
fn test_mammal_variation() {
    let furry_mammal = Mammal::new("Wolf".to_string());
    let hairless_mammal = Mammal::new("Dolphin".to_string()).with_fur(false);

    assert_eq!(furry_mammal.has_fur, true);
    assert_eq!(hairless_mammal.has_fur, false);

    let furry_anatomy = furry_mammal.describe_anatomy();
    let hairless_anatomy = hairless_mammal.describe_anatomy();

    assert!(furry_anatomy.contains("with fur"));
    assert!(hairless_anatomy.contains("hairless"));
}
