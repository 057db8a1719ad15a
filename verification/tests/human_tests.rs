use biology::anatomy::ArmMeasurements;
use biology::anatomy::LegMeasurements;
use biology::templates::AnatomyTemplate;
use biology::vitals::BloodPressure;
use biology::vitals::Celsius;
use biology::vitals::LiveVitals;
use biology::vitals::VitalStatus;
use biology::vitals::BPM;
use biology::Anatomy;
use biology::Centimeters;
use biology::Human;
use biology::Mobility;
use biology::NameParts;
use biology::Nomenclature;
use biology::Sex;
use biology::Summarizable;

/// Average adult male, North American: the same measurement defaults the
/// anthropometric reference tables carry.
fn avg_north_american_male() -> AnatomyTemplate {
    AnatomyTemplate {
        arm_measurements: ArmMeasurements {
            upper_length: Centimeters(38),
            triceps_length: Centimeters(26),
            span: Centimeters(175),
            flexed_bicep: Centimeters(35),
            unflexed_bicep: Centimeters(33),
        },
        leg_measurements: LegMeasurements { inseam: Centimeters(81), quad: Centimeters(58) },
    }
}

#[test]
fn test_human_creation_with_builder() {
    let human = Human::builder()
        .name(NameParts::from_full_name("John Doe"))
        .sex(Sex::Male)
        .using_template(&avg_north_american_male())
        .build();

    assert!(matches!(human.sex, Sex::Male));
    assert_eq!(human.display_name(), "John Doe");
}

#[test]
fn test_human_with_designation() {
    let human = Human::builder()
        .designation("Case #12345".to_string())
        .sex(Sex::Female)
        .using_template(&avg_north_american_male())
        .build();

    assert_eq!(human.display_name(), "Case #12345");
}

#[test]
fn test_human_name_parts_parsing() {
    let name = NameParts::from_full_name("Jane Smith");
    let human = Human::builder()
        .name(name)
        .sex(Sex::Female)
        .using_template(&avg_north_american_male())
        .build();

    let display = human.display_name();
    assert!(display.contains("Jane"));
    assert!(display.contains("Smith"));
}

#[test]
fn test_human_with_vitals() {
    let vitals = VitalStatus::Alive(LiveVitals::new(BloodPressure(120, 80), Celsius(37), BPM(72), 16));

    let human = Human::builder()
        .designation("Test Subject".to_string())
        .sex(Sex::Unknown)
        .with_vitals(vitals)
        .using_template(&avg_north_american_male())
        .build();

    assert!(matches!(human.vitals, VitalStatus::Alive(_)));
}

#[test]
fn test_human_anatomy_trait() {
    let human = Human::builder()
        .designation("Test".to_string())
        .sex(Sex::Male)
        .using_template(&avg_north_american_male())
        .build();

    let anatomy = human.describe_anatomy();
    assert!(anatomy.contains("bipedal"));
    assert!(anatomy.contains("arms"));
    assert!(anatomy.contains("legs"));
}

#[test]
fn test_human_mobility_trait() {
    let human = Human::builder()
        .designation("Test".to_string())
        .sex(Sex::Male)
        .using_template(&avg_north_american_male())
        .build();

    let mobility = human.describe_locomotion();
    assert!(mobility.contains("two legs"));
}

#[test]
fn test_human_summarizable_trait() {
    let human = Human::builder()
        .name(NameParts::from_full_name("Test Person"))
        .sex(Sex::Male)
        .using_template(&avg_north_american_male())
        .build();

    let summary = human.summary();
    assert!(summary.contains("Human"));
    assert!(summary.contains("Test Person"));
    assert!(summary.contains("Anatomy:"));
    assert!(summary.contains("Mobility:"));
}

#[test]
fn test_human_builder_uses_template() {
    let human = Human::builder()
        .designation("Template Test".to_string())
        .sex(Sex::Male)
        .using_template(&avg_north_american_male())
        .build();

    assert_eq!(human.appendages.len(), 4);
}

#[test]
fn test_human_unique_identifiers() {
    let human1 = Human::builder()
        .designation("Human 1".to_string())
        .sex(Sex::Male)
        .using_template(&avg_north_american_male())
        .build();

    let human2 = Human::builder()
        .designation("Human 2".to_string())
        .sex(Sex::Female)
        .using_template(&avg_north_american_male())
        .build();

    assert_ne!(human1.id.to_text(), human2.id.to_text());
}
