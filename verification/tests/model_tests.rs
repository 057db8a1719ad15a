use biology::anatomy::Appendage;
use biology::anatomy::ArmMeasurements;
use biology::anatomy::LegMeasurements;
use biology::anatomy::LimbKind;
use biology::anatomy::LimbStatus;
use biology::ecosystem::Body;
use biology::ecosystem::Climate;
use biology::ecosystem::Environment;
use biology::ecosystem::Interaction;
use biology::ecosystem::Population;
use biology::ecosystem::Terrain;
use biology::patterns::AnatomyAnalyzer;
use biology::patterns::DetailedSummary;
use biology::templates::AnatomyTemplate;
use biology::text::i64_to_text;
use biology::text::join_with_spaces;
use biology::text::u64_to_text;
use biology::vitals::BloodPressure;
use biology::vitals::Celsius;
use biology::vitals::LiveVitals;
use biology::vitals::PostMortemReport;
use biology::vitals::VitalStatus;
use biology::vitals::BPM;
use biology::Animal;
use biology::Centimeters;
use biology::Direction;
use biology::Human;
use biology::Identifier;
use biology::Moniker;
use biology::NameParts;
use biology::Nomenclature;
use biology::NomenclatureComponents;
use biology::Sex;

fn test_template() -> AnatomyTemplate {
    AnatomyTemplate {
        arm_measurements: ArmMeasurements {
            upper_length: Centimeters(40),
            triceps_length: Centimeters(27),
            span: Centimeters(182),
            flexed_bicep: Centimeters(36),
            unflexed_bicep: Centimeters(34),
        },
        leg_measurements: LegMeasurements { inseam: Centimeters(84), quad: Centimeters(60) },
    }
}

fn arm_override() -> ArmMeasurements {
    ArmMeasurements {
        upper_length: Centimeters(31),
        triceps_length: Centimeters(21),
        span: Centimeters(153),
        flexed_bicep: Centimeters(29),
        unflexed_bicep: Centimeters(27),
    }
}

fn arm_measurements_of(a: &Appendage) -> ArmMeasurements {
    match a {
        Appendage::Arm { measurements, .. } => *measurements,
        Appendage::Leg { .. } => panic!("expected an arm"),
    }
}

#[test]
fn default_build_has_four_appendages() {
    let human = Human::builder().build();
    assert_eq!(human.appendages.len(), 4);
    for a in &human.appendages {
        match a {
            Appendage::Arm { status, .. } => assert!(matches!(status, LimbStatus::Intact)),
            Appendage::Leg { status, .. } => assert!(matches!(status, LimbStatus::Intact)),
        }
    }
}

#[test]
fn designation_wins_over_name_parts() {
    let human = Human::builder()
        .name(NameParts::from_full_name("Jane Smith"))
        .designation("Subject 7".to_string())
        .build();
    assert_eq!(human.display_name(), "Subject 7");
}

#[test]
fn designation_is_verbatim() {
    let m = Moniker::Designation("  #odd  designation  ".to_string());
    assert_eq!(m.display_name(), "  #odd  designation  ");
}

#[test]
fn two_token_name_parses() {
    let parts = NameParts::from_full_name("John Hicks");
    assert_eq!(parts.first, Some("John".to_string()));
    assert_eq!(parts.last, Some("Hicks".to_string()));
    assert_eq!(parts.middle, None);
    assert_eq!(Moniker::Name(parts).display_name(), "John Hicks");
}

#[test]
fn three_token_name_parses() {
    let parts = NameParts::from_full_name("Jane Middle Smith");
    assert_eq!(parts.first, Some("Jane".to_string()));
    assert_eq!(parts.middle, Some("Middle".to_string()));
    assert_eq!(parts.last, Some("Smith".to_string()));
    assert_eq!(Moniker::Name(parts).display_name(), "Jane Middle Smith");
}

#[test]
fn four_token_name_is_unset() {
    let parts = NameParts::from_full_name("A B C D");
    assert_eq!(parts.first, None);
    assert_eq!(parts.middle, None);
    assert_eq!(parts.last, None);
    assert_eq!(Moniker::Name(parts).display_name(), "");
}

#[test]
fn one_token_and_empty_names() {
    let one = NameParts::from_full_name("Cher");
    assert_eq!(one.first, Some("Cher".to_string()));
    assert_eq!(one.last, None);

    let none = NameParts::from_full_name("");
    assert_eq!(none.first, None);

    let blank = NameParts::from_full_name("   \t ");
    assert_eq!(blank.first, None);
}

#[test]
fn extra_whitespace_is_ignored() {
    let parts = NameParts::from_full_name("  John \t  Hicks  ");
    assert_eq!(parts.first, Some("John".to_string()));
    assert_eq!(parts.last, Some("Hicks".to_string()));
}

#[test]
fn display_name_joins_all_five_parts() {
    let parts = NameParts {
        prefix: Some("Dr.".to_string()),
        first: Some("Jane".to_string()),
        middle: Some("Q".to_string()),
        last: Some("Smith".to_string()),
        suffix: Some("Jr.".to_string()),
    };
    assert_eq!(Moniker::Name(parts).display_name(), "Dr. Jane Q Smith Jr.");
}

#[test]
fn moniker_parses_full_names_directly() {
    let m = Moniker::from_full_name("John Hicks");
    assert_eq!(m.display_name(), "John Hicks");
    assert_eq!(m.first_name(), Some("John".to_string()));
    assert_eq!(m.last_name(), Some("Hicks".to_string()));
}

#[test]
fn name_parts_new_sets_three_fields() {
    let parts = NameParts::new(Some("Jane"), None, Some("Smith"));
    assert_eq!(parts.first, Some("Jane".to_string()));
    assert_eq!(parts.middle, None);
    assert_eq!(parts.last, Some("Smith".to_string()));
    assert_eq!(parts.prefix, None);
    assert_eq!(parts.suffix, None);
}

#[test]
fn name_components_pass_through() {
    let human = Human::builder().name(NameParts::from_full_name("John Hicks")).build();
    assert_eq!(human.first_name(), Some("John".to_string()));
    assert_eq!(human.last_name(), Some("Hicks".to_string()));
    assert_eq!(human.middle_name(), None);

    let designated = Human::builder().designation("Case 1".to_string()).build();
    assert_eq!(designated.first_name(), None);
}

#[test]
fn fresh_organism_limb_counts() {
    let human = Human::builder().build();
    assert_eq!(human.count_limbs(), (2, 0, 2, 0));
}

#[test]
fn amputation_changes_limb_counts() {
    let mut human = Human::builder().build();
    human.set_limb_status(Direction::Left, LimbKind::Leg, LimbStatus::Amputated);
    assert_eq!(human.count_limbs(), (2, 0, 1, 1));
}

#[test]
fn injured_and_prosthetic_count_as_attached() {
    let mut human = Human::builder().build();
    human.set_limb_status(Direction::Right, LimbKind::Arm, LimbStatus::Injured("burn".to_string()));
    human.set_limb_status(Direction::Left, LimbKind::Leg, LimbStatus::Prosthetic);
    assert_eq!(human.count_limbs(), (2, 0, 2, 0));
}

#[test]
fn set_limb_status_without_match_is_a_no_op() {
    let mut human = Human {
        id: Identifier::new(),
        name: Moniker::Designation("Empty".to_string()),
        sex: Sex::Unknown,
        appendages: vec![],
        vitals: VitalStatus::Alive(LiveVitals::default()),
    };
    human.set_limb_status(Direction::Left, LimbKind::Arm, LimbStatus::Amputated);
    assert!(human.appendages.is_empty());
}

#[test]
fn limb_status_report_exact_text() {
    let mut human = Human::builder().build();
    assert_eq!(
        human.describe_limb_status(),
        "A bipedal form with 2 attached arms and 2 attached legs."
    );
    human.set_limb_status(Direction::Left, LimbKind::Leg, LimbStatus::Amputated);
    assert_eq!(
        human.describe_limb_status(),
        "A bipedal form with 2 attached arms and 1 attached legs. It is noted that 0 arms and 1 legs are missing."
    );
}

#[test]
fn appendage_description_exact_text() {
    let human = Human::builder().build();
    assert_eq!(
        human.appendages[0].description(),
        "\t- Left Arm (Intact): Span: 175cm, Bicep (Flexed): 35cm"
    );
    assert_eq!(
        human.appendages[2].description(),
        "\t- Left Leg (Intact): Inseam: 81cm, Quad: 58cm"
    );
}

#[test]
fn get_vitals_alive_exact_text() {
    let human = Human::builder()
        .designation("Test Subject".to_string())
        .with_vitals(VitalStatus::Alive(LiveVitals::new(
            BloodPressure(120, 80),
            Celsius(37),
            BPM(72),
            16,
        )))
        .build();
    let report = human.get_vitals();
    assert_eq!(report, "Test Subject is alive. Vitals: Temp: 37, Pulse: 72, BP: 120/80");
    assert!(report.contains("is alive"));
}

#[test]
fn get_vitals_deceased_exact_text() {
    let report = PostMortemReport::new(
        "Natural causes".to_string(),
        "2024-01-01".to_string(),
        vec!["No findings".to_string()],
    );
    let human = Human::builder()
        .designation("Ada".to_string())
        .with_vitals(VitalStatus::Deceased(report))
        .build();
    let text = human.get_vitals();
    assert_eq!(text, "Ada is deceased. Cause of death: Natural causes.");
    assert!(text.contains("is deceased"));
    assert!(text.contains("Natural causes"));
}

#[test]
fn template_then_override_keeps_override() {
    let human = Human::builder()
        .using_template(&test_template())
        .with_arm_measurements(arm_override())
        .build();
    assert_eq!(arm_measurements_of(&human.appendages[0]), arm_override());
    assert_eq!(arm_measurements_of(&human.appendages[1]), arm_override());
}

#[test]
fn override_then_template_keeps_template() {
    let human = Human::builder()
        .with_arm_measurements(arm_override())
        .using_template(&test_template())
        .build();
    assert_eq!(arm_measurements_of(&human.appendages[0]), test_template().arm_measurements);
}

#[test]
fn population_counts_members_and_interactions() {
    let environment = Environment {
        climate: Climate::Desert,
        terrain: Terrain::Plains,
        altitude: Centimeters(42800),
        humidity_percent: 14,
    };
    let mut population = Population::new(environment);
    assert_eq!(population.size(), 0);

    let a = Animal::new("Oryx".to_string());
    let b = Animal::new("Jackal".to_string());
    let c = Animal::new("Viper".to_string());
    population.add_member(Body::new(&a));
    population.add_member(Body::new(&b));
    population.add_member(Body::new(&c));
    assert_eq!(population.size(), 3);

    population.add_interaction(Interaction::Predation { predator_id: 1, prey_id: 0 });
    population.add_interaction(Interaction::Competition {
        competitor1_id: 0,
        competitor2_id: 999,
        resource: "Water".to_string(),
    });
    assert_eq!(population.interactions.len(), 2);
    assert_eq!(population.size(), 3);
}

#[test]
fn body_captures_summary() {
    let animal = Animal::new("Ibex".to_string());
    let body = Body::new(&animal);
    assert!(body.summary.contains("Ibex"));
}

#[test]
fn environment_default_values() {
    let environment = Environment::default();
    assert!(matches!(environment.climate, Climate::Temperate));
    assert!(matches!(environment.terrain, Terrain::Plains));
    assert_eq!(environment.altitude, Centimeters(0));
    assert_eq!(environment.humidity_percent, 50);
}

#[test]
fn sex_labels() {
    assert_eq!(Sex::Unknown.label(), "Unknown");
    assert_eq!(Sex::Male.label(), "Male");
    assert_eq!(Sex::Female.label(), "Female");
}

#[test]
fn identifier_text_matches_uuid_form() {
    let zero = Identifier::from_bits(0);
    assert_eq!(zero.to_text(), "00000000-0000-0000-0000-000000000000");

    let known = Identifier::from_bits(0xa1a2a3a4b1b2c1c2d1d2d3d4d5d6d7d8);
    assert_eq!(known.to_text(), "a1a2a3a4-b1b2-c1c2-d1d2-d3d4d5d6d7d8");
}

#[test]
fn fresh_identifier_is_version_four() {
    let id = Identifier::new();
    assert_eq!((id.bits() >> 76) & 0xf, 4);
    assert_eq!((id.bits() >> 62) & 0x3, 2);
}

#[test]
fn decimal_rendering() {
    assert_eq!(u64_to_text(0), "0");
    assert_eq!(u64_to_text(7), "7");
    assert_eq!(u64_to_text(1234567890), "1234567890");
    assert_eq!(i64_to_text(-45), "-45");
    assert_eq!(i64_to_text(0), "0");
    assert_eq!(i64_to_text(36), "36");
}

#[test]
fn joining_with_spaces() {
    let parts = vec!["a".to_string(), "b".to_string(), "c".to_string()];
    assert_eq!(join_with_spaces(&parts), "a b c");
    let empty: Vec<String> = vec![];
    assert_eq!(join_with_spaces(&empty), "");
    let one = vec!["solo".to_string()];
    assert_eq!(join_with_spaces(&one), "solo");
}

#[test]
fn generate_summary_lists_appendages() {
    let human = Human::builder().name(NameParts::from_full_name("Test Person")).sex(Sex::Male).build();
    let summary = human.generate_summary();
    assert!(summary.starts_with(" --- Summary for: Test Person (Male) ---\nAppendages:\n"));
    assert_eq!(summary.matches("\t- ").count(), 4);
    assert!(summary.contains("Right Leg"));
}
