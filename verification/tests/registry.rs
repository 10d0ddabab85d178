use language_tour::registry::{Registry, Routine, Section};

fn routine(section: Section, number: u8) -> Routine {
    Routine { section, number }
}

#[test]
fn a_new_registry_knows_no_topic() {
    let registry = Registry::new();
    assert!(registry.lookup("arrays").is_none());
    assert!(registry.lookup("").is_none());
}

#[test]
fn a_registered_topic_is_found_with_its_routines_in_order() {
    let mut registry = Registry::new();
    let routines = vec![
        routine(Section::Vectors, 3),
        routine(Section::Arrays, 1),
        routine(Section::Vectors, 3),
    ];
    assert!(registry.register("sample", routines.clone()).is_ok());
    assert_eq!(registry.lookup("sample"), Some(&routines));
    assert!(registry.lookup("Sample").is_none());
    assert!(registry.lookup("sample ").is_none());
}

#[test]
fn a_second_registration_of_a_topic_is_refused() {
    let mut registry = Registry::new();
    let first = vec![routine(Section::Arrays, 1)];
    let second = vec![routine(Section::Tuples, 2), routine(Section::Tuples, 3)];
    assert!(registry.register("topic", first.clone()).is_ok());
    let refusal = registry.register("topic", second).unwrap_err();
    assert_eq!(refusal.topic, "topic");
    assert_eq!(registry.lookup("topic"), Some(&first));
}

#[test]
fn the_same_routines_under_the_same_topic_are_refused_as_well() {
    let mut registry = Registry::new();
    let routines = vec![routine(Section::Arrays, 1)];
    assert!(registry.register("topic", routines.clone()).is_ok());
    assert!(registry.register("topic", routines).is_err());
}

#[test]
fn a_refusal_leaves_the_other_topics_as_they_were() {
    let mut registry = Registry::new();
    assert!(registry.register("one", vec![routine(Section::Arrays, 1)]).is_ok());
    assert!(registry.register("two", vec![routine(Section::Arrays, 2)]).is_ok());
    assert!(registry.register("one", Vec::new()).is_err());
    assert!(registry.register("three", vec![routine(Section::Arrays, 3)]).is_ok());
    assert_eq!(registry.lookup("one"), Some(&vec![routine(Section::Arrays, 1)]));
    assert_eq!(registry.lookup("two"), Some(&vec![routine(Section::Arrays, 2)]));
    assert_eq!(registry.lookup("three"), Some(&vec![routine(Section::Arrays, 3)]));
}

#[test]
fn the_empty_topic_is_a_topic_like_any_other() {
    let mut registry = Registry::new();
    assert!(registry.register("", vec![routine(Section::Enums, 1)]).is_ok());
    assert!(registry.register("", Vec::new()).is_err());
    assert_eq!(registry.lookup(""), Some(&vec![routine(Section::Enums, 1)]));
}

#[test]
fn the_standard_registry_holds_the_sixteen_topics() {
    let registry = Registry::standard();
    let topics = [
        "arrays", "variables", "tuples", "vectors", "slices", "strings", "literals", "functions",
        "control", "move", "copy", "clone", "ref", "structs", "enums", "error",
    ];
    let sections = Section::all();
    assert_eq!(sections.len(), topics.len());
    for (section, topic) in sections.iter().zip(topics) {
        assert_eq!(section.name(), topic);
        let routines = registry.lookup(topic).unwrap();
        assert_eq!(routines.len(), 10);
        for (place, routine) in routines.iter().enumerate() {
            assert_eq!(routine.section, *section);
            assert_eq!(usize::from(routine.number), place + 1);
        }
    }
    assert!(registry.lookup("bogus").is_none());
}

#[test]
fn the_standard_registry_takes_a_new_topic_and_refuses_its_own() {
    let mut registry = Registry::standard();
    assert!(registry.register("arrays", Vec::new()).is_err());
    assert!(registry.register("extra", vec![routine(Section::Arrays, 10)]).is_ok());
    assert_eq!(registry.lookup("arrays").unwrap().len(), 10);
    assert_eq!(registry.lookup("extra").unwrap().len(), 1);
}

#[test]
fn a_section_has_ten_routines_numbered_from_one() {
    let routines = Section::Slices.routines();
    let numbers: Vec<u8> = routines.iter().map(|routine| routine.number).collect();
    assert_eq!(numbers, vec![1, 2, 3, 4, 5, 6, 7, 8, 9, 10]);
    assert!(routines.iter().all(|routine| routine.section == Section::Slices));
}

#[test]
fn a_routine_writes_after_what_is_there() {
    let mut out = vec![String::from("kept")];
    let file = Ok(String::new());
    routine(Section::Structs, 5).invoke(&file, &mut out);
    assert_eq!(out, vec!["kept", "The area of the rectangle is 1500 square pixels."]);
}

#[test]
fn a_routine_with_a_number_out_of_range_does_nothing() {
    let mut out: Vec<String> = Vec::new();
    let file = Ok(String::new());
    for section in Section::all() {
        routine(section, 0).invoke(&file, &mut out);
        routine(section, 11).invoke(&file, &mut out);
    }
    assert!(out.is_empty());
}

#[test]
fn one_routine_alone_reports_on_the_file() {
    for section in Section::all() {
        for number in 0..=12 {
            let reads = routine(section, number).reads_file();
            assert_eq!(reads, section == Section::Error && number == 5);
        }
    }
}

fn entry(topic: &str, routines: Vec<Routine>) -> (String, Vec<Routine>) {
    (String::from(topic), routines)
}

#[test]
fn a_list_of_distinct_topics_builds_a_registry() {
    let registry = Registry::build(vec![
        entry("b", vec![routine(Section::Arrays, 2)]),
        entry("a", vec![routine(Section::Arrays, 1), routine(Section::Move, 3)]),
        entry("", Vec::new()),
    ])
    .unwrap();
    assert_eq!(registry.lookup("a"), Some(&vec![routine(Section::Arrays, 1), routine(Section::Move, 3)]));
    assert_eq!(registry.lookup("b"), Some(&vec![routine(Section::Arrays, 2)]));
    assert_eq!(registry.lookup(""), Some(&Vec::new()));
    assert!(registry.lookup("c").is_none());
}

#[test]
fn an_empty_list_builds_an_empty_registry() {
    let registry = Registry::build(Vec::new()).unwrap();
    assert!(registry.lookup("arrays").is_none());
}

#[test]
fn a_list_with_a_topic_twice_builds_no_registry() {
    let refusal = Registry::build(vec![
        entry("a", vec![routine(Section::Arrays, 1)]),
        entry("b", vec![routine(Section::Arrays, 2)]),
        entry("a", vec![routine(Section::Arrays, 3)]),
        entry("b", Vec::new()),
    ])
    .unwrap_err();
    assert_eq!(refusal.topic, "a");
}

#[test]
fn the_same_list_under_one_topic_twice_builds_no_registry() {
    let routines = vec![routine(Section::Vectors, 1)];
    let result = Registry::build(vec![entry("x", routines.clone()), entry("x", routines)]);
    assert_eq!(result.unwrap_err().topic, "x");
}

#[test]
fn the_standard_registry_is_what_its_sections_build() {
    let entries: Vec<(String, Vec<Routine>)> = Section::all()
        .into_iter()
        .map(|section| (String::from(section.name()), section.routines()))
        .collect();
    let built = Registry::build(entries).unwrap();
    let standard = Registry::standard();
    for section in Section::all() {
        assert_eq!(built.lookup(section.name()), standard.lookup(section.name()));
    }
}
