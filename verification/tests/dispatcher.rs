use language_tour::arrays;
use language_tour::dispatcher::{run_batch, Dispatcher, UNRECOGNIZED, USAGE};
use language_tour::error_handling;
use language_tour::ownership_clone;
use language_tour::registry::{Registry, Routine, Section};
use language_tour::vectors;

fn args(words: &[&str]) -> Vec<String> {
    words.iter().map(|word| String::from(*word)).collect()
}

fn missing() -> Result<String, String> {
    Err(String::from("No such file or directory (os error 2)"))
}

#[test]
fn arrays_topic_starts_with_the_array() {
    let written = Dispatcher::new().run(&args(&["tour", "arrays"]), &missing());
    assert_eq!(written[0], "The array is: [1, 2, 3, 4, 5]");
}

#[test]
fn bogus_topic_gets_the_complaint_and_nothing_else() {
    let written = Dispatcher::new().run(&args(&["tour", "bogus"]), &missing());
    assert_eq!(written, vec!["Section not recognized. Please specify a valid section."]);
}

#[test]
fn no_argument_gets_the_hint_and_nothing_else() {
    let written = Dispatcher::new().run(&args(&["tour"]), &missing());
    assert_eq!(
        written,
        vec!["Please specify a section to run. For example: `cargo run variables`"]
    );
}

#[test]
fn no_program_name_gets_the_hint_too() {
    let written = Dispatcher::new().run(&args(&[]), &missing());
    assert_eq!(written, vec![USAGE]);
}

#[test]
fn vectors_topic_shows_the_new_vector_before_any_push() {
    let written = Dispatcher::new().run(&args(&["tour", "vectors"]), &missing());
    let new_vector = written.iter().position(|line| line == "A new vector: []").unwrap();
    let first_push = written.iter().position(|line| line.contains("push")).unwrap();
    assert!(new_vector < first_push);
}

#[test]
fn every_topic_runs_the_ten_of_its_section() {
    let dispatcher = Dispatcher::new();
    let file = missing();
    let run = |topic: &str| dispatcher.run(&args(&["tour", topic]), &file);
    assert_eq!(run("arrays"), arrays::run_examples());
    assert_eq!(run("variables"), language_tour::variables_and_mutability::run_examples());
    assert_eq!(run("tuples"), language_tour::tuples::run_examples());
    assert_eq!(run("vectors"), vectors::run_examples());
    assert_eq!(run("slices"), language_tour::slices::run_examples());
    assert_eq!(run("strings"), language_tour::strings_and_str::run_examples());
    assert_eq!(run("literals"), language_tour::strings_literals::run_examples());
    assert_eq!(run("functions"), language_tour::functions::run_examples());
    assert_eq!(run("control"), language_tour::control_flow::run_examples());
    assert_eq!(run("move"), language_tour::ownership_move::run_examples());
    assert_eq!(run("copy"), language_tour::ownrship_copy::run_examples());
    assert_eq!(run("clone"), ownership_clone::run_examples());
    assert_eq!(run("ref"), language_tour::ownership_reference_borrowing::run_examples());
    assert_eq!(run("structs"), language_tour::structs::run_examples());
    assert_eq!(run("enums"), language_tour::enums_and_pattern_matching::run_examples());
    assert_eq!(run("error"), error_handling::run_examples(&file));
}

#[test]
fn the_same_topic_twice_writes_the_same_twice() {
    let dispatcher = Dispatcher::new();
    let file = missing();
    for section in Section::all() {
        let argv = args(&["tour", section.name()]);
        let first = dispatcher.run(&argv, &file);
        let second = dispatcher.run(&argv, &file);
        assert_eq!(first, second);
        assert!(!first.is_empty());
    }
}

#[test]
fn topics_are_told_apart_by_case_and_by_every_character() {
    let dispatcher = Dispatcher::new();
    for topic in ["Arrays", "ARRAYS", "array", "arrays ", " arrays", "", "arrays\n", "errors"] {
        let written = dispatcher.run(&args(&["tour", topic]), &missing());
        assert_eq!(written, vec![UNRECOGNIZED], "topic {:?}", topic);
    }
}

#[test]
fn arguments_after_the_topic_are_ignored() {
    let dispatcher = Dispatcher::new();
    let alone = dispatcher.run(&args(&["tour", "tuples"]), &missing());
    let followed = dispatcher.run(&args(&["tour", "tuples", "vectors", "--quiet"]), &missing());
    assert_eq!(alone, followed);
    let unknown = dispatcher.run(&args(&["tour", "bogus", "arrays"]), &missing());
    assert_eq!(unknown, vec![UNRECOGNIZED]);
}

#[test]
fn the_program_name_is_no_topic() {
    let written = Dispatcher::new().run(&args(&["arrays"]), &missing());
    assert_eq!(written, vec![USAGE]);
}

#[test]
fn only_the_error_topic_wants_the_file() {
    let dispatcher = Dispatcher::new();
    for section in Section::all() {
        let wanted = dispatcher.reads_file(&args(&["tour", section.name()]));
        assert_eq!(wanted, section == Section::Error);
    }
    assert!(!dispatcher.reads_file(&args(&["tour"])));
    assert!(!dispatcher.reads_file(&args(&["tour", "bogus"])));
    assert!(dispatcher.reads_file(&args(&["tour", "error", "more"])));
}

#[test]
fn the_file_changes_the_error_topic_and_no_other() {
    let dispatcher = Dispatcher::new();
    let there = Ok(String::from("contents"));
    let argv = args(&["tour", "error"]);
    let with_file = dispatcher.run(&argv, &there);
    let without = dispatcher.run(&argv, &missing());
    assert_eq!(with_file[5], "File content: contents");
    assert_eq!(without[5], "Error reading file: No such file or directory (os error 2)");
    assert_eq!(with_file[..5], without[..5]);
    assert_eq!(with_file[6..], without[6..]);
    let argv = args(&["tour", "clone"]);
    assert_eq!(dispatcher.run(&argv, &there), dispatcher.run(&argv, &missing()));
}

#[test]
fn a_batch_runs_in_the_order_given() {
    let batch = vec![
        Routine { section: Section::Functions, number: 5 },
        Routine { section: Section::Arrays, number: 4 },
        Routine { section: Section::Functions, number: 5 },
        Routine { section: Section::Tuples, number: 4 },
        Routine { section: Section::Control, number: 4 },
    ];
    let mut out = vec![String::from("start")];
    run_batch(&batch, &missing(), &mut out);
    assert_eq!(
        out,
        vec![
            "start",
            "Factorial of 5 is: 120",
            "The first element is: 1",
            "Factorial of 5 is: 120",
            "3!",
            "2!",
            "1!",
            "LIFTOFF!!!",
        ]
    );
}

#[test]
fn an_empty_batch_writes_nothing() {
    let mut out: Vec<String> = Vec::new();
    run_batch(&Vec::new(), &missing(), &mut out);
    assert!(out.is_empty());
}

#[test]
fn a_dispatcher_serves_the_registry_it_was_given() {
    let mut registry = Registry::new();
    let mixed = vec![
        Routine { section: Section::Error, number: 5 },
        Routine { section: Section::Enums, number: 1 },
    ];
    assert!(registry.register("mixed", mixed).is_ok());
    assert!(registry.register("nothing", Vec::new()).is_ok());
    let dispatcher = Dispatcher::with_registry(registry);
    let file = Ok(String::from("abc"));
    assert_eq!(
        dispatcher.run(&args(&["tour", "mixed"]), &file),
        vec!["File content: abc", "Going up!"]
    );
    assert!(dispatcher.run(&args(&["tour", "nothing"]), &file).is_empty());
    assert_eq!(dispatcher.run(&args(&["tour", "arrays"]), &file), vec![UNRECOGNIZED]);
    assert!(dispatcher.reads_file(&args(&["tour", "mixed"])));
    assert!(!dispatcher.reads_file(&args(&["tour", "nothing"])));
}
