use language_tour::arrays;
use language_tour::control_flow;
use language_tour::enums_and_pattern_matching;
use language_tour::error_handling;
use language_tour::functions;
use language_tour::ownership_clone;
use language_tour::ownership_move;
use language_tour::ownership_reference_borrowing;
use language_tour::ownrship_copy;
use language_tour::slices;
use language_tour::strings_and_str;
use language_tour::strings_literals;
use language_tour::structs;
use language_tour::tuples;
use language_tour::variables_and_mutability;
use language_tour::vectors;

#[test]
fn arrays_writes_its_fourteen_lines() {
    let expected = vec![
        "The array is: [1, 2, 3, 4, 5]",
        "The array with explicit type and size is: [1, 2, 3, 4, 5]",
        "The array with same elements is: [3, 3, 3, 3, 3]",
        "The first element is: 1",
        "The length of the array is: 5",
        "The modified array is: [1, 2, 99, 4, 5]",
        "The number is: 1",
        "The number is: 2",
        "The number is: 3",
        "The number is: 4",
        "The number is: 5",
        "The 2D array is: [[1, 2, 3], [4, 5, 6]]",
        "The slice of the array is: [2, 3, 4]",
        "There is no element at this index.",
    ];
    assert_eq!(arrays::run_examples(), expected);
}

#[test]
fn variables_writes_its_lines() {
    let expected = vec![
        "The value of x is: 5",
        "The value of x is: 5",
        "The value of x is: 5",
        "The value of x is now: 6",
        "The maximum points are: 100000",
        "The value of x is: 5",
        "The value of x is now: 6",
        "The value of x is now: 12",
        "The number of spaces is: 3",
        "x is: -123",
        "x is: 2, y is: 3",
        "t is: true, f is: false",
        "c is: z, z is: \u{2124}, heart_eyed_cat is: \u{1f63b}",
    ];
    assert_eq!(variables_and_mutability::run_examples(), expected);
}

#[test]
fn tuples_writes_its_lines() {
    let expected = vec![
        "The tuple is: (500, 6.4, 1)",
        "The value of y is: 2",
        "The first value is: 10, and the second value is: 20",
        "The value of x is: 500",
        "The inner value is: 3",
        "The single-element tuple is: (42,)",
        "The values are: hello, 5, c",
        "The sum of the elements is: 55",
        "The unit type is represented by an empty tuple: ()",
    ];
    assert_eq!(tuples::run_examples(), expected);
}

#[test]
fn vectors_writes_its_lines() {
    let expected = vec![
        "A new vector: []",
        "A vector created using the vec! macro: [1, 2, 3, 4, 5]",
        "Vector after pushing elements: [5, 6, 7, 8]",
        "The third element is 3",
        "The third element is 3",
        "The last element is 5",
        "Vector after popping an element: [1, 2, 3, 4]",
        "Vector after modifying an element: [1, 2, 3, 4, 5]",
        "A reference to a",
        "A reference to b",
        "A reference to c",
        "Vector after modifying each element: [150, 82, 107]",
        "A 2D vector: [[1, 2, 3], [4, 5, 6], [7, 8, 9]]",
    ];
    assert_eq!(vectors::run_examples(), expected);
}

#[test]
fn slices_writes_its_lines() {
    let expected = vec![
        "Slice of arr: [2, 3, 4]",
        "Slice of vec: [2, 3, 4]",
        "Slice of string: Hello",
        "Another slice of string: world",
        "Full slice of arr: [1, 2, 3, 4, 5]",
        "First word: Hello,",
        "Value: 20",
        "Value: 30",
        "Value: 40",
        "Partial slice of vec: [100, 32]",
        "Slice from the middle of a string: of a string",
        "Modified array through slice: [1, 10, 3, 4, 5]",
    ];
    assert_eq!(slices::run_examples(), expected);
}

#[test]
fn strings_writes_its_lines() {
    let expected = vec![
        "String: Hello, world!",
        "Mutable String: Hello, world!",
        "Concatenated String: Hello, world!",
        "Formatted String: tic-tac-toe",
        "Slice of String: he",
        "String slice: Hello, world!",
        "Build a String: Hello",
        "Words from String: [\"hello\", \"world\"]",
        "&str to String: hello",
        "String to &str: hello",
    ];
    assert_eq!(strings_and_str::run_examples(), expected);
}

#[test]
fn literals_writes_its_entries() {
    let expected = vec![
        "String literal: Hello, world!",
        "String literal with length 43: The quick brown fox jumps over the lazy dog",
        "This is a\nmultiline string literal\nthat spans several lines.",
        "This string contains\na newline and a tab\t.",
        "This is a raw string literal, where \\n and \\t are not interpreted.",
        "She said, \"Hello, world!\"",
        "\nThis is a raw string literal with \"##\" delimiters,\nallowing for \" and # characters without escapes.\n",
        "Hello,world!",
        "I am a constant string literal.",
        "String literal with emoji: \u{11f}\u{178}\u{2dc}\u{160}",
    ];
    assert_eq!(strings_literals::run_examples(), expected);
}

#[test]
fn functions_writes_its_lines() {
    let expected = vec![
        "Sum of 5 and 3 is: 8",
        "4 squared is: 16",
        "Function that returns unit: ()",
        "4 is even",
        "Factorial of 5 is: 120",
        "This is a closure without parameters.",
        "5 plus 1 is: 6",
        "10 plus 5 is: 15",
        "Result of applying function: 10",
        "Even numbers from the list: [2, 4]",
    ];
    assert_eq!(functions::run_examples(), expected);
}

#[test]
fn control_writes_its_lines() {
    let expected = vec![
        "condition was false",
        "The value of number is: 5",
        "The result is 20",
        "3!",
        "2!",
        "1!",
        "LIFTOFF!!!",
        "the value is: 10",
        "the value is: 20",
        "the value is: 30",
        "the value is: 40",
        "the value is: 50",
        "3!",
        "2!",
        "1!",
        "LIFTOFF!!!",
        "count = 0",
        "remaining = 10",
        "remaining = 9",
        "count = 1",
        "remaining = 10",
        "remaining = 9",
        "count = 2",
        "remaining = 10",
        "End count = 2",
        "It's something else!",
        "not three",
        "one or two",
    ];
    assert_eq!(control_flow::run_examples(), expected);
}

#[test]
fn move_writes_its_lines() {
    let expected = vec![
        "y: hello",
        "x: 5, y: 5",
        "some_string: hello",
        "s1: yours",
        "s3: hello",
        "v2: [1, 2, 3]",
        "person2: name = Alice, age = 30",
        "slice: [2, 3]",
        "Function owns the string: Bob",
        "RGB Color - Red: 0, Green: 127, Blue: 255",
        "Presenting book: The Rust Programming Language by Steve Klabnik and Carol Nichols",
    ];
    assert_eq!(ownership_move::run_examples(), expected);
}

#[test]
fn copy_writes_its_lines() {
    let expected = vec![
        "x: 5, y: 5",
        "x: (5, 4.3), y: (5, 4.3)",
        "x: true, y: true",
        "x: A, y: A",
        "x: 2.71828, y: 2.71828",
        "arr1: [1, 2, 3], arr2: [1, 2, 3]",
        "s: Hello, world!, t: Hello, world!",
        "num: Some(5), num_copy: Some(5)",
        "In takes_copy: x = 10",
        "After takes_copy: x = 10",
        "flag: false, flag_copy: false",
    ];
    assert_eq!(ownrship_copy::run_examples(), expected);
}

#[test]
fn clone_writes_its_lines() {
    let expected = vec![
        "Original: hello, Clone: hello",
        "Original: [1, 2, 3, 4, 5], Clone: [1, 2, 3, 4, 5]",
        "Original: [1, 1, 1, 1, 1, 1, 1, 1, 1, 1], Clone: [1, 1, 1, 1, 1, 1, 1, 1, 1, 1]",
        "Original: Person { name: \"Alice\", age: 30 }, Clone: Person { name: \"Alice\", age: 30 }",
        "Original: (\"Hello\", 42), Clone: (\"Hello\", 42)",
        "Original: {1: \"One\", 2: \"Two\", 3: \"Three\"}, Clone: {1: \"One\", 2: \"Two\", 3: \"Three\"}",
        "Original: 5, Clone: 6",
        "Original: 10, Clone: 10",
        "Original Rc count: 2, Clone Rc count: 2",
        "Original: ComplexStruct { data: [1, 2, 3], name: \"ComplexStruct\" }, Clone: ComplexStruct { data: [1, 2, 3], name: \"ComplexStruct\" }",
    ];
    assert_eq!(ownership_clone::run_examples(), expected);
}

#[test]
fn ref_writes_its_lines() {
    let expected = vec![
        "The length of 'hello' is 5.",
        "Changed string: hello, world",
        "hello and hello",
        "hello and hello",
        "hello",
        "The first word is: 'hello,'",
        "hello and hello",
        "hello",
        "Cleared string: ''",
        "Count: 1",
        "Sliced: 'hello' and 'world'",
    ];
    assert_eq!(ownership_reference_borrowing::run_examples(), expected);
}

#[test]
fn structs_writes_its_lines() {
    let expected = vec![
        "User: someusername123 | Email: someone@example.com",
        "Black: (0, 0, 0)",
        "Background color RGB: 255, 255, 255",
        "Screen has 3 components.",
        "The area of the rectangle is 1500 square pixels.",
        "Can rect1 hold rect2? true",
        "User2 Email: another@example.com, Username: someusername123, Sign in count: 1, Active: true",
        "Unit struct instantiated.",
        "Message: Hello, Rust!",
        "Square: Rectangle { width: 3, height: 3 }, Area: 9",
    ];
    assert_eq!(structs::run_examples(), expected);
}

#[test]
fn enums_writes_its_lines() {
    let expected = vec![
        "Going up!",
        "Text message: hello",
        "The number is: 5",
        "No number",
        "Success with value: 10",
        "Error: An error occurred",
        "Start driving",
        "Turn left",
        "Stop driving",
        "Matched, x = 3",
        "Even number: 2",
        "State quarter from Alaska!",
        "Found a robot named Bender",
        "Found a robot named Bender",
    ];
    assert_eq!(enums_and_pattern_matching::run_examples(), expected);
}

fn error_lines(fifth: &str) -> Vec<String> {
    let lines = vec![
        "Code: 200",
        "Error: Error occurred",
        "Some option: 5",
        "Absent option: 0",
        "Quotient: 5",
        fifth,
        "Error: An error occurred",
        "Value squared: 100",
        "Value at index 2: 3",
        "Long fruit: banana",
        "Long fruit: cherry",
        "Access granted.",
    ];
    lines.into_iter().map(String::from).collect()
}

#[test]
fn error_reports_a_file_that_is_missing() {
    let file = Err(String::from("No such file or directory (os error 2)"));
    assert_eq!(
        error_handling::run_examples(&file),
        error_lines("Error reading file: No such file or directory (os error 2)")
    );
}

#[test]
fn error_reports_a_file_that_was_read() {
    let file = Ok(String::from("forty-two"));
    assert_eq!(error_handling::run_examples(&file), error_lines("File content: forty-two"));
}

#[test]
fn error_writes_an_empty_file_after_the_label() {
    let file = Ok(String::new());
    assert_eq!(error_handling::run_examples(&file), error_lines("File content: "));
}

#[test]
fn one_demonstration_writes_after_what_is_there() {
    let mut out = vec![String::from("before")];
    vectors::run_example(6, &mut out);
    assert_eq!(
        out,
        vec!["before", "The last element is 5", "Vector after popping an element: [1, 2, 3, 4]"]
    );
}

#[test]
fn a_number_without_a_demonstration_writes_nothing() {
    let mut out: Vec<String> = Vec::new();
    arrays::run_example(0, &mut out);
    arrays::run_example(11, &mut out);
    arrays::run_example(255, &mut out);
    error_handling::run_example(0, &Ok(String::from("x")), &mut out);
    assert!(out.is_empty());
}

#[test]
fn two_demonstrations_write_nothing_at_all() {
    let mut out: Vec<String> = Vec::new();
    tuples::run_example(4, &mut out);
    enums_and_pattern_matching::run_example(9, &mut out);
    assert!(out.is_empty());
}

#[test]
fn the_ten_in_turn_write_what_the_section_writes() {
    let mut out: Vec<String> = Vec::new();
    for number in 1..=10 {
        control_flow::run_example(number, &mut out);
    }
    assert_eq!(out, control_flow::run_examples());
}
