use std::collections::BTreeMap;

use language_tour::enums_and_pattern_matching::UsState;
use language_tour::error_handling::{check_password, divide, report_file, some_computation, FILE_PATH};
use language_tour::functions;
use language_tour::ownership_clone::{
    entries_of, push_map, ComplexStruct, CustomCloneable, Person, SharedText,
};
use language_tour::ownership_move::{
    gives_ownership, move_to_function, present_book, takes_and_gives_back, takes_ownership, Book,
};
use language_tour::ownership_reference_borrowing::{
    calculate_length, change, clear_string, first_word,
};
use language_tour::ownrship_copy::{clone_flag, takes_copy};
use language_tour::slices;
use language_tour::structs::{Rectangle, TextMessage};

#[test]
fn add_and_square_compute_sum_and_product() {
    assert_eq!(functions::add(5, 3), 8);
    assert_eq!(functions::add(-7, 7), 0);
    assert_eq!(functions::add(i32::MAX, -1), 2_147_483_646);
    assert_eq!(functions::square(4), 16);
    assert_eq!(functions::square(-4), 16);
    assert_eq!(functions::square(0), 0);
    assert_eq!(functions::square(46_340), 2_147_395_600);
}

#[test]
fn is_even_holds_of_the_multiples_of_two() {
    assert!(functions::is_even(4));
    assert!(functions::is_even(0));
    assert!(functions::is_even(-2));
    assert!(!functions::is_even(7));
    assert!(!functions::is_even(-7));
    assert!(functions::is_even(i32::MIN));
    assert!(!functions::is_even(i32::MAX));
}

#[test]
fn factorial_is_the_product_up_to_the_number() {
    assert_eq!(functions::factorial(0), 1);
    assert_eq!(functions::factorial(1), 1);
    assert_eq!(functions::factorial(5), 120);
    assert_eq!(functions::factorial(10), 3_628_800);
    assert_eq!(functions::factorial(20), 2_432_902_008_176_640_000);
}

#[test]
fn no_value_returns_the_unit() {
    assert_eq!(functions::no_value(), ());
}

#[test]
fn apply_function_writes_what_the_function_gives() {
    let mut out: Vec<String> = Vec::new();
    functions::apply_function(5, |x| 2 * x, &mut out);
    functions::apply_function(-4, |x| x - 1, &mut out);
    assert_eq!(out, vec!["Result of applying function: 10", "Result of applying function: -5"]);
}

#[test]
fn even_numbers_keeps_the_even_ones_in_order() {
    assert_eq!(functions::even_numbers(&vec![1, 2, 3, 4, 5]), vec![2, 4]);
    assert_eq!(functions::even_numbers(&vec![4, 4, -2, 0, 7]), vec![4, 4, -2, 0]);
    assert!(functions::even_numbers(&vec![1, 3, -5]).is_empty());
    assert!(functions::even_numbers(&Vec::new()).is_empty());
}

#[test]
fn first_word_ends_before_the_first_space() {
    assert_eq!(slices::first_word("Hello, world!"), "Hello,");
    assert_eq!(slices::first_word("hello"), "hello");
    assert_eq!(slices::first_word(""), "");
    assert_eq!(slices::first_word(" leading"), "");
    assert_eq!(slices::first_word("two  spaces"), "two");
    assert_eq!(slices::first_word("tab\tis no space"), "tab\tis");
    assert_eq!(slices::first_word("\u{2124}\u{1f63b} z"), "\u{2124}\u{1f63b}");
    assert_eq!(first_word(&String::from("hello, world")), "hello,");
    assert_eq!(first_word(&String::from("word")), "word");
}

#[test]
fn divide_refuses_a_zero_denominator() {
    assert_eq!(divide(10, 0), Err("Cannot divide by zero."));
    assert_eq!(divide(0, 0), Err("Cannot divide by zero."));
}

#[test]
fn divide_rounds_towards_zero() {
    assert_eq!(divide(10, 2), Ok(5));
    assert_eq!(divide(7, 2), Ok(3));
    assert_eq!(divide(-7, 2), Ok(-3));
    assert_eq!(divide(7, -2), Ok(-3));
    assert_eq!(divide(-7, -2), Ok(3));
    assert_eq!(divide(0, 5), Ok(0));
    assert_eq!(divide(1, i32::MIN), Ok(0));
    assert_eq!(divide(i32::MIN, -1), Ok(2_147_483_648));
    assert_eq!(divide(i32::MIN, 1), Ok(-2_147_483_648));
}

#[test]
fn some_computation_fails() {
    assert_eq!(some_computation(), Err("An error occurred"));
}

#[test]
fn check_password_wants_eight_bytes() {
    assert_eq!(check_password("supersecret"), Ok(()));
    assert_eq!(check_password("12345678"), Ok(()));
    assert_eq!(check_password("1234567"), Err("Password too short!"));
    assert_eq!(check_password(""), Err("Password too short!"));
    assert_eq!(check_password("\u{1f63b}\u{1f63b}"), Ok(()));
    assert_eq!(check_password("\u{2124}\u{2124}"), Err("Password too short!"));
}

#[test]
fn report_file_writes_contents_or_failure() {
    let mut out: Vec<String> = Vec::new();
    report_file(&Ok(String::from("a\nb")), &mut out);
    report_file(&Err(String::from("permission denied")), &mut out);
    assert_eq!(out, vec!["File content: a\nb", "Error reading file: permission denied"]);
    assert_eq!(FILE_PATH, "non_existent_file.txt");
}

#[test]
fn a_custom_clone_counts_one_further() {
    let custom = CustomCloneable::new(5);
    let next = custom.clone();
    assert_eq!(custom.value, 5);
    assert_eq!(next.value, 6);
    assert_eq!(CustomCloneable::new(-1).clone().value, 0);
    assert_eq!(next.clone().clone().value, 8);
}

#[test]
fn a_shared_text_counts_its_holders() {
    let mut shared = SharedText::new(String::from("Rust"));
    assert_eq!(shared.strong_count(), 1);
    shared.share();
    assert_eq!(shared.strong_count(), 2);
    shared.share();
    assert_eq!(shared.strong_count(), 3);
}

#[test]
fn a_person_and_its_clone_are_written_alike() {
    let person = Person { name: String::from("Bob"), age: -3 };
    let copy = person.clone();
    assert_eq!(copy.name, "Bob");
    assert_eq!(copy.age, -3);
    let mut s = String::new();
    copy.push_shown(&mut s);
    assert_eq!(s, "Person { name: \"Bob\", age: -3 }");
    assert_eq!(s, format!("{:?}", person));
}

#[test]
fn a_complex_struct_and_its_clone_are_written_alike() {
    let complex = ComplexStruct { data: vec![7, -8], name: String::from("pair") };
    let copy = complex.clone();
    assert_eq!(copy.data, vec![7, -8]);
    assert_eq!(copy.name, "pair");
    let mut s = String::new();
    copy.push_shown(&mut s);
    assert_eq!(s, "ComplexStruct { data: [7, -8], name: \"pair\" }");
    assert_eq!(s, format!("{:?}", complex));
}

#[test]
fn a_map_is_listed_by_rising_key_however_it_was_filled() {
    let mut map: BTreeMap<i32, &'static str> = BTreeMap::new();
    map.insert(3, "Three");
    map.insert(-1, "Minus one");
    map.insert(2, "Two");
    map.insert(3, "Three again");
    let entries = entries_of(&map);
    assert_eq!(
        entries,
        vec![
            (-1, String::from("Minus one")),
            (2, String::from("Two")),
            (3, String::from("Three again")),
        ]
    );
    let mut s = String::new();
    push_map(&mut s, &entries);
    assert_eq!(s, "{-1: \"Minus one\", 2: \"Two\", 3: \"Three again\"}");
    assert_eq!(s, format!("{:?}", map));
}

#[test]
fn an_empty_map_is_a_pair_of_braces() {
    let map: BTreeMap<i32, &'static str> = BTreeMap::new();
    let entries = entries_of(&map);
    assert!(entries.is_empty());
    let mut s = String::from("map: ");
    push_map(&mut s, &entries);
    assert_eq!(s, "map: {}");
}

#[test]
fn texts_move_in_and_out_of_functions_unchanged() {
    assert_eq!(gives_ownership(), "yours");
    assert_eq!(takes_and_gives_back(String::from("mine")), "mine");
    let mut out: Vec<String> = Vec::new();
    takes_ownership(String::from("hello"), &mut out);
    let back = move_to_function(String::from("Bob"), &mut out);
    assert_eq!(back, "Bob");
    assert_eq!(out, vec!["some_string: hello", "Function owns the string: Bob"]);
}

#[test]
fn a_book_is_presented_with_title_and_authors() {
    let book = Book::new("Title", "Someone");
    assert_eq!(book.title, "Title");
    assert_eq!(book.authors, "Someone");
    let mut out: Vec<String> = Vec::new();
    present_book(book, &mut out);
    assert_eq!(out, vec!["Presenting book: Title by Someone"]);
}

#[test]
fn borrowed_texts_are_measured_changed_and_cleared() {
    let mut s = String::from("hello");
    assert_eq!(calculate_length(&s), 5);
    assert_eq!(calculate_length(&String::from("\u{2124}")), 3);
    assert_eq!(calculate_length(&String::new()), 0);
    change(&mut s);
    assert_eq!(s, "hello, world");
    change(&mut s);
    assert_eq!(s, "hello, world, world");
    clear_string(&mut s);
    assert_eq!(s, "");
    clear_string(&mut s);
    assert!(s.is_empty());
}

#[test]
fn copies_leave_the_value_with_the_caller() {
    assert!(clone_flag(true));
    assert!(!clone_flag(false));
    let mut out: Vec<String> = Vec::new();
    takes_copy(-10, &mut out);
    assert_eq!(out, vec!["In takes_copy: x = -10"]);
}

#[test]
fn rectangles_have_area_and_hold_smaller_ones() {
    let large = Rectangle { width: 30, height: 50 };
    let small = Rectangle { width: 10, height: 40 };
    let wide = Rectangle { width: 40, height: 10 };
    assert_eq!(large.area(), 1500);
    assert!(large.can_hold(&small));
    assert!(!small.can_hold(&large));
    assert!(!large.can_hold(&wide));
    assert!(!large.can_hold(&large));
    let square = Rectangle::square(3);
    assert_eq!((square.width, square.height, square.area()), (3, 3, 9));
    assert_eq!(Rectangle::square(65_535).area(), 4_294_836_225);
    let mut s = String::new();
    square.push_shown(&mut s);
    assert_eq!(s, format!("{:?}", square));
}

#[test]
fn a_text_message_writes_its_content() {
    let message = TextMessage::new("Hello, Rust!");
    assert_eq!(message.content, "Hello, Rust!");
    let mut out: Vec<String> = Vec::new();
    message.print(&mut out);
    message.print(&mut out);
    assert_eq!(out, vec!["Message: Hello, Rust!", "Message: Hello, Rust!"]);
}

#[test]
fn states_are_written_by_name() {
    assert_eq!(UsState::Alabama.name_text(), "Alabama");
    assert_eq!(UsState::Alaska.name_text(), "Alaska");
    assert_eq!(UsState::Alaska.name_text(), format!("{:?}", UsState::Alaska));
}
