//! Moves: a value has one owner, and handing it on gives up the use of it.
use vstd::prelude::*;
use vstd::string::*;
use crate::text::{decimal, emit, joined, push_integer, push_numbers};

verus! {

/// What the demonstration with the given number writes.
pub open spec fn lines(number: int) -> Seq<Seq<char>> {
    if number == 1 {
        seq!["y: hello"@]
    } else if number == 2 {
        seq!["x: 5, y: 5"@]
    } else if number == 3 {
        seq!["some_string: hello"@]
    } else if number == 4 {
        seq!["s1: yours"@, "s3: hello"@]
    } else if number == 5 {
        seq!["v2: [1, 2, 3]"@]
    } else if number == 6 {
        seq!["person2: name = Alice, age = 30"@]
    } else if number == 7 {
        seq!["slice: [2, 3]"@]
    } else if number == 8 {
        seq!["Function owns the string: Bob"@]
    } else if number == 9 {
        seq!["RGB Color - Red: 0, Green: 127, Blue: 255"@]
    } else if number == 10 {
        seq![
            "Presenting book: The Rust Programming Language by Steve Klabnik and Carol Nichols"@,
        ]
    } else {
        Seq::empty()
    }
}

/// What the ten demonstrations write, one after the other.
pub open spec fn output() -> Seq<Seq<char>> {
    lines(1) + lines(2) + lines(3) + lines(4) + lines(5) + lines(6) + lines(7) + lines(8) + lines(9)
        + lines(10)
}

/// A person, with a name that is owned.
pub struct Person {
    pub name: String,
    pub age: i32,
}

/// A colour, in one of two systems.
pub enum Color {
    Rgb(i32, i32, i32),
    Hsv(i32, i32, i32),
}

/// A book, which owns its title and the names of its authors.
pub struct Book {
    pub title: String,
    pub authors: String,
}

impl Book {
    /// A book with copies of the two texts.
    pub fn new(title: &str, authors: &str) -> (book: Book)
        ensures
            book.title@ == title@,
            book.authors@ == authors@,
    {
        Book { title: title.to_string(), authors: authors.to_string() }
    }
}

/// Takes the text for good, and writes it.
pub fn takes_ownership(some_string: String, out: &mut Vec<String>)
    ensures
        final(out).deep_view() == old(out).deep_view() + seq!["some_string: "@ + some_string@],
{
    let mut line = String::from_str("some_string: ");
    line.append(some_string.as_str());
    emit(out, line);
}

/// Makes a text and hands it to the caller.
pub fn gives_ownership() -> (made: String)
    ensures
        made@ == "yours"@,
{
    String::from_str("yours")
}

/// Takes a text and hands the same text back.
pub fn takes_and_gives_back(a_string: String) -> (same: String)
    ensures
        same == a_string,
{
    a_string
}

/// Takes a text, writes it and hands it back.
pub fn move_to_function(s: String, out: &mut Vec<String>) -> (same: String)
    ensures
        same == s,
        final(out).deep_view() == old(out).deep_view() + seq!["Function owns the string: "@ + s@],
{
    let mut line = String::from_str("Function owns the string: ");
    line.append(s.as_str());
    emit(out, line);
    s
}

/// Takes a book for good, and writes its title and authors.
pub fn present_book(book: Book, out: &mut Vec<String>)
    ensures
        final(out).deep_view() == old(out).deep_view() + seq![
            "Presenting book: "@ + book.title@ + " by "@ + book.authors@,
        ],
{
    let mut line = String::from_str("Presenting book: ");
    line.append(book.title.as_str());
    line.append(" by ");
    line.append(book.authors.as_str());
    emit(out, line);
}

/// A text moves to a second binding; only that one is written.
fn example1(out: &mut Vec<String>)
    ensures
        final(out).deep_view() == old(out).deep_view() + lines(1),
{
    let x: String = String::from_str("hello");
    let y: String = x;
    let mut line = String::from_str("y: ");
    line.append(y.as_str());
    proof {
        reveal_strlit("hello");
        reveal_strlit("y: ");
        reveal_strlit("y: hello");
        assert(line@ =~= "y: hello"@);
    }
    emit(out, line);
}

/// A number is copied, not moved: both bindings are written.
fn example2(out: &mut Vec<String>)
    ensures
        final(out).deep_view() == old(out).deep_view() + lines(2),
{
    let x: i32 = 5;
    let y: i32 = x;
    let mut line = String::from_str("x: ");
    push_integer(&mut line, x as i64);
    line.append(", y: ");
    push_integer(&mut line, y as i64);
    proof {
        reveal_strlit("x: ");
        reveal_strlit(", y: ");
        reveal_strlit("x: 5, y: 5");
        assert(line@ =~= "x: 5, y: 5"@);
    }
    emit(out, line);
}

/// A text moves into a function.
fn example3(out: &mut Vec<String>)
    ensures
        final(out).deep_view() == old(out).deep_view() + lines(3),
{
    let s: String = String::from_str("hello");
    takes_ownership(s, out);
    proof {
        reveal_strlit("hello");
        reveal_strlit("some_string: ");
        reveal_strlit("some_string: hello");
        assert("some_string: "@ + "hello"@ =~= "some_string: hello"@);
    }
}

/// A text moves out of a function, and another in and out again.
fn example4(out: &mut Vec<String>)
    ensures
        final(out).deep_view() == old(out).deep_view() + lines(4),
{
    let s1: String = gives_ownership();
    let mut line = String::from_str("s1: ");
    line.append(s1.as_str());
    proof {
        reveal_strlit("yours");
        reveal_strlit("s1: ");
        reveal_strlit("s1: yours");
        assert(line@ =~= "s1: yours"@);
    }
    emit(out, line);
    let s2: String = String::from_str("hello");
    let s3: String = takes_and_gives_back(s2);
    let mut line = String::from_str("s3: ");
    line.append(s3.as_str());
    proof {
        reveal_strlit("hello");
        reveal_strlit("s3: ");
        reveal_strlit("s3: hello");
        assert(line@ =~= "s3: hello"@);
    }
    emit(out, line);
    assert(out.deep_view() =~= old(out).deep_view() + lines(4));
}

/// A vector moves to a second binding.
fn example5(out: &mut Vec<String>)
    ensures
        final(out).deep_view() == old(out).deep_view() + lines(5),
{
    let v1: Vec<i32> = vec![1, 2, 3];
    let v2: Vec<i32> = v1;
    let mut line = String::from_str("v2: ");
    push_numbers(&mut line, v2.as_slice());
    proof {
        reveal_strlit("v2: ");
        reveal_strlit("v2: [1, 2, 3]");
        reveal_with_fuel(joined, 4);
        assert(line@ =~= "v2: [1, 2, 3]"@);
    }
    emit(out, line);
}

/// A struct moves to a second binding.
fn example6(out: &mut Vec<String>)
    ensures
        final(out).deep_view() == old(out).deep_view() + lines(6),
{
    let person = Person { name: String::from_str("Alice"), age: 30 };
    let person2: Person = person;
    let mut line = String::from_str("person2: name = ");
    line.append(person2.name.as_str());
    line.append(", age = ");
    push_integer(&mut line, person2.age as i64);
    proof {
        reveal_strlit("Alice");
        reveal_strlit("person2: name = ");
        reveal_strlit(", age = ");
        reveal_strlit("person2: name = Alice, age = 30");
        reveal_with_fuel(decimal, 2);
        assert(line@ =~= "person2: name = Alice, age = 30"@);
    }
    emit(out, line);
}

/// A slice borrows from a vector and moves nothing.
fn example7(out: &mut Vec<String>)
    ensures
        final(out).deep_view() == old(out).deep_view() + lines(7),
{
    let numbers: Vec<i32> = vec![1, 2, 3, 4, 5];
    let slice: &[i32] = &numbers[1..3];
    let mut line = String::from_str("slice: ");
    push_numbers(&mut line, slice);
    proof {
        reveal_strlit("slice: ");
        reveal_strlit("slice: [2, 3]");
        reveal_with_fuel(joined, 3);
        assert(line@ =~= "slice: [2, 3]"@);
    }
    emit(out, line);
}

/// A text moves into a function, which hands it back; the result is dropped.
fn example8(out: &mut Vec<String>)
    ensures
        final(out).deep_view() == old(out).deep_view() + lines(8),
{
    let name: String = String::from_str("Bob");
    let _ = move_to_function(name, out);
    proof {
        reveal_strlit("Bob");
        reveal_strlit("Function owns the string: ");
        reveal_strlit("Function owns the string: Bob");
        assert("Function owns the string: "@ + "Bob"@ =~= "Function owns the string: Bob"@);
    }
}

/// A match takes an enum apart.
fn example9(out: &mut Vec<String>)
    ensures
        final(out).deep_view() == old(out).deep_view() + lines(9),
{
    let color = Color::Rgb(0, 127, 255);
    match color {
        Color::Rgb(r, g, b) => {
            let mut line = String::from_str("RGB Color - Red: ");
            push_integer(&mut line, r as i64);
            line.append(", Green: ");
            push_integer(&mut line, g as i64);
            line.append(", Blue: ");
            push_integer(&mut line, b as i64);
            proof {
                reveal_strlit("RGB Color - Red: ");
                reveal_strlit(", Green: ");
                reveal_strlit(", Blue: ");
                reveal_strlit("RGB Color - Red: 0, Green: 127, Blue: 255");
                reveal_with_fuel(decimal, 3);
                assert(line@ =~= "RGB Color - Red: 0, Green: 127, Blue: 255"@);
            }
            emit(out, line);
        },
        Color::Hsv(h, s, v) => {
            let mut line = String::from_str("HSV Color - Hue: ");
            push_integer(&mut line, h as i64);
            line.append(", Saturation: ");
            push_integer(&mut line, s as i64);
            line.append(", Value: ");
            push_integer(&mut line, v as i64);
            emit(out, line);
        },
    }
}

/// A struct of one's own moves into a function.
fn example10(out: &mut Vec<String>)
    ensures
        final(out).deep_view() == old(out).deep_view() + lines(10),
{
    let book = Book::new("The Rust Programming Language", "Steve Klabnik and Carol Nichols");
    present_book(book, out);
    proof {
        reveal_strlit("The Rust Programming Language");
        reveal_strlit("Steve Klabnik and Carol Nichols");
        reveal_strlit("Presenting book: ");
        reveal_strlit(" by ");
        reveal_strlit(
            "Presenting book: The Rust Programming Language by Steve Klabnik and Carol Nichols",
        );
        assert("Presenting book: "@ + "The Rust Programming Language"@ + " by "@
            + "Steve Klabnik and Carol Nichols"@
            =~= "Presenting book: The Rust Programming Language by Steve Klabnik and Carol Nichols"@);
    }
}

/// Runs the demonstration with the given number, from 1 to 10; any other
/// number writes nothing.
pub fn run_example(number: u8, out: &mut Vec<String>)
    ensures
        final(out).deep_view() == old(out).deep_view() + lines(number as int),
{
    match number {
        1 => example1(out),
        2 => example2(out),
        3 => example3(out),
        4 => example4(out),
        5 => example5(out),
        6 => example6(out),
        7 => example7(out),
        8 => example8(out),
        9 => example9(out),
        10 => example10(out),
        _ => {
            assert(out.deep_view() =~= old(out).deep_view() + lines(number as int));
        },
    }
}

/// Runs the ten demonstrations in order and returns what they wrote.
pub fn run_examples() -> (written: Vec<String>)
    ensures
        written.deep_view() == output(),
{
    let mut out: Vec<String> = Vec::new();
    example1(&mut out);
    example2(&mut out);
    example3(&mut out);
    example4(&mut out);
    example5(&mut out);
    example6(&mut out);
    example7(&mut out);
    example8(&mut out);
    example9(&mut out);
    example10(&mut out);
    assert(out.deep_view() =~= output());
    out
}

} // verus!
