//! Texts: the owned, growable `String` and the borrowed `&str`.
use vstd::prelude::*;
use vstd::string::*;
use crate::text::{emit, joined, push_list, quote_each, split_words, words};

verus! {

/// What the demonstration with the given number writes.
pub open spec fn lines(number: int) -> Seq<Seq<char>> {
    if number == 1 {
        seq!["String: Hello, world!"@]
    } else if number == 2 {
        seq!["Mutable String: Hello, world!"@]
    } else if number == 3 {
        seq!["Concatenated String: Hello, world!"@]
    } else if number == 4 {
        seq!["Formatted String: tic-tac-toe"@]
    } else if number == 5 {
        seq!["Slice of String: he"@]
    } else if number == 6 {
        seq!["String slice: Hello, world!"@]
    } else if number == 7 {
        seq!["Build a String: Hello"@]
    } else if number == 8 {
        seq!["Words from String: [\"hello\", \"world\"]"@]
    } else if number == 9 {
        seq!["&str to String: hello"@]
    } else if number == 10 {
        seq!["String to &str: hello"@]
    } else {
        Seq::empty()
    }
}

/// What the ten demonstrations write, one after the other.
pub open spec fn output() -> Seq<Seq<char>> {
    lines(1) + lines(2) + lines(3) + lines(4) + lines(5) + lines(6) + lines(7) + lines(8) + lines(9)
        + lines(10)
}

/// An owned text made from a literal.
fn example1(out: &mut Vec<String>)
    ensures
        final(out).deep_view() == old(out).deep_view() + lines(1),
{
    let s: String = String::from_str("Hello, world!");
    let mut line = String::from_str("String: ");
    line.append(s.as_str());
    proof {
        reveal_strlit("Hello, world!");
        reveal_strlit("String: ");
        reveal_strlit("String: Hello, world!");
        assert(line@ =~= "String: Hello, world!"@);
    }
    emit(out, line);
}

/// Appending to an owned text.
fn example2(out: &mut Vec<String>)
    ensures
        final(out).deep_view() == old(out).deep_view() + lines(2),
{
    let mut s: String = "Hello".to_string();
    s.append(", world!");
    let mut line = String::from_str("Mutable String: ");
    line.append(s.as_str());
    proof {
        reveal_strlit("Hello");
        reveal_strlit(", world!");
        reveal_strlit("Mutable String: ");
        reveal_strlit("Mutable String: Hello, world!");
        assert(line@ =~= "Mutable String: Hello, world!"@);
    }
    emit(out, line);
}

/// Joining two texts; the first is given up to make the result.
fn example3(out: &mut Vec<String>)
    ensures
        final(out).deep_view() == old(out).deep_view() + lines(3),
{
    let s1: String = String::from_str("Hello, ");
    let s2: String = String::from_str("world!");
    let s3: String = s1.concat(s2.as_str());
    let mut line = String::from_str("Concatenated String: ");
    line.append(s3.as_str());
    proof {
        reveal_strlit("Hello, ");
        reveal_strlit("world!");
        reveal_strlit("Concatenated String: ");
        reveal_strlit("Concatenated String: Hello, world!");
        assert(line@ =~= "Concatenated String: Hello, world!"@);
    }
    emit(out, line);
}

/// Joining three texts with a separator; all three stay in use.
fn example4(out: &mut Vec<String>)
    ensures
        final(out).deep_view() == old(out).deep_view() + lines(4),
{
    let s1: String = String::from_str("tic");
    let s2: String = String::from_str("tac");
    let s3: String = String::from_str("toe");
    let mut s = String::new();
    s.append(s1.as_str());
    s.append("-");
    s.append(s2.as_str());
    s.append("-");
    s.append(s3.as_str());
    let mut line = String::from_str("Formatted String: ");
    line.append(s.as_str());
    proof {
        reveal_strlit("tic");
        reveal_strlit("tac");
        reveal_strlit("toe");
        reveal_strlit("-");
        reveal_strlit("Formatted String: ");
        reveal_strlit("Formatted String: tic-tac-toe");
        assert(line@ =~= "Formatted String: tic-tac-toe"@);
    }
    emit(out, line);
}

/// A slice of an owned text.
fn example5(out: &mut Vec<String>)
    ensures
        final(out).deep_view() == old(out).deep_view() + lines(5),
{
    let s: String = String::from_str("hello");
    proof {
        reveal_strlit("hello");
    }
    let slice: &str = s.as_str().substring_ascii(0, 2);
    let mut line = String::from_str("Slice of String: ");
    line.append(slice);
    proof {
        reveal_strlit("Slice of String: ");
        reveal_strlit("Slice of String: he");
        assert(line@ =~= "Slice of String: he"@);
    }
    emit(out, line);
}

/// A literal is itself a borrowed text.
fn example6(out: &mut Vec<String>)
    ensures
        final(out).deep_view() == old(out).deep_view() + lines(6),
{
    let s: &str = "Hello, world!";
    let mut line = String::from_str("String slice: ");
    line.append(s);
    proof {
        reveal_strlit("Hello, world!");
        reveal_strlit("String slice: ");
        reveal_strlit("String slice: Hello, world!");
        assert(line@ =~= "String slice: Hello, world!"@);
    }
    emit(out, line);
}

/// Building a text from a character and a slice.
fn example7(out: &mut Vec<String>)
    ensures
        final(out).deep_view() == old(out).deep_view() + lines(7),
{
    let mut s: String = String::new();
    s.push('H');
    s.append("ello");
    let mut line = String::from_str("Build a String: ");
    line.append(s.as_str());
    proof {
        reveal_strlit("ello");
        reveal_strlit("Build a String: ");
        reveal_strlit("Build a String: Hello");
        assert(line@ =~= "Build a String: Hello"@);
    }
    emit(out, line);
}

/// Splitting a text into its words.
fn example8(out: &mut Vec<String>)
    ensures
        final(out).deep_view() == old(out).deep_view() + lines(8),
{
    let s: String = String::from_str("hello world");
    let found: Vec<String> = split_words(s.as_str());
    let mut line = String::from_str("Words from String: ");
    push_list(&mut line, &quote_each(&found));
    proof {
        reveal_strlit("hello world");
        reveal_strlit("Words from String: ");
        reveal_strlit("Words from String: [\"hello\", \"world\"]");
        reveal_with_fuel(words, 12);
        reveal_with_fuel(joined, 3);
        assert(words("hello world"@) =~~= seq![
            seq!['h', 'e', 'l', 'l', 'o'],
            seq!['w', 'o', 'r', 'l', 'd'],
        ]);
        assert(line@ =~= "Words from String: [\"hello\", \"world\"]"@);
    }
    emit(out, line);
}

/// From a borrowed text to an owned one.
fn example9(out: &mut Vec<String>)
    ensures
        final(out).deep_view() == old(out).deep_view() + lines(9),
{
    let s: &str = "hello";
    let s: String = s.to_string();
    let mut line = String::from_str("&str to String: ");
    line.append(s.as_str());
    proof {
        reveal_strlit("hello");
        reveal_strlit("&str to String: ");
        reveal_strlit("&str to String: hello");
        assert(line@ =~= "&str to String: hello"@);
    }
    emit(out, line);
}

/// A reference to an owned text serves where a borrowed text is asked for.
fn example10(out: &mut Vec<String>)
    ensures
        final(out).deep_view() == old(out).deep_view() + lines(10),
{
    let s: String = String::from_str("hello");
    let s: &String = &s;
    let mut line = String::from_str("String to &str: ");
    line.append(s);
    proof {
        reveal_strlit("hello");
        reveal_strlit("String to &str: ");
        reveal_strlit("String to &str: hello");
        assert(line@ =~= "String to &str: hello"@);
    }
    emit(out, line);
}

/// Runs the demonstration with the given number, from 1 to 10; any other
/// number writes nothing.
pub fn run_example(number: u8, out: &mut Vec<String>)
    ensures
        final(out).deep_view() == old(out).deep_view() + lines(number as int),
{
    match number {
        1 => example1(out),
        2 => example2(out),
        3 => example3(out),
        4 => example4(out),
        5 => example5(out),
        6 => example6(out),
        7 => example7(out),
        8 => example8(out),
        9 => example9(out),
        10 => example10(out),
        _ => {
            assert(out.deep_view() =~= old(out).deep_view() + lines(number as int));
        },
    }
}

/// Runs the ten demonstrations in order and returns what they wrote.
pub fn run_examples() -> (written: Vec<String>)
    ensures
        written.deep_view() == output(),
{
    let mut out: Vec<String> = Vec::new();
    example1(&mut out);
    example2(&mut out);
    example3(&mut out);
    example4(&mut out);
    example5(&mut out);
    example6(&mut out);
    example7(&mut out);
    example8(&mut out);
    example9(&mut out);
    example10(&mut out);
    assert(out.deep_view() =~= output());
    out
}

} // verus!
