//! String literals: texts written into the program itself.
use vstd::prelude::*;
use vstd::string::*;
use crate::text::{decimal, emit, push_unsigned};

verus! {

/// What the demonstration with the given number writes. A line break inside
/// an entry is written as it stands.
pub open spec fn lines(number: int) -> Seq<Seq<char>> {
    if number == 1 {
        seq!["String literal: Hello, world!"@]
    } else if number == 2 {
        seq!["String literal with length 43: The quick brown fox jumps over the lazy dog"@]
    } else if number == 3 {
        seq!["This is a\nmultiline string literal\nthat spans several lines."@]
    } else if number == 4 {
        seq!["This string contains\na newline and a tab\t."@]
    } else if number == 5 {
        seq![r#"This is a raw string literal, where \n and \t are not interpreted."#@]
    } else if number == 6 {
        seq!["She said, \"Hello, world!\""@]
    } else if number == 7 {
        seq![
            r###"
This is a raw string literal with "##" delimiters,
allowing for " and # characters without escapes.
"###@,
        ]
    } else if number == 8 {
        seq!["Hello,world!"@]
    } else if number == 9 {
        seq!["I am a constant string literal."@]
    } else if number == 10 {
        seq!["String literal with emoji: \u{11f}\u{178}\u{2dc}\u{160}"@]
    } else {
        Seq::empty()
    }
}

/// What the ten demonstrations write, one after the other.
pub open spec fn output() -> Seq<Seq<char>> {
    lines(1) + lines(2) + lines(3) + lines(4) + lines(5) + lines(6) + lines(7) + lines(8) + lines(9)
        + lines(10)
}

/// A literal held as a constant.
pub const CONST_STR: &'static str = "I am a constant string literal.";

/// A literal is a borrowed text.
fn example1(out: &mut Vec<String>)
    ensures
        final(out).deep_view() == old(out).deep_view() + lines(1),
{
    let hello: &str = "Hello, world!";
    let mut line = String::from_str("String literal: ");
    line.append(hello);
    proof {
        reveal_strlit("Hello, world!");
        reveal_strlit("String literal: ");
        reveal_strlit("String literal: Hello, world!");
        assert(line@ =~= "String literal: Hello, world!"@);
    }
    emit(out, line);
}

/// The length of a literal, in bytes.
fn example2(out: &mut Vec<String>)
    ensures
        final(out).deep_view() == old(out).deep_view() + lines(2),
{
    let s: &str = "The quick brown fox jumps over the lazy dog";
    let length: usize = s.len();
    let mut line = String::from_str("String literal with length ");
    push_unsigned(&mut line, length as u64);
    line.append(": ");
    line.append(s);
    proof {
        broadcast use vstd::string::is_ascii_spec_bytes;
        reveal_strlit("The quick brown fox jumps over the lazy dog");
        assert(is_ascii("The quick brown fox jumps over the lazy dog"));
        reveal_strlit("String literal with length ");
        reveal_strlit(": ");
        reveal_strlit("String literal with length 43: The quick brown fox jumps over the lazy dog");
        reveal_with_fuel(decimal, 2);
        assert(line@
            =~= "String literal with length 43: The quick brown fox jumps over the lazy dog"@);
    }
    emit(out, line);
}

/// A literal that runs over several lines.
fn example3(out: &mut Vec<String>)
    ensures
        final(out).deep_view() == old(out).deep_view() + lines(3),
{
    let multiline: &str = "This is a
multiline string literal
that spans several lines.";
    proof {
        reveal_strlit("This is a
multiline string literal
that spans several lines.");
        reveal_strlit("This is a\nmultiline string literal\nthat spans several lines.");
        assert(multiline@ =~= "This is a\nmultiline string literal\nthat spans several lines."@);
    }
    emit(out, String::from_str(multiline));
}

/// Escapes stand for a line break and a tab.
fn example4(out: &mut Vec<String>)
    ensures
        final(out).deep_view() == old(out).deep_view() + lines(4),
{
    let with_escapes: &str = "This string contains\na newline and a tab\t.";
    emit(out, String::from_str(with_escapes));
}

/// In a raw literal a backslash is a backslash.
fn example5(out: &mut Vec<String>)
    ensures
        final(out).deep_view() == old(out).deep_view() + lines(5),
{
    let raw_string: &str = r#"This is a raw string literal, where \n and \t are not interpreted."#;
    emit(out, String::from_str(raw_string));
}

/// Quotation marks inside a literal are escaped.
fn example6(out: &mut Vec<String>)
    ensures
        final(out).deep_view() == old(out).deep_view() + lines(6),
{
    let quotes_in_string: &str = "She said, \"Hello, world!\"";
    emit(out, String::from_str(quotes_in_string));
}

/// A raw literal with longer delimiters may hold quotation marks and hashes.
fn example7(out: &mut Vec<String>)
    ensures
        final(out).deep_view() == old(out).deep_view() + lines(7),
{
    let long_raw_string: &str = r###"
This is a raw string literal with "##" delimiters,
allowing for " and # characters without escapes.
"###;
    emit(out, String::from_str(long_raw_string));
}

/// A literal written in one piece.
fn example8(out: &mut Vec<String>)
    ensures
        final(out).deep_view() == old(out).deep_view() + lines(8),
{
    let concat_literals: &str = "Hello,world!";
    emit(out, String::from_str(concat_literals));
}

/// A literal held as a constant.
fn example9(out: &mut Vec<String>)
    ensures
        final(out).deep_view() == old(out).deep_view() + lines(9),
{
    emit(out, String::from_str(CONST_STR));
}

/// A literal may hold any characters, not only those of ASCII.
fn example10(out: &mut Vec<String>)
    ensures
        final(out).deep_view() == old(out).deep_view() + lines(10),
{
    let emoji: &str = "\u{11f}\u{178}\u{2dc}\u{160}";
    let mut line = String::from_str("String literal with emoji: ");
    line.append(emoji);
    proof {
        reveal_strlit("\u{11f}\u{178}\u{2dc}\u{160}");
        reveal_strlit("String literal with emoji: ");
        reveal_strlit("String literal with emoji: \u{11f}\u{178}\u{2dc}\u{160}");
        assert(line@ =~= "String literal with emoji: \u{11f}\u{178}\u{2dc}\u{160}"@);
    }
    emit(out, line);
}

/// Runs the demonstration with the given number, from 1 to 10; any other
/// number writes nothing.
pub fn run_example(number: u8, out: &mut Vec<String>)
    ensures
        final(out).deep_view() == old(out).deep_view() + lines(number as int),
{
    match number {
        1 => example1(out),
        2 => example2(out),
        3 => example3(out),
        4 => example4(out),
        5 => example5(out),
        6 => example6(out),
        7 => example7(out),
        8 => example8(out),
        9 => example9(out),
        10 => example10(out),
        _ => {
            assert(out.deep_view() =~= old(out).deep_view() + lines(number as int));
        },
    }
}

/// Runs the ten demonstrations in order and returns what they wrote.
pub fn run_examples() -> (written: Vec<String>)
    ensures
        written.deep_view() == output(),
{
    let mut out: Vec<String> = Vec::new();
    example1(&mut out);
    example2(&mut out);
    example3(&mut out);
    example4(&mut out);
    example5(&mut out);
    example6(&mut out);
    example7(&mut out);
    example8(&mut out);
    example9(&mut out);
    example10(&mut out);
    assert(out.deep_view() =~= output());
    out
}

} // verus!
