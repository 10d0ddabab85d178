//! References: borrowing a value to read it, or to change it, without
//! taking it over.
use vstd::prelude::*;
use vstd::string::*;
use vstd::utf8::encode_utf8;
use crate::text::{emit, push_integer, push_unsigned};

verus! {

/// What the demonstration with the given number writes.
pub open spec fn lines(number: int) -> Seq<Seq<char>> {
    if number == 1 {
        seq!["The length of 'hello' is 5."@]
    } else if number == 2 {
        seq!["Changed string: hello, world"@]
    } else if number == 3 {
        seq!["hello and hello"@]
    } else if number == 4 {
        seq!["hello and hello"@]
    } else if number == 5 {
        seq!["hello"@]
    } else if number == 6 {
        seq!["The first word is: 'hello,'"@]
    } else if number == 7 {
        seq!["hello and hello"@, "hello"@]
    } else if number == 8 {
        seq!["Cleared string: ''"@]
    } else if number == 9 {
        seq!["Count: 1"@]
    } else if number == 10 {
        seq!["Sliced: 'hello' and 'world'"@]
    } else {
        Seq::empty()
    }
}

/// What the ten demonstrations write, one after the other.
pub open spec fn output() -> Seq<Seq<char>> {
    lines(1) + lines(2) + lines(3) + lines(4) + lines(5) + lines(6) + lines(7) + lines(8) + lines(9)
        + lines(10)
}

/// The length of the text in bytes, read through a reference.
pub fn calculate_length(s: &String) -> (length: usize)
    ensures
        length == encode_utf8(s@).len() as usize,
{
    s.as_str().len()
}

/// Appends `, world` to the text, through a mutable reference.
pub fn change(some_string: &mut String)
    ensures
        final(some_string)@ == old(some_string)@ + ", world"@,
{
    some_string.append(", world");
}

/// The text up to its first space, or all of it where it has none.
pub fn first_word(s: &String) -> (word: &str)
    ensures
        word@ == s@.take(word@.len() as int),
        word@.len() <= s@.len(),
        !word@.contains(' '),
        word@.len() == s@.len() || s@[word@.len() as int] == ' ',
{
    crate::slices::first_word(s.as_str())
}

/// Empties the text, through a mutable reference.
pub fn clear_string(s: &mut String)
    ensures
        final(s)@ == Seq::<char>::empty(),
{
    s.clear();
}

/// Writes `a and b`.
fn write_both(out: &mut Vec<String>, r1: &String, r2: &String)
    ensures
        final(out).deep_view() == old(out).deep_view() + seq![r1@ + " and "@ + r2@],
{
    let mut line = String::new();
    line.append(r1.as_str());
    line.append(" and ");
    line.append(r2.as_str());
    assert(line@ =~= r1@ + " and "@ + r2@);
    emit(out, line);
}

/// What `write_both` writes of two references to `hello`.
proof fn lemma_hello_twice()
    ensures
        "hello"@ + " and "@ + "hello"@ == "hello and hello"@,
{
    reveal_strlit("hello");
    reveal_strlit(" and ");
    reveal_strlit("hello and hello");
    assert("hello"@ + " and "@ + "hello"@ =~= "hello and hello"@);
}

/// A function borrows a text to measure it.
fn example1(out: &mut Vec<String>)
    ensures
        final(out).deep_view() == old(out).deep_view() + lines(1),
{
    let s1: String = String::from_str("hello");
    let len: usize = calculate_length(&s1);
    let mut line = String::from_str("The length of '");
    line.append(s1.as_str());
    line.append("' is ");
    push_unsigned(&mut line, len as u64);
    line.append(".");
    proof {
        broadcast use vstd::utf8::is_ascii_chars_encode_utf8;
        reveal_strlit("hello");
        assert(is_ascii("hello"));
        reveal_strlit("The length of '");
        reveal_strlit("' is ");
        reveal_strlit(".");
        reveal_strlit("The length of 'hello' is 5.");
        assert(line@ =~= "The length of 'hello' is 5."@);
    }
    emit(out, line);
}

/// A function borrows a text to change it.
fn example2(out: &mut Vec<String>)
    ensures
        final(out).deep_view() == old(out).deep_view() + lines(2),
{
    let mut s: String = String::from_str("hello");
    change(&mut s);
    let mut line = String::from_str("Changed string: ");
    line.append(s.as_str());
    proof {
        reveal_strlit("hello");
        reveal_strlit(", world");
        reveal_strlit("Changed string: ");
        reveal_strlit("Changed string: hello, world");
        assert(line@ =~= "Changed string: hello, world"@);
    }
    emit(out, line);
}

/// Two shared references to one text.
fn example3(out: &mut Vec<String>)
    ensures
        final(out).deep_view() == old(out).deep_view() + lines(3),
{
    let s: String = String::from_str("hello");
    let r1: &String = &s;
    let r2: &String = &s;
    write_both(out, r1, r2);
    proof {
        lemma_hello_twice();
    }
}

/// Two shared references to a text that could be changed, but is not.
#[allow(unused_mut)]
fn example4(out: &mut Vec<String>)
    ensures
        final(out).deep_view() == old(out).deep_view() + lines(4),
{
    let mut s: String = String::from_str("hello");
    let r1: &String = &s;
    let r2: &String = &s;
    write_both(out, r1, r2);
    proof {
        lemma_hello_twice();
    }
}

/// One mutable reference.
fn example5(out: &mut Vec<String>)
    ensures
        final(out).deep_view() == old(out).deep_view() + lines(5),
{
    let mut s: String = String::from_str("hello");
    let r1: &mut String = &mut s;
    emit(out, r1.clone());
}

/// A slice of a text lives no longer than the text.
fn example6(out: &mut Vec<String>)
    ensures
        final(out).deep_view() == old(out).deep_view() + lines(6),
{
    let s: String = String::from_str("hello, world");
    let word: &str = first_word(&s);
    let mut line = String::from_str("The first word is: '");
    line.append(word);
    line.append("'");
    proof {
        reveal_strlit("hello, world");
        reveal_strlit("The first word is: '");
        reveal_strlit("'");
        reveal_strlit("The first word is: 'hello,'");
        assert(s@[6] == ' ');
        assert(word@.len() == 6) by {
            if word@.len() > 6 {
                assert(word@[6] == ' ');
            }
        }
        assert(line@ =~= "The first word is: 'hello,'"@);
    }
    emit(out, line);
}

/// Shared references first; a mutable one once they are no longer used.
fn example7(out: &mut Vec<String>)
    ensures
        final(out).deep_view() == old(out).deep_view() + lines(7),
{
    let mut s: String = String::from_str("hello");
    let r1: &String = &s;
    let r2: &String = &s;
    write_both(out, r1, r2);
    let r3: &mut String = &mut s;
    emit(out, r3.clone());
    proof {
        lemma_hello_twice();
        assert(out.deep_view() =~= old(out).deep_view() + lines(7));
    }
}

/// A function borrows a text to empty it.
fn example8(out: &mut Vec<String>)
    ensures
        final(out).deep_view() == old(out).deep_view() + lines(8),
{
    let mut s: String = String::from_str("hello, world");
    clear_string(&mut s);
    let mut line = String::from_str("Cleared string: '");
    line.append(s.as_str());
    line.append("'");
    proof {
        reveal_strlit("Cleared string: '");
        reveal_strlit("'");
        reveal_strlit("Cleared string: ''");
        assert(line@ =~= "Cleared string: ''"@);
    }
    emit(out, line);
}

/// A number is changed through a mutable reference.
fn example9(out: &mut Vec<String>)
    ensures
        final(out).deep_view() == old(out).deep_view() + lines(9),
{
    let mut count: i32 = 0;
    let count_ref: &mut i32 = &mut count;
    *count_ref += 1;
    let mut line = String::from_str("Count: ");
    push_integer(&mut line, count as i64);
    proof {
        reveal_strlit("Count: ");
        reveal_strlit("Count: 1");
        assert(line@ =~= "Count: 1"@);
    }
    emit(out, line);
}

/// Two slices of one text.
fn example10(out: &mut Vec<String>)
    ensures
        final(out).deep_view() == old(out).deep_view() + lines(10),
{
    let s: String = String::from_str("hello, world");
    proof {
        reveal_strlit("hello, world");
    }
    let hello: &str = s.as_str().substring_ascii(0, 5);
    let world: &str = s.as_str().substring_ascii(7, 12);
    let mut line = String::from_str("Sliced: '");
    line.append(hello);
    line.append("' and '");
    line.append(world);
    line.append("'");
    proof {
        reveal_strlit("Sliced: '");
        reveal_strlit("' and '");
        reveal_strlit("'");
        reveal_strlit("Sliced: 'hello' and 'world'");
        assert(line@ =~= "Sliced: 'hello' and 'world'"@);
    }
    emit(out, line);
}

/// Runs the demonstration with the given number, from 1 to 10; any other
/// number writes nothing.
pub fn run_example(number: u8, out: &mut Vec<String>)
    ensures
        final(out).deep_view() == old(out).deep_view() + lines(number as int),
{
    match number {
        1 => example1(out),
        2 => example2(out),
        3 => example3(out),
        4 => example4(out),
        5 => example5(out),
        6 => example6(out),
        7 => example7(out),
        8 => example8(out),
        9 => example9(out),
        10 => example10(out),
        _ => {
            assert(out.deep_view() =~= old(out).deep_view() + lines(number as int));
        },
    }
}

/// Runs the ten demonstrations in order and returns what they wrote.
pub fn run_examples() -> (written: Vec<String>)
    ensures
        written.deep_view() == output(),
{
    let mut out: Vec<String> = Vec::new();
    example1(&mut out);
    example2(&mut out);
    example3(&mut out);
    example4(&mut out);
    example5(&mut out);
    example6(&mut out);
    example7(&mut out);
    example8(&mut out);
    example9(&mut out);
    example10(&mut out);
    assert(out.deep_view() =~= output());
    out
}

} // verus!
