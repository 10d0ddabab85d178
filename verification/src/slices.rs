//! Slices: views of a run of neighbouring elements, or of a part of a text.
use vstd::prelude::*;
use vstd::string::*;
use crate::text::{decimal, emit, integer, joined, push_integer, push_numbers};

verus! {

/// What the demonstration with the given number writes.
pub open spec fn lines(number: int) -> Seq<Seq<char>> {
    if number == 1 {
        seq!["Slice of arr: [2, 3, 4]"@]
    } else if number == 2 {
        seq!["Slice of vec: [2, 3, 4]"@]
    } else if number == 3 {
        seq!["Slice of string: Hello"@]
    } else if number == 4 {
        seq!["Another slice of string: world"@]
    } else if number == 5 {
        seq!["Full slice of arr: [1, 2, 3, 4, 5]"@]
    } else if number == 6 {
        seq!["First word: Hello,"@]
    } else if number == 7 {
        seq!["Value: 20"@, "Value: 30"@, "Value: 40"@]
    } else if number == 8 {
        seq!["Partial slice of vec: [100, 32]"@]
    } else if number == 9 {
        seq!["Slice from the middle of a string: of a string"@]
    } else if number == 10 {
        seq!["Modified array through slice: [1, 10, 3, 4, 5]"@]
    } else {
        Seq::empty()
    }
}

/// What the ten demonstrations write, one after the other.
pub open spec fn output() -> Seq<Seq<char>> {
    lines(1) + lines(2) + lines(3) + lines(4) + lines(5) + lines(6) + lines(7) + lines(8) + lines(9)
        + lines(10)
}

/// The text up to its first space, or all of it where it has none.
pub fn first_word(s: &str) -> (word: &str)
    ensures
        word@ == s@.take(word@.len() as int),
        word@.len() <= s@.len(),
        !word@.contains(' '),
        word@.len() == s@.len() || s@[word@.len() as int] == ' ',
{
    let length: usize = s.unicode_len();
    let mut k: usize = 0;
    for c in it: s.chars()
        invariant
            k == it.index(),
            it.seq() == s@,
            length == s@.len(),
            forall|j: int| 0 <= j < k ==> s@[j] != ' ',
    {
        if c == ' ' {
            let word = s.substring_char(0, k);
            assert(word@ =~= s@.take(k as int));
            return word;
        }
        k += 1;
    }
    assert(s@ =~= s@.take(s@.len() as int));
    s
}

/// A slice of an array.
fn example1(out: &mut Vec<String>)
    ensures
        final(out).deep_view() == old(out).deep_view() + lines(1),
{
    let arr: [i32; 5] = [1, 2, 3, 4, 5];
    let slice: &[i32] = &arr[1..4];
    let mut line = String::from_str("Slice of arr: ");
    push_numbers(&mut line, slice);
    proof {
        reveal_strlit("Slice of arr: ");
        reveal_strlit("Slice of arr: [2, 3, 4]");
        reveal_with_fuel(joined, 4);
        assert(line@ =~= "Slice of arr: [2, 3, 4]"@);
    }
    emit(out, line);
}

/// A slice of a vector.
fn example2(out: &mut Vec<String>)
    ensures
        final(out).deep_view() == old(out).deep_view() + lines(2),
{
    let vec: Vec<i32> = vec![1, 2, 3, 4, 5];
    let slice: &[i32] = &vec[1..4];
    let mut line = String::from_str("Slice of vec: ");
    push_numbers(&mut line, slice);
    proof {
        reveal_strlit("Slice of vec: ");
        reveal_strlit("Slice of vec: [2, 3, 4]");
        reveal_with_fuel(joined, 4);
        assert(line@ =~= "Slice of vec: [2, 3, 4]"@);
    }
    emit(out, line);
}

/// A slice of an owned text.
fn example3(out: &mut Vec<String>)
    ensures
        final(out).deep_view() == old(out).deep_view() + lines(3),
{
    let s: String = String::from_str("Hello, world!");
    proof {
        reveal_strlit("Hello, world!");
    }
    let slice: &str = s.as_str().substring_ascii(0, 5);
    let mut line = String::from_str("Slice of string: ");
    line.append(slice);
    proof {
        reveal_strlit("Slice of string: ");
        reveal_strlit("Slice of string: Hello");
        assert(line@ =~= "Slice of string: Hello"@);
    }
    emit(out, line);
}

/// A slice of a text that the program itself holds.
fn example4(out: &mut Vec<String>)
    ensures
        final(out).deep_view() == old(out).deep_view() + lines(4),
{
    let s: &str = "Hello, world!";
    proof {
        reveal_strlit("Hello, world!");
    }
    let slice: &str = s.substring_ascii(7, 12);
    let mut line = String::from_str("Another slice of string: ");
    line.append(slice);
    proof {
        reveal_strlit("Another slice of string: ");
        reveal_strlit("Another slice of string: world");
        assert(line@ =~= "Another slice of string: world"@);
    }
    emit(out, line);
}

/// A slice of the whole array.
fn example5(out: &mut Vec<String>)
    ensures
        final(out).deep_view() == old(out).deep_view() + lines(5),
{
    let arr: [i32; 5] = [1, 2, 3, 4, 5];
    let slice: &[i32] = &arr[0..arr.len()];
    let mut line = String::from_str("Full slice of arr: ");
    push_numbers(&mut line, slice);
    proof {
        reveal_strlit("Full slice of arr: ");
        reveal_strlit("Full slice of arr: [1, 2, 3, 4, 5]");
        reveal_with_fuel(joined, 6);
        assert(line@ =~= "Full slice of arr: [1, 2, 3, 4, 5]"@);
    }
    emit(out, line);
}

/// The first word of a text, as a slice of it.
fn example6(out: &mut Vec<String>)
    ensures
        final(out).deep_view() == old(out).deep_view() + lines(6),
{
    let s: &str = "Hello, world!";
    let word: &str = first_word(s);
    let mut line = String::from_str("First word: ");
    line.append(word);
    proof {
        reveal_strlit("Hello, world!");
        reveal_strlit("First word: ");
        reveal_strlit("First word: Hello,");
        assert(s@[6] == ' ');
        assert(word@.len() == 6) by {
            if word@.len() > 6 {
                assert(word@[6] == ' ');
            }
        }
        assert(line@ =~= "First word: Hello,"@);
    }
    emit(out, line);
}

/// Visiting the elements of a slice.
fn example7(out: &mut Vec<String>)
    ensures
        final(out).deep_view() == old(out).deep_view() + lines(7),
{
    let arr: [i32; 5] = [10, 20, 30, 40, 50];
    let middle_slice: &[i32] = &arr[1..4];
    for i in it: middle_slice.iter()
        invariant
            out.deep_view() == old(out).deep_view() + Seq::new(
                it.index() as nat,
                |j: int| "Value: "@ + integer(middle_slice[j] as int),
            ),
    {
        let mut line = String::from_str("Value: ");
        push_integer(&mut line, *i as i64);
        emit(out, line);
        assert(out.deep_view() =~= old(out).deep_view() + Seq::new(
            (it.index() + 1) as nat,
            |j: int| "Value: "@ + integer(middle_slice[j] as int),
        ));
    }
    proof {
        reveal_strlit("Value: ");
        reveal_strlit("Value: 20");
        reveal_strlit("Value: 30");
        reveal_strlit("Value: 40");
        reveal_with_fuel(decimal, 2);
        let written = Seq::new(3, |j: int| "Value: "@ + integer(middle_slice[j] as int));
        assert(written[0] =~= "Value: 20"@);
        assert(written[1] =~= "Value: 30"@);
        assert(written[2] =~= "Value: 40"@);
        assert(written =~= lines(7));
    }
}

/// A slice from the start of a vector.
fn example8(out: &mut Vec<String>)
    ensures
        final(out).deep_view() == old(out).deep_view() + lines(8),
{
    let vec: Vec<i32> = vec![100, 32, 57];
    let slice: &[i32] = &vec[0..2];
    let mut line = String::from_str("Partial slice of vec: ");
    push_numbers(&mut line, slice);
    proof {
        reveal_strlit("Partial slice of vec: ");
        reveal_strlit("Partial slice of vec: [100, 32]");
        reveal_with_fuel(joined, 3);
        reveal_with_fuel(decimal, 3);
        assert(line@ =~= "Partial slice of vec: [100, 32]"@);
    }
    emit(out, line);
}

/// A slice from the middle of a text to its end.
fn example9(out: &mut Vec<String>)
    ensures
        final(out).deep_view() == old(out).deep_view() + lines(9),
{
    let s: &str = "slice of a string";
    proof {
        reveal_strlit("slice of a string");
    }
    let slice: &str = s.substring_ascii(6, s.unicode_len());
    let mut line = String::from_str("Slice from the middle of a string: ");
    line.append(slice);
    proof {
        reveal_strlit("Slice from the middle of a string: ");
        reveal_strlit("Slice from the middle of a string: of a string");
        assert(line@ =~= "Slice from the middle of a string: of a string"@);
    }
    emit(out, line);
}

/// Changing an array through a mutable slice of it.
fn example10(out: &mut Vec<String>)
    ensures
        final(out).deep_view() == old(out).deep_view() + lines(10),
{
    let mut arr: [i32; 5] = [1, 2, 3, 4, 5];
    let whole: &mut [i32] = &mut arr;
    let (_, rest) = whole.split_at_mut(1);
    let (slice_mut, _) = rest.split_at_mut(3);
    if let Some(first) = slice_mut.first_mut() {
        *first = 10;
    }
    assert(arr@ =~= seq![1i32, 10i32, 3i32, 4i32, 5i32]);
    let mut line = String::from_str("Modified array through slice: ");
    push_numbers(&mut line, arr.as_slice());
    proof {
        reveal_strlit("Modified array through slice: ");
        reveal_strlit("Modified array through slice: [1, 10, 3, 4, 5]");
        reveal_with_fuel(joined, 6);
        reveal_with_fuel(decimal, 2);
        assert(line@ =~= "Modified array through slice: [1, 10, 3, 4, 5]"@);
    }
    emit(out, line);
}

/// Runs the demonstration with the given number, from 1 to 10; any other
/// number writes nothing.
pub fn run_example(number: u8, out: &mut Vec<String>)
    ensures
        final(out).deep_view() == old(out).deep_view() + lines(number as int),
{
    match number {
        1 => example1(out),
        2 => example2(out),
        3 => example3(out),
        4 => example4(out),
        5 => example5(out),
        6 => example6(out),
        7 => example7(out),
        8 => example8(out),
        9 => example9(out),
        10 => example10(out),
        _ => {
            assert(out.deep_view() =~= old(out).deep_view() + lines(number as int));
        },
    }
}

/// Runs the ten demonstrations in order and returns what they wrote.
pub fn run_examples() -> (written: Vec<String>)
    ensures
        written.deep_view() == output(),
{
    let mut out: Vec<String> = Vec::new();
    example1(&mut out);
    example2(&mut out);
    example3(&mut out);
    example4(&mut out);
    example5(&mut out);
    example6(&mut out);
    example7(&mut out);
    example8(&mut out);
    example9(&mut out);
    example10(&mut out);
    assert(out.deep_view() =~= output());
    out
}

} // verus!
