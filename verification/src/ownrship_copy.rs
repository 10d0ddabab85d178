//! Copies: values of the simple types are duplicated bit by bit, and the
//! value that was copied stays in use.
use vstd::prelude::*;
use vstd::string::*;
use crate::decimal::{last_digits, spare_zeros, without_last, Decimal};
use crate::text::{decimal, emit, integer, joined, push_integer, push_numbers, push_truth};

verus! {

/// What the demonstration with the given number writes.
pub open spec fn lines(number: int) -> Seq<Seq<char>> {
    if number == 1 {
        seq!["x: 5, y: 5"@]
    } else if number == 2 {
        seq!["x: (5, 4.3), y: (5, 4.3)"@]
    } else if number == 3 {
        seq!["x: true, y: true"@]
    } else if number == 4 {
        seq!["x: A, y: A"@]
    } else if number == 5 {
        seq!["x: 2.71828, y: 2.71828"@]
    } else if number == 6 {
        seq!["arr1: [1, 2, 3], arr2: [1, 2, 3]"@]
    } else if number == 7 {
        seq!["s: Hello, world!, t: Hello, world!"@]
    } else if number == 8 {
        seq!["num: Some(5), num_copy: Some(5)"@]
    } else if number == 9 {
        seq!["In takes_copy: x = 10"@, "After takes_copy: x = 10"@]
    } else if number == 10 {
        seq!["flag: false, flag_copy: false"@]
    } else {
        Seq::empty()
    }
}

/// What the ten demonstrations write, one after the other.
pub open spec fn output() -> Seq<Seq<char>> {
    lines(1) + lines(2) + lines(3) + lines(4) + lines(5) + lines(6) + lines(7) + lines(8) + lines(9)
        + lines(10)
}

/// Hands back the value it was given.
pub fn clone_flag(f: bool) -> (same: bool)
    ensures
        same == f,
{
    f
}

/// Takes a copy of the number, and writes it.
pub fn takes_copy(x: i32, out: &mut Vec<String>)
    ensures
        final(out).deep_view() == old(out).deep_view() + seq![
            "In takes_copy: x = "@ + integer(x as int),
        ],
{
    let mut line = String::from_str("In takes_copy: x = ");
    push_integer(&mut line, x as i64);
    emit(out, line);
}

/// Appends a pair of a number and a decimal fraction, in round brackets.
fn push_pair(s: &mut String, pair: (i32, Decimal))
    ensures
        final(s)@ == old(s)@ + seq!['('] + integer(pair.0 as int) + seq![',', ' ']
            + pair.1.shown_in_full() + seq![')'],
{
    s.push('(');
    push_integer(s, pair.0 as i64);
    s.push(',');
    s.push(' ');
    pair.1.push_shown_in_full(s);
    s.push(')');
    assert(s@ =~= old(s)@ + seq!['('] + integer(pair.0 as int) + seq![',', ' ']
        + pair.1.shown_in_full() + seq![')']);
}

/// An integer is copied.
fn example1(out: &mut Vec<String>)
    ensures
        final(out).deep_view() == old(out).deep_view() + lines(1),
{
    let x: i32 = 5;
    let y: i32 = x;
    let mut line = String::from_str("x: ");
    push_integer(&mut line, x as i64);
    line.append(", y: ");
    push_integer(&mut line, y as i64);
    proof {
        reveal_strlit("x: ");
        reveal_strlit(", y: ");
        reveal_strlit("x: 5, y: 5");
        assert(line@ =~= "x: 5, y: 5"@);
    }
    emit(out, line);
}

/// A tuple of values that are copied is copied.
fn example2(out: &mut Vec<String>)
    ensures
        final(out).deep_view() == old(out).deep_view() + lines(2),
{
    let x: (i32, Decimal) = (5, Decimal::new(43, 1));
    let y: (i32, Decimal) = x;
    let mut line = String::from_str("x: ");
    push_pair(&mut line, x);
    line.append(", y: ");
    push_pair(&mut line, y);
    proof {
        reveal_strlit("x: ");
        reveal_strlit(", y: ");
        reveal_strlit("x: (5, 4.3), y: (5, 4.3)");
        reveal_with_fuel(spare_zeros, 2);
        reveal_with_fuel(without_last, 2);
        reveal_with_fuel(last_digits, 2);
        assert(line@ =~= "x: (5, 4.3), y: (5, 4.3)"@);
    }
    emit(out, line);
}

/// A truth value is copied.
fn example3(out: &mut Vec<String>)
    ensures
        final(out).deep_view() == old(out).deep_view() + lines(3),
{
    let x: bool = true;
    let y: bool = x;
    let mut line = String::from_str("x: ");
    push_truth(&mut line, x);
    line.append(", y: ");
    push_truth(&mut line, y);
    proof {
        reveal_strlit("x: ");
        reveal_strlit(", y: ");
        reveal_strlit("true");
        reveal_strlit("x: true, y: true");
        assert(line@ =~= "x: true, y: true"@);
    }
    emit(out, line);
}

/// A character is copied.
fn example4(out: &mut Vec<String>)
    ensures
        final(out).deep_view() == old(out).deep_view() + lines(4),
{
    let x: char = 'A';
    let y: char = x;
    let mut line = String::from_str("x: ");
    line.push(x);
    line.append(", y: ");
    line.push(y);
    proof {
        reveal_strlit("x: ");
        reveal_strlit(", y: ");
        reveal_strlit("x: A, y: A");
        assert(line@ =~= "x: A, y: A"@);
    }
    emit(out, line);
}

/// A number with a fractional part is copied.
fn example5(out: &mut Vec<String>)
    ensures
        final(out).deep_view() == old(out).deep_view() + lines(5),
{
    let x = Decimal::new(271828, 5);
    let y: Decimal = x;
    let mut line = String::from_str("x: ");
    x.push_shown(&mut line);
    line.append(", y: ");
    y.push_shown(&mut line);
    proof {
        reveal_strlit("x: ");
        reveal_strlit(", y: ");
        reveal_strlit("x: 2.71828, y: 2.71828");
        reveal_with_fuel(spare_zeros, 2);
        reveal_with_fuel(without_last, 6);
        reveal_with_fuel(last_digits, 6);
        assert(line@ =~= "x: 2.71828, y: 2.71828"@);
    }
    emit(out, line);
}

/// An array of values that are copied is copied.
fn example6(out: &mut Vec<String>)
    ensures
        final(out).deep_view() == old(out).deep_view() + lines(6),
{
    let arr1: [i32; 3] = [1, 2, 3];
    let arr2: [i32; 3] = arr1;
    let mut line = String::from_str("arr1: ");
    push_numbers(&mut line, arr1.as_slice());
    line.append(", arr2: ");
    push_numbers(&mut line, arr2.as_slice());
    proof {
        reveal_strlit("arr1: ");
        reveal_strlit(", arr2: ");
        reveal_strlit("arr1: [1, 2, 3], arr2: [1, 2, 3]");
        reveal_with_fuel(joined, 4);
        assert(line@ =~= "arr1: [1, 2, 3], arr2: [1, 2, 3]"@);
    }
    emit(out, line);
}

/// A borrowed text is a reference, and a reference is copied.
fn example7(out: &mut Vec<String>)
    ensures
        final(out).deep_view() == old(out).deep_view() + lines(7),
{
    let s: &str = "Hello, world!";
    let t: &str = s;
    let mut line = String::from_str("s: ");
    line.append(s);
    line.append(", t: ");
    line.append(t);
    proof {
        reveal_strlit("Hello, world!");
        reveal_strlit("s: ");
        reveal_strlit(", t: ");
        reveal_strlit("s: Hello, world!, t: Hello, world!");
        assert(line@ =~= "s: Hello, world!, t: Hello, world!"@);
    }
    emit(out, line);
}

/// Appends `Some(n)` or `None`.
fn push_option(s: &mut String, value: Option<i32>)
    ensures
        final(s)@ == old(s)@ + (match value {
            Some(n) => "Some("@ + integer(n as int) + ")"@,
            None => "None"@,
        }),
{
    match value {
        Some(n) => {
            s.append("Some(");
            push_integer(s, n as i64);
            s.append(")");
            assert(s@ =~= old(s)@ + ("Some("@ + integer(n as int) + ")"@));
        },
        None => {
            s.append("None");
        },
    }
}

/// An optional value is copied where the value inside is.
fn example8(out: &mut Vec<String>)
    ensures
        final(out).deep_view() == old(out).deep_view() + lines(8),
{
    let num: Option<i32> = Some(5);
    let num_copy: Option<i32> = num;
    let mut line = String::from_str("num: ");
    push_option(&mut line, num);
    line.append(", num_copy: ");
    push_option(&mut line, num_copy);
    proof {
        reveal_strlit("num: ");
        reveal_strlit(", num_copy: ");
        reveal_strlit("Some(");
        reveal_strlit(")");
        reveal_strlit("num: Some(5), num_copy: Some(5)");
        assert(line@ =~= "num: Some(5), num_copy: Some(5)"@);
    }
    emit(out, line);
}

/// A function gets a copy; the caller keeps the value.
fn example9(out: &mut Vec<String>)
    ensures
        final(out).deep_view() == old(out).deep_view() + lines(9),
{
    let x: i32 = 10;
    takes_copy(x, out);
    let mut line = String::from_str("After takes_copy: x = ");
    push_integer(&mut line, x as i64);
    proof {
        reveal_strlit("In takes_copy: x = ");
        reveal_strlit("In takes_copy: x = 10");
        reveal_strlit("After takes_copy: x = ");
        reveal_strlit("After takes_copy: x = 10");
        reveal_with_fuel(decimal, 2);
        assert("In takes_copy: x = "@ + integer(10) =~= "In takes_copy: x = 10"@);
        assert(line@ =~= "After takes_copy: x = 10"@);
    }
    emit(out, line);
    assert(out.deep_view() =~= old(out).deep_view() + lines(9));
}

/// A value that went through a function and came back is still the caller's.
fn example10(out: &mut Vec<String>)
    ensures
        final(out).deep_view() == old(out).deep_view() + lines(10),
{
    let flag: bool = false;
    let flag_copy: bool = clone_flag(flag);
    let mut line = String::from_str("flag: ");
    push_truth(&mut line, flag);
    line.append(", flag_copy: ");
    push_truth(&mut line, flag_copy);
    proof {
        reveal_strlit("flag: ");
        reveal_strlit(", flag_copy: ");
        reveal_strlit("false");
        reveal_strlit("flag: false, flag_copy: false");
        assert(line@ =~= "flag: false, flag_copy: false"@);
    }
    emit(out, line);
}

/// Runs the demonstration with the given number, from 1 to 10; any other
/// number writes nothing.
pub fn run_example(number: u8, out: &mut Vec<String>)
    ensures
        final(out).deep_view() == old(out).deep_view() + lines(number as int),
{
    match number {
        1 => example1(out),
        2 => example2(out),
        3 => example3(out),
        4 => example4(out),
        5 => example5(out),
        6 => example6(out),
        7 => example7(out),
        8 => example8(out),
        9 => example9(out),
        10 => example10(out),
        _ => {
            assert(out.deep_view() =~= old(out).deep_view() + lines(number as int));
        },
    }
}

/// Runs the ten demonstrations in order and returns what they wrote.
pub fn run_examples() -> (written: Vec<String>)
    ensures
        written.deep_view() == output(),
{
    let mut out: Vec<String> = Vec::new();
    example1(&mut out);
    example2(&mut out);
    example3(&mut out);
    example4(&mut out);
    example5(&mut out);
    example6(&mut out);
    example7(&mut out);
    example8(&mut out);
    example9(&mut out);
    example10(&mut out);
    assert(out.deep_view() =~= output());
    out
}

} // verus!
