//! Variables: bindings, mutability, shadowing, constants and the scalar types.
use vstd::prelude::*;
use vstd::string::*;
use crate::decimal::{last_digits, spare_zeros, without_last, Decimal};
use crate::text::{decimal, emit, push_integer, push_truth, push_unsigned};

verus! {

/// What the demonstration with the given number writes.
pub open spec fn lines(number: int) -> Seq<Seq<char>> {
    if number == 1 {
        seq!["The value of x is: 5"@]
    } else if number == 2 {
        seq!["The value of x is: 5"@]
    } else if number == 3 {
        seq!["The value of x is: 5"@, "The value of x is now: 6"@]
    } else if number == 4 {
        seq!["The maximum points are: 100000"@]
    } else if number == 5 {
        seq!["The value of x is: 5"@, "The value of x is now: 6"@, "The value of x is now: 12"@]
    } else if number == 6 {
        seq!["The number of spaces is: 3"@]
    } else if number == 7 {
        seq!["x is: -123"@]
    } else if number == 8 {
        seq!["x is: 2, y is: 3"@]
    } else if number == 9 {
        seq!["t is: true, f is: false"@]
    } else if number == 10 {
        seq!["c is: z, z is: \u{2124}, heart_eyed_cat is: \u{1f63b}"@]
    } else {
        Seq::empty()
    }
}

/// What the ten demonstrations write, one after the other.
pub open spec fn output() -> Seq<Seq<char>> {
    lines(1) + lines(2) + lines(3) + lines(4) + lines(5) + lines(6) + lines(7) + lines(8) + lines(9)
        + lines(10)
}

/// The most points that can be had.
pub const MAX_POINTS: u32 = 100_000;

/// A binding is immutable unless it says otherwise.
fn example1(out: &mut Vec<String>)
    ensures
        final(out).deep_view() == old(out).deep_view() + lines(1),
{
    let x: i32 = 5;
    let mut line = String::from_str("The value of x is: ");
    push_integer(&mut line, x as i64);
    proof {
        reveal_strlit("The value of x is: ");
        reveal_strlit("The value of x is: 5");
        assert(line@ =~= "The value of x is: 5"@);
    }
    emit(out, line);
}

/// An immutable binding keeps the value it was given: there is no second
/// assignment to write.
fn example2(out: &mut Vec<String>)
    ensures
        final(out).deep_view() == old(out).deep_view() + lines(2),
{
    let x: i32 = 5;
    let mut line = String::from_str("The value of x is: ");
    push_integer(&mut line, x as i64);
    proof {
        reveal_strlit("The value of x is: ");
        reveal_strlit("The value of x is: 5");
        assert(line@ =~= "The value of x is: 5"@);
    }
    emit(out, line);
}

/// A mutable binding, written before and after it changes.
fn example3(out: &mut Vec<String>)
    ensures
        final(out).deep_view() == old(out).deep_view() + lines(3),
{
    let mut x: i32 = 5;
    let mut line = String::from_str("The value of x is: ");
    push_integer(&mut line, x as i64);
    proof {
        reveal_strlit("The value of x is: ");
        reveal_strlit("The value of x is: 5");
        assert(line@ =~= "The value of x is: 5"@);
    }
    emit(out, line);
    x = 6;
    let mut line = String::from_str("The value of x is now: ");
    push_integer(&mut line, x as i64);
    proof {
        reveal_strlit("The value of x is now: ");
        reveal_strlit("The value of x is now: 6");
        assert(line@ =~= "The value of x is now: 6"@);
    }
    emit(out, line);
    assert(out.deep_view() =~= old(out).deep_view() + lines(3));
}

/// A constant.
fn example4(out: &mut Vec<String>)
    ensures
        final(out).deep_view() == old(out).deep_view() + lines(4),
{
    let mut line = String::from_str("The maximum points are: ");
    push_unsigned(&mut line, MAX_POINTS as u64);
    proof {
        reveal_strlit("The maximum points are: ");
        reveal_strlit("The maximum points are: 100000");
        reveal_with_fuel(decimal, 6);
        assert(line@ =~= "The maximum points are: 100000"@);
    }
    emit(out, line);
}

/// Shadowing: a new binding takes the name of an earlier one.
fn example5(out: &mut Vec<String>)
    ensures
        final(out).deep_view() == old(out).deep_view() + lines(5),
{
    let x: i32 = 5;
    let mut line = String::from_str("The value of x is: ");
    push_integer(&mut line, x as i64);
    proof {
        reveal_strlit("The value of x is: ");
        reveal_strlit("The value of x is: 5");
        assert(line@ =~= "The value of x is: 5"@);
    }
    emit(out, line);
    let x: i32 = x + 1;
    let mut line = String::from_str("The value of x is now: ");
    push_integer(&mut line, x as i64);
    proof {
        reveal_strlit("The value of x is now: ");
        reveal_strlit("The value of x is now: 6");
        assert(line@ =~= "The value of x is now: 6"@);
    }
    emit(out, line);
    let x: i32 = x * 2;
    let mut line = String::from_str("The value of x is now: ");
    push_integer(&mut line, x as i64);
    proof {
        reveal_strlit("The value of x is now: ");
        reveal_strlit("The value of x is now: 12");
        reveal_with_fuel(decimal, 2);
        assert(line@ =~= "The value of x is now: 12"@);
    }
    emit(out, line);
    assert(out.deep_view() =~= old(out).deep_view() + lines(5));
}

/// Shadowing may change the type: from a text to its length.
fn example6(out: &mut Vec<String>)
    ensures
        final(out).deep_view() == old(out).deep_view() + lines(6),
{
    let spaces: &str = "   ";
    let spaces: usize = spaces.len();
    proof {
        broadcast use vstd::string::is_ascii_spec_bytes;
        reveal_strlit("   ");
        assert(is_ascii("   "));
    }
    let mut line = String::from_str("The number of spaces is: ");
    push_unsigned(&mut line, spaces as u64);
    proof {
        reveal_strlit("The number of spaces is: ");
        reveal_strlit("The number of spaces is: 3");
        assert(line@ =~= "The number of spaces is: 3"@);
    }
    emit(out, line);
}

/// A signed integer.
fn example7(out: &mut Vec<String>)
    ensures
        final(out).deep_view() == old(out).deep_view() + lines(7),
{
    let x: i32 = -123;
    let mut line = String::from_str("x is: ");
    push_integer(&mut line, x as i64);
    proof {
        reveal_strlit("x is: ");
        reveal_strlit("x is: -123");
        reveal_with_fuel(decimal, 3);
        assert(line@ =~= "x is: -123"@);
    }
    emit(out, line);
}

/// Numbers with a fractional part; a whole one is written without a point.
fn example8(out: &mut Vec<String>)
    ensures
        final(out).deep_view() == old(out).deep_view() + lines(8),
{
    let x = Decimal::new(20, 1);
    let y = Decimal::new(30, 1);
    let mut line = String::from_str("x is: ");
    x.push_shown(&mut line);
    line.append(", y is: ");
    y.push_shown(&mut line);
    proof {
        reveal_strlit("x is: ");
        reveal_strlit(", y is: ");
        reveal_strlit("x is: 2, y is: 3");
        reveal_with_fuel(spare_zeros, 3);
        reveal_with_fuel(without_last, 3);
        reveal_with_fuel(last_digits, 3);
        assert(line@ =~= "x is: 2, y is: 3"@);
    }
    emit(out, line);
}

/// The two truth values.
fn example9(out: &mut Vec<String>)
    ensures
        final(out).deep_view() == old(out).deep_view() + lines(9),
{
    let t: bool = true;
    let f: bool = false;
    let mut line = String::from_str("t is: ");
    push_truth(&mut line, t);
    line.append(", f is: ");
    push_truth(&mut line, f);
    proof {
        reveal_strlit("t is: ");
        reveal_strlit(", f is: ");
        reveal_strlit("true");
        reveal_strlit("false");
        reveal_strlit("t is: true, f is: false");
        assert(line@ =~= "t is: true, f is: false"@);
    }
    emit(out, line);
}

/// Characters: a letter, a mathematical symbol and a pictograph.
fn example10(out: &mut Vec<String>)
    ensures
        final(out).deep_view() == old(out).deep_view() + lines(10),
{
    let c: char = 'z';
    let z: char = '\u{2124}';
    let heart_eyed_cat: char = '\u{1f63b}';
    let mut line = String::from_str("c is: ");
    line.push(c);
    line.append(", z is: ");
    line.push(z);
    line.append(", heart_eyed_cat is: ");
    line.push(heart_eyed_cat);
    proof {
        reveal_strlit("c is: ");
        reveal_strlit(", z is: ");
        reveal_strlit(", heart_eyed_cat is: ");
        reveal_strlit("c is: z, z is: \u{2124}, heart_eyed_cat is: \u{1f63b}");
        assert(line@ =~= "c is: z, z is: \u{2124}, heart_eyed_cat is: \u{1f63b}"@);
    }
    emit(out, line);
}

/// Runs the demonstration with the given number, from 1 to 10; any other
/// number writes nothing.
pub fn run_example(number: u8, out: &mut Vec<String>)
    ensures
        final(out).deep_view() == old(out).deep_view() + lines(number as int),
{
    match number {
        1 => example1(out),
        2 => example2(out),
        3 => example3(out),
        4 => example4(out),
        5 => example5(out),
        6 => example6(out),
        7 => example7(out),
        8 => example8(out),
        9 => example9(out),
        10 => example10(out),
        _ => {
            assert(out.deep_view() =~= old(out).deep_view() + lines(number as int));
        },
    }
}

/// Runs the ten demonstrations in order and returns what they wrote.
pub fn run_examples() -> (written: Vec<String>)
    ensures
        written.deep_view() == output(),
{
    let mut out: Vec<String> = Vec::new();
    example1(&mut out);
    example2(&mut out);
    example3(&mut out);
    example4(&mut out);
    example5(&mut out);
    example6(&mut out);
    example7(&mut out);
    example8(&mut out);
    example9(&mut out);
    example10(&mut out);
    assert(out.deep_view() =~= output());
    out
}

} // verus!
