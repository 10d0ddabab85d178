//! Tuples: a fixed number of values, each of a type of its own.
use vstd::prelude::*;
use vstd::string::*;
use crate::decimal::{last_digits, spare_zeros, without_last, Decimal};
use crate::text::{decimal, emit, push_integer, push_unsigned};

verus! {

/// What the demonstration with the given number writes.
pub open spec fn lines(number: int) -> Seq<Seq<char>> {
    if number == 1 {
        seq!["The tuple is: (500, 6.4, 1)"@]
    } else if number == 2 {
        seq!["The value of y is: 2"@]
    } else if number == 3 {
        seq!["The first value is: 10, and the second value is: 20"@]
    } else if number == 5 {
        seq!["The value of x is: 500"@]
    } else if number == 6 {
        seq!["The inner value is: 3"@]
    } else if number == 7 {
        seq!["The single-element tuple is: (42,)"@]
    } else if number == 8 {
        seq!["The values are: hello, 5, c"@]
    } else if number == 9 {
        seq!["The sum of the elements is: 55"@]
    } else if number == 10 {
        seq!["The unit type is represented by an empty tuple: ()"@]
    } else {
        Seq::empty()
    }
}

/// What the ten demonstrations write, one after the other.
pub open spec fn output() -> Seq<Seq<char>> {
    lines(1) + lines(2) + lines(3) + lines(4) + lines(5) + lines(6) + lines(7) + lines(8) + lines(9)
        + lines(10)
}

/// A tuple of three types, written whole.
fn example1(out: &mut Vec<String>)
    ensures
        final(out).deep_view() == old(out).deep_view() + lines(1),
{
    let tup: (i32, Decimal, u8) = (500, Decimal::new(64, 1), 1);
    let mut line = String::from_str("The tuple is: (");
    push_integer(&mut line, tup.0 as i64);
    line.append(", ");
    tup.1.push_shown_in_full(&mut line);
    line.append(", ");
    push_unsigned(&mut line, tup.2 as u64);
    line.append(")");
    proof {
        reveal_strlit("The tuple is: (");
        reveal_strlit(", ");
        reveal_strlit(")");
        reveal_strlit("The tuple is: (500, 6.4, 1)");
        reveal_with_fuel(decimal, 3);
        reveal_with_fuel(spare_zeros, 2);
        reveal_with_fuel(without_last, 2);
        reveal_with_fuel(last_digits, 2);
        assert(line@ =~= "The tuple is: (500, 6.4, 1)"@);
    }
    emit(out, line);
}

/// Taking a tuple apart into three bindings.
fn example2(out: &mut Vec<String>)
    ensures
        final(out).deep_view() == old(out).deep_view() + lines(2),
{
    let (_x, y, _z): (i32, Decimal, &str) = (1, Decimal::new(20, 1), "three");
    let mut line = String::from_str("The value of y is: ");
    y.push_shown(&mut line);
    proof {
        reveal_strlit("The value of y is: ");
        reveal_strlit("The value of y is: 2");
        reveal_with_fuel(spare_zeros, 2);
        reveal_with_fuel(without_last, 2);
        reveal_with_fuel(last_digits, 2);
        assert(line@ =~= "The value of y is: 2"@);
    }
    emit(out, line);
}

/// Reaching the fields by their position.
fn example3(out: &mut Vec<String>)
    ensures
        final(out).deep_view() == old(out).deep_view() + lines(3),
{
    let tup: (i32, i32, i32) = (10, 20, 30);
    let first: i32 = tup.0;
    let second: i32 = tup.1;
    let mut line = String::from_str("The first value is: ");
    push_integer(&mut line, first as i64);
    line.append(", and the second value is: ");
    push_integer(&mut line, second as i64);
    proof {
        reveal_strlit("The first value is: ");
        reveal_strlit(", and the second value is: ");
        reveal_strlit("The first value is: 10, and the second value is: 20");
        reveal_with_fuel(decimal, 2);
        assert(line@ =~= "The first value is: 10, and the second value is: 20"@);
    }
    emit(out, line);
}

/// A tuple has no slices, since its fields may differ in type: there is
/// nothing to run here, and nothing is written.
fn example4(out: &mut Vec<String>)
    ensures
        final(out).deep_view() == old(out).deep_view() + lines(4),
{
    assert(out.deep_view() =~= old(out).deep_view() + lines(4));
}

/// Taking a tuple apart and ignoring a field.
fn example5(out: &mut Vec<String>)
    ensures
        final(out).deep_view() == old(out).deep_view() + lines(5),
{
    let tup: (i32, Decimal) = (500, Decimal::new(64, 1));
    let (x, _) = tup;
    let mut line = String::from_str("The value of x is: ");
    push_integer(&mut line, x as i64);
    proof {
        reveal_strlit("The value of x is: ");
        reveal_strlit("The value of x is: 500");
        reveal_with_fuel(decimal, 3);
        assert(line@ =~= "The value of x is: 500"@);
    }
    emit(out, line);
}

/// A tuple inside a tuple.
fn example6(out: &mut Vec<String>)
    ensures
        final(out).deep_view() == old(out).deep_view() + lines(6),
{
    let tup: (i32, (i32, i32), i32) = (1, (2, 3), 4);
    let inner: i32 = tup.1.1;
    let mut line = String::from_str("The inner value is: ");
    push_integer(&mut line, inner as i64);
    proof {
        reveal_strlit("The inner value is: ");
        reveal_strlit("The inner value is: 3");
        assert(line@ =~= "The inner value is: 3"@);
    }
    emit(out, line);
}

/// A tuple of one field, which a comma tells from a value in brackets.
fn example7(out: &mut Vec<String>)
    ensures
        final(out).deep_view() == old(out).deep_view() + lines(7),
{
    let x: (i32,) = (42,);
    let mut line = String::from_str("The single-element tuple is: (");
    push_integer(&mut line, x.0 as i64);
    line.append(",)");
    proof {
        reveal_strlit("The single-element tuple is: (");
        reveal_strlit(",)");
        reveal_strlit("The single-element tuple is: (42,)");
        reveal_with_fuel(decimal, 2);
        assert(line@ =~= "The single-element tuple is: (42,)"@);
    }
    emit(out, line);
}

/// Taking apart a tuple of a text, a number and a character.
fn example8(out: &mut Vec<String>)
    ensures
        final(out).deep_view() == old(out).deep_view() + lines(8),
{
    let tup: (&str, i32, char) = ("hello", 5, 'c');
    let (a, b, c) = tup;
    let mut line = String::from_str("The values are: ");
    line.append(a);
    line.append(", ");
    push_integer(&mut line, b as i64);
    line.append(", ");
    line.push(c);
    proof {
        reveal_strlit("The values are: ");
        reveal_strlit("hello");
        reveal_strlit(", ");
        reveal_strlit("The values are: hello, 5, c");
        assert(line@ =~= "The values are: hello, 5, c"@);
    }
    emit(out, line);
}

/// Arithmetic on the fields, after the fraction has been cut to a whole number.
fn example9(out: &mut Vec<String>)
    ensures
        final(out).deep_view() == old(out).deep_view() + lines(9),
{
    let tup: (i32, Decimal) = (50, Decimal::new(55, 1));
    proof {
        reveal_with_fuel(without_last, 2);
    }
    let a: i64 = tup.0 as i64 + tup.1.truncated();
    let mut line = String::from_str("The sum of the elements is: ");
    push_integer(&mut line, a);
    proof {
        reveal_strlit("The sum of the elements is: ");
        reveal_strlit("The sum of the elements is: 55");
        reveal_with_fuel(decimal, 2);
        assert(line@ =~= "The sum of the elements is: 55"@);
    }
    emit(out, line);
}

/// The tuple without fields: the unit value.
fn example10(out: &mut Vec<String>)
    ensures
        final(out).deep_view() == old(out).deep_view() + lines(10),
{
    let _empty: () = ();
    let mut line = String::from_str("The unit type is represented by an empty tuple: ");
    line.append("()");
    proof {
        reveal_strlit("The unit type is represented by an empty tuple: ");
        reveal_strlit("()");
        reveal_strlit("The unit type is represented by an empty tuple: ()");
        assert(line@ =~= "The unit type is represented by an empty tuple: ()"@);
    }
    emit(out, line);
}

/// Runs the demonstration with the given number, from 1 to 10; any other
/// number writes nothing.
pub fn run_example(number: u8, out: &mut Vec<String>)
    ensures
        final(out).deep_view() == old(out).deep_view() + lines(number as int),
{
    match number {
        1 => example1(out),
        2 => example2(out),
        3 => example3(out),
        4 => example4(out),
        5 => example5(out),
        6 => example6(out),
        7 => example7(out),
        8 => example8(out),
        9 => example9(out),
        10 => example10(out),
        _ => {
            assert(out.deep_view() =~= old(out).deep_view() + lines(number as int));
        },
    }
}

/// Runs the ten demonstrations in order and returns what they wrote.
pub fn run_examples() -> (written: Vec<String>)
    ensures
        written.deep_view() == output(),
{
    let mut out: Vec<String> = Vec::new();
    example1(&mut out);
    example2(&mut out);
    example3(&mut out);
    example4(&mut out);
    example5(&mut out);
    example6(&mut out);
    example7(&mut out);
    example8(&mut out);
    example9(&mut out);
    example10(&mut out);
    assert(out.deep_view() =~= output());
    out
}

} // verus!
