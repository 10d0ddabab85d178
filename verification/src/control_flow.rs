//! Control flow: branches, matches and the three kinds of loop.
use vstd::prelude::*;
use vstd::string::*;
use crate::text::{decimal, emit, integer, push_integer};

verus! {

/// What the demonstration with the given number writes.
pub open spec fn lines(number: int) -> Seq<Seq<char>> {
    if number == 1 {
        seq!["condition was false"@]
    } else if number == 2 {
        seq!["The value of number is: 5"@]
    } else if number == 3 {
        seq!["The result is 20"@]
    } else if number == 4 {
        seq!["3!"@, "2!"@, "1!"@, "LIFTOFF!!!"@]
    } else if number == 5 {
        seq![
            "the value is: 10"@,
            "the value is: 20"@,
            "the value is: 30"@,
            "the value is: 40"@,
            "the value is: 50"@,
        ]
    } else if number == 6 {
        seq!["3!"@, "2!"@, "1!"@, "LIFTOFF!!!"@]
    } else if number == 7 {
        seq![
            "count = 0"@,
            "remaining = 10"@,
            "remaining = 9"@,
            "count = 1"@,
            "remaining = 10"@,
            "remaining = 9"@,
            "count = 2"@,
            "remaining = 10"@,
            "End count = 2"@,
        ]
    } else if number == 8 {
        seq!["It's something else!"@]
    } else if number == 9 {
        seq!["not three"@]
    } else if number == 10 {
        seq!["one or two"@]
    } else {
        Seq::empty()
    }
}

/// What the ten demonstrations write, one after the other.
pub open spec fn output() -> Seq<Seq<char>> {
    lines(1) + lines(2) + lines(3) + lines(4) + lines(5) + lines(6) + lines(7) + lines(8) + lines(9)
        + lines(10)
}

/// A branch on a condition.
fn example1(out: &mut Vec<String>)
    ensures
        final(out).deep_view() == old(out).deep_view() + lines(1),
{
    let number: i32 = 7;
    if number < 5 {
        emit(out, String::from_str("condition was true"));
    } else {
        emit(out, String::from_str("condition was false"));
    }
}

/// A branch that gives a value.
fn example2(out: &mut Vec<String>)
    ensures
        final(out).deep_view() == old(out).deep_view() + lines(2),
{
    let condition: bool = true;
    let number: i32 = if condition {
        5
    } else {
        6
    };
    let mut line = String::from_str("The value of number is: ");
    push_integer(&mut line, number as i64);
    proof {
        reveal_strlit("The value of number is: ");
        reveal_strlit("The value of number is: 5");
        assert(line@ =~= "The value of number is: 5"@);
    }
    emit(out, line);
}

/// A loop that is left when a count is reached, with a value taken from it.
fn example3(out: &mut Vec<String>)
    ensures
        final(out).deep_view() == old(out).deep_view() + lines(3),
{
    let mut counter: i32 = 0;
    let mut result: i32 = 0;
    loop
        invariant_except_break
            0 <= counter < 10,
        ensures
            result == 20,
        decreases 10 - counter,
    {
        counter += 1;
        if counter == 10 {
            result = counter * 2;
            break;
        }
    }
    let mut line = String::from_str("The result is ");
    push_integer(&mut line, result as i64);
    proof {
        reveal_strlit("The result is ");
        reveal_strlit("The result is 20");
        reveal_with_fuel(decimal, 2);
        assert(line@ =~= "The result is 20"@);
    }
    emit(out, line);
}

/// The lines of a countdown from 3, as far as it has come.
spec fn countdown(steps: int) -> Seq<Seq<char>> {
    Seq::new(steps as nat, |j: int| integer(3 - j) + seq!['!'])
}

/// A countdown of three steps and the lift-off are the lines of the fourth
/// demonstration, and of the sixth.
proof fn lemma_countdown()
    ensures
        countdown(3) + seq!["LIFTOFF!!!"@] == lines(4),
        lines(6) == lines(4),
{
    reveal_strlit("3!");
    reveal_strlit("2!");
    reveal_strlit("1!");
    assert(countdown(3)[0] =~= "3!"@);
    assert(countdown(3)[1] =~= "2!"@);
    assert(countdown(3)[2] =~= "1!"@);
    assert(countdown(3) + seq!["LIFTOFF!!!"@] =~= lines(4));
}

/// A loop that runs while a condition holds.
fn example4(out: &mut Vec<String>)
    ensures
        final(out).deep_view() == old(out).deep_view() + lines(4),
{
    let mut number: i32 = 3;
    while number != 0
        invariant
            0 <= number <= 3,
            out.deep_view() == old(out).deep_view() + countdown(3 - number),
        decreases number,
    {
        let mut line = String::new();
        push_integer(&mut line, number as i64);
        line.push('!');
        assert(line@ =~= integer(number as int) + seq!['!']);
        emit(out, line);
        number -= 1;
        assert(out.deep_view() =~= old(out).deep_view() + countdown(3 - number));
    }
    emit(out, String::from_str("LIFTOFF!!!"));
    proof {
        lemma_countdown();
        assert(out.deep_view() =~= old(out).deep_view() + (countdown(3) + seq!["LIFTOFF!!!"@]));
    }
}

/// A loop over the elements of an array.
fn example5(out: &mut Vec<String>)
    ensures
        final(out).deep_view() == old(out).deep_view() + lines(5),
{
    let a: [i32; 5] = [10, 20, 30, 40, 50];
    for element in it: a.iter()
        invariant
            out.deep_view() == old(out).deep_view() + Seq::new(
                it.index() as nat,
                |j: int| "the value is: "@ + integer(a[j] as int),
            ),
    {
        let mut line = String::from_str("the value is: ");
        push_integer(&mut line, *element as i64);
        emit(out, line);
        assert(out.deep_view() =~= old(out).deep_view() + Seq::new(
            (it.index() + 1) as nat,
            |j: int| "the value is: "@ + integer(a[j] as int),
        ));
    }
    proof {
        reveal_strlit("the value is: ");
        reveal_strlit("the value is: 10");
        reveal_strlit("the value is: 20");
        reveal_strlit("the value is: 30");
        reveal_strlit("the value is: 40");
        reveal_strlit("the value is: 50");
        reveal_with_fuel(decimal, 2);
        let written = Seq::new(5, |j: int| "the value is: "@ + integer(a[j] as int));
        assert(written[0] =~= "the value is: 10"@);
        assert(written[1] =~= "the value is: 20"@);
        assert(written[2] =~= "the value is: 30"@);
        assert(written[3] =~= "the value is: 40"@);
        assert(written[4] =~= "the value is: 50"@);
        assert(written =~= lines(5));
    }
}

/// A loop over a range, taken backwards.
fn example6(out: &mut Vec<String>)
    ensures
        final(out).deep_view() == old(out).deep_view() + lines(6),
{
    let numbers: Vec<i32> = vec![1, 2, 3];
    for number in it: numbers.into_iter().rev()
        invariant
            it.seq() == seq![3i32, 2i32, 1i32],
            out.deep_view() == old(out).deep_view() + countdown(it.index() as int),
    {
        let mut line = String::new();
        push_integer(&mut line, number as i64);
        line.push('!');
        assert(line@ =~= integer(3 - it.index()) + seq!['!']);
        emit(out, line);
        assert(out.deep_view() =~= old(out).deep_view() + countdown(it.index() + 1));
    }
    emit(out, String::from_str("LIFTOFF!!!"));
    proof {
        lemma_countdown();
        assert(out.deep_view() =~= old(out).deep_view() + (countdown(3) + seq!["LIFTOFF!!!"@]));
    }
}

/// What the two loops of the seventh demonstration write while they count.
proof fn lemma_counting(count: int, remaining: int)
    requires
        0 <= count <= 2,
        9 <= remaining <= 10,
    ensures
        "count = "@ + integer(count) == lines(7)[3 * count],
        count < 2 || remaining == 10 ==> "remaining = "@ + integer(remaining) == lines(7)[3 * count
            + 11 - remaining],
        "End count = "@ + integer(2) == lines(7)[8],
{
    reveal_strlit("count = ");
    reveal_strlit("remaining = ");
    reveal_strlit("End count = ");
    reveal_strlit("count = 0");
    reveal_strlit("count = 1");
    reveal_strlit("count = 2");
    reveal_strlit("remaining = 10");
    reveal_strlit("remaining = 9");
    reveal_strlit("End count = 2");
    reveal_with_fuel(decimal, 2);
    assert("count = "@ + integer(count) =~= lines(7)[3 * count]);
    if count < 2 || remaining == 10 {
        assert("remaining = "@ + integer(remaining) =~= lines(7)[3 * count + 11 - remaining]);
    }
    assert("End count = "@ + integer(2) =~= lines(7)[8]);
}

/// A loop inside a loop, and a jump out of both.
fn example7(out: &mut Vec<String>)
    ensures
        final(out).deep_view() == old(out).deep_view() + lines(7),
{
    let mut count: i32 = 0;
    'counting_up: loop
        invariant_except_break
            0 <= count <= 2,
            out.deep_view() == old(out).deep_view() + lines(7).take(3 * count),
        ensures
            count == 2,
            out.deep_view() == old(out).deep_view() + lines(7).take(8),
        decreases 2 - count,
    {
        let mut line = String::from_str("count = ");
        push_integer(&mut line, count as i64);
        emit(out, line);
        proof {
            lemma_counting(count as int, 10);
            assert(out.deep_view() =~= old(out).deep_view() + lines(7).take(3 * count + 1));
        }
        let mut remaining: i32 = 10;
        loop
            invariant_except_break
                0 <= count <= 2,
                9 <= remaining <= 10,
                remaining == 9 ==> count < 2,
                out.deep_view() == old(out).deep_view() + lines(7).take(3 * count + 11 - remaining),
            ensures
                0 <= count < 2,
                out.deep_view() == old(out).deep_view() + lines(7).take(3 * count + 3),
            decreases remaining,
        {
            let mut line = String::from_str("remaining = ");
            push_integer(&mut line, remaining as i64);
            emit(out, line);
            proof {
                lemma_counting(count as int, remaining as int);
                assert(out.deep_view() =~= old(out).deep_view() + lines(7).take(
                    3 * count + 12 - remaining,
                ));
            }
            if remaining == 9 {
                break;
            }
            if count == 2 {
                break 'counting_up;
            }
            remaining -= 1;
        }
        count += 1;
    }
    let mut line = String::from_str("End count = ");
    push_integer(&mut line, count as i64);
    emit(out, line);
    proof {
        lemma_counting(2, 10);
        assert(out.deep_view() =~= old(out).deep_view() + lines(7));
    }
}

/// A match on a number, with an arm for all the rest.
fn example8(out: &mut Vec<String>)
    ensures
        final(out).deep_view() == old(out).deep_view() + lines(8),
{
    let number: i32 = 6;
    match number {
        1 => emit(out, String::from_str("It's one!")),
        2 => emit(out, String::from_str("It's two!")),
        3 => emit(out, String::from_str("It's three!")),
        _ => emit(out, String::from_str("It's something else!")),
    }
}

/// A test for one pattern alone.
fn example9(out: &mut Vec<String>)
    ensures
        final(out).deep_view() == old(out).deep_view() + lines(9),
{
    let some_u8_value: Option<u8> = Some(0u8);
    if let Some(3) = some_u8_value {
        emit(out, String::from_str("three"));
    } else {
        emit(out, String::from_str("not three"));
    }
}

/// An arm for either of two values.
fn example10(out: &mut Vec<String>)
    ensures
        final(out).deep_view() == old(out).deep_view() + lines(10),
{
    let x: i32 = 1;
    match x {
        1 | 2 => emit(out, String::from_str("one or two")),
        3 => emit(out, String::from_str("three")),
        _ => emit(out, String::from_str("anything")),
    }
}

/// Runs the demonstration with the given number, from 1 to 10; any other
/// number writes nothing.
pub fn run_example(number: u8, out: &mut Vec<String>)
    ensures
        final(out).deep_view() == old(out).deep_view() + lines(number as int),
{
    match number {
        1 => example1(out),
        2 => example2(out),
        3 => example3(out),
        4 => example4(out),
        5 => example5(out),
        6 => example6(out),
        7 => example7(out),
        8 => example8(out),
        9 => example9(out),
        10 => example10(out),
        _ => {
            assert(out.deep_view() =~= old(out).deep_view() + lines(number as int));
        },
    }
}

/// Runs the ten demonstrations in order and returns what they wrote.
pub fn run_examples() -> (written: Vec<String>)
    ensures
        written.deep_view() == output(),
{
    let mut out: Vec<String> = Vec::new();
    example1(&mut out);
    example2(&mut out);
    example3(&mut out);
    example4(&mut out);
    example5(&mut out);
    example6(&mut out);
    example7(&mut out);
    example8(&mut out);
    example9(&mut out);
    example10(&mut out);
    assert(out.deep_view() =~= output());
    out
}

} // verus!
