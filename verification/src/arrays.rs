//! Arrays: fixed-size collections of elements of one type.
use vstd::prelude::*;
use vstd::string::*;
use crate::text::{
    add_item, decimal, emit, integer, joined, number_list, push_integer, push_list, push_numbers,
    push_unsigned,
};

verus! {

/// What the demonstration with the given number writes.
pub open spec fn lines(number: int) -> Seq<Seq<char>> {
    if number == 1 {
        seq!["The array is: [1, 2, 3, 4, 5]"@]
    } else if number == 2 {
        seq!["The array with explicit type and size is: [1, 2, 3, 4, 5]"@]
    } else if number == 3 {
        seq!["The array with same elements is: [3, 3, 3, 3, 3]"@]
    } else if number == 4 {
        seq!["The first element is: 1"@]
    } else if number == 5 {
        seq!["The length of the array is: 5"@]
    } else if number == 6 {
        seq!["The modified array is: [1, 2, 99, 4, 5]"@]
    } else if number == 7 {
        seq![
            "The number is: 1"@,
            "The number is: 2"@,
            "The number is: 3"@,
            "The number is: 4"@,
            "The number is: 5"@,
        ]
    } else if number == 8 {
        seq!["The 2D array is: [[1, 2, 3], [4, 5, 6]]"@]
    } else if number == 9 {
        seq!["The slice of the array is: [2, 3, 4]"@]
    } else if number == 10 {
        seq!["There is no element at this index."@]
    } else {
        Seq::empty()
    }
}

/// What the ten demonstrations write, one after the other.
pub open spec fn output() -> Seq<Seq<char>> {
    lines(1) + lines(2) + lines(3) + lines(4) + lines(5) + lines(6) + lines(7) + lines(8) + lines(9)
        + lines(10)
}

/// An array written with square brackets.
fn example1(out: &mut Vec<String>)
    ensures
        final(out).deep_view() == old(out).deep_view() + lines(1),
{
    let nums: [i32; 5] = [1, 2, 3, 4, 5];
    let mut line = String::from_str("The array is: ");
    push_numbers(&mut line, nums.as_slice());
    proof {
        reveal_strlit("The array is: ");
        reveal_strlit("The array is: [1, 2, 3, 4, 5]");
        reveal_with_fuel(joined, 6);
        assert(line@ =~= "The array is: [1, 2, 3, 4, 5]"@);
    }
    emit(out, line);
}

/// An array whose element type and length are written out.
fn example2(out: &mut Vec<String>)
    ensures
        final(out).deep_view() == old(out).deep_view() + lines(2),
{
    let nums: [i32; 5] = [1, 2, 3, 4, 5];
    let mut line = String::from_str("The array with explicit type and size is: ");
    push_numbers(&mut line, nums.as_slice());
    proof {
        reveal_strlit("The array with explicit type and size is: ");
        reveal_strlit("The array with explicit type and size is: [1, 2, 3, 4, 5]");
        reveal_with_fuel(joined, 6);
        assert(line@ =~= "The array with explicit type and size is: [1, 2, 3, 4, 5]"@);
    }
    emit(out, line);
}

/// An array that repeats one value.
fn example3(out: &mut Vec<String>)
    ensures
        final(out).deep_view() == old(out).deep_view() + lines(3),
{
    let nums: [i32; 5] = [3; 5];
    let mut line = String::from_str("The array with same elements is: ");
    push_numbers(&mut line, nums.as_slice());
    proof {
        reveal_strlit("The array with same elements is: ");
        reveal_strlit("The array with same elements is: [3, 3, 3, 3, 3]");
        reveal_with_fuel(joined, 6);
        assert(line@ =~= "The array with same elements is: [3, 3, 3, 3, 3]"@);
    }
    emit(out, line);
}

/// Reading an element by its index.
fn example4(out: &mut Vec<String>)
    ensures
        final(out).deep_view() == old(out).deep_view() + lines(4),
{
    let nums: [i32; 5] = [1, 2, 3, 4, 5];
    let first: i32 = nums[0];
    let mut line = String::from_str("The first element is: ");
    push_integer(&mut line, first as i64);
    proof {
        reveal_strlit("The first element is: ");
        reveal_strlit("The first element is: 1");
        assert(line@ =~= "The first element is: 1"@);
    }
    emit(out, line);
}

/// The number of elements.
fn example5(out: &mut Vec<String>)
    ensures
        final(out).deep_view() == old(out).deep_view() + lines(5),
{
    let nums: [i32; 5] = [1, 2, 3, 4, 5];
    let len: usize = nums.len();
    let mut line = String::from_str("The length of the array is: ");
    push_unsigned(&mut line, len as u64);
    proof {
        reveal_strlit("The length of the array is: ");
        reveal_strlit("The length of the array is: 5");
        assert(line@ =~= "The length of the array is: 5"@);
    }
    emit(out, line);
}

/// Replacing one element.
fn example6(out: &mut Vec<String>)
    ensures
        final(out).deep_view() == old(out).deep_view() + lines(6),
{
    let mut nums: [i32; 5] = [1, 2, 3, 4, 5];
    nums[2] = 99;
    let mut line = String::from_str("The modified array is: ");
    push_numbers(&mut line, nums.as_slice());
    proof {
        reveal_strlit("The modified array is: ");
        reveal_strlit("The modified array is: [1, 2, 99, 4, 5]");
        reveal_with_fuel(joined, 6);
        reveal_with_fuel(decimal, 2);
        assert(line@ =~= "The modified array is: [1, 2, 99, 4, 5]"@);
    }
    emit(out, line);
}

/// Visiting the elements in order.
fn example7(out: &mut Vec<String>)
    ensures
        final(out).deep_view() == old(out).deep_view() + lines(7),
{
    let nums: [i32; 5] = [1, 2, 3, 4, 5];
    for num in it: nums.iter()
        invariant
            out.deep_view() == old(out).deep_view() + Seq::new(
                it.index() as nat,
                |j: int| "The number is: "@ + integer(nums[j] as int),
            ),
    {
        let mut line = String::from_str("The number is: ");
        push_integer(&mut line, *num as i64);
        emit(out, line);
        assert(out.deep_view() =~= old(out).deep_view() + Seq::new(
            (it.index() + 1) as nat,
            |j: int| "The number is: "@ + integer(nums[j] as int),
        ));
    }
    proof {
        reveal_strlit("The number is: ");
        reveal_strlit("The number is: 1");
        reveal_strlit("The number is: 2");
        reveal_strlit("The number is: 3");
        reveal_strlit("The number is: 4");
        reveal_strlit("The number is: 5");
        let written = Seq::new(5, |j: int| "The number is: "@ + integer(nums[j] as int));
        assert(written[0] =~= "The number is: 1"@);
        assert(written[1] =~= "The number is: 2"@);
        assert(written[2] =~= "The number is: 3"@);
        assert(written[3] =~= "The number is: 4"@);
        assert(written[4] =~= "The number is: 5"@);
        assert(written =~= lines(7));
    }
}

/// An array of arrays.
fn example8(out: &mut Vec<String>)
    ensures
        final(out).deep_view() == old(out).deep_view() + lines(8),
{
    let nums: [[i32; 3]; 2] = [[1, 2, 3], [4, 5, 6]];
    let mut rows: Vec<String> = Vec::new();
    for row in it: nums.iter()
        invariant
            rows.deep_view() == Seq::new(
                it.index() as nat,
                |j: int| number_list(nums[j]@),
            ),
    {
        let mut shown = String::new();
        push_numbers(&mut shown, row.as_slice());
        add_item(&mut rows, shown);
        assert(rows.deep_view() =~= Seq::new(
            (it.index() + 1) as nat,
            |j: int| number_list(nums[j]@),
        ));
    }
    let mut line = String::from_str("The 2D array is: ");
    push_list(&mut line, &rows);
    proof {
        reveal_strlit("The 2D array is: ");
        reveal_strlit("The 2D array is: [[1, 2, 3], [4, 5, 6]]");
        reveal_with_fuel(joined, 4);
        assert(line@ =~= "The 2D array is: [[1, 2, 3], [4, 5, 6]]"@);
    }
    emit(out, line);
}

/// A slice of an array.
fn example9(out: &mut Vec<String>)
    ensures
        final(out).deep_view() == old(out).deep_view() + lines(9),
{
    let nums: [i32; 5] = [1, 2, 3, 4, 5];
    let slice: &[i32] = &nums[1..4];
    let mut line = String::from_str("The slice of the array is: ");
    push_numbers(&mut line, slice);
    proof {
        reveal_strlit("The slice of the array is: ");
        reveal_strlit("The slice of the array is: [2, 3, 4]");
        reveal_with_fuel(joined, 6);
        assert(line@ =~= "The slice of the array is: [2, 3, 4]"@);
    }
    emit(out, line);
}

/// Asking for an element that may not be there.
fn example10(out: &mut Vec<String>)
    ensures
        final(out).deep_view() == old(out).deep_view() + lines(10),
{
    let nums: [i32; 5] = [1, 2, 3, 4, 5];
    match nums.as_slice().get(5) {
        Some(x) => {
            let mut line = String::from_str("The element is: ");
            push_integer(&mut line, *x as i64);
            emit(out, line);
        },
        None => {
            emit(out, String::from_str("There is no element at this index."));
        },
    }
}

/// Runs the demonstration with the given number, from 1 to 10; any other
/// number writes nothing.
pub fn run_example(number: u8, out: &mut Vec<String>)
    ensures
        final(out).deep_view() == old(out).deep_view() + lines(number as int),
{
    match number {
        1 => example1(out),
        2 => example2(out),
        3 => example3(out),
        4 => example4(out),
        5 => example5(out),
        6 => example6(out),
        7 => example7(out),
        8 => example8(out),
        9 => example9(out),
        10 => example10(out),
        _ => {
            assert(out.deep_view() =~= old(out).deep_view() + lines(number as int));
        },
    }
}

/// Runs the ten demonstrations in order and returns what they wrote.
pub fn run_examples() -> (written: Vec<String>)
    ensures
        written.deep_view() == output(),
{
    let mut out: Vec<String> = Vec::new();
    example1(&mut out);
    example2(&mut out);
    example3(&mut out);
    example4(&mut out);
    example5(&mut out);
    example6(&mut out);
    example7(&mut out);
    example8(&mut out);
    example9(&mut out);
    example10(&mut out);
    assert(out.deep_view() =~= output());
    out
}

} // verus!
