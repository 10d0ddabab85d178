//! Vectors: growable lists of elements of one type.
use vstd::prelude::*;
use vstd::string::*;
use crate::text::{
    add_item, decimal, emit, joined, number_list, push_integer, push_list, push_numbers,
};

verus! {

/// What the demonstration with the given number writes.
pub open spec fn lines(number: int) -> Seq<Seq<char>> {
    if number == 1 {
        seq!["A new vector: []"@]
    } else if number == 2 {
        seq!["A vector created using the vec! macro: [1, 2, 3, 4, 5]"@]
    } else if number == 3 {
        seq!["Vector after pushing elements: [5, 6, 7, 8]"@]
    } else if number == 4 {
        seq!["The third element is 3"@]
    } else if number == 5 {
        seq!["The third element is 3"@]
    } else if number == 6 {
        seq!["The last element is 5"@, "Vector after popping an element: [1, 2, 3, 4]"@]
    } else if number == 7 {
        seq!["Vector after modifying an element: [1, 2, 3, 4, 5]"@]
    } else if number == 8 {
        seq!["A reference to a"@, "A reference to b"@, "A reference to c"@]
    } else if number == 9 {
        seq!["Vector after modifying each element: [150, 82, 107]"@]
    } else if number == 10 {
        seq!["A 2D vector: [[1, 2, 3], [4, 5, 6], [7, 8, 9]]"@]
    } else {
        Seq::empty()
    }
}

/// What the ten demonstrations write, one after the other.
pub open spec fn output() -> Seq<Seq<char>> {
    lines(1) + lines(2) + lines(3) + lines(4) + lines(5) + lines(6) + lines(7) + lines(8) + lines(9)
        + lines(10)
}

/// A new vector is empty.
fn example1(out: &mut Vec<String>)
    ensures
        final(out).deep_view() == old(out).deep_view() + lines(1),
{
    let v: Vec<i32> = Vec::new();
    let mut line = String::from_str("A new vector: ");
    push_numbers(&mut line, v.as_slice());
    proof {
        reveal_strlit("A new vector: ");
        reveal_strlit("A new vector: []");
        assert(line@ =~= "A new vector: []"@);
    }
    emit(out, line);
}

/// A vector made with its first elements.
fn example2(out: &mut Vec<String>)
    ensures
        final(out).deep_view() == old(out).deep_view() + lines(2),
{
    let v: Vec<i32> = vec![1, 2, 3, 4, 5];
    let mut line = String::from_str("A vector created using the vec! macro: ");
    push_numbers(&mut line, v.as_slice());
    proof {
        reveal_strlit("A vector created using the vec! macro: ");
        reveal_strlit("A vector created using the vec! macro: [1, 2, 3, 4, 5]");
        reveal_with_fuel(joined, 6);
        assert(line@ =~= "A vector created using the vec! macro: [1, 2, 3, 4, 5]"@);
    }
    emit(out, line);
}

/// Elements are added at the end.
fn example3(out: &mut Vec<String>)
    ensures
        final(out).deep_view() == old(out).deep_view() + lines(3),
{
    let mut v: Vec<i32> = Vec::new();
    v.push(5);
    v.push(6);
    v.push(7);
    v.push(8);
    let mut line = String::from_str("Vector after pushing elements: ");
    push_numbers(&mut line, v.as_slice());
    proof {
        reveal_strlit("Vector after pushing elements: ");
        reveal_strlit("Vector after pushing elements: [5, 6, 7, 8]");
        reveal_with_fuel(joined, 5);
        assert(line@ =~= "Vector after pushing elements: [5, 6, 7, 8]"@);
    }
    emit(out, line);
}

/// Reading an element by its index.
fn example4(out: &mut Vec<String>)
    ensures
        final(out).deep_view() == old(out).deep_view() + lines(4),
{
    let v: Vec<i32> = vec![1, 2, 3, 4, 5];
    let third: &i32 = &v[2];
    let mut line = String::from_str("The third element is ");
    push_integer(&mut line, *third as i64);
    proof {
        reveal_strlit("The third element is ");
        reveal_strlit("The third element is 3");
        assert(line@ =~= "The third element is 3"@);
    }
    emit(out, line);
}

/// Asking for an element that may not be there.
fn example5(out: &mut Vec<String>)
    ensures
        final(out).deep_view() == old(out).deep_view() + lines(5),
{
    let v: Vec<i32> = vec![1, 2, 3, 4, 5];
    match v.as_slice().get(2) {
        Some(third) => {
            let mut line = String::from_str("The third element is ");
            push_integer(&mut line, *third as i64);
            proof {
                reveal_strlit("The third element is ");
                reveal_strlit("The third element is 3");
                assert(line@ =~= "The third element is 3"@);
            }
            emit(out, line);
        },
        None => {
            emit(out, String::from_str("There is no third element."));
        },
    }
}

/// Taking the last element off.
fn example6(out: &mut Vec<String>)
    ensures
        final(out).deep_view() == old(out).deep_view() + lines(6),
{
    let mut v: Vec<i32> = vec![1, 2, 3, 4, 5];
    if let Some(last) = v.pop() {
        let mut line = String::from_str("The last element is ");
        push_integer(&mut line, last as i64);
        proof {
            reveal_strlit("The last element is ");
            reveal_strlit("The last element is 5");
            assert(line@ =~= "The last element is 5"@);
        }
        emit(out, line);
    }
    let mut line = String::from_str("Vector after popping an element: ");
    push_numbers(&mut line, v.as_slice());
    proof {
        reveal_strlit("Vector after popping an element: ");
        reveal_strlit("Vector after popping an element: [1, 2, 3, 4]");
        reveal_with_fuel(joined, 5);
        assert(line@ =~= "Vector after popping an element: [1, 2, 3, 4]"@);
    }
    emit(out, line);
    assert(out.deep_view() =~= old(out).deep_view() + lines(6));
}

/// Replacing an element by the sum of two others.
fn example7(out: &mut Vec<String>)
    ensures
        final(out).deep_view() == old(out).deep_view() + lines(7),
{
    let mut v: Vec<i32> = vec![1, 2, 3, 4, 5];
    v[2] = v[1] + v[0];
    let mut line = String::from_str("Vector after modifying an element: ");
    push_numbers(&mut line, v.as_slice());
    proof {
        reveal_strlit("Vector after modifying an element: ");
        reveal_strlit("Vector after modifying an element: [1, 2, 3, 4, 5]");
        reveal_with_fuel(joined, 6);
        assert(line@ =~= "Vector after modifying an element: [1, 2, 3, 4, 5]"@);
    }
    emit(out, line);
}

/// Visiting the elements by reference.
fn example8(out: &mut Vec<String>)
    ensures
        final(out).deep_view() == old(out).deep_view() + lines(8),
{
    let v: Vec<char> = vec!['a', 'b', 'c'];
    for i in it: &v
        invariant
            out.deep_view() == old(out).deep_view() + Seq::new(
                it.index() as nat,
                |j: int| "A reference to "@.push(v[j]),
            ),
    {
        let mut line = String::from_str("A reference to ");
        line.push(*i);
        emit(out, line);
        assert(out.deep_view() =~= old(out).deep_view() + Seq::new(
            (it.index() + 1) as nat,
            |j: int| "A reference to "@.push(v[j]),
        ));
    }
    proof {
        reveal_strlit("A reference to ");
        reveal_strlit("A reference to a");
        reveal_strlit("A reference to b");
        reveal_strlit("A reference to c");
        let written = Seq::new(3, |j: int| "A reference to "@.push(v[j]));
        assert(written[0] =~= "A reference to a"@);
        assert(written[1] =~= "A reference to b"@);
        assert(written[2] =~= "A reference to c"@);
        assert(written =~= lines(8));
    }
}

/// Changing each element in place.
fn example9(out: &mut Vec<String>)
    ensures
        final(out).deep_view() == old(out).deep_view() + lines(9),
{
    let mut v: Vec<i32> = vec![100, 32, 57];
    let ghost start = v@;
    let mut k: usize = 0;
    while k < v.len()
        invariant
            k <= v.len(),
            v.len() == start.len(),
            start == seq![100i32, 32i32, 57i32],
            forall|j: int| 0 <= j < k ==> v[j] == start[j] + 50,
            forall|j: int| k <= j < v.len() ==> v[j] == start[j],
        decreases v.len() - k,
    {
        v[k] = v[k] + 50;
        k += 1;
    }
    let mut line = String::from_str("Vector after modifying each element: ");
    push_numbers(&mut line, v.as_slice());
    proof {
        reveal_strlit("Vector after modifying each element: ");
        reveal_strlit("Vector after modifying each element: [150, 82, 107]");
        reveal_with_fuel(joined, 4);
        reveal_with_fuel(decimal, 3);
        assert(line@ =~= "Vector after modifying each element: [150, 82, 107]"@);
    }
    emit(out, line);
}

/// A vector of vectors.
fn example10(out: &mut Vec<String>)
    ensures
        final(out).deep_view() == old(out).deep_view() + lines(10),
{
    let row: Vec<Vec<i32>> = vec![vec![1, 2, 3], vec![4, 5, 6], vec![7, 8, 9]];
    let mut rows: Vec<String> = Vec::new();
    for inner in it: &row
        invariant
            rows.deep_view() == Seq::new(it.index() as nat, |j: int| number_list(row[j]@)),
    {
        let mut shown = String::new();
        push_numbers(&mut shown, inner.as_slice());
        add_item(&mut rows, shown);
        assert(rows.deep_view() =~= Seq::new(
            (it.index() + 1) as nat,
            |j: int| number_list(row[j]@),
        ));
    }
    let mut line = String::from_str("A 2D vector: ");
    push_list(&mut line, &rows);
    proof {
        reveal_strlit("A 2D vector: ");
        reveal_strlit("A 2D vector: [[1, 2, 3], [4, 5, 6], [7, 8, 9]]");
        reveal_with_fuel(joined, 4);
        assert(line@ =~= "A 2D vector: [[1, 2, 3], [4, 5, 6], [7, 8, 9]]"@);
    }
    emit(out, line);
}

/// Runs the demonstration with the given number, from 1 to 10; any other
/// number writes nothing.
pub fn run_example(number: u8, out: &mut Vec<String>)
    ensures
        final(out).deep_view() == old(out).deep_view() + lines(number as int),
{
    match number {
        1 => example1(out),
        2 => example2(out),
        3 => example3(out),
        4 => example4(out),
        5 => example5(out),
        6 => example6(out),
        7 => example7(out),
        8 => example8(out),
        9 => example9(out),
        10 => example10(out),
        _ => {
            assert(out.deep_view() =~= old(out).deep_view() + lines(number as int));
        },
    }
}

/// Runs the ten demonstrations in order and returns what they wrote.
pub fn run_examples() -> (written: Vec<String>)
    ensures
        written.deep_view() == output(),
{
    let mut out: Vec<String> = Vec::new();
    example1(&mut out);
    example2(&mut out);
    example3(&mut out);
    example4(&mut out);
    example5(&mut out);
    example6(&mut out);
    example7(&mut out);
    example8(&mut out);
    example9(&mut out);
    example10(&mut out);
    assert(out.deep_view() =~= output());
    out
}

} // verus!
