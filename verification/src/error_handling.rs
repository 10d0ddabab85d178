//! Errors: results that may be failures, values that may be absent, and what
//! to do about either.
use vstd::prelude::*;
use vstd::string::*;
use vstd::utf8::encode_utf8;
use crate::text::{decimal, emit, push_integer, push_unsigned};

verus! {

/// What came of reading the file: its contents, or the words of the failure.
pub open spec fn outcome(file: Result<String, String>) -> Result<Seq<char>, Seq<char>> {
    match file {
        Ok(content) => Ok(content@),
        Err(failure) => Err(failure@),
    }
}

/// What the demonstration with the given number writes. The fifth reports on
/// a file that was read for it, and writes what came of that.
pub open spec fn lines(number: int, file: Result<Seq<char>, Seq<char>>) -> Seq<Seq<char>> {
    if number == 1 {
        seq!["Code: 200"@]
    } else if number == 2 {
        seq!["Error: Error occurred"@]
    } else if number == 3 {
        seq!["Some option: 5"@, "Absent option: 0"@]
    } else if number == 4 {
        seq!["Quotient: 5"@]
    } else if number == 5 {
        match file {
            Ok(content) => seq!["File content: "@ + content],
            Err(failure) => seq!["Error reading file: "@ + failure],
        }
    } else if number == 6 {
        seq!["Error: An error occurred"@]
    } else if number == 7 {
        seq!["Value squared: 100"@]
    } else if number == 8 {
        seq!["Value at index 2: 3"@]
    } else if number == 9 {
        seq!["Long fruit: banana"@, "Long fruit: cherry"@]
    } else if number == 10 {
        seq!["Access granted."@]
    } else {
        Seq::empty()
    }
}

/// What the ten demonstrations write, one after the other.
pub open spec fn output(file: Result<Seq<char>, Seq<char>>) -> Seq<Seq<char>> {
    lines(1, file) + lines(2, file) + lines(3, file) + lines(4, file) + lines(5, file) + lines(
        6,
        file,
    ) + lines(7, file) + lines(8, file) + lines(9, file) + lines(10, file)
}

/// The file that the fifth demonstration reports on.
pub const FILE_PATH: &'static str = "non_existent_file.txt";

/// The quotient of two integers, rounded towards zero. (In specifications
/// `/` rounds so that the remainder is not negative: the two agree where the
/// numerator is not negative.)
pub open spec fn quotient(numerator: int, denominator: int) -> int {
    if numerator >= 0 {
        numerator / denominator
    } else {
        -((-numerator) / denominator)
    }
}

/// A quotient is no further from zero than what was divided.
proof fn lemma_quotient_no_larger(size: int, denominator: int)
    requires
        size >= 0,
        denominator != 0,
    ensures
        -size <= size / denominator <= size,
{
    if denominator > 0 {
        vstd::arithmetic::div_mod::lemma_div_pos_is_pos(size, denominator);
        vstd::arithmetic::div_mod::lemma_div_is_ordered_by_denominator(size, 1, denominator);
    } else {
        vstd::arithmetic::div_mod::lemma_fundamental_div_mod(size, denominator);
        assert(-size <= size / denominator <= size) by (nonlinear_arith)
            requires
                size >= 0,
                denominator < 0,
                size == denominator * (size / denominator) + size % denominator,
                0 <= size % denominator < -denominator,
        ;
    }
}

/// Divides, unless the denominator is zero.
pub fn divide(numerator: i32, denominator: i32) -> (result: Result<i64, &'static str>)
    ensures
        denominator == 0 ==> result == Err::<i64, &'static str>("Cannot divide by zero."),
        denominator != 0 ==> result is Ok && result->Ok_0 == quotient(
            numerator as int,
            denominator as int,
        ),
{
    if denominator == 0 {
        Err("Cannot divide by zero.")
    } else {
        proof {
            let size: int = if numerator >= 0 {
                numerator as int
            } else {
                -(numerator as int)
            };
            lemma_quotient_no_larger(size, denominator as int);
        }
        Ok(numerator as i64 / denominator as i64)
    }
}

/// A computation that fails.
pub fn some_computation() -> (result: Result<(), &'static str>)
    ensures
        result == Err::<(), &'static str>("An error occurred"),
{
    Err("An error occurred")
}

/// Accepts a password of eight bytes or more.
pub fn check_password(password: &str) -> (result: Result<(), &'static str>)
    ensures
        encode_utf8(password@).len() as usize >= 8 ==> result == Ok::<(), &'static str>(()),
        (encode_utf8(password@).len() as usize) < 8 ==> result == Err::<(), &'static str>(
            "Password too short!",
        ),
{
    if password.len() >= 8 {
        Ok(())
    } else {
        Err("Password too short!")
    }
}

/// Writes what came of reading the file.
pub fn report_file(file: &Result<String, String>, out: &mut Vec<String>)
    ensures
        final(out).deep_view() == old(out).deep_view() + lines(5, outcome(*file)),
{
    match file {
        Ok(content) => {
            let mut line = String::from_str("File content: ");
            line.append(content.as_str());
            emit(out, line);
        },
        Err(e) => {
            let mut line = String::from_str("Error reading file: ");
            line.append(e.as_str());
            emit(out, line);
        },
    }
}

/// A result that is a success.
fn example1(out: &mut Vec<String>)
    ensures
        final(out).deep_view() == old(out).deep_view() + seq!["Code: 200"@],
{
    let result: Result<i32, &str> = Ok(200);
    match result {
        Ok(code) => {
            let mut line = String::from_str("Code: ");
            push_integer(&mut line, code as i64);
            proof {
                reveal_strlit("Code: ");
                reveal_strlit("Code: 200");
                reveal_with_fuel(decimal, 3);
                assert(line@ =~= "Code: 200"@);
            }
            emit(out, line);
        },
        Err(error) => {
            let mut line = String::from_str("Error: ");
            line.append(error);
            emit(out, line);
        },
    }
}

/// A result that is a failure.
fn example2(out: &mut Vec<String>)
    ensures
        final(out).deep_view() == old(out).deep_view() + seq!["Error: Error occurred"@],
{
    let result: Result<i32, &str> = Err("Error occurred");
    match result {
        Ok(code) => {
            let mut line = String::from_str("Code: ");
            push_integer(&mut line, code as i64);
            emit(out, line);
        },
        Err(error) => {
            let mut line = String::from_str("Error: ");
            line.append(error);
            proof {
                reveal_strlit("Error occurred");
                reveal_strlit("Error: ");
                reveal_strlit("Error: Error occurred");
                assert(line@ =~= "Error: Error occurred"@);
            }
            emit(out, line);
        },
    }
}

/// A value that may be absent, and what to take in its place.
fn example3(out: &mut Vec<String>)
    ensures
        final(out).deep_view() == old(out).deep_view() + seq![
            "Some option: 5"@,
            "Absent option: 0"@,
        ],
{
    let some_option: Option<i32> = Some(5);
    let absent_option: Option<i32> = None;
    let mut line = String::from_str("Some option: ");
    push_integer(&mut line, some_option.unwrap_or(0) as i64);
    proof {
        reveal_strlit("Some option: ");
        reveal_strlit("Some option: 5");
        assert(line@ =~= "Some option: 5"@);
    }
    emit(out, line);
    let mut line = String::from_str("Absent option: ");
    push_integer(&mut line, absent_option.unwrap_or(0) as i64);
    proof {
        reveal_strlit("Absent option: ");
        reveal_strlit("Absent option: 0");
        assert(line@ =~= "Absent option: 0"@);
    }
    emit(out, line);
    assert(out.deep_view() =~= old(out).deep_view() + seq![
        "Some option: 5"@,
        "Absent option: 0"@,
    ]);
}

/// A function that reports a failure in its result.
fn example4(out: &mut Vec<String>)
    ensures
        final(out).deep_view() == old(out).deep_view() + seq!["Quotient: 5"@],
{
    let result: Result<i64, &'static str> = divide(10, 2);
    match result {
        Ok(quotient) => {
            let mut line = String::from_str("Quotient: ");
            push_integer(&mut line, quotient);
            proof {
                reveal_strlit("Quotient: ");
                reveal_strlit("Quotient: 5");
                assert(line@ =~= "Quotient: 5"@);
            }
            emit(out, line);
        },
        Err(e) => {
            let mut line = String::from_str("Error: ");
            line.append(e);
            emit(out, line);
        },
    }
}

/// A failure that comes from outside: the file may not be there.
fn example5(file: &Result<String, String>, out: &mut Vec<String>)
    ensures
        final(out).deep_view() == old(out).deep_view() + lines(5, outcome(*file)),
{
    report_file(file, out);
}

/// A test for the failure alone.
fn example6(out: &mut Vec<String>)
    ensures
        final(out).deep_view() == old(out).deep_view() + seq!["Error: An error occurred"@],
{
    let result: Result<(), &'static str> = some_computation();
    if let Err(e) = result {
        let mut line = String::from_str("Error: ");
        line.append(e);
        proof {
            reveal_strlit("An error occurred");
            reveal_strlit("Error: ");
            reveal_strlit("Error: An error occurred");
            assert(line@ =~= "Error: An error occurred"@);
        }
        emit(out, line);
    }
}

/// One function for the value that is there, another for the case that
/// none is.
fn example7(out: &mut Vec<String>)
    ensures
        final(out).deep_view() == old(out).deep_view() + seq!["Value squared: 100"@],
{
    let some_value: Option<i32> = Some(10);
    let squared = |v: i32| -> (product: i32)
        requires
            v * v <= i32::MAX,
        ensures
            product == v * v,
        {
            assert(v * v >= 0) by (nonlinear_arith);
            v * v
        };
    let otherwise = || -> (fallback: i32)
        ensures
            fallback == -1,
        { -1 };
    let value: i32 = some_value.map(squared).unwrap_or_else(otherwise);
    let mut line = String::from_str("Value squared: ");
    push_integer(&mut line, value as i64);
    proof {
        reveal_strlit("Value squared: ");
        reveal_strlit("Value squared: 100");
        reveal_with_fuel(decimal, 3);
        assert(line@ =~= "Value squared: 100"@);
    }
    emit(out, line);
}

/// Asking a vector for an element that may not be there.
fn example8(out: &mut Vec<String>)
    ensures
        final(out).deep_view() == old(out).deep_view() + seq!["Value at index 2: 3"@],
{
    let vec: Vec<i32> = vec![1, 2, 3, 4, 5];
    let index: usize = 2;
    match vec.as_slice().get(index) {
        Some(number) => {
            let mut line = String::from_str("Value at index ");
            push_unsigned(&mut line, index as u64);
            line.append(": ");
            push_integer(&mut line, *number as i64);
            proof {
                reveal_strlit("Value at index ");
                reveal_strlit(": ");
                reveal_strlit("Value at index 2: 3");
                assert(line@ =~= "Value at index 2: 3"@);
            }
            emit(out, line);
        },
        None => {
            let mut line = String::from_str("No element at index ");
            push_unsigned(&mut line, index as u64);
            line.append("!");
            emit(out, line);
        },
    }
}

/// The lines that are written for the names of more than five bytes.
pub open spec fn long_lines(names: Seq<&'static str>) -> Seq<Seq<char>>
    decreases names.len(),
{
    if names.len() == 0 {
        Seq::empty()
    } else {
        long_lines(names.drop_last()) + (if encode_utf8(names.last()@).len() as usize > 5 {
            seq!["Long fruit: "@ + names.last()@]
        } else {
            Seq::empty()
        })
    }
}

/// Keeping the items that pass a test, and leaving out the others.
fn example9(out: &mut Vec<String>)
    ensures
        final(out).deep_view() == old(out).deep_view() + seq![
            "Long fruit: banana"@,
            "Long fruit: cherry"@,
        ],
{
    let fruits: Vec<&'static str> = vec!["apple", "banana", "cherry"];
    for fruit in it: &fruits
        invariant
            out.deep_view() == old(out).deep_view() + long_lines(fruits@.take(it.index() as int)),
    {
        assert(fruits@.take(it.index() + 1).drop_last() =~= fruits@.take(it.index() as int));
        if fruit.len() > 5 {
            let mut line = String::from_str("Long fruit: ");
            line.append(fruit);
            emit(out, line);
        }
        assert(out.deep_view() =~= old(out).deep_view() + long_lines(
            fruits@.take(it.index() + 1),
        ));
    }
    proof {
        broadcast use vstd::utf8::is_ascii_chars_encode_utf8;
        reveal_strlit("apple");
        reveal_strlit("banana");
        reveal_strlit("cherry");
        assert(is_ascii("apple"));
        assert(is_ascii("banana"));
        assert(is_ascii("cherry"));
        reveal_strlit("Long fruit: ");
        reveal_strlit("Long fruit: banana");
        reveal_strlit("Long fruit: cherry");
        reveal_with_fuel(long_lines, 4);
        assert(fruits@.take(3) =~= fruits@);
        assert("Long fruit: "@ + "banana"@ =~= "Long fruit: banana"@);
        assert("Long fruit: "@ + "cherry"@ =~= "Long fruit: cherry"@);
        assert(long_lines(fruits@) =~= seq!["Long fruit: banana"@, "Long fruit: cherry"@]);
    }
}

/// A check that answers with a reason when it refuses.
fn example10(out: &mut Vec<String>)
    ensures
        final(out).deep_view() == old(out).deep_view() + seq!["Access granted."@],
{
    let password: &str = "supersecret";
    proof {
        broadcast use vstd::utf8::is_ascii_chars_encode_utf8;
        reveal_strlit("supersecret");
        assert(is_ascii("supersecret"));
    }
    match check_password(password) {
        Ok(()) => emit(out, String::from_str("Access granted.")),
        Err(e) => {
            let mut line = String::from_str("Access denied: ");
            line.append(e);
            emit(out, line);
        },
    }
}

/// Runs the demonstration with the given number, from 1 to 10; any other
/// number writes nothing. `file` is what came of reading `FILE_PATH`.
pub fn run_example(number: u8, file: &Result<String, String>, out: &mut Vec<String>)
    ensures
        final(out).deep_view() == old(out).deep_view() + lines(number as int, outcome(*file)),
{
    match number {
        1 => example1(out),
        2 => example2(out),
        3 => example3(out),
        4 => example4(out),
        5 => example5(file, out),
        6 => example6(out),
        7 => example7(out),
        8 => example8(out),
        9 => example9(out),
        10 => example10(out),
        _ => {
            assert(out.deep_view() =~= old(out).deep_view() + lines(
                number as int,
                outcome(*file),
            ));
        },
    }
}

/// Runs the ten demonstrations in order and returns what they wrote. `file`
/// is what came of reading `FILE_PATH`.
pub fn run_examples(file: &Result<String, String>) -> (written: Vec<String>)
    ensures
        written.deep_view() == output(outcome(*file)),
{
    let mut out: Vec<String> = Vec::new();
    example1(&mut out);
    example2(&mut out);
    example3(&mut out);
    example4(&mut out);
    example5(file, &mut out);
    example6(&mut out);
    example7(&mut out);
    example8(&mut out);
    example9(&mut out);
    example10(&mut out);
    assert(out.deep_view() =~= output(outcome(*file)));
    out
}

} // verus!
