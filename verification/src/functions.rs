//! Functions: parameters, results, recursion, closures and functions that
//! take functions.
use vstd::prelude::*;
use vstd::string::*;
use crate::text::{decimal, emit, integer, joined, push_integer, push_numbers, push_unsigned};

verus! {

/// What the demonstration with the given number writes.
pub open spec fn lines(number: int) -> Seq<Seq<char>> {
    if number == 1 {
        seq!["Sum of 5 and 3 is: 8"@]
    } else if number == 2 {
        seq!["4 squared is: 16"@]
    } else if number == 3 {
        seq!["Function that returns unit: ()"@]
    } else if number == 4 {
        seq!["4 is even"@]
    } else if number == 5 {
        seq!["Factorial of 5 is: 120"@]
    } else if number == 6 {
        seq!["This is a closure without parameters."@]
    } else if number == 7 {
        seq!["5 plus 1 is: 6"@]
    } else if number == 8 {
        seq!["10 plus 5 is: 15"@]
    } else if number == 9 {
        seq!["Result of applying function: 10"@]
    } else if number == 10 {
        seq!["Even numbers from the list: [2, 4]"@]
    } else {
        Seq::empty()
    }
}

/// What the ten demonstrations write, one after the other.
pub open spec fn output() -> Seq<Seq<char>> {
    lines(1) + lines(2) + lines(3) + lines(4) + lines(5) + lines(6) + lines(7) + lines(8) + lines(9)
        + lines(10)
}

/// The product of the numbers from 1 to `n`.
pub open spec fn product_up_to(n: nat) -> nat
    decreases n,
{
    if n == 0 {
        1
    } else {
        n * product_up_to((n - 1) as nat)
    }
}

/// The sum of two numbers.
pub fn add(x: i32, y: i32) -> (sum: i32)
    requires
        i32::MIN <= x + y <= i32::MAX,
    ensures
        sum == x + y,
{
    x + y
}

/// The number times itself.
pub fn square(x: i32) -> (product: i32)
    requires
        x * x <= i32::MAX,
    ensures
        product == x * x,
{
    assert(x * x >= 0) by (nonlinear_arith);
    x * x
}

/// A function without a result returns the unit value.
pub fn no_value() {
}

/// Whether the number is a multiple of two.
pub fn is_even(x: i32) -> (even: bool)
    ensures
        even == (x % 2 == 0),
{
    x % 2 == 0
}

/// The product of the numbers from 1 to `n`, by recursion.
pub fn factorial(n: u64) -> (product: u64)
    requires
        product_up_to(n as nat) <= u64::MAX,
    ensures
        product == product_up_to(n as nat),
    decreases n,
{
    if n == 0 {
        1
    } else {
        assert(product_up_to((n - 1) as nat) <= product_up_to(n as nat)) by (nonlinear_arith)
            requires
                n >= 1,
                product_up_to(n as nat) == n * product_up_to((n - 1) as nat),
        ;
        n * factorial(n - 1)
    }
}

/// Applies `f` to `x` and writes the result.
pub fn apply_function<F>(x: i32, f: F, out: &mut Vec<String>) where F: Fn(i32) -> i32
    requires
        f.requires((x,)),
    ensures
        exists|result: i32|
            f.ensures((x,), result) && final(out).deep_view() == old(out).deep_view() + seq![
                "Result of applying function: "@ + integer(result as int),
            ],
{
    let result: i32 = f(x);
    let mut line = String::from_str("Result of applying function: ");
    push_integer(&mut line, result as i64);
    emit(out, line);
}

/// The even numbers of the list, in their order.
pub fn even_numbers(numbers: &Vec<i32>) -> (kept: Vec<i32>)
    ensures
        kept@ == numbers@.filter(|x: i32| x % 2 == 0),
{
    let mut kept: Vec<i32> = Vec::new();
    let mut k: usize = 0;
    while k < numbers.len()
        invariant
            k <= numbers.len(),
            kept@ == numbers@.take(k as int).filter(|x: i32| x % 2 == 0),
        decreases numbers.len() - k,
    {
        proof {
            reveal(Seq::filter);
            assert(numbers@.take(k + 1).drop_last() =~= numbers@.take(k as int));
        }
        if is_even(numbers[k]) {
            kept.push(numbers[k]);
        }
        k += 1;
    }
    assert(numbers@.take(k as int) =~= numbers@);
    kept
}

/// Calling a function with two arguments.
fn example1(out: &mut Vec<String>)
    ensures
        final(out).deep_view() == old(out).deep_view() + lines(1),
{
    let mut line = String::from_str("Sum of 5 and 3 is: ");
    push_integer(&mut line, self::add(5, 3) as i64);
    proof {
        reveal_strlit("Sum of 5 and 3 is: ");
        reveal_strlit("Sum of 5 and 3 is: 8");
        assert(line@ =~= "Sum of 5 and 3 is: 8"@);
    }
    emit(out, line);
}

/// A function of one argument.
fn example2(out: &mut Vec<String>)
    ensures
        final(out).deep_view() == old(out).deep_view() + lines(2),
{
    let squared: i32 = square(4);
    let mut line = String::from_str("4 squared is: ");
    push_integer(&mut line, squared as i64);
    proof {
        reveal_strlit("4 squared is: ");
        reveal_strlit("4 squared is: 16");
        reveal_with_fuel(decimal, 2);
        assert(line@ =~= "4 squared is: 16"@);
    }
    emit(out, line);
}

/// A function without a result.
fn example3(out: &mut Vec<String>)
    ensures
        final(out).deep_view() == old(out).deep_view() + lines(3),
{
    let _no_return: () = no_value();
    let mut line = String::from_str("Function that returns unit: ");
    line.append("()");
    proof {
        reveal_strlit("Function that returns unit: ");
        reveal_strlit("()");
        reveal_strlit("Function that returns unit: ()");
        assert(line@ =~= "Function that returns unit: ()"@);
    }
    emit(out, line);
}

/// A function that answers yes or no.
fn example4(out: &mut Vec<String>)
    ensures
        final(out).deep_view() == old(out).deep_view() + lines(4),
{
    if is_even(4) {
        emit(out, String::from_str("4 is even"));
    } else {
        emit(out, String::from_str("4 is odd"));
    }
}

/// A function that calls itself.
fn example5(out: &mut Vec<String>)
    ensures
        final(out).deep_view() == old(out).deep_view() + lines(5),
{
    proof {
        reveal_with_fuel(product_up_to, 6);
    }
    let factorial_of_5: u64 = factorial(5);
    let mut line = String::from_str("Factorial of 5 is: ");
    push_unsigned(&mut line, factorial_of_5);
    proof {
        reveal_strlit("Factorial of 5 is: ");
        reveal_strlit("Factorial of 5 is: 120");
        reveal_with_fuel(decimal, 3);
        assert(line@ =~= "Factorial of 5 is: 120"@);
    }
    emit(out, line);
}

/// A closure without parameters.
fn example6(out: &mut Vec<String>)
    ensures
        final(out).deep_view() == old(out).deep_view() + lines(6),
{
    let print = || -> (line: String)
        ensures
            line@ == "This is a closure without parameters."@,
        { String::from_str("This is a closure without parameters.") };
    emit(out, print());
}

/// A closure with a parameter and a result.
fn example7(out: &mut Vec<String>)
    ensures
        final(out).deep_view() == old(out).deep_view() + lines(7),
{
    let add_one = |x: i32| -> (sum: i32)
        requires
            x < i32::MAX,
        ensures
            sum == x + 1,
        { x + 1 };
    let mut line = String::from_str("5 plus 1 is: ");
    push_integer(&mut line, add_one(5) as i64);
    proof {
        reveal_strlit("5 plus 1 is: ");
        reveal_strlit("5 plus 1 is: 6");
        assert(line@ =~= "5 plus 1 is: 6"@);
    }
    emit(out, line);
}

/// A closure that uses a value of the function around it.
fn example8(out: &mut Vec<String>)
    ensures
        final(out).deep_view() == old(out).deep_view() + lines(8),
{
    let x: i32 = 10;
    let add_x = |y: i32| -> (sum: i32)
        requires
            i32::MIN <= x + y <= i32::MAX,
        ensures
            sum == x + y,
        { x + y };
    let mut line = String::from_str("10 plus 5 is: ");
    push_integer(&mut line, add_x(5) as i64);
    proof {
        reveal_strlit("10 plus 5 is: ");
        reveal_strlit("10 plus 5 is: 15");
        reveal_with_fuel(decimal, 2);
        assert(line@ =~= "10 plus 5 is: 15"@);
    }
    emit(out, line);
}

/// A function that takes a function.
fn example9(out: &mut Vec<String>)
    ensures
        final(out).deep_view() == old(out).deep_view() + lines(9),
{
    let double = |x: i32| -> (twice: i32)
        requires
            i32::MIN <= 2 * x <= i32::MAX,
        ensures
            twice == 2 * x,
        { 2 * x };
    apply_function(5, double, out);
    proof {
        reveal_strlit("Result of applying function: ");
        reveal_strlit("Result of applying function: 10");
        reveal_with_fuel(decimal, 2);
        assert("Result of applying function: "@ + integer(10) =~= "Result of applying function: 10"@);
    }
}

/// A test that picks elements of a list.
fn example10(out: &mut Vec<String>)
    ensures
        final(out).deep_view() == old(out).deep_view() + lines(10),
{
    let numbers: Vec<i32> = vec![1, 2, 3, 4, 5];
    let kept: Vec<i32> = even_numbers(&numbers);
    proof {
        reveal_with_fuel(Seq::filter, 6);
        assert(kept@ =~= seq![2i32, 4i32]);
    }
    let mut line = String::from_str("Even numbers from the list: ");
    push_numbers(&mut line, kept.as_slice());
    proof {
        reveal_strlit("Even numbers from the list: ");
        reveal_strlit("Even numbers from the list: [2, 4]");
        reveal_with_fuel(joined, 3);
        assert(line@ =~= "Even numbers from the list: [2, 4]"@);
    }
    emit(out, line);
}

/// Runs the demonstration with the given number, from 1 to 10; any other
/// number writes nothing.
pub fn run_example(number: u8, out: &mut Vec<String>)
    ensures
        final(out).deep_view() == old(out).deep_view() + lines(number as int),
{
    match number {
        1 => example1(out),
        2 => example2(out),
        3 => example3(out),
        4 => example4(out),
        5 => example5(out),
        6 => example6(out),
        7 => example7(out),
        8 => example8(out),
        9 => example9(out),
        10 => example10(out),
        _ => {
            assert(out.deep_view() =~= old(out).deep_view() + lines(number as int));
        },
    }
}

/// Runs the ten demonstrations in order and returns what they wrote.
pub fn run_examples() -> (written: Vec<String>)
    ensures
        written.deep_view() == output(),
{
    let mut out: Vec<String> = Vec::new();
    example1(&mut out);
    example2(&mut out);
    example3(&mut out);
    example4(&mut out);
    example5(&mut out);
    example6(&mut out);
    example7(&mut out);
    example8(&mut out);
    example9(&mut out);
    example10(&mut out);
    assert(out.deep_view() =~= output());
    out
}

} // verus!
