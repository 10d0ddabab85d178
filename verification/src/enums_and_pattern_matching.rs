//! Enums and patterns: types with a fixed set of forms, and the matches that
//! tell the forms apart.
use vstd::prelude::*;
use vstd::string::*;
use crate::text::{decimal, emit, integer, push_integer};

verus! {

/// What the demonstration with the given number writes.
pub open spec fn lines(number: int) -> Seq<Seq<char>> {
    if number == 1 {
        seq!["Going up!"@]
    } else if number == 2 {
        seq!["Text message: hello"@]
    } else if number == 3 {
        seq!["The number is: 5"@, "No number"@]
    } else if number == 4 {
        seq!["Success with value: 10"@, "Error: An error occurred"@]
    } else if number == 5 {
        seq!["Start driving"@, "Turn left"@, "Stop driving"@]
    } else if number == 6 {
        seq!["Matched, x = 3"@]
    } else if number == 7 {
        seq!["Even number: 2"@]
    } else if number == 8 {
        seq!["State quarter from Alaska!"@]
    } else if number == 10 {
        seq!["Found a robot named Bender"@, "Found a robot named Bender"@]
    } else {
        Seq::empty()
    }
}

/// What the ten demonstrations write, one after the other.
pub open spec fn output() -> Seq<Seq<char>> {
    lines(1) + lines(2) + lines(3) + lines(4) + lines(5) + lines(6) + lines(7) + lines(8) + lines(9)
        + lines(10)
}

/// The four ways to go.
pub enum Direction {
    Up,
    Down,
    Left,
    Right,
}

/// A message, in one of four forms with data of their own.
pub enum Message {
    Quit,
    Move { x: i32, y: i32 },
    Write(String),
    ChangeColor(i32, i32, i32),
}

/// What a driver does next.
pub enum Action {
    Drive,
    Turn(Direction),
    Stop,
}

/// Two of the states.
#[derive(Debug)]
pub enum UsState {
    Alabama,
    Alaska,
}

/// The coins; a quarter names the state that it was struck for.
pub enum Coin {
    Penny,
    Nickel,
    Dime,
    Quarter(UsState),
}

impl UsState {
    /// The name of the state.
    pub open spec fn name(self) -> Seq<char> {
        match self {
            UsState::Alabama => "Alabama"@,
            UsState::Alaska => "Alaska"@,
        }
    }

    /// The name of the state.
    pub fn name_text(&self) -> (text: &'static str)
        ensures
            text@ == self.name(),
    {
        match self {
            UsState::Alabama => "Alabama",
            UsState::Alaska => "Alaska",
        }
    }
}

impl Action {
    /// The line that is written for the action.
    pub open spec fn line(self) -> Seq<char> {
        match self {
            Action::Drive => "Start driving"@,
            Action::Turn(Direction::Left) => "Turn left"@,
            Action::Turn(_) => "Turn"@,
            Action::Stop => "Stop driving"@,
        }
    }
}

/// The lines that are written for the even numbers among the values.
pub open spec fn even_lines(values: Seq<Option<i32>>) -> Seq<Seq<char>>
    decreases values.len(),
{
    if values.len() == 0 {
        Seq::empty()
    } else {
        even_lines(values.drop_last()) + (match values.last() {
            Some(i) if i % 2 == 0 => seq!["Even number: "@ + integer(i as int)],
            _ => Seq::empty(),
        })
    }
}

/// A match with an arm for each form.
fn example1(out: &mut Vec<String>)
    ensures
        final(out).deep_view() == old(out).deep_view() + lines(1),
{
    let direction = Direction::Up;
    match direction {
        Direction::Up => emit(out, String::from_str("Going up!")),
        Direction::Down => emit(out, String::from_str("Going down!")),
        Direction::Left => emit(out, String::from_str("Going left!")),
        Direction::Right => emit(out, String::from_str("Going right!")),
    }
}

/// A match that takes the data out of each form.
fn example2(out: &mut Vec<String>)
    ensures
        final(out).deep_view() == old(out).deep_view() + lines(2),
{
    let msg = Message::Write(String::from_str("hello"));
    match msg {
        Message::Quit => emit(out, String::from_str("Quit")),
        Message::Move { x, y } => {
            let mut line = String::from_str("Move to x: ");
            push_integer(&mut line, x as i64);
            line.append(", y: ");
            push_integer(&mut line, y as i64);
            emit(out, line);
        },
        Message::Write(text) => {
            let mut line = String::from_str("Text message: ");
            line.append(text.as_str());
            proof {
                reveal_strlit("hello");
                reveal_strlit("Text message: ");
                reveal_strlit("Text message: hello");
                assert(line@ =~= "Text message: hello"@);
            }
            emit(out, line);
        },
        Message::ChangeColor(r, g, b) => {
            let mut line = String::from_str("Change color to: ");
            push_integer(&mut line, r as i64);
            line.append(", ");
            push_integer(&mut line, g as i64);
            line.append(", ");
            push_integer(&mut line, b as i64);
            emit(out, line);
        },
    }
}

/// Writes the number, or that there is none.
fn write_number(out: &mut Vec<String>, number: Option<i32>)
    ensures
        final(out).deep_view() == old(out).deep_view() + seq![
            match number {
                Some(x) => "The number is: "@ + integer(x as int),
                None => "No number"@,
            },
        ],
{
    match number {
        Some(x) => {
            let mut line = String::from_str("The number is: ");
            push_integer(&mut line, x as i64);
            emit(out, line);
        },
        None => emit(out, String::from_str("No number")),
    }
}

/// A value that may be absent.
fn example3(out: &mut Vec<String>)
    ensures
        final(out).deep_view() == old(out).deep_view() + lines(3),
{
    let some_number: Option<i32> = Some(5);
    let absent_number: Option<i32> = None;
    write_number(out, some_number);
    write_number(out, absent_number);
    proof {
        reveal_strlit("The number is: ");
        reveal_strlit("The number is: 5");
        assert("The number is: "@ + integer(5) =~= "The number is: 5"@);
        assert(out.deep_view() =~= old(out).deep_view() + lines(3));
    }
}

/// Writes the value of a success, or the message of a failure.
fn write_outcome(out: &mut Vec<String>, outcome: Result<i32, &str>)
    ensures
        final(out).deep_view() == old(out).deep_view() + seq![
            match outcome {
                Ok(value) => "Success with value: "@ + integer(value as int),
                Err(e) => "Error: "@ + e@,
            },
        ],
{
    match outcome {
        Ok(value) => {
            let mut line = String::from_str("Success with value: ");
            push_integer(&mut line, value as i64);
            emit(out, line);
        },
        Err(e) => {
            let mut line = String::from_str("Error: ");
            line.append(e);
            emit(out, line);
        },
    }
}

/// A result that is a success or a failure.
fn example4(out: &mut Vec<String>)
    ensures
        final(out).deep_view() == old(out).deep_view() + lines(4),
{
    let ok_result: Result<i32, &str> = Ok(10);
    let error_result: Result<i32, &str> = Err("An error occurred");
    write_outcome(out, ok_result);
    write_outcome(out, error_result);
    proof {
        reveal_strlit("Success with value: ");
        reveal_strlit("Success with value: 10");
        reveal_strlit("Error: ");
        reveal_strlit("An error occurred");
        reveal_strlit("Error: An error occurred");
        reveal_with_fuel(decimal, 2);
        assert("Success with value: "@ + integer(10) =~= "Success with value: 10"@);
        assert("Error: "@ + "An error occurred"@ =~= "Error: An error occurred"@);
        assert(out.deep_view() =~= old(out).deep_view() + lines(4));
    }
}

/// An enum inside an enum, and a match inside a match.
fn example5(out: &mut Vec<String>)
    ensures
        final(out).deep_view() == old(out).deep_view() + lines(5),
{
    let actions: Vec<Action> = vec![Action::Drive, Action::Turn(Direction::Left), Action::Stop];
    for action in it: &actions
        invariant
            out.deep_view() == old(out).deep_view() + Seq::new(
                it.index() as nat,
                |j: int| actions[j].line(),
            ),
    {
        match action {
            Action::Drive => emit(out, String::from_str("Start driving")),
            Action::Turn(dir) => match dir {
                Direction::Left => emit(out, String::from_str("Turn left")),
                _ => emit(out, String::from_str("Turn")),
            },
            Action::Stop => emit(out, String::from_str("Stop driving")),
        }
        assert(out.deep_view() =~= old(out).deep_view() + Seq::new(
            (it.index() + 1) as nat,
            |j: int| actions[j].line(),
        ));
    }
    assert(Seq::new(3, |j: int| actions[j].line()) =~= lines(5));
}

/// A test for one form alone.
fn example6(out: &mut Vec<String>)
    ensures
        final(out).deep_view() == old(out).deep_view() + lines(6),
{
    let some_value: Option<i32> = Some(3);
    if let Some(x) = some_value {
        let mut line = String::from_str("Matched, x = ");
        push_integer(&mut line, x as i64);
        proof {
            reveal_strlit("Matched, x = ");
            reveal_strlit("Matched, x = 3");
            assert(line@ =~= "Matched, x = 3"@);
        }
        emit(out, line);
    } else {
        emit(out, String::from_str("Did not match"));
    }
}

/// An arm with a condition of its own.
fn example7(out: &mut Vec<String>)
    ensures
        final(out).deep_view() == old(out).deep_view() + lines(7),
{
    let numbers: Vec<Option<i32>> = vec![Some(2), None, Some(3)];
    for number in it: &numbers
        invariant
            out.deep_view() == old(out).deep_view() + even_lines(numbers@.take(it.index() as int)),
    {
        assert(numbers@.take(it.index() + 1).drop_last() =~= numbers@.take(it.index() as int));
        match *number {
            Some(i) if i % 2 == 0 => {
                let mut line = String::from_str("Even number: ");
                push_integer(&mut line, i as i64);
                emit(out, line);
            },
            _ => (),
        }
        assert(out.deep_view() =~= old(out).deep_view() + even_lines(
            numbers@.take(it.index() + 1),
        ));
    }
    proof {
        reveal_strlit("Even number: ");
        reveal_strlit("Even number: 2");
        reveal_with_fuel(even_lines, 4);
        assert(numbers@.take(3) =~= numbers@);
        assert("Even number: "@ + integer(2) =~= "Even number: 2"@);
        assert(even_lines(numbers@) =~= lines(7));
    }
}

/// A test for one form that carries data; any other form would be counted.
#[allow(unused_assignments, unused_variables)]
fn example8(out: &mut Vec<String>)
    ensures
        final(out).deep_view() == old(out).deep_view() + lines(8),
{
    let mut count: i32 = 0;
    let coin = Coin::Quarter(UsState::Alaska);
    if let Coin::Quarter(state) = coin {
        let mut line = String::from_str("State quarter from ");
        line.append(state.name_text());
        line.append("!");
        proof {
            reveal_strlit("Alaska");
            reveal_strlit("State quarter from ");
            reveal_strlit("!");
            reveal_strlit("State quarter from Alaska!");
            assert(line@ =~= "State quarter from Alaska!"@);
        }
        emit(out, line);
    } else {
        count += 1;
    }
}

/// A match on plain values, where no arm but the last fits: nothing is
/// written.
fn example9(out: &mut Vec<String>)
    ensures
        final(out).deep_view() == old(out).deep_view() + lines(9),
{
    let some_u8_value: u8 = 0u8;
    match some_u8_value {
        1 => emit(out, String::from_str("one")),
        3 => emit(out, String::from_str("three")),
        5 => emit(out, String::from_str("five")),
        7 => emit(out, String::from_str("seven")),
        _ => (),
    }
    assert(out.deep_view() =~= old(out).deep_view() + lines(9));
}

/// The same question asked with a match and with a test for one form.
fn example10(out: &mut Vec<String>)
    ensures
        final(out).deep_view() == old(out).deep_view() + lines(10),
{
    let robot_name: Option<&str> = Some("Bender");
    proof {
        reveal_strlit("Bender");
        reveal_strlit("Found a robot named ");
        reveal_strlit("Found a robot named Bender");
        assert("Found a robot named "@ + "Bender"@ =~= "Found a robot named Bender"@);
    }
    match robot_name {
        Some(name) => {
            let mut line = String::from_str("Found a robot named ");
            line.append(name);
            emit(out, line);
        },
        _ => emit(out, String::from_str("No robot found")),
    }
    if let Some(name) = robot_name {
        let mut line = String::from_str("Found a robot named ");
        line.append(name);
        emit(out, line);
    } else {
        emit(out, String::from_str("No robot found"));
    }
    assert(out.deep_view() =~= old(out).deep_view() + lines(10));
}

/// Runs the demonstration with the given number, from 1 to 10; any other
/// number writes nothing.
pub fn run_example(number: u8, out: &mut Vec<String>)
    ensures
        final(out).deep_view() == old(out).deep_view() + lines(number as int),
{
    match number {
        1 => example1(out),
        2 => example2(out),
        3 => example3(out),
        4 => example4(out),
        5 => example5(out),
        6 => example6(out),
        7 => example7(out),
        8 => example8(out),
        9 => example9(out),
        10 => example10(out),
        _ => {
            assert(out.deep_view() =~= old(out).deep_view() + lines(number as int));
        },
    }
}

/// Runs the ten demonstrations in order and returns what they wrote.
pub fn run_examples() -> (written: Vec<String>)
    ensures
        written.deep_view() == output(),
{
    let mut out: Vec<String> = Vec::new();
    example1(&mut out);
    example2(&mut out);
    example3(&mut out);
    example4(&mut out);
    example5(&mut out);
    example6(&mut out);
    example7(&mut out);
    example8(&mut out);
    example9(&mut out);
    example10(&mut out);
    assert(out.deep_view() =~= output());
    out
}

} // verus!
