//! Structs: named groups of values, with functions of their own.
use vstd::prelude::*;
use vstd::string::*;
use crate::text::{decimal, emit, push_integer, push_truth, push_unsigned};

verus! {

/// What the demonstration with the given number writes.
pub open spec fn lines(number: int) -> Seq<Seq<char>> {
    if number == 1 {
        seq!["User: someusername123 | Email: someone@example.com"@]
    } else if number == 2 {
        seq!["Black: (0, 0, 0)"@]
    } else if number == 3 {
        seq!["Background color RGB: 255, 255, 255"@]
    } else if number == 4 {
        seq!["Screen has 3 components."@]
    } else if number == 5 {
        seq!["The area of the rectangle is 1500 square pixels."@]
    } else if number == 6 {
        seq!["Can rect1 hold rect2? true"@]
    } else if number == 7 {
        seq![
            "User2 Email: another@example.com, Username: someusername123, Sign in count: 1, Active: true"@,
        ]
    } else if number == 8 {
        seq!["Unit struct instantiated."@]
    } else if number == 9 {
        seq!["Message: Hello, Rust!"@]
    } else if number == 10 {
        seq!["Square: Rectangle { width: 3, height: 3 }, Area: 9"@]
    } else {
        Seq::empty()
    }
}

/// What the ten demonstrations write, one after the other.
pub open spec fn output() -> Seq<Seq<char>> {
    lines(1) + lines(2) + lines(3) + lines(4) + lines(5) + lines(6) + lines(7) + lines(8) + lines(9)
        + lines(10)
}

/// The profile of a user.
pub struct User {
    pub username: String,
    pub email: String,
    pub sign_in_count: u64,
    pub active: bool,
}

/// A colour as three numbers without names.
pub struct Color(pub i32, pub i32, pub i32);

/// A colour as three named parts.
pub struct Rgb {
    pub red: i32,
    pub green: i32,
    pub blue: i32,
}

/// What a screen may be asked to do.
pub enum Message {
    Quit,
    Move { x: i32, y: i32 },
    Write(String),
}

/// A screen and the messages that wait for it.
pub struct Screen {
    pub components: Vec<Message>,
}

/// A rectangle of whole pixels.
#[derive(Debug)]
pub struct Rectangle {
    pub width: u32,
    pub height: u32,
}

impl Rectangle {
    /// The rectangle whose sides are both `size`.
    pub fn square(size: u32) -> (made: Rectangle)
        ensures
            made.width == size,
            made.height == size,
    {
        Rectangle { width: size, height: size }
    }

    /// The number of pixels that the rectangle covers.
    pub fn area(&self) -> (pixels: u32)
        requires
            self.width * self.height <= u32::MAX,
        ensures
            pixels == self.width * self.height,
    {
        self.width * self.height
    }

    /// Whether `other` fits inside, with room to spare on both sides.
    pub fn can_hold(&self, other: &Rectangle) -> (fits: bool)
        ensures
            fits == (self.width > other.width && self.height > other.height),
    {
        self.width > other.width && self.height > other.height
    }

    /// The rectangle written with the names of the fields.
    pub open spec fn shown(self) -> Seq<char> {
        "Rectangle { width: "@ + decimal(self.width as nat) + ", height: "@ + decimal(
            self.height as nat,
        ) + " }"@
    }

    /// Appends the rectangle as `shown` writes it.
    pub fn push_shown(&self, s: &mut String)
        ensures
            final(s)@ == old(s)@ + self.shown(),
    {
        s.append("Rectangle { width: ");
        push_unsigned(s, self.width as u64);
        s.append(", height: ");
        push_unsigned(s, self.height as u64);
        s.append(" }");
        assert(s@ =~= old(s)@ + self.shown());
    }
}

/// A struct without fields.
pub struct Unit;

/// A message that owns its text.
pub struct TextMessage {
    pub content: String,
}

impl TextMessage {
    /// A message with a copy of the text.
    pub fn new(msg: &str) -> (message: TextMessage)
        ensures
            message.content@ == msg@,
    {
        TextMessage { content: String::from_str(msg) }
    }

    /// Writes the message.
    pub fn print(&self, out: &mut Vec<String>)
        ensures
            final(out).deep_view() == old(out).deep_view() + seq!["Message: "@ + self.content@],
    {
        let mut line = String::from_str("Message: ");
        line.append(self.content.as_str());
        emit(out, line);
    }
}

/// Making a struct and reading its fields.
fn example1(out: &mut Vec<String>)
    ensures
        final(out).deep_view() == old(out).deep_view() + lines(1),
{
    let user1 = User {
        email: String::from_str("someone@example.com"),
        username: String::from_str("someusername123"),
        active: true,
        sign_in_count: 1,
    };
    let mut line = String::from_str("User: ");
    line.append(user1.username.as_str());
    line.append(" | Email: ");
    line.append(user1.email.as_str());
    proof {
        reveal_strlit("someone@example.com");
        reveal_strlit("someusername123");
        reveal_strlit("User: ");
        reveal_strlit(" | Email: ");
        reveal_strlit("User: someusername123 | Email: someone@example.com");
        assert(line@ =~= "User: someusername123 | Email: someone@example.com"@);
    }
    emit(out, line);
}

/// A struct whose fields have positions in place of names.
fn example2(out: &mut Vec<String>)
    ensures
        final(out).deep_view() == old(out).deep_view() + lines(2),
{
    let black = Color(0, 0, 0);
    let mut line = String::from_str("Black: (");
    push_integer(&mut line, black.0 as i64);
    line.append(", ");
    push_integer(&mut line, black.1 as i64);
    line.append(", ");
    push_integer(&mut line, black.2 as i64);
    line.append(")");
    proof {
        reveal_strlit("Black: (");
        reveal_strlit(", ");
        reveal_strlit(")");
        reveal_strlit("Black: (0, 0, 0)");
        assert(line@ =~= "Black: (0, 0, 0)"@);
    }
    emit(out, line);
}

/// A struct with named fields.
fn example3(out: &mut Vec<String>)
    ensures
        final(out).deep_view() == old(out).deep_view() + lines(3),
{
    let background = Rgb { red: 255, green: 255, blue: 255 };
    let mut line = String::from_str("Background color RGB: ");
    push_integer(&mut line, background.red as i64);
    line.append(", ");
    push_integer(&mut line, background.green as i64);
    line.append(", ");
    push_integer(&mut line, background.blue as i64);
    proof {
        reveal_strlit("Background color RGB: ");
        reveal_strlit(", ");
        reveal_strlit("Background color RGB: 255, 255, 255");
        reveal_with_fuel(decimal, 3);
        assert(line@ =~= "Background color RGB: 255, 255, 255"@);
    }
    emit(out, line);
}

/// A struct that holds a vector of an enum.
fn example4(out: &mut Vec<String>)
    ensures
        final(out).deep_view() == old(out).deep_view() + lines(4),
{
    let screen = Screen {
        components: vec![
            Message::Quit,
            Message::Move { x: 10, y: 20 },
            Message::Write(String::from_str("Hello, world!")),
        ],
    };
    let mut line = String::from_str("Screen has ");
    push_unsigned(&mut line, screen.components.len() as u64);
    line.append(" components.");
    proof {
        reveal_strlit("Screen has ");
        reveal_strlit(" components.");
        reveal_strlit("Screen has 3 components.");
        assert(line@ =~= "Screen has 3 components."@);
    }
    emit(out, line);
}

/// A method: a function that belongs to the struct.
fn example5(out: &mut Vec<String>)
    ensures
        final(out).deep_view() == old(out).deep_view() + lines(5),
{
    let rect = Rectangle { width: 30, height: 50 };
    let mut line = String::from_str("The area of the rectangle is ");
    push_unsigned(&mut line, rect.area() as u64);
    line.append(" square pixels.");
    proof {
        reveal_strlit("The area of the rectangle is ");
        reveal_strlit(" square pixels.");
        reveal_strlit("The area of the rectangle is 1500 square pixels.");
        reveal_with_fuel(decimal, 4);
        assert(line@ =~= "The area of the rectangle is 1500 square pixels."@);
    }
    emit(out, line);
}

/// A method that takes a second value of the struct.
fn example6(out: &mut Vec<String>)
    ensures
        final(out).deep_view() == old(out).deep_view() + lines(6),
{
    let rect1 = Rectangle { width: 30, height: 50 };
    let rect2 = Rectangle { width: 10, height: 40 };
    let mut line = String::from_str("Can rect1 hold rect2? ");
    push_truth(&mut line, rect1.can_hold(&rect2));
    proof {
        reveal_strlit("Can rect1 hold rect2? ");
        reveal_strlit("true");
        reveal_strlit("Can rect1 hold rect2? true");
        assert(line@ =~= "Can rect1 hold rect2? true"@);
    }
    emit(out, line);
}

/// A struct made from another: one field is new, the others are taken over.
fn example7(out: &mut Vec<String>)
    ensures
        final(out).deep_view() == old(out).deep_view() + lines(7),
{
    let user1 = User {
        email: String::from_str("someone@example.com"),
        username: String::from_str("someusername123"),
        active: true,
        sign_in_count: 1,
    };
    let user2 = User { email: String::from_str("another@example.com"), ..user1 };
    let mut line = String::from_str("User2 Email: ");
    line.append(user2.email.as_str());
    line.append(", Username: ");
    line.append(user2.username.as_str());
    line.append(", Sign in count: ");
    push_unsigned(&mut line, user2.sign_in_count);
    line.append(", Active: ");
    push_truth(&mut line, user2.active);
    proof {
        reveal_strlit("another@example.com");
        reveal_strlit("someusername123");
        reveal_strlit("User2 Email: ");
        reveal_strlit(", Username: ");
        reveal_strlit(", Sign in count: ");
        reveal_strlit(", Active: ");
        reveal_strlit("true");
        reveal_strlit(
            "User2 Email: another@example.com, Username: someusername123, Sign in count: 1, Active: true",
        );
        assert(line@
            =~= "User2 Email: another@example.com, Username: someusername123, Sign in count: 1, Active: true"@);
    }
    emit(out, line);
}

/// A struct without fields.
fn example8(out: &mut Vec<String>)
    ensures
        final(out).deep_view() == old(out).deep_view() + lines(8),
{
    let _unit = Unit;
    emit(out, String::from_str("Unit struct instantiated."));
}

/// A struct that owns a text, with a function that makes it and a method
/// that writes it.
fn example9(out: &mut Vec<String>)
    ensures
        final(out).deep_view() == old(out).deep_view() + lines(9),
{
    let my_message = TextMessage::new("Hello, Rust!");
    my_message.print(out);
    proof {
        reveal_strlit("Hello, Rust!");
        reveal_strlit("Message: ");
        reveal_strlit("Message: Hello, Rust!");
        assert("Message: "@ + "Hello, Rust!"@ =~= "Message: Hello, Rust!"@);
    }
}

/// A function of the struct that takes no value of it, and a method.
fn example10(out: &mut Vec<String>)
    ensures
        final(out).deep_view() == old(out).deep_view() + lines(10),
{
    let square = Rectangle::square(3);
    let mut line = String::from_str("Square: ");
    square.push_shown(&mut line);
    line.append(", Area: ");
    push_unsigned(&mut line, square.area() as u64);
    proof {
        reveal_strlit("Rectangle { width: ");
        reveal_strlit(", height: ");
        reveal_strlit(" }");
        reveal_strlit("Square: ");
        reveal_strlit(", Area: ");
        reveal_strlit("Square: Rectangle { width: 3, height: 3 }, Area: 9");
        assert(line@ =~= "Square: Rectangle { width: 3, height: 3 }, Area: 9"@);
    }
    emit(out, line);
}

/// Runs the demonstration with the given number, from 1 to 10; any other
/// number writes nothing.
pub fn run_example(number: u8, out: &mut Vec<String>)
    ensures
        final(out).deep_view() == old(out).deep_view() + lines(number as int),
{
    match number {
        1 => example1(out),
        2 => example2(out),
        3 => example3(out),
        4 => example4(out),
        5 => example5(out),
        6 => example6(out),
        7 => example7(out),
        8 => example8(out),
        9 => example9(out),
        10 => example10(out),
        _ => {
            assert(out.deep_view() =~= old(out).deep_view() + lines(number as int));
        },
    }
}

/// Runs the ten demonstrations in order and returns what they wrote.
pub fn run_examples() -> (written: Vec<String>)
    ensures
        written.deep_view() == output(),
{
    let mut out: Vec<String> = Vec::new();
    example1(&mut out);
    example2(&mut out);
    example3(&mut out);
    example4(&mut out);
    example5(&mut out);
    example6(&mut out);
    example7(&mut out);
    example8(&mut out);
    example9(&mut out);
    example10(&mut out);
    assert(out.deep_view() =~= output());
    out
}

} // verus!
