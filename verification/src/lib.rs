//! A tour of a programming language in sixteen sections of ten
//! demonstrations each, chosen by topic.
//!
//! Every demonstration is a routine that computes the lines it has to show
//! and writes them to a transcript; none reads what another wrote. The
//! `registry` says which routines run under which topic, and the
//! `dispatcher` answers the arguments of a command line with the lines of
//! the routines of the topic that they name. What each routine writes is
//! stated, character for character, in the `lines` function of its section,
//! and proved of the code that writes it.
//!
//! Nothing here reads or prints: the caller prints the lines, and reads the
//! one file that a demonstration reports on.

pub mod arrays;
pub mod control_flow;
pub mod decimal;
pub mod dispatcher;
pub mod enums_and_pattern_matching;
pub mod error_handling;
pub mod functions;
pub mod ownership_clone;
pub mod ownership_move;
pub mod ownership_reference_borrowing;
pub mod ownrship_copy;
pub mod registry;
pub mod slices;
pub mod strings_and_str;
pub mod strings_literals;
pub mod structs;
pub mod text;
pub mod tuples;
pub mod variables_and_mutability;
pub mod vectors;
