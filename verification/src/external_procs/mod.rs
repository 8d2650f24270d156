//! The programs that a command runs: the version control system and the
//! tools of each language.
//!
//! A program is run with a fixed list of arguments and waited for. What it
//! prints and how it ends is not looked at: an operation that runs a program
//! counts as done once the program has ended.

pub mod cargo;
pub mod dotnet;
pub mod git;

use vstd::prelude::*;
use crate::operation::{Invocation, InvocationModel};

verus! {

/// The invocation of `program` with `arguments` in `directory`.
pub open spec fn invocation_in(
    program: Seq<char>,
    arguments: Seq<Seq<char>>,
    directory: Seq<char>,
) -> InvocationModel {
    InvocationModel { program, arguments, directory: Some(directory) }
}

/// Builds the invocation of `program` with `arguments` in `directory`.
pub fn invoke_in(program: &str, arguments: Vec<String>, directory: &str) -> (invocation: Invocation)
    ensures
        invocation@ == invocation_in(program@, arguments.deep_view(), directory@),
{
    Invocation { program: program.to_owned(), arguments, directory: Some(directory.to_owned()) }
}

/// Adds one argument at the end of the list.
pub fn push_argument(list: &mut Vec<String>, next: &str)
    ensures
        final(list).deep_view() == old(list).deep_view().push(next@),
{
    list.push(next.to_owned());
    assert(list.deep_view() =~= old(list).deep_view().push(next@));
}

} // verus!
