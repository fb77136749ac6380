//! External commands, as data for the caller to run.

use vstd::prelude::*;

verus! {

/// A program to run and its arguments.
#[derive(Debug, Clone)]
pub struct CommandSpec {
    pub program: String,
    pub args: Vec<String>,
}

impl View for CommandSpec {
    type V = (Seq<char>, Seq<Seq<char>>);

    open spec fn view(&self) -> (Seq<char>, Seq<Seq<char>>) {
        (self.program@, self.args@.map_values(|a: String| a@))
    }
}

/// Appends `item` to `args`.
pub fn push_text(args: &mut Vec<String>, item: &str)
    ensures
        final(args)@.map_values(|a: String| a@) == old(args)@.map_values(|a: String| a@).push(
            item@,
        ),
{
    let ghost before = args@;
    let s = String::from_str(item);
    args.push(s);
    assert(args@.map_values(|a: String| a@) =~= before.map_values(|a: String| a@).push(item@));
}

} // verus!
