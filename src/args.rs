//! The title of a quest given on the command line.

use vstd::prelude::*;
use vstd::string::*;

use crate::text::{trim, trimmed};

verus! {

/// The words joined in order, each one after a single space.
pub open spec fn spaced(words: Seq<Seq<char>>) -> Seq<char>
    decreases words.len(),
{
    if words.len() == 0 {
        Seq::empty()
    } else {
        spaced(words.drop_last()) + seq![' '] + words.last()
    }
}

/// The contents of each argument.
pub open spec fn arg_texts(args: Seq<String>) -> Seq<Seq<char>> {
    args.map_values(|a: String| a@)
}

/// The title that the arguments after the program name give: they are
/// joined with spaces and trimmed. Without such arguments there is none,
/// and the interactive session runs instead.
pub fn title_from_args(args: &Vec<String>) -> (r: Option<String>)
    ensures
        args@.len() <= 1 ==> r is None,
        args@.len() > 1 ==> (r matches Some(t) && t@ == trimmed(spaced(arg_texts(args@).skip(1)))),
{
    if args.len() <= 1 {
        return None;
    }
    let ghost words = arg_texts(args@).skip(1);
    let mut joined = String::new();
    let mut i: usize = 1;
    while i < args.len()
        invariant
            1 <= i <= args@.len(),
            words == arg_texts(args@).skip(1),
            joined@ == spaced(words.take(i - 1)),
        decreases args@.len() - i,
    {
        joined.append(" ");
        joined.append(args[i].as_str());
        proof {
            reveal_strlit(" ");
            assert(words.take(i as int).drop_last() =~= words.take(i - 1));
            assert(words.take(i as int).last() == args@[i as int]@);
            assert(joined@ =~= spaced(words.take(i as int)));
        }
        i = i + 1;
    }
    assert(words.take(i - 1) =~= words);
    Some(trim(joined.as_str()).to_owned())
}

} // verus!
