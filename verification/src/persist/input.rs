use vstd::prelude::*;
use crate::system::Failure;
use crate::system::Input;
use crate::system::System;
use super::error::reported;
use super::error::Context;
use super::error::Error;

verus! {

/// The path that stands in an error about `input`: the file's own, or the
/// empty path for the standard input.
pub open spec fn path_of(input: Input) -> Seq<char> {
    match input {
        Input::File(path) => path@,
        Input::Stdin => Seq::empty(),
    }
}

/// Reads all of `input`: what `System::read` answers for it, with a failure
/// told as an error at the input's path.
pub fn read<S: System>(input: &Input) -> (data: Result<Vec<u8>, Error>)
    ensures
        exists|outcome: Result<Vec<u8>, Failure>|
            S::read_gives(*input, outcome) && reported(outcome, path_of(*input), data),
{
    let outcome = S::read(input);
    let data = match input {
        Input::File(path) => outcome.context(path.as_str()),
        Input::Stdin => {
            proof {
                reveal_strlit("");
                assert(""@ =~= Seq::<char>::empty());
            }
            outcome.context("")
        },
    };
    assert(S::read_gives(*input, outcome) && reported(outcome, path_of(*input), data));
    data
}

} // verus!
