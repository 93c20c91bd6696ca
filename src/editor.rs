use vstd::prelude::*;
use vstd::string::*;

verus! {

/// New content of a hook file after `add`: the command appended to the
/// current content as it stands, with no separator in between.
pub fn added_content(current: &str, command: &str) -> (r: String)
    ensures
        r@ == current@ + command@,
{
    String::from_str(current).concat(command)
}

/// New content of a hook file after `set`: exactly the command. The line that
/// sources the dispatcher is gone unless the command brings it back.
pub fn set_content(command: &str) -> (r: String)
    ensures
        r@ == command@,
{
    String::from_str(command)
}

} // verus!
