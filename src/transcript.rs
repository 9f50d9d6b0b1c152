use vstd::prelude::*;
use vstd::string::StringExecFns;

verus! {

/// The line that reports a value handed to a reader or a new owner.
pub open spec fn ownership_line(thing: Seq<char>) -> Seq<char> {
    "Ownership, "@ + thing
}

/// The line that reports a value that is handed back to its caller.
pub open spec fn ownership_and_return_line(thing: Seq<char>) -> Seq<char> {
    "Ownership and return, "@ + thing
}

/// The line that reads a value again, quoted, after it was lent or copied.
pub open spec fn again_line(thing: Seq<char>) -> Seq<char> {
    "I love, \""@ + thing + "\", again."@
}

/// Appends `line` to the lines reported so far.
pub fn emit(out: &mut Vec<String>, line: String)
    ensures
        final(out).deep_view() == old(out).deep_view().push(line@),
{
    let ghost before = out.deep_view();
    out.push(line);
    assert(out.deep_view() =~= before.push(line@));
}

/// `prefix` followed by `thing`, as a new string.
pub fn prefixed(prefix: &str, thing: &str) -> (r: String)
    ensures
        r@ == prefix@ + thing@,
{
    String::from_str(prefix).concat(thing)
}

/// Reports `thing` again, quoted.
pub fn print_again(thing: &str, out: &mut Vec<String>)
    ensures
        final(out).deep_view() == old(out).deep_view().push(again_line(thing@)),
{
    let mut line = prefixed("I love, \"", thing);
    line.append("\", again.");
    emit(out, line);
}

} // verus!
