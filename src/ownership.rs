use vstd::prelude::*;
use vstd::string::StringExecFns;
use crate::transcript::{emit, prefixed, print_again, ownership_line, ownership_and_return_line, again_line};

verus! {

/// Takes ownership of `thing` and reports it; `thing` is dropped when this
/// call ends.
pub fn print_ownership(thing: String, out: &mut Vec<String>)
    ensures
        final(out).deep_view() == old(out).deep_view().push(ownership_line(thing@)),
{
    emit(out, prefixed("Ownership, ", thing.as_str()));
}

/// Takes ownership of `thing`, reports it, and hands the same value back.
pub fn print_ownership_and_return(thing: String, out: &mut Vec<String>) -> (r: String)
    ensures
        r@ == thing@,
        final(out).deep_view() == old(out).deep_view().push(ownership_and_return_line(thing@)),
{
    emit(out, prefixed("Ownership and return, ", thing.as_str()));
    thing
}

/// Moves a new value into `print_ownership`; the caller cannot use it
/// afterwards.
pub fn moves() -> (lines: Vec<String>)
    ensures
        lines.deep_view() == seq![ownership_line("food"@)],
{
    let mut out: Vec<String> = Vec::new();
    let thing = String::from_str("food");
    print_ownership(thing, &mut out);
    assert(out.deep_view() =~= seq![ownership_line("food"@)]);
    out
}

/// Hands a deep copy of a value to `print_ownership` and keeps the original,
/// which is reported unchanged afterwards.
pub fn cloning() -> (lines: Vec<String>)
    ensures
        lines.deep_view() == seq![ownership_line("food"@), again_line("food"@)],
{
    let mut out: Vec<String> = Vec::new();
    let thing = String::from_str("food");
    print_ownership(thing.clone(), &mut out);
    print_again(thing.as_str(), &mut out);
    assert(out.deep_view() =~= seq![ownership_line("food"@), again_line("food"@)]);
    out
}

/// Hands a value to `print_ownership_and_return` and takes it back from the
/// result, so that it stays usable with a single allocation.
pub fn returning() -> (lines: Vec<String>)
    ensures
        lines.deep_view() == seq![ownership_and_return_line("food"@), again_line("food"@)],
{
    let mut out: Vec<String> = Vec::new();
    let thing = String::from_str("food");
    let thing = print_ownership_and_return(thing, &mut out);
    print_again(thing.as_str(), &mut out);
    assert(out.deep_view() =~= seq![ownership_and_return_line("food"@), again_line("food"@)]);
    out
}

} // verus!
