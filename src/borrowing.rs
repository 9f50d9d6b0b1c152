use vstd::prelude::*;
use vstd::string::StringExecFns;
use crate::transcript::{emit, prefixed, print_again, ownership_line, again_line};

verus! {

/// Reads `thing` through a shared reference and reports it; the caller keeps
/// ownership and `thing` is not changed.
pub fn print_shared_borrow(thing: &String, out: &mut Vec<String>)
    ensures
        final(out).deep_view() == old(out).deep_view().push(ownership_line(thing@)),
{
    emit(out, prefixed("Ownership, ", thing.as_str()));
}

/// Lends a value through one shared reference, reads the owner again, then
/// lends it twice more through the same reference.
pub fn shared() -> (lines: Vec<String>)
    ensures
        lines.deep_view() == seq![
            ownership_line("food"@),
            again_line("food"@),
            ownership_line("food"@),
            ownership_line("food"@),
        ],
{
    let mut out: Vec<String> = Vec::new();
    let thing = String::from_str("food");
    let shared_reference: &String = &thing;
    print_shared_borrow(shared_reference, &mut out);
    print_again(thing.as_str(), &mut out);
    print_shared_borrow(shared_reference, &mut out);
    print_shared_borrow(shared_reference, &mut out);
    assert(out.deep_view() =~= seq![
        ownership_line("food"@),
        again_line("food"@),
        ownership_line("food"@),
        ownership_line("food"@),
    ]);
    out
}

/// Mutates a value before any reference to it exists, then lends it twice;
/// from then on the owner stays unchanged. Returns the lines reported and the
/// owner's final value.
pub fn mutable_until_borrowed() -> (r: (Vec<String>, String))
    ensures
        r.0.deep_view() == seq![ownership_line("foods"@), ownership_line("foods"@)],
        r.1@ == "foods"@,
{
    let mut out: Vec<String> = Vec::new();
    let mut thing = String::from_str("food");
    thing.push('s');
    let shared_reference: &String = &thing;
    print_shared_borrow(shared_reference, &mut out);
    print_shared_borrow(shared_reference, &mut out);
    proof {
        reveal_strlit("food");
        reveal_strlit("foods");
    }
    assert(thing@ == "foods"@);
    assert(out.deep_view() =~= seq![ownership_line("foods"@), ownership_line("foods"@)]);
    (out, thing)
}

/// Lends a value only inside an inner block; once the block closes, the
/// owner may be mutated again. Returns the lines reported and the owner's
/// final value.
pub fn borrow_lifetime() -> (r: (Vec<String>, String))
    ensures
        r.0.deep_view() == seq![ownership_line("food"@), ownership_line("food"@)],
        r.1@ == "foods"@,
{
    let mut out: Vec<String> = Vec::new();
    let mut thing = String::from_str("food");
    {
        let shared_reference: &String = &thing;
        print_shared_borrow(shared_reference, &mut out);
        print_shared_borrow(shared_reference, &mut out);
    }
    thing.push('s');
    proof {
        reveal_strlit("food");
        reveal_strlit("foods");
    }
    assert(thing@ == "foods"@);
    assert(out.deep_view() =~= seq![ownership_line("food"@), ownership_line("food"@)]);
    (out, thing)
}

} // verus!
