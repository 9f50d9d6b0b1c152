use vstd::prelude::*;
use vstd::string::{StrSliceExecFns, StringExecFns};
use crate::transcript::emit;

verus! {

/// The vowels that are removed: lowercase `a`, `e`, `i`, `o`, `u`, exactly.
pub open spec fn is_vowel(c: char) -> bool {
    c == 'a' || c == 'e' || c == 'i' || c == 'o' || c == 'u'
}

/// The characters of `s` that are not vowels, in their original order.
pub open spec fn without_vowels(s: Seq<char>) -> Seq<char> {
    s.filter(|c: char| !is_vowel(c))
}

/// How many characters of `s` are vowels.
pub open spec fn vowel_count(s: Seq<char>) -> nat {
    s.filter(|c: char| is_vowel(c)).len()
}

/// Removing vowels from `s` followed by `c` keeps exactly what `c` adds.
proof fn lemma_without_vowels_push(s: Seq<char>, c: char)
    ensures
        without_vowels(s.push(c)) == (if is_vowel(c) {
            without_vowels(s)
        } else {
            without_vowels(s).push(c)
        }),
        vowel_count(s.push(c)) == vowel_count(s) + (if is_vowel(c) {
            1nat
        } else {
            0nat
        }),
{
    reveal(Seq::filter);
    assert(s.push(c).drop_last() == s);
    assert(s.push(c).last() == c);
}

/// Removing vowels drops exactly the vowels: the output's length plus the
/// number of vowels in the input is the input's length.
pub proof fn lemma_remove_vowels_length(s: Seq<char>)
    ensures
        without_vowels(s).len() + vowel_count(s) == s.len(),
    decreases s.len(),
{
    if s.len() > 0 {
        lemma_remove_vowels_length(s.drop_last());
        assert(s == s.drop_last().push(s.last()));
        lemma_without_vowels_push(s.drop_last(), s.last());
    } else {
        reveal(Seq::filter);
    }
}

/// A text without vowels comes out of vowel removal unchanged, and removing
/// vowels a second time changes nothing.
pub proof fn lemma_remove_vowels_idempotent(s: Seq<char>)
    ensures
        vowel_count(s) == 0 ==> without_vowels(s) == s,
        without_vowels(without_vowels(s)) == without_vowels(s),
        vowel_count(without_vowels(s)) == 0,
    decreases s.len(),
{
    if s.len() > 0 {
        let t = s.drop_last();
        let c = s.last();
        lemma_remove_vowels_idempotent(t);
        assert(s == t.push(c));
        lemma_without_vowels_push(t, c);
        if !is_vowel(c) {
            lemma_without_vowels_push(without_vowels(t), c);
        }
    } else {
        reveal(Seq::filter);
    }
}

/// Relies on `String::push`: appends one character at the end.
pub assume_specification[ String::push ](s: &mut String, ch: char)
    ensures
        final(s)@ == old(s)@.push(ch),
;

/// Whether `c` is one of the five lowercase vowels.
pub fn vowel(c: char) -> (r: bool)
    ensures
        r == is_vowel(c),
{
    c == 'a' || c == 'e' || c == 'i' || c == 'o' || c == 'u'
}

/// A fresh string holding every character of `name` except the lowercase
/// vowels, in order. `name` itself is only read.
pub fn remove_vowels(name: &str) -> (r: String)
    ensures
        r@ == without_vowels(name@),
{
    let n = name.unicode_len();
    let mut output = String::new();
    let mut i: usize = 0;
    while i < n
        invariant
            n == name@.len(),
            i <= n,
            output@ == without_vowels(name@.take(i as int)),
        decreases n - i,
    {
        let c = name.get_char(i);
        proof {
            assert(name@.take(i + 1) == name@.take(i as int).push(c));
            lemma_without_vowels_push(name@.take(i as int), c);
        }
        if !vowel(c) {
            output.push(c);
        }
        i = i + 1;
    }
    assert(name@.take(n as int) == name@);
    output
}

/// A view of `thing` from character `start` to its end, without copying.
pub fn slice_from(thing: &str, start: usize) -> (r: &str)
    requires
        start <= thing@.len(),
    ensures
        r@ == thing@.subrange(start as int, thing@.len() as int),
{
    let n = thing.unicode_len();
    thing.substring_char(start, n)
}

/// Reports the text that `name` views.
pub fn print_slice(name: &str, out: &mut Vec<String>)
    ensures
        final(out).deep_view() == old(out).deep_view().push(name@),
{
    emit(out, String::from_str(name));
}

/// Views a value from its second character and whole, then builds a new
/// value from the partial view with its vowels removed.
pub fn slice() -> (lines: Vec<String>)
    ensures
        lines.deep_view() == seq!["i2u"@, "hi2u"@, "2"@],
{
    let mut out: Vec<String> = Vec::new();
    let thing = String::from_str("hi2u");
    proof {
        reveal_strlit("hi2u");
        reveal_strlit("i2u");
        reveal_strlit("2");
    }
    print_slice(slice_from(thing.as_str(), 1), &mut out);
    print_slice(thing.as_str(), &mut out);
    let tail = slice_from(thing.as_str(), 1);
    assert(tail@ =~= "i2u"@);
    let stripped = remove_vowels(tail);
    proof {
        reveal_with_fuel(Seq::filter, 4);
        assert(without_vowels("i2u"@) =~= "2"@);
    }
    emit(&mut out, stripped);
    assert(out.deep_view() =~= seq!["i2u"@, "hi2u"@, "2"@]);
    out
}

} // verus!
