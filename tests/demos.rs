use rust_101_examples::borrowing::{borrow_lifetime, mutable_until_borrowed, print_shared_borrow, shared};
use rust_101_examples::ownership::{cloning, moves, print_ownership, print_ownership_and_return, returning};
use rust_101_examples::strings::{print_slice, remove_vowels, slice, slice_from, vowel};
use rust_101_examples::transcript::{emit, prefixed, print_again};

#[test]
fn moves_reports_the_moved_value() {
    assert_eq!(moves(), vec!["Ownership, food".to_string()]);
}

#[test]
fn cloning_keeps_the_original() {
    assert_eq!(
        cloning(),
        vec!["Ownership, food".to_string(), "I love, \"food\", again.".to_string()]
    );
}

#[test]
fn clone_mutated_by_callee_leaves_original_unchanged() {
    let thing = "food".to_string();
    let mut copy = thing.clone();
    copy.push('s');
    let mut out: Vec<String> = Vec::new();
    print_ownership(copy, &mut out);
    print_again(&thing, &mut out);
    assert_eq!(thing, "food");
    assert_eq!(out, vec!["Ownership, foods".to_string(), "I love, \"food\", again.".to_string()]);
}

#[test]
fn returning_hands_the_value_back() {
    assert_eq!(
        returning(),
        vec!["Ownership and return, food".to_string(), "I love, \"food\", again.".to_string()]
    );
    let mut out: Vec<String> = Vec::new();
    let back = print_ownership_and_return("bread".to_string(), &mut out);
    assert_eq!(back, "bread");
    assert_eq!(out, vec!["Ownership and return, bread".to_string()]);
}

#[test]
fn shared_lends_repeatedly() {
    let food = "Ownership, food".to_string();
    assert_eq!(
        shared(),
        vec![food.clone(), "I love, \"food\", again.".to_string(), food.clone(), food]
    );
}

#[test]
fn shared_borrow_leaves_owner_usable() {
    let thing = "tea".to_string();
    let view: &String = &thing;
    let mut out: Vec<String> = Vec::new();
    print_shared_borrow(view, &mut out);
    print_shared_borrow(view, &mut out);
    assert_eq!(thing, "tea");
    assert_eq!(out, vec!["Ownership, tea".to_string(), "Ownership, tea".to_string()]);
}

#[test]
fn mutation_before_borrow_is_kept() {
    let (lines, thing) = mutable_until_borrowed();
    assert_eq!(lines, vec!["Ownership, foods".to_string(), "Ownership, foods".to_string()]);
    assert_eq!(thing, "foods");
}

#[test]
fn mutation_after_scoped_borrow_is_kept() {
    let (lines, thing) = borrow_lifetime();
    assert_eq!(lines, vec!["Ownership, food".to_string(), "Ownership, food".to_string()]);
    assert_eq!(thing, "foods");
}

#[test]
fn slice_demo_lines() {
    assert_eq!(slice(), vec!["i2u".to_string(), "hi2u".to_string(), "2".to_string()]);
}

#[test]
fn food_slices_and_vowels() {
    let thing = "food".to_string();
    assert_eq!(slice_from(&thing, 1), "ood");
    assert_eq!(slice_from(&thing, 0), "food");
    assert_eq!(slice_from(&thing, 4), "");
    assert_eq!(remove_vowels(slice_from(&thing, 1)), "d");
    assert_eq!(thing, "food");
}

#[test]
fn slice_counts_characters_not_bytes() {
    assert_eq!(slice_from("żółw", 1), "ółw");
    assert_eq!(slice_from("żółw", 3), "w");
}

#[test]
fn remove_vowels_empty() {
    assert_eq!(remove_vowels(""), "");
}

#[test]
fn remove_vowels_without_vowels_is_unchanged() {
    assert_eq!(remove_vowels("rhythm 42"), "rhythm 42");
    let once = remove_vowels("education");
    assert_eq!(once, "dctn");
    assert_eq!(remove_vowels(&once), once);
}

#[test]
fn remove_vowels_length_plus_vowels_is_length() {
    let input = "a quick brown fox jumps over the lazy dog";
    let output = remove_vowels(input);
    let vowels = input.chars().filter(|c| "aeiou".contains(*c)).count();
    assert_eq!(output.chars().count() + vowels, input.chars().count());
    assert_eq!(output, " qck brwn fx jmps vr th lzy dg");
}

#[test]
fn remove_vowels_is_case_sensitive() {
    assert_eq!(remove_vowels("AEIOU aeiou"), "AEIOU ");
    assert_eq!(remove_vowels("héllo wörld"), "héll wörld");
    assert!(vowel('a') && vowel('u'));
    assert!(!vowel('A') && !vowel('y') && !vowel('é'));
}

#[test]
fn print_slice_reports_the_view() {
    let mut out: Vec<String> = Vec::new();
    print_slice(slice_from("hi2u", 2), &mut out);
    assert_eq!(out, vec!["2u".to_string()]);
}

#[test]
fn transcript_helpers() {
    let mut out: Vec<String> = vec!["first".to_string()];
    emit(&mut out, "second".to_string());
    print_again("x", &mut out);
    assert_eq!(out, vec!["first".to_string(), "second".to_string(), "I love, \"x\", again.".to_string()]);
    assert_eq!(prefixed("ab", "cd"), "abcd");
}

#[test]
fn scalars_are_copied_when_passed() {
    fn take(thing: i32, another_thing: f32) -> (i32, f32) {
        (thing + 1, another_thing * 2.0)
    }
    let thing: i32 = 42;
    let another_thing: f32 = 42.2;
    let _ = take(thing, another_thing);
    assert_eq!(thing, 42);
    assert_eq!(another_thing, 42.2);
}
