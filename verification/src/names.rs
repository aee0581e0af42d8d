//! The fixed list of directory names that count as disposable build artifacts.

use vstd::prelude::*;
use vstd::string::*;

verus! {

/// The directory names that are removed: the dependency and output directories
/// of three ecosystems.
pub const DIRS_TO_DELETE: [&'static str; 3] = ["node_modules", "vendor", "target"];

/// The deny-list as a sequence of names.
pub open spec fn deny_list() -> Seq<Seq<char>> {
    seq!["node_modules"@, "vendor"@, "target"@]
}

/// `name` is, character for character, one of the names of the deny-list.
pub open spec fn is_target_name(name: Seq<char>) -> bool {
    deny_list().contains(name)
}

/// Tells whether a directory with this base name is a deletion candidate.
pub fn is_target(name: &str) -> (hit: bool)
    ensures
        hit == is_target_name(name@),
{
    let wanted = String::from_str(name);
    let mut i: usize = 0;
    while i < DIRS_TO_DELETE.len()
        invariant
            i <= DIRS_TO_DELETE.len() == deny_list().len(),
            wanted@ == name@,
            forall|j: int| 0 <= j < i ==> deny_list()[j] != name@,
        decreases DIRS_TO_DELETE.len() - i,
    {
        if wanted == String::from_str(DIRS_TO_DELETE[i]) {
            return true;
        }
        i += 1;
    }
    false
}

/// The first name of the deny-list, character by character.
pub open spec fn node_modules_chars() -> Seq<char> {
    seq!['n', 'o', 'd', 'e', '_', 'm', 'o', 'd', 'u', 'l', 'e', 's']
}

/// The second name of the deny-list, character by character.
pub open spec fn vendor_chars() -> Seq<char> {
    seq!['v', 'e', 'n', 'd', 'o', 'r']
}

/// The third name of the deny-list, character by character.
pub open spec fn target_chars() -> Seq<char> {
    seq!['t', 'a', 'r', 'g', 'e', 't']
}

/// A name is a candidate exactly when it is spelled like one of the three
/// names of the deny-list: nothing shorter, longer or differently cased.
pub proof fn lemma_target_names_spelled(name: Seq<char>)
    ensures
        is_target_name(name) <==> name == node_modules_chars() || name == vendor_chars() || name
            == target_chars(),
{
    reveal_strlit("node_modules");
    reveal_strlit("vendor");
    reveal_strlit("target");
    let l = deny_list();
    assert(l[0] =~= node_modules_chars());
    assert(l[1] =~= vendor_chars());
    assert(l[2] =~= target_chars());
}

/// Matching is case-sensitive: a name that holds an upper-case letter is no
/// candidate, whatever the rest of it spells.
pub proof fn lemma_match_is_case_sensitive(name: Seq<char>, i: int)
    requires
        0 <= i < name.len(),
        'A' <= name[i] <= 'Z',
    ensures
        !is_target_name(name),
{
    lemma_target_names_spelled(name);
}

/// Matching is on the whole name: a deny-list name with anything before or
/// after it is no candidate.
pub proof fn lemma_no_partial_match(before: Seq<char>, name: Seq<char>, after: Seq<char>)
    requires
        is_target_name(name),
        before.len() + after.len() > 0,
    ensures
        !is_target_name(before + name + after),
{
    let whole = before + name + after;
    lemma_target_names_spelled(name);
    lemma_target_names_spelled(whole);
    // By length, only a six-letter name inside the twelve-letter one is left
    // to refute, and its first letter stands nowhere among the first seven.
    assert(whole.len() == before.len() + name.len() + after.len());
}

} // verus!
