use vstd::prelude::*;

verus! {

/// Whether a glob pattern text compiles.
pub uninterp spec fn glob_ok(pat: Seq<char>) -> bool;

/// Whether a glob pattern matches a file name.
pub uninterp spec fn glob_match(pat: Seq<char>, name: Seq<char>) -> bool;

/// Relies on glob::Pattern::new: whether a pattern text compiles is a
/// function of the text alone.
#[verifier::external_body]
pub(crate) fn glob_compiles(pat: &Vec<char>) -> (r: bool)
    ensures
        r == glob_ok(pat@),
{
    let s: String = pat.iter().collect();
    glob::Pattern::new(&s).is_ok()
}

/// Relies on glob::Pattern::matches: the answer is a function of the pattern
/// text and the name alone. A pattern text that does not compile matches no
/// name.
#[verifier::external_body]
pub(crate) fn glob_matches(pat: &Vec<char>, name: &str) -> (r: bool)
    ensures
        glob_ok(pat@) ==> r == glob_match(pat@, name@),
        !glob_ok(pat@) ==> r == false,
{
    let s: String = pat.iter().collect();
    match glob::Pattern::new(&s) {
        Ok(p) => p.matches(name),
        Err(_) => false,
    }
}

} // verus!
