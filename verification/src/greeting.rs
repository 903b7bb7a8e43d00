//! The greeting command: wraps a caller-supplied name in a fixed template.

use vstd::prelude::*;

verus! {

/// The fixed text that precedes the name in a greeting.
pub open spec fn greeting_prefix() -> Seq<char> {
    "Hello, "@
}

/// The fixed text that follows the name in a greeting.
pub open spec fn greeting_suffix() -> Seq<char> {
    "! You've been greeted from Rust!"@
}

/// The greeting built for a given name: the name, verbatim, between the
/// fixed prefix and suffix.
pub open spec fn greeting_of(name: Seq<char>) -> Seq<char> {
    greeting_prefix() + name + greeting_suffix()
}

/// Builds the greeting for `name`.
pub fn greet(name: &str) -> (r: String)
    ensures
        r@ == greeting_of(name@),
{
    let mut r = String::from_str("Hello, ");
    r.append(name);
    r.append("! You've been greeted from Rust!");
    r
}

/// The greeting for any name contains that name verbatim, directly between
/// the fixed prefix and the fixed suffix, and nothing else.
pub proof fn lemma_greeting_contains_name(name: Seq<char>)
    ensures
        greeting_of(name).len() == name.len() + 39,
        greeting_of(name).subrange(0, 7) == greeting_prefix(),
        greeting_of(name).subrange(7, 7 + name.len() as int) == name,
        greeting_of(name).subrange(7 + name.len() as int, 39 + name.len() as int)
            == greeting_suffix(),
{
    reveal_strlit("Hello, ");
    reveal_strlit("! You've been greeted from Rust!");
    assert(greeting_of(name).subrange(0, 7) =~= greeting_prefix());
    assert(greeting_of(name).subrange(7, 7 + name.len() as int) =~= name);
    assert(greeting_of(name).subrange(7 + name.len() as int, 39 + name.len() as int)
        =~= greeting_suffix());
}

} // verus!
