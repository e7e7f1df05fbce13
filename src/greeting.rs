//! The greeting operation: a fixed template around the caller's name.
use vstd::prelude::*;

verus! {

/// The text that stands before the name in every greeting.
pub open spec fn greeting_head() -> Seq<char> {
    "Hello, "@
}

/// The text that stands after the name in every greeting.
pub open spec fn greeting_tail() -> Seq<char> {
    "! You've been greeted from Rust!"@
}

/// The greeting for `name`: the name verbatim between head and tail.
pub open spec fn greeting_of(name: Seq<char>) -> Seq<char> {
    greeting_head() + name + greeting_tail()
}

/// Greets `name`. Total: every string, the empty one included, is accepted
/// and appears unchanged in the result.
pub fn greet(name: &str) -> (r: String)
    ensures
        r@ == greeting_of(name@),
{
    let mut r = String::from_str("Hello, ");
    r.append(name);
    r.append("! You've been greeted from Rust!");
    r
}

/// Every greeting holds the name as a contiguous run of characters, right
/// after the head, and ends with the tail.
pub proof fn lemma_greeting_embeds_name(name: Seq<char>)
    ensures
        greeting_of(name).len() == greeting_head().len() + name.len() + greeting_tail().len(),
        greeting_of(name).subrange(0, greeting_head().len() as int) == greeting_head(),
        greeting_of(name).subrange(
            greeting_head().len() as int,
            (greeting_head().len() + name.len()) as int,
        ) == name,
        greeting_of(name).subrange(
            (greeting_head().len() + name.len()) as int,
            greeting_of(name).len() as int,
        ) == greeting_tail(),
{
    let h = greeting_head();
    let g = greeting_of(name);
    assert(g.subrange(0, h.len() as int) =~= h);
    assert(g.subrange(h.len() as int, (h.len() + name.len()) as int) =~= name);
    assert(g.subrange((h.len() + name.len()) as int, g.len() as int) =~= greeting_tail());
}

} // verus!
