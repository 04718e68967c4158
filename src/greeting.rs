use vstd::prelude::*;
use vstd::string::*;

verus! {

/// The greeting for `name`: the name placed verbatim between a fixed
/// opening and a fixed closing.
pub open spec fn greeting_of(name: Seq<char>) -> Seq<char> {
    "Hello, "@ + name + "! You've been greeted from Rust!"@
}

/// The command exposed to the front end: greets `name`, whatever text it is.
pub fn greet(name: &str) -> (r: String)
    ensures
        r@ == greeting_of(name@),
{
    let mut r = String::from_str("Hello, ");
    r.append(name);
    r.append("! You've been greeted from Rust!");
    r
}

/// The greeting holds the name unaltered: it starts with the seven
/// characters "Hello, ", continues with every character of the name in
/// order, neither truncated nor escaped, and ends with the fixed closing.
pub proof fn lemma_greeting_keeps_name(name: Seq<char>)
    ensures
        greeting_of(name).len() == name.len() + 39,
        greeting_of(name).subrange(0, 7) == "Hello, "@,
        greeting_of(name).subrange(7, 7 + name.len() as int) == name,
        greeting_of(name).subrange(7 + name.len() as int, greeting_of(name).len() as int)
            == "! You've been greeted from Rust!"@,
{
    reveal_strlit("Hello, ");
    reveal_strlit("! You've been greeted from Rust!");
    let g = greeting_of(name);
    let a = "Hello, "@;
    let c = "! You've been greeted from Rust!"@;
    assert(g.subrange(0, 7) =~= a);
    let n = name.len() as int;
    assert(g.subrange(7, 7 + n) =~= name);
    assert(g.subrange(7 + n, g.len() as int) =~= c);
}

} // verus!
