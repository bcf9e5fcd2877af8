//! Role enumerations: the closed sets of actor and agent roles, exact-match
//! validation, and ASCII case folding for the agent role, which is accepted
//! in any letter case and normalized to lower case.

use vstd::prelude::*;

verus! {

use crate::text::str_eq;
use vstd::string::StrSliceExecFns;
use vstd::string::StringExecFns;

/// The closed set of actor roles.
pub open spec fn is_actor_role(s: Seq<char>) -> bool {
    s == "human"@ || s == "ceo"@ || s == "director"@ || s == "manager"@ || s == "worker"@
}

/// The closed set of agent roles: the actor roles without `human`.
pub open spec fn is_agent_role(s: Seq<char>) -> bool {
    s == "ceo"@ || s == "director"@ || s == "manager"@ || s == "worker"@
}

/// ASCII case folding of one character: `A`..`Z` map to `a`..`z`, everything
/// else is unchanged.
pub open spec fn lower_char(c: char) -> char {
    if c == 'A' {
        'a'
    } else if c == 'B' {
        'b'
    } else if c == 'C' {
        'c'
    } else if c == 'D' {
        'd'
    } else if c == 'E' {
        'e'
    } else if c == 'F' {
        'f'
    } else if c == 'G' {
        'g'
    } else if c == 'H' {
        'h'
    } else if c == 'I' {
        'i'
    } else if c == 'J' {
        'j'
    } else if c == 'K' {
        'k'
    } else if c == 'L' {
        'l'
    } else if c == 'M' {
        'm'
    } else if c == 'N' {
        'n'
    } else if c == 'O' {
        'o'
    } else if c == 'P' {
        'p'
    } else if c == 'Q' {
        'q'
    } else if c == 'R' {
        'r'
    } else if c == 'S' {
        's'
    } else if c == 'T' {
        't'
    } else if c == 'U' {
        'u'
    } else if c == 'V' {
        'v'
    } else if c == 'W' {
        'w'
    } else if c == 'X' {
        'x'
    } else if c == 'Y' {
        'y'
    } else if c == 'Z' {
        'z'
    } else {
        c
    }
}

/// ASCII case folding of a whole string.
pub open spec fn lower_seq(s: Seq<char>) -> Seq<char> {
    s.map_values(|c: char| lower_char(c))
}

fn lower_char_exec(c: char) -> (r: char)
    ensures
        r == lower_char(c),
{
    if c == 'A' {
        'a'
    } else if c == 'B' {
        'b'
    } else if c == 'C' {
        'c'
    } else if c == 'D' {
        'd'
    } else if c == 'E' {
        'e'
    } else if c == 'F' {
        'f'
    } else if c == 'G' {
        'g'
    } else if c == 'H' {
        'h'
    } else if c == 'I' {
        'i'
    } else if c == 'J' {
        'j'
    } else if c == 'K' {
        'k'
    } else if c == 'L' {
        'l'
    } else if c == 'M' {
        'm'
    } else if c == 'N' {
        'n'
    } else if c == 'O' {
        'o'
    } else if c == 'P' {
        'p'
    } else if c == 'Q' {
        'q'
    } else if c == 'R' {
        'r'
    } else if c == 'S' {
        's'
    } else if c == 'T' {
        't'
    } else if c == 'U' {
        'u'
    } else if c == 'V' {
        'v'
    } else if c == 'W' {
        'w'
    } else if c == 'X' {
        'x'
    } else if c == 'Y' {
        'y'
    } else if c == 'Z' {
        'z'
    } else {
        c
    }
}

/// Whether the case folding of `a` equals `b` character for character.
fn folded_eq(a: &str, b: &str) -> (r: bool)
    ensures
        r == (lower_seq(a@) == b@),
{
    let alen = a.unicode_len();
    let blen = b.unicode_len();
    if alen != blen {
        return false;
    }
    let mut i: usize = 0;
    while i < alen
        invariant
            i <= alen,
            alen == a@.len(),
            alen == b@.len(),
            forall|j: int| 0 <= j < i ==> lower_seq(a@)[j] == b@[j],
        decreases alen - i,
    {
        if lower_char_exec(a.get_char(i)) != b.get_char(i) {
            return false;
        }
        i += 1;
    }
    proof {
        assert(lower_seq(a@) =~= b@);
    }
    true
}

/// Whether `role` is exactly one of the actor roles.
pub fn valid_actor_role(role: &str) -> (r: bool)
    ensures
        r == is_actor_role(role@),
{
    str_eq(role, "human") || str_eq(role, "ceo") || str_eq(role, "director") || str_eq(
        role,
        "manager",
    ) || str_eq(role, "worker")
}

/// Whether `role` is exactly one of the agent roles.
pub fn valid_agent_role(role: &str) -> (r: bool)
    ensures
        r == is_agent_role(role@),
{
    str_eq(role, "ceo") || str_eq(role, "director") || str_eq(role, "manager") || str_eq(
        role,
        "worker",
    )
}

/// Case-fold `role` and check it against the actor roles; on success return
/// the folded role.
pub fn normalize_actor_role(role: &str) -> (r: Option<String>)
    ensures
        r is Some <==> is_actor_role(lower_seq(role@)),
        r is Some ==> r.unwrap()@ == lower_seq(role@),
{
    if folded_eq(role, "human") {
        Some(String::from_str("human"))
    } else {
        normalize_agent_role(role)
    }
}

/// Case-fold `role` and check it against the agent roles; on success return
/// the folded role.
pub fn normalize_agent_role(role: &str) -> (r: Option<String>)
    ensures
        r is Some <==> is_agent_role(lower_seq(role@)),
        r is Some ==> r.unwrap()@ == lower_seq(role@),
{
    if folded_eq(role, "ceo") {
        Some(String::from_str("ceo"))
    } else if folded_eq(role, "director") {
        Some(String::from_str("director"))
    } else if folded_eq(role, "manager") {
        Some(String::from_str("manager"))
    } else if folded_eq(role, "worker") {
        Some(String::from_str("worker"))
    } else {
        None
    }
}

} // verus!
