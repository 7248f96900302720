//! Qualified and bare identifiers.
//!
//! A qualified identifier starts with a qualifier, `<prefix>:<method>:`, that
//! says which kind of thing it names and on which network it lives. The
//! prefix is fixed per kind of identifier; the method is a non-empty run of
//! lower-case letters and digits. A bare identifier starts with no qualifier.

use crate::utils::text::{chars_of, lemma_run_len_holds, lemma_run_len_is, run_len};
use vstd::prelude::*;

verus! {

/// The characters a method name is made of: `a` to `z` and `0` to `9`.
pub open spec fn is_method_char(c: char) -> bool {
    ('a' <= c && c <= 'z') || ('0' <= c && c <= '9')
}

/// Whether `name` can stand as a method: not empty, method characters only.
pub open spec fn is_method(name: Seq<char>) -> bool {
    &&& name.len() > 0
    &&& forall|i: int| 0 <= i < name.len() ==> is_method_char(#[trigger] name[i])
}

/// The qualifier `<prefix>:<method>:`.
pub open spec fn qualifier(prefix: Seq<char>, method: Seq<char>) -> Seq<char> {
    prefix + seq![':'] + method + seq![':']
}

/// The kind of character that `is_method_char` accepts.
pub open spec fn method_chars() -> spec_fn(char) -> bool {
    |c: char| is_method_char(c)
}

/// How many method characters `s` starts with.
pub open spec fn method_len(s: Seq<char>) -> nat {
    run_len(s, method_chars())
}

/// The length of the qualifier that `s` starts with, for an identifier of the
/// kind that `prefix` stands for; `None` where `s` starts with none.
pub open spec fn qualifier_len(prefix: Seq<char>, s: Seq<char>) -> Option<int> {
    let p = prefix.len() as int;
    let m = method_len(s.skip(p + 1)) as int;
    if p < s.len() && s.take(p) == prefix && s[p] == ':' && m > 0 && p + 1 + m < s.len() && s[p
        + 1 + m] == ':' {
        Some(p + m + 2)
    } else {
        None
    }
}

/// Whether `s` starts with no qualifier.
pub open spec fn is_bare(prefix: Seq<char>, s: Seq<char>) -> bool {
    qualifier_len(prefix, s) is None
}

/// `s` without the qualifiers it starts with.
pub open spec fn unqualified(prefix: Seq<char>, s: Seq<char>) -> Seq<char>
    decreases s.len(),
{
    match qualifier_len(prefix, s) {
        Some(n) => unqualified(prefix, s.skip(n)),
        None => s,
    }
}

/// A string that starts with a qualifier is that qualifier and what follows
/// it, and the qualifier's method is well formed.
pub proof fn lemma_qualifier_parts(prefix: Seq<char>, s: Seq<char>)
    requires
        qualifier_len(prefix, s) is Some,
    ensures
        ({
            let n = qualifier_len(prefix, s)->0;
            let method = s.subrange(prefix.len() as int + 1, n - 1);
            &&& prefix.len() + 2 < n <= s.len()
            &&& is_method(method)
            &&& s == qualifier(prefix, method) + s.skip(n)
        }),
{
    let p = prefix.len() as int;
    let n = qualifier_len(prefix, s)->0;
    let method = s.subrange(p + 1, n - 1);
    lemma_run_len_holds(s.skip(p + 1), method_chars());
    assert forall|i: int| 0 <= i < method.len() implies is_method_char(#[trigger] method[i]) by {
        assert(method[i] == s.skip(p + 1)[i]);
    }
    assert(s.take(p) == prefix);
    assert(s =~= s.take(p) + seq![':'] + method + seq![':'] + s.skip(n));
}

/// A qualifier in front of anything is found again, whole.
pub proof fn lemma_qualifier_found(prefix: Seq<char>, method: Seq<char>, rest: Seq<char>)
    requires
        is_method(method),
    ensures
        qualifier_len(prefix, qualifier(prefix, method) + rest) == Some(
            qualifier(prefix, method).len() as int,
        ),
        unqualified(prefix, qualifier(prefix, method) + rest) == unqualified(prefix, rest),
{
    let p = prefix.len() as int;
    let s = qualifier(prefix, method) + rest;
    let tail = s.skip(p + 1);
    assert(s.take(p) =~= prefix);
    assert forall|i: int| 0 <= i < method.len() implies is_method_char(#[trigger] tail[i]) by {
        assert(tail[i] == method[i]);
    }
    assert(tail[method.len() as int] == ':');
    lemma_run_len_is(tail, method_chars(), method.len() as int);
    assert(s.skip(p + method.len() + 2) =~= rest);
}

/// What `unqualified` leaves starts with no qualifier.
pub proof fn lemma_unqualified_is_bare(prefix: Seq<char>, s: Seq<char>)
    ensures
        is_bare(prefix, unqualified(prefix, s)),
    decreases s.len(),
{
    if let Some(n) = qualifier_len(prefix, s) {
        lemma_unqualified_is_bare(prefix, s.skip(n));
    }
}

/// A bare identifier is its own bare form.
pub proof fn lemma_bare_unchanged(prefix: Seq<char>, s: Seq<char>)
    requires
        is_bare(prefix, s),
    ensures
        unqualified(prefix, s) == s,
{
}

/// Removing the qualifiers a second time changes nothing.
pub proof fn lemma_unqualified_idempotent(prefix: Seq<char>, s: Seq<char>)
    ensures
        unqualified(prefix, unqualified(prefix, s)) == unqualified(prefix, s),
{
    lemma_unqualified_is_bare(prefix, s);
    lemma_bare_unchanged(prefix, unqualified(prefix, s));
}

/// Whether `c` can stand in a method name.
pub fn method_char(c: char) -> (yes: bool)
    ensures
        yes == is_method_char(c),
{
    ('a' <= c && c <= 'z') || ('0' <= c && c <= '9')
}

/// Counts the method characters that stand at `from` and after it.
fn method_run(chars: &Vec<char>, from: usize) -> (n: usize)
    requires
        from <= chars.len(),
    ensures
        n == method_len(chars@.skip(from as int)),
        from + n <= chars.len(),
{
    let mut end: usize = from;
    while end < chars.len() && method_char(chars[end])
        invariant
            from <= end <= chars.len(),
            forall|i: int| from <= i < end ==> is_method_char(#[trigger] chars@[i]),
        decreases chars.len() - end,
    {
        end += 1;
    }
    proof {
        lemma_run_len_is(chars@.skip(from as int), method_chars(), end - from);
    }
    end - from
}

/// Whether `prefix` stands in `chars` at `from`.
fn stands_at(prefix: &Vec<char>, chars: &Vec<char>, from: usize) -> (yes: bool)
    requires
        from + prefix.len() <= chars.len(),
    ensures
        yes == (chars@.subrange(from as int, from + prefix.len()) == prefix@),
{
    let mut i: usize = 0;
    while i < prefix.len()
        invariant
            i <= prefix.len(),
            from + prefix.len() <= chars.len(),
            forall|j: int| 0 <= j < i ==> chars@[from + j] == prefix@[j],
        decreases prefix.len() - i,
    {
        if chars[from + i] != prefix[i] {
            assert(chars@.subrange(from as int, from + prefix.len())[i as int] != prefix@[i as int]);
            return false;
        }
        i += 1;
    }
    assert(chars@.subrange(from as int, from + prefix.len()) =~= prefix@);
    true
}

/// The length of the qualifier that stands in `chars` at `from`, if one does.
fn leading_qualifier(prefix: &Vec<char>, chars: &Vec<char>, from: usize) -> (found: Option<usize>)
    requires
        from <= chars.len(),
    ensures
        match found {
            Some(n) => qualifier_len(prefix@, chars@.skip(from as int)) == Some(n as int) && 0 < n
                <= chars.len() - from,
            None => qualifier_len(prefix@, chars@.skip(from as int)) is None,
        },
{
    let p: usize = prefix.len();
    let ghost s = chars@.skip(from as int);
    if p >= chars.len() - from {
        return None;
    }
    assert(s.take(p as int) =~= chars@.subrange(from as int, from + p));
    if !stands_at(prefix, chars, from) {
        return None;
    }
    if chars[from + p] != ':' {
        return None;
    }
    assert(s.skip(p + 1) =~= chars@.skip(from + p + 1));
    let m: usize = method_run(chars, from + p + 1);
    if m == 0 {
        return None;
    }
    if from + p + 1 + m >= chars.len() {
        return None;
    }
    if chars[from + p + 1 + m] != ':' {
        return None;
    }
    Some(p + m + 2)
}

/// Where in `chars` the bare identifier starts.
pub fn bare_start(prefix: &Vec<char>, chars: &Vec<char>) -> (start: usize)
    ensures
        start <= chars.len(),
        chars@.skip(start as int) == unqualified(prefix@, chars@),
{
    let mut start: usize = 0;
    assert(chars@.skip(0) =~= chars@);
    loop
        invariant
            start <= chars.len(),
            unqualified(prefix@, chars@.skip(start as int)) == unqualified(prefix@, chars@),
        decreases chars.len() - start,
    {
        match leading_qualifier(prefix, chars, start) {
            Some(n) => {
                assert(chars@.skip(start as int).skip(n as int) =~= chars@.skip(start + n));
                start = start + n;
            },
            None => {
                return start;
            },
        }
    }
}

/// The bare form of `id`, an identifier of the kind that `prefix` stands for.
pub fn to_unqualified(prefix: &str, id: &str) -> (bare: String)
    ensures
        bare@ == unqualified(prefix@, id@),
{
    let chars = chars_of(id);
    let start = bare_start(&chars_of(prefix), &chars);
    String::from_str(id.substring_char(start, chars.len()))
}

} // verus!
