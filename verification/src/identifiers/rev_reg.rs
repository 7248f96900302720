//! Identifiers of revocation registries.
//!
//! In its bare form such an identifier reads
//! `<issuer>:4:<credential definition>:<registry type>:<tag>`: at least five
//! segments parted by colons, none of them empty, the second being the marker
//! `4`. The credential definition may itself hold colons.

use crate::utils::qualifiable::{
    bare_start, is_bare, lemma_unqualified_is_bare, to_unqualified, unqualified,
};
use crate::utils::text::{chars_of, lemma_run_len_holds, lemma_run_len_is, run_len};
use crate::validation::{Validatable, ValidationError};
use vstd::prelude::*;

verus! {

/// The prefix of a qualified registry identifier.
pub const PREFIX: &'static str = "revreg";

/// What parts the segments of an identifier.
pub const DELIMITER: char = ':';

/// The segment that marks an identifier as that of a registry.
pub const MARKER: char = '4';

/// The fewest segments a bare registry identifier can have.
pub const MIN_SEGMENTS: usize = 5;

/// The identifier of a revocation registry, qualified or bare.
#[derive(Clone, Debug, PartialEq, Eq)]
pub struct RevocationRegistryId(pub String);

impl View for RevocationRegistryId {
    type V = Seq<char>;

    open spec fn view(&self) -> Seq<char> {
        self.0@
    }
}

/// The kind of character a segment is made of: any but the delimiter.
pub open spec fn segment_chars() -> spec_fn(char) -> bool {
    |c: char| c != DELIMITER
}

/// The pieces of `s` between its delimiters, in order. A string without a
/// delimiter is one segment; `n` delimiters make `n + 1` segments.
pub open spec fn segments(s: Seq<char>) -> Seq<Seq<char>>
    decreases s.len(),
{
    let n = run_len(s, segment_chars()) as int;
    if n < s.len() {
        seq![s.take(n)] + segments(s.skip(n + 1))
    } else {
        seq![s]
    }
}

/// `parts` in a row, with a delimiter between each two.
pub open spec fn joined(parts: Seq<Seq<char>>) -> Seq<char>
    decreases parts.len(),
{
    if parts.len() == 0 {
        Seq::empty()
    } else if parts.len() == 1 {
        parts[0]
    } else {
        parts[0] + seq![DELIMITER] + joined(parts.drop_first())
    }
}

/// The segments of a string hold no delimiter, and joined they are the string
/// again.
pub proof fn lemma_segments(s: Seq<char>)
    ensures
        segments(s).len() >= 1,
        joined(segments(s)) == s,
        forall|k: int, i: int|
            0 <= k < segments(s).len() && 0 <= i < segments(s)[k].len() ==> #[trigger] segments(
                s,
            )[k][i] != DELIMITER,
    decreases s.len(),
{
    let n = run_len(s, segment_chars()) as int;
    lemma_run_len_holds(s, segment_chars());
    if n < s.len() {
        let rest = s.skip(n + 1);
        lemma_segments(rest);
        let parts = segments(s);
        assert(parts.drop_first() =~= segments(rest));
        assert(joined(parts) =~= s);
        assert forall|k: int, i: int|
            0 <= k < parts.len() && 0 <= i < parts[k].len() implies #[trigger] parts[k][i]
            != DELIMITER by {
            if k > 0 {
                assert(parts[k] == segments(rest)[k - 1]);
            }
        }
    }
}

/// The bare form of a registry identifier.
pub open spec fn bare_form(id: Seq<char>) -> Seq<char> {
    unqualified(PREFIX@, id)
}

/// Whether `bare` has the form of a bare registry identifier.
pub open spec fn is_registry_id(bare: Seq<char>) -> bool {
    let parts = segments(bare);
    &&& parts.len() >= MIN_SEGMENTS
    &&& parts[1] == seq![MARKER]
    &&& forall|k: int| 0 <= k < parts.len() ==> (#[trigger] parts[k]).len() > 0
}

/// Whether `id`, qualified or bare, is a well-formed registry identifier.
pub open spec fn well_formed(id: Seq<char>) -> bool {
    is_registry_id(bare_form(id))
}

/// The message with which a malformed identifier is rejected.
pub open spec fn malformed_message(id: Seq<char>) -> Seq<char> {
    "Revocation Registry Id validation failed: "@ + id + ", doesn't match pattern"@
}

/// Whether no segment of `parts` is empty and the second, if there is one, is
/// the marker.
spec fn sound(parts: Seq<Seq<char>>) -> bool {
    &&& forall|k: int| 0 <= k < parts.len() ==> (#[trigger] parts[k]).len() > 0
    &&& parts.len() >= 2 ==> parts[1] == seq![MARKER]
}

/// One more segment keeps `parts` sound exactly if it is not empty and, where
/// it comes second, is the marker.
proof fn lemma_sound_push(parts: Seq<Seq<char>>, piece: Seq<char>)
    ensures
        sound(parts.push(piece)) == (sound(parts) && piece.len() > 0 && (parts.len() == 1
            ==> piece == seq![MARKER])),
{
    let longer = parts.push(piece);
    assert(longer[parts.len() as int] == piece);
    if sound(longer) {
        assert forall|k: int| 0 <= k < parts.len() implies (#[trigger] parts[k]).len() > 0 by {
            assert(longer[k] == parts[k]);
        }
        if parts.len() >= 2 {
            assert(longer[1] == parts[1]);
        }
    }
    if sound(parts) && piece.len() > 0 && (parts.len() == 1 ==> piece == seq![MARKER]) {
        assert forall|k: int| 0 <= k < longer.len() implies (#[trigger] longer[k]).len() > 0 by {
            if k < parts.len() {
                assert(longer[k] == parts[k]);
            }
        }
        if parts.len() >= 2 {
            assert(longer[1] == parts[1]);
        }
    }
}

/// Whether the characters from `start` on have the form of a bare registry
/// identifier.
fn has_registry_form(chars: &Vec<char>, start: usize) -> (yes: bool)
    requires
        start <= chars.len(),
    ensures
        yes == is_registry_id(chars@.skip(start as int)),
{
    let ghost bare = chars@.skip(start as int);
    let ghost mut done: Seq<Seq<char>> = Seq::empty();
    let mut count: usize = 0;
    let mut fine: bool = true;
    let mut from: usize = start;
    let mut i: usize = start;
    assert(done + segments(chars@.skip(from as int)) =~= segments(bare));
    while i < chars.len()
        invariant
            start <= from <= i <= chars.len(),
            bare == chars@.skip(start as int),
            count == done.len(),
            count <= from - start,
            segments(bare) == done + segments(chars@.skip(from as int)),
            forall|j: int| from <= j < i ==> chars@[j] != DELIMITER,
            fine == sound(done),
        decreases chars.len() - i,
    {
        if chars[i] == DELIMITER {
            let ghost rest = chars@.skip(from as int);
            let ghost piece = chars@.subrange(from as int, i as int);
            proof {
                lemma_run_len_is(rest, segment_chars(), i - from);
                assert(rest.take(i - from) =~= piece);
                assert(rest.skip(i - from + 1) =~= chars@.skip(i + 1));
                assert(done.push(piece) + segments(chars@.skip(i + 1)) =~= done + segments(rest));
                lemma_sound_push(done, piece);
            }
            if i == from {
                fine = false;
            } else if count == 1 {
                if i - from != 1 || chars[from] != MARKER {
                    fine = false;
                    assert(piece[0] == chars@[from as int]);
                } else {
                    assert(piece =~= seq![MARKER]);
                }
            }
            proof {
                done = done.push(piece);
            }
            count += 1;
            from = i + 1;
        }
        i += 1;
    }
    let ghost last = chars@.skip(from as int);
    proof {
        lemma_run_len_is(last, segment_chars(), last.len() as int);
        assert(segments(last) =~= seq![last]);
        assert(segments(bare) =~= done.push(last));
        lemma_sound_push(done, last);
    }
    fine && count >= MIN_SEGMENTS - 1 && from < chars.len()
}

impl RevocationRegistryId {
    /// The identifier that `text` spells.
    pub fn new(text: &str) -> (id: RevocationRegistryId)
        ensures
            id@ == text@,
    {
        RevocationRegistryId(String::from_str(text))
    }

    /// The same identifier without the qualifiers it starts with.
    pub fn to_unqualified(&self) -> (bare: RevocationRegistryId)
        ensures
            bare@ == bare_form(self@),
            is_bare(PREFIX@, bare@),
    {
        proof {
            lemma_unqualified_is_bare(PREFIX@, self@);
        }
        RevocationRegistryId(to_unqualified(PREFIX, self.0.as_str()))
    }

    /// Whether the identifier is well formed.
    pub fn is_well_formed(&self) -> (yes: bool)
        ensures
            yes == well_formed(self@),
    {
        let chars = chars_of(self.0.as_str());
        let start = bare_start(&chars_of(PREFIX), &chars);
        has_registry_form(&chars, start)
    }
}

impl Validatable for RevocationRegistryId {
    open spec fn rejection(&self) -> Option<Seq<char>> {
        if well_formed(self@) {
            None
        } else {
            Some(malformed_message(self@))
        }
    }

    /// Accepts a well-formed identifier and rejects any other.
    fn validate(&self) -> (outcome: Result<(), ValidationError>) {
        if self.is_well_formed() {
            Ok(())
        } else {
            let message = String::from_str("Revocation Registry Id validation failed: ").concat(
                self.0.as_str(),
            ).concat(", doesn't match pattern");
            Err(ValidationError { message })
        }
    }
}

} // verus!
