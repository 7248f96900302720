//! The state of a revocation registry, and the change that an issuance or a
//! revocation makes to it.

use crate::envelope::{
    fields_view, find_opaque, find_text, lemma_fields_view, lemma_lookup_at, opaque_at, version_of,
    DecodeError, Document, DocumentView, Field, FieldView, VER, VERSION_1,
};
use crate::opaque::OpaqueValue;
use crate::validation::{Validatable, ValidationError};
use vstd::prelude::*;

verus! {

/// The name of the field that holds the accumulator or its delta.
pub const VALUE: &'static str = "value";

/// The state of a registry's accumulator, in one of its versions.
#[derive(Clone, Debug, PartialEq, Eq)]
pub enum RevocationRegistry {
    RevocationRegistryV1(RevocationRegistryV1),
}

/// The first version of a registry's state.
#[derive(Clone, Debug, PartialEq, Eq)]
pub struct RevocationRegistryV1 {
    pub value: OpaqueValue,
}

/// A change to a registry's accumulator, in one of its versions.
#[derive(Clone, Debug, PartialEq, Eq)]
pub enum RevocationRegistryDelta {
    RevocationRegistryDeltaV1(RevocationRegistryDeltaV1),
}

/// The first version of a change to a registry's accumulator.
#[derive(Clone, Debug, PartialEq, Eq)]
pub struct RevocationRegistryDeltaV1 {
    pub value: OpaqueValue,
}

/// What a `RevocationRegistry` holds.
pub ghost enum RevocationRegistryView {
    V1 { value: Seq<u8> },
}

/// What a `RevocationRegistryDelta` holds.
pub ghost enum RevocationRegistryDeltaView {
    V1 { value: Seq<u8> },
}

impl View for RevocationRegistry {
    type V = RevocationRegistryView;

    open spec fn view(&self) -> RevocationRegistryView {
        match self {
            RevocationRegistry::RevocationRegistryV1(v1) => RevocationRegistryView::V1 {
                value: v1.value@,
            },
        }
    }
}

impl View for RevocationRegistryDelta {
    type V = RevocationRegistryDeltaView;

    open spec fn view(&self) -> RevocationRegistryDeltaView {
        match self {
            RevocationRegistryDelta::RevocationRegistryDeltaV1(v1) => RevocationRegistryDeltaView::V1 {
                value: v1.value@,
            },
        }
    }
}

/// The document of version `ver` whose one other field holds `value`.
pub open spec fn tagged(ver: Seq<char>, value: Seq<u8>) -> DocumentView {
    DocumentView::Record(
        seq![
            FieldView { name: VER@, value: DocumentView::Text(ver) },
            FieldView { name: VALUE@, value: DocumentView::Opaque(value) },
        ],
    )
}

/// The opaque value that `document` holds, if `document` is a record of the
/// first version.
pub open spec fn untagged(document: DocumentView) -> Result<Seq<u8>, DecodeError> {
    match version_of(document) {
        Ok(ver) => if ver == VERSION_1@ {
            opaque_at(document->Record_0, VALUE@)
        } else {
            Err(DecodeError::UnknownVersion)
        },
        Err(error) => Err(error),
    }
}

/// A tagged value is read back if it is of the first version, and is refused
/// as of an unknown version if it is of any other.
pub proof fn lemma_untagged_tagged(ver: Seq<char>, value: Seq<u8>)
    ensures
        ver == VERSION_1@ ==> untagged(tagged(ver, value)) == Ok::<Seq<u8>, DecodeError>(value),
        ver != VERSION_1@ ==> untagged(tagged(ver, value)) == Err::<Seq<u8>, DecodeError>(
            DecodeError::UnknownVersion,
        ),
{
    let fields = tagged(ver, value)->Record_0;
    reveal_strlit("ver");
    reveal_strlit("value");
    assert(VER@.len() != VALUE@.len());
    lemma_lookup_at(fields, VER@, 0);
    lemma_lookup_at(fields, VALUE@, 1);
}

/// The document that holds `value` under the first version.
fn tag(value: &OpaqueValue) -> (document: Document)
    ensures
        document@ == tagged(VERSION_1@, value@),
{
    let mut fields: Vec<Field> = Vec::new();
    fields.push(Field::new(VER, Document::Text(String::from_str(VERSION_1))));
    fields.push(Field::new(VALUE, Document::Opaque(value.clone())));
    proof {
        lemma_fields_view(fields@);
        assert(fields_view(fields@) =~= tagged(VERSION_1@, value@)->Record_0);
    }
    Document::Record(fields)
}

/// The opaque value that `document` holds under the first version.
fn untag(document: &Document) -> (value: Result<OpaqueValue, DecodeError>)
    ensures
        match value {
            Ok(value) => untagged(document@) == Ok::<Seq<u8>, DecodeError>(value@),
            Err(error) => untagged(document@) == Err::<Seq<u8>, DecodeError>(error),
        },
{
    let fields = document.as_record()?;
    let ver = find_text(fields, VER)?;
    if *ver != String::from_str(VERSION_1) {
        return Err(DecodeError::UnknownVersion);
    }
    let value = find_opaque(fields, VALUE)?;
    Ok(value.clone())
}

impl RevocationRegistry {
    /// The document in which `registry` travels.
    pub open spec fn encoded(registry: RevocationRegistryView) -> DocumentView {
        match registry {
            RevocationRegistryView::V1 { value } => tagged(VERSION_1@, value),
        }
    }

    /// The registry state that `document` holds, or why it holds none.
    pub open spec fn decoded(document: DocumentView) -> Result<
        RevocationRegistryView,
        DecodeError,
    > {
        match untagged(document) {
            Ok(value) => Ok(RevocationRegistryView::V1 { value }),
            Err(error) => Err(error),
        }
    }

    /// What encoding wrote, decoding reads back: the same value under the
    /// same version.
    pub proof fn lemma_round_trip(registry: RevocationRegistryView)
        ensures
            Self::decoded(Self::encoded(registry)) == Ok::<RevocationRegistryView, DecodeError>(
                registry,
            ),
            version_of(Self::encoded(registry)) == Ok::<Seq<char>, DecodeError>(VERSION_1@),
    {
        lemma_untagged_tagged(VERSION_1@, registry->value);
    }

    /// A document is read only under the first version: one that names
    /// another is refused as of an unknown version, whatever else it holds.
    pub proof fn lemma_version_checked(document: DocumentView)
        ensures
            Self::decoded(document) is Ok ==> version_of(document) == Ok::<Seq<char>, DecodeError>(
                VERSION_1@,
            ),
            version_of(document) is Ok && version_of(document) != Ok::<Seq<char>, DecodeError>(
                VERSION_1@,
            ) ==> Self::decoded(document) == Err::<RevocationRegistryView, DecodeError>(
                DecodeError::UnknownVersion,
            ),
    {
    }

    /// The registry state as a document.
    pub fn encode(&self) -> (document: Document)
        ensures
            document@ == Self::encoded(self@),
    {
        match self {
            RevocationRegistry::RevocationRegistryV1(v1) => tag(&v1.value),
        }
    }

    /// The registry state that `document` holds.
    pub fn decode(document: &Document) -> (registry: Result<RevocationRegistry, DecodeError>)
        ensures
            match registry {
                Ok(registry) => Self::decoded(document@) == Ok::<
                    RevocationRegistryView,
                    DecodeError,
                >(registry@),
                Err(error) => Self::decoded(document@) == Err::<
                    RevocationRegistryView,
                    DecodeError,
                >(error),
            },
    {
        let value = untag(document)?;
        Ok(RevocationRegistry::RevocationRegistryV1(RevocationRegistryV1 { value }))
    }
}

impl RevocationRegistryDelta {
    /// The document in which `delta` travels.
    pub open spec fn encoded(delta: RevocationRegistryDeltaView) -> DocumentView {
        match delta {
            RevocationRegistryDeltaView::V1 { value } => tagged(VERSION_1@, value),
        }
    }

    /// The delta that `document` holds, or why it holds none.
    pub open spec fn decoded(document: DocumentView) -> Result<
        RevocationRegistryDeltaView,
        DecodeError,
    > {
        match untagged(document) {
            Ok(value) => Ok(RevocationRegistryDeltaView::V1 { value }),
            Err(error) => Err(error),
        }
    }

    /// What encoding wrote, decoding reads back: the same value under the
    /// same version.
    pub proof fn lemma_round_trip(delta: RevocationRegistryDeltaView)
        ensures
            Self::decoded(Self::encoded(delta)) == Ok::<RevocationRegistryDeltaView, DecodeError>(
                delta,
            ),
            version_of(Self::encoded(delta)) == Ok::<Seq<char>, DecodeError>(VERSION_1@),
    {
        lemma_untagged_tagged(VERSION_1@, delta->value);
    }

    /// A document is read only under the first version: one that names
    /// another is refused as of an unknown version, whatever else it holds.
    pub proof fn lemma_version_checked(document: DocumentView)
        ensures
            Self::decoded(document) is Ok ==> version_of(document) == Ok::<Seq<char>, DecodeError>(
                VERSION_1@,
            ),
            version_of(document) is Ok && version_of(document) != Ok::<Seq<char>, DecodeError>(
                VERSION_1@,
            ) ==> Self::decoded(document) == Err::<RevocationRegistryDeltaView, DecodeError>(
                DecodeError::UnknownVersion,
            ),
    {
    }

    /// The delta as a document.
    pub fn encode(&self) -> (document: Document)
        ensures
            document@ == Self::encoded(self@),
    {
        match self {
            RevocationRegistryDelta::RevocationRegistryDeltaV1(v1) => tag(&v1.value),
        }
    }

    /// The delta that `document` holds.
    pub fn decode(document: &Document) -> (delta: Result<RevocationRegistryDelta, DecodeError>)
        ensures
            match delta {
                Ok(delta) => Self::decoded(document@) == Ok::<
                    RevocationRegistryDeltaView,
                    DecodeError,
                >(delta@),
                Err(error) => Self::decoded(document@) == Err::<
                    RevocationRegistryDeltaView,
                    DecodeError,
                >(error),
            },
    {
        let value = untag(document)?;
        Ok(RevocationRegistryDelta::RevocationRegistryDeltaV1(RevocationRegistryDeltaV1 { value }))
    }
}

impl Validatable for RevocationRegistryDelta {
    /// Nothing is asked of a delta beyond its form as a document.
    open spec fn rejection(&self) -> Option<Seq<char>> {
        None
    }

    /// Accepts every delta.
    fn validate(&self) -> (outcome: Result<(), ValidationError>)
        ensures
            outcome is Ok,
    {
        Ok(())
    }
}

} // verus!
