//! The form in which records are exchanged and stored.
//!
//! A record travels as a document: a list of named fields whose values are
//! texts, numbers, opaque values or documents again. A record of a kind that
//! may change over time carries its version in the field `ver`, and a reader
//! that does not know the version refuses the document.

use crate::opaque::OpaqueValue;
use vstd::prelude::*;

verus! {

/// The name of the field that holds a record's version.
pub const VER: &'static str = "ver";

/// The one version that records have today.
pub const VERSION_1: &'static str = "1.0";

/// A value in the exchanged form.
#[derive(Debug, PartialEq, Eq)]
pub enum Document {
    Text(String),
    Number(u32),
    Opaque(OpaqueValue),
    Record(Vec<Field>),
}

/// A named value of a record.
#[derive(Debug, PartialEq, Eq)]
pub struct Field {
    pub name: String,
    pub value: Document,
}

/// What a `Document` holds.
pub ghost enum DocumentView {
    Text(Seq<char>),
    Number(u32),
    Opaque(Seq<u8>),
    Record(Seq<FieldView>),
}

/// What a `Field` holds.
pub ghost struct FieldView {
    pub name: Seq<char>,
    pub value: DocumentView,
}

/// Why a document was refused.
#[derive(Copy, Clone, Debug, PartialEq, Eq)]
pub enum DecodeError {
    /// A record was expected and another kind of value found.
    NotARecord,
    /// The record lacks a field.
    MissingField,
    /// The record holds a field twice.
    DuplicateField,
    /// A field holds a value of another kind than expected.
    UnexpectedKind,
    /// The field `ver` names a version that this reader does not know.
    UnknownVersion,
    /// A field holds a name that is none of those it may hold.
    UnknownVariant,
}

/// What `document` holds.
pub open spec fn document_view(document: Document) -> DocumentView
    decreases document,
{
    match document {
        Document::Text(text) => DocumentView::Text(text@),
        Document::Number(number) => DocumentView::Number(number),
        Document::Opaque(value) => DocumentView::Opaque(value@),
        Document::Record(fields) => DocumentView::Record(fields_view(fields@)),
    }
}

/// What each of `fields` holds, in order.
pub open spec fn fields_view(fields: Seq<Field>) -> Seq<FieldView>
    decreases fields,
{
    if fields.len() == 0 {
        Seq::empty()
    } else {
        fields_view(fields.drop_last()).push(
            FieldView { name: fields.last().name@, value: document_view(fields.last().value) },
        )
    }
}

impl View for Document {
    type V = DocumentView;

    open spec fn view(&self) -> DocumentView {
        document_view(*self)
    }
}

impl View for Field {
    type V = FieldView;

    open spec fn view(&self) -> FieldView {
        FieldView { name: self.name@, value: self.value@ }
    }
}

/// `fields_view` goes field by field.
pub proof fn lemma_fields_view(fields: Seq<Field>)
    ensures
        fields_view(fields).len() == fields.len(),
        forall|i: int| 0 <= i < fields.len() ==> (#[trigger] fields_view(fields)[i]) == fields[i]@,
    decreases fields.len(),
{
    if fields.len() > 0 {
        lemma_fields_view(fields.drop_last());
    }
}

/// Whether the field of `fields` at `i` has the name `name`.
pub open spec fn named(fields: Seq<FieldView>, name: Seq<char>, i: int) -> bool {
    0 <= i < fields.len() && fields[i].name == name
}

/// The value of the one field of `fields` with the name `name`.
pub open spec fn lookup(fields: Seq<FieldView>, name: Seq<char>) -> Result<
    DocumentView,
    DecodeError,
> {
    if !exists|i: int| named(fields, name, i) {
        Err(DecodeError::MissingField)
    } else if exists|i: int, j: int| i != j && named(fields, name, i) && named(fields, name, j) {
        Err(DecodeError::DuplicateField)
    } else {
        Ok(fields[choose|i: int| named(fields, name, i)].value)
    }
}

/// The fields of `document`, which must be a record.
pub open spec fn record_of(document: DocumentView) -> Result<Seq<FieldView>, DecodeError> {
    match document {
        DocumentView::Record(fields) => Ok(fields),
        _ => Err(DecodeError::NotARecord),
    }
}

/// The version that `document` names: the text in its field `ver`.
pub open spec fn version_of(document: DocumentView) -> Result<Seq<char>, DecodeError> {
    match record_of(document) {
        Ok(fields) => text_at(fields, VER@),
        Err(error) => Err(error),
    }
}

/// The text in the field `name`.
pub open spec fn text_at(fields: Seq<FieldView>, name: Seq<char>) -> Result<
    Seq<char>,
    DecodeError,
> {
    match lookup(fields, name) {
        Ok(DocumentView::Text(text)) => Ok(text),
        Ok(_) => Err(DecodeError::UnexpectedKind),
        Err(error) => Err(error),
    }
}

/// The number in the field `name`.
pub open spec fn number_at(fields: Seq<FieldView>, name: Seq<char>) -> Result<u32, DecodeError> {
    match lookup(fields, name) {
        Ok(DocumentView::Number(number)) => Ok(number),
        Ok(_) => Err(DecodeError::UnexpectedKind),
        Err(error) => Err(error),
    }
}

/// The opaque value in the field `name`.
pub open spec fn opaque_at(fields: Seq<FieldView>, name: Seq<char>) -> Result<
    Seq<u8>,
    DecodeError,
> {
    match lookup(fields, name) {
        Ok(DocumentView::Opaque(value)) => Ok(value),
        Ok(_) => Err(DecodeError::UnexpectedKind),
        Err(error) => Err(error),
    }
}

/// The fields of the record in the field `name`.
pub open spec fn record_at(fields: Seq<FieldView>, name: Seq<char>) -> Result<
    Seq<FieldView>,
    DecodeError,
> {
    match lookup(fields, name) {
        Ok(DocumentView::Record(inner)) => Ok(inner),
        Ok(_) => Err(DecodeError::UnexpectedKind),
        Err(error) => Err(error),
    }
}

/// A field found at `at` and nowhere else is the one that `lookup` gives.
pub proof fn lemma_lookup_at(fields: Seq<FieldView>, name: Seq<char>, at: int)
    requires
        named(fields, name, at),
        forall|j: int| 0 <= j < fields.len() && j != at ==> (#[trigger] fields[j]).name != name,
    ensures
        lookup(fields, name) == Ok::<DocumentView, DecodeError>(fields[at].value),
{
    let found = choose|i: int| named(fields, name, i);
    assert(found == at) by {
        if found != at {
            assert(fields[found].name != name);
        }
    }
    assert forall|i: int, j: int|
        i != j && named(fields, name, i) implies !named(fields, name, j) by {
        if named(fields, name, j) {
            if i != at {
                assert(fields[i].name != name);
            } else {
                assert(fields[j].name != name);
            }
        }
    }
}

impl Document {
    /// The fields of a record.
    pub fn as_record(&self) -> (fields: Result<&Vec<Field>, DecodeError>)
        ensures
            match fields {
                Ok(fields) => record_of(self@) == Ok::<Seq<FieldView>, DecodeError>(
                    fields_view(fields@),
                ),
                Err(error) => record_of(self@) == Err::<Seq<FieldView>, DecodeError>(error),
            },
    {
        match self {
            Document::Record(fields) => Ok(fields),
            _ => Err(DecodeError::NotARecord),
        }
    }
}

impl Field {
    /// The field `name` with the value `value`.
    pub fn new(name: &str, value: Document) -> (field: Field)
        ensures
            field@ == (FieldView { name: name@, value: value@ }),
            field.value == value,
    {
        Field { name: String::from_str(name), value }
    }
}

/// The value of the one field with the name `name`.
pub fn find<'a>(fields: &'a Vec<Field>, name: &str) -> (found: Result<&'a Document, DecodeError>)
    ensures
        match found {
            Ok(value) => lookup(fields_view(fields@), name@) == Ok::<DocumentView, DecodeError>(
                value@,
            ),
            Err(error) => lookup(fields_view(fields@), name@) == Err::<DocumentView, DecodeError>(
                error,
            ),
        },
{
    let ghost views = fields_view(fields@);
    proof {
        lemma_fields_view(fields@);
    }
    let wanted = String::from_str(name);
    let mut at: Option<usize> = None;
    let mut i: usize = 0;
    while i < fields.len()
        invariant
            i <= fields.len(),
            wanted@ == name@,
            views == fields_view(fields@),
            views.len() == fields.len(),
            forall|j: int| 0 <= j < fields.len() ==> (#[trigger] views[j]) == fields@[j]@,
            match at {
                Some(k) => k < i && named(views, name@, k as int) && forall|j: int|
                    0 <= j < i && j != k ==> (#[trigger] views[j]).name != name@,
                None => forall|j: int| 0 <= j < i ==> (#[trigger] views[j]).name != name@,
            },
        decreases fields.len() - i,
    {
        if fields[i].name == wanted {
            assert(named(views, name@, i as int));
            if at.is_some() {
                assert(named(views, name@, at->0 as int));
                return Err(DecodeError::DuplicateField);
            }
            at = Some(i);
        }
        i += 1;
    }
    match at {
        Some(k) => {
            proof {
                lemma_lookup_at(views, name@, k as int);
            }
            Ok(&fields[k].value)
        },
        None => {
            assert forall|j: int| !named(views, name@, j) by {
                if 0 <= j < views.len() {
                    assert(views[j].name != name@);
                }
            }
            Err(DecodeError::MissingField)
        },
    }
}

/// The text in the field `name`.
pub fn find_text<'a>(fields: &'a Vec<Field>, name: &str) -> (found: Result<&'a String, DecodeError>)
    ensures
        match found {
            Ok(text) => text_at(fields_view(fields@), name@) == Ok::<Seq<char>, DecodeError>(text@),
            Err(error) => text_at(fields_view(fields@), name@) == Err::<Seq<char>, DecodeError>(
                error,
            ),
        },
{
    match find(fields, name) {
        Ok(Document::Text(text)) => Ok(text),
        Ok(_) => Err(DecodeError::UnexpectedKind),
        Err(error) => Err(error),
    }
}

/// The number in the field `name`.
pub fn find_number(fields: &Vec<Field>, name: &str) -> (found: Result<u32, DecodeError>)
    ensures
        found == number_at(fields_view(fields@), name@),
{
    match find(fields, name) {
        Ok(Document::Number(number)) => Ok(*number),
        Ok(_) => Err(DecodeError::UnexpectedKind),
        Err(error) => Err(error),
    }
}

/// The opaque value in the field `name`.
pub fn find_opaque<'a>(fields: &'a Vec<Field>, name: &str) -> (found: Result<
    &'a OpaqueValue,
    DecodeError,
>)
    ensures
        match found {
            Ok(value) => opaque_at(fields_view(fields@), name@) == Ok::<Seq<u8>, DecodeError>(
                value@,
            ),
            Err(error) => opaque_at(fields_view(fields@), name@) == Err::<Seq<u8>, DecodeError>(
                error,
            ),
        },
{
    match find(fields, name) {
        Ok(Document::Opaque(value)) => Ok(value),
        Ok(_) => Err(DecodeError::UnexpectedKind),
        Err(error) => Err(error),
    }
}

/// The fields of the record in the field `name`.
pub fn find_record<'a>(fields: &'a Vec<Field>, name: &str) -> (found: Result<
    &'a Vec<Field>,
    DecodeError,
>)
    ensures
        match found {
            Ok(inner) => record_at(fields_view(fields@), name@) == Ok::<
                Seq<FieldView>,
                DecodeError,
            >(fields_view(inner@)),
            Err(error) => record_at(fields_view(fields@), name@) == Err::<
                Seq<FieldView>,
                DecodeError,
            >(error),
        },
{
    match find(fields, name) {
        Ok(Document::Record(inner)) => Ok(inner),
        Ok(_) => Err(DecodeError::UnexpectedKind),
        Err(error) => Err(error),
    }
}

} // verus!
