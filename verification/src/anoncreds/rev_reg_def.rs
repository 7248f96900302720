//! Registry definitions: issuance policy, capacity, key material and the
//! creation request that precedes them.

use crate::anoncreds::rev_reg::VALUE;
use crate::envelope::{
    fields_view, find_number, find_opaque, find_record, find_text, lemma_fields_view,
    lemma_lookup_at, number_at, opaque_at, record_at, text_at, version_of, DecodeError, Document,
    DocumentView, Field, FieldView, VER, VERSION_1,
};
use crate::identifiers::cred_def;
use crate::identifiers::cred_def::CredentialDefinitionId;
use crate::identifiers::rev_reg;
use crate::identifiers::rev_reg::RevocationRegistryId;
use crate::opaque::OpaqueValue;
use crate::utils::qualifiable::lemma_unqualified_idempotent;
use crate::validation::{Validatable, ValidationError};
use vstd::prelude::*;

verus! {

/// The name under which the one registry type travels.
pub const CL_ACCUM: &'static str = "CL_ACCUM";

/// The name under which issuance by default travels.
pub const ISSUANCE_BY_DEFAULT: &'static str = "ISSUANCE_BY_DEFAULT";

/// The name under which issuance on demand travels.
pub const ISSUANCE_ON_DEMAND: &'static str = "ISSUANCE_ON_DEMAND";

/// The message with which a request for a registry without capacity is
/// rejected.
pub const ZERO_CAPACITY: &'static str =
    "RevocationRegistryConfig validation failed: `max_cred_num` must be greater than 0";

/// The name of the field that holds a definition's identifier.
pub const ID: &'static str = "id";

/// The name of the field that holds a definition's registry type.
pub const REVOC_DEF_TYPE: &'static str = "revocDefType";

/// The name of the field that holds a definition's tag.
pub const TAG: &'static str = "tag";

/// The name of the field that holds the identifier of the credential
/// definition.
pub const CRED_DEF_ID: &'static str = "credDefId";

/// The name of the field that holds the issuance policy.
pub const ISSUANCE_TYPE: &'static str = "issuanceType";

/// The name of the field that holds the capacity.
pub const MAX_CRED_NUM: &'static str = "maxCredNum";

/// The name of the field that holds the public keys.
pub const PUBLIC_KEYS: &'static str = "publicKeys";

/// The name of the field that holds the accumulator's public key.
pub const ACCUM_KEY: &'static str = "accumKey";

/// The name of the field that holds the hash of the tails file.
pub const TAILS_HASH: &'static str = "tailsHash";

/// The name of the field that holds the location of the tails file.
pub const TAILS_LOCATION: &'static str = "tailsLocation";

/// Whether credentials count as issued from the start or only once the issuer
/// acts.
#[allow(non_camel_case_types)]
#[derive(Copy, Clone, Debug, PartialEq, Eq)]
pub enum IssuanceType {
    ISSUANCE_BY_DEFAULT,
    ISSUANCE_ON_DEMAND,
}

impl IssuanceType {
    /// The name under which the policy travels.
    pub open spec fn name(self) -> Seq<char> {
        match self {
            IssuanceType::ISSUANCE_BY_DEFAULT => ISSUANCE_BY_DEFAULT@,
            IssuanceType::ISSUANCE_ON_DEMAND => ISSUANCE_ON_DEMAND@,
        }
    }

    /// The policy that travels under `name`.
    pub open spec fn named(name: Seq<char>) -> Option<IssuanceType> {
        if name == ISSUANCE_BY_DEFAULT@ {
            Some(IssuanceType::ISSUANCE_BY_DEFAULT)
        } else if name == ISSUANCE_ON_DEMAND@ {
            Some(IssuanceType::ISSUANCE_ON_DEMAND)
        } else {
            None
        }
    }

    /// Every policy is found again under its name.
    pub proof fn lemma_named_name(self)
        ensures
            Self::named(self.name()) == Some(self),
    {
        reveal_strlit("ISSUANCE_BY_DEFAULT");
        reveal_strlit("ISSUANCE_ON_DEMAND");
        assert(ISSUANCE_BY_DEFAULT@.len() != ISSUANCE_ON_DEMAND@.len());
    }

    /// `true` exactly for `ISSUANCE_BY_DEFAULT`.
    pub fn to_bool(&self) -> (by_default: bool)
        ensures
            by_default == (*self == IssuanceType::ISSUANCE_BY_DEFAULT),
            by_default == !(*self == IssuanceType::ISSUANCE_ON_DEMAND),
    {
        match *self {
            IssuanceType::ISSUANCE_BY_DEFAULT => true,
            IssuanceType::ISSUANCE_ON_DEMAND => false,
        }
    }

    /// The name under which the policy travels.
    pub fn to_str(&self) -> (name: &'static str)
        ensures
            name@ == self.name(),
    {
        match *self {
            IssuanceType::ISSUANCE_BY_DEFAULT => ISSUANCE_BY_DEFAULT,
            IssuanceType::ISSUANCE_ON_DEMAND => ISSUANCE_ON_DEMAND,
        }
    }

    /// The policy that travels under `name`, if one does.
    pub fn from_name(name: &String) -> (policy: Option<IssuanceType>)
        ensures
            policy == Self::named(name@),
    {
        if *name == String::from_str(ISSUANCE_BY_DEFAULT) {
            Some(IssuanceType::ISSUANCE_BY_DEFAULT)
        } else if *name == String::from_str(ISSUANCE_ON_DEMAND) {
            Some(IssuanceType::ISSUANCE_ON_DEMAND)
        } else {
            None
        }
    }
}

/// The way a registry keeps track of revocations.
#[allow(non_camel_case_types)]
#[derive(Copy, Clone, Debug, PartialEq, Eq)]
pub enum RegistryType {
    CL_ACCUM,
}

impl RegistryType {
    /// The name under which the registry type travels.
    pub open spec fn name(self) -> Seq<char> {
        match self {
            RegistryType::CL_ACCUM => CL_ACCUM@,
        }
    }

    /// The registry type that travels under `name`.
    pub open spec fn named(name: Seq<char>) -> Option<RegistryType> {
        if name == CL_ACCUM@ {
            Some(RegistryType::CL_ACCUM)
        } else {
            None
        }
    }

    /// The name under which the registry type travels: `CL_ACCUM`.
    pub fn to_str(&self) -> (name: &'static str)
        ensures
            name@ == self.name(),
            name@ == "CL_ACCUM"@,
            Self::named(name@) == Some(*self),
    {
        match *self {
            RegistryType::CL_ACCUM => CL_ACCUM,
        }
    }

    /// The registry type that travels under `name`, if one does.
    pub fn from_name(name: &String) -> (registry_type: Option<RegistryType>)
        ensures
            registry_type == Self::named(name@),
    {
        if *name == String::from_str(CL_ACCUM) {
            Some(RegistryType::CL_ACCUM)
        } else {
            None
        }
    }
}

/// How a registry issues, how many credentials it can hold, and where its
/// key and its tails file are found.
#[derive(Clone, Debug, PartialEq, Eq)]
pub struct RevocationRegistryDefinitionValue {
    pub issuance_type: IssuanceType,
    pub max_cred_num: u32,
    pub public_keys: RevocationRegistryDefinitionValuePublicKeys,
    pub tails_hash: String,
    pub tails_location: String,
}

/// The public key material of a registry.
#[derive(Clone, Debug, PartialEq, Eq)]
pub struct RevocationRegistryDefinitionValuePublicKeys {
    pub accum_key: OpaqueValue,
}

/// The public definition of a registry, in one of its versions.
#[derive(Clone, Debug, PartialEq, Eq)]
pub enum RevocationRegistryDefinition {
    RevocationRegistryDefinitionV1(RevocationRegistryDefinitionV1),
}

/// The first version of a registry's public definition.
#[derive(Clone, Debug, PartialEq, Eq)]
pub struct RevocationRegistryDefinitionV1 {
    pub id: RevocationRegistryId,
    pub revoc_def_type: RegistryType,
    pub tag: String,
    pub cred_def_id: CredentialDefinitionId,
    pub value: RevocationRegistryDefinitionValue,
}

/// The private key that belongs to a registry's definition.
#[derive(Debug, PartialEq, Eq)]
pub struct RevocationRegistryDefinitionPrivate {
    pub value: OpaqueValue,
}

/// An issuer's request for a new registry.
#[derive(Debug, PartialEq, Eq)]
pub struct RevocationRegistryConfig {
    pub issuance_type: Option<IssuanceType>,
    pub max_cred_num: Option<u32>,
}

/// What a `RevocationRegistryDefinitionValue` holds.
pub ghost struct RevocationRegistryDefinitionValueView {
    pub issuance_type: IssuanceType,
    pub max_cred_num: u32,
    pub accum_key: Seq<u8>,
    pub tails_hash: Seq<char>,
    pub tails_location: Seq<char>,
}

/// What a `RevocationRegistryDefinitionV1` holds.
pub ghost struct RevocationRegistryDefinitionV1View {
    pub id: Seq<char>,
    pub revoc_def_type: RegistryType,
    pub tag: Seq<char>,
    pub cred_def_id: Seq<char>,
    pub value: RevocationRegistryDefinitionValueView,
}

/// What a `RevocationRegistryDefinition` holds.
pub ghost enum RevocationRegistryDefinitionView {
    V1(RevocationRegistryDefinitionV1View),
}

impl View for RevocationRegistryDefinitionValuePublicKeys {
    type V = Seq<u8>;

    open spec fn view(&self) -> Seq<u8> {
        self.accum_key@
    }
}

impl View for RevocationRegistryDefinitionValue {
    type V = RevocationRegistryDefinitionValueView;

    open spec fn view(&self) -> RevocationRegistryDefinitionValueView {
        RevocationRegistryDefinitionValueView {
            issuance_type: self.issuance_type,
            max_cred_num: self.max_cred_num,
            accum_key: self.public_keys@,
            tails_hash: self.tails_hash@,
            tails_location: self.tails_location@,
        }
    }
}

impl View for RevocationRegistryDefinitionV1 {
    type V = RevocationRegistryDefinitionV1View;

    open spec fn view(&self) -> RevocationRegistryDefinitionV1View {
        RevocationRegistryDefinitionV1View {
            id: self.id@,
            revoc_def_type: self.revoc_def_type,
            tag: self.tag@,
            cred_def_id: self.cred_def_id@,
            value: self.value@,
        }
    }
}

impl View for RevocationRegistryDefinition {
    type V = RevocationRegistryDefinitionView;

    open spec fn view(&self) -> RevocationRegistryDefinitionView {
        match self {
            RevocationRegistryDefinition::RevocationRegistryDefinitionV1(v1) => {
                RevocationRegistryDefinitionView::V1(v1@)
            },
        }
    }
}

impl RevocationRegistryDefinitionValue {
    /// The fields in which `value` travels.
    pub open spec fn encoded(value: RevocationRegistryDefinitionValueView) -> Seq<FieldView> {
        seq![
            FieldView {
                name: ISSUANCE_TYPE@,
                value: DocumentView::Text(value.issuance_type.name()),
            },
            FieldView { name: MAX_CRED_NUM@, value: DocumentView::Number(value.max_cred_num) },
            FieldView {
                name: PUBLIC_KEYS@,
                value: DocumentView::Record(
                    seq![
                        FieldView { name: ACCUM_KEY@, value: DocumentView::Opaque(value.accum_key) },
                    ],
                ),
            },
            FieldView { name: TAILS_HASH@, value: DocumentView::Text(value.tails_hash) },
            FieldView { name: TAILS_LOCATION@, value: DocumentView::Text(value.tails_location) },
        ]
    }

    /// What `fields` hold, or why they hold no value of a definition. The
    /// fields are read in the order in which `encoded` writes them, and the
    /// first that fails decides.
    pub open spec fn decoded(fields: Seq<FieldView>) -> Result<
        RevocationRegistryDefinitionValueView,
        DecodeError,
    > {
        match text_at(fields, ISSUANCE_TYPE@) {
            Err(error) => Err(error),
            Ok(policy) => match IssuanceType::named(policy) {
                None => Err(DecodeError::UnknownVariant),
                Some(issuance_type) => match number_at(fields, MAX_CRED_NUM@) {
                    Err(error) => Err(error),
                    Ok(max_cred_num) => match record_at(fields, PUBLIC_KEYS@) {
                        Err(error) => Err(error),
                        Ok(keys) => match opaque_at(keys, ACCUM_KEY@) {
                            Err(error) => Err(error),
                            Ok(accum_key) => match text_at(fields, TAILS_HASH@) {
                                Err(error) => Err(error),
                                Ok(tails_hash) => match text_at(fields, TAILS_LOCATION@) {
                                    Err(error) => Err(error),
                                    Ok(tails_location) => Ok(
                                        RevocationRegistryDefinitionValueView {
                                            issuance_type,
                                            max_cred_num,
                                            accum_key,
                                            tails_hash,
                                            tails_location,
                                        },
                                    ),
                                },
                            },
                        },
                    },
                },
            },
        }
    }

    /// What encoding wrote, decoding reads back.
    pub proof fn lemma_round_trip(value: RevocationRegistryDefinitionValueView)
        ensures
            Self::decoded(Self::encoded(value)) == Ok::<
                RevocationRegistryDefinitionValueView,
                DecodeError,
            >(value),
    {
        let fields = Self::encoded(value);
        let keys = fields[2].value->Record_0;
        reveal_strlit("issuanceType");
        reveal_strlit("maxCredNum");
        reveal_strlit("publicKeys");
        reveal_strlit("accumKey");
        reveal_strlit("tailsHash");
        reveal_strlit("tailsLocation");
        assert(MAX_CRED_NUM@[0] != PUBLIC_KEYS@[0]);
        assert(ISSUANCE_TYPE@.len() == 12 && MAX_CRED_NUM@.len() == 10 && PUBLIC_KEYS@.len() == 10
            && TAILS_HASH@.len() == 9 && TAILS_LOCATION@.len() == 13);
        lemma_lookup_at(fields, ISSUANCE_TYPE@, 0);
        lemma_lookup_at(fields, MAX_CRED_NUM@, 1);
        lemma_lookup_at(fields, PUBLIC_KEYS@, 2);
        lemma_lookup_at(keys, ACCUM_KEY@, 0);
        lemma_lookup_at(fields, TAILS_HASH@, 3);
        lemma_lookup_at(fields, TAILS_LOCATION@, 4);
        value.issuance_type.lemma_named_name();
    }

    /// The value as the fields of a record.
    pub fn encode(&self) -> (fields: Vec<Field>)
        ensures
            fields_view(fields@) == Self::encoded(self@),
    {
        let mut keys: Vec<Field> = Vec::new();
        keys.push(Field::new(ACCUM_KEY, Document::Opaque(self.public_keys.accum_key.clone())));
        proof {
            lemma_fields_view(keys@);
            assert(fields_view(keys@) =~= seq![
                FieldView { name: ACCUM_KEY@, value: DocumentView::Opaque(self@.accum_key) },
            ]);
        }
        let mut fields: Vec<Field> = Vec::new();
        fields.push(
            Field::new(
                ISSUANCE_TYPE,
                Document::Text(String::from_str(self.issuance_type.to_str())),
            ),
        );
        fields.push(Field::new(MAX_CRED_NUM, Document::Number(self.max_cred_num)));
        fields.push(Field::new(PUBLIC_KEYS, Document::Record(keys)));
        fields.push(Field::new(TAILS_HASH, Document::Text(self.tails_hash.clone())));
        fields.push(Field::new(TAILS_LOCATION, Document::Text(self.tails_location.clone())));
        proof {
            lemma_fields_view(fields@);
            assert(fields_view(fields@) =~= Self::encoded(self@));
        }
        fields
    }

    /// What `fields` hold.
    pub fn decode(fields: &Vec<Field>) -> (value: Result<
        RevocationRegistryDefinitionValue,
        DecodeError,
    >)
        ensures
            match value {
                Ok(value) => Self::decoded(fields_view(fields@)) == Ok::<
                    RevocationRegistryDefinitionValueView,
                    DecodeError,
                >(value@),
                Err(error) => Self::decoded(fields_view(fields@)) == Err::<
                    RevocationRegistryDefinitionValueView,
                    DecodeError,
                >(error),
            },
    {
        let policy = find_text(fields, ISSUANCE_TYPE)?;
        let issuance_type = match IssuanceType::from_name(policy) {
            Some(issuance_type) => issuance_type,
            None => {
                return Err(DecodeError::UnknownVariant);
            },
        };
        let max_cred_num = find_number(fields, MAX_CRED_NUM)?;
        let keys = find_record(fields, PUBLIC_KEYS)?;
        let accum_key = find_opaque(keys, ACCUM_KEY)?.clone();
        let tails_hash = find_text(fields, TAILS_HASH)?.clone();
        let tails_location = find_text(fields, TAILS_LOCATION)?.clone();
        Ok(
            RevocationRegistryDefinitionValue {
                issuance_type,
                max_cred_num,
                public_keys: RevocationRegistryDefinitionValuePublicKeys { accum_key },
                tails_hash,
                tails_location,
            },
        )
    }
}

impl RevocationRegistryDefinition {
    /// `definition` with its two identifiers in their bare forms and
    /// everything else as it was.
    pub open spec fn unqualified(
        definition: RevocationRegistryDefinitionView,
    ) -> RevocationRegistryDefinitionView {
        match definition {
            RevocationRegistryDefinitionView::V1(v1) => RevocationRegistryDefinitionView::V1(
                RevocationRegistryDefinitionV1View {
                    id: rev_reg::bare_form(v1.id),
                    cred_def_id: cred_def::bare_form(v1.cred_def_id),
                    ..v1
                },
            ),
        }
    }

    /// The document in which `definition` travels.
    pub open spec fn encoded(definition: RevocationRegistryDefinitionView) -> DocumentView {
        match definition {
            RevocationRegistryDefinitionView::V1(v1) => DocumentView::Record(
                seq![
                    FieldView { name: VER@, value: DocumentView::Text(VERSION_1@) },
                    FieldView { name: ID@, value: DocumentView::Text(v1.id) },
                    FieldView {
                        name: REVOC_DEF_TYPE@,
                        value: DocumentView::Text(v1.revoc_def_type.name()),
                    },
                    FieldView { name: TAG@, value: DocumentView::Text(v1.tag) },
                    FieldView { name: CRED_DEF_ID@, value: DocumentView::Text(v1.cred_def_id) },
                    FieldView {
                        name: VALUE@,
                        value: DocumentView::Record(
                            RevocationRegistryDefinitionValue::encoded(v1.value),
                        ),
                    },
                ],
            ),
        }
    }

    /// The definition that `document` holds, or why it holds none. The
    /// version is read first, then the fields in the order in which `encoded`
    /// writes them, and the first that fails decides.
    pub open spec fn decoded(document: DocumentView) -> Result<
        RevocationRegistryDefinitionView,
        DecodeError,
    > {
        match version_of(document) {
            Err(error) => Err(error),
            Ok(ver) => if ver == VERSION_1@ {
                Self::decoded_v1(document->Record_0)
            } else {
                Err(DecodeError::UnknownVersion)
            },
        }
    }

    /// The definition of the first version that `fields` hold.
    pub open spec fn decoded_v1(fields: Seq<FieldView>) -> Result<
        RevocationRegistryDefinitionView,
        DecodeError,
    > {
        match text_at(fields, ID@) {
            Err(error) => Err(error),
            Ok(id) => match text_at(fields, REVOC_DEF_TYPE@) {
                Err(error) => Err(error),
                Ok(kind) => match RegistryType::named(kind) {
                    None => Err(DecodeError::UnknownVariant),
                    Some(revoc_def_type) => match text_at(fields, TAG@) {
                        Err(error) => Err(error),
                        Ok(tag) => match text_at(fields, CRED_DEF_ID@) {
                            Err(error) => Err(error),
                            Ok(cred_def_id) => match record_at(fields, VALUE@) {
                                Err(error) => Err(error),
                                Ok(inner) => match RevocationRegistryDefinitionValue::decoded(
                                    inner,
                                ) {
                                    Err(error) => Err(error),
                                    Ok(value) => Ok(
                                        RevocationRegistryDefinitionView::V1(
                                            RevocationRegistryDefinitionV1View {
                                                id,
                                                revoc_def_type,
                                                tag,
                                                cred_def_id,
                                                value,
                                            },
                                        ),
                                    ),
                                },
                            },
                        },
                    },
                },
            },
        }
    }

    /// Making a definition's identifiers bare a second time changes nothing.
    pub proof fn lemma_unqualified_idempotent(definition: RevocationRegistryDefinitionView)
        ensures
            Self::unqualified(Self::unqualified(definition)) == Self::unqualified(definition),
    {
        let v1 = definition->V1_0;
        lemma_unqualified_idempotent(rev_reg::PREFIX@, v1.id);
        lemma_unqualified_idempotent(cred_def::PREFIX@, v1.cred_def_id);
    }

    /// Making a definition's identifiers bare leaves its registry type, its
    /// tag and its value as they were.
    pub proof fn lemma_unqualified_keeps(definition: RevocationRegistryDefinitionView)
        ensures
            Self::unqualified(definition)->V1_0.revoc_def_type == definition->V1_0.revoc_def_type,
            Self::unqualified(definition)->V1_0.tag == definition->V1_0.tag,
            Self::unqualified(definition)->V1_0.value == definition->V1_0.value,
    {
    }

    /// What encoding wrote, decoding reads back: every field and the
    /// version.
    pub proof fn lemma_round_trip(definition: RevocationRegistryDefinitionView)
        ensures
            Self::decoded(Self::encoded(definition)) == Ok::<
                RevocationRegistryDefinitionView,
                DecodeError,
            >(definition),
            version_of(Self::encoded(definition)) == Ok::<Seq<char>, DecodeError>(VERSION_1@),
    {
        let fields = Self::encoded(definition)->Record_0;
        reveal_strlit("ver");
        reveal_strlit("id");
        reveal_strlit("revocDefType");
        reveal_strlit("tag");
        reveal_strlit("credDefId");
        reveal_strlit("value");
        assert(VER@[0] != TAG@[0]);
        assert(VER@.len() == 3 && ID@.len() == 2 && REVOC_DEF_TYPE@.len() == 12 && TAG@.len() == 3
            && CRED_DEF_ID@.len() == 9 && VALUE@.len() == 5);
        lemma_lookup_at(fields, VER@, 0);
        lemma_lookup_at(fields, ID@, 1);
        lemma_lookup_at(fields, REVOC_DEF_TYPE@, 2);
        lemma_lookup_at(fields, TAG@, 3);
        lemma_lookup_at(fields, CRED_DEF_ID@, 4);
        lemma_lookup_at(fields, VALUE@, 5);
        RevocationRegistryDefinitionValue::lemma_round_trip(definition->V1_0.value);
    }

    /// A document is read only under the first version: one that names
    /// another is refused as of an unknown version, whatever else it holds.
    pub proof fn lemma_version_checked(document: DocumentView)
        ensures
            Self::decoded(document) is Ok ==> version_of(document) == Ok::<Seq<char>, DecodeError>(
                VERSION_1@,
            ),
            version_of(document) is Ok && version_of(document) != Ok::<Seq<char>, DecodeError>(
                VERSION_1@,
            ) ==> Self::decoded(document) == Err::<RevocationRegistryDefinitionView, DecodeError>(
                DecodeError::UnknownVersion,
            ),
    {
    }

    /// The same definition with its two identifiers in their bare forms.
    /// Registry type, tag and value are handed on untouched.
    pub fn to_unqualified(self) -> (bare: RevocationRegistryDefinition)
        ensures
            bare@ == Self::unqualified(self@),
            bare->RevocationRegistryDefinitionV1_0.revoc_def_type
                == self->RevocationRegistryDefinitionV1_0.revoc_def_type,
            bare->RevocationRegistryDefinitionV1_0.tag
                == self->RevocationRegistryDefinitionV1_0.tag,
            bare->RevocationRegistryDefinitionV1_0.value
                == self->RevocationRegistryDefinitionV1_0.value,
    {
        match self {
            RevocationRegistryDefinition::RevocationRegistryDefinitionV1(v1) => {
                RevocationRegistryDefinition::RevocationRegistryDefinitionV1(
                    RevocationRegistryDefinitionV1 {
                        id: v1.id.to_unqualified(),
                        revoc_def_type: v1.revoc_def_type,
                        tag: v1.tag,
                        cred_def_id: v1.cred_def_id.to_unqualified(),
                        value: v1.value,
                    },
                )
            },
        }
    }

    /// The definition as a document.
    pub fn encode(&self) -> (document: Document)
        ensures
            document@ == Self::encoded(self@),
    {
        match self {
            RevocationRegistryDefinition::RevocationRegistryDefinitionV1(v1) => {
                let mut fields: Vec<Field> = Vec::new();
                fields.push(Field::new(VER, Document::Text(String::from_str(VERSION_1))));
                fields.push(Field::new(ID, Document::Text(v1.id.0.clone())));
                fields.push(
                    Field::new(
                        REVOC_DEF_TYPE,
                        Document::Text(String::from_str(v1.revoc_def_type.to_str())),
                    ),
                );
                fields.push(Field::new(TAG, Document::Text(v1.tag.clone())));
                fields.push(Field::new(CRED_DEF_ID, Document::Text(v1.cred_def_id.0.clone())));
                fields.push(Field::new(VALUE, Document::Record(v1.value.encode())));
                proof {
                    lemma_fields_view(fields@);
                    assert(fields_view(fields@) =~= Self::encoded(self@)->Record_0);
                }
                Document::Record(fields)
            },
        }
    }

    /// The definition that `document` holds.
    pub fn decode(document: &Document) -> (definition: Result<
        RevocationRegistryDefinition,
        DecodeError,
    >)
        ensures
            match definition {
                Ok(definition) => Self::decoded(document@) == Ok::<
                    RevocationRegistryDefinitionView,
                    DecodeError,
                >(definition@),
                Err(error) => Self::decoded(document@) == Err::<
                    RevocationRegistryDefinitionView,
                    DecodeError,
                >(error),
            },
    {
        let fields = document.as_record()?;
        let ver = find_text(fields, VER)?;
        if *ver != String::from_str(VERSION_1) {
            return Err(DecodeError::UnknownVersion);
        }
        let id = RevocationRegistryId(find_text(fields, ID)?.clone());
        let revoc_def_type = match RegistryType::from_name(find_text(fields, REVOC_DEF_TYPE)?) {
            Some(revoc_def_type) => revoc_def_type,
            None => {
                return Err(DecodeError::UnknownVariant);
            },
        };
        let tag = find_text(fields, TAG)?.clone();
        let cred_def_id = CredentialDefinitionId(find_text(fields, CRED_DEF_ID)?.clone());
        let value = RevocationRegistryDefinitionValue::decode(find_record(fields, VALUE)?)?;
        Ok(
            RevocationRegistryDefinition::RevocationRegistryDefinitionV1(
                RevocationRegistryDefinitionV1 { id, revoc_def_type, tag, cred_def_id, value },
            ),
        )
    }
}

impl Validatable for RevocationRegistryDefinition {
    /// A definition is rejected exactly if its identifier is, and with the
    /// same message. Nothing else of it is looked at.
    open spec fn rejection(&self) -> Option<Seq<char>> {
        match self {
            RevocationRegistryDefinition::RevocationRegistryDefinitionV1(v1) => v1.id.rejection(),
        }
    }

    /// Accepts a definition whose identifier is well formed.
    fn validate(&self) -> (outcome: Result<(), ValidationError>)
        ensures
            outcome is Ok <==> rev_reg::well_formed(
                self->RevocationRegistryDefinitionV1_0.id@,
            ),
            outcome matches Err(error) ==> error@ == rev_reg::malformed_message(
                self->RevocationRegistryDefinitionV1_0.id@,
            ),
    {
        match self {
            RevocationRegistryDefinition::RevocationRegistryDefinitionV1(v1) => {
                v1.id.validate()?;
            },
        }
        Ok(())
    }
}

impl Validatable for RevocationRegistryConfig {
    /// A request is rejected exactly if it asks for a capacity of zero.
    open spec fn rejection(&self) -> Option<Seq<char>> {
        if self.max_cred_num == Some(0u32) {
            Some(ZERO_CAPACITY@)
        } else {
            None
        }
    }

    /// Rejects a request for a registry of capacity zero and accepts any
    /// other, whatever its issuance policy.
    fn validate(&self) -> (outcome: Result<(), ValidationError>)
        ensures
            outcome is Err <==> self.max_cred_num == Some(0u32),
            outcome matches Err(error) ==> error@ == ZERO_CAPACITY@,
    {
        if let Some(capacity) = self.max_cred_num {
            if capacity == 0 {
                return Err(ValidationError::new(ZERO_CAPACITY));
            }
        }
        Ok(())
    }
}

} // verus!
