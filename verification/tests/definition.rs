use indy_data_types::anoncreds::rev_reg::{
    RevocationRegistryDelta, RevocationRegistryDeltaV1,
};
use indy_data_types::anoncreds::rev_reg_def::{
    IssuanceType, RegistryType, RevocationRegistryDefinition, RevocationRegistryDefinitionV1,
    RevocationRegistryDefinitionValue, RevocationRegistryDefinitionValuePublicKeys,
};
use indy_data_types::identifiers::cred_def::CredentialDefinitionId;
use indy_data_types::identifiers::rev_reg::RevocationRegistryId;
use indy_data_types::opaque::OpaqueValue;
use indy_data_types::{Validatable, ValidationError};

fn value() -> RevocationRegistryDefinitionValue {
    RevocationRegistryDefinitionValue {
        issuance_type: IssuanceType::ISSUANCE_ON_DEMAND,
        max_cred_num: 1000,
        public_keys: RevocationRegistryDefinitionValuePublicKeys {
            accum_key: OpaqueValue::new(vec![1, 2, 3, 255]),
        },
        tails_hash: "91zvq2cFmBZmHCcLqFyzv7bfehHH5rMhdAG5wTjqy2PE".to_string(),
        tails_location: "https://tails.example/91zvq2".to_string(),
    }
}

fn definition(id: &str, cred_def_id: &str) -> RevocationRegistryDefinition {
    RevocationRegistryDefinition::RevocationRegistryDefinitionV1(RevocationRegistryDefinitionV1 {
        id: RevocationRegistryId::new(id),
        revoc_def_type: RegistryType::CL_ACCUM,
        tag: "TAG_1".to_string(),
        cred_def_id: CredentialDefinitionId::new(cred_def_id),
        value: value(),
    })
}

fn v1(definition: RevocationRegistryDefinition) -> RevocationRegistryDefinitionV1 {
    match definition {
        RevocationRegistryDefinition::RevocationRegistryDefinitionV1(v1) => v1,
    }
}

const ID: &str = "NcYxiDXkpYi6ov5FcYDi1e:4:NcYxiDXkpYi6ov5FcYDi1e:3:CL:1:tag:CL_ACCUM:TAG_1";
const CRED_DEF_ID: &str = "NcYxiDXkpYi6ov5FcYDi1e:3:CL:1:tag";

#[test]
fn to_unqualified_makes_both_identifiers_bare() {
    let qualified =
        definition(&format!("revreg:sov:{ID}"), &format!("creddef:sov:{CRED_DEF_ID}"));
    let bare = v1(qualified.to_unqualified());
    assert_eq!(bare.id.0, ID);
    assert_eq!(bare.cred_def_id.0, CRED_DEF_ID);
}

#[test]
fn to_unqualified_leaves_the_rest_untouched() {
    let qualified =
        definition(&format!("revreg:sov:{ID}"), &format!("creddef:sov:{CRED_DEF_ID}"));
    let bare = v1(qualified.to_unqualified());
    assert_eq!(bare.revoc_def_type, RegistryType::CL_ACCUM);
    assert_eq!(bare.tag, "TAG_1");
    assert_eq!(bare.value, value());
}

#[test]
fn to_unqualified_leaves_a_bare_definition_as_it_is() {
    let bare = definition(ID, CRED_DEF_ID);
    assert_eq!(bare.clone().to_unqualified(), bare);
}

#[test]
fn to_unqualified_twice_is_to_unqualified_once() {
    for (id, cred_def_id) in [
        (format!("revreg:sov:{ID}"), format!("creddef:sov:{CRED_DEF_ID}")),
        (ID.to_string(), format!("creddef:sov:{CRED_DEF_ID}")),
        (format!("revreg:a:revreg:b:{ID}"), CRED_DEF_ID.to_string()),
        ("".to_string(), "creddef:sov:".to_string()),
        ("not an id".to_string(), "creddef:Sov:x".to_string()),
    ] {
        let once = definition(&id, &cred_def_id).to_unqualified();
        let twice = once.clone().to_unqualified();
        assert_eq!(twice, once);
    }
}

#[test]
fn to_unqualified_takes_each_identifier_by_its_own_prefix() {
    let mixed = definition("creddef:sov:a:4:b:c:d", "revreg:sov:x");
    let same = v1(mixed.to_unqualified());
    assert_eq!(same.id.0, "creddef:sov:a:4:b:c:d");
    assert_eq!(same.cred_def_id.0, "revreg:sov:x");
}

#[test]
fn definition_with_a_well_formed_id_is_accepted() {
    assert_eq!(definition(ID, CRED_DEF_ID).validate(), Ok(()));
    assert_eq!(definition(&format!("revreg:sov:{ID}"), CRED_DEF_ID).validate(), Ok(()));
}

#[test]
fn definition_with_a_malformed_id_is_rejected() {
    for id in ["", "malformed", "NcYxiDXkpYi6ov5FcYDi1e:3:CL:1:tag", "a:4:b:c", "a:4:b::d"] {
        let expected =
            format!("Revocation Registry Id validation failed: {id}, doesn't match pattern");
        assert_eq!(
            definition(id, CRED_DEF_ID).validate(),
            Err(ValidationError { message: expected }),
            "{id:?}"
        );
    }
}

#[test]
fn definition_is_judged_by_its_id_alone() {
    let mut odd = v1(definition(ID, "::::"));
    odd.tag = String::new();
    odd.value.max_cred_num = 0;
    odd.value.tails_hash = String::new();
    odd.value.tails_location = String::new();
    odd.value.public_keys.accum_key = OpaqueValue::new(Vec::new());
    assert_eq!(
        RevocationRegistryDefinition::RevocationRegistryDefinitionV1(odd).validate(),
        Ok(())
    );
}

#[test]
fn every_delta_is_accepted() {
    for bytes in [vec![], vec![0], vec![9, 8, 7]] {
        let delta = RevocationRegistryDelta::RevocationRegistryDeltaV1(RevocationRegistryDeltaV1 {
            value: OpaqueValue::new(bytes),
        });
        assert_eq!(delta.validate(), Ok(()));
    }
}

#[test]
fn opaque_value_hands_back_what_it_was_given() {
    let value = OpaqueValue::new(vec![4, 5, 6]);
    assert_eq!(value.as_bytes(), &vec![4, 5, 6]);
    assert_eq!(value.clone(), value);
    assert_eq!(value.into_bytes(), vec![4, 5, 6]);
}
