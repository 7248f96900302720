use indy_data_types::identifiers::cred_def::CredentialDefinitionId;
use indy_data_types::identifiers::rev_reg::RevocationRegistryId;
use indy_data_types::utils::qualifiable::{method_char, to_unqualified};
use indy_data_types::utils::text::chars_of;
use indy_data_types::{Validatable, ValidationError};

const BARE: &str = "NcYxiDXkpYi6ov5FcYDi1e:4:NcYxiDXkpYi6ov5FcYDi1e:3:CL:1:tag:CL_ACCUM:TAG_1";
const QUALIFIED: &str =
    "revreg:sov:NcYxiDXkpYi6ov5FcYDi1e:4:NcYxiDXkpYi6ov5FcYDi1e:3:CL:1:tag:CL_ACCUM:TAG_1";

fn bare_registry(text: &str) -> String {
    RevocationRegistryId::new(text).to_unqualified().0
}

fn bare_cred_def(text: &str) -> String {
    CredentialDefinitionId::new(text).to_unqualified().0
}

#[test]
fn chars_of_gives_every_character_in_order() {
    assert_eq!(chars_of(""), Vec::<char>::new());
    assert_eq!(chars_of("a:4"), vec!['a', ':', '4']);
    assert_eq!(chars_of("é:ж"), vec!['é', ':', 'ж']);
}

#[test]
fn method_characters_are_lower_case_letters_and_digits() {
    for c in ['a', 'm', 'z', '0', '5', '9'] {
        assert!(method_char(c), "{c:?}");
    }
    for c in ['A', 'Z', ':', '_', '-', ' ', '`', '{', '/', ';', 'é'] {
        assert!(!method_char(c), "{c:?}");
    }
}

#[test]
fn qualifier_is_removed_from_a_registry_id() {
    assert_eq!(bare_registry(QUALIFIED), BARE);
}

#[test]
fn bare_registry_id_is_left_as_it_is() {
    assert_eq!(bare_registry(BARE), BARE);
    assert_eq!(bare_registry(""), "");
    assert_eq!(bare_registry("revreg"), "revreg");
}

#[test]
fn nested_qualifiers_are_all_removed() {
    assert_eq!(bare_registry("revreg:sov:revreg:ab1:x"), "x");
    assert_eq!(bare_registry("revreg:a:revreg:b:revreg:c:rest:of:it"), "rest:of:it");
}

#[test]
fn qualifier_needs_a_well_formed_method() {
    assert_eq!(bare_registry("revreg:Sov:x"), "revreg:Sov:x");
    assert_eq!(bare_registry("revreg::x"), "revreg::x");
    assert_eq!(bare_registry("revreg:sov"), "revreg:sov");
    assert_eq!(bare_registry("revreg:so_v:x"), "revreg:so_v:x");
    assert_eq!(bare_registry("revreg:"), "revreg:");
}

#[test]
fn qualifier_of_another_kind_is_kept() {
    assert_eq!(bare_registry("creddef:sov:x"), "creddef:sov:x");
    assert_eq!(bare_cred_def("revreg:sov:x"), "revreg:sov:x");
    assert_eq!(bare_registry("xrevreg:sov:x"), "xrevreg:sov:x");
    assert_eq!(bare_registry("revregs:sov:x"), "revregs:sov:x");
}

#[test]
fn qualifier_alone_leaves_an_empty_identifier() {
    assert_eq!(bare_registry("revreg:sov:"), "");
    assert_eq!(bare_cred_def("creddef:indy2:"), "");
}

#[test]
fn qualifier_is_removed_from_a_cred_def_id() {
    assert_eq!(
        bare_cred_def("creddef:sov:NcYxiDXkpYi6ov5FcYDi1e:3:CL:1:tag"),
        "NcYxiDXkpYi6ov5FcYDi1e:3:CL:1:tag"
    );
    assert_eq!(
        bare_cred_def("NcYxiDXkpYi6ov5FcYDi1e:3:CL:1:tag"),
        "NcYxiDXkpYi6ov5FcYDi1e:3:CL:1:tag"
    );
}

#[test]
fn unqualifying_counts_characters_not_bytes() {
    assert_eq!(bare_registry("revreg:sov:ключ:4:é:b:c"), "ключ:4:é:b:c");
    assert_eq!(bare_registry("révreg:sov:x"), "révreg:sov:x");
}

#[test]
fn unqualifying_twice_is_unqualifying_once() {
    for text in [
        QUALIFIED,
        BARE,
        "",
        "revreg:sov:revreg:ab1:x",
        "revreg:sov:",
        "revreg:Sov:revreg:sov:x",
        "creddef:sov:revreg:sov:x",
    ] {
        let once = RevocationRegistryId::new(text).to_unqualified();
        let twice = once.to_unqualified();
        assert_eq!(twice, once, "{text:?}");
    }
}

#[test]
fn free_function_takes_the_prefix_it_is_given() {
    assert_eq!(to_unqualified("did", "did:sov:abc"), "abc");
    assert_eq!(to_unqualified("did", "schema:sov:abc"), "schema:sov:abc");
    assert_eq!(to_unqualified("", ":sov:abc"), "abc");
}

#[test]
fn well_formed_registry_ids_are_accepted() {
    for text in [BARE, QUALIFIED, "a:4:b:c:d", "a:4:b:c:d:e:f", "revreg:x1:a:4:b:c:d", "é:4:ж:c:d"]
    {
        let id = RevocationRegistryId::new(text);
        assert!(id.is_well_formed(), "{text:?}");
        assert_eq!(id.validate(), Ok(()), "{text:?}");
    }
}

#[test]
fn malformed_registry_ids_are_rejected() {
    for text in [
        "",
        "abc",
        "a:4:b:c",
        "a:5:b:c:d",
        "a:44:b:c:d",
        "a::b:c:d",
        "a:4::c:d",
        ":4:b:c:d",
        "a:4:b:c:",
        "a:4:b::d",
        "4:a:b:c:d",
        "::::",
        "revreg:sov:",
        "revreg:sov:a:4:b:c",
        "revreg:Sov:4:b:c",
    ] {
        let id = RevocationRegistryId::new(text);
        assert!(!id.is_well_formed(), "{text:?}");
        let expected =
            format!("Revocation Registry Id validation failed: {text}, doesn't match pattern");
        assert_eq!(id.validate(), Err(ValidationError { message: expected }), "{text:?}");
    }
}

#[test]
fn unmatched_qualifier_counts_as_segments() {
    // `revreg:Sov:` is no qualifier, so its two segments are the issuer and
    // what should be the marker.
    assert!(!RevocationRegistryId::new("revreg:Sov:a:4:b:c:d").is_well_formed());
    assert!(RevocationRegistryId::new("Revreg:4:a:b:c").is_well_formed());
    // `revreg:4:` is a qualifier, and three segments are left.
    assert!(!RevocationRegistryId::new("revreg:4:a:b:c").is_well_formed());
}

#[test]
fn validation_error_carries_its_message() {
    let error = ValidationError::new("no good");
    assert_eq!(error.message, "no good");
    assert_eq!(error.to_string(), "no good");
}
