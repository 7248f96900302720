//! Identifiers of credential definitions.

use crate::utils::qualifiable::{is_bare, lemma_unqualified_is_bare, to_unqualified, unqualified};
use vstd::prelude::*;

verus! {

/// The prefix of a qualified credential-definition identifier.
pub const PREFIX: &'static str = "creddef";

/// The identifier of a credential definition, qualified or bare.
#[derive(Clone, Debug, PartialEq, Eq)]
pub struct CredentialDefinitionId(pub String);

impl View for CredentialDefinitionId {
    type V = Seq<char>;

    open spec fn view(&self) -> Seq<char> {
        self.0@
    }
}

/// The bare form of a credential-definition identifier.
pub open spec fn bare_form(id: Seq<char>) -> Seq<char> {
    unqualified(PREFIX@, id)
}

impl CredentialDefinitionId {
    /// The identifier that `text` spells.
    pub fn new(text: &str) -> (id: CredentialDefinitionId)
        ensures
            id@ == text@,
    {
        CredentialDefinitionId(String::from_str(text))
    }

    /// The same identifier without the qualifiers it starts with.
    pub fn to_unqualified(&self) -> (bare: CredentialDefinitionId)
        ensures
            bare@ == bare_form(self@),
            is_bare(PREFIX@, bare@),
    {
        proof {
            lemma_unqualified_is_bare(PREFIX@, self@);
        }
        CredentialDefinitionId(to_unqualified(PREFIX, self.0.as_str()))
    }
}

} // verus!
