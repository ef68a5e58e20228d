//! Which service account a token stands for.

use crate::json;
use crate::json::{Json, JsonValue};
use crate::model::{CiOidcIdentityMapping, CiOidcProvider, FederatedCredentials};
use crate::service::CiOidcService;
use crate::text::{join2, join4};
use crate::uuid;
use crate::uuid::{uuid_to_string, Uuid};
use vstd::prelude::*;
use vstd::string::*;

verus! {

/// The username of a mapping's service account.
pub open spec fn username(mapping_id: Uuid) -> Seq<char> {
    "ci-"@ + uuid::short_id(mapping_id)
}

/// The address of a mapping's service account.
pub open spec fn email(mapping_id: Uuid) -> Seq<char> {
    username(mapping_id) + "@ci.artifact-keeper.internal"@
}

/// The text of a claim, or another where the claim is absent or no string.
pub open spec fn claim_or(claims: JsonValue, name: Seq<char>, otherwise: Seq<char>) -> Seq<char> {
    match json::member_text(claims, name) {
        Some(text) => text,
        None => otherwise,
    }
}

/// How an account is shown.  For the two platforms that are known by name, the project
/// that the pipeline runs for is shown with the mapping.
pub open spec fn display_name(
    provider_type: Seq<char>,
    provider_name: Seq<char>,
    mapping_name: Seq<char>,
    claims: JsonValue,
) -> Seq<char> {
    if provider_type == "gitlab"@ {
        "CI [GitLab] "@ + mapping_name + " — "@ + claim_or(
            claims,
            "project_path"@,
            claim_or(claims, "namespace_path"@, "unknown"@),
        )
    } else if provider_type == "github"@ {
        "CI [GitHub] "@ + mapping_name + " — "@ + claim_or(claims, "repository"@, "unknown"@)
    } else {
        "CI ["@ + provider_name + "] "@ + mapping_name
    }
}

/// Whether an account is the one that a token stands for, given its claims and the
/// mapping it falls under.
pub open spec fn stands_for(
    account: FederatedCredentials,
    provider: CiOidcProvider,
    mapping: CiOidcIdentityMapping,
    claims: JsonValue,
) -> bool {
    &&& account.username@ == username(mapping.id)
    &&& account.email@ == email(mapping.id)
    &&& account.external_id@ == claim_or(claims, "sub"@, username(mapping.id))
    &&& account.display_name matches Some(shown) && shown@ == display_name(
        provider.provider_type@,
        provider.name@,
        mapping.name@,
        claims,
    )
    &&& account.groups@.len() == 1
    &&& account.groups@[0]@ == "ci"@
    &&& account.required_admin_group is None
}

/// The text of a claim, or another where the claim is absent or no string.
fn claim_text<'a>(claims: &'a Json, name: &str, otherwise: &'a str) -> (text: &'a str)
    ensures
        text@ == claim_or(claims.value(), name@, otherwise@),
{
    match claims.get_str(name) {
        Some(text) => text,
        None => otherwise,
    }
}

impl CiOidcService {
    /// The account that a token stands for, given the mapping it falls under.
    pub fn extract_identity_from_mapping(
        provider: &CiOidcProvider,
        mapping: &CiOidcIdentityMapping,
        claims: &Json,
    ) -> (credentials: FederatedCredentials)
        ensures
            stands_for(credentials, *provider, *mapping, claims.value()),
    {
        let id_text = uuid_to_string(mapping.id);
        let id_short = id_text.as_str().substring_char(0, 8);
        assert(id_short@ =~= uuid::short_id(mapping.id));
        let username = join2("ci-", id_short);
        let display_name = if *provider.provider_type.as_str() == *"gitlab" {
            let namespace = claim_text(claims, "namespace_path", "unknown");
            let project = claim_text(claims, "project_path", namespace);
            join4("CI [GitLab] ", mapping.name.as_str(), " — ", project)
        } else if *provider.provider_type.as_str() == *"github" {
            let repository = claim_text(claims, "repository", "unknown");
            join4("CI [GitHub] ", mapping.name.as_str(), " — ", repository)
        } else {
            join4("CI [", provider.name.as_str(), "] ", mapping.name.as_str())
        };
        let email = join2(username.as_str(), "@ci.artifact-keeper.internal");
        let external_id = claim_text(claims, "sub", username.as_str()).to_owned();
        let mut groups: Vec<String> = Vec::new();
        groups.push("ci".to_owned());
        FederatedCredentials {
            external_id,
            username,
            email,
            display_name: Some(display_name),
            groups,
            required_admin_group: None,
        }
    }
}

} // verus!
