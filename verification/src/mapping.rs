//! Which identity mapping a token falls under.

use crate::error::{AppError, ErrorValue};
use crate::json;
use crate::json::{Json, JsonValue};
use crate::model::CiOidcIdentityMapping;
use crate::service::CiOidcService;
use vstd::prelude::*;

verus! {

/// Whether a claim satisfies one filter.  An array lists the values that the claim may
/// have; anything else is the value that it must have.
pub open spec fn filter_matches(expected: JsonValue, actual: JsonValue) -> bool {
    match expected {
        JsonValue::List(allowed) => allowed.contains(actual),
        _ => actual == expected,
    }
}

/// Whether the claims hold a claim of this name that satisfies a filter.  A claim that the
/// token lacks satisfies none.
pub open spec fn claim_matches(name: Seq<char>, expected: JsonValue, claims: JsonValue) -> bool {
    json::has_member(claims, name) && filter_matches(expected, json::member_value(claims, name))
}

/// Whether the claims satisfy every one of the named filters.
pub open spec fn all_filters_match(
    filters: Map<Seq<char>, JsonValue>,
    claims: JsonValue,
) -> bool {
    forall|name: Seq<char>| #[trigger]
        filters.contains_key(name) ==> claim_matches(name, filters[name], claims)
}

/// The first of the names whose filter the claims fail.
pub open spec fn first_failing(
    names: Seq<Seq<char>>,
    filters: Map<Seq<char>, JsonValue>,
    claims: JsonValue,
) -> Option<Seq<char>>
    decreases names.len(),
{
    if names.len() == 0 {
        None
    } else if !claim_matches(names[0], filters[names[0]], claims) {
        Some(names[0])
    } else {
        first_failing(names.skip(1), filters, claims)
    }
}

/// The name of the first filter that the claims fail, in the order in which the filters are
/// listed.  Filters that are no object name nothing.
pub open spec fn failing_claim(policy: Json, claims: JsonValue) -> Option<Seq<char>> {
    match policy {
        Json::Object(filters) => first_failing(filters.names(), filters.members(), claims),
        _ => None,
    }
}

/// Whether the claims satisfy the filters of a mapping, which must be an object.
pub open spec fn claims_match(filters: JsonValue, claims: JsonValue) -> bool {
    match filters {
        JsonValue::Members(filters) => all_filters_match(filters, claims),
        _ => false,
    }
}

/// How claims are refused by filters that are no JSON object.
pub open spec fn malformed_filters() -> ErrorValue {
    ErrorValue::Internal("claim_filters must be a JSON object"@)
}

/// How claims are refused that fail a filter.  The answer does not say which filter.
pub open spec fn claims_refused() -> ErrorValue {
    ErrorValue::Authentication("CI JWT did not match any configured identity mapping"@)
}

/// How claims are refused by filters.
pub open spec fn policy_refusal(filters: JsonValue) -> ErrorValue {
    if filters is Members {
        claims_refused()
    } else {
        malformed_filters()
    }
}

/// Whether a mapping accepts the claims.
pub open spec fn mapping_accepts(mapping: CiOidcIdentityMapping, claims: JsonValue) -> bool {
    claims_match(mapping.claim_filters.value(), claims)
}

/// Whether the mapping at a place is the first of the list that accepts the claims.
pub open spec fn first_match(
    mappings: Seq<CiOidcIdentityMapping>,
    claims: JsonValue,
    at: int,
) -> bool {
    &&& 0 <= at < mappings.len()
    &&& mapping_accepts(mappings[at], claims)
    &&& forall|i: int| 0 <= i < at ==> !mapping_accepts(#[trigger] mappings[i], claims)
}

/// The claims that kept mappings from accepting a token, one for each mapping that was tried
/// and has filters: mappings are tried in order, up to the first that accepts.
pub open spec fn reported_claims(
    mappings: Seq<CiOidcIdentityMapping>,
    claims: JsonValue,
) -> Seq<Seq<char>>
    decreases mappings.len(),
{
    if mappings.len() == 0 || mapping_accepts(mappings[0], claims) {
        Seq::empty()
    } else {
        let rest = reported_claims(mappings.skip(1), claims);
        match failing_claim(mappings[0].claim_filters, claims) {
            Some(name) => seq![name] + rest,
            None => rest,
        }
    }
}

/// A list of texts by their characters.
pub open spec fn texts(list: Seq<String>) -> Seq<Seq<char>> {
    list.map_values(|text: String| text@)
}

/// How a token is refused whose provider has no enabled mappings.
pub open spec fn no_mappings() -> ErrorValue {
    ErrorValue::Authentication("No CI OIDC identity mappings configured for this provider"@)
}

/// How a token is refused that falls under no mapping.
pub open spec fn no_matching_mapping() -> ErrorValue {
    ErrorValue::Authentication("CI JWT did not match any identity mapping"@)
}

/// How a token is refused that none of the mappings accepts.
pub open spec fn mapping_refusal(mappings: Seq<CiOidcIdentityMapping>) -> ErrorValue {
    if mappings.len() == 0 {
        no_mappings()
    } else {
        no_matching_mapping()
    }
}

/// Nothing fails exactly when every name's filter is satisfied; what fails is one of the
/// names.
proof fn lemma_first_failing(
    names: Seq<Seq<char>>,
    filters: Map<Seq<char>, JsonValue>,
    claims: JsonValue,
)
    ensures
        match first_failing(names, filters, claims) {
            Some(name) => names.contains(name) && !claim_matches(name, filters[name], claims),
            None => forall|name: Seq<char>| #[trigger]
                names.contains(name) ==> claim_matches(name, filters[name], claims),
        },
    decreases names.len(),
{
    if names.len() > 0 {
        let rest = names.skip(1);
        lemma_first_failing(rest, filters, claims);
        assert forall|name: Seq<char>| #[trigger] names.contains(name) implies name == names[0]
            || rest.contains(name) by {
            let i = choose|i: int| 0 <= i < names.len() && names[i] == name;
            if i > 0 {
                assert(rest[i - 1] == name);
            }
        }
        assert forall|name: Seq<char>| #[trigger] rest.contains(name) implies names.contains(
            name,
        ) by {
            let i = choose|i: int| 0 <= i < rest.len() && rest[i] == name;
            assert(names[i + 1] == name);
        }
        assert(names.contains(names[0]));
    }
}

impl CiOidcService {
    /// The name of the first filter that the claims fail.  It is meant for operators: the
    /// caller is not told.
    pub fn failed_claim<'a>(policy: &'a Json, claims: &Json) -> (failed: Option<&'a String>)
        ensures
            match failed {
                Some(name) => failing_claim(*policy, claims.value()) == Some(name@),
                None => failing_claim(*policy, claims.value()) is None,
            },
            policy.value() matches JsonValue::Members(filters) ==> (failed is None
                <==> all_filters_match(filters, claims.value())),
    {
        let object = match policy {
            Json::Object(object) => object,
            _ => return None,
        };
        let ghost names = object.names();
        let ghost filters = object.members();
        let count: usize = object.len();
        proof {
            lemma_first_failing(names, filters, claims.value());
            assert(names.skip(0) =~= names);
        }
        let mut i: usize = 0;
        #[verifier::loop_isolation(false)]
        while i < count
            invariant
                i <= count,
                first_failing(names, filters, claims.value()) == first_failing(
                    names.skip(i as int),
                    filters,
                    claims.value(),
                ),
            decreases count - i,
        {
            assert(names.skip(i as int).skip(1) =~= names.skip(i + 1));
            if let Some((name, expected)) = object.entry(i) {
                let matched = match claims.get(name.as_str()) {
                    Some(actual) => Self::check_filter(expected, actual),
                    None => false,
                };
                if !matched {
                    return Some(name);
                }
            }
            i += 1;
        }
        None
    }

    /// Holds the claims of a token against the filters of a mapping.
    pub fn check_claim_policy(policy: &Json, claims: &Json) -> (verdict: Result<(), AppError>)
        ensures
            verdict is Ok <==> claims_match(policy.value(), claims.value()),
            verdict matches Err(error) ==> error@ == policy_refusal(policy.value()),
    {
        match policy {
            Json::Object(_) => {},
            _ => {
                return Err(AppError::Internal("claim_filters must be a JSON object".to_owned()));
            },
        }
        match Self::failed_claim(policy, claims) {
            Some(_) => Err(
                AppError::Authentication(
                    "CI JWT did not match any configured identity mapping".to_owned(),
                ),
            ),
            None => Ok(()),
        }
    }

    /// Holds one claim against one filter.
    fn check_filter(expected: &Json, actual: &Json) -> (matched: bool)
        ensures
            matched == filter_matches(expected.value(), actual.value()),
    {
        match expected {
            Json::Array(allowed) => {
                let ghost values = json::item_values(allowed@);
                proof {
                    json::lemma_array_value(*allowed);
                }
                let mut i: usize = 0;
                while i < allowed.len()
                    invariant
                        i <= allowed@.len(),
                        values == json::item_values(allowed@),
                        forall|j: int| 0 <= j < i ==> values[j] != actual.value(),
                        expected.value() == JsonValue::List(values),
                    decreases allowed@.len() - i,
                {
                    if actual.equals(&allowed[i]) {
                        assert(values[i as int] == actual.value());
                        return true;
                    }
                    i += 1;
                }
                false
            },
            _ => actual.equals(expected),
        }
    }

    /// The claims that kept the provider's mappings from accepting a token.  They are meant
    /// for operators: the caller is not told.
    pub fn failed_claims(mappings: &Vec<CiOidcIdentityMapping>, claims: &Json) -> (names: Vec<
        String,
    >)
        ensures
            texts(names@) == reported_claims(mappings@, claims.value()),
    {
        let mut names: Vec<String> = Vec::new();
        let mut i: usize = 0;
        assert(mappings@.skip(0) =~= mappings@);
        assert(texts(names@) + reported_claims(mappings@, claims.value()) =~= reported_claims(
            mappings@,
            claims.value(),
        ));
        while i < mappings.len()
            invariant
                i <= mappings@.len(),
                reported_claims(mappings@, claims.value()) == texts(names@) + reported_claims(
                    mappings@.skip(i as int),
                    claims.value(),
                ),
            decreases mappings@.len() - i,
        {
            let ghost before = texts(names@);
            let ghost rest = reported_claims(mappings@.skip(i + 1), claims.value());
            assert(mappings@.skip(i as int).skip(1) =~= mappings@.skip(i + 1));
            let policy = &mappings[i].claim_filters;
            if Self::check_claim_policy(policy, claims).is_ok() {
                assert(before + Seq::<Seq<char>>::empty() =~= before);
                return names;
            }
            if let Some(name) = Self::failed_claim(policy, claims) {
                names.push(name.clone());
                assert(texts(names@) =~= before.push(name@));
                assert(before + (seq![name@] + rest) =~= before.push(name@) + rest);
            }
            i += 1;
        }
        assert(texts(names@) + Seq::<Seq<char>>::empty() =~= texts(names@));
        names
    }

    /// The mapping that a token falls under: the first of the provider's enabled mappings,
    /// in the order in which they were read, that accepts the claims.
    pub fn resolve_mapping(
        rows: Result<Vec<CiOidcIdentityMapping>, String>,
        claims: &Json,
    ) -> (answer: Result<CiOidcIdentityMapping, AppError>)
        ensures
            match (rows, answer) {
                (Err(text), _) => answer matches Err(error) && error@ == ErrorValue::Database(
                    text@,
                ),
                (Ok(mappings), Ok(mapping)) => exists|at: int| #[trigger]
                    first_match(mappings@, claims.value(), at) && mapping == mappings@[at],
                (Ok(mappings), Err(error)) => {
                    &&& forall|i: int|
                        0 <= i < mappings@.len() ==> !mapping_accepts(
                            #[trigger] mappings@[i],
                            claims.value(),
                        )
                    &&& error@ == mapping_refusal(mappings@)
                },
            },
    {
        let mut mappings = match rows {
            Ok(mappings) => mappings,
            Err(text) => return Err(AppError::Database(text)),
        };
        if mappings.len() == 0 {
            return Err(
                AppError::Authentication(
                    "No CI OIDC identity mappings configured for this provider".to_owned(),
                ),
            );
        }
        let ghost all = mappings@;
        let mut i: usize = 0;
        while i < mappings.len()
            invariant
                i <= mappings@.len(),
                mappings@ == all,
                rows matches Ok(given) && given@ == all,
                forall|j: int|
                    0 <= j < i ==> !mapping_accepts(#[trigger] all[j], claims.value()),
            decreases mappings@.len() - i,
        {
            if Self::check_claim_policy(&mappings[i].claim_filters, claims).is_ok() {
                assert(first_match(all, claims.value(), i as int));
                return Ok(mappings.remove(i));
            }
            i += 1;
        }
        Err(AppError::Authentication("CI JWT did not match any identity mapping".to_owned()))
    }
}

} // verus!
