//! Provider-side model bookkeeping: the model listing record, the client
//! configuration snapshot, and the three-tier model-name match used to
//! decide whether a provider offers a requested model.

use vstd::prelude::*;

verus! {

/// One model as the provider lists it.
#[derive(Debug, Clone)]
pub struct ModelInfo {
    /// The provider's (tagged) model name.
    pub name: String,
    /// The model's size in bytes.
    pub size: u64,
    /// When the model was last modified, as the provider reports it.
    pub modified_at: String,
}

/// A snapshot of the provider client's configuration.
#[derive(Debug, Clone)]
pub struct ClientInfo {
    /// The provider's base URL.
    pub base_url: String,
    /// The request timeout in seconds.
    pub timeout_seconds: u64,
}

/// Whether two strings hold the same characters.
pub fn str_eq(a: &str, b: &str) -> (r: bool)
    ensures
        r == (a@ == b@),
{
    let na = a.unicode_len();
    let nb = b.unicode_len();
    if na != nb {
        return false;
    }
    let mut i: usize = 0;
    while i < na
        invariant
            i <= na,
            na == a@.len(),
            na == b@.len(),
            forall|k: int| 0 <= k < i ==> a@[k] == b@[k],
        decreases na - i,
    {
        if a.get_char(i) != b.get_char(i) {
            return false;
        }
        i = i + 1;
    }
    proof {
        assert(a@ =~= b@);
    }
    true
}

/// The position of the first `:` in the name, or the length if none.
pub open spec fn first_colon_from(s: Seq<char>, i: int) -> int
    decreases s.len() - i,
{
    if i < 0 || i >= s.len() {
        s.len() as int
    } else if s[i] == ':' {
        i
    } else {
        first_colon_from(s, i + 1)
    }
}

/// The name without any `:tag` suffix.
pub open spec fn spec_base_name(s: Seq<char>) -> Seq<char> {
    s.subrange(0, first_colon_from(s, 0))
}

/// Whether the name carries no `:tag` suffix.
pub open spec fn spec_has_no_tag(s: Seq<char>) -> bool {
    first_colon_from(s, 0) == s.len()
}

/// The name with the default `latest` tag appended.
pub open spec fn spec_with_latest(s: Seq<char>) -> Seq<char> {
    s + seq![':', 'l', 'a', 't', 'e', 's', 't']
}

/// The three-tier model-name match, in order: an exact match; for an
/// untagged request, a match against the name with the default `latest`
/// tag; and a match of the base names with any `:tag` suffix ignored on
/// both sides.
pub open spec fn spec_has_model(names: Seq<Seq<char>>, query: Seq<char>) -> bool {
    ||| (exists|i: int| 0 <= i < names.len() && names[i] == query)
    ||| (spec_has_no_tag(query) && exists|i: int|
        0 <= i < names.len() && names[i] == spec_with_latest(query))
    ||| (exists|i: int| 0 <= i < names.len() && spec_base_name(names[i]) == spec_base_name(query))
}

/// The name truncated at its first `:`, if any.
fn base_name_of(s: &str) -> (r: String)
    ensures
        r@ == spec_base_name(s@),
{
    let n = s.unicode_len();
    let mut i: usize = 0;
    while i < n
        invariant
            i <= n,
            n == s@.len(),
            first_colon_from(s@, 0) == first_colon_from(s@, i as int),
        decreases n - i,
    {
        if s.get_char(i) == ':' {
            return s.substring_char(0, i).to_owned();
        }
        i = i + 1;
    }
    s.to_owned()
}

/// Whether the name holds no `:` at all.
fn has_no_tag(s: &str) -> (r: bool)
    ensures
        r == spec_has_no_tag(s@),
{
    let n = s.unicode_len();
    let mut i: usize = 0;
    while i < n
        invariant
            i <= n,
            n == s@.len(),
            first_colon_from(s@, 0) == first_colon_from(s@, i as int),
        decreases n - i,
    {
        if s.get_char(i) == ':' {
            return false;
        }
        i = i + 1;
    }
    true
}

/// Whether the provider's listing offers the requested model, matching
/// three ways in order: exactly; an untagged request against the listed
/// `name:latest`; and base names with any `:tag` suffix ignored on both
/// sides.
pub fn has_model(models: &Vec<ModelInfo>, model_name: &str) -> (r: bool)
    ensures
        r == spec_has_model(models@.map_values(|m: ModelInfo| m.name@), model_name@),
{
    let ghost names = models@.map_values(|m: ModelInfo| m.name@);
    let n = models.len();
    let mut i: usize = 0;
    while i < n
        invariant
            i <= n == models@.len(),
            names == models@.map_values(|m: ModelInfo| m.name@),
            forall|k: int| 0 <= k < i ==> names[k] != model_name@,
        decreases n - i,
    {
        if str_eq(models[i].name.as_str(), model_name) {
            proof {
                assert(names[i as int] == model_name@);
            }
            return true;
        }
        i = i + 1;
    }
    if has_no_tag(model_name) {
        let mut with_latest = model_name.to_owned();
        with_latest.append(":latest");
        proof {
            reveal_strlit(":latest");
            assert(":latest"@ =~= seq![':', 'l', 'a', 't', 'e', 's', 't']);
            assert(with_latest@ == spec_with_latest(model_name@));
        }
        let mut j: usize = 0;
        while j < n
            invariant
                j <= n == models@.len(),
                names == models@.map_values(|m: ModelInfo| m.name@),
                spec_has_no_tag(model_name@),
                with_latest@ == spec_with_latest(model_name@),
                forall|k: int| 0 <= k < j ==> names[k] != spec_with_latest(model_name@),
            decreases n - j,
        {
            if str_eq(models[j].name.as_str(), with_latest.as_str()) {
                proof {
                    assert(names[j as int] == spec_with_latest(model_name@));
                }
                return true;
            }
            j = j + 1;
        }
    }
    let query_base = base_name_of(model_name);
    let mut k: usize = 0;
    while k < n
        invariant
            k <= n == models@.len(),
            names == models@.map_values(|m: ModelInfo| m.name@),
            query_base@ == spec_base_name(model_name@),
            forall|t: int| 0 <= t < k ==> spec_base_name(names[t]) != spec_base_name(model_name@),
        decreases n - k,
    {
        let model_base = base_name_of(models[k].name.as_str());
        if str_eq(model_base.as_str(), query_base.as_str()) {
            proof {
                assert(spec_base_name(names[k as int]) == spec_base_name(model_name@));
            }
            return true;
        }
        k = k + 1;
    }
    false
}

} // verus!
