//! Paths with query parameters.
use vstd::prelude::*;

use crate::percent;
use crate::text;

verus! {

/// A parameter, where it is given.
pub open spec fn given(key: Seq<char>, value: Option<Seq<char>>) -> Seq<Seq<char>> {
    match value {
        Some(v) => seq![key + "="@ + percent::percent_encoded(v)],
        None => Seq::empty(),
    }
}

/// A path with its parameters; without any, the path alone.
pub open spec fn with_query(path: Seq<char>, parts: Seq<Seq<char>>) -> Seq<char> {
    if parts.len() == 0 {
        path
    } else {
        path + "?"@ + text::join(parts, "&"@)
    }
}

/// Adds a parameter, where it is given.
pub fn push_given(parts: &mut Vec<String>, key: &str, value: Option<&str>)
    ensures
        text::texts(final(parts)@) == text::texts(old(parts)@) + given(
            key@,
            text::opt_ref(value),
        ),
{
    let ghost before = parts@;
    if let Some(v) = value {
        let mut part = key.to_string();
        part.append("=");
        let encoded = percent::encode(v);
        part.append(encoded.as_str());
        proof {
            text::texts_push(before, part);
        }
        parts.push(part);
    }
    assert(text::texts(parts@) =~= text::texts(before) + given(key@, text::opt_ref(value)));
}

/// The path with the parameters.
pub fn add_query(path: &str, parts: &Vec<String>) -> (r: String)
    ensures
        r@ == with_query(path@, text::texts(parts@)),
{
    let mut out = path.to_string();
    if parts.len() > 0 {
        out.append("?");
        let joined = text::join_texts(parts, "&");
        out.append(joined.as_str());
    }
    out
}

/// The list of history sessions, narrowed by what is given.
pub open spec fn sessions_path_of(
    scope: Option<Seq<char>>,
    team_id: Option<Seq<char>>,
    agent_id: Option<Seq<char>>,
    tag: Option<Seq<char>>,
) -> Seq<char> {
    with_query(
        "/v1/history/sessions"@,
        given("scope"@, scope) + given("team_id"@, team_id) + given("agent_id"@, agent_id) + given(
            "tag"@,
            tag,
        ),
    )
}

pub fn sessions_path(
    scope: Option<&str>,
    team_id: Option<&str>,
    agent_id: Option<&str>,
    tag: Option<&str>,
) -> (r: String)
    ensures
        r@ == sessions_path_of(
            text::opt_ref(scope),
            text::opt_ref(team_id),
            text::opt_ref(agent_id),
            text::opt_ref(tag),
        ),
{
    let mut parts: Vec<String> = Vec::new();
    assert(text::texts(parts@) =~= Seq::<Seq<char>>::empty());
    push_given(&mut parts, "scope", scope);
    assert(text::texts(parts@) =~= given("scope"@, text::opt_ref(scope)));
    push_given(&mut parts, "team_id", team_id);
    push_given(&mut parts, "agent_id", agent_id);
    push_given(&mut parts, "tag", tag);
    add_query("/v1/history/sessions", &parts)
}

/// A value in a query cannot add a parameter: a given parameter is one part with
/// one `=` after its key, and holds no `&`.
pub proof fn given_is_one_parameter(key: Seq<char>, value: Seq<char>)
    requires
        !key.contains('&'),
    ensures
        given(key, Some(value)).len() == 1,
        !given(key, Some(value))[0].contains('&'),
{
    reveal_strlit("=");
    let encoded = percent::percent_encoded(value);
    let part = key + "="@ + encoded;
    percent::percent_encoded_is_one_segment(value);
    if part.contains('&') {
        let i = choose|i: int| 0 <= i < part.len() && part[i] == '&';
        if i < key.len() {
            assert(key[i] == '&');
        } else if i == key.len() {
            assert("="@[0] == '=');
        } else {
            assert(encoded[i - key.len() - 1] == '&');
        }
    }
}

} // verus!
