//! What holds of running a gateway: its settings, its agent, and the policy that is
//! saved for it.
use vstd::prelude::*;

use crate::env_map::{self, Pair};
use crate::error::ErrorView;
use crate::gateway_run::{
    agent_id_of, agent_payload_of, binding_of, concurrency_of, configuration_payload_of,
    event_sink_of, fail_mode_of, first_with_id, has_id, has_name, ids_with_name, launch_env_of,
    merged, named_id, next_lookup_step, next_sync_step, policy_paths_of, run_env_of, runtime_of,
    selected, upstream_auth_of, version_payload_of, BindingView, FailMode, RunArgsView,
    RunEnvView, SinkView, SyncStepView,
};
use crate::json::{self, JsonView};
use crate::text;

verus! {

// ---------------------------------------------------------------------------
// Settings
// ---------------------------------------------------------------------------

/// The fail mode is one of two words, and nothing else is one.
pub proof fn fail_mode_is_one_of_two(value: Seq<char>)
    ensures
        fail_mode_of(value) == Some(FailMode::Allow) <==> value == "allow"@,
        fail_mode_of(value) == Some(FailMode::Block) <==> value == "block"@,
        fail_mode_of(value) is None <==> value != "allow"@ && value != "block"@,
{
    reveal_strlit("allow");
    reveal_strlit("block");
    assert("allow"@[0] == 'a' && "block"@[0] == 'b');
}

/// Policy files that are named are the ones; the default file counts only where none
/// is named, the gateway is not connected, and the file is there.
pub proof fn named_policies_come_first(
    explicit_paths: Seq<Seq<char>>,
    connected_mode: bool,
    default_path: Seq<char>,
    default_found: bool,
)
    ensures
        ({
            let paths = policy_paths_of(
                explicit_paths,
                connected_mode,
                default_path,
                default_found,
            );
            &&& explicit_paths.len() > 0 ==> paths == explicit_paths
            &&& explicit_paths.len() == 0 && !connected_mode && default_found ==> paths == seq![
                default_path,
            ]
            &&& explicit_paths.len() == 0 && (connected_mode || !default_found) ==> paths.len()
                == 0
        }),
{
}

/// The key of the upstream is sent under the header and after the prefix of the
/// arguments, else of the environment, else `Authorization: Bearer`. Without a key
/// nothing is sent.
pub proof fn upstream_key_is_sent_as_asked(args: RunArgsView, env: RunEnvView)
    ensures
        upstream_auth_of(args, env) is Some <==> env.upstream_api_key is Some,
        upstream_auth_of(args, env) matches Some(auth) ==> {
            &&& auth.header_name == (match (
                args.upstream_api_key_header,
                env.upstream_api_key_header,
            ) {
                (Some(header), _) => header,
                (None, Some(header)) => header,
                (None, None) => "Authorization"@,
            })
            &&& auth.header_value == (match (
                args.upstream_api_key_prefix,
                env.upstream_api_key_prefix,
            ) {
                (Some(prefix), _) => prefix,
                (None, Some(prefix)) => prefix,
                (None, None) => "Bearer "@,
            }) + env.upstream_api_key->0
        },
{
}

/// The limit of the arguments counts before that of the environment, and it is never
/// zero.
pub proof fn limit_of_the_arguments_counts_first(arg: Option<usize>, env: Option<usize>)
    ensures
        concurrency_of(arg, env) >= 1,
        arg matches Some(n) ==> (n >= 1 ==> concurrency_of(arg, env) == n),
        arg is None ==> (env matches Some(n) ==> (n >= 1 ==> concurrency_of(arg, env) == n)),
        arg == Some(0usize) ==> concurrency_of(arg, env) == 1,
        arg is None && env is None ==> concurrency_of(arg, env) == 16,
{
}

/// A gateway runs exactly where it can listen, its fail mode is one, and its policy
/// files have an agent; and it runs with what was asked for.
pub proof fn runtime_is_what_was_asked(
    args: RunArgsView,
    event_sink: Option<SinkView>,
    env: RunEnvView,
    connected_mode: bool,
    listen: Result<Seq<char>, ErrorView>,
    default_found: bool,
)
    ensures
        ({
            let made = runtime_of(args, event_sink, env, connected_mode, listen, default_found);
            &&& made is Ok <==> listen is Ok && (args.fail_mode == "allow"@ || args.fail_mode
                == "block"@) && (args.policy_config.len() == 0 || args.agent is Some)
            &&& made matches Ok(config) ==> {
                &&& listen == Ok::<Seq<char>, ErrorView>(config.listen)
                &&& config.upstream == (match (args.upstream, env.upstream_url) {
                    (Some(url), _) => url,
                    (None, Some(url)) => url,
                    (None, None) => if connected_mode {
                        crate::gateway_run::DYNAMIC_PROVIDER_UPSTREAM_SENTINEL@
                    } else {
                        crate::gateway_run::DEFAULT_HOSTED_UPSTREAM_URL@
                    },
                })
                &&& config.fail_mode == FailMode::Allow <==> args.fail_mode == "allow"@
                &&& config.upstream_auth is Some <==> env.upstream_api_key is Some
                &&& config.event_sink == event_sink
                &&& config.connected_mode == connected_mode
                &&& config.admin_local_only
                &&& args.policy_config.len() > 0 ==> config.config_paths == args.policy_config
                &&& args.policy_config.len() == 1 ==> config.source_config_path == Some(
                    args.policy_config[0],
                )
                &&& args.policy_config.len() > 1 ==> config.source_config_path is None
                &&& args.max_concurrency matches Some(n) ==> (n >= 1 ==> config.max_concurrency == n)
                &&& args.runtime_registration_id matches Some(id) ==> (!text::is_blank(id)
                    ==> config.runtime_registration_id == Some(text::trim(id)))
            }
        }),
{
    fail_mode_is_one_of_two(args.fail_mode);
}

/// Each setting of the environment is read from its own variable; those that name
/// someone count only where they are not blank.
pub proof fn environment_is_read_by_name(process: Seq<Pair>)
    ensures
        ({
            let env = run_env_of(process);
            &&& env.upstream_url == env_map::lookup(process, "VERDICTAN_UPSTREAM_URL"@)
            &&& env.upstream_api_key == env_map::lookup(process, "VERDICTAN_UPSTREAM_API_KEY"@)
            &&& env.upstream_api_key_header == env_map::lookup(
                process,
                "VERDICTAN_UPSTREAM_API_KEY_HEADER"@,
            )
            &&& env.upstream_api_key_prefix == env_map::lookup(
                process,
                "VERDICTAN_UPSTREAM_API_KEY_PREFIX"@,
            )
            &&& env.api_token is Some <==> (env_map::lookup(
                process,
                "VERDICTAN_API_TOKEN"@,
            ) matches Some(v) && !text::is_blank(v))
            &&& env.api_base_url is Some <==> (env_map::lookup(
                process,
                "VERDICTAN_API_URL"@,
            ) matches Some(v) && !text::is_blank(v))
            &&& env.runtime_agent_id is Some <==> (env_map::lookup(
                process,
                "VERDICTAN_AGENT_ID"@,
            ) matches Some(v) && !text::is_blank(v))
            &&& env.runtime_agent_selector is Some <==> (env_map::lookup(
                process,
                "VERDICTAN_AGENT_NAME"@,
            ) matches Some(v) && !text::is_blank(v))
            &&& env.api_token matches Some(t) ==> t == text::trim(
                env_map::lookup(process, "VERDICTAN_API_TOKEN"@)->0,
            )
            &&& env.runtime_agent_id matches Some(t) ==> t == text::trim(
                env_map::lookup(process, "VERDICTAN_AGENT_ID"@)->0,
            )
            &&& env.runtime_registration_id matches Some(t) ==> (env_map::lookup(
                process,
                "VERDICTAN_RUNTIME_REGISTRATION_ID"@,
            ) matches Some(v) && t == text::trim(v))
        }),
{
}

/// Events go to the control plane exactly where there is a token, under that token.
pub proof fn events_go_where_the_token_is(env: RunEnvView, api_base_url: Seq<char>)
    ensures
        event_sink_of(env, api_base_url) is Some <==> (env.api_token matches Some(token)
            && !text::is_blank(token)),
        event_sink_of(env, api_base_url) matches Some(sink) ==> sink.base_url == api_base_url
            && sink.api_token == text::trim(env.api_token->0) && sink.gateway_service_token
            == Some(sink.api_token),
{
}

/// What the runtime lacks it gets: the token of the event sink and the agent that was
/// found.
pub proof fn launch_env_seeds_what_is_missing(
    env: RunEnvView,
    event_sink: Option<SinkView>,
    resolved_agent_id: Option<Seq<char>>,
)
    ensures
        ({
            let made = launch_env_of(env, event_sink, resolved_agent_id);
            &&& env.api_token is None ==> (event_sink matches Some(sink) ==> (!text::is_blank(
                sink.api_token,
            ) ==> made.api_token == Some(text::trim(sink.api_token))))
            &&& env.runtime_agent_id is None ==> (resolved_agent_id matches Some(id) ==> (
            !text::is_blank(id) ==> made.agent_id == Some(text::trim(id))))
            &&& resolved_agent_id is None ==> made.agent_id is None
            &&& event_sink is None ==> made.api_token is None
        }),
{
}

// ---------------------------------------------------------------------------
// The agent
// ---------------------------------------------------------------------------

/// True of an agent with that identifier.
pub open spec fn identified_as(agent: JsonView, wanted: Seq<char>) -> bool {
    ||| json::field_text(agent, "id"@) matches Some(v) && !text::is_blank(v) && text::trim(v)
        == wanted
    ||| json::field_text(agent, "agent_id"@) matches Some(v) && !text::is_blank(v) && text::trim(v)
        == wanted
}

/// True of an agent that goes by that name.
pub open spec fn named_as(agent: JsonView, wanted: Seq<char>) -> bool {
    ||| json::field_text(agent, "name"@) matches Some(v) && !text::is_blank(v) && text::trim(v)
        == wanted
    ||| json::field_text(agent, "display_name"@) matches Some(v) && !text::is_blank(v)
        && text::trim(v) == wanted
    ||| json::field_text(agent, "resource_name"@) matches Some(v) && !text::is_blank(v)
        && text::trim(v) == wanted
}

/// An agent answers to its identifier and to its names.
pub proof fn agent_answers_to_its_names(agent: JsonView, wanted: Seq<char>)
    ensures
        has_id(agent, wanted) <==> identified_as(agent, wanted),
        has_name(agent, wanted) <==> named_as(agent, wanted),
        agent_id_of(agent) matches Some(id) ==> identified_as(agent, id),
        identified_as(agent, wanted) ==> agent_id_of(agent) is Some,
{
}

proof fn first_with_id_is_first(agents: Seq<JsonView>, wanted: Seq<char>, i: int)
    requires
        0 <= i < agents.len(),
        has_id(agents[i], wanted),
        forall|j: int| 0 <= j < i ==> !has_id(#[trigger] agents[j], wanted),
    ensures
        first_with_id(agents, wanted) == Some(agents[i]),
    decreases agents.len(),
{
    if i > 0 {
        let rest = agents.drop_first();
        assert(!has_id(agents[0], wanted));
        assert(rest[i - 1] == agents[i]);
        assert forall|j: int| 0 <= j < i - 1 implies !has_id(#[trigger] rest[j], wanted) by {
            assert(rest[j] == agents[j + 1]);
        }
        first_with_id_is_first(rest, wanted, i - 1);
    }
}

proof fn no_id_is_found(agents: Seq<JsonView>, wanted: Seq<char>)
    requires
        forall|j: int| 0 <= j < agents.len() ==> !has_id(#[trigger] agents[j], wanted),
    ensures
        first_with_id(agents, wanted) is None,
    decreases agents.len(),
{
    if agents.len() > 0 {
        let rest = agents.drop_first();
        assert(!has_id(agents[0], wanted));
        assert forall|j: int| 0 <= j < rest.len() implies !has_id(#[trigger] rest[j], wanted) by {
            assert(rest[j] == agents[j + 1]);
        }
        no_id_is_found(rest, wanted);
    }
}

proof fn named_id_is_among(agents: Seq<JsonView>, wanted: Seq<char>, i: int)
    requires
        0 <= i < agents.len(),
        has_name(agents[i], wanted),
        agent_id_of(agents[i]) is Some,
    ensures
        ids_with_name(agents, wanted).contains(agent_id_of(agents[i])->0),
    decreases agents.len(),
{
    let all = ids_with_name(agents, wanted);
    let id = agent_id_of(agents[i])->0;
    if i == agents.len() - 1 {
        assert(all[all.len() - 1] == id);
    } else {
        let front = agents.drop_last();
        assert(front[i] == agents[i]);
        named_id_is_among(front, wanted, i);
        let before = ids_with_name(front, wanted);
        let k = choose|k: int| 0 <= k < before.len() && before[k] == id;
        assert(all[k] == id);
    }
}

proof fn named_ids_are_one(agents: Seq<JsonView>, wanted: Seq<char>, id: Seq<char>)
    requires
        forall|j: int|
            0 <= j < agents.len() && has_name(#[trigger] agents[j], wanted) ==> agent_id_of(
                agents[j],
            ) is None || agent_id_of(agents[j]) == Some(id),
    ensures
        forall|k: int|
            0 <= k < ids_with_name(agents, wanted).len() ==> #[trigger] ids_with_name(
                agents,
                wanted,
            )[k] == id,
    decreases agents.len(),
{
    if agents.len() > 0 {
        let front = agents.drop_last();
        assert forall|j: int|
            0 <= j < front.len() && has_name(#[trigger] front[j], wanted) implies agent_id_of(
            front[j],
        ) is None || agent_id_of(front[j]) == Some(id) by {
            assert(front[j] == agents[j]);
        }
        named_ids_are_one(front, wanted, id);
        let last = agents[agents.len() - 1];
        assert(agents.last() == last);
        let all = ids_with_name(agents, wanted);
        let before = ids_with_name(front, wanted);
        assert forall|k: int| 0 <= k < all.len() implies #[trigger] all[k] == id by {
            if k < before.len() {
                assert(all[k] == before[k]);
            }
        }
    }
}

/// A selector that is an identifier finds the first agent with it, whatever the names
/// of the others are.
pub proof fn identifier_finds_its_agent(
    agents: Seq<JsonView>,
    selector: Seq<char>,
    i: int,
)
    requires
        !text::is_blank(selector),
        0 <= i < agents.len(),
        identified_as(agents[i], text::trim(selector)),
        forall|j: int|
            0 <= j < i ==> !identified_as(#[trigger] agents[j], text::trim(selector)),
    ensures
        selected(agents, selector) == Ok::<Option<Seq<char>>, ErrorView>(agent_id_of(agents[i])),
        agent_id_of(agents[i]) is Some,
{
    let wanted = text::trim(selector);
    agent_answers_to_its_names(agents[i], wanted);
    assert forall|j: int| 0 <= j < i implies !has_id(#[trigger] agents[j], wanted) by {
        agent_answers_to_its_names(agents[j], wanted);
        assert(!identified_as(agents[j], wanted));
    }
    first_with_id_is_first(agents, wanted, i);
}

/// A selector that is a name finds the agent that goes by it, if all that do are one;
/// it is refused where two of them differ.
pub proof fn name_finds_its_agent(
    agents: Seq<JsonView>,
    selector: Seq<char>,
    i: int,
    id: Seq<char>,
)
    requires
        !text::is_blank(selector),
        forall|j: int|
            0 <= j < agents.len() ==> !identified_as(#[trigger] agents[j], text::trim(selector)),
        0 <= i < agents.len(),
        named_as(agents[i], text::trim(selector)),
        agent_id_of(agents[i]) == Some(id),
    ensures
        (forall|j: int|
            0 <= j < agents.len() && named_as(#[trigger] agents[j], text::trim(selector))
                ==> agent_id_of(agents[j]) is None || agent_id_of(agents[j]) == Some(id))
            ==> selected(agents, selector) == Ok::<Option<Seq<char>>, ErrorView>(Some(id)),
        (exists|j: int|
            0 <= j < agents.len() && named_as(#[trigger] agents[j], text::trim(selector))
                && agent_id_of(agents[j]) is Some && agent_id_of(agents[j]) != Some(id))
            ==> selected(agents, selector) is Err,
{
    let wanted = text::trim(selector);
    assert forall|j: int| 0 <= j < agents.len() implies !has_id(#[trigger] agents[j], wanted) by {
        agent_answers_to_its_names(agents[j], wanted);
        assert(!identified_as(agents[j], wanted));
    }
    no_id_is_found(agents, wanted);
    agent_answers_to_its_names(agents[i], wanted);
    named_id_is_among(agents, wanted, i);
    let ids = ids_with_name(agents, wanted);
    let k = choose|k: int| 0 <= k < ids.len() && ids[k] == id;
    if forall|j: int|
        0 <= j < agents.len() && named_as(#[trigger] agents[j], wanted) ==> agent_id_of(
            agents[j],
        ) is None || agent_id_of(agents[j]) == Some(id) {
        assert forall|j: int|
            0 <= j < agents.len() && has_name(#[trigger] agents[j], wanted) implies agent_id_of(
            agents[j],
        ) is None || agent_id_of(agents[j]) == Some(id) by {
            agent_answers_to_its_names(agents[j], wanted);
        }
        named_ids_are_one(agents, wanted, id);
        assert(ids[0] == id);
    }
    if exists|j: int|
        0 <= j < agents.len() && named_as(#[trigger] agents[j], wanted) && agent_id_of(
            agents[j],
        ) is Some && agent_id_of(agents[j]) != Some(id) {
        let j = choose|j: int|
            0 <= j < agents.len() && named_as(#[trigger] agents[j], wanted) && agent_id_of(
                agents[j],
            ) is Some && agent_id_of(agents[j]) != Some(id);
        agent_answers_to_its_names(agents[j], wanted);
        named_id_is_among(agents, wanted, j);
        let m = choose|m: int| 0 <= m < ids.len() && ids[m] == agent_id_of(agents[j])->0;
        assert(ids[k] != ids[m]);
        assert(!crate::gateway_run::all_one(ids));
    }
}

/// A selector that no agent answers to finds none, and neither does a blank one.
pub proof fn unknown_selector_finds_none(agents: Seq<JsonView>, selector: Seq<char>)
    requires
        text::is_blank(selector) || forall|j: int|
            0 <= j < agents.len() ==> !identified_as(#[trigger] agents[j], text::trim(selector))
                && !named_as(agents[j], text::trim(selector)),
    ensures
        selected(agents, selector) == Ok::<Option<Seq<char>>, ErrorView>(None),
{
    let wanted = text::trim(selector);
    if !text::is_blank(selector) {
        assert forall|j: int| 0 <= j < agents.len() implies !has_id(#[trigger] agents[j], wanted) by {
            agent_answers_to_its_names(agents[j], wanted);
            assert(!identified_as(agents[j], wanted));
        }
        no_id_is_found(agents, wanted);
        assert forall|j: int| 0 <= j < agents.len() implies !has_name(#[trigger] agents[j], wanted) by {
            agent_answers_to_its_names(agents[j], wanted);
            assert(!identified_as(agents[j], wanted));
        }
        no_name_is_found(agents, wanted);
    }
}

proof fn no_name_is_found(agents: Seq<JsonView>, wanted: Seq<char>)
    requires
        forall|j: int| 0 <= j < agents.len() ==> !has_name(#[trigger] agents[j], wanted),
    ensures
        ids_with_name(agents, wanted).len() == 0,
    decreases agents.len(),
{
    if agents.len() > 0 {
        let front = agents.drop_last();
        assert(!has_name(agents[agents.len() - 1], wanted));
        assert forall|j: int| 0 <= j < front.len() implies !has_name(#[trigger] front[j], wanted) by {
            assert(front[j] == agents[j]);
        }
        no_name_is_found(front, wanted);
    }
}

/// An agent with policy files is synced, and needs a connection. Otherwise an agent
/// that is named, by an argument before the environment, is looked up, unless its
/// identifier is given.
pub proof fn agent_is_bound_as_asked(
    args: RunArgsView,
    env: RunEnvView,
    connected: bool,
    file_stem: Option<Seq<char>>,
)
    ensures
        args.policy_config.len() > 0 ==> (args.agent matches Some(agent) ==> (binding_of(
            args,
            env,
            connected,
            file_stem,
        ) is Ok) == connected && (connected ==> binding_of(args, env, connected, file_stem)->Ok_0
            == BindingView::Sync(
            agent,
            match (args.config_name, file_stem) {
                (Some(name), _) => name,
                (None, Some(stem)) => stem,
                (None, None) => "default"@,
            },
        ))),
        (args.agent is None || args.policy_config.len() == 0) && env.runtime_agent_id is Some
            ==> binding_of(args, env, connected, file_stem) == Ok::<BindingView, ErrorView>(
            BindingView::Unbound,
        ),
        args.policy_config.len() == 0 && env.runtime_agent_id is None ==> (args.agent matches Some(
            agent,
        ) ==> (!text::is_blank(agent) ==> (binding_of(args, env, connected, file_stem) is Ok)
            == connected && (connected ==> binding_of(args, env, connected, file_stem)->Ok_0
            == BindingView::Lookup(text::trim(agent))))),
        args.agent is None && env.runtime_agent_id is None ==> (
        env.runtime_agent_selector matches Some(agent) ==> (!text::is_blank(agent) ==> (binding_of(
            args,
            env,
            connected,
            file_stem,
        ) is Ok) == connected && (connected ==> binding_of(args, env, connected, file_stem)->Ok_0
            == BindingView::Lookup(text::trim(agent))))),
        args.agent is None && env.runtime_agent_selector is None ==> binding_of(
            args,
            env,
            connected,
            file_stem,
        ) == Ok::<BindingView, ErrorView>(BindingView::Unbound),
{
}

/// Looking an agent up lists the agents, then ends with the one that was selected.
pub proof fn lookup_lists_then_selects(selector: Seq<char>, responses: Seq<JsonView>)
    ensures
        responses.len() == 0 ==> next_lookup_step(selector, responses) == SyncStepView::Get(
            "/v1/agents"@,
        ),
        responses.len() > 0 ==> (json::field_items(responses[0], "agents"@) matches Some(agents)
            ==> match selected(agents, selector) {
            Ok(Some(id)) => next_lookup_step(selector, responses) == SyncStepView::Done(id),
            _ => next_lookup_step(selector, responses) is Fail,
        }),
{
}

// ---------------------------------------------------------------------------
// The policy
// ---------------------------------------------------------------------------

/// True of an item with that name; one without a name counts as unnamed.
pub open spec fn item_named(item: JsonView, name: Seq<char>) -> bool {
    (match json::field_text(item, "name"@) {
        Some(n) => n,
        None => Seq::empty(),
    }) == name
}

/// What is found by its name is the first of that name.
pub proof fn first_of_the_name_counts(items: Seq<JsonView>, name: Seq<char>)
    ensures
        match named_id(items, name) {
            Some(id) => exists|k: int|
                0 <= k < items.len() && item_named(#[trigger] items[k], name) && id == (
                match json::field_text(items[k], "id"@) {
                    Some(v) => v,
                    None => Seq::empty(),
                }) && forall|j: int| 0 <= j < k ==> !item_named(#[trigger] items[j], name),
            None => forall|j: int| 0 <= j < items.len() ==> !item_named(#[trigger] items[j], name),
        },
    decreases items.len(),
{
    if items.len() > 0 {
        let rest = items.drop_first();
        first_of_the_name_counts(rest, name);
        assert(forall|j: int| 0 <= j < rest.len() ==> #[trigger] rest[j] == items[j + 1]);
        if item_named(items[0], name) {
            assert(named_id(items, name) is Some);
        } else {
            assert(named_id(items, name) == named_id(rest, name));
            match named_id(items, name) {
                Some(id) => {
                    let k = choose|k: int|
                        0 <= k < rest.len() && item_named(#[trigger] rest[k], name) && id == (
                        match json::field_text(rest[k], "id"@) {
                            Some(v) => v,
                            None => Seq::empty(),
                        }) && forall|j: int| 0 <= j < k ==> !item_named(#[trigger] rest[j], name);
                    assert(item_named(items[k + 1], name));
                    assert forall|j: int| 0 <= j < k + 1 implies !item_named(
                        #[trigger] items[j],
                        name,
                    ) by {
                        if j > 0 {
                            assert(rest[j - 1] == items[j]);
                        }
                    }
                },
                None => {
                    assert forall|j: int| 0 <= j < items.len() implies !item_named(
                        #[trigger] items[j],
                        name,
                    ) by {
                        if j > 0 {
                            assert(rest[j - 1] == items[j]);
                        }
                    }
                },
            }
        }
    }
}

/// The requests say what they are about: an agent is created under its name, a
/// configuration under its name and for its agent, and a version with the policy, to be
/// deployed.
pub proof fn requests_hold_what_they_create(
    name: Seq<char>,
    agent_id: Seq<char>,
    yaml: Seq<char>,
)
    ensures
        json::field_text(agent_payload_of(name), "name"@) == Some(name),
        json::field_text(configuration_payload_of(name, agent_id), "name"@) == Some(name),
        json::field_text(configuration_payload_of(name, agent_id), "agent_id"@) == Some(agent_id),
        json::field_text(version_payload_of(yaml), "yaml"@) == Some(yaml),
        json::field(version_payload_of(yaml), "deploy"@) == Some(JsonView::Bool(true)),
{
    reveal_strlit("name");
    reveal_strlit("agent_id");
    reveal_strlit("yaml");
    reveal_strlit("deploy");
    assert("name"@.len() != "agent_id"@.len());
    assert("yaml"@.len() != "deploy"@.len());
    let none = Seq::<(Seq<char>, JsonView)>::empty();
    json::with_member_reads_back(none, "name"@, JsonView::Text(name), "agent_id"@);
    json::with_member_reads_back(
        json::with_member(none, "name"@, JsonView::Text(name)),
        "agent_id"@,
        JsonView::Text(agent_id),
        "name"@,
    );
    json::with_member_reads_back(none, "yaml"@, JsonView::Text(yaml), "deploy"@);
    json::with_member_reads_back(
        json::with_member(none, "yaml"@, JsonView::Text(yaml)),
        "deploy"@,
        JsonView::Bool(true),
        "yaml"@,
    );
}

/// A sync asks for the agents, creates the agent exactly where none of its name is
/// listed, reads the files, asks for the configurations, creates the configuration
/// exactly where none of its name is listed, and saves all policies as its new version.
/// It ends with the identifier of the agent.
pub proof fn sync_creates_what_is_missing(
    agent_name: Seq<char>,
    config_name: Seq<char>,
    contents: Seq<Seq<char>>,
    responses: Seq<JsonView>,
    agents: Seq<JsonView>,
)
    requires
        responses.len() > 0 ==> json::field_items(responses[0], "agents"@) == Some(agents),
    ensures
        ({
            let step = next_sync_step(agent_name, config_name, Some(Ok(contents)), responses);
            let known = exists|j: int|
                0 <= j < agents.len() && item_named(#[trigger] agents[j], agent_name);
            &&& responses.len() == 0 ==> step == SyncStepView::Get("/v1/agents"@)
            &&& responses.len() == 1 && !known ==> step == SyncStepView::Post(
                "/v1/agents"@,
                agent_payload_of(agent_name),
            )
            &&& responses.len() == 1 && known ==> step == SyncStepView::Get(
                "/v1/configurations"@,
            )
            &&& responses.len() == 2 && !known ==> (match json::field_text(responses[1], "id"@) {
                Some(_) => step == SyncStepView::Get("/v1/configurations"@),
                None => step is Fail,
            })
            &&& responses.len() >= 1 && known ==> !(step matches SyncStepView::Post(path, _) && path
                == "/v1/agents"@)
            &&& step matches SyncStepView::Done(id) ==> (!known ==> json::field_text(
                responses[1],
                "id"@,
            ) == Some(id))
            &&& step matches SyncStepView::Done(id) ==> (known ==> named_id(agents, agent_name)
                == Some(id))
        }),
        responses.len() > 1 ==> next_sync_step(
            agent_name,
            config_name,
            None,
            responses,
        ) is ReadPolicies || next_sync_step(agent_name, config_name, None, responses) is Fail,
{
    first_of_the_name_counts(agents, agent_name);
    reveal_strlit("/v1/agents");
    reveal_strlit("/v1/configurations");
    reveal_strlit("/v1/configurations/");
    assert("/v1/agents"@[4] == 'a');
    assert("/v1/configurations"@[4] == 'c' && "/v1/configurations/"@[4] == 'c');
    assert forall|id: Seq<char>| #[trigger]
        crate::gateway_run::version_path_of(id) != "/v1/agents"@ by {
        assert(crate::gateway_run::version_path_of(id)[4] == 'c');
    }
}

/// Once the agent and its configurations are known, the configuration is created
/// exactly where none of its name is listed, and the version is saved under the
/// configuration that was found or created.
pub proof fn sync_saves_under_the_configuration(
    agent_name: Seq<char>,
    config_name: Seq<char>,
    contents: Seq<Seq<char>>,
    responses: Seq<JsonView>,
    agent_id: Seq<char>,
    configurations: Seq<JsonView>,
)
    requires
        responses.len() >= 2,
        json::field_items(responses[0], "agents"@) matches Some(agents) && named_id(
            agents,
            agent_name,
        ) == Some(agent_id),
        json::field_items(responses[1], "configurations"@) == Some(configurations),
    ensures
        ({
            let step = next_sync_step(agent_name, config_name, Some(Ok(contents)), responses);
            let known = exists|j: int|
                0 <= j < configurations.len() && item_named(
                    #[trigger] configurations[j],
                    config_name,
                );
            let yaml = merged(contents);
            &&& known && responses.len() == 2 ==> (named_id(
                configurations,
                config_name,
            ) matches Some(id) && step == SyncStepView::Post(
                "/v1/configurations/"@ + id + "/versions"@,
                version_payload_of(yaml),
            ))
            &&& known && responses.len() >= 3 ==> step == SyncStepView::Done(agent_id)
            &&& !known && responses.len() == 2 ==> step == SyncStepView::Post(
                "/v1/configurations"@,
                configuration_payload_of(config_name, agent_id),
            )
            &&& !known && responses.len() == 3 ==> (match json::field_text(responses[2], "id"@) {
                Some(id) => step == SyncStepView::Post(
                    "/v1/configurations/"@ + id + "/versions"@,
                    version_payload_of(yaml),
                ),
                None => step is Fail,
            })
            &&& !known && responses.len() >= 4 && json::field_text(responses[2], "id"@) is Some
                ==> step == SyncStepView::Done(agent_id)
        }),
{
    first_of_the_name_counts(configurations, config_name);
}

} // verus!
