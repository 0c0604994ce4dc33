//! What holds of supervised services: their settings, their files, and the commands
//! that install, start, stop and remove them.
use vstd::prelude::*;

use crate::env_map::{self, Pair};
use crate::error::ErrorView;
use crate::gateway_service::{
    self, activation_of, active_state_of, binary_of, bin_path_of, canonical_path,
    carries_secret, change_of, deactivation_of, deduped, environment_file_of, environment_lines,
    has_control, install_of, install_plan_of, installed_from, key_value, label_of, merged_env,
    next_turn_of, plan_directories, policy_args, positive_pid, probed, quoted_all,
    resolved_platform, run_args, run_steps, sanitized, sanitized_twice, secret_key,
    service_dir_of, service_file_of, standing, status_checked, status_of, systemd_escaped,
    systemd_quoted, tells_a_state, tells_state, uninstall_of, unit_body, unit_text,
    windows_install_of, CommandView, EndedView, HostView, InstallSpecView, OperationView,
    PlanView, ServicePlatform, Standing, StepView, TurnView,
};
use crate::text;

verus! {

// ---------------------------------------------------------------------------
// Settings
// ---------------------------------------------------------------------------

/// The variables of a service are those that were given, with the agent and the token
/// set where these are not blank.
pub proof fn service_env_is_what_was_given(spec: InstallSpecView, other: Seq<char>)
    requires
        other != "VERDICTAN_AGENT_ID"@,
        other != "VERDICTAN_API_TOKEN"@,
    ensures
        env_map::lookup(merged_env(spec), other) == env_map::lookup(spec.env, other),
        env_map::lookup(merged_env(spec), "VERDICTAN_AGENT_ID"@) == (match spec.agent_id {
            Some(id) if !text::is_blank(id) => Some(id),
            _ => env_map::lookup(spec.env, "VERDICTAN_AGENT_ID"@),
        }),
        env_map::lookup(merged_env(spec), "VERDICTAN_API_TOKEN"@) == (match spec.api_token {
            Some(token) if !text::is_blank(token) => Some(token),
            _ => env_map::lookup(spec.env, "VERDICTAN_API_TOKEN"@),
        }),
{
    let agent = "VERDICTAN_AGENT_ID"@;
    let token = "VERDICTAN_API_TOKEN"@;
    reveal_strlit("VERDICTAN_AGENT_ID");
    reveal_strlit("VERDICTAN_API_TOKEN");
    assert(agent.len() != token.len());
    let first = gateway_service::with_given(spec.env, agent, spec.agent_id);
    if spec.agent_id is Some {
        env_map::with_pair_lookup(spec.env, agent, spec.agent_id->0, other);
        env_map::with_pair_lookup(spec.env, agent, spec.agent_id->0, token);
    }
    if spec.api_token is Some {
        env_map::with_pair_lookup(first, token, spec.api_token->0, other);
        env_map::with_pair_lookup(first, token, spec.api_token->0, agent);
    }
}

/// A variable carries a secret exactly where one of these words stands in its name, in
/// any case.
pub proof fn secret_names_are_told_by_their_words(key: Seq<char>)
    ensures
        secret_key(key) <==> exists|i: int, n: int|
            0 <= i && 0 <= n && i + n <= key.len() && {
                let word = #[trigger] text::upper(key).subrange(i, i + n);
                word == "TOKEN"@ || word == "KEY"@ || word == "SECRET"@ || word == "PASSWORD"@
                    || word == "CREDENTIAL"@ || word == "COOKIE"@
            },
        secret_key(key) <==> secret_key(text::upper(key)),
{
    let upper = text::upper(key);
    assert(text::upper(upper) =~= upper) by {
        assert forall|i: int| 0 <= i < upper.len() implies text::upper_char(upper[i]) == upper[i] by {
            assert(upper[i] == text::upper_char(key[i]));
        }
    }
    let told = |i: int, n: int|
        0 <= i && 0 <= n && i + n <= key.len() && {
            let word = text::upper(key).subrange(i, i + n);
            word == "TOKEN"@ || word == "KEY"@ || word == "SECRET"@ || word == "PASSWORD"@ || word
                == "CREDENTIAL"@ || word == "COOKIE"@
        };
    if secret_key(key) {
        let word = if text::contains(upper, "TOKEN"@) {
            "TOKEN"@
        } else if text::contains(upper, "KEY"@) {
            "KEY"@
        } else if text::contains(upper, "SECRET"@) {
            "SECRET"@
        } else if text::contains(upper, "PASSWORD"@) {
            "PASSWORD"@
        } else if text::contains(upper, "CREDENTIAL"@) {
            "CREDENTIAL"@
        } else {
            "COOKIE"@
        };
        let i = choose|i: int| text::occurs_at(upper, word, i);
        assert(upper.subrange(i, i + word.len() as int) == word);
        assert(told(i, word.len() as int));
    }
    if exists|i: int, n: int|
        0 <= i && 0 <= n && i + n <= key.len() && {
            let word = #[trigger] text::upper(key).subrange(i, i + n);
            word == "TOKEN"@ || word == "KEY"@ || word == "SECRET"@ || word == "PASSWORD"@ || word
                == "CREDENTIAL"@ || word == "COOKIE"@
        } {
        let (i, n) = choose|i: int, n: int|
            0 <= i && 0 <= n && i + n <= key.len() && {
                let word = #[trigger] text::upper(key).subrange(i, i + n);
                word == "TOKEN"@ || word == "KEY"@ || word == "SECRET"@ || word == "PASSWORD"@
                    || word == "CREDENTIAL"@ || word == "COOKIE"@
            };
        let word = upper.subrange(i, i + n);
        reveal_strlit("TOKEN");
        reveal_strlit("KEY");
        reveal_strlit("SECRET");
        reveal_strlit("PASSWORD");
        reveal_strlit("CREDENTIAL");
        reveal_strlit("COOKIE");
        assert(word.len() == n);
        assert(text::occurs_at(upper, word, i));
    }
}

/// Variables are protected as soon as one of them has a secret name and any value but
/// a blank one.
pub proof fn one_secret_is_enough(env: Seq<Pair>, i: int)
    requires
        0 <= i < env.len(),
        secret_key(env[i].0),
        !text::is_blank(env[i].1),
    ensures
        carries_secret(env),
{
    assert(gateway_service::secret_pair(env[i]));
}

/// A value with a line break never gets into a service file.
pub proof fn line_breaks_are_refused(value: Seq<char>, i: int)
    requires
        0 <= i < value.len(),
        value[i] == '\n' || value[i] == '\r' || value[i] == '\t' || value[i] == '\u{7f}',
    ensures
        has_control(value),
{
    assert(gateway_service::control_char(value[i]));
}

/// Every variable has its line in the environment file, in order, with its value
/// quoted and escaped.
pub proof fn environment_file_holds_each(env: Seq<Pair>, next: Pair)
    ensures
        environment_lines(Seq::empty()) == Seq::<char>::empty(),
        environment_lines(env.push(next)) == environment_lines(env) + next.0 + "=\""@
            + systemd_escaped(next.1) + "\"\n"@,
{
    assert(env.push(next).drop_last() =~= env);
    assert(environment_lines(env.push(next)) =~= environment_lines(env) + next.0 + "=\""@
        + systemd_escaped(next.1) + "\"\n"@);
}

// ---------------------------------------------------------------------------
// The command of a service
// ---------------------------------------------------------------------------

/// True where an option and its value stand in some arguments, from a position on.
pub open spec fn has_option(
    args: Seq<Seq<char>>,
    at: int,
    option: Seq<char>,
    value: Seq<char>,
) -> bool {
    0 <= at && at + 1 < args.len() && args[at] == option && args[at + 1] == value
}

/// Every policy path has its own option, in order.
pub proof fn policy_options_name_each_path(paths: Seq<Seq<char>>)
    ensures
        policy_args(paths).len() == 2 * paths.len(),
        forall|i: int|
            0 <= i < paths.len() ==> has_option(
                policy_args(paths),
                2 * i,
                "--policy-config"@,
                #[trigger] paths[i],
            ),
    decreases paths.len(),
{
    if paths.len() > 0 {
        let front = paths.drop_last();
        policy_options_name_each_path(front);
        assert forall|i: int| 0 <= i < paths.len() implies has_option(
            policy_args(paths),
            2 * i,
            "--policy-config"@,
            #[trigger] paths[i],
        ) by {
            if i < front.len() {
                assert(front[i] == paths[i]);
                assert(has_option(policy_args(front), 2 * i, "--policy-config"@, front[i]));
            }
        }
    }
}

/// The service runs the gateway under the listen address and the fail mode that were
/// asked for; with the upstream unless it is connected; with every policy file; and
/// with the limit where there is one. A command that is given replaces all of it.
pub proof fn service_runs_what_was_asked(spec: InstallSpecView, host: HostView)
    ensures
        spec.command_override matches Some(args) ==> run_args(spec, host) == args,
        spec.command_override is None ==> {
            let args = run_args(spec, host);
            let policies = if spec.connected_mode {
                6int
            } else {
                8int
            };
            let limit = policies + 2 * spec.policy_configs.len();
            &&& args.take(6) == seq![
                "gateway"@,
                "run"@,
                "--listen"@,
                spec.listen,
                "--fail-mode"@,
                spec.fail_mode,
            ]
            &&& !spec.connected_mode ==> args[6] == "--upstream"@ && args[7] == (
            match spec.upstream {
                Some(upstream) => upstream,
                None => crate::gateway_run::DEFAULT_HOSTED_UPSTREAM_URL@,
            })
            &&& forall|i: int|
                0 <= i < spec.policy_configs.len() ==> has_option(
                    args,
                    policies + 2 * i,
                    "--policy-config"@,
                    canonical_path(host, #[trigger] spec.policy_configs[i]),
                )
            &&& match spec.max_concurrency {
                Some(n) => args.len() == limit + 2 && args[limit] == "--max-concurrency"@
                    && args[limit + 1] == text::decimal(n as nat),
                None => args.len() == limit,
            }
        },
{
    if spec.command_override is None {
        let args = run_args(spec, host);
        let paths = gateway_service::canonical_paths(host, spec.policy_configs);
        policy_options_name_each_path(paths);
        assert(args.take(6) =~= seq![
            "gateway"@,
            "run"@,
            "--listen"@,
            spec.listen,
            "--fail-mode"@,
            spec.fail_mode,
        ]);
        let policies = if spec.connected_mode {
            6int
        } else {
            8int
        };
        assert forall|i: int| 0 <= i < spec.policy_configs.len() implies has_option(
            args,
            policies + 2 * i,
            "--policy-config"@,
            canonical_path(host, #[trigger] spec.policy_configs[i]),
        ) by {
            assert(paths[i] == canonical_path(host, spec.policy_configs[i]));
            assert(has_option(policy_args(paths), 2 * i, "--policy-config"@, paths[i]));
            assert(args[policies + 2 * i] == policy_args(paths)[2 * i]);
            assert(args[policies + 2 * i + 1] == policy_args(paths)[2 * i + 1]);
        }
    }
}

/// The binary of a service is the one that was chosen, else this program.
pub proof fn service_binary_is_the_chosen_one(spec: InstallSpecView, host: HostView)
    ensures
        spec.binary_path_override matches Some(path) ==> binary_of(spec, host) == Ok::<
            Seq<char>,
            ErrorView,
        >(canonical_path(host, path)),
        spec.binary_path_override is None ==> (host.current_exe matches Ok(exe) ==> binary_of(
            spec,
            host,
        ) == Ok::<Seq<char>, ErrorView>(canonical_path(host, exe))),
        spec.binary_path_override is None && host.current_exe is Err ==> binary_of(
            spec,
            host,
        ) is Err,
{
}

// ---------------------------------------------------------------------------
// Where a service is installed
// ---------------------------------------------------------------------------

/// A new service goes to the service manager of its system, in the scope that the
/// process is entitled to.
pub proof fn new_service_goes_to_the_entitled_scope(privileged: bool, os: Seq<char>)
    ensures
        resolved_platform("linux"@, privileged) == Ok::<ServicePlatform, ErrorView>(
            if privileged {
                ServicePlatform::SystemdSystem
            } else {
                ServicePlatform::SystemdUser
            },
        ),
        resolved_platform("macos"@, privileged) == Ok::<ServicePlatform, ErrorView>(
            if privileged {
                ServicePlatform::LaunchDaemon
            } else {
                ServicePlatform::Launchd
            },
        ),
        resolved_platform("windows"@, privileged) == Ok::<ServicePlatform, ErrorView>(
            ServicePlatform::WindowsService,
        ),
        os != "linux"@ && os != "macos"@ && os != "windows"@ ==> resolved_platform(
            os,
            privileged,
        ) is Err,
{
    reveal_strlit("linux");
    reveal_strlit("macos");
    reveal_strlit("windows");
    assert("linux"@[0] == 'l' && "macos"@[0] == 'm' && "windows"@[0] == 'w');
}

/// The file of a service lies in the directory of its service manager, under a name
/// made of its safe name alone.
pub proof fn service_file_lies_with_its_manager(
    platform: ServicePlatform,
    name: Seq<char>,
    host: HostView,
)
    requires
        sanitized(name).len() > 0,
    ensures
        platform == ServicePlatform::SystemdSystem && host.separator == '/' ==> service_file_of(
            platform,
            name,
            host,
        ) == Ok::<Seq<char>, ErrorView>(
            "/etc/systemd/system/"@ + sanitized(name) + ".service"@,
        ),
        platform == ServicePlatform::LaunchDaemon && host.separator == '/' ==> service_file_of(
            platform,
            name,
            host,
        ) == Ok::<Seq<char>, ErrorView>(
            "/Library/LaunchDaemons/com.verdictan.gateway."@ + sanitized(name) + ".plist"@,
        ),
        platform == ServicePlatform::SystemdUser || platform == ServicePlatform::Launchd ==> (
        service_file_of(platform, name, host) is Ok <==> host.home is Some),
        platform == ServicePlatform::SystemdUser && host.separator == '/' ==> (
        host.home matches Some(home) ==> (home.len() > 0 && home.last() != '/' ==> service_file_of(
            platform,
            name,
            host,
        ) == Ok::<Seq<char>, ErrorView>(
            home + "/.config/systemd/user/"@ + sanitized(name) + ".service"@,
        ))),
{
    sanitized_twice(name);
    reveal_strlit("/etc/systemd/system");
    reveal_strlit("/etc/systemd/system/");
    reveal_strlit("/Library/LaunchDaemons");
    reveal_strlit("/Library/LaunchDaemons/com.verdictan.gateway.");
    reveal_strlit("com.verdictan.gateway.");
    reveal_strlit(".config/systemd/user");
    let safe = sanitized(name);
    if platform == ServicePlatform::SystemdSystem && host.separator == '/' {
        assert(service_file_of(platform, name, host)->Ok_0 =~= "/etc/systemd/system/"@ + safe
            + ".service"@);
    }
    if platform == ServicePlatform::LaunchDaemon && host.separator == '/' {
        assert(service_file_of(platform, name, host)->Ok_0
            =~= "/Library/LaunchDaemons/com.verdictan.gateway."@ + safe + ".plist"@);
    }
    if platform == ServicePlatform::SystemdUser && host.separator == '/' && host.home is Some {
        let home = host.home->0;
        if home.len() > 0 && home.last() != '/' {
            reveal_strlit("/.config/systemd/user/");
            let dir = service_dir_of(platform, host)->Ok_0;
            assert(dir =~= home + "/"@ + ".config/systemd/user"@) by {
                reveal_strlit("/");
            }
            assert(dir.last() == 'r');
            assert(service_file_of(platform, name, host)->Ok_0 =~= home + "/.config/systemd/user/"@
                + safe + ".service"@);
        }
    }
}

// ---------------------------------------------------------------------------
// Starting, stopping and removing
// ---------------------------------------------------------------------------

/// Starting a service enables and starts its own unit, job or entry, after the service
/// manager has read the file.
pub proof fn activation_starts_the_service(
    name: Seq<char>,
    service_file: Seq<char>,
    host: HostView,
)
    requires
        sanitized(name).len() > 0,
    ensures
        activation_of(ServicePlatform::SystemdSystem, name, service_file, host) matches Ok(list)
            && list.len() == 2 && list[0].program == "systemctl"@ && list[0].args == seq![
            "daemon-reload"@,
        ] && list[1].program == "systemctl"@ && list[1].args == seq![
            "enable"@,
            "--now"@,
            sanitized(name) + ".service"@,
        ] && list[0].strict && list[1].strict,
        activation_of(ServicePlatform::SystemdUser, name, service_file, host) matches Ok(list)
            && list.len() == 3 && list[0].args == seq!["--user"@, "daemon-reload"@]
            && list[1].program == "loginctl"@ && list[1].args == seq!["enable-linger"@]
            && list[2].program == "systemctl"@ && list[2].args == seq![
            "--user"@,
            "enable"@,
            "--now"@,
            sanitized(name) + ".service"@,
        ] && list[0].strict && list[1].strict && list[2].strict,
        activation_of(ServicePlatform::WindowsService, name, service_file, host) matches Ok(list)
            && list.len() == 1 && list[0].program == "sc.exe"@ && list[0].args == seq![
            "start"@,
            sanitized(name),
        ] && list[0].strict,
        activation_of(ServicePlatform::LaunchDaemon, name, service_file, host) matches Ok(list)
            && list.len() == 3 && list[0].args == seq![
            "bootout"@,
            "system/com.verdictan.gateway."@ + sanitized(name),
        ] && !list[0].strict && list[1].args == seq!["bootstrap"@, "system"@, service_file]
            && list[1].strict && list[2].args == seq![
            "kickstart"@,
            "-k"@,
            "system/com.verdictan.gateway."@ + sanitized(name),
        ] && list[2].strict,
{
    sanitized_twice(name);
    reveal_strlit("system/com.verdictan.gateway.");
    reveal_strlit("system");
    reveal_strlit("/");
    reveal_strlit("com.verdictan.gateway.");
    assert(gateway_service::target_of("system"@, label_of(sanitized(name)))
        =~= "system/com.verdictan.gateway."@ + sanitized(name));
}

/// What is stopped is what was started, and it is disabled so that it stays down. No
/// command of a stop fails it.
pub proof fn deactivation_stops_what_was_started(
    platform: ServicePlatform,
    name: Seq<char>,
    service_file: Seq<char>,
    host: HostView,
)
    requires
        activation_of(platform, name, service_file, host) is Ok,
    ensures
        ({
            let on = activation_of(platform, name, service_file, host)->Ok_0;
            deactivation_of(platform, name, host) matches Ok(off) && off.len() == 1
                && !off[0].strict && off[0].args.last() == on.last().args.last() && off[0].program
                == on.last().program && match platform {
                ServicePlatform::SystemdUser => off[0].args.take(3) == seq![
                    "--user"@,
                    "disable"@,
                    "--now"@,
                ],
                ServicePlatform::SystemdSystem => off[0].args.take(2) == seq!["disable"@, "--now"@],
                ServicePlatform::WindowsService => off[0].args[0] == "stop"@,
                _ => off[0].args[0] == "bootout"@,
            }
        }),
{
    let off = deactivation_of(platform, name, host)->Ok_0;
    if platform == ServicePlatform::SystemdUser {
        assert(off[0].args.take(3) =~= seq!["--user"@, "disable"@, "--now"@]);
    }
    if platform == ServicePlatform::SystemdSystem {
        assert(off[0].args.take(2) =~= seq!["disable"@, "--now"@]);
    }
}

/// Starting and stopping act where the service is registered, and refuse where it is
/// not.
pub proof fn changes_act_where_the_service_is(
    name: Seq<char>,
    host: HostView,
    found: Seq<bool>,
    start: bool,
)
    ensures
        change_of(name, host, found, start) matches Ok(operation) ==> {
            &&& exists|i: int|
                0 <= i < probed(host.os, host.privileged).len() && i < found.len() && found[i]
                    && #[trigger] probed(host.os, host.privileged)[i] == operation.platform
            &&& service_file_of(operation.platform, name, host) == Ok::<Seq<char>, ErrorView>(
                operation.service_file,
            )
            &&& start ==> (activation_of(
                operation.platform,
                name,
                operation.service_file,
                host,
            ) matches Ok(list) && operation.steps == Seq::new(
                list.len(),
                |i: int| StepView::Run(list[i]),
            ))
            &&& !start ==> (deactivation_of(operation.platform, name, host) matches Ok(list)
                && operation.steps == Seq::new(list.len(), |i: int| StepView::Run(list[i])))
        },
        (forall|i: int| 0 <= i < found.len() ==> !found[i]) ==> change_of(
            name,
            host,
            found,
            start,
        ) is Err,
{
    if change_of(name, host, found, start) is Ok {
        let operation = change_of(name, host, found, start)->Ok_0;
        let i = choose|i: int|
            0 <= i < probed(host.os, host.privileged).len() && gateway_service::found_at(found, i)
                && #[trigger] probed(host.os, host.privileged)[i] == operation.platform;
        assert(found[i]);
    }
}

/// Removing a service stops it first, then removes its registration: the file, with the
/// environment file of a unit, or the entry of a Windows service.
pub proof fn removal_stops_first(name: Seq<char>, host: HostView, found: Seq<bool>)
    ensures
        uninstall_of(name, host, found) matches Ok(operation) ==> {
            &&& operation.steps.len() >= 2
            &&& deactivation_of(operation.platform, name, host) matches Ok(off)
                && operation.steps[0] == StepView::Run(off[0])
            &&& service_file_of(operation.platform, name, host) == Ok::<Seq<char>, ErrorView>(
                operation.service_file,
            )
            &&& operation.platform == ServicePlatform::WindowsService ==> (
            operation.steps[1] matches StepView::Run(command) && command.program == "sc.exe"@
                && command.args == seq!["delete"@, sanitized(name)] && command.strict)
            &&& operation.platform != ServicePlatform::WindowsService ==> operation.steps[1]
                == StepView::RemoveServiceFile(operation.service_file)
            &&& operation.platform == ServicePlatform::SystemdUser || operation.platform
                == ServicePlatform::SystemdSystem ==> (match environment_file_of(
                operation.platform,
                sanitized(name),
                host,
            ) {
                Ok(path) => operation.steps.len() == 4 && operation.steps[2]
                    == StepView::RemoveEnvironmentFile(path) && (operation.steps[3] matches
                    StepView::Run(command) && command.program == "systemctl"@
                    && command.args.last() == "daemon-reload"@ && !command.strict),
                Err(e) => operation.steps.last() == StepView::Fail(e),
            })
        },
{
}

// ---------------------------------------------------------------------------
// Installing
// ---------------------------------------------------------------------------

/// The directories that are created are all that are wanted.
pub proof fn no_directory_is_dropped(s: Seq<Seq<char>>, i: int)
    requires
        0 <= i < s.len(),
    ensures
        deduped(s).contains(s[i]),
        deduped(s).last() == s.last(),
        deduped(s).len() > 0,
    decreases s.len(),
{
    if s.len() < 2 {
        assert(deduped(s)[i] == s[i]);
    } else {
        let front = s.drop_last();
        let kept = deduped(front);
        no_directory_is_dropped(front, 0);
        if i < front.len() {
            no_directory_is_dropped(front, i);
            assert(front[i] == s[i]);
            let j = choose|j: int| 0 <= j < kept.len() && kept[j] == s[i];
            assert(deduped(s)[j] == s[i]);
        } else {
            assert(deduped(s)[deduped(s).len() - 1] == s[i]);
        }
    }
}

/// An install plan writes the service file, under the service's own path, into a
/// directory that it creates; an environment file exactly where a unit has variables;
/// and names an account exactly for a system unit.
pub proof fn install_plan_writes_the_service(
    platform: ServicePlatform,
    spec: InstallSpecView,
    host: HostView,
    plan: PlanView,
)
    requires
        install_plan_of(platform, spec, host) == Ok::<PlanView, ErrorView>(plan),
    ensures
        service_file_of(platform, spec.name, host) == Ok::<Seq<char>, ErrorView>(
            plan.service_file,
        ),
        plan.files.last().path == plan.service_file,
        service_dir_of(platform, host) matches Ok(dir) && plan.directories.contains(dir),
        platform == ServicePlatform::SystemdSystem ==> plan.service_user == Some("verdictan"@),
        platform != ServicePlatform::SystemdSystem ==> plan.service_user is None,
        ({
            let unit = platform == ServicePlatform::SystemdUser || platform
                == ServicePlatform::SystemdSystem;
            if unit && merged_env(spec).len() > 0 {
                &&& plan.files.len() == 2
                &&& environment_file_of(platform, sanitized(spec.name), host) == Ok::<
                    Seq<char>,
                    ErrorView,
                >(plan.files[0].path)
                &&& plan.files[0].contents == environment_lines(merged_env(spec))
                &&& plan.files[0].private
                &&& unit_text(spec, platform, Some(plan.files[0].path), host) == Ok::<
                    Seq<char>,
                    ErrorView,
                >(plan.files[1].contents)
            } else {
                &&& plan.files.len() == 1
                &&& unit ==> unit_text(spec, platform, None, host) == Ok::<Seq<char>, ErrorView>(
                    plan.files[0].contents,
                )
                &&& plan.files[0].private <==> carries_secret(merged_env(spec))
            }
        }),
{
    let dir = service_dir_of(platform, host)->Ok_0;
    let logs = if platform == ServicePlatform::Launchd || platform
        == ServicePlatform::LaunchDaemon {
        gateway_service::logs_of(platform, host)->Ok_0
    } else {
        Seq::empty()
    };
    let unit = platform == ServicePlatform::SystemdUser || platform
        == ServicePlatform::SystemdSystem;
    let env_dir = if unit && merged_env(spec).len() > 0 {
        Some(gateway_service::environment_dir_of(platform, host)->Ok_0)
    } else {
        None
    };
    let all = plan_directories(platform, dir, logs, env_dir);
    assert(all[0] == dir);
    no_directory_is_dropped(all, 0);
    assert(plan.directories == deduped(all));
}

/// A unit runs its command in its directory, reads its variables from the environment
/// file where there is one, is restarted when it fails, and runs under the service's
/// account exactly in the system scope.
pub proof fn unit_runs_its_command(
    system: bool,
    working_dir: Seq<char>,
    command: Seq<Seq<char>>,
    environment_file: Option<Seq<char>>,
)
    ensures
        ({
            let unit = unit_body(system, working_dir, command, environment_file);
            &&& text::contains(
                unit,
                "\nExecStart="@ + text::join(
                    Seq::new(command.len(), |i: int| systemd_quoted(command[i])),
                    " "@,
                ) + "\n"@,
            )
            &&& text::contains(unit, "WorkingDirectory="@ + systemd_quoted(working_dir) + "\n"@)
            &&& text::contains(unit, "Restart=on-failure\nRestartSec=3\n"@)
            &&& environment_file matches Some(path) ==> text::contains(
                unit,
                "EnvironmentFile="@ + path + "\n"@,
            )
            &&& system ==> text::contains(unit, "User=verdictan\nGroup=verdictan\n"@)
                && text::contains(unit, "NoNewPrivileges=true\n"@) && text::contains(
                unit,
                "WantedBy=multi-user.target\n"@,
            )
            &&& !system ==> text::contains(unit, "WantedBy=default.target\n"@)
        }),
{
    let head = gateway_service::unit_head();
    let account = gateway_service::unit_account(system);
    let place = "WorkingDirectory="@ + systemd_quoted(working_dir) + "\n"@;
    let run = "ExecStart="@ + text::join(quoted_all(command), " "@) + "\n"@;
    let restart = "Restart=on-failure\nRestartSec=3\n"@;
    let variables = gateway_service::unit_environment(environment_file);
    let hardening = gateway_service::unit_hardening(system);
    let target = "\n[Install]\nWantedBy="@ + gateway_service::unit_target(system) + "\n"@;
    let x1 = head + account;
    let x2 = x1 + place;
    let x3 = x2 + run;
    let x4 = x3 + restart;
    let x5 = x4 + variables;
    let x6 = x5 + hardening;
    assert(unit_body(system, working_dir, command, environment_file) == x6 + target);
    assert(x2.len() > 0 && x2.last() == '\n') by {
        reveal_strlit("\n");
    }
    exec_line_follows(x2, command);
    grows_by(head, account);
    grows_by(x1, place);
    grows_by(x2, run);
    grows_by(x3, restart);
    grows_by(x4, variables);
    grows_by(x5, hardening);
    grows_by(x6, target);
    unit_fixed_parts(system);
    if system {
        inner_part(x6 + target, hardening, "NoNewPrivileges=true\n"@);
        inner_part(x6 + target, target, "WantedBy=multi-user.target\n"@);
    } else {
        inner_part(x6 + target, target, "WantedBy=default.target\n"@);
    }
}

proof fn exec_line_follows(before: Seq<char>, command: Seq<Seq<char>>)
    requires
        before.len() > 0,
        before.last() == '\n',
    ensures
        text::contains(
            before + ("ExecStart="@ + text::join(quoted_all(command), " "@) + "\n"@),
            "\nExecStart="@ + text::join(
                Seq::new(command.len(), |i: int| systemd_quoted(command[i])),
                " "@,
            ) + "\n"@,
        ),
{
    assert(quoted_all(command) =~= Seq::new(command.len(), |i: int| systemd_quoted(command[i])));
    let joined = text::join(quoted_all(command), " "@);
    let run = "ExecStart="@ + joined + "\n"@;
    let line = "\nExecStart="@ + joined + "\n"@;
    reveal_strlit("\nExecStart=");
    reveal_strlit("ExecStart=");
    assert("\nExecStart="@ =~= seq!['\n'] + "ExecStart="@);
    assert(line =~= seq!['\n'] + run);
    let whole = before + run;
    let at = before.len() - 1;
    assert(whole.subrange(at, at + line.len()) =~= line);
    assert(text::occurs_at(whole, line, at));
}

proof fn inner_part(whole: Seq<char>, part: Seq<char>, inner: Seq<char>)
    requires
        text::contains(whole, part),
        text::contains(part, inner),
    ensures
        text::contains(whole, inner),
{
    let i = choose|i: int| text::occurs_at(whole, part, i);
    let j = choose|j: int| text::occurs_at(part, inner, j);
    assert(whole.subrange(i + j, i + j + inner.len()) =~= whole.subrange(
        i,
        i + part.len(),
    ).subrange(j, j + inner.len()));
    assert(text::occurs_at(whole, inner, i + j));
}

proof fn unit_fixed_parts(system: bool)
    ensures
        system ==> gateway_service::unit_account(system) == "User=verdictan\nGroup=verdictan\n"@,
        system ==> text::contains(
            gateway_service::unit_hardening(system),
            "NoNewPrivileges=true\n"@,
        ),
        text::contains(
            "\n[Install]\nWantedBy="@ + gateway_service::unit_target(system) + "\n"@,
            if system {
                "WantedBy=multi-user.target\n"@
            } else {
                "WantedBy=default.target\n"@
            },
        ),
{
    reveal_strlit("\n");
    reveal_strlit("\n[Install]\nWantedBy=");
    let target = "\n[Install]\nWantedBy="@ + gateway_service::unit_target(system) + "\n"@;
    if system {
        reveal_strlit("User=");
        reveal_strlit("verdictan");
        reveal_strlit("\nGroup=");
        reveal_strlit("User=verdictan\nGroup=verdictan\n");
        assert(gateway_service::unit_account(system) =~= "User=verdictan\nGroup=verdictan\n"@);
        reveal_strlit(
            "\n# Hardening\nNoNewPrivileges=true\nProtectSystem=strict\nProtectHome=read-only\nPrivateTmp=true\nReadWritePaths=/var/log\n",
        );
        reveal_strlit("NoNewPrivileges=true\n");
        let hardening = gateway_service::unit_hardening(system);
        let kept = "NoNewPrivileges=true\n"@;
        assert(hardening.subrange(13, 13 + kept.len() as int) =~= kept);
        assert(text::occurs_at(hardening, kept, 13));
        reveal_strlit("multi-user.target");
        reveal_strlit("WantedBy=multi-user.target\n");
        let wanted = "WantedBy=multi-user.target\n"@;
        assert(target.subrange(11, 11 + wanted.len() as int) =~= wanted);
        assert(text::occurs_at(target, wanted, 11));
    } else {
        reveal_strlit("default.target");
        reveal_strlit("WantedBy=default.target\n");
        let wanted = "WantedBy=default.target\n"@;
        assert(target.subrange(11, 11 + wanted.len() as int) =~= wanted);
        assert(text::occurs_at(target, wanted, 11));
    }
}

/// The text of a unit runs the chosen binary with the arguments of the service.
pub proof fn unit_text_runs_the_binary(
    spec: InstallSpecView,
    platform: ServicePlatform,
    environment_file: Option<Seq<char>>,
    host: HostView,
    unit: Seq<char>,
)
    requires
        unit_text(spec, platform, environment_file, host) == Ok::<Seq<char>, ErrorView>(unit),
    ensures
        binary_of(spec, host) matches Ok(exe) && ({
            let command = seq![exe] + run_args(spec, host);
            text::contains(
                unit,
                "\nExecStart="@ + text::join(
                    Seq::new(command.len(), |i: int| systemd_quoted(command[i])),
                    " "@,
                ) + "\n"@,
            )
        }),
        environment_file matches Some(path) ==> text::contains(
            unit,
            "EnvironmentFile="@ + path + "\n"@,
        ),
        platform == ServicePlatform::SystemdSystem ==> text::contains(
            unit,
            "User=verdictan\nGroup=verdictan\n"@,
        ),
{
    let exe = binary_of(spec, host)->Ok_0;
    unit_runs_its_command(
        platform != ServicePlatform::SystemdUser && platform != ServicePlatform::Launchd,
        gateway_service::working_dir_of(platform, host)->Ok_0,
        seq![exe] + run_args(spec, host),
        environment_file,
    );
}

/// An install creates the account, the directories and the files before it starts the
/// service, and ends by asking whether the service runs.
pub proof fn install_takes_its_steps_in_order(
    spec: InstallSpecView,
    host: HostView,
    registered: bool,
    operation: OperationView,
)
    requires
        install_of(spec, host, registered) == Ok::<OperationView, ErrorView>(operation),
        operation.platform != ServicePlatform::WindowsService,
    ensures
        resolved_platform(host.os, host.privileged) == Ok::<ServicePlatform, ErrorView>(
            operation.platform,
        ),
        install_plan_of(operation.platform, spec, host) matches Ok(plan)
            && operation.service_file == plan.service_file && ({
            let users = if plan.service_user is Some {
                1int
            } else {
                0int
            };
            let dirs = plan.directories.len();
            let files = plan.files.len();
            let steps = operation.steps;
            &&& plan.service_user matches Some(user) ==> steps[0] == StepView::EnsureUser(user)
            &&& forall|i: int|
                0 <= i < dirs ==> steps[users + i] == StepView::CreateDirectory(
                    #[trigger] plan.directories[i],
                )
            &&& forall|i: int|
                0 <= i < files ==> steps[users + dirs + i] == StepView::WriteFile(
                    #[trigger] plan.files[i],
                )
            &&& match activation_of(operation.platform, spec.name, plan.service_file, host) {
                Ok(list) => steps.len() == users + dirs + files + list.len() + 1 && forall|i: int|
                    0 <= i < list.len() ==> steps[users + dirs + files + i] == StepView::Run(
                        #[trigger] list[i],
                    ),
                Err(e) => steps[users + dirs + files] == StepView::Fail(e),
            }
            &&& match active_state_of(operation.platform, spec.name, host) {
                Ok(command) => steps.last() == StepView::VerifyActive(
                    operation.platform,
                    spec.name,
                    command,
                ),
                Err(e) => steps.last() == StepView::Fail(e),
            }
        }),
{
}

/// A Windows install registers the command of the service to start by itself, or
/// changes the registration that is there; hands its variables over; has it restarted
/// when it fails; and starts it.
pub proof fn windows_install_registers_the_command(
    spec: InstallSpecView,
    host: HostView,
    registered: bool,
    operation: OperationView,
)
    requires
        windows_install_of(spec, host, registered) == Ok::<OperationView, ErrorView>(operation),
        merged_env(spec).len() == 0 || gateway_service::windows_block(merged_env(spec)) is Ok,
    ensures
        bin_path_of(spec, host) matches Ok(bin_path) && ({
            let at = if registered {
                1int
            } else {
                0int
            };
            let steps = operation.steps;
            let n = steps.len();
            &&& registered ==> (steps[0] matches StepView::Run(command) && command.args == seq![
                "stop"@,
                sanitized(spec.name),
            ] && !command.strict)
            &&& steps[at] matches StepView::Run(command) && command.program == "sc.exe"@
                && command.strict && command.args.take(6) == seq![
                if registered {
                    "config"@
                } else {
                    "create"@
                },
                sanitized(spec.name),
                "binPath="@,
                bin_path,
                "start="@,
                "auto"@,
            ]
            &&& steps[n - 1] matches StepView::Run(command) && command.program == "sc.exe"@
                && command.strict && command.args == seq!["start"@, sanitized(spec.name)]
            &&& steps[n - 2] matches StepView::Run(command) && command.strict && command.args
                == seq![
                "failure"@,
                sanitized(spec.name),
                "reset="@,
                "86400"@,
                "actions="@,
                "restart/5000/restart/10000/restart/30000"@,
            ]
            &&& merged_env(spec).len() > 0 ==> (steps[n - 3] matches StepView::RunWithEnv(
                command,
                env,
            ) && command.strict && env.len() == 2 && env[0].1 == sanitized(spec.name)
                && gateway_service::windows_block(merged_env(spec)) == Ok::<Seq<char>, ErrorView>(
                env[1].1,
            ))
            &&& merged_env(spec).len() == 0 ==> n == at + 4
            &&& merged_env(spec).len() > 0 ==> n == at + 5
        }),
{
    let at = if registered {
        1int
    } else {
        0int
    };
    let bin_path = bin_path_of(spec, host)->Ok_0;
    let command = operation.steps[at]->Run_0;
    assert(command.args.take(6) =~= seq![
        if registered {
            "config"@
        } else {
            "create"@
        },
        sanitized(spec.name),
        "binPath="@,
        bin_path,
        "start="@,
        "auto"@,
    ]);
}

// ---------------------------------------------------------------------------
// Carrying out an operation
// ---------------------------------------------------------------------------

/// A command fails an operation exactly where it must succeed and did not.
pub proof fn only_strict_commands_fail(
    program: Seq<char>,
    succeeded: bool,
    status: Seq<char>,
    stderr: Seq<char>,
    strict: bool,
)
    ensures
        status_checked(program, succeeded, status, stderr, strict) is Err <==> strict
            && !succeeded,
        status_checked(program, succeeded, status, stderr, strict) matches Err(e)
            ==> text::starts_with(e.message, program + " failed"@),
{
    if strict && !succeeded {
        let e = status_checked(program, succeeded, status, stderr, strict)->Err_0;
        reveal_strlit(" failed with status ");
        reveal_strlit(" failed: ");
        reveal_strlit(" failed");
        let front = program + " failed"@;
        assert(e.message.subrange(0, front.len() as int) =~= front);
    }
}

/// The commands of an operation are run in order. Each must have been run for the next
/// to come, the operation is over once all have, and it fails at the first that must
/// succeed and does not, or that cannot be run.
pub proof fn commands_run_in_order(
    list: Seq<CommandView>,
    answers: Seq<Result<EndedView, Seq<char>>>,
    k: int,
)
    requires
        0 <= k <= list.len(),
        k <= answers.len(),
        forall|i: int|
            0 <= i < k ==> (#[trigger] answers[i] matches Ok(ended) && (list[i].strict
                ==> ended.succeeded)),
    ensures
        k == list.len() ==> next_turn_of(run_steps(list), answers) is Finished,
        k < list.len() && k == answers.len() ==> next_turn_of(run_steps(list), answers)
            == TurnView::Perform(StepView::Run(list[k])),
        k < list.len() && k < answers.len() && (answers[k] is Err || (list[k].strict
            && !answers[k]->Ok_0.succeeded)) ==> next_turn_of(run_steps(list), answers) is Failed,
    decreases list.len(),
{
    let steps = run_steps(list);
    if list.len() > 0 {
        let rest = list.drop_first();
        assert(steps.drop_first() =~= run_steps(rest));
        assert(steps[0] == StepView::Run(list[0]));
        if k > 0 {
            assert(answers[0] is Ok);
            let later = answers.skip(1);
            assert forall|i: int| 0 <= i < k - 1 implies (#[trigger] later[i] matches Ok(ended) && (
            rest[i].strict ==> ended.succeeded)) by {
                assert(later[i] == answers[i + 1]);
                assert(rest[i] == list[i + 1]);
            }
            commands_run_in_order(rest, later, k - 1);
            if k < list.len() {
                assert(rest[k - 1] == list[k]);
                if k < answers.len() {
                    assert(later[k - 1] == answers[k]);
                }
            }
        }
    }
}

/// An account that is there is left alone, one that is missing is created, and it must
/// be possible to look.
pub proof fn missing_account_is_created(
    user: Seq<char>,
    answers: Seq<Result<EndedView, Seq<char>>>,
)
    ensures
        answers.len() == 0 ==> (standing(StepView::EnsureUser(user), answers) matches
            Standing::Wants(TurnView::Run(command)) && command.program == "id"@ && command.args
            == seq!["-u"@, user]),
        answers.len() > 0 ==> (answers[0] matches Ok(ended) && ended.succeeded ==> standing(
            StepView::EnsureUser(user),
            answers,
        ) == Standing::Over(1)),
        answers.len() == 1 ==> (answers[0] matches Ok(ended) && !ended.succeeded ==> (standing(
            StepView::EnsureUser(user),
            answers,
        ) matches Standing::Wants(TurnView::Run(command)) && command.program == "useradd"@
            && command.strict && command.args.last() == user && command.args[0] == "--system"@)),
        answers.len() > 0 && answers[0] is Err ==> standing(
            StepView::EnsureUser(user),
            answers,
        ) is Broken,
{
}

// ---------------------------------------------------------------------------
// Status
// ---------------------------------------------------------------------------

/// True of a line that sets a key, such as `ActiveState=active`.
pub open spec fn sets(line: Seq<char>, key: Seq<char>) -> bool {
    text::split_once(line, '=') matches Some((left, _)) && text::trim(left) == key
}

/// The value of a key is that of the first line which sets it.
pub proof fn first_line_with_the_key_counts(lines: Seq<Seq<char>>, key: Seq<char>)
    ensures
        match key_value(lines, key) {
            Some(value) => exists|k: int|
                0 <= k < lines.len() && sets(#[trigger] lines[k], key) && (text::split_once(
                    lines[k],
                    '=',
                ) matches Some((_, right)) && value == text::trim(right)) && forall|j: int|
                    0 <= j < k ==> !sets(#[trigger] lines[j], key),
            None => forall|j: int| 0 <= j < lines.len() ==> !sets(#[trigger] lines[j], key),
        },
    decreases lines.len(),
{
    if lines.len() > 0 {
        let rest = lines.drop_first();
        first_line_with_the_key_counts(rest, key);
        assert(forall|j: int| 0 <= j < rest.len() ==> #[trigger] rest[j] == lines[j + 1]);
        if sets(lines[0], key) {
            assert(key_value(lines, key) is Some);
        } else {
            assert(key_value(lines, key) == key_value(rest, key));
            match key_value(lines, key) {
                Some(value) => {
                    let k = choose|k: int|
                        0 <= k < rest.len() && sets(#[trigger] rest[k], key) && (text::split_once(
                            rest[k],
                            '=',
                        ) matches Some((_, right)) && value == text::trim(right)) && forall|
                            j: int,
                        |
                            0 <= j < k ==> !sets(#[trigger] rest[j], key);
                    assert(sets(lines[k + 1], key));
                    assert forall|j: int| 0 <= j < k + 1 implies !sets(#[trigger] lines[j], key) by {
                        if j > 0 {
                            assert(rest[j - 1] == lines[j]);
                        }
                    }
                },
                None => {
                    assert forall|j: int| 0 <= j < lines.len() implies !sets(
                        #[trigger] lines[j],
                        key,
                    ) by {
                        if j > 0 {
                            assert(rest[j - 1] == lines[j]);
                        }
                    }
                },
            }
        }
    }
}

/// A process identifier is read exactly where a positive number of 32 bits is written.
pub proof fn pid_is_a_positive_number(n: nat)
    ensures
        0 < n <= u32::MAX ==> positive_pid(text::decimal(n)) == Some(n),
        n == 0 || n > u32::MAX ==> positive_pid(text::decimal(n)) is None,
{
    text::decimal_reads_back(n);
    assert(text::is_digit(text::decimal(n)[0]));
}

/// The state that is shown is what the service manager printed. Where it printed none,
/// it follows from whether the service file is there.
pub proof fn shown_state_is_what_was_printed(
    name: Seq<char>,
    service_file: Seq<char>,
    file_exists: bool,
    succeeded: bool,
    stdout: Seq<char>,
    platform: ServicePlatform,
)
    ensures
        ({
            let shown = status_of(platform, name, service_file, file_exists, succeeded, stdout);
            let lines = text::split(stdout, '\n');
            let absent = if file_exists {
                "installed"@
            } else {
                "not_installed"@
            };
            &&& shown.platform == platform
            &&& shown.service_file == service_file
            &&& match platform {
                ServicePlatform::Launchd | ServicePlatform::LaunchDaemon => shown.state == (
                if !succeeded {
                    absent
                } else if text::contains(stdout, "state = running"@) {
                    "running"@
                } else {
                    "loaded"@
                }) && shown.label == "com.verdictan.gateway."@ + sanitized(name),
                ServicePlatform::SystemdUser | ServicePlatform::SystemdSystem => shown.state == (
                match (key_value(lines, "ActiveState"@), key_value(lines, "SubState"@)) {
                    (Some(active), Some(sub)) => active + "/"@ + sub,
                    (Some(active), None) => active,
                    (None, Some(sub)) => absent + "/"@ + sub,
                    (None, None) => absent,
                }) && shown.label == sanitized(name) + ".service"@ && shown.pid == (
                match key_value(lines, "MainPID"@) {
                    Some(value) => positive_pid(value),
                    None => None,
                }),
                ServicePlatform::WindowsService => shown.pid is None && shown.label == sanitized(
                    name,
                ) && (shown.state == "not_installed"@ || exists|k: int|
                    0 <= k < lines.len() && tells_a_state(#[trigger] lines[k]) && exists|
                        state: Seq<char>,
                    | #[trigger]
                        tells_state(lines[k], state) && shown.state == text::lower(state)),
            }
        }),
{
    if platform == ServicePlatform::WindowsService {
        let lines = text::split(stdout, '\n');
        gateway_service::query_state_is_the_first_told(lines);
        match gateway_service::sc_state(lines) {
            Some(state) => {
                let k = choose|k: int|
                    0 <= k < lines.len() && tells_state(#[trigger] lines[k], state) && forall|
                        j: int,
                    |
                        0 <= j < k ==> !tells_a_state(#[trigger] lines[j]);
                assert(tells_state(lines[k], state));
            },
            None => {},
        }
    }
}

/// A service is looked for in every scope before the default is taken for granted: the
/// first scope that holds it is the one.
pub proof fn first_scope_that_holds_it_counts(
    name: Seq<char>,
    host: HostView,
    found: Seq<bool>,
)
    requires
        probed(host.os, host.privileged).len() == 2,
        service_file_of(probed(host.os, host.privileged)[0], name, host) is Ok,
        service_file_of(probed(host.os, host.privileged)[1], name, host) is Ok,
        found.len() == 2,
    ensures
        found[0] ==> installed_from(name, host, found, 0) == Ok::<ServicePlatform, ErrorView>(
            probed(host.os, host.privileged)[0],
        ),
        !found[0] && found[1] ==> installed_from(name, host, found, 0) == Ok::<
            ServicePlatform,
            ErrorView,
        >(probed(host.os, host.privileged)[1]),
        !found[0] && !found[1] ==> installed_from(name, host, found, 0) == resolved_platform(
            host.os,
            host.privileged,
        ),
{
    reveal_with_fuel(installed_from, 3);
}

// ---------------------------------------------------------------------------
// Names, paths and quotes
// ---------------------------------------------------------------------------

/// A name that is safe already stays as it is, with any white space around it gone.
pub proof fn safe_name_stays(left: Seq<char>, name: Seq<char>, right: Seq<char>)
    requires
        forall|i: int| 0 <= i < left.len() ==> text::is_space(left[i]),
        forall|i: int| 0 <= i < right.len() ==> text::is_space(right[i]),
        name.len() > 0,
        forall|i: int|
            0 <= i < name.len() ==> ('a' <= #[trigger] name[i] <= 'z' || 'A' <= name[i] <= 'Z'
                || '0' <= name[i] <= '9' || name[i] == '-' || name[i] == '_'),
        name[0] != '-',
        name.last() != '-',
    ensures
        sanitized(left + name + right) == name,
{
    assert(name[0] == name[0] && !text::is_space(name[0]));
    assert(name[name.len() - 1] == name.last() && !text::is_space(name.last()));
    text::trim_finds_the_core(left, name, right);
    assert(gateway_service::clean(name) =~= name) by {
        assert forall|i: int| 0 <= i < name.len() implies gateway_service::clean_char(name[i])
            == name[i] by {
            assert('a' <= name[i] <= 'z' || 'A' <= name[i] <= 'Z' || '0' <= name[i] <= '9'
                || name[i] == '-' || name[i] == '_');
        }
    }
}

/// What is not safe in a name becomes a hyphen: no character moves or gets lost inside
/// it.
pub proof fn unsafe_characters_become_hyphens(a: Seq<char>, c: char, b: Seq<char>)
    requires
        forall|i: int| 0 <= i < a.len() ==> gateway_service::is_name_char(#[trigger] a[i]),
        forall|i: int| 0 <= i < b.len() ==> gateway_service::is_name_char(#[trigger] b[i]),
        a.len() > 0,
        b.len() > 0,
        a[0] != '-',
        b.last() != '-',
        !gateway_service::is_name_char(c),
    ensures
        sanitized(a + seq![c] + b) == a + seq!['-'] + b,
{
    let raw = a + seq![c] + b;
    let safe = a + seq!['-'] + b;
    assert(gateway_service::is_name_char(a[0]));
    assert(gateway_service::is_name_char(b[b.len() - 1]));
    assert(raw[0] == a[0] && raw.last() == b.last());
    text::trim_finds_the_core(Seq::empty(), raw, Seq::empty());
    assert(Seq::<char>::empty() + raw + Seq::<char>::empty() =~= raw);
    assert(gateway_service::clean(raw) =~= safe) by {
        assert forall|i: int| 0 <= i < raw.len() implies gateway_service::clean_char(raw[i])
            == safe[i] by {
            if i < a.len() {
                assert(raw[i] == a[i]);
            } else if i > a.len() {
                assert(raw[i] == b[i - a.len() - 1]);
            }
        }
    }
    assert(safe[0] == a[0] && safe.last() == b.last());
}

/// Two parts of a path have one separator between them, and none before a path that
/// stands alone.
pub proof fn paths_are_joined_by_one_separator(
    dir: Seq<char>,
    name: Seq<char>,
    separator: char,
)
    ensures
        gateway_service::path_join(Seq::empty(), name, separator) == name,
        dir.len() > 0 && dir.last() != separator ==> gateway_service::path_join(
            dir,
            name,
            separator,
        ) == dir + seq![separator] + name,
        dir.len() > 0 && dir.last() == separator ==> gateway_service::path_join(
            dir,
            name,
            separator,
        ) == dir + name,
{
    assert(dir.push(separator) + name =~= dir + seq![separator] + name);
}

/// The environment file of a unit lies in the configuration directory of its scope.
pub proof fn environment_file_lies_in_its_scope(safe_name: Seq<char>, host: HostView)
    requires
        host.separator == '/',
    ensures
        environment_file_of(ServicePlatform::SystemdSystem, safe_name, host) == Ok::<
            Seq<char>,
            ErrorView,
        >("/etc/verdictan/"@ + safe_name + ".env"@),
        environment_file_of(ServicePlatform::SystemdUser, safe_name, host) is Ok
            <==> host.home is Some,
        environment_file_of(ServicePlatform::Launchd, safe_name, host) is Err,
        environment_file_of(ServicePlatform::LaunchDaemon, safe_name, host) is Err,
        environment_file_of(ServicePlatform::WindowsService, safe_name, host) is Err,
{
    reveal_strlit("/etc/verdictan");
    reveal_strlit("/etc/verdictan/");
    assert(environment_file_of(ServicePlatform::SystemdSystem, safe_name, host)->Ok_0
        =~= "/etc/verdictan/"@ + safe_name + ".env"@);
}

/// Each character is escaped by itself, and only the four that mean something.
pub proof fn xml_escapes_each_character(s: Seq<char>, c: char)
    ensures
        gateway_service::xml_escaped(Seq::empty()) == Seq::<char>::empty(),
        gateway_service::xml_escaped(s.push(c)) == gateway_service::xml_escaped(s) + (if c == '&' {
            "&amp;"@
        } else if c == '<' {
            "&lt;"@
        } else if c == '>' {
            "&gt;"@
        } else if c == '"' {
            "&quot;"@
        } else {
            seq![c]
        }),
{
    assert(s.push(c).drop_last() =~= s);
}

/// An argument of a Windows service is quoted exactly where it holds a blank or a tab,
/// with its quotes escaped; any other stays.
pub proof fn windows_quotes_what_has_blanks(s: Seq<char>, c: char)
    ensures
        !s.contains(' ') && !s.contains('\t') ==> gateway_service::windows_quoted(s) == s,
        s.contains(' ') || s.contains('\t') ==> gateway_service::windows_quoted(s) == seq!['"']
            + gateway_service::windows_escaped(s) + seq!['"'],
        gateway_service::windows_escaped(s.push(c)) == gateway_service::windows_escaped(s) + (
        if c == '"' {
            seq!['\\', '"']
        } else {
            seq![c]
        }),
        gateway_service::windows_escaped(Seq::empty()) == Seq::<char>::empty(),
{
    assert(s.push(c).drop_last() =~= s);
    reveal_strlit("\"");
    assert("\""@ =~= seq!['"']);
}

/// A Windows service runs the chosen binary with its arguments, each quoted, in order.
pub proof fn windows_service_runs_the_binary(
    spec: InstallSpecView,
    host: HostView,
    exe: Seq<char>,
)
    requires
        binary_of(spec, host) == Ok::<Seq<char>, ErrorView>(exe),
    ensures
        ({
            let all = seq![exe] + run_args(spec, host);
            bin_path_of(spec, host) == Ok::<Seq<char>, ErrorView>(
                text::join(
                    Seq::new(all.len(), |i: int| gateway_service::windows_quoted(all[i])),
                    " "@,
                ),
            )
        }),
{
}

/// A job of launchd is labelled, runs its program with its arguments, is kept alive,
/// and has its variables.
pub proof fn plist_runs_its_program(
    label: Seq<char>,
    program: Seq<char>,
    args: Seq<Seq<char>>,
    working_dir: Seq<char>,
    stdout_path: Seq<char>,
    stderr_path: Seq<char>,
    env: Seq<Pair>,
)
    ensures
        ({
            let plist = gateway_service::plist_body(
                label,
                program,
                args,
                working_dir,
                stdout_path,
                stderr_path,
                env,
            );
            let entry = |key: Seq<char>, value: Seq<char>|
                "  <key>"@ + key + "</key>\n  <string>"@ + gateway_service::xml_escaped(value)
                    + "</string>\n"@;
            &&& text::contains(plist, entry("Label"@, label))
            &&& text::contains(
                plist,
                "  <key>ProgramArguments</key>\n  <array>\n"@ + gateway_service::plist_strings(
                    seq![program] + args,
                ) + "  </array>\n"@,
            )
            &&& text::contains(plist, entry("WorkingDirectory"@, working_dir))
            &&& text::contains(plist, "  <key>KeepAlive</key>\n  <true/>\n"@)
            &&& text::contains(plist, "  <key>RunAtLoad</key>\n  <true/>\n"@)
            &&& text::contains(plist, entry("StandardOutPath"@, stdout_path))
            &&& text::contains(plist, entry("StandardErrorPath"@, stderr_path))
            &&& env.len() > 0 ==> text::contains(
                plist,
                "  <key>EnvironmentVariables</key>\n  <dict>\n"@ + gateway_service::plist_pairs(env)
                    + "  </dict>\n"@,
            )
        }),
{
    let plist = gateway_service::plist_body(
        label,
        program,
        args,
        working_dir,
        stdout_path,
        stderr_path,
        env,
    );
    let head = gateway_service::plist_head();
    let a = gateway_service::plist_entry("Label"@, label);
    let b = "  <key>ProgramArguments</key>\n  <array>\n"@ + gateway_service::plist_strings(
        seq![program] + args,
    ) + "  </array>\n"@;
    let c = gateway_service::plist_entry("WorkingDirectory"@, working_dir);
    let d = "  <key>KeepAlive</key>\n  <true/>\n"@;
    let e = "  <key>RunAtLoad</key>\n  <true/>\n"@;
    let f = gateway_service::plist_entry("StandardOutPath"@, stdout_path);
    let g = gateway_service::plist_entry("StandardErrorPath"@, stderr_path);
    let h = gateway_service::plist_environment(env);
    let end = "</dict>\n</plist>\n"@;
    let x1 = head + a;
    let x2 = x1 + b;
    assert(x1 + "  <key>ProgramArguments</key>\n  <array>\n"@ + gateway_service::plist_strings(
        seq![program] + args,
    ) + "  </array>\n"@ =~= x2);
    let x3 = x2 + c;
    let x4 = x3 + d;
    let x5 = x4 + e;
    let x6 = x5 + f;
    let x7 = x6 + g;
    let x8 = x7 + h;
    grows_by(head, a);
    grows_by(x1, b);
    grows_by(x2, c);
    grows_by(x3, d);
    grows_by(x4, e);
    grows_by(x5, f);
    grows_by(x6, g);
    grows_by(x7, h);
    grows_by(x8, end);
    assert(plist == x8 + end);
}

proof fn grows_by(whole: Seq<char>, part: Seq<char>)
    ensures
        text::contains(whole + part, part),
        forall|q: Seq<char>| #[trigger]
            text::contains(whole, q) ==> text::contains(whole + part, q),
{
    let longer = whole + part;
    let at = whole.len() as int;
    assert(longer.subrange(at, at + part.len()) =~= part);
    assert(text::occurs_at(longer, part, at));
    assert forall|q: Seq<char>| #[trigger] text::contains(whole, q) implies text::contains(
        longer,
        q,
    ) by {
        let i = choose|i: int| text::occurs_at(whole, q, i);
        assert(longer.subrange(i, i + q.len()) =~= whole.subrange(i, i + q.len()));
        assert(text::occurs_at(longer, q, i));
    }
}

/// Every argument and every variable of a job is written, in order and escaped.
pub proof fn plist_writes_each(values: Seq<Seq<char>>, value: Seq<char>, env: Seq<Pair>, pair: Pair)
    ensures
        gateway_service::plist_strings(values.push(value)) == gateway_service::plist_strings(values)
            + "    <string>"@ + gateway_service::xml_escaped(value) + "</string>\n"@,
        gateway_service::plist_pairs(env.push(pair)) == gateway_service::plist_pairs(env)
            + "    <key>"@ + gateway_service::xml_escaped(pair.0) + "</key>\n    <string>"@
            + gateway_service::xml_escaped(pair.1) + "</string>\n"@,
{
    assert(values.push(value).drop_last() =~= values);
    assert(env.push(pair).drop_last() =~= env);
    assert(gateway_service::plist_strings(values.push(value)) =~= gateway_service::plist_strings(
        values,
    ) + "    <string>"@ + gateway_service::xml_escaped(value) + "</string>\n"@);
    assert(gateway_service::plist_pairs(env.push(pair)) =~= gateway_service::plist_pairs(env)
        + "    <key>"@ + gateway_service::xml_escaped(pair.0) + "</key>\n    <string>"@
        + gateway_service::xml_escaped(pair.1) + "</string>\n"@);
}

/// The job of a service carries the service's own label, binary, arguments and
/// variables.
pub proof fn plist_is_that_of_the_service(
    spec: InstallSpecView,
    platform: ServicePlatform,
    host: HostView,
    plist: Seq<char>,
)
    requires
        gateway_service::plist_text(spec, platform, host) == Ok::<Seq<char>, ErrorView>(plist),
    ensures
        binary_of(spec, host) matches Ok(exe) && text::contains(
            plist,
            "  <key>ProgramArguments</key>\n  <array>\n"@ + gateway_service::plist_strings(
                seq![exe] + run_args(spec, host),
            ) + "  </array>\n"@,
        ),
        text::contains(
            plist,
            "  <key>Label</key>\n  <string>"@ + gateway_service::xml_escaped(
                "com.verdictan.gateway."@ + sanitized(spec.name),
            ) + "</string>\n"@,
        ),
        merged_env(spec).len() > 0 ==> text::contains(
            plist,
            "  <key>EnvironmentVariables</key>\n  <dict>\n"@ + gateway_service::plist_pairs(
                merged_env(spec),
            ) + "  </dict>\n"@,
        ),
{
    let exe = binary_of(spec, host)->Ok_0;
    let logs = gateway_service::logs_of(platform, host)->Ok_0;
    let label = label_of(spec.name);
    plist_runs_its_program(
        label,
        exe,
        run_args(spec, host),
        gateway_service::working_dir_of(platform, host)->Ok_0,
        gateway_service::log_file(logs, spec.name, ".out.log"@, host),
        gateway_service::log_file(logs, spec.name, ".err.log"@, host),
        merged_env(spec),
    );
    reveal_strlit("  <key>");
    reveal_strlit("Label");
    reveal_strlit("</key>\n  <string>");
    reveal_strlit("  <key>Label</key>\n  <string>");
    assert("  <key>"@ + "Label"@ + "</key>\n  <string>"@ =~= "  <key>Label</key>\n  <string>"@);
    assert("  <key>"@ + "Label"@ + "</key>\n  <string>"@ + gateway_service::xml_escaped(label)
        + "</string>\n"@ =~= "  <key>Label</key>\n  <string>"@ + gateway_service::xml_escaped(label)
        + "</string>\n"@);
}

// ---------------------------------------------------------------------------
// The log of a service that does not run
// ---------------------------------------------------------------------------

/// A unit that does not run is asked for its last log lines before the operation
/// fails; the lines, where there are any, end the error.
pub proof fn failed_unit_shows_its_log(
    platform: ServicePlatform,
    name: Seq<char>,
    command: CommandView,
    answers: Seq<Result<EndedView, Seq<char>>>,
)
    requires
        platform == ServicePlatform::SystemdUser || platform == ServicePlatform::SystemdSystem,
        sanitized(name).len() > 0,
        answers.len() > 0,
        answers[0] matches Ok(ended) && text::trim(ended.stdout) != "active"@,
    ensures
        ({
            let step = StepView::VerifyActive(platform, name, command);
            &&& answers.len() == 1 ==> (standing(step, answers) matches Standing::Wants(
                TurnView::Run(log),
            ) && log.program == "journalctl"@ && log.args.contains(sanitized(name) + ".service"@)
                && !log.strict)
            &&& answers.len() >= 2 ==> (standing(step, answers) matches Standing::Broken(e) && (
            answers[1] matches Ok(printed) ==> (!text::is_blank(printed.stdout) ==> text::contains(
                e.message,
                "\nrecent log lines:\n"@ + text::trim(printed.stdout),
            ))))
        }),
{
    let ended = answers[0]->Ok_0;
    gateway_service::unit_runs_exactly_when_active(platform, ended.succeeded, ended.stdout);
    sanitized_twice(name);
    let unit = sanitized(name) + ".service"@;
    let step = StepView::VerifyActive(platform, name, command);
    if answers.len() == 1 {
        let log = gateway_service::log_command_of(platform, name)->0;
        if platform == ServicePlatform::SystemdUser {
            assert(log.args[2] == unit);
        } else {
            assert(log.args[1] == unit);
        }
    } else {
        let e = standing(step, answers)->Broken_0;
        if answers[1] is Ok {
            let printed = answers[1]->Ok_0;
            if !text::is_blank(printed.stdout) {
                let tail = "\nrecent log lines:\n"@ + text::trim(printed.stdout);
                let at = e.message.len() - tail.len();
                assert(e.message.subrange(at, at + tail.len()) =~= tail);
                assert(text::occurs_at(e.message, tail, at));
            }
        }
    }
}

/// A step that cannot be carried out ends the operation with an error that names what
/// it was about.
pub proof fn step_error_names_its_object(
    path: Seq<char>,
    program: Seq<char>,
    cause: Seq<char>,
    strict: bool,
)
    ensures
        gateway_service::step_error_of(StepView::CreateDirectory(path), cause).message
            == "failed to create service directory "@ + path + ": "@ + cause,
        gateway_service::step_error_of(StepView::RemoveServiceFile(path), cause).message
            == "failed to remove service file "@ + path + ": "@ + cause,
        gateway_service::step_error_of(StepView::RemoveEnvironmentFile(path), cause).message
            == "failed to remove environment file "@ + path + ": "@ + cause,
        gateway_service::spawn_error_of(program, cause, strict).message == "failed to run "@
            + program + ": "@ + cause,
{
}

/// The process of a launchd job is the one on the first line that tells one.
pub proof fn launchd_process_is_the_first_told(lines: Seq<Seq<char>>, prefix: Seq<char>)
    ensures
        match gateway_service::first_after(lines, prefix) {
            Some(rest) => exists|k: int|
                0 <= k < lines.len() && #[trigger] text::trim(lines[k]) == prefix + rest && forall|
                    j: int,
                |
                    0 <= j < k ==> !text::starts_with(#[trigger] text::trim(lines[j]), prefix),
            None => forall|j: int|
                0 <= j < lines.len() ==> !text::starts_with(
                    #[trigger] text::trim(lines[j]),
                    prefix,
                ),
        },
    decreases lines.len(),
{
    if lines.len() > 0 {
        let rest = lines.drop_first();
        launchd_process_is_the_first_told(rest, prefix);
        assert(forall|j: int| 0 <= j < rest.len() ==> #[trigger] rest[j] == lines[j + 1]);
        let first = text::trim(lines[0]);
        if text::starts_with(first, prefix) {
            assert(first =~= prefix + first.skip(prefix.len() as int)) by {
                assert(first.subrange(0, prefix.len() as int) == prefix);
            }
        } else {
            match gateway_service::first_after(rest, prefix) {
                Some(found) => {
                    let k = choose|k: int|
                        0 <= k < rest.len() && #[trigger] text::trim(rest[k]) == prefix + found
                            && forall|j: int|
                            0 <= j < k ==> !text::starts_with(
                                #[trigger] text::trim(rest[j]),
                                prefix,
                            );
                    assert(text::trim(lines[k + 1]) == prefix + found);
                    assert forall|j: int| 0 <= j < k + 1 implies !text::starts_with(
                        #[trigger] text::trim(lines[j]),
                        prefix,
                    ) by {
                        if j > 0 {
                            assert(text::trim(rest[j - 1]) == text::trim(lines[j]));
                        }
                    }
                },
                None => {
                    assert forall|j: int| 0 <= j < lines.len() implies !text::starts_with(
                        #[trigger] text::trim(lines[j]),
                        prefix,
                    ) by {
                        if j > 0 {
                            assert(text::trim(rest[j - 1]) == text::trim(lines[j]));
                        }
                    }
                },
            }
        }
    }
}

/// The status command asks the service's own manager about the service itself.
pub proof fn status_is_asked_of_the_service(name: Seq<char>, host: HostView)
    ensures
        gateway_service::status_command_of(
            ServicePlatform::SystemdSystem,
            name,
            host,
        ) matches Ok(c) && c.program == "systemctl"@ && c.args == seq![
            "show"@,
            "--property=ActiveState,SubState,MainPID"@,
            sanitized(name) + ".service"@,
        ],
        gateway_service::status_command_of(ServicePlatform::SystemdUser, name, host) matches Ok(c)
            && c.program == "systemctl"@ && c.args == seq![
            "--user"@,
            "show"@,
            "--property=ActiveState,SubState,MainPID"@,
            sanitized(name) + ".service"@,
        ],
        sanitized(name).len() > 0 ==> (gateway_service::status_command_of(
            ServicePlatform::WindowsService,
            name,
            host,
        ) matches Ok(c) && c.program == "sc.exe"@ && c.args == seq!["query"@, sanitized(name)]),
{
    assert(gateway_service::status_command_of(ServicePlatform::SystemdUser, name, host)->Ok_0.args
        =~= seq![
        "--user"@,
        "show"@,
        "--property=ActiveState,SubState,MainPID"@,
        sanitized(name) + ".service"@,
    ]);
}

// ---------------------------------------------------------------------------
// Where a service runs
// ---------------------------------------------------------------------------

/// A service of the system runs at the root; one of a user where it was installed.
pub proof fn service_runs_in_its_place(platform: ServicePlatform, host: HostView)
    ensures
        platform == ServicePlatform::SystemdUser || platform == ServicePlatform::Launchd ==> (
        host.current_dir matches Ok(dir) ==> gateway_service::working_dir_of(platform, host)
            == Ok::<Seq<char>, ErrorView>(dir)),
        platform == ServicePlatform::SystemdUser || platform == ServicePlatform::Launchd ==> (
        host.current_dir is Err ==> gateway_service::working_dir_of(platform, host) is Err),
        platform == ServicePlatform::SystemdSystem || platform == ServicePlatform::LaunchDaemon
            ==> gateway_service::working_dir_of(platform, host) == Ok::<Seq<char>, ErrorView>("/"@),
        gateway_service::logs_of(ServicePlatform::LaunchDaemon, host) == Ok::<
            Seq<char>,
            ErrorView,
        >("/var/log/verdictan"@),
        gateway_service::logs_of(ServicePlatform::Launchd, host) is Ok <==> host.home is Some,
{
}

/// A job of launchd is addressed in the domain of its scope.
pub proof fn job_is_addressed_in_its_domain(host: HostView)
    ensures
        gateway_service::domain_of(ServicePlatform::LaunchDaemon, host) == Ok::<
            Seq<char>,
            ErrorView,
        >("system"@),
        host.user_id matches Ok(uid) ==> gateway_service::domain_of(ServicePlatform::Launchd, host)
            == Ok::<Seq<char>, ErrorView>("gui/"@ + uid),
        host.user_id is Err ==> gateway_service::domain_of(ServicePlatform::Launchd, host) is Err,
{
}

/// A path is made canonical where its canonical form is known, and stays otherwise.
pub proof fn known_paths_are_canonical(host: HostView, path: Seq<char>)
    ensures
        env_map::lookup(host.canonical, path) matches Some(known) ==> canonical_path(host, path)
            == known,
        env_map::lookup(host.canonical, path) is None ==> canonical_path(host, path) == path,
{
}

/// Both settings of a unit are refused where a value holds a control character, so that
/// no plan is made of it.
pub proof fn no_plan_with_control_characters(
    platform: ServicePlatform,
    spec: InstallSpecView,
    host: HostView,
    i: int,
)
    requires
        platform != ServicePlatform::WindowsService,
        0 <= i < merged_env(spec).len(),
        has_control(merged_env(spec)[i].1),
    ensures
        install_plan_of(platform, spec, host) is Err,
{
    gateway_service::env_allowed_iff(merged_env(spec), "systemd"@);
    gateway_service::env_allowed_iff(merged_env(spec), "launchd"@);
}

/// A name without any safe character has no service.
pub proof fn nameless_service_is_refused(
    platform: ServicePlatform,
    name: Seq<char>,
    service_file: Seq<char>,
    host: HostView,
)
    requires
        sanitized(name).len() == 0,
    ensures
        service_file_of(platform, name, host) is Err,
        activation_of(platform, name, service_file, host) is Err,
        deactivation_of(platform, name, host) is Err,
        active_state_of(platform, name, host) is Err,
{
}

} // verus!
