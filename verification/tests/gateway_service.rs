use verdictan::env_map::EnvMap;
use verdictan::gateway_run::DEFAULT_HOSTED_UPSTREAM_URL;
use verdictan::gateway_service::{
    activation_commands, active_state_command, apply_windows_service_environment,
    build_install_plan, candidate_platforms, canonicalize_lossy, check_command_status,
    command_args, contains_control_characters, deactivation_commands, ensure_system_service_user,
    env_carries_secret_material, environment_file_path, home_dir, install_service,
    installed_platform, interpret_active_state, is_secret_env_key, join_path, launchctl_domain,
    logs_dir, merged_service_env, next_turn, parse_key_value, parse_launchctl_pid,
    parse_sc_query_state, probed_platforms,
    render_launchd_plist, render_systemd_environment_file, render_systemd_unit,
    render_windows_service_environment_block, require_safe_service_name, resolve_platform,
    sanitize_service_name, service_binary_path, service_file_exists, service_file_path,
    service_label, service_log_command, service_log_tail, service_registration_exists,
    service_status, service_status_command, service_working_directory, spawn_error, start_service,
    step_error, stop_service, systemd_escape, systemd_quote, systemctl_args, uninstall_service,
    unit_name, unrestricted_file_warning, validate_launchd_env_value, validate_systemd_env_value, validate_windows_env_value,
    verify_service_is_active, windows_quote, windows_service_bin_path, xml_escape, CommandResult,
    GatewayServiceInstallSpec, ServiceCommand, ServiceFileWrite, ServiceHost, ServiceOperation,
    ServicePlatform, ServiceScope, ServiceStatus, ServiceStep, ServiceTurn, UserId,
    SYSTEMD_SYSTEM_UNIT_DIR,
    SYSTEM_CONFIG_DIR, SYSTEM_SERVICE_USER, WINDOWS_ENV_BLOCK_VAR, WINDOWS_ENV_SERVICE_VAR,
    WINDOWS_FAILURE_ACTIONS, WINDOWS_SERVICE_ENV_SCRIPT,
};

fn env(pairs: &[(&str, &str)]) -> EnvMap {
    let mut map = EnvMap::new();
    for (key, value) in pairs {
        map.insert(key.to_string(), value.to_string());
    }
    map
}

fn host(os: &str, privileged: bool) -> ServiceHost {
    ServiceHost {
        os: os.to_string(),
        privileged,
        separator: '/',
        home: Some("/home/dev".to_string()),
        current_dir: Ok("/work".to_string()),
        current_exe: Ok("/opt/bin/verdictan".to_string()),
        user_id: UserId::Environment("501".to_string()),
        canonical: EnvMap::new(),
    }
}

fn linux() -> ServiceHost {
    host("linux", false)
}

fn macos() -> ServiceHost {
    host("macos", false)
}

fn windows() -> ServiceHost {
    let mut machine = host("windows", false);
    machine.separator = '\\';
    machine
}

fn sample_spec() -> GatewayServiceInstallSpec {
    GatewayServiceInstallSpec {
        name: "finance-main".to_string(),
        listen: "127.0.0.1:41002".to_string(),
        upstream: Some("https://api.example.com".to_string()),
        policy_configs: vec!["policy.yaml".to_string()],
        fail_mode: "block".to_string(),
        max_concurrency: Some(8),
        connected_mode: false,
        api_token: Some("service-token".to_string()),
        agent_id: Some("agent-123".to_string()),
        env: env(&[("VERDICTAN_API_URL", "https://cp.example.com")]),
        command_override: None,
        binary_path_override: None,
    }
}

fn bare_spec() -> GatewayServiceInstallSpec {
    GatewayServiceInstallSpec {
        name: "test".to_string(),
        listen: "0.0.0.0:41002".to_string(),
        upstream: None,
        policy_configs: vec![],
        fail_mode: "block".to_string(),
        max_concurrency: None,
        connected_mode: false,
        api_token: None,
        agent_id: None,
        env: EnvMap::new(),
        command_override: None,
        binary_path_override: None,
    }
}

fn printed(succeeded: bool, stdout: &str, stderr: &str) -> CommandResult {
    CommandResult {
        succeeded,
        status: if succeeded { "exit status: 0" } else { "exit status: 7" }.to_string(),
        stdout: stdout.to_string(),
        stderr: stderr.to_string(),
    }
}

fn line(command: &ServiceCommand) -> String {
    let mut words = vec![command.program.clone()];
    words.extend(command.args.iter().cloned());
    words.join("\t")
}

fn commands_of(operation: &ServiceOperation) -> Vec<String> {
    operation
        .steps
        .iter()
        .filter_map(|step| match step {
            ServiceStep::Run(command) => Some(line(command)),
            ServiceStep::RunWithEnv(command, _) => Some(line(command)),
            ServiceStep::VerifyActive(_, _, command) => Some(line(command)),
            _ => None,
        })
        .collect()
}

fn written(operation: &ServiceOperation) -> Vec<&ServiceFileWrite> {
    operation
        .steps
        .iter()
        .filter_map(|step| match step {
            ServiceStep::WriteFile(file) => Some(file),
            _ => None,
        })
        .collect()
}

fn removed(operation: &ServiceOperation) -> Vec<String> {
    operation
        .steps
        .iter()
        .filter_map(|step| match step {
            ServiceStep::RemoveServiceFile(path) => Some(format!("service {path}")),
            ServiceStep::RemoveEnvironmentFile(path) => Some(format!("environment {path}")),
            _ => None,
        })
        .collect()
}

#[test]
fn merged_service_env_includes_non_empty_agent_and_token() {
    let env = merged_service_env(&sample_spec());

    assert_eq!(env.get("VERDICTAN_AGENT_ID"), Some("agent-123"));
    assert_eq!(env.get("VERDICTAN_API_TOKEN"), Some("service-token"));
    assert_eq!(env.get("VERDICTAN_API_URL"), Some("https://cp.example.com"));
}

#[test]
fn merged_service_env_skips_blank_overrides() {
    let mut spec = sample_spec();
    spec.api_token = Some("   ".to_string());
    spec.agent_id = Some("\n\t".to_string());

    let env = merged_service_env(&spec);

    assert!(!env.contains_key("VERDICTAN_AGENT_ID"));
    assert!(!env.contains_key("VERDICTAN_API_TOKEN"));
}

#[test]
fn sanitize_service_name_and_service_file_paths_are_stable() {
    assert_eq!(
        sanitize_service_name(" finance/main@prod "),
        "finance-main-prod"
    );
    assert_eq!(sanitize_service_name("___gateway___"), "___gateway___");

    assert_eq!(
        service_file_path(&ServicePlatform::Launchd, " finance/main@prod ", &macos())
            .expect("launchd path"),
        "/home/dev/Library/LaunchAgents/com.verdictan.gateway.finance-main-prod.plist"
    );
    assert_eq!(
        service_file_path(&ServicePlatform::SystemdUser, " finance/main@prod ", &linux())
            .expect("systemd path"),
        "/home/dev/.config/systemd/user/finance-main-prod.service"
    );

    let err = service_file_path(&ServicePlatform::Launchd, "!!!", &macos())
        .expect_err("empty sanitized name should fail");
    assert!(err
        .to_string()
        .contains("service name must contain at least one valid character"));
}

#[test]
fn command_args_build_default_gateway_invocation() {
    let mut machine = linux();
    machine.canonical = env(&[("policy.yaml", "/work/policy.yaml")]);
    let mut spec = sample_spec();
    spec.upstream = None;

    assert_eq!(
        command_args(&spec, &machine),
        vec![
            "gateway".to_string(),
            "run".to_string(),
            "--listen".to_string(),
            "127.0.0.1:41002".to_string(),
            "--fail-mode".to_string(),
            "block".to_string(),
            "--upstream".to_string(),
            DEFAULT_HOSTED_UPSTREAM_URL.to_string(),
            "--policy-config".to_string(),
            "/work/policy.yaml".to_string(),
            "--max-concurrency".to_string(),
            "8".to_string(),
        ]
    );
}

#[test]
fn command_args_omit_upstream_for_connected_mode_and_respect_override() {
    let mut spec = sample_spec();
    spec.connected_mode = true;
    spec.max_concurrency = None;
    spec.policy_configs.clear();

    let connected_args = command_args(&spec, &linux());
    assert!(!connected_args.iter().any(|arg| arg == "--upstream"));

    spec.command_override = Some(vec![
        "custom-supervisor".to_string(),
        "--state-dir".to_string(),
        "/tmp/state".to_string(),
    ]);
    assert_eq!(
        command_args(&spec, &linux()),
        vec![
            "custom-supervisor".to_string(),
            "--state-dir".to_string(),
            "/tmp/state".to_string(),
        ]
    );
}

#[test]
fn render_launchd_plist_includes_logs_policy_args_and_escaped_env() {
    let mut machine = macos();
    machine.canonical = env(&[("policy.yaml", "/work/a&b/policy.yaml")]);
    let mut spec = sample_spec();
    spec.api_token = Some("token<&>".to_string());
    spec.agent_id = Some("agent<&>".to_string());
    spec.env
        .insert("SPECIAL".to_string(), "one & two \" <three>".to_string());

    let plist =
        render_launchd_plist(&spec, &ServicePlatform::Launchd, &machine).expect("launchd plist");

    assert!(plist.contains("<key>ProgramArguments</key>"));
    assert!(plist.contains(&xml_escape("/work/a&b/policy.yaml")));
    assert!(plist.contains(&xml_escape(
        "/home/dev/.verdictan/logs/finance-main.out.log"
    )));
    assert!(plist.contains("<key>VERDICTAN_API_TOKEN</key>"));
    assert!(plist.contains(&xml_escape("token<&>")));
    assert!(plist.contains("<key>SPECIAL</key>"));
    assert!(plist.contains(&xml_escape("one & two \" <three>")));
}

#[test]
fn render_launchd_plist_rejects_newline_and_control_characters() {
    let mut newline_spec = sample_spec();
    newline_spec.env.insert(
        "VERDICTAN_API_URL".to_string(),
        "https://api.example.test\n$(whoami)".to_string(),
    );
    let newline_err = render_launchd_plist(&newline_spec, &ServicePlatform::Launchd, &macos())
        .expect_err("newline env must fail closed");
    assert!(newline_err
        .to_string()
        .contains("unsupported control characters for launchd"));

    let mut control_spec = sample_spec();
    control_spec
        .env
        .insert("SPECIAL".to_string(), "value\u{0007}bell".to_string());
    let control_err = render_launchd_plist(&control_spec, &ServicePlatform::Launchd, &macos())
        .expect_err("control env must fail closed");
    assert!(control_err
        .to_string()
        .contains("unsupported control characters for launchd"));
}

#[test]
fn render_launchd_plist_keeps_quote_substitution_and_semicolon_literal() {
    let mut spec = sample_spec();
    spec.api_token = Some(r#"tok"; touch /tmp/x; #"#.to_string());
    spec.env.insert(
        "VERDICTAN_API_URL".to_string(),
        r#"$(touch /tmp/pwned);value"quoted""#.to_string(),
    );
    spec.env.insert(
        "SPECIAL".to_string(),
        r#"semi;colon & quoted "value""#.to_string(),
    );

    let plist = render_launchd_plist(&spec, &ServicePlatform::Launchd, &macos())
        .expect("literal hostile values must encode");
    assert!(plist.contains("<key>EnvironmentVariables</key>"));
    assert!(plist.contains(&xml_escape(r#"tok"; touch /tmp/x; #"#)));
    assert!(plist.contains(&xml_escape(r#"$(touch /tmp/pwned);value"quoted""#)));
    assert!(plist.contains(&xml_escape(r#"semi;colon & quoted "value""#)));
    assert!(!plist.contains(".env</string>"));
    assert!(!plist.contains("<string>/bin/sh</string>"));
}

#[test]
fn render_systemd_unit_quotes_args_and_escapes_env() {
    let mut machine = linux();
    machine.canonical = env(&[("policy.yaml", "/work/policy.yaml")]);
    let mut spec = sample_spec();
    spec.connected_mode = true;
    spec.max_concurrency = None;
    spec.env.insert(
        "SPECIAL".to_string(),
        "value \"quoted\" \\ tail".to_string(),
    );

    let env_file = "/home/dev/.config/verdictan/finance-main.env";
    let unit = render_systemd_unit(
        &spec,
        &ServicePlatform::SystemdUser,
        Some(env_file),
        &machine,
    )
    .expect("systemd unit");

    assert!(unit.contains("ExecStart="));
    assert!(unit.contains("\"gateway\" \"run\""));
    assert!(unit.contains("\"/work/policy.yaml\""));
    assert!(!unit.contains("\"--upstream\""));
    assert!(unit.contains("EnvironmentFile=/home/dev/.config/verdictan/finance-main.env"));
    assert!(unit.contains("WantedBy=default.target"));
    assert!(!unit.contains("User="));
    assert!(!unit.contains("NoNewPrivileges="));
}

#[test]
fn render_systemd_unit_rejects_a_control_character_in_an_env_value() {
    let mut spec = sample_spec();
    spec.env
        .insert("SPECIAL".to_string(), "value\u{0007}bell".to_string());

    let err = render_systemd_unit(
        &spec,
        &ServicePlatform::SystemdSystem,
        Some("/etc/verdictan/finance-main.env"),
        &linux(),
    )
    .expect_err("a control character must fail closed");
    assert!(err
        .to_string()
        .contains("unsupported control characters for systemd"));
}

#[test]
fn render_systemd_unit_adds_scope_user_and_hardening_for_a_system_unit() {
    let unit = render_systemd_unit(
        &sample_spec(),
        &ServicePlatform::SystemdSystem,
        Some("/etc/verdictan/finance-main.env"),
        &linux(),
    )
    .expect("systemd system unit");

    assert!(unit.contains(&format!("User={SYSTEM_SERVICE_USER}\n")));
    assert!(unit.contains(&format!("Group={SYSTEM_SERVICE_USER}\n")));
    assert!(unit.contains("WorkingDirectory=\"/\"\n"));
    assert!(unit.contains("NoNewPrivileges=true"));
    assert!(unit.contains("ProtectSystem=strict"));
    assert!(unit.contains("ProtectHome=read-only"));
    assert!(unit.contains("PrivateTmp=true"));
    assert!(unit.contains("ReadWritePaths=/var/log"));
    assert!(unit.contains("WantedBy=multi-user.target"));
}

#[test]
fn render_systemd_unit_moves_the_token_out_of_the_unit_when_an_env_file_is_used() {
    let unit = render_systemd_unit(
        &sample_spec(),
        &ServicePlatform::SystemdSystem,
        Some("/etc/verdictan/finance-main.env"),
        &linux(),
    )
    .expect("systemd system unit");

    assert!(unit.contains("EnvironmentFile=/etc/verdictan/finance-main.env"));
    assert!(
        !unit.contains("service-token"),
        "the unit must not embed the token: {unit}"
    );
    assert!(
        !unit.contains("Environment=\""),
        "an env-file unit must not inline Environment= lines: {unit}"
    );
}

#[test]
fn render_systemd_environment_file_writes_one_escaped_pair_per_line() {
    let env = env(&[
        ("VERDICTAN_API_TOKEN", "tok\"en"),
        ("VERDICTAN_API_URL", "https://api.test"),
    ]);

    let contents = render_systemd_environment_file(&env).expect("environment file");

    assert_eq!(
        contents,
        format!(
            "VERDICTAN_API_TOKEN=\"{}\"\nVERDICTAN_API_URL=\"{}\"\n",
            systemd_escape("tok\"en"),
            systemd_escape("https://api.test"),
        )
    );
}

#[test]
fn render_systemd_environment_file_rejects_a_newline_value() {
    let env = env(&[("VERDICTAN_API_TOKEN", "tok\ninjected=1")]);

    let err = render_systemd_environment_file(&env)
        .expect_err("a newline would inject a second assignment");
    assert!(err.to_string().contains("unsupported control characters"));
}

#[test]
fn worker6_gateway_service_launchctl_domain_falls_back_to_id_command() {
    let mut machine = macos();
    machine.user_id = UserId::Command("777\n".to_string());

    assert_eq!(
        launchctl_domain(&ServicePlatform::Launchd, &machine).expect("launchctl domain"),
        "gui/777"
    );
}

#[test]
fn worker6_gateway_service_run_command_strict_reports_stderr_output() {
    let err = check_command_status("fakectl", &printed(false, "", "boom\n"), true)
        .expect_err("strict failure");
    assert_eq!(err.error_code(), "cli.internal");
    assert!(err.to_string().contains("boom"));
}

#[test]
fn worker6_gateway_service_run_command_strict_reports_exit_status_without_stderr() {
    let err = check_command_status("quietctl", &printed(false, "", ""), true)
        .expect_err("strict failure");
    assert_eq!(err.error_code(), "cli.internal");
    assert!(err.to_string().contains("quietctl failed with status"));
}

#[test]
fn start_and_stop_service_require_installed_unit_file() {
    let start_error =
        start_service("finance-main", &macos(), &vec![false]).expect_err("missing service");
    assert!(start_error.to_string().contains("is not installed"));

    let stop_error =
        stop_service("finance-main", &macos(), &vec![false]).expect_err("missing service");
    assert!(stop_error.to_string().contains("is not installed"));
}

#[test]
fn worker6_gateway_service_service_file_exists_reflects_install_state() {
    assert!(
        !service_file_exists("finance-main", &linux(), &vec![false, false])
            .expect("missing service")
    );
    assert!(
        service_file_exists("finance-main", &linux(), &vec![true, false])
            .expect("existing service")
    );
}

#[test]
fn launchd_service_lifecycle_writes_expected_files_and_commands() {
    let machine = macos();
    let spec = sample_spec();
    let target = "gui/501/com.verdictan.gateway.finance-main";
    let file = "/home/dev/Library/LaunchAgents/com.verdictan.gateway.finance-main.plist";

    let install = install_service(&spec, &machine, false).expect("install service");
    assert_eq!(install.platform, ServicePlatform::Launchd);
    assert_eq!(install.service_file, file);
    let files = written(&install);
    assert_eq!(files.len(), 1);
    assert_eq!(files[0].path, file);
    assert!(files[0].contents.contains("com.verdictan.gateway.finance-main"));
    assert_eq!(
        commands_of(&install),
        vec![
            format!("launchctl\tbootout\t{target}"),
            format!("launchctl\tbootstrap\tgui/501\t{file}"),
            format!("launchctl\tkickstart\t-k\t{target}"),
            format!("launchctl\tprint\t{target}"),
        ]
    );

    let start = start_service("finance-main", &machine, &vec![true, false]).expect("start");
    assert_eq!(
        commands_of(&start),
        vec![
            format!("launchctl\tbootout\t{target}"),
            format!("launchctl\tbootstrap\tgui/501\t{file}"),
            format!("launchctl\tkickstart\t-k\t{target}"),
        ]
    );

    let stop = stop_service("finance-main", &machine, &vec![true, false]).expect("stop");
    assert_eq!(commands_of(&stop), vec![format!("launchctl\tbootout\t{target}")]);

    let uninstall =
        uninstall_service("finance-main", &machine, &vec![true, false]).expect("uninstall");
    assert_eq!(uninstall.platform, ServicePlatform::Launchd);
    assert_eq!(uninstall.service_file, file);
    assert_eq!(
        commands_of(&uninstall),
        vec![format!("launchctl\tbootout\t{target}")]
    );
    assert_eq!(removed(&uninstall), vec![format!("service {file}")]);
}

#[test]
fn systemd_service_lifecycle_writes_expected_files_and_commands() {
    let machine = linux();
    let spec = sample_spec();
    let file = "/home/dev/.config/systemd/user/finance-main.service";

    let install = install_service(&spec, &machine, false).expect("install service");
    assert_eq!(install.platform, ServicePlatform::SystemdUser);
    assert_eq!(install.service_file, file);
    assert_eq!(
        commands_of(&install),
        vec![
            "systemctl\t--user\tdaemon-reload".to_string(),
            "loginctl\tenable-linger".to_string(),
            "systemctl\t--user\tenable\t--now\tfinance-main.service".to_string(),
            "systemctl\t--user\tis-active\tfinance-main.service".to_string(),
        ]
    );

    let stop = stop_service("finance-main", &machine, &vec![true, false]).expect("stop");
    assert_eq!(
        commands_of(&stop),
        vec!["systemctl\t--user\tdisable\t--now\tfinance-main.service".to_string()]
    );

    let uninstall =
        uninstall_service("finance-main", &machine, &vec![true, false]).expect("uninstall");
    assert_eq!(uninstall.platform, ServicePlatform::SystemdUser);
    assert_eq!(uninstall.service_file, file);
    assert_eq!(
        commands_of(&uninstall),
        vec![
            "systemctl\t--user\tdisable\t--now\tfinance-main.service".to_string(),
            "systemctl\t--user\tdaemon-reload".to_string(),
        ]
    );
    assert_eq!(
        removed(&uninstall),
        vec![
            format!("service {file}"),
            "environment /home/dev/.config/verdictan/finance-main.env".to_string(),
        ]
    );
}

#[test]
fn systemd_user_install_writes_a_private_environment_file_beside_the_unit() {
    let mut spec = sample_spec();
    spec.policy_configs = vec![];

    let install = install_service(&spec, &linux(), false).expect("install service");
    let files = written(&install);
    let environment_file = "/home/dev/.config/verdictan/finance-main.env";

    let env_file = files
        .iter()
        .find(|file| file.path == environment_file)
        .expect("environment file must be written");
    assert!(env_file
        .contents
        .contains("VERDICTAN_API_TOKEN=\"service-token\""));
    assert!(env_file.private);

    let unit = files
        .iter()
        .find(|file| file.path == install.service_file)
        .expect("unit file");
    assert!(
        !unit.contents.contains("service-token"),
        "the unit must not embed the token: {}",
        unit.contents
    );
    assert!(unit
        .contents
        .contains(&format!("EnvironmentFile={environment_file}")));

    let uninstall =
        uninstall_service("finance-main", &linux(), &vec![true, false]).expect("uninstall");
    assert!(removed(&uninstall).contains(&format!("environment {environment_file}")));
}

#[test]
fn launchd_service_status_reports_running_loaded_and_install_states() {
    let machine = macos();
    let running = service_status(
        "finance-main",
        &machine,
        &vec![false, false],
        false,
        &printed(true, "state = running\npid = 42\n", ""),
    )
    .expect("running status");
    assert_eq!(running.platform, ServicePlatform::Launchd);
    assert_eq!(running.label, "com.verdictan.gateway.finance-main");
    assert_eq!(running.state, "running");
    assert_eq!(running.pid, Some(42));

    let loaded = service_status(
        "finance-main",
        &machine,
        &vec![false, false],
        false,
        &printed(true, "state = waiting\npid = 0\n", ""),
    )
    .expect("loaded status");
    assert_eq!(loaded.state, "loaded");
    assert_eq!(loaded.pid, None);

    let installed = service_status(
        "finance-main",
        &machine,
        &vec![true, false],
        true,
        &printed(false, "", ""),
    )
    .expect("installed status");
    assert_eq!(installed.state, "installed");
    assert_eq!(installed.pid, None);

    let missing = service_status(
        "finance-main",
        &machine,
        &vec![false, false],
        false,
        &printed(false, "", ""),
    )
    .expect("missing status");
    assert_eq!(missing.state, "not_installed");
}

#[test]
fn systemd_service_status_reports_active_and_fallback_states() {
    let machine = linux();
    let active = service_status(
        "finance-main",
        &machine,
        &vec![false, false],
        false,
        &printed(true, "ActiveState=active\nSubState=running\nMainPID=77\n", ""),
    )
    .expect("active status");
    assert_eq!(active.platform, ServicePlatform::SystemdUser);
    assert_eq!(active.label, "finance-main.service");
    assert_eq!(active.state, "active/running");
    assert_eq!(active.pid, Some(77));

    let installed = service_status(
        "finance-main",
        &machine,
        &vec![true, false],
        true,
        &printed(true, "", ""),
    )
    .expect("installed status");
    assert_eq!(installed.state, "installed");
    assert_eq!(installed.pid, None);

    let missing = service_status(
        "finance-main",
        &machine,
        &vec![false, false],
        false,
        &printed(true, "", ""),
    )
    .expect("missing status");
    assert_eq!(missing.state, "not_installed");
}

#[test]
fn is_secret_env_key_matches_credential_bearing_names_only() {
    assert!(is_secret_env_key("VERDICTAN_API_TOKEN"));
    assert!(is_secret_env_key("VERDICTAN_UPSTREAM_API_KEY"));
    assert!(is_secret_env_key("VERDICTAN_ADMIN_SECRET"));
    assert!(is_secret_env_key("verdictan_api_token"));
    assert!(!is_secret_env_key("VERDICTAN_API_URL"));
    assert!(!is_secret_env_key("VERDICTAN_AGENT_ID"));
}

#[test]
fn env_carries_secret_material_ignores_blank_values() {
    assert!(env_carries_secret_material(&env(&[(
        "VERDICTAN_API_TOKEN",
        "live-token",
    )])));
    assert!(!env_carries_secret_material(&env(&[(
        "VERDICTAN_API_TOKEN",
        "   ",
    )])));
    assert!(!env_carries_secret_material(&env(&[(
        "VERDICTAN_API_URL",
        "https://cp.example.com",
    )])));
}

#[test]
fn install_service_writes_a_token_bearing_unit_with_owner_only_mode() {
    let mut spec = sample_spec();
    spec.policy_configs.clear();

    let install = install_service(&spec, &macos(), false).expect("install service");
    let files = written(&install);
    assert!(files[0].contents.contains("service-token"));
    assert!(
        files[0].private,
        "a unit that embeds a live token must be private"
    );
}

#[test]
fn install_service_keeps_the_default_mode_for_a_unit_without_secrets() {
    let mut spec = sample_spec();
    spec.policy_configs.clear();
    spec.api_token = None;
    spec.env = EnvMap::new();

    let install = install_service(&spec, &linux(), false).expect("install service");
    let files = written(&install);
    let unit = files
        .iter()
        .find(|file| file.path == install.service_file)
        .expect("unit");
    assert!(!unit.private);
}

#[test]
fn parse_helpers_extract_expected_values() {
    assert_eq!(
        parse_launchctl_pid("state = running\n pid = 42\n"),
        Some(42)
    );
    assert_eq!(parse_launchctl_pid("pid = 0\n"), None);
    assert_eq!(
        parse_key_value("ActiveState=active\nSubState=running\n", "SubState").as_deref(),
        Some("running")
    );
    assert_eq!(parse_key_value("ActiveState=active\n", "Missing"), None);
}

#[test]
fn xml_escape_special_characters() {
    assert_eq!(xml_escape("a<b>c&d\"e'f"), "a&lt;b&gt;c&amp;d&quot;e'f");
}

#[test]
fn xml_escape_no_special_characters() {
    assert_eq!(xml_escape("hello world"), "hello world");
}

#[test]
fn xml_escape_empty_string() {
    assert_eq!(xml_escape(""), "");
}

#[test]
fn systemd_escape_special_characters() {
    let escaped = systemd_escape("hello \"world\"");
    assert!(escaped.contains("\\\""));
}

#[test]
fn systemd_escape_empty_string() {
    assert_eq!(systemd_escape(""), "");
}

#[test]
fn sanitize_service_name_replaces_invalid_chars() {
    let sanitized = sanitize_service_name("my/gateway:prod");
    assert!(!sanitized.contains('/'));
    assert!(!sanitized.contains(':'));
}

#[test]
fn sanitize_service_name_preserves_valid_chars() {
    assert_eq!(sanitize_service_name("my-gateway-prod"), "my-gateway-prod");
}

#[test]
fn sanitize_service_name_empty() {
    assert_eq!(sanitize_service_name(""), "");
}

#[test]
fn canonicalize_lossy_handles_nonexistent_path() {
    let path = "/nonexistent/test/path/binary";
    assert_eq!(canonicalize_lossy(path, &linux()), path);
}

#[test]
fn merged_service_env_combines_spec_env() {
    let mut spec = bare_spec();
    spec.listen = "0.0.0.0:8080".to_string();
    spec.upstream = Some("https://api.openai.com/v1".to_string());
    spec.policy_configs = vec!["policy.yaml".to_string()];
    spec.env = env(&[("CUSTOM_VAR", "value")]);
    let env = merged_service_env(&spec);
    assert!(env.contains_key("CUSTOM_VAR"));
    assert_eq!(env.get("CUSTOM_VAR"), Some("value"));
}

#[test]
fn command_args_includes_listen_and_policy_config() {
    let mut spec = bare_spec();
    spec.listen = "127.0.0.1:3000".to_string();
    spec.upstream = Some("https://api.example.com".to_string());
    spec.policy_configs = vec!["config-a.yaml".to_string(), "config-b.yaml".to_string()];
    spec.fail_mode = "allow".to_string();
    spec.max_concurrency = Some(100);
    let args = command_args(&spec, &linux());
    assert!(args.contains(&"--listen".to_string()));
    assert!(args.contains(&"127.0.0.1:3000".to_string()));
    assert!(args.contains(&"--policy-config".to_string()));
}

#[test]
fn service_file_path_launchd_contains_label() {
    let path = service_file_path(&ServicePlatform::Launchd, "my-gw", &macos()).expect("path");
    assert!(path.contains("com.verdictan.gateway.my-gw"));
    assert!(path.ends_with(".plist"));
}

#[test]
fn service_file_path_systemd_contains_service_ext() {
    let path = service_file_path(&ServicePlatform::SystemdUser, "my-gw", &linux()).expect("path");
    assert!(path.ends_with(".service"));
}

#[test]
fn parse_launchctl_pid_zero_returns_none() {
    assert_eq!(parse_launchctl_pid("pid = 0\n"), None);
}

#[test]
fn parse_launchctl_pid_missing_returns_none() {
    assert_eq!(parse_launchctl_pid("state = running\n"), None);
}

#[test]
fn parse_key_value_extracts_correct_value() {
    assert_eq!(
        parse_key_value("Key1=Val1\nKey2=Val2\n", "Key2").as_deref(),
        Some("Val2")
    );
}

#[test]
fn parse_key_value_missing_key() {
    assert_eq!(parse_key_value("Key1=Val1\n", "Key3"), None);
}

#[test]
fn service_platform_eq() {
    assert_eq!(ServicePlatform::Launchd, ServicePlatform::Launchd);
    assert_eq!(ServicePlatform::SystemdUser, ServicePlatform::SystemdUser);
    assert_ne!(ServicePlatform::Launchd, ServicePlatform::SystemdUser);
}

#[test]
fn gateway_service_install_spec_basic() {
    let mut spec = bare_spec();
    spec.name = "verdictan-gateway".to_string();
    spec.upstream = Some("https://api.openai.com".to_string());
    spec.max_concurrency = Some(32);
    assert_eq!(spec.name, "verdictan-gateway");
    assert_eq!(spec.listen, "0.0.0.0:41002");
}

#[test]
fn merged_service_env_empty() {
    let env = merged_service_env(&bare_spec());
    assert!(env.is_empty());
}

#[test]
fn merged_service_env_with_agent_and_token() {
    let mut spec = bare_spec();
    spec.connected_mode = true;
    spec.api_token = Some("my-token".to_string());
    spec.agent_id = Some("agent-123".to_string());
    let env = merged_service_env(&spec);
    assert_eq!(env.get("VERDICTAN_API_TOKEN"), Some("my-token"));
    assert_eq!(env.get("VERDICTAN_AGENT_ID"), Some("agent-123"));
}

#[test]
fn merged_service_env_empty_agent_not_inserted() {
    let mut spec = bare_spec();
    spec.api_token = Some("  ".to_string());
    spec.agent_id = Some("  ".to_string());
    let env = merged_service_env(&spec);
    assert!(!env.contains_key("VERDICTAN_AGENT_ID"));
    assert!(!env.contains_key("VERDICTAN_API_TOKEN"));
}

#[test]
fn merged_service_env_preserves_existing() {
    let mut spec = bare_spec();
    spec.api_token = Some("token".to_string());
    spec.env = env(&[("CUSTOM_VAR", "value")]);
    let env = merged_service_env(&spec);
    assert_eq!(env.get("CUSTOM_VAR"), Some("value"));
    assert_eq!(env.get("VERDICTAN_API_TOKEN"), Some("token"));
}

#[test]
fn service_status_basic() {
    let status = ServiceStatus {
        platform: ServicePlatform::SystemdUser,
        label: "verdictan-gateway".to_string(),
        state: "active".to_string(),
        pid: Some(12345),
        service_file: "/home/user/.config/systemd/user/verdictan-gateway.service".to_string(),
    };
    assert_eq!(status.platform, ServicePlatform::SystemdUser);
    assert_eq!(status.state, "active");
    assert_eq!(status.pid, Some(12345));
}

#[test]
fn resolve_platform_picks_system_scope_only_for_a_privileged_process() {
    assert_eq!(
        resolve_platform("linux", true).expect("linux root"),
        ServicePlatform::SystemdSystem
    );
    assert_eq!(
        resolve_platform("linux", false).expect("linux user"),
        ServicePlatform::SystemdUser
    );
    assert_eq!(
        resolve_platform("macos", true).expect("macos root"),
        ServicePlatform::LaunchDaemon
    );
    assert_eq!(
        resolve_platform("macos", false).expect("macos user"),
        ServicePlatform::Launchd
    );
}

#[test]
fn resolve_platform_supports_windows_and_rejects_an_unknown_os() {
    assert_eq!(
        resolve_platform("windows", false).expect("windows"),
        ServicePlatform::WindowsService
    );

    let err = resolve_platform("redox", true).expect_err("unknown os");
    assert!(err
        .to_string()
        .contains("service management is not supported on redox"));
}

#[test]
fn candidate_platforms_lets_a_privileged_process_find_a_user_scope_install() {
    assert_eq!(
        candidate_platforms("linux", true),
        vec![ServicePlatform::SystemdSystem, ServicePlatform::SystemdUser]
    );
    assert_eq!(
        candidate_platforms("macos", true),
        vec![ServicePlatform::LaunchDaemon, ServicePlatform::Launchd]
    );
}

#[test]
fn service_scope_and_display_name_match_the_platform() {
    for (platform, scope, name) in [
        (ServicePlatform::Launchd, ServiceScope::User, "launchd"),
        (
            ServicePlatform::LaunchDaemon,
            ServiceScope::System,
            "launchd (system)",
        ),
        (
            ServicePlatform::SystemdUser,
            ServiceScope::User,
            "systemd --user",
        ),
        (
            ServicePlatform::SystemdSystem,
            ServiceScope::System,
            "systemd (system)",
        ),
        (
            ServicePlatform::WindowsService,
            ServiceScope::System,
            "windows service",
        ),
    ] {
        assert_eq!(platform.scope(), scope, "scope for {name}");
        assert_eq!(platform.display_name(), name);
    }
}

#[test]
fn service_file_path_resolves_each_system_scope_location() {
    assert_eq!(
        service_file_path(&ServicePlatform::SystemdSystem, "finance main", &linux())
            .expect("unit path"),
        "/etc/systemd/system/finance-main.service"
    );
    assert_eq!(
        service_file_path(&ServicePlatform::LaunchDaemon, "finance main", &macos())
            .expect("daemon path"),
        "/Library/LaunchDaemons/com.verdictan.gateway.finance-main.plist"
    );
    assert_eq!(
        service_file_path(&ServicePlatform::WindowsService, "finance main", &linux())
            .expect("registry key"),
        r"HKLM\SYSTEM\CurrentControlSet\Services/finance-main"
    );
    assert_eq!(
        service_file_path(&ServicePlatform::WindowsService, "finance main", &windows())
            .expect("registry key"),
        r"HKLM\SYSTEM\CurrentControlSet\Services\finance-main"
    );
}

#[test]
fn service_file_path_rejects_a_name_with_no_usable_character() {
    let err = service_file_path(&ServicePlatform::SystemdSystem, "///", &linux())
        .expect_err("empty sanitized name");
    assert!(err
        .to_string()
        .contains("must contain at least one valid character"));
}

#[test]
fn environment_file_path_uses_the_system_config_dir_for_a_system_unit() {
    assert_eq!(
        environment_file_path(&ServicePlatform::SystemdSystem, "finance-main", &linux())
            .expect("system env file"),
        format!("{SYSTEM_CONFIG_DIR}/finance-main.env")
    );
}

#[test]
fn environment_file_path_rejects_a_platform_with_no_environment_file() {
    for platform in [
        ServicePlatform::Launchd,
        ServicePlatform::LaunchDaemon,
        ServicePlatform::WindowsService,
    ] {
        let err = environment_file_path(&platform, "finance-main", &macos())
            .expect_err("no environment file");
        assert!(err.to_string().contains("has no environment file"));
    }
}

#[test]
fn logs_dir_keeps_a_launch_daemon_out_of_a_login_home() {
    assert_eq!(
        logs_dir(&ServicePlatform::LaunchDaemon, &macos()).expect("daemon logs"),
        "/var/log/verdictan"
    );
}

#[test]
fn service_working_directory_is_the_root_for_a_system_scope_service() {
    assert_eq!(
        service_working_directory(&ServicePlatform::SystemdSystem, &linux()).expect("system cwd"),
        "/"
    );
    assert_eq!(
        service_working_directory(&ServicePlatform::LaunchDaemon, &macos()).expect("daemon cwd"),
        "/"
    );
    assert_eq!(
        service_working_directory(&ServicePlatform::SystemdUser, &linux()).expect("user cwd"),
        "/work"
    );
}

#[test]
fn build_install_plan_for_a_system_unit_creates_the_config_dir_and_service_user() {
    let plan = build_install_plan(
        &ServicePlatform::SystemdSystem,
        &sample_spec(),
        &host("linux", true),
    )
    .expect("system install plan");

    assert_eq!(plan.service_user.as_deref(), Some(SYSTEM_SERVICE_USER));
    assert!(plan
        .directories
        .contains(&SYSTEMD_SYSTEM_UNIT_DIR.to_string()));
    assert!(
        plan.directories.contains(&SYSTEM_CONFIG_DIR.to_string()),
        "the plan must create {SYSTEM_CONFIG_DIR}: {:?}",
        plan.directories
    );
    assert_eq!(
        plan.service_file,
        "/etc/systemd/system/finance-main.service"
    );
}

#[test]
fn build_install_plan_puts_the_token_in_a_private_environment_file_only() {
    let plan = build_install_plan(
        &ServicePlatform::SystemdSystem,
        &sample_spec(),
        &host("linux", true),
    )
    .expect("system install plan");

    let env_file = plan
        .files
        .iter()
        .find(|file| file.path.ends_with("/finance-main.env"))
        .expect("environment file write");
    assert!(env_file.private, "the environment file must be owner only");
    assert!(env_file.contents.contains("VERDICTAN_API_TOKEN="));

    let unit = plan
        .files
        .iter()
        .find(|file| file.path.ends_with("/finance-main.service"))
        .expect("unit write");
    assert!(
        !unit.private,
        "a unit that references an environment file embeds no secret"
    );
    assert!(!unit.contents.contains("service-token"));
}

#[test]
fn build_install_plan_marks_a_launchd_plist_private_because_it_inlines_the_token() {
    let plan = build_install_plan(&ServicePlatform::Launchd, &sample_spec(), &macos())
        .expect("launchd install plan");

    let plist = plan
        .files
        .iter()
        .find(|file| file.path.ends_with(".plist"))
        .expect("plist write");
    assert!(
        plist.private,
        "launchd has no environment file, so the plist itself must be owner only"
    );
    assert!(plist.contents.contains("service-token"));
    assert!(plan.service_user.is_none());
}

#[test]
fn build_install_plan_rejects_a_windows_unit_file() {
    let err = build_install_plan(&ServicePlatform::WindowsService, &sample_spec(), &windows())
        .expect_err("windows has no unit file");
    assert!(err.to_string().contains("does not use a unit file"));
}

#[test]
fn activation_commands_enable_linger_for_a_user_scope_systemd_unit() {
    let commands = activation_commands(
        &ServicePlatform::SystemdUser,
        "finance-main",
        "/ignored",
        &linux(),
    )
    .expect("user activation");

    let rendered = commands
        .iter()
        .map(|command| format!("{} {}", command.program, command.args.join(" ")))
        .collect::<Vec<_>>();
    assert_eq!(
        rendered,
        vec![
            "systemctl --user daemon-reload".to_string(),
            "loginctl enable-linger".to_string(),
            "systemctl --user enable --now finance-main.service".to_string(),
        ]
    );
}

#[test]
fn activation_commands_for_a_system_unit_use_the_system_manager_and_no_linger() {
    let commands = activation_commands(
        &ServicePlatform::SystemdSystem,
        "finance-main",
        "/ignored",
        &linux(),
    )
    .expect("system activation");

    let rendered = commands
        .iter()
        .map(|command| format!("{} {}", command.program, command.args.join(" ")))
        .collect::<Vec<_>>();
    assert_eq!(
        rendered,
        vec![
            "systemctl daemon-reload".to_string(),
            "systemctl enable --now finance-main.service".to_string(),
        ]
    );
    assert!(!rendered.iter().any(|command| command.contains("--user")));
}

#[test]
fn deactivation_commands_are_scope_aware_and_never_strict() {
    let user = deactivation_commands(&ServicePlatform::SystemdUser, "finance-main", &linux())
        .expect("user deactivation");
    assert_eq!(
        user[0].args,
        vec!["--user", "disable", "--now", "finance-main.service"]
    );
    assert!(!user[0].strict);

    let system = deactivation_commands(&ServicePlatform::SystemdSystem, "finance-main", &linux())
        .expect("system deactivation");
    assert_eq!(
        system[0].args,
        vec!["disable", "--now", "finance-main.service"]
    );
    assert!(!system[0].strict);
}

#[test]
fn interpret_active_state_reports_the_observed_systemd_state() {
    assert_eq!(
        interpret_active_state(&ServicePlatform::SystemdSystem, true, "active\n"),
        Ok("active".to_string())
    );
    assert_eq!(
        interpret_active_state(&ServicePlatform::SystemdSystem, false, "failed\n"),
        Err("failed".to_string())
    );
    assert_eq!(
        interpret_active_state(&ServicePlatform::SystemdUser, false, "   "),
        Err("unknown".to_string())
    );
}

#[test]
fn interpret_active_state_separates_a_loaded_launchd_job_from_a_running_one() {
    assert_eq!(
        interpret_active_state(
            &ServicePlatform::LaunchDaemon,
            true,
            "  state = running\n  pid = 42\n"
        ),
        Ok("running".to_string())
    );
    assert_eq!(
        interpret_active_state(&ServicePlatform::LaunchDaemon, true, "  state = waiting\n"),
        Err("loaded".to_string())
    );
    assert_eq!(
        interpret_active_state(&ServicePlatform::Launchd, false, ""),
        Err("not_loaded".to_string())
    );
}

#[test]
fn interpret_active_state_reads_the_windows_service_state() {
    assert_eq!(
        interpret_active_state(
            &ServicePlatform::WindowsService,
            true,
            "        STATE              : 4  RUNNING\n"
        ),
        Ok("RUNNING".to_string())
    );
    assert_eq!(
        interpret_active_state(
            &ServicePlatform::WindowsService,
            true,
            "        STATE              : 1  STOPPED\n"
        ),
        Err("STOPPED".to_string())
    );
    assert_eq!(
        interpret_active_state(&ServicePlatform::WindowsService, false, "no state here"),
        Err("unknown".to_string())
    );
}

#[test]
fn parse_sc_query_state_reads_the_word_after_the_numeric_code() {
    assert_eq!(
        parse_sc_query_state("        STATE              : 4  RUNNING\n").as_deref(),
        Some("RUNNING")
    );
    assert_eq!(parse_sc_query_state("SERVICE_NAME: finance-main\n"), None);
}

#[test]
fn windows_quote_only_quotes_a_value_with_whitespace() {
    assert_eq!(windows_quote("gateway"), "gateway");
    assert_eq!(
        windows_quote(r"C:\Program Files\verdictan.exe"),
        "\"C:\\Program Files\\verdictan.exe\""
    );
}

#[test]
fn windows_service_bin_path_quotes_the_executable_and_arguments() {
    let mut spec = sample_spec();
    spec.binary_path_override = Some(r"C:\Program Files\verdictan.exe".to_string());
    spec.policy_configs = vec![];
    spec.command_override = Some(vec!["gateway".to_string(), "run".to_string()]);

    let bin_path = windows_service_bin_path(&spec, &windows()).expect("bin path");
    assert!(bin_path.starts_with('"'), "unexpected bin path: {bin_path}");
    assert!(bin_path.ends_with("gateway run"));
}

#[test]
fn render_windows_service_environment_block_joins_entries_with_a_newline() {
    let env = env(&[
        ("VERDICTAN_API_TOKEN", "tok"),
        ("VERDICTAN_API_URL", "https://api.test"),
    ]);

    assert_eq!(
        render_windows_service_environment_block(&env).expect("env block"),
        "VERDICTAN_API_TOKEN=tok\nVERDICTAN_API_URL=https://api.test"
    );
}

#[test]
fn render_windows_service_environment_block_rejects_a_control_character() {
    let env = env(&[(
        "VERDICTAN_API_TOKEN",
        "tok\nVERDICTAN_API_URL=https://evil.test",
    )]);

    let err = render_windows_service_environment_block(&env)
        .expect_err("a newline would inject a second entry");
    assert!(err
        .to_string()
        .contains("unsupported control characters for windows"));
}

#[test]
fn env_map_keeps_its_keys_in_order_and_its_last_value() {
    let map = env(&[("b", "1"), ("a", "2"), ("b", "3")]);
    assert_eq!(map.len(), 2);
    assert_eq!((map.key_at(0), map.value_at(0)), ("a", "2"));
    assert_eq!((map.key_at(1), map.value_at(1)), ("b", "3"));
    assert_eq!(map.copy().get("b"), Some("3"));
    assert_eq!(map.get("c"), None);
}

#[test]
fn paths_join_with_one_separator() {
    assert_eq!(join_path("/home/dev", "logs", '/'), "/home/dev/logs");
    assert_eq!(join_path("/", "logs", '/'), "/logs");
}

#[test]
fn service_names_become_labels_and_units() {
    assert_eq!(service_label("my gw"), "com.verdictan.gateway.my-gw");
    assert_eq!(unit_name("my gw"), "my-gw.service");
    assert_eq!(require_safe_service_name("my gw").expect("name"), "my-gw");
    assert!(require_safe_service_name("@").is_err());
}

#[test]
fn a_missing_home_fails_every_user_scope_path() {
    let mut machine = linux();
    machine.home = None;
    assert!(home_dir(&machine).is_err());
    assert!(service_file_path(&ServicePlatform::SystemdUser, "gw", &machine).is_err());
    assert!(environment_file_path(&ServicePlatform::SystemdUser, "gw", &machine).is_err());
    assert!(service_file_path(&ServicePlatform::SystemdSystem, "gw", &machine).is_ok());
}

#[test]
fn systemd_quoting_keeps_quotes_and_backslashes() {
    assert_eq!(systemd_escape(r#"a\b"c"#), r#"a\\b\"c"#);
    assert_eq!(systemd_quote("a b"), "\"a b\"");
}

#[test]
fn control_characters_are_refused_for_each_manager() {
    assert!(contains_control_characters("a\tb"));
    assert!(contains_control_characters("a\u{007f}b"));
    assert!(!contains_control_characters("a\u{0085}b"));
    assert!(!contains_control_characters("a b"));
    assert!(validate_launchd_env_value("K", "ok").is_ok());
    assert!(validate_launchd_env_value("K", "a\u{1}").is_err());
    assert!(validate_systemd_env_value("K", "a\u{1}").is_err());
    assert!(validate_windows_env_value("K", "a\u{1}").is_err());
}

#[test]
fn the_binary_is_the_override_or_the_running_program() {
    let mut machine = linux();
    machine.canonical = env(&[("/tmp/link", "/opt/real")]);
    let mut spec = bare_spec();
    assert_eq!(
        service_binary_path(&spec, &machine).expect("running program"),
        "/opt/bin/verdictan"
    );
    spec.binary_path_override = Some("/tmp/link".to_string());
    assert_eq!(
        service_binary_path(&spec, &machine).expect("override"),
        "/opt/real"
    );
    spec.binary_path_override = None;
    machine.current_exe = Err("gone".to_string());
    assert!(service_binary_path(&spec, &machine).is_err());
}

#[test]
fn a_launchd_domain_needs_a_user_id() {
    let mut machine = macos();
    machine.user_id = UserId::Unavailable("no id".to_string());
    assert!(launchctl_domain(&ServicePlatform::Launchd, &machine).is_err());
    assert_eq!(
        launchctl_domain(&ServicePlatform::LaunchDaemon, &machine).expect("system"),
        "system"
    );
}

#[test]
fn user_units_go_through_the_user_manager() {
    assert_eq!(
        systemctl_args(&ServicePlatform::SystemdUser, vec!["status".to_string()]),
        vec!["--user".to_string(), "status".to_string()]
    );
    assert_eq!(
        systemctl_args(&ServicePlatform::SystemdSystem, vec!["status".to_string()]),
        vec!["status".to_string()]
    );
}

#[test]
fn an_install_that_does_not_start_reports_the_state_and_the_log() {
    let output = printed(false, "failed\n", "");
    let err = verify_service_is_active(
        &ServicePlatform::SystemdSystem,
        "finance-main",
        &output,
        Some("boot failure"),
    )
    .expect_err("inactive");
    assert!(err.to_string().contains("failed"));
    assert!(err.to_string().contains("boot failure"));
    assert!(verify_service_is_active(
        &ServicePlatform::SystemdSystem,
        "finance-main",
        &printed(true, "active\n", ""),
        None,
    )
    .is_ok());
}

#[test]
fn only_systemd_services_have_a_log_command() {
    let command =
        service_log_command(&ServicePlatform::SystemdSystem, "finance-main").expect("journal");
    assert_eq!(command.program, "journalctl");
    assert!(command.args.contains(&"finance-main.service".to_string()));
    assert!(service_log_command(&ServicePlatform::Launchd, "finance-main").is_none());
    assert_eq!(
        service_log_tail(&ServicePlatform::Launchd, "finance-main", Some("log")),
        ""
    );
    assert_eq!(
        service_log_tail(&ServicePlatform::SystemdUser, "finance-main", Some(" a\nb ")),
        "\nrecent log lines:\na\nb"
    );
}

#[test]
fn lenient_commands_ignore_a_failing_status() {
    assert!(check_command_status("ctl", &printed(false, "", "boom"), false).is_ok());
    assert!(check_command_status("ctl", &printed(true, "", "boom"), true).is_ok());
    assert!(spawn_error("ctl", "not found", true)
        .to_string()
        .contains("ctl"));
}

#[test]
fn a_registration_in_another_scope_is_found() {
    let machine = host("linux", true);
    assert_eq!(
        installed_platform("finance-main", &machine, &vec![false, true]).expect("user scope"),
        ServicePlatform::SystemdUser
    );
    assert_eq!(
        installed_platform("finance-main", &machine, &vec![false, false]).expect("default"),
        ServicePlatform::SystemdSystem
    );
    assert!(service_registration_exists(
        &ServicePlatform::SystemdUser,
        "finance-main",
        &machine,
        &vec![false, true],
    )
    .expect("registered"));
    assert!(!service_registration_exists(
        &ServicePlatform::SystemdSystem,
        "finance-main",
        &machine,
        &vec![false, true],
    )
    .expect("not registered"));
}

#[test]
fn status_commands_follow_the_platform() {
    assert_eq!(
        line(
            &service_status_command(&ServicePlatform::WindowsService, "gw", &windows())
                .expect("sc")
        ),
        "sc.exe\tquery\tgw"
    );
}

#[test]
fn windows_service_state_comes_from_the_query() {
    let status = service_status(
        "gw",
        &windows(),
        &vec![true],
        true,
        &printed(true, "        STATE              : 4  RUNNING\n", ""),
    )
    .expect("status");
    assert_eq!(status.platform, ServicePlatform::WindowsService);
    assert_eq!(status.state, "running");
    assert_eq!(status.pid, None);
}

#[test]
fn a_windows_install_creates_configures_and_starts_the_service() {
    let mut spec = sample_spec();
    spec.policy_configs.clear();
    let fresh = install_service(&spec, &windows(), false).expect("install");
    assert_eq!(fresh.platform, ServicePlatform::WindowsService);
    let commands = commands_of(&fresh);
    assert!(commands[0].starts_with("sc.exe\tcreate\tfinance-main"));
    assert!(commands.iter().any(|c| c.contains(WINDOWS_FAILURE_ACTIONS)));
    let again = install_service(&spec, &windows(), true).expect("install");
    assert!(commands_of(&again)
        .iter()
        .any(|c| c.starts_with("sc.exe\tconfig\tfinance-main")));
}

#[test]
fn windows_variables_travel_outside_the_command_line() {
    let step = apply_windows_service_environment("gw", &env(&[("K", "secret")])).expect("step");
    match step {
        ServiceStep::RunWithEnv(command, extra) => {
            assert_eq!(command.program, "powershell.exe");
            assert!(command
                .args
                .contains(&WINDOWS_SERVICE_ENV_SCRIPT.to_string()));
            assert!(!line(&command).contains("secret"));
            assert!(extra.contains(&(WINDOWS_ENV_BLOCK_VAR.to_string(), "K=secret".to_string())));
            assert!(extra.contains(&(WINDOWS_ENV_SERVICE_VAR.to_string(), "gw".to_string())));
        }
        other => panic!("unexpected step: {other:?}"),
    }
}

#[test]
fn the_service_account_is_created_once() {
    assert!(ensure_system_service_user("verdictan", true).is_none());
    let command = ensure_system_service_user("verdictan", false).expect("useradd");
    assert_eq!(command.program, "useradd");
    assert!(command.args.contains(&"verdictan".to_string()));
}

#[test]
fn a_failed_step_names_what_it_worked_on() {
    let error = step_error(
        &ServiceStep::CreateDirectory("/etc/verdictan".to_string()),
        "denied",
    );
    assert!(error.to_string().contains("/etc/verdictan"));
    assert!(error.to_string().contains("denied"));
}

#[test]
fn an_unrestricted_file_is_named_to_the_operator() {
    assert_eq!(
        unrestricted_file_warning("/etc/verdictan/gw.env", "windows"),
        "warning: /etc/verdictan/gw.env holds service credentials and could not receive an owner-only file mode on windows. Restrict access to this file before you leave the host."
    );
}

#[test]
fn the_windows_block_splits_back_into_its_assignments() {
    let block = render_windows_service_environment_block(&env(&[
        ("VERDICTAN_API_URL", "https://cp.example.com/?a=b"),
        ("VERDICTAN_API_TOKEN", "tok=en value"),
        ("VERDICTAN_EMPTY", ""),
    ]))
    .expect("block");
    let lines: Vec<&str> = block.split('\n').collect();
    assert_eq!(
        lines,
        vec![
            "VERDICTAN_API_TOKEN=tok=en value",
            "VERDICTAN_API_URL=https://cp.example.com/?a=b",
            "VERDICTAN_EMPTY=",
        ]
    );
}

#[test]
fn both_scopes_are_probed_with_the_entitled_one_first() {
    use_both(
        "linux",
        ServicePlatform::SystemdSystem,
        ServicePlatform::SystemdUser,
    );
    use_both(
        "macos",
        ServicePlatform::LaunchDaemon,
        ServicePlatform::Launchd,
    );
    assert_eq!(
        probed_platforms("windows", false),
        vec![ServicePlatform::WindowsService]
    );
    assert!(probed_platforms("plan9", true).is_empty());
}

fn use_both(os: &str, system: ServicePlatform, user: ServicePlatform) {
    assert_eq!(probed_platforms(os, true), vec![system, user]);
    assert_eq!(probed_platforms(os, false), vec![user, system]);
}

#[test]
fn an_unprivileged_process_finds_a_system_scope_install() {
    let found = vec![false, true];
    assert_eq!(
        installed_platform("finance-main", &linux(), &found).expect("system scope"),
        ServicePlatform::SystemdSystem
    );
    assert_eq!(
        installed_platform("finance-main", &macos(), &found).expect("system scope"),
        ServicePlatform::LaunchDaemon
    );
    assert!(service_file_exists("finance-main", &linux(), &found).expect("installed"));
    let stop = stop_service("finance-main", &linux(), &found).expect("stop");
    assert_eq!(
        commands_of(&stop),
        vec!["systemctl\tdisable\t--now\tfinance-main.service".to_string()]
    );
    let status = service_status(
        "finance-main",
        &linux(),
        &found,
        true,
        &printed(true, "ActiveState=active\nSubState=running\nMainPID=9\n", ""),
    )
    .expect("status");
    assert_eq!(status.platform, ServicePlatform::SystemdSystem);
    let uninstall = uninstall_service("finance-main", &linux(), &found).expect("uninstall");
    assert_eq!(
        uninstall.service_file,
        "/etc/systemd/system/finance-main.service"
    );
}

/// Carries an operation through. Gives what was done and how it ended; `answer` says
/// what a command leaves behind.
fn carry_out(
    operation: &ServiceOperation,
    answer: impl Fn(&ServiceCommand) -> Result<CommandResult, String>,
) -> (Vec<String>, Result<(), String>) {
    let mut done = vec![];
    let mut answers = vec![];
    loop {
        let came = match next_turn(operation, &answers) {
            ServiceTurn::Perform(ServiceStep::Run(command))
            | ServiceTurn::Perform(ServiceStep::RunWithEnv(command, _)) => {
                done.push(line(command));
                answer(command)
            }
            ServiceTurn::Perform(ServiceStep::CreateDirectory(path)) => {
                done.push(format!("mkdir\t{path}"));
                Ok(printed(true, "", ""))
            }
            ServiceTurn::Perform(ServiceStep::WriteFile(file)) => {
                done.push(format!("write\t{}", file.path));
                Ok(printed(true, "", ""))
            }
            ServiceTurn::Perform(_) => Ok(printed(true, "", "")),
            ServiceTurn::Run(command) => {
                done.push(line(&command));
                answer(&command)
            }
            ServiceTurn::Finished => return (done, Ok(())),
            ServiceTurn::Failed(error) => return (done, Err(error.to_string())),
        };
        answers.push(came);
    }
}

fn system_install() -> ServiceOperation {
    let mut spec = sample_spec();
    spec.policy_configs.clear();
    install_service(&spec, &host("linux", true), false).expect("install")
}

#[test]
fn an_install_finishes_once_its_service_is_active() {
    let (done, outcome) = carry_out(&system_install(), |command| {
        let is_active = command.args.contains(&"is-active".to_string());
        Ok(printed(
            command.program != "id",
            if is_active { "active\n" } else { "" },
            "",
        ))
    });
    assert_eq!(outcome, Ok(()));
    assert_eq!(done[0], "id\t-u\tverdictan");
    assert!(done[1].starts_with("useradd\t--system"));
    assert!(done.contains(&"write\t/etc/systemd/system/finance-main.service".to_string()));
    assert_eq!(
        done.last().map(String::as_str),
        Some("systemctl\tis-active\tfinance-main.service")
    );
}

#[test]
fn an_install_fails_with_the_log_where_its_service_is_not_active() {
    let (done, outcome) = carry_out(&system_install(), |command| {
        let text = match command.program.as_str() {
            "journalctl" => "panic: no upstream\n",
            _ if command.args.contains(&"is-active".to_string()) => "failed\n",
            _ => "",
        };
        Ok(printed(true, text, ""))
    });
    let message = outcome.expect_err("not active");
    assert!(message.contains("service finance-main did not reach the active state"));
    assert!(message.contains("(observed: failed)"));
    assert!(message.contains("recent log lines:\npanic: no upstream"));
    assert!(done[1].starts_with("mkdir"));
    assert!(done.last().expect("log").starts_with("journalctl\t-u\tfinance-main.service"));
}

#[test]
fn an_operation_stops_at_its_first_failure() {
    let (done, outcome) = carry_out(&system_install(), |command| {
        if command.args.contains(&"daemon-reload".to_string()) {
            Ok(printed(false, "", "bus is down\n"))
        } else {
            Ok(printed(true, "", ""))
        }
    });
    assert_eq!(outcome, Err("systemctl failed: bus is down".to_string()));
    assert_eq!(
        done.last().map(String::as_str),
        Some("systemctl\tdaemon-reload")
    );

    let (done, outcome) = carry_out(&system_install(), |_| Err("not found".to_string()));
    assert_eq!(outcome, Err("failed to run id: not found".to_string()));
    assert_eq!(done.len(), 1);
}

#[test]
fn a_lenient_command_may_fail() {
    let stop = stop_service("finance-main", &linux(), &vec![true]).expect("stop");
    let (_, outcome) = carry_out(&stop, |_| Ok(printed(false, "", "not loaded")));
    assert_eq!(outcome, Ok(()));
}

#[test]
fn the_active_state_is_asked_of_the_service_manager() {
    let asked = |platform: ServicePlatform, machine: &ServiceHost| {
        line(&active_state_command(&platform, "finance-main", machine).expect("probe"))
    };
    assert_eq!(
        asked(ServicePlatform::SystemdUser, &linux()),
        "systemctl\t--user\tis-active\tfinance-main.service"
    );
    assert_eq!(
        asked(ServicePlatform::SystemdSystem, &linux()),
        "systemctl\tis-active\tfinance-main.service"
    );
    assert_eq!(
        asked(ServicePlatform::WindowsService, &windows()),
        "sc.exe\tquery\tfinance-main"
    );
}
