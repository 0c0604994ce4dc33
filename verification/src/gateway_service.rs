//! The gateway as a service of the host: names, paths, unit files, commands and
//! what their output says.
use vstd::prelude::*;

use crate::env_map::{self, EnvMap, Pair};
use crate::error::{self, CliError, ErrorView};
use crate::gateway_run::DEFAULT_HOSTED_UPSTREAM_URL;
use crate::text;

verus! {

/// Default system account for a system-scope Linux install.
pub const SYSTEM_SERVICE_USER: &'static str = "verdictan";

/// Directory that holds system-scope configuration and the protected
/// environment file. `gateway run` reads `policy-config.yaml` from here.
pub const SYSTEM_CONFIG_DIR: &'static str = "/etc/verdictan";

pub const SYSTEMD_SYSTEM_UNIT_DIR: &'static str = "/etc/systemd/system";

pub const LAUNCH_DAEMON_DIR: &'static str = "/Library/LaunchDaemons";

pub const SYSTEM_LOG_DIR: &'static str = "/var/log/verdictan";

/// Registry root that holds a Windows service registration. The install has no
/// unit file on Windows, so this key stands in for one in operator output.
pub const WINDOWS_SERVICE_REGISTRY_ROOT: &'static str = r"HKLM\SYSTEM\CurrentControlSet\Services";

/// Restart policy that `sc.exe failure` applies on Windows.
pub const WINDOWS_FAILURE_ACTIONS: &'static str = "restart/5000/restart/10000/restart/30000";

pub const WINDOWS_FAILURE_RESET_SECONDS: &'static str = "86400";

/// Environment variables that carry the registry write into PowerShell.
pub const WINDOWS_ENV_BLOCK_VAR: &'static str = "VERDICTAN_SERVICE_ENV_BLOCK";

pub const WINDOWS_ENV_SERVICE_VAR: &'static str = "VERDICTAN_SERVICE_REGISTRY_NAME";

/// PowerShell that sets the service `Environment` value with
/// `Set-ItemProperty... -Type MultiString`.
///
/// The service name and the environment block arrive through the child process
/// environment instead of the command line, because a Windows command line is
/// readable by any account on the host while a process environment block is
/// not.
pub const WINDOWS_SERVICE_ENV_SCRIPT: &'static str = "$ErrorActionPreference = 'Stop'; $name = $env:VERDICTAN_SERVICE_REGISTRY_NAME; $block = $env:VERDICTAN_SERVICE_ENV_BLOCK -split \"`n\"; Set-ItemProperty -Path \"HKLM:\\SYSTEM\\CurrentControlSet\\Services\\$name\" -Name 'Environment' -Value $block -Type MultiString";

// ---------------------------------------------------------------------------
// Platforms
// ---------------------------------------------------------------------------

/// Whether a service runs for one login session or for the whole host.
#[derive(Debug, Clone, Copy, PartialEq, Eq, Structural)]
pub enum ServiceScope {
    /// Registered for the invoking user, and stopped when that user logs out
    /// unless linger is enabled.
    User,
    /// Registered for the host, and started at boot without a login.
    System,
}

#[derive(Debug, Clone, Copy, PartialEq, Eq, Structural)]
pub enum ServicePlatform {
    /// macOS LaunchAgent in the invoking user's domain.
    Launchd,
    /// macOS LaunchDaemon in the system domain.
    LaunchDaemon,
    SystemdUser,
    /// systemd unit in `/etc/systemd/system`.
    SystemdSystem,
    /// Windows Service registered through `sc.exe`.
    WindowsService,
}

pub open spec fn scope_of(platform: ServicePlatform) -> ServiceScope {
    match platform {
        ServicePlatform::Launchd | ServicePlatform::SystemdUser => ServiceScope::User,
        _ => ServiceScope::System,
    }
}

pub open spec fn display_name_of(platform: ServicePlatform) -> Seq<char> {
    match platform {
        ServicePlatform::Launchd => "launchd"@,
        ServicePlatform::LaunchDaemon => "launchd (system)"@,
        ServicePlatform::SystemdUser => "systemd --user"@,
        ServicePlatform::SystemdSystem => "systemd (system)"@,
        ServicePlatform::WindowsService => "windows service"@,
    }
}

pub open spec fn systemd(platform: ServicePlatform) -> bool {
    platform == ServicePlatform::SystemdUser || platform == ServicePlatform::SystemdSystem
}

pub open spec fn launchd(platform: ServicePlatform) -> bool {
    platform == ServicePlatform::Launchd || platform == ServicePlatform::LaunchDaemon
}

impl ServicePlatform {
    pub fn scope(&self) -> (r: ServiceScope)
        ensures
            r == scope_of(*self),
    {
        match self {
            ServicePlatform::Launchd | ServicePlatform::SystemdUser => ServiceScope::User,
            ServicePlatform::LaunchDaemon
            | ServicePlatform::SystemdSystem
            | ServicePlatform::WindowsService => ServiceScope::System,
        }
    }

    /// Operator-facing name of the service manager and its scope.
    pub fn display_name(&self) -> (r: &'static str)
        ensures
            r@ == display_name_of(*self),
    {
        match self {
            ServicePlatform::Launchd => "launchd",
            ServicePlatform::LaunchDaemon => "launchd (system)",
            ServicePlatform::SystemdUser => "systemd --user",
            ServicePlatform::SystemdSystem => "systemd (system)",
            ServicePlatform::WindowsService => "windows service",
        }
    }

    pub fn is_systemd(&self) -> (r: bool)
        ensures
            r == systemd(*self),
    {
        matches!(self, ServicePlatform::SystemdUser | ServicePlatform::SystemdSystem)
    }

    fn is_launchd(&self) -> (r: bool)
        ensures
            r == launchd(*self),
    {
        matches!(self, ServicePlatform::Launchd | ServicePlatform::LaunchDaemon)
    }
}

/// Platforms that an operating system can manage under the privilege of a process.
pub open spec fn candidates(os: Seq<char>, privileged: bool) -> Seq<ServicePlatform> {
    if os == "macos"@ {
        if privileged {
            seq![ServicePlatform::LaunchDaemon, ServicePlatform::Launchd]
        } else {
            seq![ServicePlatform::Launchd]
        }
    } else if os == "linux"@ {
        if privileged {
            seq![ServicePlatform::SystemdSystem, ServicePlatform::SystemdUser]
        } else {
            seq![ServicePlatform::SystemdUser]
        }
    } else if os == "windows"@ {
        seq![ServicePlatform::WindowsService]
    } else {
        Seq::empty()
    }
}

/// Platforms that this operating system can manage, ordered by the scope that
/// the current process is entitled to.
pub fn candidate_platforms(os: &str, privileged: bool) -> (r: Vec<ServicePlatform>)
    ensures
        r@ == candidates(os@, privileged),
{
    let r = if text::same(os, "macos") {
        if privileged {
            vec![ServicePlatform::LaunchDaemon, ServicePlatform::Launchd]
        } else {
            vec![ServicePlatform::Launchd]
        }
    } else if text::same(os, "linux") {
        if privileged {
            vec![ServicePlatform::SystemdSystem, ServicePlatform::SystemdUser]
        } else {
            vec![ServicePlatform::SystemdUser]
        }
    } else if text::same(os, "windows") {
        vec![ServicePlatform::WindowsService]
    } else {
        Vec::new()
    };
    assert(r@ =~= candidates(os@, privileged));
    r
}

/// Platforms on which a service that is already installed is looked for: both scopes
/// of the operating system, the one that the process is entitled to first.
pub open spec fn probed(os: Seq<char>, privileged: bool) -> Seq<ServicePlatform> {
    if os == "macos"@ {
        if privileged {
            seq![ServicePlatform::LaunchDaemon, ServicePlatform::Launchd]
        } else {
            seq![ServicePlatform::Launchd, ServicePlatform::LaunchDaemon]
        }
    } else if os == "linux"@ {
        if privileged {
            seq![ServicePlatform::SystemdSystem, ServicePlatform::SystemdUser]
        } else {
            seq![ServicePlatform::SystemdUser, ServicePlatform::SystemdSystem]
        }
    } else if os == "windows"@ {
        seq![ServicePlatform::WindowsService]
    } else {
        Seq::empty()
    }
}

/// Platforms that are searched for an installed service, in order.
pub fn probed_platforms(os: &str, privileged: bool) -> (r: Vec<ServicePlatform>)
    ensures
        r@ == probed(os@, privileged),
{
    let r = if text::same(os, "macos") {
        if privileged {
            vec![ServicePlatform::LaunchDaemon, ServicePlatform::Launchd]
        } else {
            vec![ServicePlatform::Launchd, ServicePlatform::LaunchDaemon]
        }
    } else if text::same(os, "linux") {
        if privileged {
            vec![ServicePlatform::SystemdSystem, ServicePlatform::SystemdUser]
        } else {
            vec![ServicePlatform::SystemdUser, ServicePlatform::SystemdSystem]
        }
    } else if text::same(os, "windows") {
        vec![ServicePlatform::WindowsService]
    } else {
        Vec::new()
    };
    assert(r@ =~= probed(os@, privileged));
    r
}

/// What a process searches for an installed service does not depend on its
/// privilege, only the order does: the scope of a new install comes first.
pub proof fn every_scope_is_probed(os: Seq<char>, platform: ServicePlatform)
    ensures
        probed(os, true).contains(platform) <==> probed(os, false).contains(platform),
        forall|privileged: bool| #[trigger]
            candidates(os, privileged).len() > 0 ==> probed(os, privileged).len() > 0
                && probed(os, privileged)[0] == candidates(os, privileged)[0],
{
    assert forall|privileged: bool| #[trigger]
        probed(os, privileged).contains(platform) implies probed(os, !privileged).contains(
        platform,
    ) by {
        let all = probed(os, privileged);
        let other = probed(os, !privileged);
        let i = choose|i: int| 0 <= i < all.len() && all[i] == platform;
        assert(other[all.len() - 1 - i] == platform);
    }
    assert(probed(os, true).contains(platform) ==> probed(os, !true).contains(platform));
    assert(probed(os, false).contains(platform) ==> probed(os, !false).contains(platform));
}

pub open spec fn resolved_platform(os: Seq<char>, privileged: bool) -> Result<
    ServicePlatform,
    ErrorView,
> {
    let all = candidates(os, privileged);
    if all.len() > 0 {
        Ok(all[0])
    } else {
        Err(
            error::user_error(
                "hosted gateway service management is not supported on "@ + os,
            ),
        )
    }
}

/// A platform, or the error, by its view.
pub open spec fn platform_outcome(r: Result<ServicePlatform, CliError>) -> Result<
    ServicePlatform,
    ErrorView,
> {
    match r {
        Ok(p) => Ok(p),
        Err(e) => Err(e@),
    }
}

/// Selects the scope that a new install targets.
///
/// A privileged process installs a host-wide service. An unprivileged process
/// registers a user-scope service.
pub fn resolve_platform(os: &str, privileged: bool) -> (r: Result<ServicePlatform, CliError>)
    ensures
        platform_outcome(r) == resolved_platform(os@, privileged),
{
    let all = candidate_platforms(os, privileged);
    if all.len() > 0 {
        Ok(all[0])
    } else {
        let mut message = "hosted gateway service management is not supported on ".to_string();
        message.append(os);
        Err(CliError::user(message))
    }
}

// ---------------------------------------------------------------------------
// The host, as the service code reads it
// ---------------------------------------------------------------------------

/// Where the identifier of the invoking user comes from.
#[derive(Debug)]
pub enum UserId {
    /// The `UID` variable.
    Environment(String),
    /// What `id -u` printed.
    Command(String),
    /// Why `id -u` could not run.
    Unavailable(String),
}

/// What the service code reads of the machine.
#[derive(Debug)]
pub struct ServiceHost {
    pub os: String,
    pub privileged: bool,
    /// Character between the components of a path.
    pub separator: char,
    pub home: Option<String>,
    /// The working directory, or why it cannot be read.
    pub current_dir: Result<String, String>,
    /// The path of the running program, or why it cannot be read.
    pub current_exe: Result<String, String>,
    pub user_id: UserId,
    /// The canonical form of the paths that have one.
    pub canonical: EnvMap,
}

pub struct HostView {
    pub os: Seq<char>,
    pub privileged: bool,
    pub separator: char,
    pub home: Option<Seq<char>>,
    pub current_dir: Result<Seq<char>, Seq<char>>,
    pub current_exe: Result<Seq<char>, Seq<char>>,
    pub user_id: Result<Seq<char>, Seq<char>>,
    pub canonical: Seq<Pair>,
}

/// A text or the text of a failure.
pub open spec fn either(r: Result<String, String>) -> Result<Seq<char>, Seq<char>> {
    match r {
        Ok(s) => Ok(s@),
        Err(s) => Err(s@),
    }
}

impl View for UserId {
    type V = Result<Seq<char>, Seq<char>>;

    open spec fn view(&self) -> Result<Seq<char>, Seq<char>> {
        match self {
            UserId::Environment(s) => Ok(s@),
            UserId::Command(s) => Ok(text::trim(s@)),
            UserId::Unavailable(s) => Err(s@),
        }
    }
}

impl View for ServiceHost {
    type V = HostView;

    open spec fn view(&self) -> HostView {
        HostView {
            os: self.os@,
            privileged: self.privileged,
            separator: self.separator,
            home: text::opt(self.home),
            current_dir: either(self.current_dir),
            current_exe: either(self.current_exe),
            user_id: self.user_id@,
            canonical: self.canonical@,
        }
    }
}

/// A path with one more component.
pub open spec fn path_join(dir: Seq<char>, name: Seq<char>, separator: char) -> Seq<char> {
    if dir.len() == 0 {
        name
    } else if dir.last() == separator {
        dir + name
    } else {
        dir.push(separator) + name
    }
}

pub fn join_path(dir: &str, name: &str, separator: char) -> (r: String)
    ensures
        r@ == path_join(dir@, name@, separator),
{
    if dir.is_empty() {
        return name.to_string();
    }
    let chars = text::chars_of(dir);
    let mut out = dir.to_string();
    if chars[chars.len() - 1] != separator {
        out.push(separator);
    }
    out.append(name);
    out
}

// ---------------------------------------------------------------------------
// Names
// ---------------------------------------------------------------------------

pub open spec fn is_name_char(c: char) -> bool {
    ('a' <= c && c <= 'z') || ('A' <= c && c <= 'Z') || ('0' <= c && c <= '9') || c == '-' || c
        == '_'
}

pub open spec fn clean_char(c: char) -> char {
    if is_name_char(c) {
        c
    } else {
        '-'
    }
}

pub open spec fn clean(s: Seq<char>) -> Seq<char> {
    Seq::new(s.len(), |i: int| clean_char(s[i]))
}

/// A name of letters, digits, `-` and `_` that neither starts nor ends with `-`.
pub open spec fn sanitized(name: Seq<char>) -> Seq<char> {
    text::drop_end(text::drop_start(clean(text::trim(name)), '-'), '-')
}

pub fn sanitize_service_name(name: &str) -> (r: String)
    ensures
        r@ == sanitized(name@),
{
    let trimmed = text::trim_text(name);
    let chars = text::chars_of(trimmed.as_str());
    let mut cleaned = String::new();
    let mut i: usize = 0;
    while i < chars.len()
        invariant
            i <= chars.len(),
            chars@ == trimmed@,
            cleaned@ == clean(trimmed@).take(i as int),
        decreases chars.len() - i,
    {
        let c = chars[i];
        if ('a' <= c && c <= 'z') || ('A' <= c && c <= 'Z') || ('0' <= c && c <= '9') || c == '-'
            || c == '_' {
            cleaned.push(c);
        } else {
            cleaned.push('-');
        }
        i = i + 1;
        assert(cleaned@ =~= clean(trimmed@).take(i as int));
    }
    assert(cleaned@ =~= clean(trimmed@));
    text::drop_ends_text(cleaned.as_str(), '-')
}

proof fn drop_start_keeps(s: Seq<char>, c: char)
    ensures
        text::drop_start(s, c).len() > 0 ==> text::drop_start(s, c)[0] != c,
        forall|i: int|
            0 <= i < text::drop_start(s, c).len() ==> s.contains(
                #[trigger] text::drop_start(s, c)[i],
            ),
    decreases s.len(),
{
    if s.len() > 0 && s[0] == c {
        let t = s.drop_first();
        drop_start_keeps(t, c);
        assert forall|i: int| 0 <= i < text::drop_start(s, c).len() implies s.contains(
            #[trigger] text::drop_start(s, c)[i],
        ) by {
            let x = text::drop_start(t, c)[i];
            let j = choose|j: int| 0 <= j < t.len() && t[j] == x;
            assert(s[j + 1] == x);
        }
    } else {
        assert forall|i: int| 0 <= i < s.len() implies s.contains(#[trigger] s[i]) by {}
    }
}

proof fn drop_end_keeps(s: Seq<char>, c: char)
    ensures
        text::drop_end(s, c).len() <= s.len(),
        text::drop_end(s, c) == s.take(text::drop_end(s, c).len() as int),
        text::drop_end(s, c).len() > 0 ==> text::drop_end(s, c).last() != c,
    decreases s.len(),
{
    if s.len() > 0 && s.last() == c {
        drop_end_keeps(s.drop_last(), c);
        assert(s.drop_last().take(text::drop_end(s, c).len() as int) =~= s.take(
            text::drop_end(s, c).len() as int,
        ));
    } else {
        assert(s.take(s.len() as int) =~= s);
    }
}

/// A sanitized name holds letters, digits, `-` and `_` only, and has no `-` at
/// either end.
pub proof fn sanitized_is_safe(name: Seq<char>)
    ensures
        forall|i: int| 0 <= i < sanitized(name).len() ==> is_name_char(#[trigger] sanitized(name)[i]),
        sanitized(name).len() > 0 ==> sanitized(name)[0] != '-' && sanitized(name).last() != '-',
{
    let base = clean(text::trim(name));
    let front = text::drop_start(base, '-');
    drop_start_keeps(base, '-');
    drop_end_keeps(front, '-');
    assert forall|i: int| 0 <= i < sanitized(name).len() implies is_name_char(
        #[trigger] sanitized(name)[i],
    ) by {
        assert(sanitized(name)[i] == front[i]);
        assert(base.contains(front[i]));
        let j = choose|j: int| 0 <= j < base.len() && base[j] == front[i];
        assert(base[j] == clean_char(text::trim(name)[j]));
    }
}

/// Sanitizing a sanitized name changes nothing, so labels, unit names and paths
/// agree whether they start from the raw or from the safe name.
pub proof fn sanitized_twice(name: Seq<char>)
    ensures
        sanitized(sanitized(name)) == sanitized(name),
{
    let s = sanitized(name);
    sanitized_is_safe(name);
    if s.len() > 0 {
        assert(is_name_char(s[0]));
        assert(is_name_char(s[s.len() - 1]));
        assert(!text::is_space(s[0]));
        assert(!text::is_space(s.last()));
        assert(text::trim_start(s) == s);
        assert(text::trim(s) == s);
    } else {
        assert(text::trim(s) =~= s);
    }
    assert(clean(s) =~= s) by {
        assert forall|i: int| 0 <= i < s.len() implies clean_char(s[i]) == s[i] by {
            assert(is_name_char(sanitized(name)[i]));
        }
    }
}

pub open spec fn required_name(name: Seq<char>) -> Result<Seq<char>, ErrorView> {
    if sanitized(name).len() == 0 {
        Err(error::user_error("service name must contain at least one valid character"@))
    } else {
        Ok(sanitized(name))
    }
}

pub fn require_safe_service_name(name: &str) -> (r: Result<String, CliError>)
    ensures
        error::viewed(r) == required_name(name@),
{
    let safe_name = sanitize_service_name(name);
    if safe_name.as_str().is_empty() {
        return Err(
            CliError::user("service name must contain at least one valid character".to_string()),
        );
    }
    Ok(safe_name)
}

pub open spec fn label_of(name: Seq<char>) -> Seq<char> {
    "com.verdictan.gateway."@ + sanitized(name)
}

pub fn service_label(name: &str) -> (r: String)
    ensures
        r@ == label_of(name@),
{
    let suffix = sanitize_service_name(name);
    let mut label = "com.verdictan.gateway.".to_string();
    label.append(suffix.as_str());
    label
}

pub open spec fn unit_of(name: Seq<char>) -> Seq<char> {
    sanitized(name) + ".service"@
}

pub fn unit_name(name: &str) -> (r: String)
    ensures
        r@ == unit_of(name@),
{
    let mut unit = sanitize_service_name(name);
    unit.append(".service");
    unit
}

// ---------------------------------------------------------------------------
// Paths
// ---------------------------------------------------------------------------

pub open spec fn home_of(host: HostView) -> Result<Seq<char>, ErrorView> {
    match host.home {
        Some(home) => Ok(home),
        None => Err(error::user_error("HOME is not set"@)),
    }
}

pub fn home_dir(host: &ServiceHost) -> (r: Result<String, CliError>)
    ensures
        error::viewed(r) == home_of(host@),
{
    match &host.home {
        Some(home) => Ok(home.clone()),
        None => Err(CliError::user("HOME is not set".to_string())),
    }
}

/// A directory below the home directory.
pub open spec fn below_home(host: HostView, rest: Seq<char>) -> Result<Seq<char>, ErrorView> {
    match home_of(host) {
        Ok(home) => Ok(path_join(home, rest, host.separator)),
        Err(e) => Err(e),
    }
}

fn home_below(host: &ServiceHost, rest: &str) -> (r: Result<String, CliError>)
    ensures
        error::viewed(r) == below_home(host@, rest@),
{
    let home = home_dir(host)?;
    Ok(join_path(home.as_str(), rest, host.separator))
}

pub open spec fn logs_of(platform: ServicePlatform, host: HostView) -> Result<
    Seq<char>,
    ErrorView,
> {
    if platform == ServicePlatform::LaunchDaemon {
        Ok(SYSTEM_LOG_DIR@)
    } else {
        below_home(host, ".verdictan/logs"@)
    }
}

/// Directory of the service logs. A LaunchDaemon runs as root and must not write
/// into a login home.
pub fn logs_dir(platform: &ServicePlatform, host: &ServiceHost) -> (r: Result<String, CliError>)
    ensures
        error::viewed(r) == logs_of(*platform, host@),
{
    match platform {
        ServicePlatform::LaunchDaemon => Ok(SYSTEM_LOG_DIR.to_string()),
        _ => home_below(host, ".verdictan/logs"),
    }
}

/// The directory that holds the file which identifies a service.
pub open spec fn service_dir_of(platform: ServicePlatform, host: HostView) -> Result<
    Seq<char>,
    ErrorView,
> {
    match platform {
        ServicePlatform::Launchd => below_home(host, "Library/LaunchAgents"@),
        ServicePlatform::LaunchDaemon => Ok(LAUNCH_DAEMON_DIR@),
        ServicePlatform::SystemdUser => below_home(host, ".config/systemd/user"@),
        ServicePlatform::SystemdSystem => Ok(SYSTEMD_SYSTEM_UNIT_DIR@),
        ServicePlatform::WindowsService => Ok(WINDOWS_SERVICE_REGISTRY_ROOT@),
    }
}

pub fn service_directory(platform: &ServicePlatform, host: &ServiceHost) -> (r: Result<
    String,
    CliError,
>)
    ensures
        error::viewed(r) == service_dir_of(*platform, host@),
{
    match platform {
        ServicePlatform::Launchd => home_below(host, "Library/LaunchAgents"),
        ServicePlatform::LaunchDaemon => Ok(LAUNCH_DAEMON_DIR.to_string()),
        ServicePlatform::SystemdUser => home_below(host, ".config/systemd/user"),
        ServicePlatform::SystemdSystem => Ok(SYSTEMD_SYSTEM_UNIT_DIR.to_string()),
        // Windows keeps the registration in the registry, so the key stands in
        // for a unit file in operator output.
        ServicePlatform::WindowsService => Ok(WINDOWS_SERVICE_REGISTRY_ROOT.to_string()),
    }
}

pub open spec fn service_file_name(platform: ServicePlatform, safe_name: Seq<char>) -> Seq<char> {
    if launchd(platform) {
        label_of(safe_name) + ".plist"@
    } else if systemd(platform) {
        safe_name + ".service"@
    } else {
        safe_name
    }
}

pub open spec fn service_file_of(
    platform: ServicePlatform,
    name: Seq<char>,
    host: HostView,
) -> Result<Seq<char>, ErrorView> {
    match required_name(name) {
        Ok(safe_name) => match service_dir_of(platform, host) {
            Ok(dir) => Ok(path_join(dir, service_file_name(platform, safe_name), host.separator)),
            Err(e) => Err(e),
        },
        Err(e) => Err(e),
    }
}

/// Path of the file that identifies an installed service.
pub fn service_file_path(
    platform: &ServicePlatform,
    name: &str,
    host: &ServiceHost,
) -> (r: Result<String, CliError>)
    ensures
        error::viewed(r) == service_file_of(*platform, name@, host@),
{
    let safe_name = require_safe_service_name(name)?;
    let dir = service_directory(platform, host)?;
    let file = if platform.is_launchd() {
        let mut file = service_label(safe_name.as_str());
        file.append(".plist");
        file
    } else if platform.is_systemd() {
        let mut file = safe_name.clone();
        file.append(".service");
        file
    } else {
        safe_name
    };
    Ok(join_path(dir.as_str(), file.as_str(), host.separator))
}

/// The directory of the protected environment file.
pub open spec fn environment_dir_of(platform: ServicePlatform, host: HostView) -> Result<
    Seq<char>,
    ErrorView,
> {
    match platform {
        ServicePlatform::SystemdSystem => Ok(SYSTEM_CONFIG_DIR@),
        ServicePlatform::SystemdUser => below_home(host, ".config/verdictan"@),
        _ => Err(
            error::internal_error(display_name_of(platform) + " has no environment file"@),
        ),
    }
}

fn environment_directory(platform: &ServicePlatform, host: &ServiceHost) -> (r: Result<
    String,
    CliError,
>)
    ensures
        error::viewed(r) == environment_dir_of(*platform, host@),
{
    match platform {
        ServicePlatform::SystemdSystem => Ok(SYSTEM_CONFIG_DIR.to_string()),
        ServicePlatform::SystemdUser => home_below(host, ".config/verdictan"),
        other => {
            let mut message = other.display_name().to_string();
            message.append(" has no environment file");
            Err(CliError::internal(message))
        },
    }
}

pub open spec fn environment_file_of(
    platform: ServicePlatform,
    safe_name: Seq<char>,
    host: HostView,
) -> Result<Seq<char>, ErrorView> {
    match environment_dir_of(platform, host) {
        Ok(dir) => Ok(path_join(dir, safe_name + ".env"@, host.separator)),
        Err(e) => Err(e),
    }
}

/// Path of the protected `EnvironmentFile=` that holds the service
/// environment, including a live `VERDICTAN_API_TOKEN`.
pub fn environment_file_path(
    platform: &ServicePlatform,
    safe_name: &str,
    host: &ServiceHost,
) -> (r: Result<String, CliError>)
    ensures
        error::viewed(r) == environment_file_of(*platform, safe_name@, host@),
{
    let dir = environment_directory(platform, host)?;
    let mut file = safe_name.to_string();
    file.append(".env");
    Ok(join_path(dir.as_str(), file.as_str(), host.separator))
}

// ---------------------------------------------------------------------------
// Escapes
// ---------------------------------------------------------------------------

pub open spec fn xml_char(c: char) -> Seq<char> {
    if c == '&' {
        "&amp;"@
    } else if c == '<' {
        "&lt;"@
    } else if c == '>' {
        "&gt;"@
    } else if c == '"' {
        "&quot;"@
    } else {
        seq![c]
    }
}

pub open spec fn xml_escaped(s: Seq<char>) -> Seq<char>
    decreases s.len(),
{
    if s.len() == 0 {
        Seq::empty()
    } else {
        xml_escaped(s.drop_last()) + xml_char(s.last())
    }
}

pub fn xml_escape(input: &str) -> (r: String)
    ensures
        r@ == xml_escaped(input@),
{
    let chars = text::chars_of(input);
    let mut out = String::new();
    let mut i: usize = 0;
    while i < chars.len()
        invariant
            i <= chars.len(),
            chars@ == input@,
            out@ == xml_escaped(input@.take(i as int)),
        decreases chars.len() - i,
    {
        let c = chars[i];
        assert(input@.take(i as int + 1).drop_last() =~= input@.take(i as int));
        if c == '&' {
            out.append("&amp;");
        } else if c == '<' {
            out.append("&lt;");
        } else if c == '>' {
            out.append("&gt;");
        } else if c == '"' {
            out.append("&quot;");
        } else {
            let ghost before = out@;
            out.push(c);
            assert(out@ =~= before + seq![c]);
        }
        i = i + 1;
    }
    assert(input@.take(i as int) =~= input@);
    out
}

/// Escaped text holds no character that opens or closes markup or ends a quoted
/// value.
pub proof fn xml_escaped_is_plain(s: Seq<char>)
    ensures
        !xml_escaped(s).contains('<'),
        !xml_escaped(s).contains('>'),
        !xml_escaped(s).contains('"'),
    decreases s.len(),
{
    reveal_strlit("&amp;");
    reveal_strlit("&lt;");
    reveal_strlit("&gt;");
    reveal_strlit("&quot;");
    if s.len() > 0 {
        let front = xml_escaped(s.drop_last());
        let tail = xml_char(s.last());
        xml_escaped_is_plain(s.drop_last());
        assert forall|i: int| 0 <= i < xml_escaped(s).len() implies xml_escaped(s)[i] != '<'
            && xml_escaped(s)[i] != '>' && xml_escaped(s)[i] != '"' by {
            if i < front.len() {
                assert(front.contains(front[i]));
            } else {
                assert(xml_escaped(s)[i] == tail[i - front.len()]);
            }
        }
    }
}

pub open spec fn systemd_char(c: char) -> Seq<char> {
    if c == '\\' || c == '"' {
        seq!['\\', c]
    } else {
        seq![c]
    }
}

pub open spec fn systemd_escaped(s: Seq<char>) -> Seq<char>
    decreases s.len(),
{
    if s.len() == 0 {
        Seq::empty()
    } else {
        systemd_escaped(s.drop_last()) + systemd_char(s.last())
    }
}

pub fn systemd_escape(input: &str) -> (r: String)
    ensures
        r@ == systemd_escaped(input@),
{
    let chars = text::chars_of(input);
    let mut out = String::new();
    let mut i: usize = 0;
    while i < chars.len()
        invariant
            i <= chars.len(),
            chars@ == input@,
            out@ == systemd_escaped(input@.take(i as int)),
        decreases chars.len() - i,
    {
        let c = chars[i];
        let ghost before = out@;
        assert(input@.take(i as int + 1).drop_last() =~= input@.take(i as int));
        if c == '\\' || c == '"' {
            out.push('\\');
            out.push(c);
            assert(out@ =~= before + seq!['\\', c]);
        } else {
            out.push(c);
            assert(out@ =~= before + seq![c]);
        }
        i = i + 1;
    }
    assert(input@.take(i as int) =~= input@);
    out
}

/// Reads an escaped value back: a backslash stands for the character after it.
pub open spec fn systemd_unescaped(s: Seq<char>) -> Seq<char>
    decreases s.len(),
{
    if s.len() == 0 {
        Seq::empty()
    } else if s[0] == '\\' && s.len() > 1 {
        seq![s[1]] + systemd_unescaped(s.skip(2))
    } else {
        seq![s[0]] + systemd_unescaped(s.skip(1))
    }
}

proof fn systemd_escaped_cons(s: Seq<char>)
    requires
        s.len() > 0,
    ensures
        systemd_escaped(s) == systemd_char(s[0]) + systemd_escaped(s.drop_first()),
    decreases s.len(),
{
    if s.len() == 1 {
        assert(s.drop_last() =~= Seq::<char>::empty());
        assert(s.drop_first() =~= Seq::<char>::empty());
        assert(systemd_escaped(s) =~= systemd_char(s[0]) + systemd_escaped(s.drop_first()));
    } else {
        systemd_escaped_cons(s.drop_last());
        assert(s.drop_first().drop_last() =~= s.drop_last().drop_first());
        assert(systemd_escaped(s) =~= systemd_char(s[0]) + systemd_escaped(s.drop_first()));
    }
}

/// A value survives the quoting of a unit file: unescaping gives it back.
pub proof fn systemd_escape_round_trip(s: Seq<char>)
    ensures
        systemd_unescaped(systemd_escaped(s)) == s,
    decreases s.len(),
{
    if s.len() > 0 {
        systemd_escaped_cons(s);
        systemd_escape_round_trip(s.drop_first());
        let e = systemd_escaped(s);
        let rest = systemd_escaped(s.drop_first());
        if s[0] == '\\' || s[0] == '"' {
            assert(e.skip(2) =~= rest);
        } else {
            assert(e.skip(1) =~= rest);
        }
        assert(seq![s[0]] + s.drop_first() =~= s);
    }
}

pub open spec fn systemd_quoted(s: Seq<char>) -> Seq<char> {
    "\""@ + systemd_escaped(s) + "\""@
}

pub fn systemd_quote(input: &str) -> (r: String)
    ensures
        r@ == systemd_quoted(input@),
{
    let mut out = "\"".to_string();
    let escaped = systemd_escape(input);
    out.append(escaped.as_str());
    out.append("\"");
    out
}

/// Every quotation mark with a backslash before it.
pub open spec fn windows_escaped(s: Seq<char>) -> Seq<char>
    decreases s.len(),
{
    if s.len() == 0 {
        Seq::empty()
    } else if s.last() == '"' {
        windows_escaped(s.drop_last()) + seq!['\\', '"']
    } else {
        windows_escaped(s.drop_last()) + seq![s.last()]
    }
}

pub open spec fn windows_quoted(s: Seq<char>) -> Seq<char> {
    if s.contains(' ') || s.contains('\t') {
        "\""@ + windows_escaped(s) + "\""@
    } else {
        s
    }
}

pub fn windows_quote(value: &str) -> (r: String)
    ensures
        r@ == windows_quoted(value@),
{
    let chars = text::chars_of(value);
    let mut spaced = false;
    let mut out = String::new();
    let mut i: usize = 0;
    while i < chars.len()
        invariant
            i <= chars.len(),
            chars@ == value@,
            spaced == exists|j: int|
                0 <= j < i && (#[trigger] value@[j] == ' ' || value@[j] == '\t'),
            out@ == windows_escaped(value@.take(i as int)),
        decreases chars.len() - i,
    {
        let c = chars[i];
        let ghost before = out@;
        assert(value@.take(i as int + 1).drop_last() =~= value@.take(i as int));
        if c == ' ' || c == '\t' {
            assert(value@[i as int] == ' ' || value@[i as int] == '\t');
            spaced = true;
        }
        if c == '"' {
            out.push('\\');
            out.push('"');
            assert(out@ =~= before + seq!['\\', '"']);
        } else {
            out.push(c);
            assert(out@ =~= before + seq![c]);
        }
        i = i + 1;
    }
    assert(value@.take(i as int) =~= value@);
    if spaced {
        let mut quoted = "\"".to_string();
        quoted.append(out.as_str());
        quoted.append("\"");
        quoted
    } else {
        value.to_string()
    }
}

// ---------------------------------------------------------------------------
// Environment of the service
// ---------------------------------------------------------------------------

/// What an install needs to know. Paths are canonical.
#[derive(Debug)]
pub struct GatewayServiceInstallSpec {
    pub name: String,
    pub listen: String,
    pub upstream: Option<String>,
    pub policy_configs: Vec<String>,
    pub fail_mode: String,
    pub max_concurrency: Option<usize>,
    pub connected_mode: bool,
    pub api_token: Option<String>,
    pub agent_id: Option<String>,
    pub env: EnvMap,
    pub command_override: Option<Vec<String>>,
    pub binary_path_override: Option<String>,
}

pub struct InstallSpecView {
    pub name: Seq<char>,
    pub listen: Seq<char>,
    pub upstream: Option<Seq<char>>,
    pub policy_configs: Seq<Seq<char>>,
    pub fail_mode: Seq<char>,
    pub max_concurrency: Option<usize>,
    pub connected_mode: bool,
    pub api_token: Option<Seq<char>>,
    pub agent_id: Option<Seq<char>>,
    pub env: Seq<Pair>,
    pub command_override: Option<Seq<Seq<char>>>,
    pub binary_path_override: Option<Seq<char>>,
}

impl View for GatewayServiceInstallSpec {
    type V = InstallSpecView;

    open spec fn view(&self) -> InstallSpecView {
        InstallSpecView {
            name: self.name@,
            listen: self.listen@,
            upstream: text::opt(self.upstream),
            policy_configs: text::texts(self.policy_configs@),
            fail_mode: self.fail_mode@,
            max_concurrency: self.max_concurrency,
            connected_mode: self.connected_mode,
            api_token: text::opt(self.api_token),
            agent_id: text::opt(self.agent_id),
            env: self.env@,
            command_override: match self.command_override {
                Some(args) => Some(text::texts(args@)),
                None => None,
            },
            binary_path_override: text::opt(self.binary_path_override),
        }
    }
}

/// The variables with one more, where it is given and not blank.
pub open spec fn with_given(env: Seq<Pair>, key: Seq<char>, value: Option<Seq<char>>) -> Seq<Pair> {
    match value {
        Some(v) => if text::is_blank(v) {
            env
        } else {
            env_map::with_pair(env, key, v)
        },
        None => env,
    }
}

/// The variables of the service: those given, the agent and the token.
pub open spec fn merged_env(spec: InstallSpecView) -> Seq<Pair> {
    with_given(
        with_given(spec.env, "VERDICTAN_AGENT_ID"@, spec.agent_id),
        "VERDICTAN_API_TOKEN"@,
        spec.api_token,
    )
}

pub fn merged_service_env(spec: &GatewayServiceInstallSpec) -> (r: EnvMap)
    ensures
        r@ == merged_env(spec@),
{
    let mut env = spec.env.copy();
    if let Some(agent_id) = &spec.agent_id {
        if !text::is_blank_text(agent_id.as_str()) {
            env.insert("VERDICTAN_AGENT_ID".to_string(), agent_id.clone());
        }
    }
    if let Some(api_token) = &spec.api_token {
        if !text::is_blank_text(api_token.as_str()) {
            env.insert("VERDICTAN_API_TOKEN".to_string(), api_token.clone());
        }
    }
    env
}

/// True of the name of a variable that holds secret material.
///
/// The match is deliberately wide. A false positive only narrows a file mode,
/// and a false negative leaves a live credential world readable.
pub open spec fn secret_key(key: Seq<char>) -> bool {
    let upper = text::upper(key);
    ||| text::contains(upper, "TOKEN"@)
    ||| text::contains(upper, "KEY"@)
    ||| text::contains(upper, "SECRET"@)
    ||| text::contains(upper, "PASSWORD"@)
    ||| text::contains(upper, "CREDENTIAL"@)
    ||| text::contains(upper, "COOKIE"@)
}

pub fn is_secret_env_key(key: &str) -> (r: bool)
    ensures
        r == secret_key(key@),
{
    let upper = text::to_upper(key);
    let upper = upper.as_str();
    text::contains_text(upper, "TOKEN") || text::contains_text(upper, "KEY") || text::contains_text(
        upper,
        "SECRET",
    ) || text::contains_text(upper, "PASSWORD") || text::contains_text(upper, "CREDENTIAL")
        || text::contains_text(upper, "COOKIE")
}

pub open spec fn secret_pair(pair: Pair) -> bool {
    secret_key(pair.0) && !text::is_blank(pair.1)
}

pub open spec fn carries_secret(env: Seq<Pair>) -> bool {
    exists|i: int| 0 <= i < env.len() && secret_pair(#[trigger] env[i])
}

/// Reports whether a rendered service file would embed secret material.
pub fn env_carries_secret_material(env: &EnvMap) -> (r: bool)
    ensures
        r == carries_secret(env@),
{
    let mut i: usize = 0;
    while i < env.len()
        invariant
            i <= env@.len(),
            forall|j: int| 0 <= j < i ==> !secret_pair(#[trigger] env@[j]),
        decreases env@.len() - i,
    {
        if is_secret_env_key(env.key_at(i)) && !text::is_blank_text(env.value_at(i)) {
            assert(secret_pair(env@[i as int]));
            return true;
        }
        i = i + 1;
    }
    false
}

pub open spec fn control_char(c: char) -> bool {
    1 <= c as u32 <= 0x1f || c as u32 == 0x7f
}

pub open spec fn has_control(s: Seq<char>) -> bool {
    exists|i: int| 0 <= i < s.len() && control_char(#[trigger] s[i])
}

pub fn contains_control_characters(value: &str) -> (r: bool)
    ensures
        r == has_control(value@),
{
    let chars = text::chars_of(value);
    let mut i: usize = 0;
    while i < chars.len()
        invariant
            i <= chars.len(),
            chars@ == value@,
            forall|j: int| 0 <= j < i ==> !control_char(#[trigger] value@[j]),
        decreases chars.len() - i,
    {
        let code: u32 = chars[i] as u32;
        if (1 <= code && code <= 0x1f) || code == 0x7f {
            assert(control_char(value@[i as int]));
            return true;
        }
        i = i + 1;
    }
    false
}

/// Why a service manager refuses a variable.
pub open spec fn control_error(name: Seq<char>, manager: Seq<char>) -> ErrorView {
    error::user_error(
        name + " contains unsupported control characters for "@ + manager
            + " service installation"@,
    )
}

pub open spec fn value_allowed(name: Seq<char>, value: Seq<char>, manager: Seq<char>) -> Result<
    (),
    ErrorView,
> {
    if has_control(value) {
        Err(control_error(name, manager))
    } else {
        Ok(())
    }
}

fn validate_env_value(name: &str, value: &str, manager: &str) -> (r: Result<(), CliError>)
    ensures
        error::done(r) == value_allowed(name@, value@, manager@),
{
    if contains_control_characters(value) {
        let mut message = name.to_string();
        message.append(" contains unsupported control characters for ");
        message.append(manager);
        message.append(" service installation");
        return Err(CliError::user(message));
    }
    Ok(())
}

pub fn validate_launchd_env_value(name: &str, value: &str) -> (r: Result<(), CliError>)
    ensures
        error::done(r) == value_allowed(name@, value@, "launchd"@),
{
    validate_env_value(name, value, "launchd")
}

pub fn validate_systemd_env_value(name: &str, value: &str) -> (r: Result<(), CliError>)
    ensures
        error::done(r) == value_allowed(name@, value@, "systemd"@),
{
    validate_env_value(name, value, "systemd")
}

/// A control character would split one `REG_MULTI_SZ` entry into two and inject
/// an extra assignment, so the render refuses one.
pub fn validate_windows_env_value(name: &str, value: &str) -> (r: Result<(), CliError>)
    ensures
        error::done(r) == value_allowed(name@, value@, "windows"@),
{
    validate_env_value(name, value, "windows")
}

/// The first variable that a service manager refuses decides.
pub open spec fn env_allowed(env: Seq<Pair>, manager: Seq<char>) -> Result<(), ErrorView>
    decreases env.len(),
{
    if env.len() == 0 {
        Ok(())
    } else {
        match env_allowed(env.drop_last(), manager) {
            Ok(_) => value_allowed(env.last().0, env.last().1, manager),
            Err(e) => Err(e),
        }
    }
}

/// Variables are accepted exactly where no value holds a control character.
pub proof fn env_allowed_iff(env: Seq<Pair>, manager: Seq<char>)
    ensures
        env_allowed(env, manager) is Ok <==> forall|i: int|
            0 <= i < env.len() ==> !has_control((#[trigger] env[i]).1),
    decreases env.len(),
{
    if env.len() > 0 {
        let front = env.drop_last();
        env_allowed_iff(front, manager);
        if env_allowed(env, manager) is Ok {
            assert forall|i: int| 0 <= i < env.len() implies !has_control((#[trigger] env[i]).1) by {
                if i < front.len() {
                    assert(front[i] == env[i]);
                }
            }
        } else if env_allowed(front, manager) is Err {
            let i = choose|i: int| 0 <= i < front.len() && has_control((#[trigger] front[i]).1);
            assert(has_control(env[i].1));
        } else {
            assert(has_control(env[env.len() - 1].1));
        }
    }
}

proof fn env_allowed_prefix(env: Seq<Pair>, manager: Seq<char>, i: int)
    requires
        0 <= i <= env.len(),
        env_allowed(env.take(i), manager) is Err,
    ensures
        env_allowed(env, manager) == env_allowed(env.take(i), manager),
    decreases env.len() - i,
{
    if i == env.len() {
        assert(env.take(i) =~= env);
    } else {
        assert(env.take(i + 1).drop_last() =~= env.take(i));
        env_allowed_prefix(env, manager, i + 1);
    }
}

fn validate_env(env: &EnvMap, manager: &str) -> (r: Result<(), CliError>)
    ensures
        error::done(r) == env_allowed(env@, manager@),
{
    let mut i: usize = 0;
    while i < env.len()
        invariant
            i <= env@.len(),
            env_allowed(env@.take(i as int), manager@) is Ok,
        decreases env@.len() - i,
    {
        assert(env@.take(i as int + 1).drop_last() =~= env@.take(i as int));
        match validate_env_value(env.key_at(i), env.value_at(i), manager) {
            Ok(_) => {},
            Err(e) => {
                proof {
                    env_allowed_prefix(env@, manager@, i as int + 1);
                }
                return Err(e);
            },
        }
        i = i + 1;
    }
    assert(env@.take(i as int) =~= env@);
    Ok(())
}

pub fn validate_launchd_environment_map(env: &EnvMap) -> (r: Result<(), CliError>)
    ensures
        error::done(r) == env_allowed(env@, "launchd"@),
{
    validate_env(env, "launchd")
}

/// One line of the environment file for each variable.
pub open spec fn environment_lines(env: Seq<Pair>) -> Seq<char>
    decreases env.len(),
{
    if env.len() == 0 {
        Seq::empty()
    } else {
        environment_lines(env.drop_last()) + (env.last().0 + "=\""@ + systemd_escaped(env.last().1)
            + "\"\n"@)
    }
}

pub open spec fn environment_file_text(env: Seq<Pair>) -> Result<Seq<char>, ErrorView> {
    match env_allowed(env, "systemd"@) {
        Ok(_) => Ok(environment_lines(env)),
        Err(e) => Err(e),
    }
}

/// Renders a systemd `EnvironmentFile=` body.
///
/// A control character in a value would inject an extra assignment, so the
/// render refuses one instead of escaping it.
pub fn render_systemd_environment_file(env: &EnvMap) -> (r: Result<String, CliError>)
    ensures
        error::viewed(r) == environment_file_text(env@),
{
    let mut body = String::new();
    let mut i: usize = 0;
    while i < env.len()
        invariant
            i <= env@.len(),
            env_allowed(env@.take(i as int), "systemd"@) is Ok,
            body@ == environment_lines(env@.take(i as int)),
        decreases env@.len() - i,
    {
        assert(env@.take(i as int + 1).drop_last() =~= env@.take(i as int));
        match validate_systemd_env_value(env.key_at(i), env.value_at(i)) {
            Ok(_) => {},
            Err(e) => {
                proof {
                    env_allowed_prefix(env@, "systemd"@, i as int + 1);
                }
                return Err(e);
            },
        }
        let mut line = env.key_at(i).to_string();
        line.append("=\"");
        let escaped = systemd_escape(env.value_at(i));
        line.append(escaped.as_str());
        line.append("\"\n");
        body.append(line.as_str());
        i = i + 1;
    }
    assert(env@.take(i as int) =~= env@);
    Ok(body)
}

/// How often a character occurs.
pub open spec fn occurrences(s: Seq<char>, c: char) -> nat
    decreases s.len(),
{
    if s.len() == 0 {
        0
    } else {
        occurrences(s.drop_last(), c) + (if s.last() == c {
            1nat
        } else {
            0nat
        })
    }
}

proof fn occurrences_concat(a: Seq<char>, b: Seq<char>, c: char)
    ensures
        occurrences(a + b, c) == occurrences(a, c) + occurrences(b, c),
    decreases b.len(),
{
    if b.len() == 0 {
        assert(a + b =~= a);
    } else {
        assert((a + b).drop_last() =~= a + b.drop_last());
        occurrences_concat(a, b.drop_last(), c);
    }
}

proof fn occurrences_none(s: Seq<char>, c: char)
    requires
        !s.contains(c),
    ensures
        occurrences(s, c) == 0,
    decreases s.len(),
{
    if s.len() > 0 {
        assert(s.contains(s.last()));
        assert forall|i: int| 0 <= i < s.drop_last().len() implies s.drop_last()[i] != c by {
            assert(s.contains(s[i]));
        }
        occurrences_none(s.drop_last(), c);
    }
}

proof fn systemd_escaped_newlines(s: Seq<char>)
    requires
        !has_control(s),
    ensures
        occurrences(systemd_escaped(s), '\n') == 0,
    decreases s.len(),
{
    if s.len() > 0 {
        let front = s.drop_last();
        assert(!has_control(front)) by {
            if has_control(front) {
                let i = choose|i: int| 0 <= i < front.len() && control_char(#[trigger] front[i]);
                assert(control_char(s[i]));
            }
        }
        systemd_escaped_newlines(front);
        assert(!control_char(s[s.len() - 1]));
        occurrences_none(systemd_char(s.last()), '\n');
        occurrences_concat(systemd_escaped(front), systemd_char(s.last()), '\n');
    }
}

/// No value can inject an assignment: where no name holds a newline, the body of
/// the environment file has exactly one line for each variable.
pub proof fn environment_file_one_line_each(env: Seq<Pair>)
    requires
        environment_file_text(env) is Ok,
        forall|i: int| 0 <= i < env.len() ==> !(#[trigger] env[i]).0.contains('\n'),
    ensures
        occurrences(environment_lines(env), '\n') == env.len(),
    decreases env.len(),
{
    reveal_strlit("=\"");
    reveal_strlit("\"\n");
    if env.len() > 0 {
        let front = env.drop_last();
        env_allowed_iff(env, "systemd"@);
        env_allowed_iff(front, "systemd"@);
        assert forall|i: int| 0 <= i < front.len() implies !(#[trigger] front[i]).0.contains('\n') by {
            assert(front[i] == env[i]);
        }
        environment_file_one_line_each(front);
        let last = env[env.len() - 1];
        systemd_escaped_newlines(last.1);
        occurrences_none(last.0, '\n');
        occurrences_none("=\""@, '\n');
        let a = last.0 + "=\""@;
        let b = a + systemd_escaped(last.1);
        let c = b + "\"\n"@;
        occurrences_concat(last.0, "=\""@, '\n');
        occurrences_concat(a, systemd_escaped(last.1), '\n');
        occurrences_concat(b, "\"\n"@, '\n');
        assert(occurrences("\"\n"@, '\n') == 1) by {
            assert("\"\n"@.drop_last() =~= seq!['"']);
            assert(seq!['"'].drop_last() =~= Seq::<char>::empty());
            assert(occurrences(Seq::<char>::empty(), '\n') == 0);
            assert(occurrences(seq!['"'], '\n') == 0);
        }
        occurrences_concat(environment_lines(front), c, '\n');
    }
}

/// The assignments of the registry value.
pub open spec fn assignments(env: Seq<Pair>) -> Seq<Seq<char>> {
    Seq::new(env.len(), |i: int| env[i].0 + "="@ + env[i].1)
}

pub open spec fn windows_block(env: Seq<Pair>) -> Result<Seq<char>, ErrorView> {
    match env_allowed(env, "windows"@) {
        Ok(_) => Ok(text::join(assignments(env), "\n"@)),
        Err(e) => Err(e),
    }
}

/// Renders the `REG_MULTI_SZ` entries as one newline-separated block.
///
/// `validate_windows_env_value` refuses a control character, so a newline can
/// only come from this function and the split stays unambiguous.
pub fn render_windows_service_environment_block(env: &EnvMap) -> (r: Result<String, CliError>)
    ensures
        error::viewed(r) == windows_block(env@),
{
    let mut lines: Vec<String> = Vec::new();
    let mut i: usize = 0;
    while i < env.len()
        invariant
            i <= env@.len(),
            env_allowed(env@.take(i as int), "windows"@) is Ok,
            text::texts(lines@) == assignments(env@).take(i as int),
        decreases env@.len() - i,
    {
        assert(env@.take(i as int + 1).drop_last() =~= env@.take(i as int));
        match validate_windows_env_value(env.key_at(i), env.value_at(i)) {
            Ok(_) => {},
            Err(e) => {
                proof {
                    env_allowed_prefix(env@, "windows"@, i as int + 1);
                }
                return Err(e);
            },
        }
        let mut line = env.key_at(i).to_string();
        line.append("=");
        line.append(env.value_at(i));
        proof {
            text::texts_push(lines@, line);
        }
        lines.push(line);
        i = i + 1;
        assert(text::texts(lines@) =~= assignments(env@).take(i as int));
    }
    assert(env@.take(i as int) =~= env@);
    assert(assignments(env@).take(i as int) =~= assignments(env@));
    Ok(text::join_texts(&lines, "\n"))
}

/// No value can inject an entry: where no name holds a newline, splitting the block
/// at its newlines gives back one assignment for each variable.
pub proof fn windows_block_splits_back(env: Seq<Pair>)
    requires
        windows_block(env) is Ok,
        env.len() > 0,
        forall|i: int| 0 <= i < env.len() ==> !(#[trigger] env[i]).0.contains('\n'),
    ensures
        text::split(windows_block(env)->Ok_0, '\n') == assignments(env),
{
    reveal_strlit("\n");
    reveal_strlit("=");
    let lines = assignments(env);
    env_allowed_iff(env, "windows"@);
    assert forall|i: int| 0 <= i < lines.len() implies !(#[trigger] lines[i]).contains('\n') by {
        let name = env[i].0;
        let value = env[i].1;
        assert(!has_control(value));
        if lines[i].contains('\n') {
            let k = choose|k: int| 0 <= k < lines[i].len() && lines[i][k] == '\n';
            if k < name.len() {
                assert(name[k] == '\n');
            } else if k > name.len() {
                assert(control_char(value[k - name.len() - 1]));
            }
        }
    }
    assert("\n"@ =~= seq!['\n']);
    text::split_undoes_join(lines, '\n');
}

// ---------------------------------------------------------------------------
// Unit files
// ---------------------------------------------------------------------------

/// The canonical form of a path; the path itself where it has none.
pub open spec fn canonical_path(host: HostView, path: Seq<char>) -> Seq<char> {
    text::or_else(env_map::lookup(host.canonical, path), path)
}

pub fn canonicalize_lossy(path: &str, host: &ServiceHost) -> (r: String)
    ensures
        r@ == canonical_path(host@, path@),
{
    match host.canonical.get(path) {
        Some(canonical) => canonical.to_string(),
        None => path.to_string(),
    }
}

pub open spec fn binary_of(spec: InstallSpecView, host: HostView) -> Result<Seq<char>, ErrorView> {
    match spec.binary_path_override {
        Some(path) => Ok(canonical_path(host, path)),
        None => match host.current_exe {
            Ok(exe) => Ok(canonical_path(host, exe)),
            Err(e) => Err(
                error::internal_error("failed to resolve current executable: "@ + e),
            ),
        },
    }
}

pub fn service_binary_path(spec: &GatewayServiceInstallSpec, host: &ServiceHost) -> (r: Result<
    String,
    CliError,
>)
    ensures
        error::viewed(r) == binary_of(spec@, host@),
{
    if let Some(path) = &spec.binary_path_override {
        return Ok(canonicalize_lossy(path.as_str(), host));
    }
    match &host.current_exe {
        Ok(exe) => Ok(canonicalize_lossy(exe.as_str(), host)),
        Err(e) => {
            let mut message = "failed to resolve current executable: ".to_string();
            message.append(e.as_str());
            Err(CliError::internal(message))
        },
    }
}

pub open spec fn working_dir_of(platform: ServicePlatform, host: HostView) -> Result<
    Seq<char>,
    ErrorView,
> {
    if scope_of(platform) == ServiceScope::System {
        Ok("/"@)
    } else {
        match host.current_dir {
            Ok(dir) => Ok(dir),
            Err(e) => Err(error::internal_error("failed to resolve current directory: "@ + e)),
        }
    }
}

/// Working directory of the service process.
///
/// A user-scope service keeps the directory that the operator installed from.
/// A system-scope service uses the root directory, because `ProtectHome` and
/// `ProtectSystem` deny a login directory and because the installer's working
/// directory must not become part of a host-wide unit.
pub fn service_working_directory(platform: &ServicePlatform, host: &ServiceHost) -> (r: Result<
    String,
    CliError,
>)
    ensures
        error::viewed(r) == working_dir_of(*platform, host@),
{
    if platform.scope() == ServiceScope::System {
        return Ok("/".to_string());
    }
    match &host.current_dir {
        Ok(dir) => Ok(dir.clone()),
        Err(e) => {
            let mut message = "failed to resolve current directory: ".to_string();
            message.append(e.as_str());
            Err(CliError::internal(message))
        },
    }
}

/// `--policy-config` and the path, for each policy.
pub open spec fn policy_args(paths: Seq<Seq<char>>) -> Seq<Seq<char>>
    decreases paths.len(),
{
    if paths.len() == 0 {
        Seq::empty()
    } else {
        policy_args(paths.drop_last()) + seq!["--policy-config"@, paths.last()]
    }
}

pub open spec fn canonical_paths(host: HostView, paths: Seq<Seq<char>>) -> Seq<Seq<char>> {
    Seq::new(paths.len(), |i: int| canonical_path(host, paths[i]))
}

/// The arguments of the service process.
pub open spec fn run_args(spec: InstallSpecView, host: HostView) -> Seq<Seq<char>> {
    match spec.command_override {
        Some(args) => args,
        None => {
            let base = seq![
                "gateway"@,
                "run"@,
                "--listen"@,
                spec.listen,
                "--fail-mode"@,
                spec.fail_mode,
            ];
            let upstream = if spec.connected_mode {
                Seq::empty()
            } else {
                seq!["--upstream"@, text::or_else(spec.upstream, DEFAULT_HOSTED_UPSTREAM_URL@)]
            };
            let limit = match spec.max_concurrency {
                Some(n) => seq!["--max-concurrency"@, text::decimal(n as nat)],
                None => Seq::empty(),
            };
            base + upstream + policy_args(canonical_paths(host, spec.policy_configs)) + limit
        },
    }
}

pub fn command_args(spec: &GatewayServiceInstallSpec, host: &ServiceHost) -> (r: Vec<String>)
    ensures
        text::texts(r@) == run_args(spec@, host@),
{
    if let Some(args) = &spec.command_override {
        return text::copy_texts(args);
    }
    let mut args = vec![
        "gateway".to_string(),
        "run".to_string(),
        "--listen".to_string(),
        spec.listen.clone(),
        "--fail-mode".to_string(),
        spec.fail_mode.clone(),
    ];
    let ghost base = seq![
        "gateway"@,
        "run"@,
        "--listen"@,
        spec.listen@,
        "--fail-mode"@,
        spec.fail_mode@,
    ];
    assert(text::texts(args@) =~= base);
    let ghost mut upstream_args: Seq<Seq<char>> = Seq::empty();
    if !spec.connected_mode {
        let upstream = text::unwrap_text(&spec.upstream, DEFAULT_HOSTED_UPSTREAM_URL);
        proof {
            upstream_args = seq!["--upstream"@, upstream@];
        }
        args.push("--upstream".to_string());
        args.push(upstream);
    }
    assert(text::texts(args@) =~= base + upstream_args);
    let mut i: usize = 0;
    let ghost all = canonical_paths(host@, text::texts(spec.policy_configs@));
    while i < spec.policy_configs.len()
        invariant
            i <= spec.policy_configs.len(),
            all == canonical_paths(host@, text::texts(spec.policy_configs@)),
            text::texts(args@) == base + upstream_args + policy_args(all.take(i as int)),
        decreases spec.policy_configs.len() - i,
    {
        let ghost before = text::texts(args@);
        args.push("--policy-config".to_string());
        args.push(canonicalize_lossy(spec.policy_configs[i].as_str(), host));
        proof {
            assert(all.take(i as int + 1).drop_last() =~= all.take(i as int));
            assert(text::texts(args@) =~= before + seq!["--policy-config"@, all[i as int]]);
            assert(text::texts(args@) =~= base + upstream_args + policy_args(
                all.take(i as int + 1),
            ));
        }
        i = i + 1;
    }
    assert(all.take(i as int) =~= all);
    let ghost before = text::texts(args@);
    if let Some(max_concurrency) = spec.max_concurrency {
        args.push("--max-concurrency".to_string());
        args.push(text::number_text(max_concurrency as u64));
        assert(text::texts(args@) =~= before + seq![
            "--max-concurrency"@,
            text::decimal(max_concurrency as nat),
        ]);
    } else {
        assert(text::texts(args@) =~= before + Seq::<Seq<char>>::empty());
    }
    args
}

/// `    <string>..</string>` for each text.
pub open spec fn plist_strings(values: Seq<Seq<char>>) -> Seq<char>
    decreases values.len(),
{
    if values.len() == 0 {
        Seq::empty()
    } else {
        plist_strings(values.drop_last()) + ("    <string>"@ + xml_escaped(values.last())
            + "</string>\n"@)
    }
}

/// A key and a string for each variable.
pub open spec fn plist_pairs(env: Seq<Pair>) -> Seq<char>
    decreases env.len(),
{
    if env.len() == 0 {
        Seq::empty()
    } else {
        plist_pairs(env.drop_last()) + ("    <key>"@ + xml_escaped(env.last().0)
            + "</key>\n    <string>"@ + xml_escaped(env.last().1) + "</string>\n"@)
    }
}

/// A key of the property list with a string as its value.
pub open spec fn plist_entry(key: Seq<char>, value: Seq<char>) -> Seq<char> {
    "  <key>"@ + key + "</key>\n  <string>"@ + xml_escaped(value) + "</string>\n"@
}

pub open spec fn plist_environment(env: Seq<Pair>) -> Seq<char> {
    if env.len() == 0 {
        Seq::empty()
    } else {
        "  <key>EnvironmentVariables</key>\n  <dict>\n"@ + plist_pairs(env) + "  </dict>\n"@
    }
}

pub open spec fn plist_head() -> Seq<char> {
    "<?xml version=\"1.0\" encoding=\"UTF-8\"?>\n<!DOCTYPE plist PUBLIC \"-//Apple//DTD PLIST 1.0//EN\" \"http://www.apple.com/DTDs/PropertyList-1.0.dtd\">\n<plist version=\"1.0\">\n<dict>\n"@
}

/// The property list of a service, from what it is made of.
pub open spec fn plist_body(
    label: Seq<char>,
    program: Seq<char>,
    args: Seq<Seq<char>>,
    working_dir: Seq<char>,
    stdout_path: Seq<char>,
    stderr_path: Seq<char>,
    env: Seq<Pair>,
) -> Seq<char> {
    plist_head() + plist_entry("Label"@, label)
        + "  <key>ProgramArguments</key>\n  <array>\n"@ + plist_strings(seq![program] + args)
        + "  </array>\n"@ + plist_entry("WorkingDirectory"@, working_dir)
        + "  <key>KeepAlive</key>\n  <true/>\n"@ + "  <key>RunAtLoad</key>\n  <true/>\n"@
        + plist_entry("StandardOutPath"@, stdout_path) + plist_entry(
        "StandardErrorPath"@,
        stderr_path,
    ) + plist_environment(env) + "</dict>\n</plist>\n"@
}

pub open spec fn log_file(logs: Seq<char>, name: Seq<char>, suffix: Seq<char>, host: HostView) -> Seq<
    char,
> {
    path_join(logs, sanitized(name) + suffix, host.separator)
}

pub open spec fn plist_text(
    spec: InstallSpecView,
    platform: ServicePlatform,
    host: HostView,
) -> Result<Seq<char>, ErrorView> {
    match binary_of(spec, host) {
        Err(e) => Err(e),
        Ok(exe) => match working_dir_of(platform, host) {
            Err(e) => Err(e),
            Ok(dir) => match logs_of(platform, host) {
                Err(e) => Err(e),
                Ok(logs) => match env_allowed(merged_env(spec), "launchd"@) {
                    Err(e) => Err(e),
                    Ok(_) => Ok(
                        plist_body(
                            label_of(spec.name),
                            exe,
                            run_args(spec, host),
                            dir,
                            log_file(logs, spec.name, ".out.log"@, host),
                            log_file(logs, spec.name, ".err.log"@, host),
                            merged_env(spec),
                        ),
                    ),
                },
            },
        },
    }
}

fn push_plist_entry(plist: &mut String, key: &str, value: &str)
    ensures
        final(plist)@ == old(plist)@ + plist_entry(key@, value@),
{
    let mut entry = "  <key>".to_string();
    entry.append(key);
    entry.append("</key>\n  <string>");
    let escaped = xml_escape(value);
    entry.append(escaped.as_str());
    entry.append("</string>\n");
    plist.append(entry.as_str());
}

fn render_plist_strings(values: &Vec<String>) -> (r: String)
    ensures
        r@ == plist_strings(text::texts(values@)),
{
    let mut out = String::new();
    let mut i: usize = 0;
    let ghost all = text::texts(values@);
    while i < values.len()
        invariant
            i <= values.len(),
            all == text::texts(values@),
            out@ == plist_strings(all.take(i as int)),
        decreases values.len() - i,
    {
        assert(all.take(i as int + 1).drop_last() =~= all.take(i as int));
        let mut line = "    <string>".to_string();
        let escaped = xml_escape(values[i].as_str());
        line.append(escaped.as_str());
        line.append("</string>\n");
        out.append(line.as_str());
        i = i + 1;
    }
    assert(all.take(i as int) =~= all);
    out
}

fn render_plist_pairs(env: &EnvMap) -> (r: String)
    ensures
        r@ == plist_pairs(env@),
{
    let mut out = String::new();
    let mut i: usize = 0;
    while i < env.len()
        invariant
            i <= env@.len(),
            out@ == plist_pairs(env@.take(i as int)),
        decreases env@.len() - i,
    {
        assert(env@.take(i as int + 1).drop_last() =~= env@.take(i as int));
        let mut line = "    <key>".to_string();
        let key = xml_escape(env.key_at(i));
        line.append(key.as_str());
        line.append("</key>\n    <string>");
        let value = xml_escape(env.value_at(i));
        line.append(value.as_str());
        line.append("</string>\n");
        out.append(line.as_str());
        i = i + 1;
    }
    assert(env@.take(i as int) =~= env@);
    out
}

/// A list with one text in front.
fn with_first(first: String, rest: Vec<String>) -> (r: Vec<String>)
    ensures
        text::texts(r@) == seq![first@] + text::texts(rest@),
{
    let ghost tail = text::texts(rest@);
    let ghost head = first@;
    let mut all = rest;
    all.insert(0, first);
    assert(text::texts(all@) =~= seq![head] + tail);
    all
}

pub fn render_launchd_plist(
    spec: &GatewayServiceInstallSpec,
    platform: &ServicePlatform,
    host: &ServiceHost,
) -> (r: Result<String, CliError>)
    ensures
        error::viewed(r) == plist_text(spec@, *platform, host@),
{
    let exe = service_binary_path(spec, host)?;
    let working_dir = service_working_directory(platform, host)?;
    let args = command_args(spec, host);
    let logs = logs_dir(platform, host)?;
    let mut stdout_name = sanitize_service_name(spec.name.as_str());
    stdout_name.append(".out.log");
    let stdout_path = join_path(logs.as_str(), stdout_name.as_str(), host.separator);
    let mut stderr_name = sanitize_service_name(spec.name.as_str());
    stderr_name.append(".err.log");
    let stderr_path = join_path(logs.as_str(), stderr_name.as_str(), host.separator);

    let mut plist = "<?xml version=\"1.0\" encoding=\"UTF-8\"?>\n<!DOCTYPE plist PUBLIC \"-//Apple//DTD PLIST 1.0//EN\" \"http://www.apple.com/DTDs/PropertyList-1.0.dtd\">\n<plist version=\"1.0\">\n<dict>\n".to_string();
    let label = service_label(spec.name.as_str());
    push_plist_entry(&mut plist, "Label", label.as_str());
    plist.append("  <key>ProgramArguments</key>\n  <array>\n");
    let program = render_plist_strings(&with_first(exe, args));
    plist.append(program.as_str());
    plist.append("  </array>\n");
    push_plist_entry(&mut plist, "WorkingDirectory", working_dir.as_str());
    plist.append("  <key>KeepAlive</key>\n  <true/>\n");
    plist.append("  <key>RunAtLoad</key>\n  <true/>\n");
    push_plist_entry(&mut plist, "StandardOutPath", stdout_path.as_str());
    push_plist_entry(&mut plist, "StandardErrorPath", stderr_path.as_str());
    let env = merged_service_env(spec);
    validate_launchd_environment_map(&env)?;
    let ghost before = plist@;
    if !env.is_empty() {
        let mut section = "  <key>EnvironmentVariables</key>\n  <dict>\n".to_string();
        let pairs = render_plist_pairs(&env);
        section.append(pairs.as_str());
        section.append("  </dict>\n");
        plist.append(section.as_str());
    }
    assert(plist@ =~= before + plist_environment(env@));
    plist.append("</dict>\n</plist>\n");
    Ok(plist)
}

/// The parts in quotation marks, separated by blanks.
pub open spec fn quoted_all(values: Seq<Seq<char>>) -> Seq<Seq<char>> {
    Seq::new(values.len(), |i: int| systemd_quoted(values[i]))
}

pub open spec fn unit_head() -> Seq<char> {
    "[Unit]\nDescription=Verdictan gateway service\nDocumentation=https://docs.verdictan.com\nAfter=network-online.target\nWants=network-online.target\n\n[Service]\nType=simple\n"@
}

pub open spec fn unit_account(system: bool) -> Seq<char> {
    if system {
        "User="@ + SYSTEM_SERVICE_USER@ + "\nGroup="@ + SYSTEM_SERVICE_USER@ + "\n"@
    } else {
        Seq::empty()
    }
}

pub open spec fn unit_environment(file: Option<Seq<char>>) -> Seq<char> {
    match file {
        Some(path) => "EnvironmentFile="@ + path + "\n"@,
        None => Seq::empty(),
    }
}

pub open spec fn unit_hardening(system: bool) -> Seq<char> {
    if system {
        "\n# Hardening\nNoNewPrivileges=true\nProtectSystem=strict\nProtectHome=read-only\nPrivateTmp=true\nReadWritePaths=/var/log\n"@
    } else {
        Seq::empty()
    }
}

pub open spec fn unit_target(system: bool) -> Seq<char> {
    if system {
        "multi-user.target"@
    } else {
        "default.target"@
    }
}

/// A systemd unit, from what it is made of.
pub open spec fn unit_body(
    system: bool,
    working_dir: Seq<char>,
    command: Seq<Seq<char>>,
    environment_file: Option<Seq<char>>,
) -> Seq<char> {
    unit_head() + unit_account(system) + ("WorkingDirectory="@ + systemd_quoted(working_dir)
        + "\n"@) + ("ExecStart="@ + text::join(quoted_all(command), " "@) + "\n"@)
        + "Restart=on-failure\nRestartSec=3\n"@ + unit_environment(environment_file)
        + unit_hardening(system) + ("\n[Install]\nWantedBy="@ + unit_target(system) + "\n"@)
}

pub open spec fn unit_text(
    spec: InstallSpecView,
    platform: ServicePlatform,
    environment_file: Option<Seq<char>>,
    host: HostView,
) -> Result<Seq<char>, ErrorView> {
    match binary_of(spec, host) {
        Err(e) => Err(e),
        Ok(exe) => match working_dir_of(platform, host) {
            Err(e) => Err(e),
            Ok(dir) => {
                let allowed = if environment_file is Some {
                    env_allowed(merged_env(spec), "systemd"@)
                } else {
                    Ok(())
                };
                match allowed {
                    Err(e) => Err(e),
                    Ok(_) => Ok(
                        unit_body(
                            scope_of(platform) == ServiceScope::System,
                            dir,
                            seq![exe] + run_args(spec, host),
                            environment_file,
                        ),
                    ),
                }
            },
        },
    }
}

fn quote_all(values: &Vec<String>) -> (r: Vec<String>)
    ensures
        text::texts(r@) == quoted_all(text::texts(values@)),
{
    let mut out: Vec<String> = Vec::new();
    let mut i: usize = 0;
    while i < values.len()
        invariant
            i <= values.len(),
            out.len() == i,
            forall|k: int| 0 <= k < i ==> (#[trigger] out@[k])@ == systemd_quoted(values@[k]@),
        decreases values.len() - i,
    {
        out.push(systemd_quote(values[i].as_str()));
        i = i + 1;
    }
    assert(text::texts(out@) =~= quoted_all(text::texts(values@)));
    out
}

pub fn render_systemd_unit(
    spec: &GatewayServiceInstallSpec,
    platform: &ServicePlatform,
    environment_file: Option<&str>,
    host: &ServiceHost,
) -> (r: Result<String, CliError>)
    ensures
        error::viewed(r) == unit_text(spec@, *platform, text::opt_ref(environment_file), host@),
{
    let exe = service_binary_path(spec, host)?;
    let working_dir = service_working_directory(platform, host)?;
    let args = command_args(spec, host);
    let exec_start = text::join_texts(&quote_all(&with_first(exe, args)), " ");
    let system_scope = platform.scope() == ServiceScope::System;

    let mut unit = "[Unit]\nDescription=Verdictan gateway service\nDocumentation=https://docs.verdictan.com\nAfter=network-online.target\nWants=network-online.target\n\n[Service]\nType=simple\n".to_string();
    let ghost head = unit@;
    if system_scope {
        let mut account = "User=".to_string();
        account.append(SYSTEM_SERVICE_USER);
        account.append("\nGroup=");
        account.append(SYSTEM_SERVICE_USER);
        account.append("\n");
        unit.append(account.as_str());
    }
    assert(unit@ =~= head + unit_account(system_scope));
    let mut directory = "WorkingDirectory=".to_string();
    let quoted = systemd_quote(working_dir.as_str());
    directory.append(quoted.as_str());
    directory.append("\n");
    unit.append(directory.as_str());
    let mut start = "ExecStart=".to_string();
    start.append(exec_start.as_str());
    start.append("\n");
    unit.append(start.as_str());
    unit.append("Restart=on-failure\nRestartSec=3\n");

    // The environment file carries the credentials at mode 0600, so the unit
    // itself stays world readable without exposing a token. `None` means the
    // service has no environment to set at all.
    let ghost head = unit@;
    if let Some(path) = environment_file {
        let env = merged_service_env(spec);
        validate_env(&env, "systemd")?;
        let mut line = "EnvironmentFile=".to_string();
        line.append(path);
        line.append("\n");
        unit.append(line.as_str());
    }
    assert(unit@ =~= head + unit_environment(text::opt_ref(environment_file)));

    let ghost head = unit@;
    if system_scope {
        unit.append(
            "\n# Hardening\nNoNewPrivileges=true\nProtectSystem=strict\nProtectHome=read-only\nPrivateTmp=true\nReadWritePaths=/var/log\n",
        );
    }
    assert(unit@ =~= head + unit_hardening(system_scope));

    let wanted_by = if system_scope {
        "multi-user.target"
    } else {
        "default.target"
    };
    let mut install = "\n[Install]\nWantedBy=".to_string();
    install.append(wanted_by);
    install.append("\n");
    unit.append(install.as_str());
    Ok(unit)
}

/// A unit that names an environment file is the same whatever the variables hold:
/// no value of theirs, and so no credential, stands in the unit.
pub proof fn unit_holds_no_environment(
    one: InstallSpecView,
    other: InstallSpecView,
    platform: ServicePlatform,
    environment_file: Seq<char>,
    host: HostView,
)
    requires
        other == (InstallSpecView {
            env: other.env,
            api_token: other.api_token,
            agent_id: other.agent_id,
            ..one
        }),
        unit_text(one, platform, Some(environment_file), host) is Ok,
        unit_text(other, platform, Some(environment_file), host) is Ok,
    ensures
        unit_text(one, platform, Some(environment_file), host) == unit_text(
            other,
            platform,
            Some(environment_file),
            host,
        ),
{
}

// ---------------------------------------------------------------------------
// Commands
// ---------------------------------------------------------------------------

/// One command that service activation or deactivation runs.
#[derive(Debug)]
pub struct ServiceCommand {
    pub program: String,
    pub args: Vec<String>,
    /// True when a non-zero status must fail the operation.
    pub strict: bool,
}

pub struct CommandView {
    pub program: Seq<char>,
    pub args: Seq<Seq<char>>,
    pub strict: bool,
}

impl View for ServiceCommand {
    type V = CommandView;

    open spec fn view(&self) -> CommandView {
        CommandView {
            program: self.program@,
            args: text::texts(self.args@),
            strict: self.strict,
        }
    }
}

pub open spec fn strict_command(program: Seq<char>, args: Seq<Seq<char>>) -> CommandView {
    CommandView { program, args, strict: true }
}

pub open spec fn lenient_command(program: Seq<char>, args: Seq<Seq<char>>) -> CommandView {
    CommandView { program, args, strict: false }
}

/// What a list of commands holds.
pub open spec fn commands(v: Seq<ServiceCommand>) -> Seq<CommandView> {
    Seq::new(v.len(), |i: int| v[i]@)
}

pub open spec fn commands_outcome(r: Result<Vec<ServiceCommand>, CliError>) -> Result<
    Seq<CommandView>,
    ErrorView,
> {
    match r {
        Ok(v) => Ok(commands(v@)),
        Err(e) => Err(e@),
    }
}

impl ServiceCommand {
    pub fn strict(program: &str, args: Vec<String>) -> (r: ServiceCommand)
        ensures
            r@ == strict_command(program@, text::texts(args@)),
    {
        ServiceCommand { program: program.to_string(), args, strict: true }
    }

    pub fn lenient(program: &str, args: Vec<String>) -> (r: ServiceCommand)
        ensures
            r@ == lenient_command(program@, text::texts(args@)),
    {
        ServiceCommand { program: program.to_string(), args, strict: false }
    }

    /// A copy of the command.
    pub fn copy(&self) -> (r: ServiceCommand)
        ensures
            r@ == self@,
    {
        ServiceCommand {
            program: self.program.clone(),
            args: text::copy_texts(&self.args),
            strict: self.strict,
        }
    }
}

fn args1(a: &str) -> (r: Vec<String>)
    ensures
        text::texts(r@) == seq![a@],
{
    let r = vec![a.to_string()];
    assert(text::texts(r@) =~= seq![a@]);
    r
}

fn args2(a: &str, b: &str) -> (r: Vec<String>)
    ensures
        text::texts(r@) == seq![a@, b@],
{
    let r = vec![a.to_string(), b.to_string()];
    assert(text::texts(r@) =~= seq![a@, b@]);
    r
}

fn args3(a: &str, b: &str, c: &str) -> (r: Vec<String>)
    ensures
        text::texts(r@) == seq![a@, b@, c@],
{
    let r = vec![a.to_string(), b.to_string(), c.to_string()];
    assert(text::texts(r@) =~= seq![a@, b@, c@]);
    r
}

fn args4(a: &str, b: &str, c: &str, d: &str) -> (r: Vec<String>)
    ensures
        text::texts(r@) == seq![a@, b@, c@, d@],
{
    let r = vec![a.to_string(), b.to_string(), c.to_string(), d.to_string()];
    assert(text::texts(r@) =~= seq![a@, b@, c@, d@]);
    r
}

/// The arguments of `systemctl` or `journalctl`, with `--user` in front for a
/// user-scope unit.
pub open spec fn scoped_args(platform: ServicePlatform, args: Seq<Seq<char>>) -> Seq<Seq<char>> {
    if scope_of(platform) == ServiceScope::User {
        seq!["--user"@] + args
    } else {
        args
    }
}

/// Prefixes a `systemctl` or `journalctl` invocation with `--user` for a
/// user-scope unit.
pub fn systemctl_args(platform: &ServicePlatform, args: Vec<String>) -> (r: Vec<String>)
    ensures
        text::texts(r@) == scoped_args(*platform, text::texts(args@)),
{
    if platform.scope() == ServiceScope::User {
        with_first("--user".to_string(), args)
    } else {
        args
    }
}

pub open spec fn domain_of(platform: ServicePlatform, host: HostView) -> Result<
    Seq<char>,
    ErrorView,
> {
    if scope_of(platform) == ServiceScope::System {
        Ok("system"@)
    } else {
        match host.user_id {
            Ok(uid) => Ok("gui/"@ + uid),
            Err(e) => Err(error::internal_error("failed to run id: "@ + e)),
        }
    }
}

/// launchd domain that owns the service. A LaunchDaemon lives in the `system`
/// domain, and a LaunchAgent lives in the invoking user's GUI domain.
pub fn launchctl_domain(platform: &ServicePlatform, host: &ServiceHost) -> (r: Result<
    String,
    CliError,
>)
    ensures
        error::viewed(r) == domain_of(*platform, host@),
{
    if platform.scope() == ServiceScope::System {
        return Ok("system".to_string());
    }
    let uid = match &host.user_id {
        UserId::Environment(uid) => uid.clone(),
        UserId::Command(printed) => text::trim_text(printed.as_str()),
        UserId::Unavailable(cause) => {
            let mut message = "failed to run id: ".to_string();
            message.append(cause.as_str());
            return Err(CliError::internal(message));
        },
    };
    let mut domain = "gui/".to_string();
    domain.append(uid.as_str());
    Ok(domain)
}

/// The service as `launchctl` addresses it.
pub open spec fn target_of(domain: Seq<char>, label: Seq<char>) -> Seq<char> {
    domain + "/"@ + label
}

fn launchctl_target(domain: &str, label: &str) -> (r: String)
    ensures
        r@ == target_of(domain@, label@),
{
    let mut target = domain.to_string();
    target.append("/");
    target.append(label);
    target
}

pub open spec fn activation_of(
    platform: ServicePlatform,
    name: Seq<char>,
    service_file: Seq<char>,
    host: HostView,
) -> Result<Seq<CommandView>, ErrorView> {
    match required_name(name) {
        Err(e) => Err(e),
        Ok(safe) => match platform {
            ServicePlatform::Launchd | ServicePlatform::LaunchDaemon => match domain_of(
                platform,
                host,
            ) {
                Err(e) => Err(e),
                Ok(domain) => {
                    let target = target_of(domain, label_of(safe));
                    Ok(
                        seq![
                            lenient_command("launchctl"@, seq!["bootout"@, target]),
                            strict_command(
                                "launchctl"@,
                                seq!["bootstrap"@, domain, service_file],
                            ),
                            strict_command("launchctl"@, seq!["kickstart"@, "-k"@, target]),
                        ],
                    )
                },
            },
            ServicePlatform::SystemdUser => Ok(
                seq![
                    strict_command("systemctl"@, seq!["--user"@, "daemon-reload"@]),
                    strict_command("loginctl"@, seq!["enable-linger"@]),
                    strict_command(
                        "systemctl"@,
                        seq!["--user"@, "enable"@, "--now"@, unit_of(safe)],
                    ),
                ],
            ),
            ServicePlatform::SystemdSystem => Ok(
                seq![
                    strict_command("systemctl"@, seq!["daemon-reload"@]),
                    strict_command("systemctl"@, seq!["enable"@, "--now"@, unit_of(safe)]),
                ],
            ),
            ServicePlatform::WindowsService => Ok(
                seq![strict_command("sc.exe"@, seq!["start"@, safe])],
            ),
        },
    }
}

/// Commands that enable a service and start it now.
///
/// A user-scope systemd unit also enables linger, because a unit that only
/// exists inside a login session stops at logout and does not return after a
/// headless reboot.
pub fn activation_commands(
    platform: &ServicePlatform,
    name: &str,
    service_file: &str,
    host: &ServiceHost,
) -> (r: Result<Vec<ServiceCommand>, CliError>)
    ensures
        commands_outcome(r) == activation_of(*platform, name@, service_file@, host@),
{
    let safe_name = require_safe_service_name(name)?;
    let safe = safe_name.as_str();
    let list = match platform {
        ServicePlatform::Launchd | ServicePlatform::LaunchDaemon => {
            let domain = launchctl_domain(platform, host)?;
            let label = service_label(safe);
            let target = launchctl_target(domain.as_str(), label.as_str());
            vec![
                ServiceCommand::lenient("launchctl", args2("bootout", target.as_str())),
                ServiceCommand::strict(
                    "launchctl",
                    args3("bootstrap", domain.as_str(), service_file),
                ),
                ServiceCommand::strict("launchctl", args3("kickstart", "-k", target.as_str())),
            ]
        },
        ServicePlatform::SystemdUser => {
            let unit = unit_name(safe);
            vec![
                ServiceCommand::strict("systemctl", args2("--user", "daemon-reload")),
                ServiceCommand::strict("loginctl", args1("enable-linger")),
                ServiceCommand::strict(
                    "systemctl",
                    args4("--user", "enable", "--now", unit.as_str()),
                ),
            ]
        },
        ServicePlatform::SystemdSystem => {
            let unit = unit_name(safe);
            vec![
                ServiceCommand::strict("systemctl", args1("daemon-reload")),
                ServiceCommand::strict("systemctl", args3("enable", "--now", unit.as_str())),
            ]
        },
        ServicePlatform::WindowsService => {
            vec![ServiceCommand::strict("sc.exe", args2("start", safe))]
        },
    };
    assert(commands(list@) =~= activation_of(*platform, name@, service_file@, host@)->Ok_0);
    Ok(list)
}

pub open spec fn deactivation_of(
    platform: ServicePlatform,
    name: Seq<char>,
    host: HostView,
) -> Result<Seq<CommandView>, ErrorView> {
    match required_name(name) {
        Err(e) => Err(e),
        Ok(safe) => match platform {
            ServicePlatform::Launchd | ServicePlatform::LaunchDaemon => match domain_of(
                platform,
                host,
            ) {
                Err(e) => Err(e),
                Ok(domain) => Ok(
                    seq![
                        lenient_command(
                            "launchctl"@,
                            seq!["bootout"@, target_of(domain, label_of(safe))],
                        ),
                    ],
                ),
            },
            ServicePlatform::SystemdUser => Ok(
                seq![
                    lenient_command(
                        "systemctl"@,
                        seq!["--user"@, "disable"@, "--now"@, unit_of(safe)],
                    ),
                ],
            ),
            ServicePlatform::SystemdSystem => Ok(
                seq![
                    lenient_command("systemctl"@, seq!["disable"@, "--now"@, unit_of(safe)]),
                ],
            ),
            ServicePlatform::WindowsService => Ok(
                seq![lenient_command("sc.exe"@, seq!["stop"@, safe])],
            ),
        },
    }
}

/// Commands that stop a service and disable it.
pub fn deactivation_commands(
    platform: &ServicePlatform,
    name: &str,
    host: &ServiceHost,
) -> (r: Result<Vec<ServiceCommand>, CliError>)
    ensures
        commands_outcome(r) == deactivation_of(*platform, name@, host@),
{
    let safe_name = require_safe_service_name(name)?;
    let safe = safe_name.as_str();
    let command = match platform {
        ServicePlatform::Launchd | ServicePlatform::LaunchDaemon => {
            let domain = launchctl_domain(platform, host)?;
            let label = service_label(safe);
            let target = launchctl_target(domain.as_str(), label.as_str());
            ServiceCommand::lenient("launchctl", args2("bootout", target.as_str()))
        },
        ServicePlatform::SystemdUser => {
            let unit = unit_name(safe);
            ServiceCommand::lenient("systemctl", args4("--user", "disable", "--now", unit.as_str()))
        },
        ServicePlatform::SystemdSystem => {
            let unit = unit_name(safe);
            ServiceCommand::lenient("systemctl", args3("disable", "--now", unit.as_str()))
        },
        ServicePlatform::WindowsService => ServiceCommand::lenient("sc.exe", args2("stop", safe)),
    };
    let list = vec![command];
    assert(commands(list@) =~= deactivation_of(*platform, name@, host@)->Ok_0);
    Ok(list)
}

/// A service that is already gone can be stopped: no command of deactivation
/// fails the operation by its status.
pub proof fn deactivation_is_lenient(platform: ServicePlatform, name: Seq<char>, host: HostView)
    ensures
        match deactivation_of(platform, name, host) {
            Ok(list) => list.len() == 1 && !list[0].strict,
            Err(_) => true,
        },
{
}

/// Activation ends with a strict command, so a service that cannot start fails
/// the operation.
pub proof fn activation_ends_strict(
    platform: ServicePlatform,
    name: Seq<char>,
    service_file: Seq<char>,
    host: HostView,
)
    ensures
        match activation_of(platform, name, service_file, host) {
            Ok(list) => list.len() > 0 && list.last().strict,
            Err(_) => true,
        },
{
}

pub open spec fn command_outcome(r: Result<ServiceCommand, CliError>) -> Result<
    CommandView,
    ErrorView,
> {
    match r {
        Ok(c) => Ok(c@),
        Err(e) => Err(e@),
    }
}

pub open spec fn active_state_of(
    platform: ServicePlatform,
    name: Seq<char>,
    host: HostView,
) -> Result<CommandView, ErrorView> {
    match required_name(name) {
        Err(e) => Err(e),
        Ok(safe) => match platform {
            ServicePlatform::Launchd | ServicePlatform::LaunchDaemon => match domain_of(
                platform,
                host,
            ) {
                Err(e) => Err(e),
                Ok(domain) => Ok(
                    lenient_command(
                        "launchctl"@,
                        seq!["print"@, target_of(domain, label_of(safe))],
                    ),
                ),
            },
            ServicePlatform::SystemdUser | ServicePlatform::SystemdSystem => Ok(
                lenient_command(
                    "systemctl"@,
                    scoped_args(platform, seq!["is-active"@, unit_of(safe)]),
                ),
            ),
            ServicePlatform::WindowsService => Ok(
                lenient_command("sc.exe"@, seq!["query"@, safe]),
            ),
        },
    }
}

/// Command that reports whether a service reached the active state.
pub fn active_state_command(
    platform: &ServicePlatform,
    name: &str,
    host: &ServiceHost,
) -> (r: Result<ServiceCommand, CliError>)
    ensures
        command_outcome(r) == active_state_of(*platform, name@, host@),
{
    let safe_name = require_safe_service_name(name)?;
    let safe = safe_name.as_str();
    Ok(
        match platform {
            ServicePlatform::Launchd | ServicePlatform::LaunchDaemon => {
                let domain = launchctl_domain(platform, host)?;
                let label = service_label(safe);
                let target = launchctl_target(domain.as_str(), label.as_str());
                ServiceCommand::lenient("launchctl", args2("print", target.as_str()))
            },
            ServicePlatform::SystemdUser | ServicePlatform::SystemdSystem => {
                let unit = unit_name(safe);
                let args = systemctl_args(platform, args2("is-active", unit.as_str()));
                ServiceCommand::lenient("systemctl", args)
            },
            ServicePlatform::WindowsService => ServiceCommand::lenient(
                "sc.exe",
                args2("query", safe),
            ),
        },
    )
}

// ---------------------------------------------------------------------------
// What commands print
// ---------------------------------------------------------------------------

/// What follows the prefix in the first trimmed line that starts with it.
pub open spec fn first_after(lines: Seq<Seq<char>>, prefix: Seq<char>) -> Option<Seq<char>>
    decreases lines.len(),
{
    if lines.len() == 0 {
        None
    } else {
        match text::after_prefix(text::trim(lines[0]), prefix) {
            Some(rest) => Some(rest),
            None => first_after(lines.drop_first(), prefix),
        }
    }
}

/// A process identifier: a number of 32 bits above zero.
pub open spec fn positive_pid(s: Seq<char>) -> Option<nat> {
    match text::at_most(text::parse_number(s), u32::MAX as nat) {
        Some(n) => if n > 0 {
            Some(n)
        } else {
            None
        },
        None => None,
    }
}

pub open spec fn launchctl_pid(stdout: Seq<char>) -> Option<nat> {
    match first_after(text::split(stdout, '\n'), "pid = "@) {
        Some(rest) => positive_pid(text::trim(rest)),
        None => None,
    }
}

/// A number that may be missing, without its width.
pub open spec fn pid_view(pid: Option<u32>) -> Option<nat> {
    match pid {
        Some(n) => Some(n as nat),
        None => None,
    }
}

fn parse_pid(s: &str) -> (r: Option<u32>)
    ensures
        pid_view(r) == positive_pid(s@),
{
    match text::parse_number_text(s, u32::MAX as u64) {
        Some(n) => if n > 0 {
            Some(n as u32)
        } else {
            None
        },
        None => None,
    }
}

pub fn parse_launchctl_pid(stdout: &str) -> (r: Option<u32>)
    ensures
        pid_view(r) == launchctl_pid(stdout@),
{
    let lines = text::split_text(stdout, '\n');
    let ghost all = text::texts(lines@);
    let mut i: usize = 0;
    assert(all.skip(0) =~= all);
    while i < lines.len()
        invariant
            i <= lines.len(),
            all == text::texts(lines@),
            all == text::split(stdout@, '\n'),
            first_after(all, "pid = "@) == first_after(all.skip(i as int), "pid = "@),
        decreases lines.len() - i,
    {
        assert(all.skip(i as int)[0] == lines@[i as int]@);
        assert(all.skip(i as int).drop_first() =~= all.skip(i as int + 1));
        let line = text::trim_text(lines[i].as_str());
        if let Some(rest) = text::after_prefix_text(line.as_str(), "pid = ") {
            let value = text::trim_text(rest.as_str());
            return parse_pid(value.as_str());
        }
        i = i + 1;
    }
    None
}

/// The value of a key in `key=value` lines: that of the first line with the key.
pub open spec fn key_value(lines: Seq<Seq<char>>, key: Seq<char>) -> Option<Seq<char>>
    decreases lines.len(),
{
    if lines.len() == 0 {
        None
    } else {
        match text::split_once(lines[0], '=') {
            Some((left, right)) => if text::trim(left) == key {
                Some(text::trim(right))
            } else {
                key_value(lines.drop_first(), key)
            },
            None => key_value(lines.drop_first(), key),
        }
    }
}

pub fn parse_key_value(stdout: &str, key: &str) -> (r: Option<String>)
    ensures
        text::opt(r) == key_value(text::split(stdout@, '\n'), key@),
{
    let lines = text::split_text(stdout, '\n');
    let ghost all = text::texts(lines@);
    let mut i: usize = 0;
    assert(all.skip(0) =~= all);
    while i < lines.len()
        invariant
            i <= lines.len(),
            all == text::texts(lines@),
            all == text::split(stdout@, '\n'),
            key_value(all, key@) == key_value(all.skip(i as int), key@),
        decreases lines.len() - i,
    {
        assert(all.skip(i as int)[0] == lines@[i as int]@);
        assert(all.skip(i as int).drop_first() =~= all.skip(i as int + 1));
        if let Some((left, right)) = text::split_once_text(lines[i].as_str(), '=') {
            let left = text::trim_text(left.as_str());
            if text::same(left.as_str(), key) {
                return Some(text::trim_text(right.as_str()));
            }
        }
        i = i + 1;
    }
    None
}

/// The second word after `STATE:`, in the first such line that has one.
pub open spec fn sc_state(lines: Seq<Seq<char>>) -> Option<Seq<char>>
    decreases lines.len(),
{
    if lines.len() == 0 {
        None
    } else {
        match text::split_once(lines[0], ':') {
            Some((left, right)) => if text::trim(left) == "STATE"@ && text::words(right).len()
                > 1 {
                Some(text::words(right)[1])
            } else {
                sc_state(lines.drop_first())
            },
            None => sc_state(lines.drop_first()),
        }
    }
}

/// Reads the service state out of `sc.exe query` output.
pub fn parse_sc_query_state(stdout: &str) -> (r: Option<String>)
    ensures
        text::opt(r) == sc_state(text::split(stdout@, '\n')),
{
    let lines = text::split_text(stdout, '\n');
    let ghost all = text::texts(lines@);
    let mut i: usize = 0;
    assert(all.skip(0) =~= all);
    while i < lines.len()
        invariant
            i <= lines.len(),
            all == text::texts(lines@),
            all == text::split(stdout@, '\n'),
            sc_state(all) == sc_state(all.skip(i as int)),
        decreases lines.len() - i,
    {
        assert(all.skip(i as int)[0] == lines@[i as int]@);
        assert(all.skip(i as int).drop_first() =~= all.skip(i as int + 1));
        if let Some((left, right)) = text::split_once_text(lines[i].as_str(), ':') {
            let left = text::trim_text(left.as_str());
            if text::same(left.as_str(), "STATE") {
                let words = text::words_text(right.as_str());
                assert(text::words(right@).len() == words.len());
                if words.len() > 1 {
                    assert(text::words(right@)[1] == words@[1]@);
                    return Some(words[1].clone());
                }
            }
        }
        i = i + 1;
    }
    None
}

/// The observed state of a service: `Ok` where it runs.
pub open spec fn active_state(
    platform: ServicePlatform,
    succeeded: bool,
    stdout: Seq<char>,
) -> Result<Seq<char>, Seq<char>> {
    if launchd(platform) {
        if succeeded && text::contains(stdout, "state = running"@) {
            Ok("running"@)
        } else if succeeded {
            Err("loaded"@)
        } else {
            Err("not_loaded"@)
        }
    } else if systemd(platform) {
        let state = text::trim(stdout);
        if state == "active"@ {
            Ok(state)
        } else if state.len() == 0 {
            Err("unknown"@)
        } else {
            Err(state)
        }
    } else {
        match sc_state(text::split(stdout, '\n')) {
            Some(state) => if state == "RUNNING"@ {
                Ok(state)
            } else {
                Err(state)
            },
            None => Err("unknown"@),
        }
    }
}

/// Reads the active state out of the state command's output.
///
/// Returns the observed state when the service is running, and an error string
/// that names the observed state when it is not.
pub fn interpret_active_state(
    platform: &ServicePlatform,
    succeeded: bool,
    stdout: &str,
) -> (r: Result<String, String>)
    ensures
        either(r) == active_state(*platform, succeeded, stdout@),
{
    match platform {
        ServicePlatform::Launchd | ServicePlatform::LaunchDaemon => {
            if succeeded && text::contains_text(stdout, "state = running") {
                Ok("running".to_string())
            } else if succeeded {
                Err("loaded".to_string())
            } else {
                Err("not_loaded".to_string())
            }
        },
        ServicePlatform::SystemdUser | ServicePlatform::SystemdSystem => {
            let state = text::trim_text(stdout);
            if text::same(state.as_str(), "active") {
                Ok(state)
            } else if state.as_str().is_empty() {
                Err("unknown".to_string())
            } else {
                Err(state)
            }
        },
        ServicePlatform::WindowsService => match parse_sc_query_state(stdout) {
            Some(state) => if text::same(state.as_str(), "RUNNING") {
                Ok(state)
            } else {
                Err(state)
            },
            None => Err("unknown".to_string()),
        },
    }
}

/// What a finished command left behind.
#[derive(Debug)]
pub struct CommandResult {
    pub succeeded: bool,
    /// The exit status as the system words it.
    pub status: String,
    pub stdout: String,
    pub stderr: String,
}

pub open spec fn log_tail(platform: ServicePlatform, name: Seq<char>, log: Option<Seq<char>>) -> Seq<
    char,
> {
    if !systemd(platform) || sanitized(name).len() == 0 {
        Seq::empty()
    } else {
        match log {
            Some(printed) => if text::is_blank(printed) {
                Seq::empty()
            } else {
                "\nrecent log lines:\n"@ + text::trim(printed)
            },
            None => Seq::empty(),
        }
    }
}

/// The command that prints the log of a unit, where the platform has one.
pub open spec fn log_command_of(platform: ServicePlatform, name: Seq<char>) -> Option<CommandView> {
    if !systemd(platform) || sanitized(name).len() == 0 {
        None
    } else {
        Some(
            lenient_command(
                "journalctl"@,
                scoped_args(
                    platform,
                    seq!["-u"@, unit_of(sanitized(name)), "-n"@, "20"@, "--no-pager"@],
                ),
            ),
        )
    }
}

pub fn service_log_command(platform: &ServicePlatform, name: &str) -> (r: Option<ServiceCommand>)
    ensures
        match r {
            Some(c) => log_command_of(*platform, name@) == Some(c@),
            None => log_command_of(*platform, name@) is None,
        },
{
    let safe_name = sanitize_service_name(name);
    if !platform.is_systemd() || safe_name.as_str().is_empty() {
        return None;
    }
    let unit = unit_name(safe_name.as_str());
    let args = vec![
        "-u".to_string(),
        unit,
        "-n".to_string(),
        "20".to_string(),
        "--no-pager".to_string(),
    ];
    assert(text::texts(args@) =~= seq![
        "-u"@,
        unit_of(sanitized(name@)),
        "-n"@,
        "20"@,
        "--no-pager"@,
    ]);
    Some(ServiceCommand::lenient("journalctl", systemctl_args(platform, args)))
}

/// Returns a short log tail for a failure message, or an empty string when the
/// platform gives no log command. `log` is what that command printed.
pub fn service_log_tail(platform: &ServicePlatform, name: &str, log: Option<&str>) -> (r: String)
    ensures
        r@ == log_tail(*platform, name@, text::opt_ref(log)),
{
    let safe_name = sanitize_service_name(name);
    if !platform.is_systemd() || safe_name.as_str().is_empty() {
        return String::new();
    }
    match log {
        Some(printed) => {
            let tail = text::trim_text(printed);
            if tail.as_str().is_empty() {
                String::new()
            } else {
                let mut out = "\nrecent log lines:\n".to_string();
                out.append(tail.as_str());
                out
            }
        },
        None => String::new(),
    }
}

pub open spec fn active_verdict(
    platform: ServicePlatform,
    name: Seq<char>,
    succeeded: bool,
    stdout: Seq<char>,
    log: Option<Seq<char>>,
) -> Result<(), ErrorView> {
    match active_state(platform, succeeded, stdout) {
        Ok(_) => Ok(()),
        Err(state) => Err(
            error::user_error(
                "service "@ + name + " did not reach the active state on "@ + display_name_of(
                    platform,
                ) + " (observed: "@ + state + ")"@ + log_tail(platform, name, log),
            ),
        ),
    }
}

/// Fails the install when the service does not reach the active state, and
/// includes the service log tail so the operator does not have to guess.
pub fn verify_service_is_active(
    platform: &ServicePlatform,
    name: &str,
    output: &CommandResult,
    log: Option<&str>,
) -> (r: Result<(), CliError>)
    ensures
        error::done(r) == active_verdict(
            *platform,
            name@,
            output.succeeded,
            output.stdout@,
            text::opt_ref(log),
        ),
{
    match interpret_active_state(platform, output.succeeded, output.stdout.as_str()) {
        Ok(_) => Ok(()),
        Err(state) => {
            let mut message = "service ".to_string();
            message.append(name);
            message.append(" did not reach the active state on ");
            message.append(platform.display_name());
            message.append(" (observed: ");
            message.append(state.as_str());
            message.append(")");
            let tail = service_log_tail(platform, name, log);
            message.append(tail.as_str());
            Err(CliError::user(message))
        },
    }
}

pub open spec fn status_checked(
    program: Seq<char>,
    succeeded: bool,
    status: Seq<char>,
    stderr: Seq<char>,
    strict: bool,
) -> Result<(), ErrorView> {
    if strict && !succeeded {
        Err(
            error::internal_error(
                if text::is_blank(stderr) {
                    program + " failed with status "@ + status
                } else {
                    program + " failed: "@ + text::trim(stderr)
                },
            ),
        )
    } else {
        Ok(())
    }
}

/// Fails where a strict command ended with a non-zero status.
pub fn check_command_status(program: &str, output: &CommandResult, strict: bool) -> (r: Result<
    (),
    CliError,
>)
    ensures
        error::done(r) == status_checked(
            program@,
            output.succeeded,
            output.status@,
            output.stderr@,
            strict,
        ),
{
    if strict && !output.succeeded {
        let stderr = text::trim_text(output.stderr.as_str());
        let mut message = program.to_string();
        if stderr.as_str().is_empty() {
            message.append(" failed with status ");
            message.append(output.status.as_str());
        } else {
            message.append(" failed: ");
            message.append(stderr.as_str());
        }
        return Err(CliError::internal(message));
    }
    Ok(())
}

/// Why a command could not run at all.
pub open spec fn spawn_error_of(program: Seq<char>, cause: Seq<char>, strict: bool) -> ErrorView {
    let message = "failed to run "@ + program + ": "@ + cause;
    if strict {
        error::internal_error(message)
    } else {
        error::user_error(message)
    }
}

pub fn spawn_error(program: &str, cause: &str, strict: bool) -> (r: CliError)
    ensures
        r@ == spawn_error_of(program@, cause@, strict),
{
    let mut message = "failed to run ".to_string();
    message.append(program);
    message.append(": ");
    message.append(cause);
    if strict {
        CliError::internal(message)
    } else {
        CliError::user(message)
    }
}

// ---------------------------------------------------------------------------
// Status
// ---------------------------------------------------------------------------

#[derive(Debug)]
pub struct ServiceStatus {
    pub platform: ServicePlatform,
    pub label: String,
    pub state: String,
    pub pid: Option<u32>,
    pub service_file: String,
}

pub struct StatusView {
    pub platform: ServicePlatform,
    pub label: Seq<char>,
    pub state: Seq<char>,
    pub pid: Option<nat>,
    pub service_file: Seq<char>,
}

impl View for ServiceStatus {
    type V = StatusView;

    open spec fn view(&self) -> StatusView {
        StatusView {
            platform: self.platform,
            label: self.label@,
            state: self.state@,
            pid: pid_view(self.pid),
            service_file: self.service_file@,
        }
    }
}

/// The state of a service that its manager does not know.
pub open spec fn absent_state(file_exists: bool) -> Seq<char> {
    if file_exists {
        "installed"@
    } else {
        "not_installed"@
    }
}

/// What systemd says of a unit.
pub open spec fn unit_status(
    platform: ServicePlatform,
    name: Seq<char>,
    service_file: Seq<char>,
    file_exists: bool,
    stdout: Seq<char>,
) -> StatusView {
    let lines = text::split(stdout, '\n');
    let active = text::or_else(key_value(lines, "ActiveState"@), absent_state(file_exists));
    StatusView {
        platform,
        label: unit_of(name),
        state: match key_value(lines, "SubState"@) {
            Some(sub) => active + "/"@ + sub,
            None => active,
        },
        pid: match key_value(lines, "MainPID"@) {
            Some(value) => positive_pid(value),
            None => None,
        },
        service_file,
    }
}

/// What the manager's answer says of a service.
pub open spec fn status_of(
    platform: ServicePlatform,
    name: Seq<char>,
    service_file: Seq<char>,
    file_exists: bool,
    succeeded: bool,
    stdout: Seq<char>,
) -> StatusView {
    let lines = text::split(stdout, '\n');
    if launchd(platform) {
        StatusView {
            platform,
            label: label_of(name),
            state: if succeeded {
                if text::contains(stdout, "state = running"@) {
                    "running"@
                } else {
                    "loaded"@
                }
            } else {
                absent_state(file_exists)
            },
            pid: launchctl_pid(stdout),
            service_file,
        }
    } else if systemd(platform) {
        unit_status(platform, name, service_file, file_exists, stdout)
    } else {
        StatusView {
            platform,
            label: sanitized(name),
            state: match sc_state(lines) {
                Some(state) => text::lower(state),
                None => "not_installed"@,
            },
            pid: None,
            service_file,
        }
    }
}

pub fn launchctl_status(
    platform: &ServicePlatform,
    label: &str,
    service_file: String,
    file_exists: bool,
    output: &CommandResult,
) -> (r: ServiceStatus)
    ensures
        r.platform == *platform,
        r.label@ == label@,
        r.service_file@ == service_file@,
        pid_view(r.pid) == launchctl_pid(output.stdout@),
        r.state@ == (if output.succeeded {
            if text::contains(output.stdout@, "state = running"@) {
                "running"@
            } else {
                "loaded"@
            }
        } else {
            absent_state(file_exists)
        }),
{
    let pid = parse_launchctl_pid(output.stdout.as_str());
    let state = if output.succeeded {
        if text::contains_text(output.stdout.as_str(), "state = running") {
            "running"
        } else {
            "loaded"
        }
    } else if file_exists {
        "installed"
    } else {
        "not_installed"
    };
    ServiceStatus {
        platform: *platform,
        label: label.to_string(),
        state: state.to_string(),
        pid,
        service_file,
    }
}

pub fn systemd_status(
    platform: &ServicePlatform,
    name: &str,
    service_file: String,
    file_exists: bool,
    output: &CommandResult,
) -> (r: ServiceStatus)
    ensures
        r@ == unit_status(*platform, name@, service_file@, file_exists, output.stdout@),
{
    let stdout = output.stdout.as_str();
    let active_state = match parse_key_value(stdout, "ActiveState") {
        Some(state) => state,
        None => if file_exists {
            "installed".to_string()
        } else {
            "not_installed".to_string()
        },
    };
    let pid = match parse_key_value(stdout, "MainPID") {
        Some(value) => parse_pid(value.as_str()),
        None => None,
    };
    let state = match parse_key_value(stdout, "SubState") {
        Some(sub) => {
            let mut both = active_state;
            both.append("/");
            both.append(sub.as_str());
            both
        },
        None => active_state,
    };
    ServiceStatus { platform: *platform, label: unit_name(name), state, pid, service_file }
}

pub fn windows_service_status(name: &str, service_file: String, output: &CommandResult) -> (r:
    ServiceStatus)
    ensures
        r@ == status_of(
            ServicePlatform::WindowsService,
            name@,
            service_file@,
            false,
            output.succeeded,
            output.stdout@,
        ),
{
    let state = match parse_sc_query_state(output.stdout.as_str()) {
        Some(state) => text::to_lower(state.as_str()),
        None => "not_installed".to_string(),
    };
    ServiceStatus {
        platform: ServicePlatform::WindowsService,
        label: sanitize_service_name(name),
        state,
        pid: None,
        service_file,
    }
}

/// The command whose output `service_status` reads.
pub open spec fn status_command_of(
    platform: ServicePlatform,
    name: Seq<char>,
    host: HostView,
) -> Result<CommandView, ErrorView> {
    if launchd(platform) {
        match domain_of(platform, host) {
            Err(e) => Err(e),
            Ok(domain) => Ok(
                lenient_command("launchctl"@, seq!["print"@, target_of(domain, label_of(name))]),
            ),
        }
    } else if systemd(platform) {
        Ok(
            lenient_command(
                "systemctl"@,
                scoped_args(
                    platform,
                    seq![
                        "show"@,
                        "--property=ActiveState,SubState,MainPID"@,
                        unit_of(name),
                    ],
                ),
            ),
        )
    } else {
        match required_name(name) {
            Err(e) => Err(e),
            Ok(safe) => Ok(lenient_command("sc.exe"@, seq!["query"@, safe])),
        }
    }
}

pub fn service_status_command(
    platform: &ServicePlatform,
    name: &str,
    host: &ServiceHost,
) -> (r: Result<ServiceCommand, CliError>)
    ensures
        command_outcome(r) == status_command_of(*platform, name@, host@),
{
    if platform.is_launchd() {
        let domain = launchctl_domain(platform, host)?;
        let label = service_label(name);
        let target = launchctl_target(domain.as_str(), label.as_str());
        Ok(ServiceCommand::lenient("launchctl", args2("print", target.as_str())))
    } else if platform.is_systemd() {
        let unit = unit_name(name);
        let args = args3("show", "--property=ActiveState,SubState,MainPID", unit.as_str());
        Ok(ServiceCommand::lenient("systemctl", systemctl_args(platform, args)))
    } else {
        let safe_name = require_safe_service_name(name)?;
        Ok(ServiceCommand::lenient("sc.exe", args2("query", safe_name.as_str())))
    }
}

// ---------------------------------------------------------------------------
// Which platform holds a service
// ---------------------------------------------------------------------------

/// True where the probe of a platform found a registration.
pub open spec fn found_at(found: Seq<bool>, i: int) -> bool {
    0 <= i < found.len() && found[i]
}

/// The first of the probed platforms from `i` on that holds the service, else the
/// platform of a new install.
pub open spec fn installed_from(
    name: Seq<char>,
    host: HostView,
    found: Seq<bool>,
    i: nat,
) -> Result<ServicePlatform, ErrorView>
    decreases probed(host.os, host.privileged).len() - i,
{
    let all = probed(host.os, host.privileged);
    if i >= all.len() {
        resolved_platform(host.os, host.privileged)
    } else {
        match service_file_of(all[i as int], name, host) {
            Err(e) => Err(e),
            Ok(_) => if found_at(found, i as int) {
                Ok(all[i as int])
            } else {
                installed_from(name, host, found, i + 1)
            },
        }
    }
}

/// Selects the scope that already holds an installed service, so that a
/// privileged `status`, `start`, `stop`, or `uninstall` still finds a
/// user-scope install and the reverse. `found` tells, for each probed platform
/// in order, whether a registration is there.
pub fn installed_platform(name: &str, host: &ServiceHost, found: &Vec<bool>) -> (r: Result<
    ServicePlatform,
    CliError,
>)
    ensures
        platform_outcome(r) == installed_from(name@, host@, found@, 0),
{
    let all = probed_platforms(host.os.as_str(), host.privileged);
    let mut i: usize = 0;
    while i < all.len()
        invariant
            i <= all.len(),
            all@ == probed(host@.os, host@.privileged),
            installed_from(name@, host@, found@, 0) == installed_from(
                name@,
                host@,
                found@,
                i as nat,
            ),
        decreases all.len() - i,
    {
        let _path = service_file_path(&all[i], name, host)?;
        if i < found.len() && found[i] {
            return Ok(all[i]);
        }
        i = i + 1;
    }
    resolve_platform(host.os.as_str(), host.privileged)
}

/// True where the probe of the given platform found a registration.
pub open spec fn registered_on(
    platform: ServicePlatform,
    host: HostView,
    found: Seq<bool>,
) -> bool {
    exists|i: int|
        0 <= i < probed(host.os, host.privileged).len() && found_at(found, i) && #[trigger]
            probed(host.os, host.privileged)[i] == platform
}

pub open spec fn registration_of(
    platform: ServicePlatform,
    name: Seq<char>,
    host: HostView,
    found: Seq<bool>,
) -> Result<bool, ErrorView> {
    match service_file_of(platform, name, host) {
        Err(e) => Err(e),
        Ok(_) => Ok(registered_on(platform, host, found)),
    }
}

pub open spec fn bool_outcome(r: Result<bool, CliError>) -> Result<bool, ErrorView> {
    match r {
        Ok(b) => Ok(b),
        Err(e) => Err(e@),
    }
}

pub fn service_registration_exists(
    platform: &ServicePlatform,
    name: &str,
    host: &ServiceHost,
    found: &Vec<bool>,
) -> (r: Result<bool, CliError>)
    ensures
        bool_outcome(r) == registration_of(*platform, name@, host@, found@),
{
    let _path = service_file_path(platform, name, host)?;
    let all = probed_platforms(host.os.as_str(), host.privileged);
    let mut i: usize = 0;
    while i < all.len()
        invariant
            i <= all.len(),
            all@ == probed(host@.os, host@.privileged),
            service_file_of(*platform, name@, host@) is Ok,
            forall|j: int| 0 <= j < i ==> !(found_at(found@, j) && #[trigger] all@[j] == *platform),
        decreases all.len() - i,
    {
        if i < found.len() && found[i] && all[i] == *platform {
            assert(found_at(found@, i as int));
            assert(probed(host@.os, host@.privileged)[i as int] == *platform);
            return Ok(true);
        }
        i = i + 1;
    }
    Ok(false)
}

pub open spec fn file_exists_of(name: Seq<char>, host: HostView, found: Seq<bool>) -> Result<
    bool,
    ErrorView,
> {
    match installed_from(name, host, found, 0) {
        Err(e) => Err(e),
        Ok(platform) => registration_of(platform, name, host, found),
    }
}

/// Whether any scope holds the service.
pub fn service_file_exists(name: &str, host: &ServiceHost, found: &Vec<bool>) -> (r: Result<
    bool,
    CliError,
>)
    ensures
        bool_outcome(r) == file_exists_of(name@, host@, found@),
{
    let platform = installed_platform(name, host, found)?;
    service_registration_exists(&platform, name, host, found)
}

/// Where some scope holds the service, the platform that is selected is one that
/// holds it, whatever the process is entitled to.
pub proof fn installed_platform_holds(
    name: Seq<char>,
    host: HostView,
    found: Seq<bool>,
    i: int,
)
    requires
        0 <= i < probed(host.os, host.privileged).len(),
        found_at(found, i),
        forall|j: int|
            0 <= j <= i ==> service_file_of(
                #[trigger] probed(host.os, host.privileged)[j],
                name,
                host,
            ) is Ok,
    ensures
        installed_from(name, host, found, 0) matches Ok(platform) && registered_on(
            platform,
            host,
            found,
        ),
{
    installed_platform_holds_from(name, host, found, i, 0);
}

proof fn installed_platform_holds_from(
    name: Seq<char>,
    host: HostView,
    found: Seq<bool>,
    i: int,
    from: nat,
)
    requires
        from <= i < probed(host.os, host.privileged).len(),
        found_at(found, i),
        forall|j: int|
            0 <= j <= i ==> service_file_of(
                #[trigger] probed(host.os, host.privileged)[j],
                name,
                host,
            ) is Ok,
    ensures
        installed_from(name, host, found, from) matches Ok(platform) && registered_on(
            platform,
            host,
            found,
        ),
    decreases i - from,
{
    let all = probed(host.os, host.privileged);
    assert(service_file_of(all[from as int], name, host) is Ok);
    if found_at(found, from as int) {
        assert(all[from as int] == all[from as int]);
    } else {
        installed_platform_holds_from(name, host, found, i, from + 1);
    }
}

/// The one scope that holds a service is selected, be it the system's or the user's
/// and be the process privileged or not.
pub proof fn the_only_holder_is_selected(
    name: Seq<char>,
    host: HostView,
    found: Seq<bool>,
    i: int,
)
    requires
        0 <= i < probed(host.os, host.privileged).len(),
        forall|j: int|
            0 <= j < probed(host.os, host.privileged).len() ==> (#[trigger] found_at(found, j)
                <==> j == i),
        forall|j: int|
            0 <= j <= i ==> service_file_of(
                #[trigger] probed(host.os, host.privileged)[j],
                name,
                host,
            ) is Ok,
    ensures
        installed_from(name, host, found, 0) == Ok::<ServicePlatform, ErrorView>(
            probed(host.os, host.privileged)[i],
        ),
{
    let all = probed(host.os, host.privileged);
    reveal_with_fuel(installed_from, 3);
    assert(found_at(found, i));
    assert(service_file_of(all[0], name, host) is Ok);
    if i == 1 {
        assert(!found_at(found, 0));
        assert(service_file_of(all[1], name, host) is Ok);
    }
}

pub open spec fn service_status_of(
    name: Seq<char>,
    host: HostView,
    found: Seq<bool>,
    file_exists: bool,
    succeeded: bool,
    stdout: Seq<char>,
) -> Result<StatusView, ErrorView> {
    match installed_from(name, host, found, 0) {
        Err(e) => Err(e),
        Ok(platform) => match service_file_of(platform, name, host) {
            Err(e) => Err(e),
            Ok(file) => Ok(status_of(platform, name, file, file_exists, succeeded, stdout)),
        },
    }
}

/// What the service manager says of a service. `output` is that of
/// `service_status_command`, and `file_exists` tells whether the service file is
/// there.
pub fn service_status(
    name: &str,
    host: &ServiceHost,
    found: &Vec<bool>,
    file_exists: bool,
    output: &CommandResult,
) -> (r: Result<ServiceStatus, CliError>)
    ensures
        error::viewed(r) == service_status_of(
            name@,
            host@,
            found@,
            file_exists,
            output.succeeded,
            output.stdout@,
        ),
{
    let platform = installed_platform(name, host, found)?;
    let service_file = service_file_path(&platform, name, host)?;
    if platform.is_launchd() {
        let label = service_label(name);
        Ok(launchctl_status(&platform, label.as_str(), service_file, file_exists, output))
    } else if platform.is_systemd() {
        Ok(systemd_status(&platform, name, service_file, file_exists, output))
    } else {
        Ok(windows_service_status(name, service_file, output))
    }
}

// ---------------------------------------------------------------------------
// Install plan
// ---------------------------------------------------------------------------

/// One file that an install must write.
#[derive(Debug)]
pub struct ServiceFileWrite {
    pub path: String,
    pub contents: String,
    /// True when the contents embed credentials, so the file needs an
    /// owner-only mode.
    pub private: bool,
}

pub struct FileView {
    pub path: Seq<char>,
    pub contents: Seq<char>,
    pub private: bool,
}

impl View for ServiceFileWrite {
    type V = FileView;

    open spec fn view(&self) -> FileView {
        FileView { path: self.path@, contents: self.contents@, private: self.private }
    }
}

pub open spec fn files(v: Seq<ServiceFileWrite>) -> Seq<FileView> {
    Seq::new(v.len(), |i: int| v[i]@)
}

/// Everything an install writes or creates, resolved before any side effect.
#[derive(Debug)]
pub struct ServiceInstallPlan {
    /// Directories to create, in order, before the writes.
    pub directories: Vec<String>,
    pub files: Vec<ServiceFileWrite>,
    /// System account that a system-scope Linux unit runs as.
    pub service_user: Option<String>,
    /// Unit file that identifies the installed service.
    pub service_file: String,
}

pub struct PlanView {
    pub directories: Seq<Seq<char>>,
    pub files: Seq<FileView>,
    pub service_user: Option<Seq<char>>,
    pub service_file: Seq<char>,
}

impl View for ServiceInstallPlan {
    type V = PlanView;

    open spec fn view(&self) -> PlanView {
        PlanView {
            directories: text::texts(self.directories@),
            files: files(self.files@),
            service_user: text::opt(self.service_user),
            service_file: self.service_file@,
        }
    }
}

/// A sequence without the elements that equal their predecessor.
pub open spec fn deduped(s: Seq<Seq<char>>) -> Seq<Seq<char>>
    decreases s.len(),
{
    if s.len() < 2 {
        s
    } else if s.last() == s[s.len() - 2] {
        deduped(s.drop_last())
    } else {
        deduped(s.drop_last()).push(s.last())
    }
}

fn dedup_texts(v: &Vec<String>) -> (r: Vec<String>)
    ensures
        text::texts(r@) == deduped(text::texts(v@)),
{
    let mut out: Vec<String> = Vec::new();
    let mut i: usize = 0;
    let ghost all = text::texts(v@);
    while i < v.len()
        invariant
            i <= v.len(),
            all == text::texts(v@),
            text::texts(out@) == deduped(all.take(i as int)),
        decreases v.len() - i,
    {
        let ghost next = all.take(i as int + 1);
        assert(next.drop_last() =~= all.take(i as int));
        assert(next.last() == v@[i as int]@);
        if i == 0 || !text::same(v[i].as_str(), v[i - 1].as_str()) {
            let item = v[i].clone();
            proof {
                text::texts_push(out@, item);
                if i > 0 {
                    assert(next[next.len() - 2] == v@[i - 1]@);
                } else {
                    assert(next =~= seq![v@[0]@]);
                    assert(text::texts(out@) =~= Seq::<Seq<char>>::empty());
                    assert(text::texts(out@).push(item@) =~= next);
                }
            }
            out.push(item);
        } else {
            assert(next[next.len() - 2] == v@[i - 1]@);
        }
        i = i + 1;
    }
    assert(all.take(i as int) =~= all);
    out
}

/// The path of the environment file, where the service has one.
pub open spec fn plan_environment_file(
    platform: ServicePlatform,
    spec: InstallSpecView,
    host: HostView,
) -> Result<Option<Seq<char>>, ErrorView> {
    if systemd(platform) && merged_env(spec).len() > 0 {
        match environment_file_of(platform, sanitized(spec.name), host) {
            Ok(path) => Ok(Some(path)),
            Err(e) => Err(e),
        }
    } else {
        Ok(None)
    }
}

/// The text of the file that identifies the service.
pub open spec fn plan_unit(
    platform: ServicePlatform,
    spec: InstallSpecView,
    environment_file: Option<Seq<char>>,
    host: HostView,
) -> Result<Seq<char>, ErrorView> {
    if launchd(platform) {
        plist_text(spec, platform, host)
    } else if systemd(platform) {
        unit_text(spec, platform, environment_file, host)
    } else {
        Err(error::internal_error("windows service installation does not use a unit file"@))
    }
}

/// The directories of an install, in order, before repetitions are left out.
pub open spec fn plan_directories(
    platform: ServicePlatform,
    service_dir: Seq<char>,
    logs: Seq<char>,
    environment_dir: Option<Seq<char>>,
) -> Seq<Seq<char>> {
    let base = seq![service_dir];
    let config = if scope_of(platform) == ServiceScope::System {
        seq![SYSTEM_CONFIG_DIR@]
    } else {
        Seq::empty()
    };
    let logging = if launchd(platform) {
        seq![logs]
    } else {
        Seq::empty()
    };
    let environment = match environment_dir {
        Some(dir) => seq![dir],
        None => Seq::empty(),
    };
    base + config + logging + environment
}

pub open spec fn install_plan_of(
    platform: ServicePlatform,
    spec: InstallSpecView,
    host: HostView,
) -> Result<PlanView, ErrorView> {
    match service_file_of(platform, spec.name, host) {
        Err(e) => Err(e),
        Ok(service_file) => {
            let logs = if launchd(platform) {
                logs_of(platform, host)
            } else {
                Ok(Seq::empty())
            };
            match logs {
                Err(e) => Err(e),
                Ok(logs) => match plan_environment_file(platform, spec, host) {
                    Err(e) => Err(e),
                    Ok(environment_file) => {
                        let env_text = if environment_file is Some {
                            environment_file_text(merged_env(spec))
                        } else {
                            Ok(Seq::empty())
                        };
                        match env_text {
                            Err(e) => Err(e),
                            Ok(env_text) => match plan_unit(
                                platform,
                                spec,
                                environment_file,
                                host,
                            ) {
                                Err(e) => Err(e),
                                Ok(contents) => {
                                    let environment = match environment_file {
                                        Some(path) => seq![
                                            FileView { path, contents: env_text, private: true },
                                        ],
                                        None => Seq::empty(),
                                    };
                                    let unit = FileView {
                                        path: service_file,
                                        contents,
                                        private: carries_secret(merged_env(spec))
                                            && environment_file is None,
                                    };
                                    Ok(
                                        PlanView {
                                            directories: deduped(
                                                plan_directories(
                                                    platform,
                                                    service_dir_of(platform, host)->Ok_0,
                                                    logs,
                                                    match environment_file {
                                                        Some(_) => Some(
                                                            environment_dir_of(
                                                                platform,
                                                                host,
                                                            )->Ok_0,
                                                        ),
                                                        None => None,
                                                    },
                                                ),
                                            ),
                                            files: environment.push(unit),
                                            service_user: if platform
                                                == ServicePlatform::SystemdSystem {
                                                Some(SYSTEM_SERVICE_USER@)
                                            } else {
                                                None
                                            },
                                            service_file,
                                        },
                                    )
                                },
                            },
                        }
                    },
                },
            }
        },
    }
}

/// Resolves every path, text and file mode of an install.
pub fn build_install_plan(
    platform: &ServicePlatform,
    spec: &GatewayServiceInstallSpec,
    host: &ServiceHost,
) -> (r: Result<ServiceInstallPlan, CliError>)
    ensures
        error::viewed(r) == install_plan_of(*platform, spec@, host@),
{
    let safe_name = require_safe_service_name(spec.name.as_str())?;
    let service_file = service_file_path(platform, spec.name.as_str(), host)?;
    let env = merged_service_env(spec);
    let has_secret = env_carries_secret_material(&env);

    let service_dir = service_directory(platform, host)?;
    let ghost base = service_dir@;
    let mut directories: Vec<String> = vec![service_dir];
    assert(text::texts(directories@) =~= seq![base]);
    let ghost config = if scope_of(*platform) == ServiceScope::System {
        seq![SYSTEM_CONFIG_DIR@]
    } else {
        Seq::empty()
    };
    if platform.scope() == ServiceScope::System {
        directories.push(SYSTEM_CONFIG_DIR.to_string());
    }
    assert(text::texts(directories@) =~= seq![base] + config);
    let ghost mut logs_text: Seq<char> = Seq::empty();
    if platform.is_launchd() {
        let logs = logs_dir(platform, host)?;
        proof {
            logs_text = logs@;
        }
        directories.push(logs);
    }
    let ghost logging = if launchd(*platform) {
        seq![logs_text]
    } else {
        Seq::empty()
    };
    assert(text::texts(directories@) =~= seq![base] + config + logging);

    let mut files_out: Vec<ServiceFileWrite> = Vec::new();
    let environment_file = if platform.is_systemd() && !env.is_empty() {
        Some(environment_file_path(platform, safe_name.as_str(), host)?)
    } else {
        None
    };
    if let Some(path) = &environment_file {
        let dir = environment_directory(platform, host)?;
        directories.push(dir);
        files_out.push(
            ServiceFileWrite {
                path: path.clone(),
                contents: render_systemd_environment_file(&env)?,
                private: true,
            },
        );
    }
    let ghost environment_dir = match environment_file {
        Some(_) => Some(environment_dir_of(*platform, host@)->Ok_0),
        None => None,
    };
    assert(text::texts(directories@) =~= plan_directories(
        *platform,
        base,
        logs_text,
        environment_dir,
    ));

    let contents = match platform {
        ServicePlatform::Launchd | ServicePlatform::LaunchDaemon => {
            render_launchd_plist(spec, platform, host)?
        },
        ServicePlatform::SystemdUser | ServicePlatform::SystemdSystem => {
            render_systemd_unit(spec, platform, text::borrow_opt(&environment_file), host)?
        },
        ServicePlatform::WindowsService => {
            return Err(
                CliError::internal(
                    "windows service installation does not use a unit file".to_string(),
                ),
            );
        },
    };

    // A systemd unit that references an environment file embeds no secret. A
    // launchd plist has no environment-file mechanism, so it keeps the values
    // inline and needs the restricted mode itself.
    let unit_embeds_secret = has_secret && environment_file.is_none();
    let ghost written = files(files_out@);
    let unit = ServiceFileWrite {
        path: service_file.clone(),
        contents,
        private: unit_embeds_secret,
    };
    let ghost unit_view = unit@;
    files_out.push(unit);
    assert(files(files_out@) =~= written.push(unit_view));
    proof {
        match environment_file {
            Some(_) => {
                assert(written =~= seq![written[0]]);
            },
            None => {
                assert(written =~= Seq::<FileView>::empty());
            },
        }
    }

    let service_user = match platform {
        ServicePlatform::SystemdSystem => Some(SYSTEM_SERVICE_USER.to_string()),
        _ => None,
    };
    let directories = dedup_texts(&directories);
    Ok(ServiceInstallPlan { directories, files: files_out, service_user, service_file })
}

/// Credentials rest in owner-only files: where the variables carry secret
/// material, a systemd install writes them to a private environment file and a
/// launchd install makes the property list itself private.
pub proof fn install_plan_protects_secrets(
    platform: ServicePlatform,
    spec: InstallSpecView,
    host: HostView,
)
    requires
        install_plan_of(platform, spec, host) is Ok,
        carries_secret(merged_env(spec)),
    ensures
        ({
            let plan = install_plan_of(platform, spec, host)->Ok_0;
            if systemd(platform) {
                &&& plan.files.len() == 2
                &&& plan.files[0].private
                &&& plan.files[0].contents == environment_lines(merged_env(spec))
                &&& plan.files[1].path == plan.service_file
                &&& !plan.files[1].private
            } else {
                &&& plan.files.len() == 1
                &&& plan.files[0].path == plan.service_file
                &&& plan.files[0].private
            }
        }),
{
}

// ---------------------------------------------------------------------------
// Operations
// ---------------------------------------------------------------------------

/// One step of a service operation, in the order in which it is carried out.
#[derive(Debug)]
pub enum ServiceStep {
    /// Create the system account unless it is there.
    EnsureUser(String),
    CreateDirectory(String),
    WriteFile(ServiceFileWrite),
    Run(ServiceCommand),
    /// Run a command with extra variables that carry secret material, so they
    /// never appear in an error message.
    RunWithEnv(ServiceCommand, Vec<(String, String)>),
    /// Remove the service file where it exists.
    RemoveServiceFile(String),
    /// Remove the environment file where it exists.
    RemoveEnvironmentFile(String),
    /// Ask, by a command, whether the service of that name reached the active state
    /// on that platform.
    VerifyActive(ServicePlatform, String, ServiceCommand),
    /// The operation ends here with an error.
    Fail(CliError),
}

pub enum StepView {
    EnsureUser(Seq<char>),
    CreateDirectory(Seq<char>),
    WriteFile(FileView),
    Run(CommandView),
    RunWithEnv(CommandView, Seq<Pair>),
    RemoveServiceFile(Seq<char>),
    RemoveEnvironmentFile(Seq<char>),
    VerifyActive(ServicePlatform, Seq<char>, CommandView),
    Fail(ErrorView),
}

impl View for ServiceStep {
    type V = StepView;

    open spec fn view(&self) -> StepView {
        match self {
            ServiceStep::EnsureUser(user) => StepView::EnsureUser(user@),
            ServiceStep::CreateDirectory(path) => StepView::CreateDirectory(path@),
            ServiceStep::WriteFile(file) => StepView::WriteFile(file@),
            ServiceStep::Run(command) => StepView::Run(command@),
            ServiceStep::RunWithEnv(command, env) => StepView::RunWithEnv(
                command@,
                env_map::pairs(env@),
            ),
            ServiceStep::RemoveServiceFile(path) => StepView::RemoveServiceFile(path@),
            ServiceStep::RemoveEnvironmentFile(path) => StepView::RemoveEnvironmentFile(path@),
            ServiceStep::VerifyActive(platform, name, command) => StepView::VerifyActive(
                *platform,
                name@,
                command@,
            ),
            ServiceStep::Fail(e) => StepView::Fail(e@),
        }
    }
}

pub open spec fn steps(v: Seq<ServiceStep>) -> Seq<StepView> {
    Seq::new(v.len(), |i: int| v[i]@)
}

/// A service operation: where it acts and what it does.
#[derive(Debug)]
pub struct ServiceOperation {
    pub platform: ServicePlatform,
    pub service_file: String,
    pub steps: Vec<ServiceStep>,
}

pub struct OperationView {
    pub platform: ServicePlatform,
    pub service_file: Seq<char>,
    pub steps: Seq<StepView>,
}

impl View for ServiceOperation {
    type V = OperationView;

    open spec fn view(&self) -> OperationView {
        OperationView {
            platform: self.platform,
            service_file: self.service_file@,
            steps: steps(self.steps@),
        }
    }
}

pub open spec fn run_steps(list: Seq<CommandView>) -> Seq<StepView> {
    Seq::new(list.len(), |i: int| StepView::Run(list[i]))
}

fn push_commands(out: &mut Vec<ServiceStep>, list: Vec<ServiceCommand>)
    ensures
        steps(final(out)@) == steps(old(out)@) + run_steps(commands(list@)),
{
    let ghost start = steps(out@);
    let ghost all = run_steps(commands(list@));
    assert(start + all.take(0) =~= start);
    for command in iter: list
        invariant
            all == run_steps(commands(iter.seq())),
            steps(out@) == start + all.take(iter.index()),
    {
        let ghost before = out@;
        out.push(ServiceStep::Run(command));
        assert(steps(out@) =~= steps(before).push(StepView::Run(command@)));
        assert(steps(out@) =~= start + all.take(iter.index() + 1));
    }
    assert(all.take(all.len() as int) =~= all);
}

fn push_directories(out: &mut Vec<ServiceStep>, list: &Vec<String>)
    ensures
        steps(final(out)@) == steps(old(out)@) + directory_steps(text::texts(list@)),
{
    let ghost start = steps(out@);
    let ghost all = directory_steps(text::texts(list@));
    let mut i: usize = 0;
    assert(start + all.take(0) =~= start);
    while i < list.len()
        invariant
            i <= list.len(),
            all == directory_steps(text::texts(list@)),
            steps(out@) == start + all.take(i as int),
        decreases list.len() - i,
    {
        let ghost before = out@;
        out.push(ServiceStep::CreateDirectory(list[i].clone()));
        i = i + 1;
        assert(steps(out@) =~= steps(before).push(StepView::CreateDirectory(list@[i - 1]@)));
        assert(steps(out@) =~= start + all.take(i as int));
    }
    assert(all.take(all.len() as int) =~= all);
}

fn push_files(out: &mut Vec<ServiceStep>, list: Vec<ServiceFileWrite>)
    ensures
        steps(final(out)@) == steps(old(out)@) + file_steps(files(list@)),
{
    let ghost start = steps(out@);
    let ghost all = file_steps(files(list@));
    assert(start + all.take(0) =~= start);
    for file in iter: list
        invariant
            all == file_steps(files(iter.seq())),
            steps(out@) == start + all.take(iter.index()),
    {
        let ghost before = out@;
        out.push(ServiceStep::WriteFile(file));
        assert(steps(out@) =~= steps(before).push(StepView::WriteFile(file@)));
        assert(steps(out@) =~= start + all.take(iter.index() + 1));
    }
    assert(all.take(all.len() as int) =~= all);
}

pub open spec fn directory_steps(list: Seq<Seq<char>>) -> Seq<StepView> {
    Seq::new(list.len(), |i: int| StepView::CreateDirectory(list[i]))
}

pub open spec fn file_steps(list: Seq<FileView>) -> Seq<StepView> {
    Seq::new(list.len(), |i: int| StepView::WriteFile(list[i]))
}

/// The commands, or the failure to name them.
pub open spec fn run_or_fail(list: Result<Seq<CommandView>, ErrorView>) -> Seq<StepView> {
    match list {
        Ok(list) => run_steps(list),
        Err(e) => seq![StepView::Fail(e)],
    }
}

/// The steps of an install from its plan.
pub open spec fn plan_steps(
    platform: ServicePlatform,
    name: Seq<char>,
    plan: PlanView,
    host: HostView,
) -> Seq<StepView> {
    let account = match plan.service_user {
        Some(user) => seq![StepView::EnsureUser(user)],
        None => Seq::empty(),
    };
    account + directory_steps(plan.directories) + file_steps(plan.files) + run_or_fail(
        activation_of(platform, name, plan.service_file, host),
    )
}

pub open spec fn bin_path_of(spec: InstallSpecView, host: HostView) -> Result<
    Seq<char>,
    ErrorView,
> {
    match binary_of(spec, host) {
        Err(e) => Err(e),
        Ok(exe) => {
            let all = seq![exe] + run_args(spec, host);
            Ok(text::join(Seq::new(all.len(), |i: int| windows_quoted(all[i])), " "@))
        },
    }
}

/// Builds the `binPath=` value for a Windows service registration.
///
/// The executable and every argument that holds a space get quotation marks,
/// because the service control manager splits the value on whitespace.
pub fn windows_service_bin_path(spec: &GatewayServiceInstallSpec, host: &ServiceHost) -> (r: Result<
    String,
    CliError,
>)
    ensures
        error::viewed(r) == bin_path_of(spec@, host@),
{
    let exe = service_binary_path(spec, host)?;
    let all = with_first(exe, command_args(spec, host));
    let ghost values = text::texts(all@);
    let mut parts: Vec<String> = Vec::new();
    let mut i: usize = 0;
    while i < all.len()
        invariant
            i <= all.len(),
            parts.len() == i,
            forall|k: int| 0 <= k < i ==> (#[trigger] parts@[k])@ == windows_quoted(all@[k]@),
        decreases all.len() - i,
    {
        parts.push(windows_quote(all[i].as_str()));
        i = i + 1;
    }
    assert(text::texts(parts@) =~= Seq::new(values.len(), |k: int| windows_quoted(values[k])));
    Ok(text::join_texts(&parts, " "))
}

/// The step that sets the registry environment of a service.
pub open spec fn windows_environment_step(safe: Seq<char>, block: Seq<char>) -> StepView {
    StepView::RunWithEnv(
        strict_command(
            "powershell.exe"@,
            seq!["-NoProfile"@, "-NonInteractive"@, "-Command"@, WINDOWS_SERVICE_ENV_SCRIPT@],
        ),
        seq![(WINDOWS_ENV_SERVICE_VAR@, safe), (WINDOWS_ENV_BLOCK_VAR@, block)],
    )
}

/// Sets the `HKLM` service environment block.
///
/// The credential never reaches a command line and never reaches a file. It
/// goes to PowerShell in the child process environment, so the registry value
/// is the only place it comes to rest.
pub fn apply_windows_service_environment(safe_name: &str, env: &EnvMap) -> (r: Result<
    ServiceStep,
    CliError,
>)
    ensures
        match windows_block(env@) {
            Ok(block) => r matches Ok(step) && step@ == windows_environment_step(
                safe_name@,
                block,
            ),
            Err(e) => r matches Err(got) && got@ == e,
        },
{
    let block = render_windows_service_environment_block(env)?;
    let ghost block_text = block@;
    let extra = vec![
        (WINDOWS_ENV_SERVICE_VAR.to_string(), safe_name.to_string()),
        (WINDOWS_ENV_BLOCK_VAR.to_string(), block),
    ];
    assert(env_map::pairs(extra@) =~= seq![
        (WINDOWS_ENV_SERVICE_VAR@, safe_name@),
        (WINDOWS_ENV_BLOCK_VAR@, block_text),
    ]);
    Ok(
        ServiceStep::RunWithEnv(
            ServiceCommand::strict(
                "powershell.exe",
                args4("-NoProfile", "-NonInteractive", "-Command", WINDOWS_SERVICE_ENV_SCRIPT),
            ),
            extra,
        ),
    )
}

/// Registration of a service that is there, or of a new one.
pub open spec fn windows_registration(safe: Seq<char>, bin_path: Seq<char>, registered: bool) -> Seq<
    StepView,
> {
    if registered {
        seq![
            StepView::Run(lenient_command("sc.exe"@, seq!["stop"@, safe])),
            StepView::Run(
                strict_command(
                    "sc.exe"@,
                    seq!["config"@, safe, "binPath="@, bin_path, "start="@, "auto"@],
                ),
            ),
        ]
    } else {
        seq![
            StepView::Run(
                strict_command(
                    "sc.exe"@,
                    seq![
                        "create"@,
                        safe,
                        "binPath="@,
                        bin_path,
                        "start="@,
                        "auto"@,
                        "DisplayName="@,
                        "Verdictan Gateway ("@ + safe + ")"@,
                    ],
                ),
            ),
        ]
    }
}

pub open spec fn windows_description(safe: Seq<char>) -> StepView {
    StepView::Run(
        lenient_command(
            "sc.exe"@,
            seq![
                "description"@,
                safe,
                "Verdictan gateway service running verdictan gateway run"@,
            ],
        ),
    )
}

pub open spec fn windows_finish(safe: Seq<char>) -> Seq<StepView> {
    seq![
        StepView::Run(
            strict_command(
                "sc.exe"@,
                seq![
                    "failure"@,
                    safe,
                    "reset="@,
                    WINDOWS_FAILURE_RESET_SECONDS@,
                    "actions="@,
                    WINDOWS_FAILURE_ACTIONS@,
                ],
            ),
        ),
        StepView::Run(strict_command("sc.exe"@, seq!["start"@, safe])),
    ]
}

/// The steps of a Windows install. A variable that the registry refuses ends them.
pub open spec fn windows_steps(
    safe: Seq<char>,
    bin_path: Seq<char>,
    env: Seq<Pair>,
    registered: bool,
) -> Seq<StepView> {
    let start = windows_registration(safe, bin_path, registered).push(windows_description(safe));
    if env.len() == 0 {
        start + windows_finish(safe)
    } else {
        match windows_block(env) {
            Ok(block) => start.push(windows_environment_step(safe, block)) + windows_finish(safe),
            Err(e) => start.push(StepView::Fail(e)),
        }
    }
}

pub open spec fn windows_install_of(
    spec: InstallSpecView,
    host: HostView,
    registered: bool,
) -> Result<OperationView, ErrorView> {
    match required_name(spec.name) {
        Err(e) => Err(e),
        Ok(safe) => match bin_path_of(spec, host) {
            Err(e) => Err(e),
            Ok(bin_path) => Ok(
                OperationView {
                    platform: ServicePlatform::WindowsService,
                    service_file: path_join(
                        WINDOWS_SERVICE_REGISTRY_ROOT@,
                        safe,
                        host.separator,
                    ),
                    steps: windows_steps(safe, bin_path, merged_env(spec), registered),
                },
            ),
        },
    }
}

fn push_step(out: &mut Vec<ServiceStep>, step: ServiceStep)
    ensures
        steps(final(out)@) == steps(old(out)@).push(step@),
{
    let ghost before = out@;
    let ghost view = step@;
    out.push(step);
    assert(steps(out@) =~= steps(before).push(view));
}

/// Registers or updates a Windows service.
///
/// The install writes the service registration, the `HKLM` environment block,
/// and the restart policy. `registered` tells whether the service is there.
pub fn install_windows_service(
    spec: &GatewayServiceInstallSpec,
    host: &ServiceHost,
    registered: bool,
) -> (r: Result<ServiceOperation, CliError>)
    ensures
        error::viewed(r) == windows_install_of(spec@, host@, registered),
{
    let safe_name = require_safe_service_name(spec.name.as_str())?;
    let safe = safe_name.as_str();
    let bin_path = windows_service_bin_path(spec, host)?;
    let mut display_name = "Verdictan Gateway (".to_string();
    display_name.append(safe);
    display_name.append(")");
    let service_file = join_path(WINDOWS_SERVICE_REGISTRY_ROOT, safe, host.separator);

    let mut out: Vec<ServiceStep> = Vec::new();
    assert(steps(out@) =~= Seq::<StepView>::empty());
    if registered {
        push_step(
            &mut out,
            ServiceStep::Run(ServiceCommand::lenient("sc.exe", args2("stop", safe))),
        );
        let args = vec![
            "config".to_string(),
            safe.to_string(),
            "binPath=".to_string(),
            bin_path.clone(),
            "start=".to_string(),
            "auto".to_string(),
        ];
        assert(text::texts(args@) =~= seq![
            "config"@,
            safe@,
            "binPath="@,
            bin_path@,
            "start="@,
            "auto"@,
        ]);
        push_step(&mut out, ServiceStep::Run(ServiceCommand::strict("sc.exe", args)));
    } else {
        let args = vec![
            "create".to_string(),
            safe.to_string(),
            "binPath=".to_string(),
            bin_path.clone(),
            "start=".to_string(),
            "auto".to_string(),
            "DisplayName=".to_string(),
            display_name.clone(),
        ];
        assert(text::texts(args@) =~= seq![
            "create"@,
            safe@,
            "binPath="@,
            bin_path@,
            "start="@,
            "auto"@,
            "DisplayName="@,
            display_name@,
        ]);
        push_step(&mut out, ServiceStep::Run(ServiceCommand::strict("sc.exe", args)));
    }
    assert(steps(out@) =~= windows_registration(safe@, bin_path@, registered));
    push_step(
        &mut out,
        ServiceStep::Run(
            ServiceCommand::lenient(
                "sc.exe",
                args3(
                    "description",
                    safe,
                    "Verdictan gateway service running verdictan gateway run",
                ),
            ),
        ),
    );
    let env = merged_service_env(spec);
    if !env.is_empty() {
        match apply_windows_service_environment(safe, &env) {
            Ok(step) => {
                push_step(&mut out, step);
            },
            Err(e) => {
                push_step(&mut out, ServiceStep::Fail(e));
                return Ok(
                    ServiceOperation {
                        platform: ServicePlatform::WindowsService,
                        service_file,
                        steps: out,
                    },
                );
            },
        }
    }
    let ghost start = steps(out@);
    let args = vec![
        "failure".to_string(),
        safe.to_string(),
        "reset=".to_string(),
        WINDOWS_FAILURE_RESET_SECONDS.to_string(),
        "actions=".to_string(),
        WINDOWS_FAILURE_ACTIONS.to_string(),
    ];
    assert(text::texts(args@) =~= seq![
        "failure"@,
        safe@,
        "reset="@,
        WINDOWS_FAILURE_RESET_SECONDS@,
        "actions="@,
        WINDOWS_FAILURE_ACTIONS@,
    ]);
    push_step(&mut out, ServiceStep::Run(ServiceCommand::strict("sc.exe", args)));
    push_step(
        &mut out,
        ServiceStep::Run(ServiceCommand::strict("sc.exe", args2("start", safe))),
    );
    assert(steps(out@) =~= start + windows_finish(safe@));
    Ok(
        ServiceOperation {
            platform: ServicePlatform::WindowsService,
            service_file,
            steps: out,
        },
    )
}

/// The last step of an install: it fails unless the service reached the active state.
pub open spec fn verification_of(
    platform: ServicePlatform,
    name: Seq<char>,
    host: HostView,
) -> StepView {
    match active_state_of(platform, name, host) {
        Ok(command) => StepView::VerifyActive(platform, name, command),
        Err(e) => StepView::Fail(e),
    }
}

fn verification_step(platform: ServicePlatform, name: &str, host: &ServiceHost) -> (r: ServiceStep)
    ensures
        r@ == verification_of(platform, name@, host@),
{
    match active_state_command(&platform, name, host) {
        Ok(command) => ServiceStep::VerifyActive(platform, name.to_string(), command),
        Err(e) => ServiceStep::Fail(e),
    }
}

pub open spec fn install_of(
    spec: InstallSpecView,
    host: HostView,
    registered: bool,
) -> Result<OperationView, ErrorView> {
    match resolved_platform(host.os, host.privileged) {
        Err(e) => Err(e),
        Ok(platform) => if platform == ServicePlatform::WindowsService {
            match windows_install_of(spec, host, registered) {
                Err(e) => Err(e),
                Ok(operation) => Ok(
                    OperationView {
                        steps: operation.steps.push(verification_of(platform, spec.name, host)),
                        ..operation
                    },
                ),
            }
        } else {
            match install_plan_of(platform, spec, host) {
                Err(e) => Err(e),
                Ok(plan) => Ok(
                    OperationView {
                        platform,
                        service_file: plan.service_file,
                        steps: plan_steps(platform, spec.name, plan, host).push(
                            verification_of(platform, spec.name, host),
                        ),
                    },
                ),
            }
        },
    }
}

/// The install of a service on the platform that the process is entitled to. It
/// ends with the question whether the service runs. `registered` tells, on Windows,
/// whether the service is there.
pub fn install_service(
    spec: &GatewayServiceInstallSpec,
    host: &ServiceHost,
    registered: bool,
) -> (r: Result<ServiceOperation, CliError>)
    ensures
        error::viewed(r) == install_of(spec@, host@, registered),
{
    let platform = resolve_platform(host.os.as_str(), host.privileged)?;
    let verification = verification_step(platform, spec.name.as_str(), host);
    if platform == ServicePlatform::WindowsService {
        let operation = install_windows_service(spec, host, registered)?;
        let mut out = operation.steps;
        push_step(&mut out, verification);
        return Ok(
            ServiceOperation {
                platform: operation.platform,
                service_file: operation.service_file,
                steps: out,
            },
        );
    }
    let plan = build_install_plan(&platform, spec, host)?;
    let ghost view = plan@;
    let mut out: Vec<ServiceStep> = Vec::new();
    if let Some(user) = &plan.service_user {
        out.push(ServiceStep::EnsureUser(user.clone()));
    }
    let ghost account = match view.service_user {
        Some(user) => seq![StepView::EnsureUser(user)],
        None => Seq::empty(),
    };
    assert(steps(out@) =~= account);
    push_directories(&mut out, &plan.directories);
    push_files(&mut out, plan.files);
    match activation_commands(&platform, spec.name.as_str(), plan.service_file.as_str(), host) {
        Ok(list) => {
            push_commands(&mut out, list);
        },
        Err(e) => {
            let ghost before = steps(out@);
            let ghost failure = e@;
            push_step(&mut out, ServiceStep::Fail(e));
            assert(steps(out@) =~= before + seq![StepView::Fail(failure)]);
        },
    }
    push_step(&mut out, verification);
    Ok(ServiceOperation { platform, service_file: plan.service_file, steps: out })
}

/// What others on the machine can see of a step: all but the extra variables of a
/// command.
pub open spec fn shown(step: StepView) -> StepView {
    match step {
        StepView::RunWithEnv(command, _) => StepView::RunWithEnv(command, Seq::empty()),
        _ => step,
    }
}

/// The credentials of a Windows service never reach a command line and never reach a
/// file: the programs and arguments of an install are the same whatever the
/// variables hold, and it writes no file.
pub proof fn windows_credentials_stay_hidden(
    one: InstallSpecView,
    other: InstallSpecView,
    host: HostView,
    registered: bool,
)
    requires
        other == (InstallSpecView {
            env: other.env,
            api_token: other.api_token,
            agent_id: other.agent_id,
            ..one
        }),
        windows_install_of(one, host, registered) is Ok,
        merged_env(one).len() > 0,
        merged_env(other).len() > 0,
        windows_block(merged_env(one)) is Ok,
        windows_block(merged_env(other)) is Ok,
    ensures
        ({
            let a = windows_install_of(one, host, registered)->Ok_0.steps;
            let b = windows_install_of(other, host, registered)->Ok_0.steps;
            &&& a.len() == b.len()
            &&& forall|i: int| 0 <= i < a.len() ==> shown(#[trigger] a[i]) == shown(b[i])
            &&& forall|i: int| 0 <= i < a.len() ==> !((#[trigger] a[i]) is WriteFile)
        }),
{
}

pub open spec fn not_installed_error(name: Seq<char>) -> ErrorView {
    error::user_error("service "@ + name + " is not installed"@)
}

/// Starting or stopping a service that some scope holds.
pub open spec fn change_of(
    name: Seq<char>,
    host: HostView,
    found: Seq<bool>,
    start: bool,
) -> Result<OperationView, ErrorView> {
    match installed_from(name, host, found, 0) {
        Err(e) => Err(e),
        Ok(platform) => match service_file_of(platform, name, host) {
            Err(e) => Err(e),
            Ok(service_file) => if !registered_on(platform, host, found) {
                Err(not_installed_error(name))
            } else {
                match if start {
                    activation_of(platform, name, service_file, host)
                } else {
                    deactivation_of(platform, name, host)
                } {
                    Err(e) => Err(e),
                    Ok(list) => Ok(OperationView { platform, service_file, steps: run_steps(list) }),
                }
            },
        },
    }
}

fn change_service(name: &str, host: &ServiceHost, found: &Vec<bool>, start: bool) -> (r: Result<
    ServiceOperation,
    CliError,
>)
    ensures
        error::viewed(r) == change_of(name@, host@, found@, start),
{
    let platform = installed_platform(name, host, found)?;
    let service_file = service_file_path(&platform, name, host)?;
    if !service_registration_exists(&platform, name, host, found)? {
        let mut message = "service ".to_string();
        message.append(name);
        message.append(" is not installed");
        return Err(CliError::user(message));
    }
    let list = if start {
        activation_commands(&platform, name, service_file.as_str(), host)?
    } else {
        deactivation_commands(&platform, name, host)?
    };
    let ghost views = commands(list@);
    let mut out: Vec<ServiceStep> = Vec::new();
    push_commands(&mut out, list);
    assert(steps(out@) =~= run_steps(views));
    Ok(ServiceOperation { platform, service_file, steps: out })
}

pub fn start_service(name: &str, host: &ServiceHost, found: &Vec<bool>) -> (r: Result<
    ServiceOperation,
    CliError,
>)
    ensures
        error::viewed(r) == change_of(name@, host@, found@, true),
{
    change_service(name, host, found, true)
}

pub fn stop_service(name: &str, host: &ServiceHost, found: &Vec<bool>) -> (r: Result<
    ServiceOperation,
    CliError,
>)
    ensures
        error::viewed(r) == change_of(name@, host@, found@, false),
{
    change_service(name, host, found, false)
}

/// The steps of an uninstall after the deactivation.
pub open spec fn removal_of(
    platform: ServicePlatform,
    name: Seq<char>,
    service_file: Seq<char>,
    host: HostView,
) -> Seq<StepView> {
    if platform == ServicePlatform::WindowsService {
        seq![StepView::Run(strict_command("sc.exe"@, seq!["delete"@, sanitized(name)]))]
    } else if systemd(platform) {
        seq![StepView::RemoveServiceFile(service_file)] + match environment_file_of(
            platform,
            sanitized(name),
            host,
        ) {
            Ok(path) => seq![
                StepView::RemoveEnvironmentFile(path),
                StepView::Run(
                    lenient_command("systemctl"@, scoped_args(platform, seq!["daemon-reload"@])),
                ),
            ],
            Err(e) => seq![StepView::Fail(e)],
        }
    } else {
        seq![StepView::RemoveServiceFile(service_file)]
    }
}

pub open spec fn uninstall_of(name: Seq<char>, host: HostView, found: Seq<bool>) -> Result<
    OperationView,
    ErrorView,
> {
    match installed_from(name, host, found, 0) {
        Err(e) => Err(e),
        Ok(platform) => match service_file_of(platform, name, host) {
            Err(e) => Err(e),
            Ok(service_file) => match deactivation_of(platform, name, host) {
                Err(e) => Err(e),
                Ok(list) => Ok(
                    OperationView {
                        platform,
                        service_file,
                        steps: run_steps(list) + removal_of(platform, name, service_file, host),
                    },
                ),
            },
        },
    }
}

/// The uninstall of a service: it is stopped, then its files go.
///
/// The environment file holds a live credential, so it must not outlive the
/// unit that referenced it.
pub fn uninstall_service(name: &str, host: &ServiceHost, found: &Vec<bool>) -> (r: Result<
    ServiceOperation,
    CliError,
>)
    ensures
        error::viewed(r) == uninstall_of(name@, host@, found@),
{
    let platform = installed_platform(name, host, found)?;
    let service_file = service_file_path(&platform, name, host)?;
    let list = deactivation_commands(&platform, name, host)?;
    let ghost views = commands(list@);
    let mut out: Vec<ServiceStep> = Vec::new();
    push_commands(&mut out, list);
    assert(steps(out@) =~= run_steps(views));
    let safe_name = require_safe_service_name(name)?;
    let safe = safe_name.as_str();
    let ghost start = steps(out@);
    if platform == ServicePlatform::WindowsService {
        push_step(
            &mut out,
            ServiceStep::Run(ServiceCommand::strict("sc.exe", args2("delete", safe))),
        );
    } else {
        push_step(&mut out, ServiceStep::RemoveServiceFile(service_file.clone()));
        if platform.is_systemd() {
            match environment_file_path(&platform, safe, host) {
                Ok(path) => {
                    push_step(&mut out, ServiceStep::RemoveEnvironmentFile(path));
                    let args = systemctl_args(&platform, args1("daemon-reload"));
                    push_step(
                        &mut out,
                        ServiceStep::Run(ServiceCommand::lenient("systemctl", args)),
                    );
                },
                Err(e) => {
                    push_step(&mut out, ServiceStep::Fail(e));
                },
            }
        }
    }
    assert(steps(out@) =~= start + removal_of(platform, name@, service_file@, host@));
    Ok(ServiceOperation { platform, service_file, steps: out })
}

/// An uninstall on systemd removes the environment file that an install of the
/// same service wrote, so no credential outlives the unit.
pub proof fn uninstall_removes_environment_file(
    platform: ServicePlatform,
    spec: InstallSpecView,
    host: HostView,
)
    requires
        systemd(platform),
        install_plan_of(platform, spec, host) is Ok,
        merged_env(spec).len() > 0,
    ensures
        ({
            let plan = install_plan_of(platform, spec, host)->Ok_0;
            removal_of(platform, spec.name, plan.service_file, host).contains(
                StepView::RemoveEnvironmentFile(plan.files[0].path),
            )
        }),
{
    let plan = install_plan_of(platform, spec, host)->Ok_0;
    let removal = removal_of(platform, spec.name, plan.service_file, host);
    assert(removal[1] == StepView::RemoveEnvironmentFile(plan.files[0].path));
}

pub open spec fn account_command(user: Seq<char>) -> CommandView {
    strict_command(
        "useradd"@,
        seq!["--system"@, "--no-create-home"@, "--shell"@, "/usr/sbin/nologin"@, user],
    )
}

/// The command that creates the dedicated system account which a system-scope
/// Linux unit runs as; none where `id` found the account.
pub fn ensure_system_service_user(user: &str, account_exists: bool) -> (r: Option<ServiceCommand>)
    ensures
        match r {
            Some(c) => !account_exists && c@ == account_command(user@),
            None => account_exists,
        },
{
    if account_exists {
        return None;
    }
    let args = vec![
        "--system".to_string(),
        "--no-create-home".to_string(),
        "--shell".to_string(),
        "/usr/sbin/nologin".to_string(),
        user.to_string(),
    ];
    assert(text::texts(args@) =~= seq![
        "--system"@,
        "--no-create-home"@,
        "--shell"@,
        "/usr/sbin/nologin"@,
        user@,
    ]);
    Some(ServiceCommand::strict("useradd", args))
}

/// Why a step could not be carried out.
pub open spec fn step_error_of(step: StepView, cause: Seq<char>) -> ErrorView {
    match step {
        StepView::EnsureUser(user) => spawn_error_of("useradd"@, cause, true),
        StepView::CreateDirectory(path) => error::user_error(
            "failed to create service directory "@ + path + ": "@ + cause,
        ),
        StepView::WriteFile(file) => error::user_error(
            if file.private {
                "failed to write protected file "@ + file.path + ": "@ + cause
            } else {
                "failed to write service file "@ + file.path + ": "@ + cause
            },
        ),
        StepView::Run(command) => spawn_error_of(command.program, cause, command.strict),
        StepView::RunWithEnv(command, env) => spawn_error_of(command.program, cause, true),
        StepView::RemoveServiceFile(path) => error::user_error(
            "failed to remove service file "@ + path + ": "@ + cause,
        ),
        StepView::RemoveEnvironmentFile(path) => error::user_error(
            "failed to remove environment file "@ + path + ": "@ + cause,
        ),
        StepView::VerifyActive(_, _, command) => spawn_error_of(command.program, cause, false),
        StepView::Fail(e) => e,
    }
}

fn path_error(what: &str, path: &str, cause: &str) -> (r: CliError)
    ensures
        r@ == error::user_error(what@ + path@ + ": "@ + cause@),
{
    let mut message = what.to_string();
    message.append(path);
    message.append(": ");
    message.append(cause);
    CliError::user(message)
}

pub fn step_error(step: &ServiceStep, cause: &str) -> (r: CliError)
    ensures
        r@ == step_error_of(step@, cause@),
{
    match step {
        ServiceStep::EnsureUser(_) => spawn_error("useradd", cause, true),
        ServiceStep::CreateDirectory(path) => path_error(
            "failed to create service directory ",
            path.as_str(),
            cause,
        ),
        ServiceStep::WriteFile(file) => if file.private {
            path_error("failed to write protected file ", file.path.as_str(), cause)
        } else {
            path_error("failed to write service file ", file.path.as_str(), cause)
        },
        ServiceStep::Run(command) => spawn_error(command.program.as_str(), cause, command.strict),
        ServiceStep::RunWithEnv(command, _) => spawn_error(command.program.as_str(), cause, true),
        ServiceStep::RemoveServiceFile(path) => path_error(
            "failed to remove service file ",
            path.as_str(),
            cause,
        ),
        ServiceStep::RemoveEnvironmentFile(path) => path_error(
            "failed to remove environment file ",
            path.as_str(),
            cause,
        ),
        ServiceStep::VerifyActive(_, _, command) => spawn_error(
            command.program.as_str(),
            cause,
            false,
        ),
        ServiceStep::Fail(e) => e.copy(),
    }
}

/// What the operator reads where a file with credentials could not be restricted to
/// its owner.
pub fn unrestricted_file_warning(path: &str, os: &str) -> (r: String)
    ensures
        r@ == "warning: "@ + path@
            + " holds service credentials and could not receive an owner-only file mode on "@ + os@
            + ". Restrict access to this file before you leave the host."@,
{
    let mut line = text::concat("warning: ", path);
    line.append(
        " holds service credentials and could not receive an owner-only file mode on ",
    );
    line.append(os);
    line.append(". Restrict access to this file before you leave the host.");
    line
}

// ---------------------------------------------------------------------------
// Carrying out an operation
// ---------------------------------------------------------------------------

pub struct EndedView {
    pub succeeded: bool,
    pub status: Seq<char>,
    pub stdout: Seq<char>,
    pub stderr: Seq<char>,
}

impl View for CommandResult {
    type V = EndedView;

    open spec fn view(&self) -> EndedView {
        EndedView {
            succeeded: self.succeeded,
            status: self.status@,
            stdout: self.stdout@,
            stderr: self.stderr@,
        }
    }
}

/// What came of one turn: how it ended, or why it could not be carried out.
pub open spec fn answer_of(answer: Result<CommandResult, String>) -> Result<EndedView, Seq<char>> {
    match answer {
        Ok(ended) => Ok(ended@),
        Err(cause) => Err(cause@),
    }
}

pub open spec fn answers_of(v: Seq<Result<CommandResult, String>>) -> Seq<
    Result<EndedView, Seq<char>>,
> {
    Seq::new(v.len(), |i: int| answer_of(v[i]))
}

/// What an operation does next.
#[derive(Debug)]
pub enum ServiceTurn<'a> {
    /// Carry out the step.
    Perform(&'a ServiceStep),
    /// Run a further command that a step needs.
    Run(ServiceCommand),
    Finished,
    Failed(CliError),
}

pub enum TurnView {
    Perform(StepView),
    Run(CommandView),
    Finished,
    Failed(ErrorView),
}

impl<'a> View for ServiceTurn<'a> {
    type V = TurnView;

    open spec fn view(&self) -> TurnView {
        match self {
            ServiceTurn::Perform(step) => TurnView::Perform(step@),
            ServiceTurn::Run(command) => TurnView::Run(command@),
            ServiceTurn::Finished => TurnView::Finished,
            ServiceTurn::Failed(e) => TurnView::Failed(e@),
        }
    }
}

/// Whether a step was carried out: it could be tried, and a strict command
/// succeeded.
pub open spec fn step_verdict(step: StepView, answer: Result<EndedView, Seq<char>>) -> Result<
    (),
    ErrorView,
> {
    match (answer, step) {
        (Err(cause), _) => Err(step_error_of(step, cause)),
        (Ok(ended), StepView::Run(command)) => status_checked(
            command.program,
            ended.succeeded,
            ended.status,
            ended.stderr,
            command.strict,
        ),
        (Ok(ended), StepView::RunWithEnv(command, _)) => status_checked(
            command.program,
            ended.succeeded,
            ended.status,
            ended.stderr,
            true,
        ),
        (Ok(_), _) => Ok(()),
    }
}

fn check_step(step: &ServiceStep, answer: &Result<CommandResult, String>) -> (r: Result<
    (),
    CliError,
>)
    ensures
        error::done(r) == step_verdict(step@, answer_of(*answer)),
{
    match answer {
        Err(cause) => Err(step_error(step, cause.as_str())),
        Ok(ended) => match step {
            ServiceStep::Run(command) => check_command_status(
                command.program.as_str(),
                ended,
                command.strict,
            ),
            ServiceStep::RunWithEnv(command, _) => check_command_status(
                command.program.as_str(),
                ended,
                true,
            ),
            _ => Ok(()),
        },
    }
}

/// The command that looks for the system account.
pub open spec fn account_probe(user: Seq<char>) -> CommandView {
    lenient_command("id"@, seq!["-u"@, user])
}

/// How a step stands, given the answers from its first turn on.
pub enum Standing {
    /// A turn is wanted.
    Wants(TurnView),
    /// The step is over, and took so many answers.
    Over(nat),
    Broken(ErrorView),
}

/// An account that `id` finds is left alone; any other is created.
pub open spec fn account_standing(
    user: Seq<char>,
    answers: Seq<Result<EndedView, Seq<char>>>,
) -> Standing {
    if answers.len() == 0 {
        Standing::Wants(TurnView::Run(account_probe(user)))
    } else {
        match answers[0] {
            Err(cause) => Standing::Broken(spawn_error_of("id"@, cause, false)),
            Ok(ended) => if ended.succeeded {
                Standing::Over(1)
            } else if answers.len() == 1 {
                Standing::Wants(TurnView::Run(account_command(user)))
            } else {
                match step_verdict(StepView::Run(account_command(user)), answers[1]) {
                    Ok(_) => Standing::Over(2),
                    Err(e) => Standing::Broken(e),
                }
            },
        }
    }
}

/// What a command printed, where it could run.
pub open spec fn printed_at(answers: Seq<Result<EndedView, Seq<char>>>, i: int) -> Option<
    Seq<char>,
> {
    if i < answers.len() && answers[i] is Ok {
        Some(answers[i]->Ok_0.stdout)
    } else {
        None
    }
}

/// A service that runs passes. For any other the log is fetched, where there is one,
/// and the operation fails.
pub open spec fn verification_standing(
    platform: ServicePlatform,
    name: Seq<char>,
    command: CommandView,
    answers: Seq<Result<EndedView, Seq<char>>>,
) -> Standing {
    if answers.len() == 0 {
        Standing::Wants(TurnView::Run(command))
    } else {
        match answers[0] {
            Err(cause) => Standing::Broken(spawn_error_of(command.program, cause, false)),
            Ok(ended) => match active_verdict(
                platform,
                name,
                ended.succeeded,
                ended.stdout,
                printed_at(answers, 1),
            ) {
                Ok(_) => Standing::Over(1),
                Err(e) => match log_command_of(platform, name) {
                    Some(log) if answers.len() == 1 => Standing::Wants(TurnView::Run(log)),
                    _ => Standing::Broken(e),
                },
            },
        }
    }
}

pub open spec fn standing(step: StepView, answers: Seq<Result<EndedView, Seq<char>>>) -> Standing {
    match step {
        StepView::Fail(e) => Standing::Broken(e),
        StepView::EnsureUser(user) => account_standing(user, answers),
        StepView::VerifyActive(platform, name, command) => verification_standing(
            platform,
            name,
            command,
            answers,
        ),
        _ => if answers.len() == 0 {
            Standing::Wants(TurnView::Perform(step))
        } else {
            match step_verdict(step, answers[0]) {
                Ok(_) => Standing::Over(1),
                Err(e) => Standing::Broken(e),
            }
        },
    }
}

/// The next turn of an operation, from what came of the turns so far. Its steps are
/// taken in order, and the first that fails ends it.
pub open spec fn next_turn_of(
    list: Seq<StepView>,
    answers: Seq<Result<EndedView, Seq<char>>>,
) -> TurnView
    decreases list.len(),
{
    if list.len() == 0 {
        TurnView::Finished
    } else {
        match standing(list[0], answers) {
            Standing::Wants(turn) => turn,
            Standing::Broken(e) => TurnView::Failed(e),
            Standing::Over(n) => next_turn_of(list.drop_first(), answers.skip(n as int)),
        }
    }
}

enum StepState<'a> {
    Wants(ServiceTurn<'a>),
    Over(usize),
    Broken(CliError),
}

impl<'a> View for StepState<'a> {
    type V = Standing;

    closed spec fn view(&self) -> Standing {
        match self {
            StepState::Wants(turn) => Standing::Wants(turn@),
            StepState::Over(n) => Standing::Over(*n as nat),
            StepState::Broken(e) => Standing::Broken(e@),
        }
    }
}

fn account_state<'a>(
    user: &str,
    answers: &Vec<Result<CommandResult, String>>,
    at: usize,
) -> (r: StepState<'a>)
    requires
        at <= answers.len(),
    ensures
        r@ == account_standing(user@, answers_of(answers@).skip(at as int)),
{
    let left = answers.len() - at;
    if left == 0 {
        return StepState::Wants(
            ServiceTurn::Run(ServiceCommand::lenient("id", args2("-u", user))),
        );
    }
    let exists = match &answers[at] {
        Err(cause) => return StepState::Broken(spawn_error("id", cause.as_str(), false)),
        Ok(ended) => ended.succeeded,
    };
    match ensure_system_service_user(user, exists) {
        None => StepState::Over(1),
        Some(command) => {
            if left == 1 {
                return StepState::Wants(ServiceTurn::Run(command));
            }
            match check_step(&ServiceStep::Run(command), &answers[at + 1]) {
                Ok(_) => StepState::Over(2),
                Err(e) => StepState::Broken(e),
            }
        },
    }
}

fn verification_state<'a>(
    platform: &ServicePlatform,
    name: &str,
    command: &ServiceCommand,
    answers: &Vec<Result<CommandResult, String>>,
    at: usize,
) -> (r: StepState<'a>)
    requires
        at <= answers.len(),
    ensures
        r@ == verification_standing(
            *platform,
            name@,
            command@,
            answers_of(answers@).skip(at as int),
        ),
{
    let left = answers.len() - at;
    if left == 0 {
        return StepState::Wants(ServiceTurn::Run(command.copy()));
    }
    let ended = match &answers[at] {
        Err(cause) => return StepState::Broken(
            spawn_error(command.program.as_str(), cause.as_str(), false),
        ),
        Ok(ended) => ended,
    };
    let log: Option<&str> = if left == 1 {
        None
    } else {
        match &answers[at + 1] {
            Ok(printed) => Some(printed.stdout.as_str()),
            Err(_) => None,
        }
    };
    match verify_service_is_active(platform, name, ended, log) {
        Ok(_) => StepState::Over(1),
        Err(e) => match service_log_command(platform, name) {
            Some(log) => if left == 1 {
                StepState::Wants(ServiceTurn::Run(log))
            } else {
                StepState::Broken(e)
            },
            None => StepState::Broken(e),
        },
    }
}

fn step_state<'a>(
    step: &'a ServiceStep,
    answers: &Vec<Result<CommandResult, String>>,
    at: usize,
) -> (r: StepState<'a>)
    requires
        at <= answers.len(),
    ensures
        r@ == standing(step@, answers_of(answers@).skip(at as int)),
{
    match step {
        ServiceStep::Fail(e) => StepState::Broken(e.copy()),
        ServiceStep::EnsureUser(user) => account_state(user.as_str(), answers, at),
        ServiceStep::VerifyActive(platform, name, command) => verification_state(
            platform,
            name.as_str(),
            command,
            answers,
            at,
        ),
        _ => {
            if answers.len() == at {
                return StepState::Wants(ServiceTurn::Perform(step));
            }
            match check_step(step, &answers[at]) {
                Ok(_) => StepState::Over(1),
                Err(e) => StepState::Broken(e),
            }
        },
    }
}

/// What an operation does next. Each answer tells what came of a turn, in order; a
/// turn on the file system that was carried out counts as a command that succeeded.
pub fn next_turn<'a>(
    operation: &'a ServiceOperation,
    answers: &Vec<Result<CommandResult, String>>,
) -> (r: ServiceTurn<'a>)
    ensures
        r@ == next_turn_of(steps(operation.steps@), answers_of(answers@)),
{
    let ghost all = steps(operation.steps@);
    let ghost given = answers_of(answers@);
    let mut i: usize = 0;
    let mut at: usize = 0;
    assert(all.skip(0) =~= all);
    assert(given.skip(0) =~= given);
    while i < operation.steps.len()
        invariant
            i <= operation.steps.len(),
            at <= answers.len(),
            all == steps(operation.steps@),
            given == answers_of(answers@),
            next_turn_of(all, given) == next_turn_of(all.skip(i as int), given.skip(at as int)),
        decreases operation.steps.len() - i,
    {
        assert(all.skip(i as int)[0] == operation.steps@[i as int]@);
        assert(all.skip(i as int).drop_first() =~= all.skip(i as int + 1));
        match step_state(&operation.steps[i], answers, at) {
            StepState::Wants(turn) => return turn,
            StepState::Broken(e) => return ServiceTurn::Failed(e),
            StepState::Over(n) => {
                proof {
                    standing_takes_what_is_there(all[i as int], given.skip(at as int));
                }
                assert(given.skip(at as int).skip(n as int) =~= given.skip(at + n));
                at = at + n;
            },
        }
        i = i + 1;
    }
    ServiceTurn::Finished
}

proof fn standing_takes_what_is_there(
    step: StepView,
    answers: Seq<Result<EndedView, Seq<char>>>,
)
    ensures
        standing(step, answers) matches Standing::Over(n) ==> 1 <= n <= 2 && n <= answers.len(),
{
}

/// An operation always comes to an end: no step wants more than two answers.
pub proof fn operation_ends(list: Seq<StepView>, answers: Seq<Result<EndedView, Seq<char>>>)
    requires
        answers.len() >= 2 * list.len(),
    ensures
        next_turn_of(list, answers) is Finished || next_turn_of(list, answers) is Failed,
    decreases list.len(),
{
    if list.len() > 0 {
        standing_takes_what_is_there(list[0], answers);
        match standing(list[0], answers) {
            Standing::Over(n) => operation_ends(list.drop_first(), answers.skip(n as int)),
            _ => {},
        }
    }
}

proof fn finished_operation_passed_its_last_step(
    list: Seq<StepView>,
    answers: Seq<Result<EndedView, Seq<char>>>,
) -> (k: int)
    requires
        list.len() > 0,
        next_turn_of(list, answers) is Finished,
    ensures
        0 <= k <= answers.len(),
        standing(list.last(), answers.skip(k)) is Over,
        standing(list.last(), Seq::empty()) matches Standing::Wants(turn) ==> next_turn_of(
            list,
            answers.take(k),
        ) == turn,
    decreases list.len(),
{
    let n = standing(list[0], answers)->Over_0 as int;
    standing_takes_what_is_there(list[0], answers);
    if list.len() == 1 {
        assert(answers.skip(0) =~= answers);
        assert(answers.take(0) =~= Seq::empty());
        0
    } else {
        let rest = list.drop_first();
        let later = answers.skip(n);
        assert(rest.last() == list.last());
        let k = finished_operation_passed_its_last_step(rest, later);
        assert(later.skip(k) =~= answers.skip(n + k));
        let before = answers.take(n + k);
        assert(before.skip(n) =~= later.take(k));
        assert(before.take(n) =~= answers.take(n));
        standing_is_settled(list[0], answers, before, n as nat);
        n + k
    }
}

proof fn standing_is_settled(
    step: StepView,
    one: Seq<Result<EndedView, Seq<char>>>,
    other: Seq<Result<EndedView, Seq<char>>>,
    n: nat,
)
    requires
        standing(step, one) == Standing::Over(n),
        n <= other.len(),
        other.take(n as int) == one.take(n as int),
    ensures
        standing(step, other) == Standing::Over(n),
{
    standing_takes_what_is_there(step, one);
    assert(one.take(n as int)[0] == one[0]);
    assert(other.take(n as int)[0] == other[0]);
    if n == 2 {
        assert(one.take(2)[1] == one[1]);
        assert(other.take(2)[1] == other[1]);
    }
}

/// An install that finishes has seen its service run: the last question was whether
/// it reached the active state, and the answer said so.
pub proof fn finished_install_is_active(
    spec: InstallSpecView,
    host: HostView,
    registered: bool,
    operation: OperationView,
    answers: Seq<Result<EndedView, Seq<char>>>,
)
    requires
        install_of(spec, host, registered) == Ok::<OperationView, ErrorView>(operation),
        next_turn_of(operation.steps, answers) is Finished,
    ensures
        exists|k: int|
            0 <= k < answers.len() && active_state_of(operation.platform, spec.name, host) is Ok
                && next_turn_of(operation.steps, #[trigger] answers.take(k)) == TurnView::Run(
                active_state_of(operation.platform, spec.name, host)->Ok_0,
            ) && answers[k] is Ok && active_state(
                operation.platform,
                answers[k]->Ok_0.succeeded,
                answers[k]->Ok_0.stdout,
            ) is Ok,
{
    let last = verification_of(operation.platform, spec.name, host);
    assert(operation.steps.last() == last);
    let k = finished_operation_passed_its_last_step(operation.steps, answers);
    let left = answers.skip(k);
    assert(left.len() > 0);
    assert(left[0] == answers[k]);
    assert(next_turn_of(operation.steps, answers.take(k)) is Run);
}

// ---------------------------------------------------------------------------
// What a service manager prints
// ---------------------------------------------------------------------------

/// A systemd unit runs exactly where the state command prints `active`, whatever its
/// exit status. Any other state is named; where nothing is printed it is unknown.
pub proof fn unit_runs_exactly_when_active(
    platform: ServicePlatform,
    succeeded: bool,
    stdout: Seq<char>,
)
    requires
        platform == ServicePlatform::SystemdUser || platform == ServicePlatform::SystemdSystem,
    ensures
        active_state(platform, succeeded, stdout) is Ok <==> text::trim(stdout) == "active"@,
        active_state(platform, succeeded, stdout) matches Ok(state) ==> state == "active"@,
        text::trim(stdout) != "active"@ && text::trim(stdout).len() > 0 ==> active_state(
            platform,
            succeeded,
            stdout,
        ) == Err::<Seq<char>, Seq<char>>(text::trim(stdout)),
        text::trim(stdout).len() == 0 ==> active_state(platform, succeeded, stdout) == Err::<
            Seq<char>,
            Seq<char>,
        >("unknown"@),
{
    reveal_strlit("active");
}

/// A launchd job runs exactly where it can be printed and `state = running` stands
/// somewhere in what is printed.
pub proof fn job_runs_exactly_when_printed_running(
    platform: ServicePlatform,
    succeeded: bool,
    stdout: Seq<char>,
)
    requires
        platform == ServicePlatform::Launchd || platform == ServicePlatform::LaunchDaemon,
    ensures
        active_state(platform, succeeded, stdout) is Ok <==> succeeded && exists|i: int|
            0 <= i && i + "state = running"@.len() <= stdout.len() && #[trigger] stdout.subrange(
                i,
                i + "state = running"@.len(),
            ) == "state = running"@,
        active_state(platform, succeeded, stdout) matches Ok(state) ==> state == "running"@,
        active_state(platform, succeeded, stdout) matches Err(state) ==> state == if succeeded {
            "loaded"@
        } else {
            "not_loaded"@
        },
{
    let sought = "state = running"@;
    if text::contains(stdout, sought) {
        let i = choose|i: int| text::occurs_at(stdout, sought, i);
        assert(stdout.subrange(i, i + sought.len()) == sought);
    }
    if exists|i: int|
        0 <= i && i + sought.len() <= stdout.len() && #[trigger] stdout.subrange(
            i,
            i + sought.len(),
        ) == sought {
        let i = choose|i: int|
            0 <= i && i + sought.len() <= stdout.len() && #[trigger] stdout.subrange(
                i,
                i + sought.len(),
            ) == sought;
        assert(text::occurs_at(stdout, sought, i));
    }
}

/// True of a line such as `STATE : 4 RUNNING`, which tells a state.
pub open spec fn tells_a_state(line: Seq<char>) -> bool {
    text::split_once(line, ':') matches Some((left, right)) && text::trim(left) == "STATE"@
        && text::words(right).len() >= 2
}

/// True of a line that tells this state.
pub open spec fn tells_state(line: Seq<char>, state: Seq<char>) -> bool {
    tells_a_state(line) && (text::split_once(line, ':') matches Some((_, right)) && text::words(
        right,
    )[1] == state)
}

/// The state of a Windows service is the one that the first line which tells any
/// state tells.
pub proof fn query_state_is_the_first_told(lines: Seq<Seq<char>>)
    ensures
        match sc_state(lines) {
            Some(state) => exists|k: int|
                0 <= k < lines.len() && tells_state(#[trigger] lines[k], state) && forall|j: int|
                    0 <= j < k ==> !tells_a_state(#[trigger] lines[j]),
            None => forall|j: int|
                0 <= j < lines.len() ==> !tells_a_state(#[trigger] lines[j]),
        },
    decreases lines.len(),
{
    if lines.len() > 0 {
        let rest = lines.drop_first();
        query_state_is_the_first_told(rest);
        assert(forall|j: int| 0 <= j < rest.len() ==> #[trigger] rest[j] == lines[j + 1]);
        if tells_a_state(lines[0]) {
            assert(tells_state(lines[0], sc_state(lines)->0));
        } else {
            assert(sc_state(lines) == sc_state(rest));
            match sc_state(lines) {
                Some(state) => {
                    let k = choose|k: int|
                        0 <= k < rest.len() && tells_state(#[trigger] rest[k], state) && forall|j: int|
                            0 <= j < k ==> !tells_a_state(#[trigger] rest[j]);
                    assert(tells_state(lines[k + 1], state));
                    assert forall|j: int| 0 <= j < k + 1 implies !tells_a_state(#[trigger] lines[j]) by {
                        if j > 0 {
                            assert(rest[j - 1] == lines[j]);
                        }
                    }
                },
                None => {
                    assert forall|j: int| 0 <= j < lines.len() implies !tells_a_state(#[trigger] lines[j]) by {
                        if j > 0 {
                            assert(rest[j - 1] == lines[j]);
                        }
                    }
                },
            }
        }
    }
}

/// A Windows service runs exactly where the first line of the query that tells a
/// state tells `RUNNING`.
pub proof fn windows_service_runs_exactly_when_running(succeeded: bool, stdout: Seq<char>)
    ensures
        ({
            let lines = text::split(stdout, '\n');
            let observed = active_state(ServicePlatform::WindowsService, succeeded, stdout);
            &&& observed is Ok <==> exists|k: int|
                0 <= k < lines.len() && tells_state(#[trigger] lines[k], "RUNNING"@) && forall|j: int|
                    0 <= j < k ==> !tells_a_state(#[trigger] lines[j])
            &&& observed matches Err(state) ==> state == "unknown"@ || exists|k: int|
                0 <= k < lines.len() && tells_state(#[trigger] lines[k], state)
        }),
{
    let lines = text::split(stdout, '\n');
    query_state_is_the_first_told(lines);
    if exists|k: int|
        0 <= k < lines.len() && tells_state(#[trigger] lines[k], "RUNNING"@) && forall|j: int|
            0 <= j < k ==> !tells_a_state(#[trigger] lines[j]) {
        let k = choose|k: int|
            0 <= k < lines.len() && tells_state(#[trigger] lines[k], "RUNNING"@) && forall|j: int|
                0 <= j < k ==> !tells_a_state(#[trigger] lines[j]);
        let state = sc_state(lines)->0;
        let m = choose|m: int|
            0 <= m < lines.len() && tells_state(#[trigger] lines[m], state) && forall|j: int|
                0 <= j < m ==> !tells_a_state(#[trigger] lines[j]);
        assert(tells_state(lines[k], "RUNNING"@));
        assert(tells_state(lines[m], state));
        assert(m == k);
    }
}

/// A service passes verification exactly where it is seen to run; otherwise the error
/// is the user's, and names the service and what was observed.
pub proof fn verification_follows_the_printed_state(
    platform: ServicePlatform,
    name: Seq<char>,
    succeeded: bool,
    stdout: Seq<char>,
    log: Option<Seq<char>>,
)
    requires
        platform == ServicePlatform::SystemdUser || platform == ServicePlatform::SystemdSystem,
    ensures
        active_verdict(platform, name, succeeded, stdout, log) is Ok <==> text::trim(stdout)
            == "active"@,
        active_verdict(platform, name, succeeded, stdout, log) matches Err(e) ==> e.kind
            == error::ErrorKind::User && text::starts_with(
            e.message,
            "service "@ + name + " did not reach the active state on "@,
        ) && text::contains(
            e.message,
            " (observed: "@ + (if text::trim(stdout).len() == 0 {
                "unknown"@
            } else {
                text::trim(stdout)
            }) + ")"@,
        ),
{
    unit_runs_exactly_when_active(platform, succeeded, stdout);
    if active_verdict(platform, name, succeeded, stdout, log) is Err {
        let e = active_verdict(platform, name, succeeded, stdout, log)->Err_0;
        let state = active_state(platform, succeeded, stdout)->Err_0;
        let front = "service "@ + name + " did not reach the active state on "@;
        let shown = display_name_of(platform);
        let seen = " (observed: "@ + state + ")"@;
        let at = (front + shown).len();
        assert(e.message =~= front + shown + seen + log_tail(platform, name, log));
        assert(e.message.subrange(0, front.len() as int) =~= front);
        assert(e.message.subrange(at as int, (at + seen.len()) as int) =~= seen);
        assert(text::occurs_at(e.message, seen, at as int));
    }
}

/// A systemd install that finishes has seen `active` printed by the last command it
/// ran, which asks for the state of its unit; a launchd install `state = running`; a
/// Windows install a first state of `RUNNING`.
pub proof fn finished_install_was_printed_active(
    spec: InstallSpecView,
    host: HostView,
    registered: bool,
    operation: OperationView,
    answers: Seq<Result<EndedView, Seq<char>>>,
)
    requires
        install_of(spec, host, registered) == Ok::<OperationView, ErrorView>(operation),
        next_turn_of(operation.steps, answers) is Finished,
    ensures
        exists|k: int|
            0 <= k < answers.len() && (#[trigger] answers[k] matches Ok(ended)
                && match operation.platform {
                ServicePlatform::SystemdUser | ServicePlatform::SystemdSystem => text::trim(
                    ended.stdout,
                ) == "active"@,
                ServicePlatform::Launchd | ServicePlatform::LaunchDaemon => ended.succeeded
                    && text::contains(ended.stdout, "state = running"@),
                ServicePlatform::WindowsService => exists|m: int|
                    0 <= m < text::split(ended.stdout, '\n').len() && tells_state(
                        #[trigger] text::split(ended.stdout, '\n')[m],
                        "RUNNING"@,
                    ),
            }) && match next_turn_of(operation.steps, answers.take(k)) {
                TurnView::Run(command) => match operation.platform {
                    ServicePlatform::SystemdUser => command.program == "systemctl"@
                        && command.args == seq![
                        "--user"@,
                        "is-active"@,
                        sanitized(spec.name) + ".service"@,
                    ],
                    ServicePlatform::SystemdSystem => command.program == "systemctl"@
                        && command.args == seq!["is-active"@, sanitized(spec.name) + ".service"@],
                    ServicePlatform::WindowsService => command.program == "sc.exe"@
                        && command.args == seq!["query"@, sanitized(spec.name)],
                    _ => command.program == "launchctl"@ && command.args.len() == 2
                        && command.args[0] == "print"@,
                },
                _ => false,
            },
{
    finished_install_is_active(spec, host, registered, operation, answers);
    let k = choose|k: int|
        0 <= k < answers.len() && active_state_of(operation.platform, spec.name, host) is Ok
            && next_turn_of(operation.steps, #[trigger] answers.take(k)) == TurnView::Run(
            active_state_of(operation.platform, spec.name, host)->Ok_0,
        ) && answers[k] is Ok && active_state(
            operation.platform,
            answers[k]->Ok_0.succeeded,
            answers[k]->Ok_0.stdout,
        ) is Ok;
    let ended = answers[k]->Ok_0;
    let platform = operation.platform;
    let command = active_state_of(platform, spec.name, host)->Ok_0;
    sanitized_twice(spec.name);
    if platform == ServicePlatform::SystemdUser {
        assert(command.args =~= seq!["--user"@, "is-active"@, sanitized(spec.name) + ".service"@]);
    }
    match platform {
        ServicePlatform::SystemdUser | ServicePlatform::SystemdSystem => {
            unit_runs_exactly_when_active(platform, ended.succeeded, ended.stdout);
        },
        ServicePlatform::Launchd | ServicePlatform::LaunchDaemon => {},
        ServicePlatform::WindowsService => {
            windows_service_runs_exactly_when_running(ended.succeeded, ended.stdout);
        },
    }
}

} // verus!
