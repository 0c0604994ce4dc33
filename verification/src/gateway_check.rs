//! Whether a gateway is ready to run with a configuration.
use vstd::prelude::*;

use crate::error::{self, CliError, ErrorView};
use crate::text;

verus! {

#[derive(Debug)]
pub struct GatewayCheckArgs {
    pub config: String,
    pub verbose: bool,
}

/// A provider of the configuration. `api_key` is empty where none was resolved, and
/// `timeout` is the timeout in words.
#[derive(Debug)]
pub struct ProviderTarget {
    pub id: String,
    pub provider: String,
    pub model: String,
    pub base_url: String,
    pub timeout: String,
    pub api_key: String,
    pub secret_key_ref: Option<String>,
    pub required: bool,
    pub requires_resolved_api_key: bool,
}

pub struct TargetView {
    pub id: Seq<char>,
    pub provider: Seq<char>,
    pub model: Seq<char>,
    pub base_url: Seq<char>,
    pub timeout: Seq<char>,
    pub api_key: Seq<char>,
    pub secret_key_ref: Option<Seq<char>>,
    pub required: bool,
    pub requires_resolved_api_key: bool,
}

impl View for ProviderTarget {
    type V = TargetView;

    open spec fn view(&self) -> TargetView {
        TargetView {
            id: self.id@,
            provider: self.provider@,
            model: self.model@,
            base_url: self.base_url@,
            timeout: self.timeout@,
            api_key: self.api_key@,
            secret_key_ref: text::opt(self.secret_key_ref),
            required: self.required,
            requires_resolved_api_key: self.requires_resolved_api_key,
        }
    }
}

pub open spec fn targets_of(v: Seq<ProviderTarget>) -> Seq<TargetView> {
    Seq::new(v.len(), |i: int| v[i]@)
}

#[derive(Debug)]
pub struct ProviderRegistry {
    pub targets: Vec<ProviderTarget>,
    pub strategy: String,
}

/// What is checked of a configuration. `chain_entries` holds the kinds of its rules.
#[derive(Debug)]
pub struct CheckedConfig {
    pub config_version: String,
    pub config_sha256: String,
    pub provider_registry: Option<ProviderRegistry>,
    pub chain_entries: Vec<String>,
}

// ---------------------------------------------------------------------------
// Classification
// ---------------------------------------------------------------------------

#[derive(Debug)]
pub enum ProviderClassification {
    Active,
    Inactive(&'static str),
}

/// A provider is active if it has a key or needs none.
pub open spec fn is_active(target: TargetView) -> bool {
    target.api_key.len() > 0 || !target.requires_resolved_api_key
}

pub open spec fn inactive_reason(target: TargetView) -> Seq<char> {
    if target.secret_key_ref is Some {
        "credential unresolved"@
    } else {
        "no api_key or secret_key_ref"@
    }
}

pub fn classify_provider(target: &ProviderTarget) -> (r: ProviderClassification)
    ensures
        match r {
            ProviderClassification::Active => is_active(target@),
            ProviderClassification::Inactive(reason) => !is_active(target@) && reason@
                == inactive_reason(target@),
        },
{
    if !target.api_key.as_str().is_empty() || !target.requires_resolved_api_key {
        ProviderClassification::Active
    } else if target.secret_key_ref.is_some() {
        ProviderClassification::Inactive("credential unresolved")
    } else {
        ProviderClassification::Inactive("no api_key or secret_key_ref")
    }
}

pub open spec fn active(targets: Seq<TargetView>) -> Seq<TargetView> {
    targets.filter(|t: TargetView| is_active(t))
}

pub open spec fn inactive(targets: Seq<TargetView>) -> Seq<TargetView> {
    targets.filter(|t: TargetView| !is_active(t))
}

pub open spec fn required_missing(targets: Seq<TargetView>) -> Seq<TargetView> {
    targets.filter(|t: TargetView| !is_active(t) && t.required)
}

/// The providers by their state, in the order of the configuration.
pub struct ProviderRegistrySummary<'a> {
    pub active: Vec<&'a ProviderTarget>,
    pub inactive: Vec<&'a ProviderTarget>,
    pub required_missing: Vec<&'a ProviderTarget>,
}

pub open spec fn referred(v: Seq<&ProviderTarget>) -> Seq<TargetView> {
    Seq::new(v.len(), |i: int| v[i]@)
}

pub open spec fn summarizes(
    summary: ProviderRegistrySummary<'_>,
    targets: Seq<TargetView>,
) -> bool {
    &&& referred(summary.active@) == active(targets)
    &&& referred(summary.inactive@) == inactive(targets)
    &&& referred(summary.required_missing@) == required_missing(targets)
}

pub fn summarize_provider_registry(registry: &ProviderRegistry) -> (r: ProviderRegistrySummary<'_>)
    ensures
        summarizes(r, targets_of(registry.targets@)),
{
    let mut ready: Vec<&ProviderTarget> = Vec::new();
    let mut idle: Vec<&ProviderTarget> = Vec::new();
    let mut missing: Vec<&ProviderTarget> = Vec::new();
    let mut i: usize = 0;
    let ghost all = targets_of(registry.targets@);
    proof {
        reveal(Seq::filter);
        assert(referred(ready@) =~= active(all.take(0)));
        assert(referred(idle@) =~= inactive(all.take(0)));
        assert(referred(missing@) =~= required_missing(all.take(0)));
    }
    while i < registry.targets.len()
        invariant
            i <= registry.targets.len(),
            all == targets_of(registry.targets@),
            referred(ready@) == active(all.take(i as int)),
            referred(idle@) == inactive(all.take(i as int)),
            referred(missing@) == required_missing(all.take(i as int)),
        decreases registry.targets.len() - i,
    {
        let target = &registry.targets[i];
        let ghost a = ready@;
        let ghost b = idle@;
        let ghost c = missing@;
        match classify_provider(target) {
            ProviderClassification::Active => ready.push(target),
            ProviderClassification::Inactive(_) => {
                idle.push(target);
                if target.required {
                    missing.push(target);
                }
            },
        }
        proof {
            reveal(Seq::filter);
            let next = all.take(i as int + 1);
            assert(next.drop_last() =~= all.take(i as int));
            assert(next.last() == target@);
            assert(referred(a.push(target)) =~= referred(a).push(target@));
            assert(referred(b.push(target)) =~= referred(b).push(target@));
            assert(referred(c.push(target)) =~= referred(c).push(target@));
        }
        i = i + 1;
    }
    assert(all.take(i as int) =~= all);
    ProviderRegistrySummary { active: ready, inactive: idle, required_missing: missing }
}

/// A gateway is ready if a provider is active and no required one is missing.
pub open spec fn ready(targets: Seq<TargetView>) -> bool {
    required_missing(targets).len() == 0 && active(targets).len() > 0
}

pub open spec fn config_ready(config: CheckedConfig) -> bool {
    match config.provider_registry {
        Some(registry) => ready(targets_of(registry.targets@)),
        None => false,
    }
}

pub fn is_gateway_ready(loaded: &CheckedConfig) -> (r: bool)
    ensures
        r == config_ready(*loaded),
{
    match &loaded.provider_registry {
        None => false,
        Some(registry) => {
            let summary = summarize_provider_registry(registry);
            assert(referred(summary.active@).len() == summary.active@.len());
            assert(referred(summary.required_missing@).len() == summary.required_missing@.len());
            summary.required_missing.len() == 0 && summary.active.len() > 0
        },
    }
}

// ---------------------------------------------------------------------------
// The report
// ---------------------------------------------------------------------------

pub open spec fn counted(label: Seq<char>, n: nat, end: Seq<char>) -> Seq<char> {
    label + text::decimal(n) + end
}

fn count_line(label: &str, n: usize, end: &str) -> (r: String)
    ensures
        r@ == counted(label@, n as nat, end@),
{
    let mut line = label.to_string();
    line.append(text::number_text(n as u64).as_str());
    line.append(end);
    line
}

/// The lines of one active provider.
pub open spec fn active_lines(target: TargetView, verbose: bool) -> Seq<Seq<char>> {
    if verbose {
        seq![
            "  \u{2713} "@ + target.id,
            "      provider: "@ + target.provider + ", model: "@ + target.model,
            "      base_url: "@ + target.base_url,
            "      timeout:  "@ + target.timeout,
        ]
    } else {
        seq!["  \u{2713} "@ + target.id]
    }
}

pub open spec fn all_active_lines(targets: Seq<TargetView>, verbose: bool) -> Seq<Seq<char>>
    decreases targets.len(),
{
    if targets.len() == 0 {
        Seq::empty()
    } else {
        all_active_lines(targets.drop_last(), verbose) + active_lines(targets.last(), verbose)
    }
}

pub open spec fn active_section(targets: Seq<TargetView>, verbose: bool) -> Seq<Seq<char>> {
    seq![counted("Active providers ("@, targets.len(), "):"@)] + all_active_lines(targets, verbose)
        + seq![Seq::empty()]
}

fn push_active_provider_lines(lines: &mut Vec<String>, targets: &Vec<&ProviderTarget>, verbose: bool)
    ensures
        text::texts(final(lines)@) == text::texts(old(lines)@) + active_section(
            referred(targets@),
            verbose,
        ),
{
    let ghost start = text::texts(lines@);
    let ghost all = referred(targets@);
    text::push_line(lines, count_line("Active providers (", targets.len(), "):"));
    let ghost head = text::texts(lines@);
    let mut i: usize = 0;
    assert(head + all_active_lines(all.take(0), verbose) =~= head);
    while i < targets.len()
        invariant
            i <= targets.len(),
            all == referred(targets@),
            text::texts(lines@) == head + all_active_lines(all.take(i as int), verbose),
        decreases targets.len() - i,
    {
        let target = targets[i];
        let ghost before = text::texts(lines@);
        text::push_line(lines, text::concat("  \u{2713} ", target.id.as_str()));
        if verbose {
            let mut line = "      provider: ".to_string();
            line.append(target.provider.as_str());
            line.append(", model: ");
            line.append(target.model.as_str());
            text::push_line(lines, line);
            text::push_line(lines, text::concat("      base_url: ", target.base_url.as_str()));
            text::push_line(lines, text::concat("      timeout:  ", target.timeout.as_str()));
        }
        assert(text::texts(lines@) =~= before + active_lines(target@, verbose));
        assert(all.take(i + 1).drop_last() =~= all.take(i as int));
        assert(all.take(i + 1).last() == target@);
        assert(text::texts(lines@) =~= head + all_active_lines(all.take(i + 1), verbose));
        i = i + 1;
    }
    assert(all.take(i as int) =~= all);
    text::push_line(lines, String::new());
    assert(text::texts(lines@) =~= start + active_section(all, verbose));
}

pub open spec fn inactive_line(target: TargetView) -> Seq<char> {
    "  \u{2717} "@ + target.id + " \u{2014} "@ + inactive_reason(target)
}

/// The providers that are not active; no section where all are.
pub open spec fn inactive_section(targets: Seq<TargetView>) -> Seq<Seq<char>> {
    if targets.len() == 0 {
        Seq::empty()
    } else {
        seq![counted("Inactive providers ("@, targets.len(), "):"@)] + Seq::new(
            targets.len(),
            |i: int| inactive_line(targets[i]),
        ) + seq![Seq::empty()]
    }
}

fn format_inactive(target: &ProviderTarget) -> (r: String)
    requires
        !is_active(target@),
    ensures
        r@ == inactive_line(target@),
{
    let mut line = "  \u{2717} ".to_string();
    line.append(target.id.as_str());
    line.append(" \u{2014} ");
    match classify_provider(target) {
        ProviderClassification::Active => {},
        ProviderClassification::Inactive(reason) => line.append(reason),
    }
    line
}

fn push_inactive_provider_lines(lines: &mut Vec<String>, targets: &Vec<&ProviderTarget>)
    requires
        forall|i: int| 0 <= i < targets@.len() ==> !is_active(#[trigger] referred(targets@)[i]),
    ensures
        text::texts(final(lines)@) == text::texts(old(lines)@) + inactive_section(
            referred(targets@),
        ),
{
    let ghost start = text::texts(lines@);
    let ghost all = referred(targets@);
    if targets.len() == 0 {
        assert(start + inactive_section(all) =~= start);
        return;
    }
    text::push_line(lines, count_line("Inactive providers (", targets.len(), "):"));
    let ghost head = text::texts(lines@);
    let ghost wanted = Seq::new(all.len(), |i: int| inactive_line(all[i]));
    let mut i: usize = 0;
    assert(head + wanted.take(0) =~= head);
    while i < targets.len()
        invariant
            i <= targets.len(),
            all == referred(targets@),
            wanted == Seq::new(all.len(), |i: int| inactive_line(all[i])),
            forall|i: int| 0 <= i < targets@.len() ==> !is_active(#[trigger] referred(targets@)[i]),
            text::texts(lines@) == head + wanted.take(i as int),
        decreases targets.len() - i,
    {
        assert(!is_active(referred(targets@)[i as int]));
        text::push_line(lines, format_inactive(targets[i]));
        assert(wanted.take(i + 1) =~= wanted.take(i as int).push(inactive_line(all[i as int])));
        assert(text::texts(lines@) =~= head + wanted.take(i + 1));
        i = i + 1;
    }
    assert(wanted.take(i as int) =~= wanted);
    text::push_line(lines, String::new());
    assert(text::texts(lines@) =~= start + inactive_section(all));
}

pub open spec fn routing_section(strategy: Seq<char>) -> Seq<Seq<char>> {
    seq!["Routing strategy: "@ + strategy, Seq::empty()]
}

pub open spec fn rule_line(kinds: Seq<Seq<char>>, i: int) -> Seq<char> {
    "  ["@ + text::decimal((i + 1) as nat) + "] "@ + kinds[i]
}

pub open spec fn policy_section(kinds: Seq<Seq<char>>, verbose: bool) -> Seq<Seq<char>> {
    seq![counted("Policy chain: "@, kinds.len(), " rule(s)"@)] + (if verbose {
        Seq::new(kinds.len(), |i: int| rule_line(kinds, i))
    } else {
        Seq::empty()
    }) + seq![Seq::empty()]
}

fn push_policy_chain_lines(lines: &mut Vec<String>, kinds: &Vec<String>, verbose: bool)
    ensures
        text::texts(final(lines)@) == text::texts(old(lines)@) + policy_section(
            text::texts(kinds@),
            verbose,
        ),
{
    let ghost start = text::texts(lines@);
    let ghost all = text::texts(kinds@);
    text::push_line(lines, count_line("Policy chain: ", kinds.len(), " rule(s)"));
    let ghost head = text::texts(lines@);
    let ghost wanted = Seq::new(all.len(), |i: int| rule_line(all, i));
    if verbose {
        let mut i: usize = 0;
        assert(head + wanted.take(0) =~= head);
        while i < kinds.len()
            invariant
                i <= kinds.len(),
                all == text::texts(kinds@),
                wanted == Seq::new(all.len(), |i: int| rule_line(all, i)),
                text::texts(lines@) == head + wanted.take(i as int),
            decreases kinds.len() - i,
        {
            let mut line = "  [".to_string();
            line.append(text::number_text(i as u64 + 1).as_str());
            line.append("] ");
            line.append(kinds[i].as_str());
            text::push_line(lines, line);
            assert(wanted.take(i + 1) =~= wanted.take(i as int).push(rule_line(all, i as int)));
            assert(text::texts(lines@) =~= head + wanted.take(i + 1));
            i = i + 1;
        }
        assert(wanted.take(i as int) =~= wanted);
    }
    text::push_line(lines, String::new());
    assert(text::texts(lines@) =~= start + policy_section(all, verbose));
}

pub open spec fn missing_line(target: TargetView) -> Seq<char> {
    "  - Required provider '"@ + target.id + "' has unresolved credentials"@
}

pub open spec fn status_section(
    ready_targets: Seq<TargetView>,
    missing: Seq<TargetView>,
) -> Seq<Seq<char>> {
    if missing.len() == 0 && ready_targets.len() > 0 {
        seq!["\u{2713} Status: Ready"@]
    } else {
        seq!["\u{2717} Status: Not Ready"@] + (if ready_targets.len() == 0 {
            seq!["  - No active providers with resolved credentials"@]
        } else {
            Seq::empty()
        }) + Seq::new(missing.len(), |i: int| missing_line(missing[i]))
    }
}

fn push_status_lines(
    lines: &mut Vec<String>,
    ready_targets: &Vec<&ProviderTarget>,
    missing: &Vec<&ProviderTarget>,
)
    ensures
        text::texts(final(lines)@) == text::texts(old(lines)@) + status_section(
            referred(ready_targets@),
            referred(missing@),
        ),
{
    let ghost start = text::texts(lines@);
    let ghost all = referred(missing@);
    if missing.len() == 0 && ready_targets.len() > 0 {
        text::push_line(lines, "\u{2713} Status: Ready".to_string());
        return;
    }
    text::push_line(lines, "\u{2717} Status: Not Ready".to_string());
    if ready_targets.len() == 0 {
        text::push_line(
            lines,
            "  - No active providers with resolved credentials".to_string(),
        );
    }
    let ghost head = text::texts(lines@);
    let ghost wanted = Seq::new(all.len(), |i: int| missing_line(all[i]));
    let mut i: usize = 0;
    assert(head + wanted.take(0) =~= head);
    while i < missing.len()
        invariant
            i <= missing.len(),
            all == referred(missing@),
            wanted == Seq::new(all.len(), |i: int| missing_line(all[i])),
            text::texts(lines@) == head + wanted.take(i as int),
        decreases missing.len() - i,
    {
        let mut line = "  - Required provider '".to_string();
        line.append(missing[i].id.as_str());
        line.append("' has unresolved credentials");
        text::push_line(lines, line);
        assert(wanted.take(i + 1) =~= wanted.take(i as int).push(missing_line(all[i as int])));
        assert(text::texts(lines@) =~= head + wanted.take(i + 1));
        i = i + 1;
    }
    assert(wanted.take(i as int) =~= wanted);
    assert(text::texts(lines@) =~= start + status_section(referred(ready_targets@), all));
}

pub open spec fn registry_report(
    targets: Seq<TargetView>,
    strategy: Seq<char>,
    kinds: Seq<Seq<char>>,
    verbose: bool,
) -> Seq<Seq<char>> {
    active_section(active(targets), verbose) + inactive_section(inactive(targets))
        + routing_section(strategy) + policy_section(kinds, verbose) + status_section(
        active(targets),
        required_missing(targets),
    )
}

pub open spec fn missing_report() -> Seq<Seq<char>> {
    seq![
        "No providers section found."@,
        Seq::empty(),
        "\u{2717} Status: Not Ready"@,
        "  - No providers configured"@,
    ]
}

pub open spec fn report_of(config_name: Seq<char>, config: CheckedConfig, verbose: bool) -> Seq<
    Seq<char>,
> {
    seq![
        "Config file: "@ + config_name + " (valid)"@,
        "  Version: "@ + config.config_version@,
        "  SHA256:  "@ + config.config_sha256@,
        Seq::empty(),
    ] + (match config.provider_registry {
        Some(registry) => registry_report(
            targets_of(registry.targets@),
            registry.strategy@,
            text::texts(config.chain_entries@),
            verbose,
        ),
        None => missing_report(),
    })
}

fn push_registry_report(
    lines: &mut Vec<String>,
    registry: &ProviderRegistry,
    kinds: &Vec<String>,
    verbose: bool,
)
    ensures
        text::texts(final(lines)@) == text::texts(old(lines)@) + registry_report(
            targets_of(registry.targets@),
            registry.strategy@,
            text::texts(kinds@),
            verbose,
        ),
{
    let ghost start = text::texts(lines@);
    let summary = summarize_provider_registry(registry);
    let ghost targets = targets_of(registry.targets@);
    push_active_provider_lines(lines, &summary.active, verbose);
    proof {
        let idle = |t: TargetView| !is_active(t);
        assert forall|i: int| 0 <= i < summary.inactive@.len() implies !is_active(
            #[trigger] referred(summary.inactive@)[i],
        ) by {
            assert(referred(summary.inactive@) == targets.filter(idle));
            targets.lemma_filter_pred(idle, i);
        }
    }
    push_inactive_provider_lines(lines, &summary.inactive);
    text::push_line(lines, text::concat("Routing strategy: ", registry.strategy.as_str()));
    text::push_line(lines, String::new());
    push_policy_chain_lines(lines, kinds, verbose);
    push_status_lines(lines, &summary.active, &summary.required_missing);
    assert(text::texts(lines@) =~= start + registry_report(
        targets,
        registry.strategy@,
        text::texts(kinds@),
        verbose,
    ));
}

pub fn build_report_lines(config_name: &str, loaded: &CheckedConfig, verbose: bool) -> (r: Vec<
    String,
>)
    ensures
        text::texts(r@) == report_of(config_name@, *loaded, verbose),
{
    let mut title = "Config file: ".to_string();
    title.append(config_name);
    title.append(" (valid)");
    let mut lines: Vec<String> = vec![
        title,
        text::concat("  Version: ", loaded.config_version.as_str()),
        text::concat("  SHA256:  ", loaded.config_sha256.as_str()),
        String::new(),
    ];
    let ghost head = text::texts(lines@);
    assert(head =~= seq![
        "Config file: "@ + config_name@ + " (valid)"@,
        "  Version: "@ + loaded.config_version@,
        "  SHA256:  "@ + loaded.config_sha256@,
        Seq::empty(),
    ]);
    match &loaded.provider_registry {
        Some(registry) => push_registry_report(
            &mut lines,
            registry,
            &loaded.chain_entries,
            verbose,
        ),
        None => {
            text::push_line(&mut lines, "No providers section found.".to_string());
            text::push_line(&mut lines, String::new());
            text::push_line(&mut lines, "\u{2717} Status: Not Ready".to_string());
            text::push_line(&mut lines, "  - No providers configured".to_string());
            assert(text::texts(lines@) =~= head + missing_report());
        },
    }
    lines
}

/// The error for a configuration file that is not there.
pub fn missing_config_error(config: &str) -> (r: CliError)
    ensures
        r@ == error::user_error("config file not found: "@ + config@),
{
    CliError::user(text::concat("config file not found: ", config))
}

/// What the check comes to: an error unless the gateway is ready.
pub fn check_verdict(loaded: &CheckedConfig) -> (r: Result<(), CliError>)
    ensures
        error::done(r) == (if config_ready(*loaded) {
            Ok::<(), ErrorView>(())
        } else {
            Err(error::user_error("gateway is not ready"@))
        }),
{
    if is_gateway_ready(loaded) {
        Ok(())
    } else {
        Err(CliError::user("gateway is not ready".to_string()))
    }
}

// ---------------------------------------------------------------------------
// Laws
// ---------------------------------------------------------------------------

/// A gateway is ready exactly when some provider is active and every required one is.
pub proof fn ready_means_required_are_active(targets: Seq<TargetView>)
    ensures
        ready(targets) <==> {
            &&& exists|i: int| 0 <= i < targets.len() && is_active(#[trigger] targets[i])
            &&& forall|i: int|
                0 <= i < targets.len() && (#[trigger] targets[i]).required ==> is_active(targets[i])
        },
{
    let on = |t: TargetView| is_active(t);
    let off = |t: TargetView| !is_active(t) && t.required;
    if active(targets).len() > 0 {
        targets.lemma_filter_pred(on, 0);
        assert(active(targets).contains(active(targets)[0]));
        targets.lemma_filter_contains_rev(on, active(targets)[0]);
        let i = choose|i: int| 0 <= i < targets.len() && targets[i] == active(targets)[0];
        assert(is_active(targets[i]));
    }
    if required_missing(targets).len() > 0 {
        targets.lemma_filter_pred(off, 0);
        assert(required_missing(targets).contains(required_missing(targets)[0]));
        targets.lemma_filter_contains_rev(off, required_missing(targets)[0]);
        let i = choose|i: int|
            0 <= i < targets.len() && targets[i] == required_missing(targets)[0];
        assert(targets[i].required && !is_active(targets[i]));
    }
    assert forall|i: int| 0 <= i < targets.len() && is_active(#[trigger] targets[i]) implies active(
        targets,
    ).len() > 0 by {
        targets.lemma_filter_contains(on, i);
    }
    assert forall|i: int|
        0 <= i < targets.len() && (#[trigger] targets[i]).required && !is_active(
            targets[i],
        ) implies required_missing(targets).len() > 0 by {
        targets.lemma_filter_contains(off, i);
    }
}

} // verus!
