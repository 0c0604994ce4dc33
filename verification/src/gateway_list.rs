//! Listing gateways: those of the supervisor, and those of the control plane.
use vstd::prelude::*;

use crate::events_tail::{self, text_member_or};
use crate::instances::{self, GatewayInstanceLifecycle};
use crate::json::{self, Json, JsonView};
use crate::text;

verus! {

/// Where the control plane lists its gateways.
pub const GATEWAYS_PATH: &'static str = "/v1/gateways";

#[derive(Debug)]
pub struct GatewayListArgs {
    pub state_dir: Option<String>,
    pub json: bool,
    pub remote: bool,
    pub config: Option<String>,
    pub api_url: Option<String>,
    pub api_token: Option<String>,
    pub profile: String,
    pub region: Option<String>,
}

/// What is listed of an instance.
#[derive(Debug)]
pub struct InstanceSummary {
    pub instance_id: String,
    pub lifecycle: GatewayInstanceLifecycle,
    pub listen_addr: String,
    pub gateway_id: String,
}

pub struct SummaryView {
    pub instance_id: Seq<char>,
    pub lifecycle: GatewayInstanceLifecycle,
    pub listen_addr: Seq<char>,
    pub gateway_id: Seq<char>,
}

impl View for InstanceSummary {
    type V = SummaryView;

    open spec fn view(&self) -> SummaryView {
        SummaryView {
            instance_id: self.instance_id@,
            lifecycle: self.lifecycle,
            listen_addr: self.listen_addr@,
            gateway_id: self.gateway_id@,
        }
    }
}

pub open spec fn summaries(v: Seq<InstanceSummary>) -> Seq<SummaryView> {
    Seq::new(v.len(), |i: int| v[i]@)
}

pub open spec fn local_row(instance: SummaryView) -> Seq<char> {
    instance.instance_id + "\t"@ + instances::lifecycle_word(instance.lifecycle) + "\t"@
        + instance.listen_addr + "\t"@ + instance.gateway_id
}

pub open spec fn local_rows(all: Seq<SummaryView>) -> Seq<Seq<char>> {
    if all.len() == 0 {
        seq!["no gateway instances defined"@]
    } else {
        Seq::new(all.len(), |i: int| local_row(all[i]))
    }
}

fn format_local(instance: &InstanceSummary) -> (r: String)
    ensures
        r@ == local_row(instance@),
{
    let mut row = instance.instance_id.clone();
    row.append("\t");
    row.append(instance.lifecycle.word());
    row.append("\t");
    row.append(instance.listen_addr.as_str());
    row.append("\t");
    row.append(instance.gateway_id.as_str());
    row
}

/// The rows of the instances that the supervisor knows.
pub fn local_lines(all: &Vec<InstanceSummary>) -> (r: Vec<String>)
    ensures
        text::texts(r@) == local_rows(summaries(all@)),
{
    let mut lines: Vec<String> = Vec::new();
    if all.len() == 0 {
        text::push_line(&mut lines, "no gateway instances defined".to_string());
        assert(text::texts(lines@) =~= seq!["no gateway instances defined"@]);
        return lines;
    }
    let ghost wanted = local_rows(summaries(all@));
    let mut i: usize = 0;
    while i < all.len()
        invariant
            i <= all.len(),
            all.len() > 0,
            wanted == local_rows(summaries(all@)),
            text::texts(lines@) == wanted.take(i as int),
        decreases all.len() - i,
    {
        text::push_line(&mut lines, format_local(&all[i]));
        assert(wanted.take(i + 1) =~= wanted.take(i as int).push(local_row(all[i as int]@)));
        i = i + 1;
    }
    assert(wanted.take(i as int) =~= wanted);
    lines
}

/// The warning about a recovered state.
pub fn recovery_warning(message: &str) -> (r: String)
    ensures
        r@ == "warning: "@ + message@,
{
    text::concat("warning: ", message)
}

pub open spec fn remote_row(gateway: JsonView) -> Seq<char> {
    events_tail::member_or(gateway, "id"@, "-"@) + "\t"@ + events_tail::member_or(
        gateway,
        "name"@,
        "-"@,
    ) + "\t"@ + events_tail::member_or(gateway, "status"@, "-"@)
}

pub open spec fn remote_rows(value: JsonView) -> Seq<Seq<char>> {
    match json::field_items(value, "gateways"@) {
        Some(items) if items.len() > 0 => Seq::new(items.len(), |i: int| remote_row(items[i])),
        _ => seq!["no remote gateways"@],
    }
}

fn format_remote(gateway: &Json) -> (r: String)
    ensures
        r@ == remote_row(json::json_view(*gateway)),
{
    let mut row = text_member_or(gateway, "id", "-").to_string();
    row.append("\t");
    row.append(text_member_or(gateway, "name", "-"));
    row.append("\t");
    row.append(text_member_or(gateway, "status", "-"));
    row
}

/// The rows of the gateways that the control plane lists.
pub fn remote_lines(value: &Json) -> (r: Vec<String>)
    ensures
        text::texts(r@) == remote_rows(json::json_view(*value)),
{
    let mut lines: Vec<String> = Vec::new();
    match value.get_array("gateways") {
        Some(items) => if items.len() > 0 {
            let ghost all = json::values(items@);
            let ghost wanted = Seq::new(all.len(), |i: int| remote_row(all[i]));
            let mut i: usize = 0;
            assert(text::texts(lines@) =~= wanted.take(0));
            while i < items.len()
                invariant
                    i <= items.len(),
                    all == json::values(items@),
                    wanted == Seq::new(all.len(), |i: int| remote_row(all[i])),
                    text::texts(lines@) == wanted.take(i as int),
                decreases items.len() - i,
            {
                text::push_line(&mut lines, format_remote(&items[i]));
                assert(wanted.take(i + 1) =~= wanted.take(i as int).push(
                    remote_row(all[i as int]),
                ));
                i = i + 1;
            }
            assert(wanted.take(i as int) =~= wanted);
            return lines;
        },
        None => {},
    }
    text::push_line(&mut lines, "no remote gateways".to_string());
    assert(text::texts(lines@) =~= seq!["no remote gateways"@]);
    lines
}

} // verus!
