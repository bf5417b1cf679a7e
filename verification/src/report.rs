//! Status snapshots and the JSON report body the coordination service's
//! upsert endpoint expects.

use vstd::prelude::*;
use vstd::string::*;
use crate::model::{Model, StateView};
use crate::text::{
    chars_of, decimal_chars, json_escape_chars, spec_decimal, spec_json_string, string_from_chars,
};

verus! {

/// The node state projected onto the wire status vocabulary.
#[derive(Debug, PartialEq, Eq, Clone, Copy, Structural)]
pub enum StatusCode {
    Offline,
    Syncing,
    Online,
    Computing,
}

/// Which status code each lifecycle phase reports.
pub open spec fn spec_status_of(phase: StateView) -> StatusCode {
    match phase {
        StateView::Init => StatusCode::Offline,
        StateView::Syncing => StatusCode::Syncing,
        StateView::Idle => StatusCode::Online,
        StateView::Computing(_) => StatusCode::Computing,
    }
}

/// The wire label of a status code.
pub open spec fn spec_status_label(code: StatusCode) -> Seq<char> {
    match code {
        StatusCode::Offline => "offline"@,
        StatusCode::Syncing => "syncing"@,
        StatusCode::Online => "online"@,
        StatusCode::Computing => "computing"@,
    }
}

/// The wire label of a status code.
pub fn status_label(code: StatusCode) -> (label: String)
    ensures
        label@ == spec_status_label(code),
{
    match code {
        StatusCode::Offline => "offline".to_owned(),
        StatusCode::Syncing => "syncing".to_owned(),
        StatusCode::Online => "online".to_owned(),
        StatusCode::Computing => "computing".to_owned(),
    }
}

/// A point-in-time status record for the coordination service; built on
/// demand from orchestrator state, never stored by the orchestrator itself.
#[derive(Debug)]
pub struct StatusSnapshot {
    pub node_id: String,
    pub status: StatusCode,
    pub gpu_model: String,
    pub vram_gb: u32,
    pub last_seen: String,
}

/// Abstract view of a status snapshot.
#[verifier::ext_equal]
pub struct SnapshotView {
    pub node_id: Seq<char>,
    pub status: StatusCode,
    pub gpu_model: Seq<char>,
    pub vram_gb: u32,
    pub last_seen: Seq<char>,
}

impl View for StatusSnapshot {
    type V = SnapshotView;

    open spec fn view(&self) -> SnapshotView {
        SnapshotView {
            node_id: self.node_id@,
            status: self.status,
            gpu_model: self.gpu_model@,
            vram_gb: self.vram_gb,
            last_seen: self.last_seen@,
        }
    }
}

/// The snapshot a node in state `m` reports at the given timestamp.
pub open spec fn spec_snapshot(m: Model, last_seen: Seq<char>) -> SnapshotView {
    SnapshotView {
        node_id: m.node_id,
        status: spec_status_of(m.phase),
        gpu_model: m.capability.gpu_model,
        vram_gb: m.capability.vram_gb,
        last_seen,
    }
}

/// The JSON object for one snapshot, as the endpoint's upsert-by-id expects.
pub open spec fn spec_status_json(s: SnapshotView) -> Seq<char> {
    "{\"id\":"@ + spec_json_string(s.node_id) + ",\"gpu_model\":"@ + spec_json_string(s.gpu_model)
        + ",\"status\":"@ + spec_json_string(spec_status_label(s.status)) + ",\"vram_gb\":"@
        + spec_decimal(s.vram_gb as nat) + ",\"last_seen\":"@ + spec_json_string(s.last_seen)
        + ",\"ip_location\":{\"city\":\"Global\",\"lat\":0,\"lng\":0}}"@
}

/// Append a JSON string literal: quote, escaped text, quote.
fn append_json_string(out: &mut String, s: &str)
    ensures
        final (out)@ == old(out)@ + spec_json_string(s@),
{
    out.append("\"");
    let chars = chars_of(s);
    let escaped = string_from_chars(&json_escape_chars(&chars));
    out.append(escaped.as_str());
    out.append("\"");
    proof {
        assert(out@ =~= old(out)@ + spec_json_string(s@));
    }
}

/// Render the snapshot as the JSON report body.
pub fn render_status_json(snap: &StatusSnapshot) -> (body: String)
    ensures
        body@ == spec_status_json(snap@),
{
    let mut body = "{\"id\":".to_owned();
    append_json_string(&mut body, snap.node_id.as_str());
    body.append(",\"gpu_model\":");
    append_json_string(&mut body, snap.gpu_model.as_str());
    body.append(",\"status\":");
    let label = status_label(snap.status);
    append_json_string(&mut body, label.as_str());
    body.append(",\"vram_gb\":");
    let digits = string_from_chars(&decimal_chars(snap.vram_gb as u64));
    body.append(digits.as_str());
    body.append(",\"last_seen\":");
    append_json_string(&mut body, snap.last_seen.as_str());
    body.append(",\"ip_location\":{\"city\":\"Global\",\"lat\":0,\"lng\":0}}");
    proof {
        assert(body@ =~= spec_status_json(snap@));
    }
    body
}

} // verus!
