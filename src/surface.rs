//! The operations a worker offers: for each, the method name, how its
//! parameters are framed, and what is read from its success payload.
use crate::bridge::{error_message, BridgeError};
use crate::frame::{json_object, members_view, object_text, Call};
use crate::json::{json_member, json_member_str, json_string_text, member_str, member_text, quote_json};
use vstd::prelude::*;

verus! {

/// A decoded heightmap: its pixels as base64 text, and its size.
#[derive(Debug, Clone, PartialEq, Eq)]
pub struct ProcessImageResponse {
    pub heightmap_base64: String,
    pub width: u32,
    pub height: u32,
}

fn call_of(method: &str, params: String) -> (r: Call)
    ensures
        r.method@ == method@,
        r.params@ == params@,
{
    Call { method: String::from_str(method), params }
}

/// The call that decodes an image into a heightmap; `request` is the request's
/// JSON text.
pub fn process_image_call(request: String) -> (r: Call)
    ensures
        r.method@ == "process_image"@,
        r.params@ == request@,
{
    call_of("process_image", request)
}

/// The call that renders a colour preview; `request` is the request's JSON text.
pub fn compute_preview_call(request: String) -> (r: Call)
    ensures
        r.method@ == "compute_preview"@,
        r.params@ == request@,
{
    call_of("compute_preview", request)
}

/// The call that schedules filament swaps; `request` is the request's JSON text.
pub fn compute_swaps_call(request: String) -> (r: Call)
    ensures
        r.method@ == "compute_swaps"@,
        r.params@ == request@,
{
    call_of("compute_swaps", request)
}

/// The call that builds a mesh and writes it to `output_path`; `request` is the
/// request's JSON text.
pub fn generate_mesh_call(request: String, output_path: &str) -> (r: Call)
    ensures
        r.method@ == "generate_mesh"@,
        r.params@ == object_text(
            seq![("request"@, request@), ("output_path"@, json_string_text(output_path@))],
        ),
{
    let ghost req = request@;
    let mut members: Vec<(String, String)> = Vec::new();
    members.push((String::from_str("request"), request));
    members.push((String::from_str("output_path"), quote_json(output_path)));
    proof {
        assert(members_view(members@) =~= seq![
            ("request"@, req),
            ("output_path"@, json_string_text(output_path@)),
        ]);
    }
    call_of("generate_mesh", json_object(&members))
}

/// The call that writes a print plan to `output_path` in `format`. The first
/// four arguments are JSON texts.
pub fn export_plan_call(
    swaps: String,
    filaments: String,
    print_settings: String,
    geometry: String,
    output_path: &str,
    format: &str,
) -> (r: Call)
    ensures
        r.method@ == "export_plan"@,
        r.params@ == object_text(
            seq![
                ("swaps"@, swaps@),
                ("filaments"@, filaments@),
                ("print_settings"@, print_settings@),
                ("geometry"@, geometry@),
                ("output_path"@, json_string_text(output_path@)),
                ("format"@, json_string_text(format@)),
            ],
        ),
{
    let ghost texts = seq![swaps@, filaments@, print_settings@, geometry@];
    let mut members: Vec<(String, String)> = Vec::new();
    members.push((String::from_str("swaps"), swaps));
    members.push((String::from_str("filaments"), filaments));
    members.push((String::from_str("print_settings"), print_settings));
    members.push((String::from_str("geometry"), geometry));
    members.push((String::from_str("output_path"), quote_json(output_path)));
    members.push((String::from_str("format"), quote_json(format)));
    proof {
        assert(members_view(members@) =~= seq![
            ("swaps"@, texts[0]),
            ("filaments"@, texts[1]),
            ("print_settings"@, texts[2]),
            ("geometry"@, texts[3]),
            ("output_path"@, json_string_text(output_path@)),
            ("format"@, json_string_text(format@)),
        ]);
    }
    call_of("export_plan", json_object(&members))
}

/// The string member `key` of a success payload, or `MissingField` naming
/// `label` where it is absent or not a string.
fn required_str(payload: &str, key: &str, label: &str) -> (r: Result<String, BridgeError>)
    ensures
        match json_member_str(payload@, key@) {
            Some(s) => r matches Ok(v) && v@ == s,
            None => r matches Err(BridgeError::MissingField { field: f }) && f@ == label@,
        },
{
    match member_str(payload, key) {
        Some(s) => Ok(s),
        None => Err(BridgeError::MissingField { field: String::from_str(label) }),
    }
}

/// The path a file was written to, from a mesh or plan payload.
pub fn path_from(payload: &str) -> (r: Result<String, BridgeError>)
    ensures
        match json_member_str(payload@, "path"@) {
            Some(s) => r matches Ok(v) && v@ == s,
            None => r matches Err(BridgeError::MissingField { field: f }) && f@ == "path"@
                && error_message(r->Err_0) == "No path in response"@,
        },
{
    proof {
        reveal_strlit("No ");
        reveal_strlit("path");
        reveal_strlit(" in response");
        reveal_strlit("No path in response");
    }
    let r = required_str(payload, "path", "path");
    proof {
        if r is Err {
            assert(error_message(r->Err_0) =~= "No path in response"@);
        }
    }
    r
}

/// The base64 preview image from a preview payload.
pub fn preview_from(payload: &str) -> (r: Result<String, BridgeError>)
    ensures
        match json_member_str(payload@, "preview_base64"@) {
            Some(s) => r matches Ok(v) && v@ == s,
            None => r matches Err(BridgeError::MissingField { field: f }) && f@
                == "preview_base64"@ && error_message(r->Err_0)
                == "No preview_base64 in response"@,
        },
{
    proof {
        reveal_strlit("No ");
        reveal_strlit("preview_base64");
        reveal_strlit(" in response");
        reveal_strlit("No preview_base64 in response");
    }
    let r = required_str(payload, "preview_base64", "preview_base64");
    proof {
        if r is Err {
            assert(error_message(r->Err_0) =~= "No preview_base64 in response"@);
        }
    }
    r
}

/// The JSON text of the swap list in a swaps payload, or `MissingField`
/// naming `swaps` where the payload has no such member.
pub fn swaps_from(payload: &str) -> (r: Result<String, BridgeError>)
    ensures
        match json_member(payload@, "swaps"@) {
            Some(t) => r matches Ok(v) && v@ == t,
            None => r matches Err(BridgeError::MissingField { field: f }) && f@ == "swaps"@,
        },
{
    match member_text(payload, "swaps") {
        Some(t) => Ok(t),
        None => Err(BridgeError::MissingField { field: String::from_str("swaps") }),
    }
}

} // verus!
