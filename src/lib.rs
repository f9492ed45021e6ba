//! A bridge that runs one worker process per call: it frames the request line,
//! collects the worker's output events, and classifies what came back.
pub mod bridge;
pub mod capture;
pub mod frame;
pub mod json;
pub mod surface;

pub use bridge::{classify, classify_parsed, finish, BridgeError, Outcome, OutcomeView};
pub use capture::{capture_all, Capture, Event};
pub use surface::{
    ProcessImageResponse,
    compute_preview_call, compute_swaps_call, export_plan_call, generate_mesh_call, path_from,
    preview_from, process_image_call, swaps_from,
};
pub use frame::{encode_call, json_object, Call};
