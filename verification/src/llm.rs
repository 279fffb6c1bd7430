//! The simulated-inference state: a context holding an initialized flag and
//! the validated model path, with the two operations that read and write it.

use vstd::prelude::*;
use crate::responses::sim_response;
use crate::responses::simulate_llm_response;
use crate::text::concat_strs;

verus! {

/// What the host filesystem reported about a candidate model path.
pub enum PathProbe {
    /// The path does not exist.
    Missing,
    /// Metadata was read: whether the path is a regular file, and its byte
    /// length.
    Metadata { is_file: bool, len: u64 },
    /// The path exists but its metadata could not be read; the host's error
    /// text.
    MetadataError { message: String },
}

/// The shared inference state: an initialized flag and the recorded model
/// path.
pub struct LlmContext {
    pub initialized: bool,
    pub model_path: String,
}

impl LlmContext {
    /// The state invariant: the model path is non-empty whenever the context
    /// is initialized.
    pub open spec fn wf(&self) -> bool {
        self.initialized ==> self.model_path@.len() > 0
    }

    /// A fresh, uninitialized context.
    pub fn new() -> (c: LlmContext)
        ensures
            !c.initialized,
            c.model_path@ == Seq::<char>::empty(),
            c.wf(),
    {
        LlmContext { initialized: false, model_path: String::new() }
    }
}

pub open spec fn not_found_msg(path: Seq<char>) -> Seq<char> {
    "Model file not found at: "@ + path
}

pub open spec fn not_a_file_msg(path: Seq<char>) -> Seq<char> {
    "Path exists but is not a file: "@ + path
}

pub open spec fn empty_file_msg(path: Seq<char>) -> Seq<char> {
    "Model file is empty: "@ + path
}

pub open spec fn metadata_msg(path: Seq<char>, err: Seq<char>) -> Seq<char> {
    "Error accessing file metadata: "@ + path + " - Error: "@ + err
}

pub open spec fn not_initialized_msg() -> Seq<char> {
    "LLM model not initialized. Call initialize_llm first."@
}

/// Validate a candidate model path against what the host filesystem reported
/// and, on success, record it in the context. Any failure leaves the context
/// untouched. A path that probes as an existing file is never the empty
/// string, which keeps the state invariant.
pub fn initialize_llm(ctx: &mut LlmContext, model_path: String, probe: PathProbe) -> (r: Result<
    (),
    String,
>)
    requires
        old(ctx).wf(),
        probe matches PathProbe::Metadata { .. } ==> model_path@.len() > 0,
    ensures
        final(ctx).wf(),
        r is Ok <==> (probe matches PathProbe::Metadata { is_file: true, len } && len != 0),
        match probe {
            PathProbe::Missing => {
                &&& r is Err
                &&& r->Err_0@ == not_found_msg(model_path@)
                &&& *final(ctx) == *old(ctx)
            },
            PathProbe::MetadataError { message } => {
                &&& r is Err
                &&& r->Err_0@ == metadata_msg(model_path@, message@)
                &&& *final(ctx) == *old(ctx)
            },
            PathProbe::Metadata { is_file: false, .. } => {
                &&& r is Err
                &&& r->Err_0@ == not_a_file_msg(model_path@)
                &&& *final(ctx) == *old(ctx)
            },
            PathProbe::Metadata { is_file: true, len: 0 } => {
                &&& r is Err
                &&& r->Err_0@ == empty_file_msg(model_path@)
                &&& *final(ctx) == *old(ctx)
            },
            PathProbe::Metadata { is_file: true, .. } => {
                &&& r is Ok
                &&& final(ctx).initialized
                &&& final(ctx).model_path == model_path
            },
        },
{
    match probe {
        PathProbe::Missing => Err(
            concat_strs("Model file not found at: ", model_path.as_str()),
        ),
        PathProbe::MetadataError { message } => {
            let head = concat_strs("Error accessing file metadata: ", model_path.as_str());
            let tail = concat_strs(" - Error: ", message.as_str());
            let msg = concat_strs(head.as_str(), tail.as_str());
            proof {
                assert(msg@ =~= metadata_msg(model_path@, message@));
            }
            Err(msg)
        },
        PathProbe::Metadata { is_file, len } => {
            if !is_file {
                return Err(concat_strs("Path exists but is not a file: ", model_path.as_str()));
            }
            if len == 0 {
                return Err(concat_strs("Model file is empty: ", model_path.as_str()));
            }
            ctx.initialized = true;
            ctx.model_path = model_path;
            Ok(())
        },
    }
}

/// Simulated inference: fails while the context is uninitialized, and
/// otherwise returns the canned response the prompt's keywords pick. The
/// result is a function of the prompt alone, so repeated calls on one prompt
/// agree.
pub fn run_llm_inference(ctx: &LlmContext, prompt: String) -> (r: Result<String, String>)
    ensures
        !ctx.initialized ==> r is Err && r->Err_0@ == not_initialized_msg(),
        ctx.initialized ==> r is Ok && r->Ok_0@ == sim_response(prompt@),
{
    if !ctx.initialized {
        return Err("LLM model not initialized. Call initialize_llm first.".to_owned());
    }
    Ok(simulate_llm_response(prompt.as_str()))
}

} // verus!
