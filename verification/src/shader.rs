//! The boundary to the shader compiler.
//!
//! Compiling source text to a binary module is done outside this crate. This
//! module decides what the compiler is asked for and what becomes of its
//! answer: a binary module on success, a compile error otherwise.

use vstd::prelude::*;
use crate::gpu::{ShaderStage, STAGE_COMPUTE, STAGE_FRAGMENT, STAGE_VERTEX};

verus! {

/// The kind of shader that the compiler is asked to build.
#[derive(Clone, Copy, Debug, PartialEq, Eq, Structural)]
pub enum ShaderKind {
    Vertex,
    Fragment,
    Compute,
}

/// What the compiler is asked to compile.
#[derive(Debug, PartialEq, Eq)]
pub struct CompileRequest {
    pub source: String,
    pub kind: ShaderKind,
    pub file_name: String,
    pub entry_point: String,
}

/// A compiled shader: the words of its binary form and the stage it runs in.
#[derive(Debug, PartialEq, Eq)]
pub struct ShaderModule {
    pub kind: ShaderKind,
    pub code: Vec<u32>,
}

/// A shader that the compiler rejected, with the compiler's message.
#[derive(Debug, PartialEq, Eq)]
pub struct ShaderCompileError {
    pub kind: ShaderKind,
    pub message: String,
}

/// The shader kind of a stage mask that names exactly one stage; `None` for
/// the empty mask, for a mask of several stages and for unknown bits.
pub open spec fn stage_kind(stage: ShaderStage) -> Option<ShaderKind> {
    if stage.bits == STAGE_VERTEX {
        Some(ShaderKind::Vertex)
    } else if stage.bits == STAGE_FRAGMENT {
        Some(ShaderKind::Fragment)
    } else if stage.bits == STAGE_COMPUTE {
        Some(ShaderKind::Compute)
    } else {
        None
    }
}

/// The stage mask that holds the one stage of a shader kind.
pub open spec fn kind_stage(kind: ShaderKind) -> ShaderStage {
    match kind {
        ShaderKind::Vertex => ShaderStage { bits: STAGE_VERTEX },
        ShaderKind::Fragment => ShaderStage { bits: STAGE_FRAGMENT },
        ShaderKind::Compute => ShaderStage { bits: STAGE_COMPUTE },
    }
}

/// Maps a stage mask to the shader kind it names, if it names exactly one.
pub fn shader_kind(stage: ShaderStage) -> (kind: Option<ShaderKind>)
    ensures
        kind == stage_kind(stage),
{
    if stage.bits == STAGE_VERTEX {
        Some(ShaderKind::Vertex)
    } else if stage.bits == STAGE_FRAGMENT {
        Some(ShaderKind::Fragment)
    } else if stage.bits == STAGE_COMPUTE {
        Some(ShaderKind::Compute)
    } else {
        None
    }
}

/// The stage mask in which a shader of the given kind is visible.
pub fn stage_of_kind(kind: ShaderKind) -> (stage: ShaderStage)
    ensures
        stage == kind_stage(kind),
        stage_kind(stage) == Some(kind),
{
    match kind {
        ShaderKind::Vertex => ShaderStage::vertex(),
        ShaderKind::Fragment => ShaderStage::fragment(),
        ShaderKind::Compute => ShaderStage::compute(),
    }
}

/// The kind of a stage mask that is known to name exactly one stage.
fn single_kind(stage: ShaderStage) -> (kind: ShaderKind)
    requires
        stage_kind(stage) is Some,
    ensures
        Some(kind) == stage_kind(stage),
{
    if stage.bits == STAGE_VERTEX {
        ShaderKind::Vertex
    } else if stage.bits == STAGE_FRAGMENT {
        ShaderKind::Fragment
    } else {
        ShaderKind::Compute
    }
}

/// Builds the request that is handed to the compiler for `source`: the kind
/// that `stage` names, the file name `shader.glsl` and the entry point `main`.
pub fn compile_request(source: &str, stage: ShaderStage) -> (request: CompileRequest)
    requires
        stage_kind(stage) is Some,
    ensures
        request.source@ == source@,
        Some(request.kind) == stage_kind(stage),
        request.file_name@ == "shader.glsl"@,
        request.entry_point@ == "main"@,
{
    let kind = single_kind(stage);
    CompileRequest {
        source: source.to_owned(),
        kind,
        file_name: "shader.glsl".to_owned(),
        entry_point: "main".to_owned(),
    }
}

/// Turns the compiler's answer for a shader of stage `stage` into a module.
///
/// A binary becomes a module with exactly those words; a rejection becomes a
/// compile error that carries the compiler's message. Nothing is retried.
pub fn compiler_from_binary(stage: ShaderStage, compiled: Result<Vec<u32>, String>) -> (result:
    Result<ShaderModule, ShaderCompileError>)
    requires
        stage_kind(stage) is Some,
    ensures
        compiled is Ok <==> result is Ok,
        compiled matches Ok(words) ==> {
            &&& result->Ok_0.code@ == words@
            &&& Some(result->Ok_0.kind) == stage_kind(stage)
        },
        compiled matches Err(message) ==> {
            &&& result->Err_0.message@ == message@
            &&& Some(result->Err_0.kind) == stage_kind(stage)
        },
{
    let kind = single_kind(stage);
    match compiled {
        Ok(code) => Ok(ShaderModule { kind, code }),
        Err(message) => Err(ShaderCompileError { kind, message }),
    }
}

} // verus!
