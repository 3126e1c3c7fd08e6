//! Shader modules and the checks on what the context reports after it has
//! compiled a shader or linked a program.

use vstd::prelude::*;
use crate::api::{ShaderModDescriptor, ShaderType};
use crate::glenum;

verus! {

/// The shader kind that goes with a pipeline stage.
pub open spec fn stage_kind(stype: ShaderType) -> u32 {
    match stype {
        ShaderType::Vertex => glenum::VERTEX_SHADER,
        ShaderType::Fragment => glenum::FRAGMENT_SHADER,
    }
}

/// Computes [`stage_kind`].
pub fn shader_kind(stype: ShaderType) -> (kind: u32)
    ensures
        kind == stage_kind(stype),
{
    match stype {
        ShaderType::Vertex => glenum::VERTEX_SHADER,
        ShaderType::Fragment => glenum::FRAGMENT_SHADER,
    }
}

/// A compiled shader: its name in the context and its kind.
#[derive(Debug, Clone, Copy, PartialEq, Eq, Structural)]
pub struct OpenGlShaderMod {
    pub id: u32,
    pub kind: u32,
}

/// Judges a compilation. `status` is the compile status that the context
/// reports for the shader `shader_id` and `info_log` its info log: a status of
/// zero means failure, and the log is the error.
pub fn validate_shader(shader_id: u32, status: i32, info_log: String) -> (res: Result<u32, String>)
    ensures
        status == 0 ==> res == Err::<u32, String>(info_log),
        status != 0 ==> res == Ok::<u32, String>(shader_id),
{
    if status == 0 {
        return Err(info_log);
    }
    Ok(shader_id)
}

/// Judges a link. `status` is the link status that the context reports for
/// the program `id` and `info_log` its info log: a status of zero means
/// failure, and the log is the error.
pub fn validate_program(id: u32, status: i32, info_log: String) -> (res: Result<u32, String>)
    ensures
        status == 0 ==> res == Err::<u32, String>(info_log),
        status != 0 ==> res == Ok::<u32, String>(id),
{
    if status == 0 {
        return Err(info_log);
    }
    Ok(id)
}

impl OpenGlShaderMod {
    /// The module for the shader `id` that the context compiled from `desc`,
    /// given the compile status and info log it reported. Fails with the log
    /// exactly when the status is zero.
    pub fn new(desc: &ShaderModDescriptor, id: u32, status: i32, info_log: String) -> (res: Result<
        Self,
        String,
    >)
        ensures
            status == 0 ==> res == Err::<Self, String>(info_log),
            status != 0 ==> res == Ok::<Self, String>(
                OpenGlShaderMod { id, kind: stage_kind(desc.stype) },
            ),
    {
        let kind = shader_kind(desc.stype);
        match validate_shader(id, status, info_log) {
            Ok(id) => Ok(OpenGlShaderMod { id, kind }),
            Err(log) => Err(log),
        }
    }
}

} // verus!
