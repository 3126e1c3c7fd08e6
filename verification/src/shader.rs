//! Shader programs made of one vertex and one fragment shader.

use vstd::prelude::*;
use crate::context::GlCall;

verus! {

/// A linked program and the two shaders it was linked from.
#[derive(Debug, Clone, Copy, PartialEq, Eq, Structural)]
pub struct OpenGLShader {
    pub id: u32,
    pub vert_id: u32,
    pub frag_id: u32,
}

impl OpenGLShader {
    /// The calls that link the shaders `vert_id` and `frag_id` into the
    /// program `id`: attach both, link, detach both.
    pub fn link_calls(vert_id: u32, frag_id: u32, id: u32) -> (calls: Vec<GlCall>)
        ensures
            calls@ == seq![
                GlCall::AttachShader { program: id, shader: vert_id },
                GlCall::AttachShader { program: id, shader: frag_id },
                GlCall::LinkProgram { program: id },
                GlCall::DetachShader { program: id, shader: vert_id },
                GlCall::DetachShader { program: id, shader: frag_id },
            ],
    {
        let mut calls: Vec<GlCall> = Vec::new();
        calls.push(GlCall::AttachShader { program: id, shader: vert_id });
        calls.push(GlCall::AttachShader { program: id, shader: frag_id });
        calls.push(GlCall::LinkProgram { program: id });
        calls.push(GlCall::DetachShader { program: id, shader: vert_id });
        calls.push(GlCall::DetachShader { program: id, shader: frag_id });
        calls
    }

    /// Judges the link of the program `id`. `status` is the link status that
    /// the context reports and `info_log` its info log: a status of zero
    /// means failure, and the log is the error.
    pub fn validate_program(vert_id: u32, frag_id: u32, id: u32, status: i32, info_log: String) -> (res:
        Result<OpenGLShader, String>)
        ensures
            status == 0 ==> res == Err::<OpenGLShader, String>(info_log),
            status != 0 ==> res == Ok::<OpenGLShader, String>(OpenGLShader { id, vert_id, frag_id }),
    {
        if status == 0 {
            return Err(info_log);
        }
        Ok(OpenGLShader { id, vert_id, frag_id })
    }

    /// The program `id` that the context linked from the compiled shaders
    /// `vert_id` and `frag_id`; fails with the info log exactly when the link
    /// status is zero.
    pub fn new_vert_frag(vert_id: u32, frag_id: u32, id: u32, status: i32, info_log: String) -> (res:
        Result<OpenGLShader, String>)
        ensures
            status == 0 ==> res == Err::<OpenGLShader, String>(info_log),
            status != 0 ==> res == Ok::<OpenGLShader, String>(OpenGLShader { id, vert_id, frag_id }),
    {
        Self::validate_program(vert_id, frag_id, id, status, info_log)
    }

    /// The call that makes the program the one in use.
    pub fn bind(&self) -> (call: GlCall)
        ensures
            call == (GlCall::UseProgram { program: self.id }),
    {
        GlCall::UseProgram { program: self.id }
    }

    /// The call that leaves no program in use.
    pub fn unbind(&self) -> (call: GlCall)
        ensures
            call == (GlCall::UseProgram { program: 0 }),
    {
        GlCall::UseProgram { program: 0 }
    }

    /// The calls that give the names of the shaders and of the program back
    /// to the context.
    pub fn delete(&self) -> (calls: Vec<GlCall>)
        ensures
            calls@ == seq![
                GlCall::DeleteShader { shader: self.vert_id },
                GlCall::DeleteShader { shader: self.frag_id },
                GlCall::DeleteProgram { program: self.id },
            ],
    {
        let mut calls: Vec<GlCall> = Vec::new();
        calls.push(GlCall::DeleteShader { shader: self.vert_id });
        calls.push(GlCall::DeleteShader { shader: self.frag_id });
        calls.push(GlCall::DeleteProgram { program: self.id });
        calls
    }
}

} // verus!
