//! Materials: a shader program to draw with.

use vstd::prelude::*;
use crate::context::GlCall;
use crate::shader::OpenGLShader;

verus! {

/// A material. For now it is its shader.
#[derive(Debug, Clone, Copy, PartialEq, Eq, Structural)]
pub struct Material {
    shader: OpenGLShader,
}

impl Material {
    /// The shader of the material, in contracts.
    pub closed spec fn shader_of(self) -> OpenGLShader {
        self.shader
    }

    /// The material that draws with `shader`.
    pub fn from_shader(shader: OpenGLShader) -> (material: Self)
        ensures
            material.shader_of() == shader,
    {
        Material { shader }
    }

    /// The call that puts the shader of the material in use.
    pub fn bind(&self) -> (call: GlCall)
        ensures
            call == (GlCall::UseProgram { program: self.shader_of().id }),
    {
        self.shader.bind()
    }

    /// The shader of the material.
    pub fn shader(&self) -> (shader: &OpenGLShader)
        ensures
            *shader == self.shader_of(),
    {
        &self.shader
    }
}

} // verus!
