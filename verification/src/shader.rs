//! The fixed vertex and fragment shaders, and the text handed to the compiler.

use crate::backend::Backend;
use vstd::prelude::*;
use vstd::string::*;

verus! {

/// One of the two stages of the program that draws the triangle.
#[derive(Clone, Copy, Debug, PartialEq, Eq, Structural)]
pub enum ShaderStage {
    Vertex,
    Fragment,
}

impl ShaderStage {
    /// The stage compiled after this one, if any: the vertex shader comes first.
    pub open spec fn following(self) -> Option<ShaderStage> {
        match self {
            ShaderStage::Vertex => Some(ShaderStage::Fragment),
            ShaderStage::Fragment => None,
        }
    }

    /// The body of this stage's shader, without a version directive.
    ///
    /// The vertex shader looks up one of three fixed positions by the vertex index and
    /// hands it on; the fragment shader colours each pixel by that position.
    pub open spec fn body_text(self) -> Seq<char> {
        match self {
            ShaderStage::Vertex => r#"const vec2 verts[3] = vec2[3](
                vec2(0.5f, 1.0f),
                vec2(0.0f, 0.0f),
                vec2(1.0f, 0.0f)
            );
            out vec2 vert;
            void main() {
                vert = verts[gl_VertexID];
                gl_Position = vec4(vert - 0.5, 0.0, 1.0);
            }"#@,
            ShaderStage::Fragment => r#"precision mediump float;
            in vec2 vert;
            out vec4 color;
            void main() {
                color = vec4(vert, 0.5, 1.0);
            }"#@,
        }
    }

    pub fn next(self) -> (next: Option<ShaderStage>)
        ensures
            next == self.following(),
    {
        match self {
            ShaderStage::Vertex => Some(ShaderStage::Fragment),
            ShaderStage::Fragment => None,
        }
    }

    pub fn body(self) -> (body: &'static str)
        ensures
            body@ == self.body_text(),
    {
        match self {
            ShaderStage::Vertex => r#"const vec2 verts[3] = vec2[3](
                vec2(0.5f, 1.0f),
                vec2(0.0f, 0.0f),
                vec2(1.0f, 0.0f)
            );
            out vec2 vert;
            void main() {
                vert = verts[gl_VertexID];
                gl_Position = vec4(vert - 0.5, 0.0, 1.0);
            }"#,
            ShaderStage::Fragment => r#"precision mediump float;
            in vec2 vert;
            out vec4 color;
            void main() {
                color = vec4(vert, 0.5, 1.0);
            }"#,
        }
    }
}

/// The text that `backend` compiles for `stage`: the version directive, a line break,
/// then the stage's body, nothing added and nothing left out.
pub open spec fn source_text(backend: Backend, stage: ShaderStage) -> Seq<char> {
    backend.version_line() + seq!['\n'] + stage.body_text()
}

/// Builds the source of `stage` for `backend`.
pub fn shader_source(backend: Backend, stage: ShaderStage) -> (source: String)
    ensures
        source@ == source_text(backend, stage),
{
    let mut source = String::from_str(backend.version_header());
    proof {
        reveal_strlit("\n");
    }
    source.append("\n");
    source.append(stage.body());
    assert("\n"@ =~= seq!['\n']);
    source
}

} // verus!
