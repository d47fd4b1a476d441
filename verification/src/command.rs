//! What the renderer asks of the graphics driver, and what the driver answers.

use crate::shader::ShaderStage;
use vstd::prelude::*;

verus! {

/// One call into the graphics driver or the window system.
///
/// Objects of the driver are named by the handles that the driver gave out. A handle is
/// never zero: zero is the driver's name for "no object".
#[derive(Clone, Copy, Debug, PartialEq, Eq, Structural)]
pub enum Command {
    /// Create a vertex-array object. Answered by its handle.
    CreateVertexArray,
    /// Make `vertex_array` the current vertex-array object.
    BindVertexArray { vertex_array: u32 },
    /// Create an empty program. Answered by its handle.
    CreateProgram,
    /// Create an empty shader of the given stage. Answered by its handle.
    CreateShader { stage: ShaderStage },
    /// Load the source of `stage`, as `shader_source` builds it for the renderer's
    /// backend, into `shader`.
    ShaderSource { shader: u32, stage: ShaderStage },
    /// Compile the source loaded into `shader`.
    CompileShader { shader: u32 },
    /// Ask whether the last compilation of `shader` succeeded. Answered by a status.
    GetShaderCompileStatus { shader: u32 },
    /// Ask for the compiler's log of `shader`. Answered by a text.
    GetShaderInfoLog { shader: u32 },
    /// Attach `shader` to `program`.
    AttachShader { program: u32, shader: u32 },
    /// Link the shaders attached to `program`.
    LinkProgram { program: u32 },
    /// Ask whether the last linking of `program` succeeded. Answered by a status.
    GetProgramLinkStatus { program: u32 },
    /// Ask for the linker's log of `program`. Answered by a text.
    GetProgramInfoLog { program: u32 },
    /// Detach `shader` from `program`.
    DetachShader { program: u32, shader: u32 },
    /// Delete `shader`.
    DeleteShader { shader: u32 },
    /// Draw with `program` from now on.
    UseProgram { program: u32 },
    /// Set the colour that clearing fills the colour buffer with. Each channel is given
    /// in tenths of full intensity, so 10 stands for 1.0.
    ClearColor { red_tenths: u8, green_tenths: u8, blue_tenths: u8, alpha_tenths: u8 },
    /// Fill the colour buffer with the clear colour.
    ClearColorBuffer,
    /// Draw `count` vertices, starting at index `first`, as triangles, without an index
    /// buffer.
    DrawTriangles { first: i32, count: i32 },
    /// Present the finished frame by swapping the window's buffers.
    SwapWindow,
    /// Delete `program`.
    DeleteProgram { program: u32 },
    /// Delete `vertex_array`.
    DeleteVertexArray { vertex_array: u32 },
}

impl Command {
    /// Whether the driver answers this command with the handle of a new object.
    pub open spec fn creates_object(self) -> bool {
        self is CreateVertexArray || self is CreateProgram || self is CreateShader
    }

    /// Whether the driver answers this command with a success status.
    pub open spec fn asks_status(self) -> bool {
        self is GetShaderCompileStatus || self is GetProgramLinkStatus
    }

    /// Whether every handle that this command names is the name of an object.
    pub open spec fn names_objects(self) -> bool {
        match self {
            Command::BindVertexArray { vertex_array } => vertex_array != 0,
            Command::ShaderSource { shader, .. } => shader != 0,
            Command::CompileShader { shader } => shader != 0,
            Command::GetShaderCompileStatus { shader } => shader != 0,
            Command::GetShaderInfoLog { shader } => shader != 0,
            Command::AttachShader { program, shader } => program != 0 && shader != 0,
            Command::LinkProgram { program } => program != 0,
            Command::GetProgramLinkStatus { program } => program != 0,
            Command::GetProgramInfoLog { program } => program != 0,
            Command::DetachShader { program, shader } => program != 0 && shader != 0,
            Command::DeleteShader { shader } => shader != 0,
            Command::UseProgram { program } => program != 0,
            Command::DeleteProgram { program } => program != 0,
            Command::DeleteVertexArray { vertex_array } => vertex_array != 0,
            _ => true,
        }
    }
}

/// The background colour, as the command that sets it: (0.1, 0.2, 0.3, 1.0).
pub open spec fn background() -> Command {
    Command::ClearColor { red_tenths: 1, green_tenths: 2, blue_tenths: 3, alpha_tenths: 10 }
}

/// What the driver reported after a command ran.
#[derive(Debug, PartialEq, Eq)]
pub enum Reply {
    /// The command ran; it has no result.
    Done,
    /// The handle of the object that the command created.
    Handle(u32),
    /// Whether the operation asked about succeeded.
    Status(bool),
    /// A log, or the driver's words on why it failed.
    Text(String),
}

impl Reply {
    /// The object that this reply announces. A reply of another kind announces none, and
    /// neither does the null handle.
    pub open spec fn created(self) -> Option<u32> {
        match self {
            Reply::Handle(handle) => if handle != 0 {
                Some(handle)
            } else {
                None
            },
            _ => None,
        }
    }

    /// Whether this reply reports success. A reply of another kind does not.
    pub open spec fn confirms(self) -> bool {
        self matches Reply::Status(ok) && ok
    }

    /// The text that this reply carries. A reply of another kind carries none.
    pub open spec fn text(self) -> Seq<char> {
        match self {
            Reply::Text(text) => text@,
            _ => Seq::empty(),
        }
    }

    /// Whether this reply tells that `command` did what it was meant to do: an object
    /// was created where one was asked for, and a status asked about is success. Commands
    /// without such a result cannot fail in the renderer's eyes.
    pub open spec fn answers(self, command: Command) -> bool {
        &&& command.creates_object() ==> self.created() is Some
        &&& command.asks_status() ==> self.confirms()
    }

    pub fn handle(&self) -> (handle: Option<u32>)
        ensures
            handle == self.created(),
    {
        match self {
            Reply::Handle(handle) => if *handle != 0 {
                Some(*handle)
            } else {
                None
            },
            _ => None,
        }
    }

    pub fn is_success(&self) -> (ok: bool)
        ensures
            ok == self.confirms(),
    {
        match self {
            Reply::Status(ok) => *ok,
            _ => false,
        }
    }

    pub fn into_text(self) -> (text: String)
        ensures
            text@ == self.text(),
    {
        match self {
            Reply::Text(text) => text,
            _ => String::new(),
        }
    }
}

} // verus!
