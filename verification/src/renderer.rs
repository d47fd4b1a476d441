//! The renderer itself: the executable state machine behind the model of `lifecycle`.

use crate::backend::Backend;
use crate::command::{Command, Reply};
use crate::event::{closes, left_by_poll, poll, Event};
use crate::lifecycle::{Phase, RendererState, SetupError};
use crate::shader::ShaderStage;
use std::collections::VecDeque;
use vstd::prelude::*;

verus! {

/// A renderer that draws one triangle per frame.
///
/// It is made by `new`, led through set-up by handing each `pending` command to the
/// driver and the driver's reply to `advance`, and then driven frame by frame with
/// `update`, `swap_buffers` and `should_close` until the window is to close, when
/// `destroy` releases what it holds.
pub struct OpenGLRenderer {
    backend: Backend,
    phase: Phase,
    vertex_array: u32,
    program: u32,
    vertex_shader: u32,
    fragment_shader: u32,
    failure: Option<SetupError>,
    events: VecDeque<Event>,
}

impl View for OpenGLRenderer {
    type V = RendererState;

    closed spec fn view(&self) -> RendererState {
        RendererState {
            backend: self.backend,
            phase: self.phase,
            vertex_array: self.vertex_array,
            program: self.program,
            vertex_shader: self.vertex_shader,
            fragment_shader: self.fragment_shader,
            failure: match self.failure {
                Some(error) => Some(error@),
                None => None,
            },
            events: self.events@,
        }
    }
}

impl OpenGLRenderer {
    #[verifier::type_invariant]
    spec fn well_formed(&self) -> bool {
        self@.wf()
    }

    /// Makes a renderer for `backend`. It waits for its vertex array.
    pub fn new(backend: Backend) -> (renderer: OpenGLRenderer)
        ensures
            renderer@ == RendererState::initial(backend),
            renderer@.wf(),
    {
        OpenGLRenderer {
            backend,
            phase: Phase::CreatingVertexArray,
            vertex_array: 0,
            program: 0,
            vertex_shader: 0,
            fragment_shader: 0,
            failure: None,
            events: VecDeque::new(),
        }
    }

    pub fn backend(&self) -> (backend: Backend)
        ensures
            backend == self@.backend,
    {
        self.backend
    }

    pub fn phase(&self) -> (phase: Phase)
        ensures
            phase == self@.phase,
    {
        self.phase
    }

    pub fn is_ready(&self) -> (ready: bool)
        ensures
            ready == self@.is_ready(),
    {
        match self.phase {
            Phase::Ready => true,
            _ => false,
        }
    }

    fn shader(&self, stage: ShaderStage) -> (handle: u32)
        ensures
            handle == self@.shader(stage),
            self@.phase.has_shader(stage) ==> handle != 0,
    {
        proof {
            use_type_invariant(self);
        }
        match stage {
            ShaderStage::Vertex => self.vertex_shader,
            ShaderStage::Fragment => self.fragment_shader,
        }
    }

    /// The command that the driver has to run next, if set-up is still under way. Every
    /// handle in it names an object.
    pub fn pending(&self) -> (command: Option<Command>)
        ensures
            command == self@.pending(),
            command is Some <==> self@.phase.in_setup(),
            command matches Some(c) ==> c.names_objects(),
    {
        proof {
            use_type_invariant(self);
        }
        let program = self.program;
        match self.phase {
            Phase::CreatingVertexArray => Some(Command::CreateVertexArray),
            Phase::BindingVertexArray => Some(
                Command::BindVertexArray { vertex_array: self.vertex_array },
            ),
            Phase::CreatingProgram => Some(Command::CreateProgram),
            Phase::CreatingShader(stage) => Some(Command::CreateShader { stage }),
            Phase::LoadingSource(stage) => Some(
                Command::ShaderSource { shader: self.shader(stage), stage },
            ),
            Phase::Compiling(stage) => Some(Command::CompileShader { shader: self.shader(stage) }),
            Phase::CheckingCompile(stage) => Some(
                Command::GetShaderCompileStatus { shader: self.shader(stage) },
            ),
            Phase::ReadingShaderLog(stage) => Some(
                Command::GetShaderInfoLog { shader: self.shader(stage) },
            ),
            Phase::Attaching(stage) => Some(
                Command::AttachShader { program, shader: self.shader(stage) },
            ),
            Phase::Linking => Some(Command::LinkProgram { program }),
            Phase::CheckingLink => Some(Command::GetProgramLinkStatus { program }),
            Phase::ReadingProgramLog => Some(Command::GetProgramInfoLog { program }),
            Phase::Detaching(stage) => Some(
                Command::DetachShader { program, shader: self.shader(stage) },
            ),
            Phase::Deleting(stage) => Some(Command::DeleteShader { shader: self.shader(stage) }),
            Phase::Activating => Some(Command::UseProgram { program }),
            Phase::SettingClearColor => Some(
                Command::ClearColor {
                    red_tenths: 1,
                    green_tenths: 2,
                    blue_tenths: 3,
                    alpha_tenths: 10,
                },
            ),
            Phase::Ready | Phase::Aborted | Phase::Destroyed => None,
        }
    }

    fn abort(&mut self, error: SetupError)
        ensures
            final(self)@ == old(self)@.aborted(error@),
    {
        proof {
            use_type_invariant(&*self);
        }
        self.failure = Some(error);
        self.phase = Phase::Aborted;
    }

    /// Takes the driver's reply to the pending command and moves on.
    pub fn advance(&mut self, reply: Reply)
        ensures
            final(self)@ == old(self)@.step(reply),
            final(self)@.wf(),
    {
        proof {
            use_type_invariant(&*self);
        }
        match self.phase {
            Phase::CreatingVertexArray => match reply.handle() {
                Some(handle) => {
                    self.vertex_array = handle;
                    self.phase = Phase::BindingVertexArray;
                },
                None => self.abort(SetupError::VertexArrayCreation),
            },
            Phase::BindingVertexArray => {
                self.phase = Phase::CreatingProgram;
            },
            Phase::CreatingProgram => match reply.handle() {
                Some(handle) => {
                    self.program = handle;
                    self.phase = Phase::CreatingShader(ShaderStage::Vertex);
                },
                None => self.abort(SetupError::ProgramCreation),
            },
            Phase::CreatingShader(stage) => match reply.handle() {
                Some(handle) => {
                    match stage {
                        ShaderStage::Vertex => {
                            self.vertex_shader = handle;
                        },
                        ShaderStage::Fragment => {
                            self.fragment_shader = handle;
                        },
                    }
                    self.phase = Phase::LoadingSource(stage);
                },
                None => self.abort(SetupError::ShaderCreation { stage }),
            },
            Phase::LoadingSource(stage) => {
                self.phase = Phase::Compiling(stage);
            },
            Phase::Compiling(stage) => {
                self.phase = Phase::CheckingCompile(stage);
            },
            Phase::CheckingCompile(stage) => {
                if reply.is_success() {
                    self.phase = Phase::Attaching(stage);
                } else {
                    self.phase = Phase::ReadingShaderLog(stage);
                }
            },
            Phase::ReadingShaderLog(stage) => {
                let log = reply.into_text();
                self.abort(SetupError::ShaderCompilation { stage, log });
            },
            Phase::Attaching(stage) => match stage.next() {
                Some(next) => {
                    self.phase = Phase::CreatingShader(next);
                },
                None => {
                    self.phase = Phase::Linking;
                },
            },
            Phase::Linking => {
                self.phase = Phase::CheckingLink;
            },
            Phase::CheckingLink => {
                if reply.is_success() {
                    self.phase = Phase::Detaching(ShaderStage::Vertex);
                } else {
                    self.phase = Phase::ReadingProgramLog;
                }
            },
            Phase::ReadingProgramLog => {
                let log = reply.into_text();
                self.abort(SetupError::ProgramLinking { log });
            },
            Phase::Detaching(stage) => {
                self.phase = Phase::Deleting(stage);
            },
            Phase::Deleting(stage) => match stage.next() {
                Some(next) => {
                    self.phase = Phase::Detaching(next);
                },
                None => {
                    self.phase = Phase::Activating;
                },
            },
            Phase::Activating => {
                self.phase = Phase::SettingClearColor;
            },
            Phase::SettingClearColor => {
                self.phase = Phase::Ready;
            },
            Phase::Ready | Phase::Aborted | Phase::Destroyed => {},
        }
    }

    /// Why set-up failed, once it has.
    pub fn failure(&self) -> (failure: Option<&SetupError>)
        ensures
            match failure {
                Some(error) => self@.failure == Some(error@),
                None => self@.failure is None,
            },
            self@.phase is Aborted ==> failure is Some,
    {
        proof {
            use_type_invariant(self);
        }
        self.failure.as_ref()
    }

    /// The handle of the vertex array, while there is one. It is never null.
    pub fn vertex_array(&self) -> (handle: Option<u32>)
        ensures
            handle == if self@.phase.has_vertex_array() {
                Some(self@.vertex_array)
            } else {
                None
            },
            handle matches Some(h) ==> h != 0,
            self@.is_ready() ==> handle is Some,
    {
        proof {
            use_type_invariant(self);
        }
        match self.phase {
            Phase::CreatingVertexArray | Phase::Aborted | Phase::Destroyed => None,
            _ => Some(self.vertex_array),
        }
    }

    /// The handle of the program, while there is one. It is never null.
    pub fn program(&self) -> (handle: Option<u32>)
        ensures
            handle == if self@.phase.has_program() {
                Some(self@.program)
            } else {
                None
            },
            handle matches Some(h) ==> h != 0,
            self@.is_ready() ==> handle is Some,
    {
        proof {
            use_type_invariant(self);
        }
        match self.phase {
            Phase::CreatingVertexArray
            | Phase::BindingVertexArray
            | Phase::CreatingProgram
            | Phase::Aborted
            | Phase::Destroyed => None,
            _ => Some(self.program),
        }
    }

    /// Puts `event` at the back of the queue that `should_close` polls.
    pub fn push_event(&mut self, event: Event)
        ensures
            final(self)@ == (RendererState {
                events: old(self)@.events.push(event),
                ..old(self)@
            }),
    {
        proof {
            use_type_invariant(&*self);
        }
        // The queue is taken out while it is worked on, and put back afterwards.
        let mut events: VecDeque<Event> = VecDeque::new();
        std::mem::swap(&mut events, &mut self.events);
        events.push_back(event);
        std::mem::swap(&mut events, &mut self.events);
    }

    /// Polls the queue once: takes events from its front up to and including the first
    /// request to close, and tells whether there was one. Every event taken is gone;
    /// those behind the request stay for the next poll.
    pub fn should_close(&mut self) -> (closing: bool)
        ensures
            closing == closes(old(self)@.events),
            final(self)@ == (RendererState {
                events: left_by_poll(old(self)@.events),
                ..old(self)@
            }),
            old(self)@.events.len() == 0 ==> !closing,
    {
        proof {
            use_type_invariant(&*self);
        }
        let mut events: VecDeque<Event> = VecDeque::new();
        std::mem::swap(&mut events, &mut self.events);
        let closing = poll(&mut events);
        std::mem::swap(&mut events, &mut self.events);
        closing
    }

    /// Draws one frame: the colour buffer is cleared, then the triangle is drawn. The
    /// commands are returned for the driver, in order; the renderer does not change.
    pub fn update(&mut self) -> (commands: Vec<Command>)
        ensures
            commands@ == old(self)@.frame(),
            old(self)@.is_ready() ==> commands@ == seq![
                Command::ClearColorBuffer,
                Command::DrawTriangles { first: 0, count: 3 },
            ],
            final(self)@ == old(self)@,
    {
        let mut commands: Vec<Command> = Vec::new();
        if self.is_ready() {
            commands.push(Command::ClearColorBuffer);
            commands.push(Command::DrawTriangles { first: 0, count: 3 });
        }
        assert(commands@ =~= self@.frame());
        commands
    }

    /// Presents the frame. The commands are returned for the window system; there is
    /// none in a browser, where the page presents the canvas by itself.
    pub fn swap_buffers(&mut self) -> (commands: Vec<Command>)
        ensures
            commands@ == old(self)@.presentation(),
            final(self)@ == old(self)@,
    {
        let mut commands: Vec<Command> = Vec::new();
        if self.is_ready() && self.backend.swaps_window() {
            commands.push(Command::SwapWindow);
        }
        assert(commands@ =~= self@.presentation());
        commands
    }

    /// Releases the program and the vertex array, in that order, and leaves the
    /// renderer destroyed. The commands are returned for the driver. Called on a
    /// renderer that is not ready, it releases nothing and changes nothing, so no
    /// handle is ever released twice.
    pub fn destroy(&mut self) -> (commands: Vec<Command>)
        ensures
            commands@ == old(self)@.teardown(),
            final(self)@ == old(self)@.released(),
            forall|i: int| 0 <= i < commands@.len() ==> (#[trigger] commands@[i]).names_objects(),
    {
        proof {
            use_type_invariant(&*self);
        }
        let mut commands: Vec<Command> = Vec::new();
        if self.is_ready() {
            commands.push(Command::DeleteProgram { program: self.program });
            commands.push(Command::DeleteVertexArray { vertex_array: self.vertex_array });
            self.phase = Phase::Destroyed;
        }
        assert(commands@ =~= old(self)@.teardown());
        commands
    }
}

} // verus!
