//! The life of a renderer as a state machine: where it stands, which command it waits
//! on, and where each reply of the driver takes it.

use crate::backend::Backend;
use crate::command::{background, Command, Reply};
use crate::event::Event;
use crate::shader::ShaderStage;
use vstd::prelude::*;
use vstd::string::*;

verus! {

/// Where a renderer stands. During set-up each phase is named after the command whose
/// reply the renderer waits for.
#[derive(Clone, Copy, Debug, PartialEq, Eq, Structural)]
pub enum Phase {
    CreatingVertexArray,
    BindingVertexArray,
    CreatingProgram,
    CreatingShader(ShaderStage),
    LoadingSource(ShaderStage),
    Compiling(ShaderStage),
    CheckingCompile(ShaderStage),
    /// Compilation failed; the renderer waits for the compiler's log.
    ReadingShaderLog(ShaderStage),
    Attaching(ShaderStage),
    Linking,
    CheckingLink,
    /// Linking failed; the renderer waits for the linker's log.
    ReadingProgramLog,
    Detaching(ShaderStage),
    Deleting(ShaderStage),
    Activating,
    SettingClearColor,
    /// Set-up succeeded: frames can be drawn.
    Ready,
    /// Set-up failed for good.
    Aborted,
    /// The program and the vertex array were released.
    Destroyed,
}

impl Phase {
    /// Whether the renderer still waits for a reply of the driver.
    pub open spec fn in_setup(self) -> bool {
        !(self is Ready || self is Aborted || self is Destroyed)
    }

    /// Whether nothing has failed so far and nothing was released.
    pub open spec fn on_course(self) -> bool {
        !(self is ReadingShaderLog || self is ReadingProgramLog || self is Aborted
            || self is Destroyed)
    }

    /// How many replies are still needed before the renderer is ready, provided that
    /// none of them reports a failure.
    pub open spec fn remaining(self) -> nat {
        match self {
            Phase::CreatingVertexArray => 21,
            Phase::BindingVertexArray => 20,
            Phase::CreatingProgram => 19,
            Phase::CreatingShader(ShaderStage::Vertex) => 18,
            Phase::LoadingSource(ShaderStage::Vertex) => 17,
            Phase::Compiling(ShaderStage::Vertex) => 16,
            Phase::CheckingCompile(ShaderStage::Vertex) => 15,
            Phase::Attaching(ShaderStage::Vertex) => 14,
            Phase::CreatingShader(ShaderStage::Fragment) => 13,
            Phase::LoadingSource(ShaderStage::Fragment) => 12,
            Phase::Compiling(ShaderStage::Fragment) => 11,
            Phase::CheckingCompile(ShaderStage::Fragment) => 10,
            Phase::Attaching(ShaderStage::Fragment) => 9,
            Phase::Linking => 8,
            Phase::CheckingLink => 7,
            Phase::Detaching(ShaderStage::Vertex) => 6,
            Phase::Deleting(ShaderStage::Vertex) => 5,
            Phase::Detaching(ShaderStage::Fragment) => 4,
            Phase::Deleting(ShaderStage::Fragment) => 3,
            Phase::Activating => 2,
            Phase::SettingClearColor => 1,
            _ => 0,
        }
    }

    /// The greatest number of replies that set-up can still take, whatever they say. A
    /// failed check costs one more reply, for the log, and ends set-up.
    pub open spec fn at_most(self) -> nat {
        if self.on_course() {
            self.remaining()
        } else if self is ReadingShaderLog || self is ReadingProgramLog {
            1
        } else {
            0
        }
    }

    /// Whether the vertex array exists in this phase.
    pub open spec fn has_vertex_array(self) -> bool {
        !(self is CreatingVertexArray || self is Aborted || self is Destroyed)
    }

    /// Whether the program exists in this phase.
    pub open spec fn has_program(self) -> bool {
        !(self is CreatingVertexArray || self is BindingVertexArray || self is CreatingProgram
            || self is Aborted || self is Destroyed)
    }

    /// Whether the shader of `stage` exists in this phase. The vertex shader is created
    /// first and deleted first; both exist while the program is linked.
    pub open spec fn has_shader(self, stage: ShaderStage) -> bool {
        match self {
            Phase::CreatingShader(current) => stage is Vertex && current is Fragment,
            Phase::LoadingSource(current)
            | Phase::Compiling(current)
            | Phase::CheckingCompile(current)
            | Phase::ReadingShaderLog(current)
            | Phase::Attaching(current) => stage is Vertex || current is Fragment,
            Phase::Linking | Phase::CheckingLink | Phase::ReadingProgramLog => true,
            Phase::Detaching(current) | Phase::Deleting(current) => stage is Fragment
                || current is Vertex,
            _ => false,
        }
    }
}

/// Why set-up failed.
#[derive(Debug, PartialEq, Eq)]
pub enum SetupError {
    /// The driver gave no vertex array.
    VertexArrayCreation,
    /// The driver gave no program.
    ProgramCreation,
    /// The driver gave no shader for `stage`.
    ShaderCreation { stage: ShaderStage },
    /// The shader of `stage` did not compile; `log` is what the compiler said.
    ShaderCompilation { stage: ShaderStage, log: String },
    /// The program did not link; `log` is what the linker said.
    ProgramLinking { log: String },
}

/// A `SetupError` with its log as a sequence of characters.
pub enum SetupFailure {
    VertexArrayCreation,
    ProgramCreation,
    ShaderCreation { stage: ShaderStage },
    ShaderCompilation { stage: ShaderStage, log: Seq<char> },
    ProgramLinking { log: Seq<char> },
}

impl SetupFailure {
    /// What is reported to the user: the driver's log where the driver gave one, else a
    /// fixed sentence that names what could not be created.
    pub open spec fn message_text(self) -> Seq<char> {
        match self {
            SetupFailure::VertexArrayCreation => "Cannot create vertex array"@,
            SetupFailure::ProgramCreation => "Cannot create program"@,
            SetupFailure::ShaderCreation { .. } => "Cannot create shader"@,
            SetupFailure::ShaderCompilation { log, .. } => log,
            SetupFailure::ProgramLinking { log } => log,
        }
    }
}

impl View for SetupError {
    type V = SetupFailure;

    open spec fn view(&self) -> SetupFailure {
        match *self {
            SetupError::VertexArrayCreation => SetupFailure::VertexArrayCreation,
            SetupError::ProgramCreation => SetupFailure::ProgramCreation,
            SetupError::ShaderCreation { stage } => SetupFailure::ShaderCreation { stage },
            SetupError::ShaderCompilation { stage, log } => SetupFailure::ShaderCompilation {
                stage,
                log: log@,
            },
            SetupError::ProgramLinking { log } => SetupFailure::ProgramLinking { log: log@ },
        }
    }
}

impl SetupError {
    /// The text to report when set-up has failed with this error.
    pub fn message(&self) -> (text: String)
        ensures
            text@ == self@.message_text(),
    {
        match self {
            SetupError::VertexArrayCreation => String::from_str("Cannot create vertex array"),
            SetupError::ProgramCreation => String::from_str("Cannot create program"),
            SetupError::ShaderCreation { .. } => String::from_str("Cannot create shader"),
            SetupError::ShaderCompilation { log, .. } => log.clone(),
            SetupError::ProgramLinking { log } => log.clone(),
        }
    }
}

/// All that a renderer knows, as plain values.
pub struct RendererState {
    pub backend: Backend,
    pub phase: Phase,
    /// The vertex array, once created.
    pub vertex_array: u32,
    /// The program, once created.
    pub program: u32,
    /// The vertex shader, from its creation to its deletion.
    pub vertex_shader: u32,
    /// The fragment shader, from its creation to its deletion.
    pub fragment_shader: u32,
    /// Why set-up failed, if it did.
    pub failure: Option<SetupFailure>,
    /// The events that were queued and not yet polled, oldest first.
    pub events: Seq<Event>,
}

impl RendererState {
    /// A renderer that has just been made: it waits for its vertex array and knows of
    /// no object and no event.
    pub open spec fn initial(backend: Backend) -> RendererState {
        RendererState {
            backend,
            phase: Phase::CreatingVertexArray,
            vertex_array: 0,
            program: 0,
            vertex_shader: 0,
            fragment_shader: 0,
            failure: None,
            events: Seq::empty(),
        }
    }

    /// Every object that exists in the current phase has a handle, and an aborted
    /// renderer knows why it was aborted.
    pub open spec fn wf(self) -> bool {
        &&& self.phase.has_vertex_array() ==> self.vertex_array != 0
        &&& self.phase.has_program() ==> self.program != 0
        &&& self.phase.has_shader(ShaderStage::Vertex) ==> self.vertex_shader != 0
        &&& self.phase.has_shader(ShaderStage::Fragment) ==> self.fragment_shader != 0
        &&& self.phase is Aborted ==> self.failure is Some
    }

    pub open spec fn is_ready(self) -> bool {
        self.phase is Ready
    }

    /// The handle of the shader of `stage`.
    pub open spec fn shader(self, stage: ShaderStage) -> u32 {
        match stage {
            ShaderStage::Vertex => self.vertex_shader,
            ShaderStage::Fragment => self.fragment_shader,
        }
    }

    /// This state moved on to `phase`.
    pub open spec fn at(self, phase: Phase) -> RendererState {
        RendererState { phase, ..self }
    }

    /// This state with `handle` as the shader of `stage`.
    pub open spec fn with_shader(self, stage: ShaderStage, handle: u32) -> RendererState {
        match stage {
            ShaderStage::Vertex => RendererState { vertex_shader: handle, ..self },
            ShaderStage::Fragment => RendererState { fragment_shader: handle, ..self },
        }
    }

    /// This state after set-up failed with `failure`.
    pub open spec fn aborted(self, failure: SetupFailure) -> RendererState {
        RendererState { phase: Phase::Aborted, failure: Some(failure), ..self }
    }

    /// The command that the renderer waits on: the driver has to run it and report.
    /// There is one in every phase of set-up and none afterwards.
    pub open spec fn pending(self) -> Option<Command> {
        let program = self.program;
        match self.phase {
            Phase::CreatingVertexArray => Some(Command::CreateVertexArray),
            Phase::BindingVertexArray => Some(
                Command::BindVertexArray { vertex_array: self.vertex_array },
            ),
            Phase::CreatingProgram => Some(Command::CreateProgram),
            Phase::CreatingShader(stage) => Some(Command::CreateShader { stage }),
            Phase::LoadingSource(stage) => Some(
                Command::ShaderSource { shader: self.shader(stage), stage },
            ),
            Phase::Compiling(stage) => Some(Command::CompileShader { shader: self.shader(stage) }),
            Phase::CheckingCompile(stage) => Some(
                Command::GetShaderCompileStatus { shader: self.shader(stage) },
            ),
            Phase::ReadingShaderLog(stage) => Some(
                Command::GetShaderInfoLog { shader: self.shader(stage) },
            ),
            Phase::Attaching(stage) => Some(
                Command::AttachShader { program, shader: self.shader(stage) },
            ),
            Phase::Linking => Some(Command::LinkProgram { program }),
            Phase::CheckingLink => Some(Command::GetProgramLinkStatus { program }),
            Phase::ReadingProgramLog => Some(Command::GetProgramInfoLog { program }),
            Phase::Detaching(stage) => Some(
                Command::DetachShader { program, shader: self.shader(stage) },
            ),
            Phase::Deleting(stage) => Some(Command::DeleteShader { shader: self.shader(stage) }),
            Phase::Activating => Some(Command::UseProgram { program }),
            Phase::SettingClearColor => Some(background()),
            Phase::Ready | Phase::Aborted | Phase::Destroyed => None,
        }
    }

    /// The state after the driver answered the pending command with `reply`.
    ///
    /// Where a handle is awaited, any reply that announces no object aborts set-up.
    /// Where a status is awaited, any reply but success makes the renderer ask for the
    /// log, and the reply to that aborts set-up with the text it carries. Commands
    /// without a result are taken as done whatever the reply. Once set-up is over,
    /// replies change nothing.
    pub open spec fn step(self, reply: Reply) -> RendererState {
        match self.phase {
            Phase::CreatingVertexArray => match reply.created() {
                Some(handle) => RendererState {
                    vertex_array: handle,
                    ..self
                }.at(Phase::BindingVertexArray),
                None => self.aborted(SetupFailure::VertexArrayCreation),
            },
            Phase::BindingVertexArray => self.at(Phase::CreatingProgram),
            Phase::CreatingProgram => match reply.created() {
                Some(handle) => RendererState { program: handle, ..self }.at(
                    Phase::CreatingShader(ShaderStage::Vertex),
                ),
                None => self.aborted(SetupFailure::ProgramCreation),
            },
            Phase::CreatingShader(stage) => match reply.created() {
                Some(handle) => self.with_shader(stage, handle).at(Phase::LoadingSource(stage)),
                None => self.aborted(SetupFailure::ShaderCreation { stage }),
            },
            Phase::LoadingSource(stage) => self.at(Phase::Compiling(stage)),
            Phase::Compiling(stage) => self.at(Phase::CheckingCompile(stage)),
            Phase::CheckingCompile(stage) => if reply.confirms() {
                self.at(Phase::Attaching(stage))
            } else {
                self.at(Phase::ReadingShaderLog(stage))
            },
            Phase::ReadingShaderLog(stage) => self.aborted(
                SetupFailure::ShaderCompilation { stage, log: reply.text() },
            ),
            Phase::Attaching(stage) => match stage.following() {
                Some(next) => self.at(Phase::CreatingShader(next)),
                None => self.at(Phase::Linking),
            },
            Phase::Linking => self.at(Phase::CheckingLink),
            Phase::CheckingLink => if reply.confirms() {
                self.at(Phase::Detaching(ShaderStage::Vertex))
            } else {
                self.at(Phase::ReadingProgramLog)
            },
            Phase::ReadingProgramLog => self.aborted(
                SetupFailure::ProgramLinking { log: reply.text() },
            ),
            Phase::Detaching(stage) => self.at(Phase::Deleting(stage)),
            Phase::Deleting(stage) => match stage.following() {
                Some(next) => self.at(Phase::Detaching(next)),
                None => self.at(Phase::Activating),
            },
            Phase::Activating => self.at(Phase::SettingClearColor),
            Phase::SettingClearColor => self.at(Phase::Ready),
            Phase::Ready | Phase::Aborted | Phase::Destroyed => self,
        }
    }

    /// The state after the driver gave `replies`, one after the other.
    pub open spec fn run(self, replies: Seq<Reply>) -> RendererState
        decreases replies.len(),
    {
        if replies.len() == 0 {
            self
        } else {
            self.step(replies[0]).run(replies.drop_first())
        }
    }

    /// Whether each of `replies` answers a command that the renderer was waiting on, and
    /// tells that the command did what it was meant to do.
    pub open spec fn served_by(self, replies: Seq<Reply>) -> bool
        decreases replies.len(),
    {
        replies.len() > 0 ==> {
            &&& self.pending() matches Some(command) && replies[0].answers(command)
            &&& self.step(replies[0]).served_by(replies.drop_first())
        }
    }

    /// The commands that the renderer waited on while the driver gave `replies`: the one
    /// pending before each reply, in order.
    pub open spec fn asked(self, replies: Seq<Reply>) -> Seq<Command>
        decreases replies.len(),
    {
        if replies.len() == 0 {
            Seq::empty()
        } else {
            match self.pending() {
                Some(command) => seq![command] + self.step(replies[0]).asked(
                    replies.drop_first(),
                ),
                None => Seq::empty(),
            }
        }
    }

    /// The commands of one frame: clear the colour buffer, then draw the three vertices
    /// of the triangle in one call without an index buffer. A renderer that is not ready
    /// draws nothing.
    pub open spec fn frame(self) -> Seq<Command> {
        if self.is_ready() {
            seq![Command::ClearColorBuffer, Command::DrawTriangles { first: 0, count: 3 }]
        } else {
            Seq::empty()
        }
    }

    /// The commands that present a frame: a swap of the window's buffers where the
    /// backend presents that way, none in a browser and none unless ready.
    pub open spec fn presentation(self) -> Seq<Command> {
        if self.is_ready() && self.backend.presents_by_swap() {
            seq![Command::SwapWindow]
        } else {
            Seq::empty()
        }
    }

    /// The commands that release what a ready renderer holds: the program, then the
    /// vertex array. A renderer that is not ready holds nothing to release.
    pub open spec fn teardown(self) -> Seq<Command> {
        if self.is_ready() {
            seq![
                Command::DeleteProgram { program: self.program },
                Command::DeleteVertexArray { vertex_array: self.vertex_array },
            ]
        } else {
            Seq::empty()
        }
    }

    /// The state after `destroy`: a ready renderer is destroyed, any other is as before.
    pub open spec fn released(self) -> RendererState {
        if self.is_ready() {
            self.at(Phase::Destroyed)
        } else {
            self
        }
    }
}

/// The commands of a set-up in which nothing fails, in the order in which the driver
/// gets them, for the handles that the driver gives out on the way.
///
/// The vertex array is created and bound; the program is created; each shader in turn is
/// created, given its source, compiled, checked and attached; the program is linked and
/// checked; each shader is detached and deleted; the program is put to use; the clear
/// colour is set.
pub open spec fn setup_commands(
    vertex_array: u32,
    program: u32,
    vertex_shader: u32,
    fragment_shader: u32,
) -> Seq<Command> {
    seq![
        Command::CreateVertexArray,
        Command::BindVertexArray { vertex_array },
        Command::CreateProgram,
        Command::CreateShader { stage: ShaderStage::Vertex },
        Command::ShaderSource { shader: vertex_shader, stage: ShaderStage::Vertex },
        Command::CompileShader { shader: vertex_shader },
        Command::GetShaderCompileStatus { shader: vertex_shader },
        Command::AttachShader { program, shader: vertex_shader },
        Command::CreateShader { stage: ShaderStage::Fragment },
        Command::ShaderSource { shader: fragment_shader, stage: ShaderStage::Fragment },
        Command::CompileShader { shader: fragment_shader },
        Command::GetShaderCompileStatus { shader: fragment_shader },
        Command::AttachShader { program, shader: fragment_shader },
        Command::LinkProgram { program },
        Command::GetProgramLinkStatus { program },
        Command::DetachShader { program, shader: vertex_shader },
        Command::DeleteShader { shader: vertex_shader },
        Command::DetachShader { program, shader: fragment_shader },
        Command::DeleteShader { shader: fragment_shader },
        Command::UseProgram { program },
        background(),
    ]
}

/// No reply breaks a well-formed state.
pub proof fn lemma_step_keeps_well_formed(state: RendererState, reply: Reply)
    requires
        state.wf(),
    ensures
        state.step(reply).wf(),
{
}

/// No run of replies breaks a well-formed state.
pub proof fn lemma_run_keeps_well_formed(state: RendererState, replies: Seq<Reply>)
    requires
        state.wf(),
    ensures
        state.run(replies).wf(),
    decreases replies.len(),
{
    if replies.len() > 0 {
        lemma_step_keeps_well_formed(state, replies[0]);
        lemma_run_keeps_well_formed(state.step(replies[0]), replies.drop_first());
    }
}

/// A driver that does all it is asked leads set-up to success.
///
/// Take a renderer in which nothing has failed, and replies that each answer the pending
/// command and report that it did its work. Then nothing has failed after them either,
/// each reply brought the renderer one command closer to ready, and once no command is
/// pending the renderer is ready and holds a vertex array and a program, neither null.
pub proof fn lemma_served_setup_ends_ready(state: RendererState, replies: Seq<Reply>)
    requires
        state.wf(),
        state.phase.on_course(),
        state.served_by(replies),
    ensures
        state.run(replies).wf(),
        state.run(replies).phase.on_course(),
        state.run(replies).phase.remaining() + replies.len() == state.phase.remaining(),
        state.run(replies).pending() is None ==> state.run(replies).is_ready(),
        state.run(replies).is_ready() ==> state.run(replies).vertex_array != 0
            && state.run(replies).program != 0,
        state.run(replies).backend == state.backend,
    decreases replies.len(),
{
    if replies.len() > 0 {
        lemma_served_setup_ends_ready(state.step(replies[0]), replies.drop_first());
    }
}

/// Set-up from scratch takes twenty-one commands: a renderer that has just been made
/// and is served that many times is ready, with a vertex array and a program that are
/// not null.
pub proof fn lemma_fresh_renderer_becomes_ready(backend: Backend, replies: Seq<Reply>)
    requires
        RendererState::initial(backend).served_by(replies),
        replies.len() == 21,
    ensures
        RendererState::initial(backend).run(replies).is_ready(),
        RendererState::initial(backend).run(replies).vertex_array != 0,
        RendererState::initial(backend).run(replies).program != 0,
{
    lemma_served_setup_ends_ready(RendererState::initial(backend), replies);
}

/// Every reply brings the end of set-up closer, whatever it says.
pub proof fn lemma_reply_brings_end_closer(state: RendererState, reply: Reply)
    requires
        state.phase.in_setup(),
    ensures
        state.step(reply).phase.at_most() < state.phase.at_most(),
{
}

/// Set-up ends: after as many replies as `at_most` tells, twenty-one from the start, no
/// command is pending, whatever the driver said.
pub proof fn lemma_setup_ends(state: RendererState, replies: Seq<Reply>)
    requires
        replies.len() >= state.phase.at_most(),
    ensures
        !state.run(replies).phase.in_setup(),
        state.run(replies).pending() is None,
    decreases replies.len(),
{
    if replies.len() > 0 {
        if state.phase.in_setup() {
            lemma_reply_brings_end_closer(state, replies[0]);
        }
        lemma_setup_ends(state.step(replies[0]), replies.drop_first());
    }
}

/// A failure is for good: once a compilation or the linking has failed, or set-up was
/// aborted, no reply makes the renderer ready, and an aborted renderer keeps its state.
pub proof fn lemma_failure_is_final(state: RendererState, replies: Seq<Reply>)
    requires
        state.phase is ReadingShaderLog || state.phase is ReadingProgramLog
            || state.phase is Aborted,
    ensures
        !state.run(replies).is_ready(),
        replies.len() > 0 ==> state.run(replies).phase is Aborted,
        state.phase is Aborted ==> state.run(replies) == state,
    decreases replies.len(),
{
    if replies.len() > 0 {
        lemma_failure_is_final(state.step(replies[0]), replies.drop_first());
    }
}

/// A shader that does not compile ends set-up.
///
/// When the status of a compilation comes back as anything but success, the renderer
/// asks for that shader's log, aborts with the text of the next reply as its message, and
/// is never ready, whatever the driver says afterwards.
pub proof fn lemma_failed_compilation_aborts(
    state: RendererState,
    stage: ShaderStage,
    verdict: Reply,
    log: Reply,
    later: Seq<Reply>,
)
    requires
        state.phase == Phase::CheckingCompile(stage),
        !verdict.confirms(),
    ensures
        state.step(verdict).pending() == Some(
            Command::GetShaderInfoLog { shader: state.shader(stage) },
        ),
        state.step(verdict).step(log).phase is Aborted,
        state.step(verdict).step(log).failure == Some(
            SetupFailure::ShaderCompilation { stage, log: log.text() },
        ),
        state.step(verdict).step(log).failure.unwrap().message_text() == log.text(),
        !state.step(verdict).run(later).is_ready(),
{
    lemma_failure_is_final(state.step(verdict), later);
}

/// A program that does not link ends set-up, in the same way.
pub proof fn lemma_failed_linking_aborts(
    state: RendererState,
    verdict: Reply,
    log: Reply,
    later: Seq<Reply>,
)
    requires
        state.phase is CheckingLink,
        !verdict.confirms(),
    ensures
        state.step(verdict).pending() == Some(
            Command::GetProgramInfoLog { program: state.program },
        ),
        state.step(verdict).step(log).phase is Aborted,
        state.step(verdict).step(log).failure == Some(
            SetupFailure::ProgramLinking { log: log.text() },
        ),
        state.step(verdict).step(log).failure.unwrap().message_text() == log.text(),
        !state.step(verdict).run(later).is_ready(),
{
    lemma_failure_is_final(state.step(verdict), later);
}

/// An object that the driver refuses to create ends set-up at once.
pub proof fn lemma_refused_creation_aborts(
    state: RendererState,
    command: Command,
    refusal: Reply,
    later: Seq<Reply>,
)
    requires
        state.pending() == Some(command),
        command.creates_object(),
        refusal.created() is None,
    ensures
        state.step(refusal).phase is Aborted,
        command is CreateVertexArray ==> state.step(refusal).failure == Some(
            SetupFailure::VertexArrayCreation,
        ),
        command is CreateProgram ==> state.step(refusal).failure == Some(
            SetupFailure::ProgramCreation,
        ),
        command matches Command::CreateShader { stage } ==> state.step(refusal).failure == Some(
            SetupFailure::ShaderCreation { stage },
        ),
        !state.step(refusal).run(later).is_ready(),
{
    lemma_failure_is_final(state.step(refusal), later);
}

/// Nothing is released twice.
///
/// Destroying a ready renderer releases its program and its vertex array, once each.
/// Afterwards the renderer is destroyed: destroying it again releases nothing, it draws
/// and presents nothing, and no reply of the driver brings it back.
pub proof fn lemma_destroy_releases_once(state: RendererState, replies: Seq<Reply>)
    requires
        state.is_ready(),
    ensures
        state.teardown() == seq![
            Command::DeleteProgram { program: state.program },
            Command::DeleteVertexArray { vertex_array: state.vertex_array },
        ],
        state.released().phase is Destroyed,
        state.released().teardown() == Seq::<Command>::empty(),
        state.released().released() == state.released(),
        state.released().frame() == Seq::<Command>::empty(),
        state.released().presentation() == Seq::<Command>::empty(),
        state.released().run(replies) == state.released(),
    decreases replies.len(),
{
    if replies.len() > 0 {
        lemma_destroy_releases_once(state, replies.drop_first());
    }
}

/// In a served run a command was pending before every reply.
pub proof fn lemma_asked_covers_served_run(state: RendererState, replies: Seq<Reply>)
    requires
        state.served_by(replies),
    ensures
        state.asked(replies).len() == replies.len(),
    decreases replies.len(),
{
    if replies.len() > 0 {
        lemma_asked_covers_served_run(state.step(replies[0]), replies.drop_first());
    }
}

/// What was asked at each point of a served run is what was pending then, and the
/// reply to it told of success and made the next step.
pub proof fn lemma_asked_is_pending(state: RendererState, replies: Seq<Reply>, k: int)
    requires
        state.served_by(replies),
        0 <= k < replies.len(),
    ensures
        state.asked(replies).len() == replies.len(),
        state.run(replies.take(k)).pending() == Some(state.asked(replies)[k]),
        replies[k].answers(state.asked(replies)[k]),
        state.run(replies.take(k + 1)) == state.run(replies.take(k)).step(replies[k]),
    decreases replies.len(),
{
    let next = state.step(replies[0]);
    let rest = replies.drop_first();
    lemma_asked_covers_served_run(state, replies);
    if k == 0 {
        assert(replies.take(0).len() == 0);
        assert(replies.take(1)[0] == replies[0]);
        assert(replies.take(1).drop_first().len() == 0);
        assert(next.run(replies.take(1).drop_first()) == next);
    } else {
        lemma_asked_is_pending(next, rest, k - 1);
        assert(replies.take(k)[0] == replies[0]);
        assert(replies.take(k).drop_first() =~= rest.take(k - 1));
        assert(replies.take(k + 1)[0] == replies[0]);
        assert(replies.take(k + 1).drop_first() =~= rest.take(k));
        assert(rest[k - 1] == replies[k]);
    }
}

/// The driver of a set-up without failures is asked for exactly the commands of
/// `setup_commands`, in that order, with the handles that it announced itself: the vertex
/// array in its first reply, the program in its third, the vertex shader in its fourth
/// and the fragment shader in its ninth.
pub proof fn lemma_setup_follows_the_script(backend: Backend, replies: Seq<Reply>)
    requires
        RendererState::initial(backend).served_by(replies),
        replies.len() == 21,
    ensures
        RendererState::initial(backend).asked(replies) == setup_commands(
            replies[0].created().unwrap(),
            replies[2].created().unwrap(),
            replies[3].created().unwrap(),
            replies[8].created().unwrap(),
        ),
{
    let start = RendererState::initial(backend);
    let asked = start.asked(replies);
    let phase = |k: int| start.run(replies.take(k)).phase;
    assert(replies.take(0).len() == 0);
    assert(phase(0) == Phase::CreatingVertexArray);
    lemma_asked_is_pending(start, replies, 0);
    assert(phase(1) == Phase::BindingVertexArray);
    lemma_asked_is_pending(start, replies, 1);
    assert(phase(2) == Phase::CreatingProgram);
    lemma_asked_is_pending(start, replies, 2);
    assert(phase(3) == Phase::CreatingShader(ShaderStage::Vertex));
    lemma_asked_is_pending(start, replies, 3);
    assert(phase(4) == Phase::LoadingSource(ShaderStage::Vertex));
    lemma_asked_is_pending(start, replies, 4);
    assert(phase(5) == Phase::Compiling(ShaderStage::Vertex));
    lemma_asked_is_pending(start, replies, 5);
    assert(phase(6) == Phase::CheckingCompile(ShaderStage::Vertex));
    lemma_asked_is_pending(start, replies, 6);
    assert(phase(7) == Phase::Attaching(ShaderStage::Vertex));
    lemma_asked_is_pending(start, replies, 7);
    assert(phase(8) == Phase::CreatingShader(ShaderStage::Fragment));
    lemma_asked_is_pending(start, replies, 8);
    assert(phase(9) == Phase::LoadingSource(ShaderStage::Fragment));
    lemma_asked_is_pending(start, replies, 9);
    assert(phase(10) == Phase::Compiling(ShaderStage::Fragment));
    lemma_asked_is_pending(start, replies, 10);
    assert(phase(11) == Phase::CheckingCompile(ShaderStage::Fragment));
    lemma_asked_is_pending(start, replies, 11);
    assert(phase(12) == Phase::Attaching(ShaderStage::Fragment));
    lemma_asked_is_pending(start, replies, 12);
    assert(phase(13) == Phase::Linking);
    lemma_asked_is_pending(start, replies, 13);
    assert(phase(14) == Phase::CheckingLink);
    lemma_asked_is_pending(start, replies, 14);
    assert(phase(15) == Phase::Detaching(ShaderStage::Vertex));
    lemma_asked_is_pending(start, replies, 15);
    assert(phase(16) == Phase::Deleting(ShaderStage::Vertex));
    lemma_asked_is_pending(start, replies, 16);
    assert(phase(17) == Phase::Detaching(ShaderStage::Fragment));
    lemma_asked_is_pending(start, replies, 17);
    assert(phase(18) == Phase::Deleting(ShaderStage::Fragment));
    lemma_asked_is_pending(start, replies, 18);
    assert(phase(19) == Phase::Activating);
    lemma_asked_is_pending(start, replies, 19);
    assert(phase(20) == Phase::SettingClearColor);
    lemma_asked_is_pending(start, replies, 20);
    assert(asked =~= setup_commands(
        replies[0].created().unwrap(),
        replies[2].created().unwrap(),
        replies[3].created().unwrap(),
        replies[8].created().unwrap(),
    ));
}

} // verus!
