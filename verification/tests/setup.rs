use hello_triangle::{Backend, Command, OpenGLRenderer, Phase, Reply, SetupError, ShaderStage};

/// What the scripted driver does wrong, if anything.
#[derive(Clone, Copy, PartialEq)]
enum Fault {
    Nothing,
    RefuseVertexArray,
    RefuseProgram,
    RefuseShader(ShaderStage),
    BadCompile(ShaderStage),
    BadLink,
}

/// A driver that hands out handles 1, 2, 3, ... and keeps what it was asked.
struct Driver {
    fault: Fault,
    next_handle: u32,
    stages: Vec<(u32, ShaderStage)>,
    seen: Vec<Command>,
}

impl Driver {
    fn new(fault: Fault) -> Driver {
        Driver { fault, next_handle: 1, stages: Vec::new(), seen: Vec::new() }
    }

    fn fresh(&mut self) -> Reply {
        let handle = self.next_handle;
        self.next_handle += 1;
        Reply::Handle(handle)
    }

    fn stage_of(&self, shader: u32) -> ShaderStage {
        self.stages.iter().find(|(handle, _)| *handle == shader).unwrap().1
    }

    fn execute(&mut self, command: Command) -> Reply {
        self.seen.push(command);
        match command {
            Command::CreateVertexArray => {
                if self.fault == Fault::RefuseVertexArray {
                    Reply::Text(String::from("Unable to create VertexArray object"))
                } else {
                    self.fresh()
                }
            }
            Command::CreateProgram => {
                if self.fault == Fault::RefuseProgram {
                    Reply::Handle(0)
                } else {
                    self.fresh()
                }
            }
            Command::CreateShader { stage } => {
                if self.fault == Fault::RefuseShader(stage) {
                    Reply::Text(String::from("Unable to create Shader object"))
                } else {
                    let reply = self.fresh();
                    self.stages.push((self.next_handle - 1, stage));
                    reply
                }
            }
            Command::GetShaderCompileStatus { shader } => {
                Reply::Status(self.fault != Fault::BadCompile(self.stage_of(shader)))
            }
            Command::GetShaderInfoLog { .. } => {
                Reply::Text(String::from("0:3(1): error: syntax error, unexpected '}'"))
            }
            Command::GetProgramLinkStatus { .. } => Reply::Status(self.fault != Fault::BadLink),
            Command::GetProgramInfoLog { .. } => {
                Reply::Text(String::from("error: linking with uncompiled shader"))
            }
            _ => Reply::Done,
        }
    }
}

/// Leads `renderer` through set-up against `driver` and counts the commands.
fn initialize(renderer: &mut OpenGLRenderer, driver: &mut Driver) -> usize {
    let mut steps = 0;
    while let Some(command) = renderer.pending() {
        let reply = driver.execute(command);
        renderer.advance(reply);
        steps += 1;
        assert!(steps <= 64, "set-up does not end");
    }
    steps
}

fn script(vertex_array: u32, program: u32, vs: u32, fs: u32) -> Vec<Command> {
    vec![
        Command::CreateVertexArray,
        Command::BindVertexArray { vertex_array },
        Command::CreateProgram,
        Command::CreateShader { stage: ShaderStage::Vertex },
        Command::ShaderSource { shader: vs, stage: ShaderStage::Vertex },
        Command::CompileShader { shader: vs },
        Command::GetShaderCompileStatus { shader: vs },
        Command::AttachShader { program, shader: vs },
        Command::CreateShader { stage: ShaderStage::Fragment },
        Command::ShaderSource { shader: fs, stage: ShaderStage::Fragment },
        Command::CompileShader { shader: fs },
        Command::GetShaderCompileStatus { shader: fs },
        Command::AttachShader { program, shader: fs },
        Command::LinkProgram { program },
        Command::GetProgramLinkStatus { program },
        Command::DetachShader { program, shader: vs },
        Command::DeleteShader { shader: vs },
        Command::DetachShader { program, shader: fs },
        Command::DeleteShader { shader: fs },
        Command::UseProgram { program },
        Command::ClearColor { red_tenths: 1, green_tenths: 2, blue_tenths: 3, alpha_tenths: 10 },
    ]
}

#[test]
fn new_renderer_waits_for_its_vertex_array() {
    let renderer = OpenGLRenderer::new(Backend::Desktop);
    assert_eq!(renderer.backend(), Backend::Desktop);
    assert_eq!(renderer.phase(), Phase::CreatingVertexArray);
    assert_eq!(renderer.pending(), Some(Command::CreateVertexArray));
    assert!(!renderer.is_ready());
    assert_eq!(renderer.failure(), None);
    assert_eq!(renderer.vertex_array(), None);
    assert_eq!(renderer.program(), None);
}

#[test]
fn served_setup_ends_ready_with_handles() {
    for backend in [Backend::Desktop, Backend::Browser] {
        let mut renderer = OpenGLRenderer::new(backend);
        let mut driver = Driver::new(Fault::Nothing);
        let steps = initialize(&mut renderer, &mut driver);
        assert_eq!(steps, 21);
        assert!(renderer.is_ready());
        assert_eq!(renderer.phase(), Phase::Ready);
        assert_eq!(renderer.pending(), None);
        assert_eq!(renderer.failure(), None);
        assert_eq!(renderer.vertex_array(), Some(1));
        assert_eq!(renderer.program(), Some(2));
        assert_eq!(renderer.backend(), backend);
    }
}

#[test]
fn setup_asks_the_driver_in_order() {
    let mut renderer = OpenGLRenderer::new(Backend::Desktop);
    let mut driver = Driver::new(Fault::Nothing);
    initialize(&mut renderer, &mut driver);
    assert_eq!(driver.seen, script(1, 2, 3, 4));
}

#[test]
fn setup_uses_the_handles_the_driver_gave() {
    let mut renderer = OpenGLRenderer::new(Backend::Browser);
    let mut driver = Driver::new(Fault::Nothing);
    driver.next_handle = 4_000_000_000;
    initialize(&mut renderer, &mut driver);
    assert_eq!(
        driver.seen,
        script(4_000_000_000, 4_000_000_001, 4_000_000_002, 4_000_000_003)
    );
    assert_eq!(renderer.vertex_array(), Some(4_000_000_000));
    assert_eq!(renderer.program(), Some(4_000_000_001));
}

#[test]
fn vertex_shader_that_does_not_compile_aborts() {
    let mut renderer = OpenGLRenderer::new(Backend::Desktop);
    let mut driver = Driver::new(Fault::BadCompile(ShaderStage::Vertex));
    let steps = initialize(&mut renderer, &mut driver);
    assert_eq!(steps, 8);
    assert!(!renderer.is_ready());
    assert_eq!(renderer.phase(), Phase::Aborted);
    assert_eq!(driver.seen[..7], script(1, 2, 3, 0)[..7]);
    assert_eq!(driver.seen[7], Command::GetShaderInfoLog { shader: 3 });
    let log = String::from("0:3(1): error: syntax error, unexpected '}'");
    assert_eq!(
        renderer.failure(),
        Some(&SetupError::ShaderCompilation { stage: ShaderStage::Vertex, log: log.clone() })
    );
    assert_eq!(renderer.failure().unwrap().message(), log);
}

#[test]
fn fragment_shader_that_does_not_compile_aborts() {
    let mut renderer = OpenGLRenderer::new(Backend::Desktop);
    let mut driver = Driver::new(Fault::BadCompile(ShaderStage::Fragment));
    let steps = initialize(&mut renderer, &mut driver);
    assert_eq!(steps, 13);
    assert!(!renderer.is_ready());
    assert_eq!(driver.seen[..12], script(1, 2, 3, 4)[..12]);
    assert_eq!(driver.seen[12], Command::GetShaderInfoLog { shader: 4 });
    assert_eq!(
        renderer.failure(),
        Some(&SetupError::ShaderCompilation {
            stage: ShaderStage::Fragment,
            log: String::from("0:3(1): error: syntax error, unexpected '}'"),
        })
    );
}

#[test]
fn program_that_does_not_link_aborts() {
    let mut renderer = OpenGLRenderer::new(Backend::Desktop);
    let mut driver = Driver::new(Fault::BadLink);
    let steps = initialize(&mut renderer, &mut driver);
    assert_eq!(steps, 16);
    assert!(!renderer.is_ready());
    assert_eq!(driver.seen[..15], script(1, 2, 3, 4)[..15]);
    assert_eq!(driver.seen[15], Command::GetProgramInfoLog { program: 2 });
    let log = String::from("error: linking with uncompiled shader");
    assert_eq!(renderer.failure(), Some(&SetupError::ProgramLinking { log: log.clone() }));
    assert_eq!(renderer.failure().unwrap().message(), log);
}

#[test]
fn refused_vertex_array_aborts() {
    let mut renderer = OpenGLRenderer::new(Backend::Desktop);
    let mut driver = Driver::new(Fault::RefuseVertexArray);
    let steps = initialize(&mut renderer, &mut driver);
    assert_eq!(steps, 1);
    assert_eq!(renderer.phase(), Phase::Aborted);
    assert_eq!(renderer.failure(), Some(&SetupError::VertexArrayCreation));
    assert_eq!(renderer.failure().unwrap().message(), "Cannot create vertex array");
    assert_eq!(renderer.vertex_array(), None);
}

#[test]
fn refused_program_aborts() {
    let mut renderer = OpenGLRenderer::new(Backend::Desktop);
    let mut driver = Driver::new(Fault::RefuseProgram);
    let steps = initialize(&mut renderer, &mut driver);
    assert_eq!(steps, 3);
    assert_eq!(renderer.failure(), Some(&SetupError::ProgramCreation));
    assert_eq!(renderer.failure().unwrap().message(), "Cannot create program");
    assert_eq!(renderer.program(), None);
}

#[test]
fn refused_shader_aborts() {
    for (stage, steps_taken) in [(ShaderStage::Vertex, 4), (ShaderStage::Fragment, 9)] {
        let mut renderer = OpenGLRenderer::new(Backend::Desktop);
        let mut driver = Driver::new(Fault::RefuseShader(stage));
        let steps = initialize(&mut renderer, &mut driver);
        assert_eq!(steps, steps_taken);
        assert_eq!(renderer.failure(), Some(&SetupError::ShaderCreation { stage }));
        assert_eq!(renderer.failure().unwrap().message(), "Cannot create shader");
    }
}

#[test]
fn aborted_renderer_ignores_later_replies() {
    let mut renderer = OpenGLRenderer::new(Backend::Desktop);
    let mut driver = Driver::new(Fault::BadLink);
    initialize(&mut renderer, &mut driver);
    for reply in [Reply::Done, Reply::Handle(9), Reply::Status(true), Reply::Text(String::new())] {
        renderer.advance(reply);
        assert_eq!(renderer.phase(), Phase::Aborted);
        assert!(!renderer.is_ready());
        assert_eq!(renderer.pending(), None);
    }
    assert_eq!(
        renderer.failure(),
        Some(&SetupError::ProgramLinking {
            log: String::from("error: linking with uncompiled shader"),
        })
    );
}

#[test]
fn ready_renderer_ignores_later_replies() {
    let mut renderer = OpenGLRenderer::new(Backend::Desktop);
    let mut driver = Driver::new(Fault::Nothing);
    initialize(&mut renderer, &mut driver);
    renderer.advance(Reply::Status(false));
    renderer.advance(Reply::Handle(77));
    assert!(renderer.is_ready());
    assert_eq!(renderer.vertex_array(), Some(1));
    assert_eq!(renderer.program(), Some(2));
}

#[test]
fn reply_of_the_wrong_kind_counts_as_failure() {
    // A status where a handle is awaited announces no object.
    let mut renderer = OpenGLRenderer::new(Backend::Desktop);
    renderer.advance(Reply::Status(true));
    assert_eq!(renderer.failure(), Some(&SetupError::VertexArrayCreation));

    // Anything but a success status makes the renderer ask for the log, and a log
    // reply without text leaves the message empty.
    let mut renderer = OpenGLRenderer::new(Backend::Desktop);
    for reply in [Reply::Handle(1), Reply::Done, Reply::Handle(2), Reply::Handle(3)] {
        renderer.advance(reply);
    }
    renderer.advance(Reply::Done);
    renderer.advance(Reply::Done);
    assert_eq!(renderer.pending(), Some(Command::GetShaderCompileStatus { shader: 3 }));
    renderer.advance(Reply::Handle(1));
    assert_eq!(renderer.pending(), Some(Command::GetShaderInfoLog { shader: 3 }));
    renderer.advance(Reply::Done);
    assert_eq!(
        renderer.failure(),
        Some(&SetupError::ShaderCompilation { stage: ShaderStage::Vertex, log: String::new() })
    );
    assert_eq!(renderer.failure().unwrap().message(), "");
}

#[test]
fn commands_without_result_accept_any_reply() {
    let mut renderer = OpenGLRenderer::new(Backend::Desktop);
    renderer.advance(Reply::Handle(5));
    assert_eq!(renderer.pending(), Some(Command::BindVertexArray { vertex_array: 5 }));
    renderer.advance(Reply::Text(String::from("ignored")));
    assert_eq!(renderer.pending(), Some(Command::CreateProgram));
    assert_eq!(renderer.phase(), Phase::CreatingProgram);
}

#[test]
fn handles_appear_and_disappear_with_their_objects() {
    let mut renderer = OpenGLRenderer::new(Backend::Desktop);
    assert_eq!(renderer.vertex_array(), None);
    renderer.advance(Reply::Handle(8));
    assert_eq!(renderer.vertex_array(), Some(8));
    assert_eq!(renderer.program(), None);
    renderer.advance(Reply::Done);
    assert_eq!(renderer.program(), None);
    renderer.advance(Reply::Handle(6));
    assert_eq!(renderer.program(), Some(6));
    assert_eq!(renderer.phase(), Phase::CreatingShader(ShaderStage::Vertex));
}
