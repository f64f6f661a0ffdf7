use vstd::prelude::*;

use crate::device::{Command, Reply, StageKind, TexParam, TexValue};
use crate::error::SetupError;

verus! {

/// The text a failure carries: the device's log, or a fixed note when the
/// device reported nothing, so a diagnostic is never empty.
pub fn diagnostic(log: String) -> (r: String)
    ensures
        log@.len() > 0 ==> r@ == log@,
        r@.len() > 0,
{
    if log.as_str().is_empty() {
        proof {
            reveal_strlit("the device reported no diagnostic");
        }
        "the device reported no diagnostic".to_owned()
    } else {
        log
    }
}

/// One compiled shader stage on the device.
#[derive(Clone, Copy, Debug)]
pub struct Shader {
    id: u32,
    kind: StageKind,
}

impl Shader {
    pub closed spec fn spec_id(&self) -> u32 {
        self.id
    }

    pub closed spec fn spec_kind(&self) -> StageKind {
        self.kind
    }

    pub fn id(&self) -> (r: u32)
        ensures
            r == self.spec_id(),
    {
        self.id
    }

    pub fn kind(&self) -> (r: StageKind)
        ensures
            r == self.spec_kind(),
    {
        self.kind
    }

    /// Judges a stage of `kind` that the device created as `id` and compiled,
    /// reporting `compiled` and `log`.
    pub fn from_source(kind: StageKind, id: u32, compiled: bool, log: String) -> (r: Result<
        Shader,
        SetupError,
    >)
        ensures
            id == 0 ==> r matches Err(SetupError::DeviceAllocation),
            id != 0 && compiled ==> (r matches Ok(s) && s.spec_id() == id && s.spec_kind() == kind),
            id != 0 && !compiled ==> (r matches Err(SetupError::Compile { stage, diagnostic }) && stage
                == kind && diagnostic@.len() > 0 && (log@.len() > 0 ==> diagnostic@ == log@)),
    {
        if id == 0 {
            Err(SetupError::DeviceAllocation)
        } else if !compiled {
            Err(SetupError::Compile { stage: kind, diagnostic: diagnostic(log) })
        } else {
            Ok(Shader { id, kind })
        }
    }

    /// `from_source` for a vertex stage.
    pub fn from_vert_source(id: u32, compiled: bool, log: String) -> (r: Result<Shader, SetupError>)
        ensures
            id == 0 ==> r matches Err(SetupError::DeviceAllocation),
            id != 0 && compiled ==> (r matches Ok(s) && s.spec_id() == id && s.spec_kind()
                == StageKind::Vertex),
            id != 0 && !compiled ==> (r matches Err(SetupError::Compile { stage, diagnostic }) && stage
                == StageKind::Vertex && diagnostic@.len() > 0 && (log@.len() > 0 ==> diagnostic@
                == log@)),
    {
        Shader::from_source(StageKind::Vertex, id, compiled, log)
    }

    /// `from_source` for a fragment stage.
    pub fn from_frag_source(id: u32, compiled: bool, log: String) -> (r: Result<Shader, SetupError>)
        ensures
            id == 0 ==> r matches Err(SetupError::DeviceAllocation),
            id != 0 && compiled ==> (r matches Ok(s) && s.spec_id() == id && s.spec_kind()
                == StageKind::Fragment),
            id != 0 && !compiled ==> (r matches Err(SetupError::Compile { stage, diagnostic }) && stage
                == StageKind::Fragment && diagnostic@.len() > 0 && (log@.len() > 0 ==> diagnostic@
                == log@)),
    {
        Shader::from_source(StageKind::Fragment, id, compiled, log)
    }
}

/// A linked program. The only way to obtain one is a `ShaderBuild` that saw
/// the device report a successful link, so its handle is never zero.
#[derive(Debug)]
pub struct ShaderPipe {
    prog_id: u32,
}

impl View for ShaderPipe {
    type V = u32;

    closed spec fn view(&self) -> u32 {
        self.prog_id
    }
}

impl ShaderPipe {
    #[verifier::type_invariant]
    spec fn wf(&self) -> bool {
        self.prog_id != 0
    }

    /// The program handle.
    pub fn prog_id(&self) -> (r: u32)
        ensures
            r == self@,
            r != 0,
    {
        proof {
            use_type_invariant(self);
        }
        self.prog_id
    }

    /// Starts building a program from a vertex and a fragment source. The
    /// returned plan creates the vertex stage; its answer goes to `step`.
    pub fn construct(vertex_source: String, fragment_source: String) -> (r: (ShaderBuild, Vec<Command>))
        ensures
            r.0.phase == BuildPhase::VertexHandle,
            r.0.vertex_source@ == vertex_source@,
            r.0.fragment_source@ == fragment_source@,
            r.1@ == seq![Command::CreateShader { kind: StageKind::Vertex }],
    {
        let build = ShaderBuild { vertex_source, fragment_source, phase: BuildPhase::VertexHandle };
        (build, vec![Command::CreateShader { kind: StageKind::Vertex }])
    }

    /// Makes this program the current one. Safe to issue repeatedly.
    pub fn activate(&self) -> (r: Command)
        ensures
            r == (Command::UseProgram { program: self@ }),
    {
        Command::UseProgram { program: self.prog_id }
    }

    /// Points the sampler uniform found at `location` at texture `unit`. A
    /// negative location means the program has no such uniform: nothing is done.
    pub fn set_sampler(&self, location: i32, unit: u32) -> (r: Vec<Command>)
        ensures
            location < 0 ==> r@ == Seq::<Command>::empty(),
            location >= 0 ==> r@ == seq![
                Command::UseProgram { program: self@ },
                Command::SetSampler { location, unit },
            ],
    {
        if location < 0 {
            Vec::new()
        } else {
            vec![self.activate(), Command::SetSampler { location, unit }]
        }
    }

    /// The fixed sampling policy for the bound texture: repeat on both axes,
    /// trilinear minification, linear magnification.
    pub fn configure_textures() -> (r: Vec<Command>)
        ensures
            r@ == sampling_policy(),
    {
        vec![
            Command::TexParameter { param: TexParam::WrapS, value: TexValue::Repeat },
            Command::TexParameter { param: TexParam::WrapT, value: TexValue::Repeat },
            Command::TexParameter { param: TexParam::MinFilter, value: TexValue::LinearMipmapLinear },
            Command::TexParameter { param: TexParam::MagFilter, value: TexValue::Linear },
        ]
    }

    /// Releases the program handle.
    pub fn release(&self) -> (r: Command)
        ensures
            r == (Command::DeleteProgram { program: self@ }),
    {
        Command::DeleteProgram { program: self.prog_id }
    }
}

/// The texture parameters every texture is given.
pub open spec fn sampling_policy() -> Seq<Command> {
    seq![
        Command::TexParameter { param: TexParam::WrapS, value: TexValue::Repeat },
        Command::TexParameter { param: TexParam::WrapT, value: TexValue::Repeat },
        Command::TexParameter { param: TexParam::MinFilter, value: TexValue::LinearMipmapLinear },
        Command::TexParameter { param: TexParam::MagFilter, value: TexValue::Linear },
    ]
}

/// Where a program build stands: what the device's next answer is about.
#[derive(PartialEq, Eq, Structural, Clone, Copy, Debug)]
pub enum BuildPhase {
    /// Waiting for the vertex stage's handle.
    VertexHandle,
    /// Waiting for the vertex stage's compile status.
    VertexStatus { vertex: u32 },
    /// Waiting for the fragment stage's handle.
    FragmentHandle { vertex: u32 },
    /// Waiting for the fragment stage's compile status.
    FragmentStatus { vertex: u32, fragment: u32 },
    /// Waiting for the program's handle.
    ProgramHandle { vertex: u32, fragment: u32 },
    /// Waiting for the link status, read back from the device after linking.
    LinkStatus { vertex: u32, fragment: u32, program: u32 },
}

impl BuildPhase {
    /// Every handle the phase holds is one the device really allocated.
    pub open spec fn handles_live(self) -> bool {
        match self {
            BuildPhase::VertexHandle => true,
            BuildPhase::VertexStatus { vertex } => vertex != 0,
            BuildPhase::FragmentHandle { vertex } => vertex != 0,
            BuildPhase::FragmentStatus { vertex, fragment } => vertex != 0 && fragment != 0,
            BuildPhase::ProgramHandle { vertex, fragment } => vertex != 0 && fragment != 0,
            BuildPhase::LinkStatus { vertex, fragment, program } => vertex != 0 && fragment != 0
                && program != 0,
        }
    }

    /// The phases answered by a handle rather than a status.
    pub open spec fn awaits_handle(self) -> bool {
        self is VertexHandle || self is FragmentHandle || self is ProgramHandle
    }
}

/// A program build in progress.
pub struct ShaderBuild {
    pub vertex_source: String,
    pub fragment_source: String,
    pub phase: BuildPhase,
}

/// What one answer from the device leads to.
pub enum BuildProgress {
    /// The build goes on and waits for the answer to the plan's last command.
    Pending(ShaderBuild),
    /// The build is over.
    Done(Result<ShaderPipe, SetupError>),
}

/// The plan that follows answer `reply` in `phase`.
pub open spec fn next_commands(phase: BuildPhase, reply: Reply) -> Seq<Command> {
    match (phase, reply) {
        (BuildPhase::VertexHandle, Reply::Handle(v)) => if v == 0 {
            seq![]
        } else {
            seq![
                Command::CompileShader { shader: v, kind: StageKind::Vertex },
                Command::QueryCompileStatus { shader: v },
            ]
        },
        (BuildPhase::VertexStatus { vertex }, Reply::Status { ok, .. }) => if ok {
            seq![Command::CreateShader { kind: StageKind::Fragment }]
        } else {
            seq![Command::DeleteShader { shader: vertex }]
        },
        (BuildPhase::FragmentHandle { vertex }, Reply::Handle(f)) => if f == 0 {
            seq![Command::DeleteShader { shader: vertex }]
        } else {
            seq![
                Command::CompileShader { shader: f, kind: StageKind::Fragment },
                Command::QueryCompileStatus { shader: f },
            ]
        },
        (BuildPhase::FragmentStatus { vertex, fragment }, Reply::Status { ok, .. }) => if ok {
            seq![Command::CreateProgram]
        } else {
            seq![Command::DeleteShader { shader: fragment }, Command::DeleteShader { shader: vertex }]
        },
        (BuildPhase::ProgramHandle { vertex, fragment }, Reply::Handle(p)) => if p == 0 {
            seq![Command::DeleteShader { shader: fragment }, Command::DeleteShader { shader: vertex }]
        } else {
            seq![
                Command::AttachShader { program: p, shader: vertex },
                Command::AttachShader { program: p, shader: fragment },
                Command::LinkProgram { program: p },
                Command::QueryLinkStatus { program: p },
            ]
        },
        (BuildPhase::LinkStatus { vertex, fragment, program }, Reply::Status { ok, .. }) => {
            let release = seq![
                Command::DetachShader { program, shader: vertex },
                Command::DetachShader { program, shader: fragment },
                Command::DeleteShader { shader: vertex },
                Command::DeleteShader { shader: fragment },
            ];
            if ok {
                release
            } else {
                release.push(Command::DeleteProgram { program })
            }
        },
        _ => seq![],
    }
}

/// The phase that follows answer `reply` in `phase`, or `None` when the build
/// is over.
pub open spec fn next_phase(phase: BuildPhase, reply: Reply) -> Option<BuildPhase> {
    match (phase, reply) {
        (BuildPhase::VertexHandle, Reply::Handle(v)) => if v == 0 {
            None
        } else {
            Some(BuildPhase::VertexStatus { vertex: v })
        },
        (BuildPhase::VertexStatus { vertex }, Reply::Status { ok, .. }) => if ok {
            Some(BuildPhase::FragmentHandle { vertex })
        } else {
            None
        },
        (BuildPhase::FragmentHandle { vertex }, Reply::Handle(f)) => if f == 0 {
            None
        } else {
            Some(BuildPhase::FragmentStatus { vertex, fragment: f })
        },
        (BuildPhase::FragmentStatus { vertex, fragment }, Reply::Status { ok, .. }) => if ok {
            Some(BuildPhase::ProgramHandle { vertex, fragment })
        } else {
            None
        },
        (BuildPhase::ProgramHandle { vertex, fragment }, Reply::Handle(p)) => if p == 0 {
            None
        } else {
            Some(BuildPhase::LinkStatus { vertex, fragment, program: p })
        },
        _ => None,
    }
}

/// The error a finished build reports, when `reply` in `phase` ends it
/// unsuccessfully: a zero handle is an allocation failure, a failed status
/// names the stage (or the link) and carries the device's log.
pub open spec fn failure_matches(phase: BuildPhase, reply: Reply, e: SetupError) -> bool {
    match reply {
        Reply::Handle(_) => e is DeviceAllocation,
        Reply::Status { log, .. } => {
            &&& match phase {
                BuildPhase::VertexStatus { .. } => e matches SetupError::Compile { stage, .. } && stage
                    == StageKind::Vertex,
                BuildPhase::FragmentStatus { .. } => e matches SetupError::Compile { stage, .. }
                    && stage == StageKind::Fragment,
                _ => e is Link,
            }
            &&& e matches SetupError::Compile { diagnostic, .. } ==> diagnostic@.len() > 0 && (
            log@.len() > 0 ==> diagnostic@ == log@)
            &&& e matches SetupError::Link { diagnostic } ==> diagnostic@.len() > 0 && (log@.len() > 0
                ==> diagnostic@ == log@)
        },
    }
}

/// When the device allocates every handle, reports both stages compiled and
/// the program linked, the build passes through every phase in turn and
/// reaches the link-status query with live handles: the one place where a
/// successful status, read back from the device, yields the program.
pub proof fn lemma_clean_build(v: u32, f: u32, p: u32, vertex_log: String, fragment_log: String)
    requires
        v != 0,
        f != 0,
        p != 0,
    ensures
        next_phase(BuildPhase::VertexHandle, Reply::Handle(v)) == Some(BuildPhase::VertexStatus { vertex: v }),
        next_phase(BuildPhase::VertexStatus { vertex: v }, Reply::Status { ok: true, log: vertex_log })
            == Some(BuildPhase::FragmentHandle { vertex: v }),
        next_phase(BuildPhase::FragmentHandle { vertex: v }, Reply::Handle(f)) == Some(
            BuildPhase::FragmentStatus { vertex: v, fragment: f },
        ),
        next_phase(
            BuildPhase::FragmentStatus { vertex: v, fragment: f },
            Reply::Status { ok: true, log: fragment_log },
        ) == Some(BuildPhase::ProgramHandle { vertex: v, fragment: f }),
        next_phase(BuildPhase::ProgramHandle { vertex: v, fragment: f }, Reply::Handle(p)) == Some(
            BuildPhase::LinkStatus { vertex: v, fragment: f, program: p },
        ),
        (BuildPhase::LinkStatus { vertex: v, fragment: f, program: p }).handles_live(),
{
}

impl ShaderBuild {
    /// The build holds only live handles and `reply` is the kind of answer
    /// its phase waits for.
    pub open spec fn accepts_spec(&self, reply: Reply) -> bool {
        &&& self.phase.handles_live()
        &&& self.phase.awaits_handle() == (reply is Handle)
    }

    pub fn accepts(&self, reply: &Reply) -> (r: bool)
        ensures
            r == self.accepts_spec(*reply),
    {
        let (awaits_handle, live) = match self.phase {
            BuildPhase::VertexHandle => (true, true),
            BuildPhase::VertexStatus { vertex } => (false, vertex != 0),
            BuildPhase::FragmentHandle { vertex } => (true, vertex != 0),
            BuildPhase::FragmentStatus { vertex, fragment } => (false, vertex != 0 && fragment != 0),
            BuildPhase::ProgramHandle { vertex, fragment } => (true, vertex != 0 && fragment != 0),
            BuildPhase::LinkStatus { vertex, fragment, program } => (
                false,
                vertex != 0 && fragment != 0 && program != 0,
            ),
        };
        if !live {
            return false;
        }
        match reply {
            Reply::Handle(_) => awaits_handle,
            Reply::Status { .. } => !awaits_handle,
        }
    }

    /// The source text of the stage `kind`.
    pub fn source(&self, kind: StageKind) -> (r: &String)
        ensures
            kind == StageKind::Vertex ==> r@ == self.vertex_source@,
            kind == StageKind::Fragment ==> r@ == self.fragment_source@,
    {
        match kind {
            StageKind::Vertex => &self.vertex_source,
            StageKind::Fragment => &self.fragment_source,
        }
    }

    /// Takes the device's answer to the last command of the previous plan and
    /// returns the next plan with where the build now stands. Stage handles are
    /// released on every way out; the program is only ever reported linked when
    /// the link status read back from the device says so.
    pub fn step(self, reply: Reply) -> (r: (Vec<Command>, BuildProgress))
        requires
            self.accepts_spec(reply),
        ensures
            r.0@ == next_commands(self.phase, reply),
            next_phase(self.phase, reply) matches Some(p) ==> (r.1 matches BuildProgress::Pending(b) && b.phase
                == p && b.vertex_source@ == self.vertex_source@ && b.fragment_source@
                == self.fragment_source@ && b.phase.handles_live()),
            (r.1 is Done && r.1->Done_0 is Ok) <==> (self.phase is LinkStatus
                && reply is Status && reply->ok),
            r.1 matches BuildProgress::Done(Ok(pipe)) ==> pipe@ == self.phase->program,
            next_phase(self.phase, reply) is None ==> r.1 is Done,
            r.1 matches BuildProgress::Done(Err(e)) ==> failure_matches(self.phase, reply, e),
    {
        let ShaderBuild { vertex_source, fragment_source, phase } = self;
        match (phase, reply) {
            (BuildPhase::VertexHandle, Reply::Handle(v)) => {
                if v == 0 {
                    (Vec::new(), BuildProgress::Done(Err(SetupError::DeviceAllocation)))
                } else {
                    let cmds = vec![
                        Command::CompileShader { shader: v, kind: StageKind::Vertex },
                        Command::QueryCompileStatus { shader: v },
                    ];
                    let next = BuildPhase::VertexStatus { vertex: v };
                    (cmds, BuildProgress::Pending(ShaderBuild { vertex_source, fragment_source, phase: next }))
                }
            },
            (BuildPhase::VertexStatus { vertex }, Reply::Status { ok, log }) => {
                match Shader::from_vert_source(vertex, ok, log) {
                    Ok(_) => {
                        let next = BuildPhase::FragmentHandle { vertex };
                        (
                            vec![Command::CreateShader { kind: StageKind::Fragment }],
                            BuildProgress::Pending(ShaderBuild { vertex_source, fragment_source, phase: next }),
                        )
                    },
                    Err(e) => (vec![Command::DeleteShader { shader: vertex }], BuildProgress::Done(Err(e))),
                }
            },
            (BuildPhase::FragmentHandle { vertex }, Reply::Handle(f)) => {
                if f == 0 {
                    (
                        vec![Command::DeleteShader { shader: vertex }],
                        BuildProgress::Done(Err(SetupError::DeviceAllocation)),
                    )
                } else {
                    let cmds = vec![
                        Command::CompileShader { shader: f, kind: StageKind::Fragment },
                        Command::QueryCompileStatus { shader: f },
                    ];
                    let next = BuildPhase::FragmentStatus { vertex, fragment: f };
                    (cmds, BuildProgress::Pending(ShaderBuild { vertex_source, fragment_source, phase: next }))
                }
            },
            (BuildPhase::FragmentStatus { vertex, fragment }, Reply::Status { ok, log }) => {
                match Shader::from_frag_source(fragment, ok, log) {
                    Ok(_) => {
                        let next = BuildPhase::ProgramHandle { vertex, fragment };
                        (
                            vec![Command::CreateProgram],
                            BuildProgress::Pending(ShaderBuild { vertex_source, fragment_source, phase: next }),
                        )
                    },
                    Err(e) => (
                        vec![Command::DeleteShader { shader: fragment }, Command::DeleteShader { shader: vertex }],
                        BuildProgress::Done(Err(e)),
                    ),
                }
            },
            (BuildPhase::ProgramHandle { vertex, fragment }, Reply::Handle(p)) => {
                if p == 0 {
                    (
                        vec![Command::DeleteShader { shader: fragment }, Command::DeleteShader { shader: vertex }],
                        BuildProgress::Done(Err(SetupError::DeviceAllocation)),
                    )
                } else {
                    let cmds = vec![
                        Command::AttachShader { program: p, shader: vertex },
                        Command::AttachShader { program: p, shader: fragment },
                        Command::LinkProgram { program: p },
                        Command::QueryLinkStatus { program: p },
                    ];
                    let next = BuildPhase::LinkStatus { vertex, fragment, program: p };
                    (cmds, BuildProgress::Pending(ShaderBuild { vertex_source, fragment_source, phase: next }))
                }
            },
            (BuildPhase::LinkStatus { vertex, fragment, program }, Reply::Status { ok, log }) => {
                let mut cmds = vec![
                    Command::DetachShader { program, shader: vertex },
                    Command::DetachShader { program, shader: fragment },
                    Command::DeleteShader { shader: vertex },
                    Command::DeleteShader { shader: fragment },
                ];
                if ok {
                    (cmds, BuildProgress::Done(Ok(ShaderPipe { prog_id: program })))
                } else {
                    cmds.push(Command::DeleteProgram { program });
                    (cmds, BuildProgress::Done(Err(SetupError::Link { diagnostic: diagnostic(log) })))
                }
            },
            // `accepts_spec` pairs each phase with the kind of reply it waits for.
            _ => (Vec::new(), BuildProgress::Done(Err(SetupError::DeviceAllocation))),
        }
    }
}

} // verus!
