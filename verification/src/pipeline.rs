use crate::error::RenderError;
use crate::shader::ShaderKind;
use vstd::prelude::*;

verus! {

/// Where the building of the graphics pipeline stands.
#[derive(Clone, Copy, Debug, PartialEq, Eq, Structural)]
pub enum BuildPhase {
    /// The vertex shader is being compiled.
    CompileVertex,
    /// The fragment shader is being compiled.
    CompileFragment,
    /// The module of the vertex shader is being created.
    CreateVertexModule,
    /// The module of the fragment shader is being created.
    CreateFragmentModule,
    /// The pipeline is being created from both modules.
    CreatePipeline,
    /// The module of the vertex shader is being destroyed.
    DestroyVertexModule,
    /// The module of the fragment shader is being destroyed.
    DestroyFragmentModule,
    /// The pipeline exists and no module is left.
    Finished,
    /// No pipeline exists and no module is left.
    Failed,
}

/// How the step that was asked for went.
#[derive(Debug, PartialEq, Eq)]
pub enum BuildEvent {
    /// It was carried out.
    Done,
    /// It failed with this error.
    Failed(RenderError),
}

/// The step to take next.
#[derive(Debug, PartialEq, Eq)]
pub enum BuildAction {
    /// Compile the source of this stage.
    CompileShader(ShaderKind),
    /// Create the shader module of this stage from its compiled words.
    CreateShaderModule(ShaderKind),
    /// Create the graphics pipeline from the two modules.
    CreatePipeline,
    /// Destroy the shader module of this stage.
    DestroyShaderModule(ShaderKind),
    /// The pipeline is ready.
    Finish,
    /// There is no pipeline; this is why.
    Fail(RenderError),
    /// Nothing: the build is over.
    Nothing,
}

/// The building of one graphics pipeline from a vertex and a fragment shader.
#[derive(Debug, PartialEq, Eq)]
pub struct PipelineBuild {
    /// The step that is under way.
    pub phase: BuildPhase,
    /// The module of the vertex shader exists.
    pub vertex_module: bool,
    /// The module of the fragment shader exists.
    pub fragment_module: bool,
    /// The pipeline exists.
    pub pipeline: bool,
    /// The error to report once the modules are gone.
    pub error: Option<RenderError>,
}

impl PipelineBuild {
    /// The build as it starts: nothing exists, the vertex shader is being compiled.
    pub open spec fn initial() -> PipelineBuild {
        PipelineBuild {
            phase: BuildPhase::CompileVertex,
            vertex_module: false,
            fragment_module: false,
            pipeline: false,
            error: None,
        }
    }

    /// What exists is what the phase says: modules only between their
    /// creation and their destruction, the pipeline only once it was
    /// created, and either the pipeline or an error while the modules go.
    pub open spec fn wf(self) -> bool {
        match self.phase {
            BuildPhase::CompileVertex | BuildPhase::CompileFragment | BuildPhase::CreateVertexModule => {
                !self.vertex_module && !self.fragment_module && !self.pipeline && self.error is None
            },
            BuildPhase::CreateFragmentModule => {
                self.vertex_module && !self.fragment_module && !self.pipeline && self.error is None
            },
            BuildPhase::CreatePipeline => {
                self.vertex_module && self.fragment_module && !self.pipeline && self.error is None
            },
            BuildPhase::DestroyVertexModule => {
                self.vertex_module && (self.pipeline <==> self.error is None) && (self.pipeline
                    ==> self.fragment_module)
            },
            BuildPhase::DestroyFragmentModule => {
                !self.vertex_module && self.fragment_module && (self.pipeline <==> self.error is None)
            },
            BuildPhase::Finished => {
                !self.vertex_module && !self.fragment_module && self.pipeline && self.error is None
            },
            BuildPhase::Failed => {
                !self.vertex_module && !self.fragment_module && !self.pipeline && self.error is None
            },
        }
    }

    /// The build is over.
    pub open spec fn over(self) -> bool {
        self.phase is Finished || self.phase is Failed
    }

    /// Whether the module of `kind` exists.
    pub open spec fn has_module(self, kind: ShaderKind) -> bool {
        match kind {
            ShaderKind::Vertex => self.vertex_module,
            ShaderKind::Fragment => self.fragment_module,
        }
    }

    /// Both modules are gone: report the pipeline, or the error that was kept.
    pub open spec fn conclude(self) -> (PipelineBuild, BuildAction) {
        match self.error {
            None => (PipelineBuild { phase: BuildPhase::Finished, ..self }, BuildAction::Finish),
            Some(error) => (
                PipelineBuild { phase: BuildPhase::Failed, error: None, ..self },
                BuildAction::Fail(error),
            ),
        }
    }

    /// Get rid of the modules that exist, the vertex shader's first, then conclude.
    pub open spec fn unwind(self) -> (PipelineBuild, BuildAction) {
        if self.vertex_module {
            (
                PipelineBuild { phase: BuildPhase::DestroyVertexModule, ..self },
                BuildAction::DestroyShaderModule(ShaderKind::Vertex),
            )
        } else if self.fragment_module {
            (
                PipelineBuild { phase: BuildPhase::DestroyFragmentModule, ..self },
                BuildAction::DestroyShaderModule(ShaderKind::Fragment),
            )
        } else {
            self.conclude()
        }
    }

    /// The state after `event` and the step to take next.
    ///
    /// Both shaders are compiled before anything is created, so that a
    /// rejected shader leaves nothing behind. A failure after that keeps
    /// its error until the modules created so far are destroyed. The
    /// destruction of a module cannot fail: whatever is reported of it, the
    /// module is gone.
    pub open spec fn react(self, event: BuildEvent) -> (PipelineBuild, BuildAction) {
        match self.phase {
            BuildPhase::CompileVertex => match event {
                BuildEvent::Done => (
                    PipelineBuild { phase: BuildPhase::CompileFragment, ..self },
                    BuildAction::CompileShader(ShaderKind::Fragment),
                ),
                BuildEvent::Failed(error) => (PipelineBuild { error: Some(error), ..self }).unwind(),
            },
            BuildPhase::CompileFragment => match event {
                BuildEvent::Done => (
                    PipelineBuild { phase: BuildPhase::CreateVertexModule, ..self },
                    BuildAction::CreateShaderModule(ShaderKind::Vertex),
                ),
                BuildEvent::Failed(error) => (PipelineBuild { error: Some(error), ..self }).unwind(),
            },
            BuildPhase::CreateVertexModule => match event {
                BuildEvent::Done => (
                    PipelineBuild {
                        phase: BuildPhase::CreateFragmentModule,
                        vertex_module: true,
                        ..self
                    },
                    BuildAction::CreateShaderModule(ShaderKind::Fragment),
                ),
                BuildEvent::Failed(error) => (PipelineBuild { error: Some(error), ..self }).unwind(),
            },
            BuildPhase::CreateFragmentModule => match event {
                BuildEvent::Done => (
                    PipelineBuild { phase: BuildPhase::CreatePipeline, fragment_module: true, ..self },
                    BuildAction::CreatePipeline,
                ),
                BuildEvent::Failed(error) => (PipelineBuild { error: Some(error), ..self }).unwind(),
            },
            BuildPhase::CreatePipeline => match event {
                BuildEvent::Done => (PipelineBuild { pipeline: true, ..self }).unwind(),
                BuildEvent::Failed(error) => (PipelineBuild { error: Some(error), ..self }).unwind(),
            },
            BuildPhase::DestroyVertexModule => (PipelineBuild { vertex_module: false, ..self }).unwind(),
            BuildPhase::DestroyFragmentModule => (PipelineBuild {
                fragment_module: false,
                ..self
            }).unwind(),
            BuildPhase::Finished => (self, BuildAction::Nothing),
            BuildPhase::Failed => (self, BuildAction::Nothing),
        }
    }

    /// Starts a build and asks for the vertex shader to be compiled.
    pub fn start() -> (started: (PipelineBuild, BuildAction))
        ensures
            started.0 == PipelineBuild::initial(),
            started.0.wf(),
            started.1 == BuildAction::CompileShader(ShaderKind::Vertex),
    {
        (
            PipelineBuild {
                phase: BuildPhase::CompileVertex,
                vertex_module: false,
                fragment_module: false,
                pipeline: false,
                error: None,
            },
            BuildAction::CompileShader(ShaderKind::Vertex),
        )
    }

    /// Tells whether the build is over.
    pub fn is_over(&self) -> (over: bool)
        ensures
            over == self.over(),
    {
        match self.phase {
            BuildPhase::Finished => true,
            BuildPhase::Failed => true,
            _ => false,
        }
    }

    fn do_conclude(&mut self) -> (action: BuildAction)
        ensures
            (*final(self), action) == old(self).conclude(),
    {
        match self.error.take() {
            None => {
                self.phase = BuildPhase::Finished;
                BuildAction::Finish
            },
            Some(error) => {
                self.phase = BuildPhase::Failed;
                BuildAction::Fail(error)
            },
        }
    }

    fn do_unwind(&mut self) -> (action: BuildAction)
        ensures
            (*final(self), action) == old(self).unwind(),
    {
        if self.vertex_module {
            self.phase = BuildPhase::DestroyVertexModule;
            BuildAction::DestroyShaderModule(ShaderKind::Vertex)
        } else if self.fragment_module {
            self.phase = BuildPhase::DestroyFragmentModule;
            BuildAction::DestroyShaderModule(ShaderKind::Fragment)
        } else {
            self.do_conclude()
        }
    }

    fn do_fail(&mut self, error: RenderError) -> (action: BuildAction)
        ensures
            (*final(self), action) == (PipelineBuild { error: Some(error), ..*old(self) }).unwind(),
    {
        self.error = Some(error);
        self.do_unwind()
    }

    /// Takes the outcome of the step asked for, moves on and says which step is next.
    pub fn handle(&mut self, event: BuildEvent) -> (action: BuildAction)
        ensures
            (*final(self), action) == old(self).react(event),
            old(self).wf() ==> final(self).wf(),
    {
        match self.phase {
            BuildPhase::CompileVertex => match event {
                BuildEvent::Done => {
                    self.phase = BuildPhase::CompileFragment;
                    BuildAction::CompileShader(ShaderKind::Fragment)
                },
                BuildEvent::Failed(error) => self.do_fail(error),
            },
            BuildPhase::CompileFragment => match event {
                BuildEvent::Done => {
                    self.phase = BuildPhase::CreateVertexModule;
                    BuildAction::CreateShaderModule(ShaderKind::Vertex)
                },
                BuildEvent::Failed(error) => self.do_fail(error),
            },
            BuildPhase::CreateVertexModule => match event {
                BuildEvent::Done => {
                    self.phase = BuildPhase::CreateFragmentModule;
                    self.vertex_module = true;
                    BuildAction::CreateShaderModule(ShaderKind::Fragment)
                },
                BuildEvent::Failed(error) => self.do_fail(error),
            },
            BuildPhase::CreateFragmentModule => match event {
                BuildEvent::Done => {
                    self.phase = BuildPhase::CreatePipeline;
                    self.fragment_module = true;
                    BuildAction::CreatePipeline
                },
                BuildEvent::Failed(error) => self.do_fail(error),
            },
            BuildPhase::CreatePipeline => match event {
                BuildEvent::Done => {
                    self.pipeline = true;
                    self.do_unwind()
                },
                BuildEvent::Failed(error) => self.do_fail(error),
            },
            BuildPhase::DestroyVertexModule => {
                self.vertex_module = false;
                self.do_unwind()
            },
            BuildPhase::DestroyFragmentModule => {
                self.fragment_module = false;
                self.do_unwind()
            },
            BuildPhase::Finished => BuildAction::Nothing,
            BuildPhase::Failed => BuildAction::Nothing,
        }
    }
}

/// The error of a shader module that the device refused: out of memory,
/// or a shader it could not take, with its reason.
pub fn module_error(out_of_memory: bool, reason: String) -> (error: RenderError)
    ensures
        out_of_memory ==> error == RenderError::OutOfMemory,
        !out_of_memory ==> error == RenderError::ShaderCompileFailed(reason),
{
    if out_of_memory {
        RenderError::OutOfMemory
    } else {
        RenderError::ShaderCompileFailed(reason)
    }
}

/// The error of a pipeline that the device refused: out of memory, or a
/// pipeline it could not link.
pub fn pipeline_error(out_of_memory: bool) -> (error: RenderError)
    ensures
        out_of_memory ==> error == RenderError::OutOfMemory,
        !out_of_memory ==> error == RenderError::PipelineCreateFailed,
{
    if out_of_memory {
        RenderError::OutOfMemory
    } else {
        RenderError::PipelineCreateFailed
    }
}

/// No build ends with a module left or with half a pipeline. The build
/// stays well-formed; a module is created only while it does not exist and
/// destroyed only while it does; when the build finishes the pipeline
/// exists and both modules are gone; when it fails nothing exists, and it
/// fails with the first error that was reported.
pub proof fn law_build_leaves_nothing(build: PipelineBuild, event: BuildEvent, kind: ShaderKind)
    requires
        build.wf(),
    ensures
        build.react(event).0.wf(),
        build.react(event).1 == BuildAction::CreateShaderModule(kind) ==> !build.has_module(kind),
        build.react(event).1 == BuildAction::DestroyShaderModule(kind) ==> build.react(event).0.has_module(
            kind,
        ),
        build.react(event).1 is Finish ==> {
            &&& build.react(event).0.phase is Finished
            &&& build.react(event).0.pipeline
            &&& !build.react(event).0.vertex_module
            &&& !build.react(event).0.fragment_module
        },
        build.react(event).1 is Fail ==> {
            &&& build.react(event).0.phase is Failed
            &&& !build.react(event).0.pipeline
            &&& !build.react(event).0.vertex_module
            &&& !build.react(event).0.fragment_module
        },
        build.error matches Some(first) ==> (build.react(event).1 matches BuildAction::Fail(error)
            ==> error == first),
        build.over() ==> build.react(event) == (build, BuildAction::Nothing),
        !build.over() && build.react(event).0.over() ==> build.react(event).1 is Finish
            || build.react(event).1 is Fail,
{
}

/// A shader that the compiler rejects ends the build at once, with the
/// compiler's error and before anything was created.
pub proof fn law_rejected_shader_creates_nothing(build: PipelineBuild, error: RenderError)
    requires
        build.wf(),
        build.phase is CompileVertex || build.phase is CompileFragment,
    ensures
        build.react(BuildEvent::Failed(error)).1 == BuildAction::Fail(error),
        build.react(BuildEvent::Failed(error)).0.phase is Failed,
        !build.pipeline && !build.vertex_module && !build.fragment_module,
{
}

} // verus!
