use vstd::prelude::*;

use crate::commands::ProgramHandle;

verus! {

/// The shader stage a compile diagnostic belongs to.
#[derive(Clone, Copy, PartialEq, Eq, Structural, Debug)]
pub enum ShaderStage {
    Vertex,
    Fragment,
}

/// Everything that can go wrong while building a drawable. Construction
/// failures are fatal to the drawable and abort renderer startup; the
/// draw and update paths have no errors.
#[derive(Clone, PartialEq, Eq, Debug)]
pub enum RenderError {
    /// The context failed to allocate a program, shader or buffer handle.
    ResourceCreation,
    /// A shader stage failed to compile; carries its diagnostic log.
    ShaderCompile { stage: ShaderStage, log: String },
    /// The program failed to link; carries its diagnostic log.
    ProgramLink { log: String },
    /// The linked program has no uniform of the expected name: the shader
    /// pair and the drawable are out of sync.
    MissingUniform { name: &'static str },
}

/// The program link protocol, one GPU call per step.
///
/// The host owns the context, so it performs the calls; this machine makes
/// every decision. Each state names the one call the host must make next;
/// feeding its outcome back yields the next state. A failed step jumps
/// straight to `Complete` with the error, so no shader is compiled after a
/// failure, nothing is linked after a failed compile, and a usable handle
/// can only come out of a link step that reported success.
#[derive(PartialEq, Eq, Debug)]
pub enum LinkSession {
    /// Create a program object next.
    NeedProgram,
    /// Compile the vertex shader source next.
    NeedVertexShader { program: ProgramHandle },
    /// Compile the fragment shader source next.
    NeedFragmentShader { program: ProgramHandle },
    /// Attach both shaders, link, and read the link status next.
    NeedLinkStatus { program: ProgramHandle },
    /// The protocol is over; `link_program` extracts the result.
    Complete { result: Result<ProgramHandle, RenderError> },
}

impl LinkSession {
    /// Start the protocol: the first step is creating the program object.
    pub fn begin() -> (s: LinkSession)
        ensures
            s == LinkSession::NeedProgram,
    {
        LinkSession::NeedProgram
    }

    /// Report the outcome of creating the program object. A missing handle
    /// is a resource-creation failure and ends the protocol.
    pub fn program_created(self, program: Option<ProgramHandle>) -> (s: LinkSession)
        requires
            self is NeedProgram,
        ensures
            program matches Some(p) ==> s == (LinkSession::NeedVertexShader { program: p }),
            program is None ==> s == (LinkSession::Complete {
                result: Err(RenderError::ResourceCreation),
            }),
    {
        match program {
            Some(p) => LinkSession::NeedVertexShader { program: p },
            None => LinkSession::Complete { result: Err(RenderError::ResourceCreation) },
        }
    }

    /// Report the outcome of the pending shader compile: its status flag
    /// and, on failure, its diagnostic log. The vertex stage compiles
    /// first; a failed stage ends the protocol with that stage's
    /// diagnostic, and the fragment stage is never reached after it.
    pub fn shader_compiled(self, ok: bool, log: String) -> (s: LinkSession)
        requires
            self is NeedVertexShader || self is NeedFragmentShader,
        ensures
            self is NeedVertexShader && ok ==> s == (LinkSession::NeedFragmentShader {
                program: self->NeedVertexShader_program,
            }),
            self is NeedVertexShader && !ok ==> s == (LinkSession::Complete {
                result: Err(RenderError::ShaderCompile { stage: ShaderStage::Vertex, log }),
            }),
            self is NeedFragmentShader && ok ==> s == (LinkSession::NeedLinkStatus {
                program: self->NeedFragmentShader_program,
            }),
            self is NeedFragmentShader && !ok ==> s == (LinkSession::Complete {
                result: Err(RenderError::ShaderCompile { stage: ShaderStage::Fragment, log }),
            }),
    {
        match self {
            LinkSession::NeedVertexShader { program } => {
                if ok {
                    LinkSession::NeedFragmentShader { program }
                } else {
                    LinkSession::Complete {
                        result: Err(
                            RenderError::ShaderCompile { stage: ShaderStage::Vertex, log },
                        ),
                    }
                }
            },
            LinkSession::NeedFragmentShader { program } => {
                if ok {
                    LinkSession::NeedLinkStatus { program }
                } else {
                    LinkSession::Complete {
                        result: Err(
                            RenderError::ShaderCompile { stage: ShaderStage::Fragment, log },
                        ),
                    }
                }
            },
            _ => {
                proof {
                    assert(false);
                }
                LinkSession::Complete { result: Err(RenderError::ResourceCreation) }
            },
        }
    }

    /// Report the link status and, on failure, the program info log. Only
    /// a successful link yields a usable handle; a failed link ends the
    /// protocol with the diagnostic and no handle.
    pub fn link_checked(self, ok: bool, log: String) -> (s: LinkSession)
        requires
            self is NeedLinkStatus,
        ensures
            self is NeedLinkStatus && ok ==> s == (LinkSession::Complete {
                result: Ok(self->NeedLinkStatus_program),
            }),
            !ok ==> s == (LinkSession::Complete {
                result: Err(RenderError::ProgramLink { log }),
            }),
    {
        match self {
            LinkSession::NeedLinkStatus { program } => {
                if ok {
                    LinkSession::Complete { result: Ok(program) }
                } else {
                    LinkSession::Complete { result: Err(RenderError::ProgramLink { log }) }
                }
            },
            _ => {
                proof {
                    assert(false);
                }
                LinkSession::Complete { result: Err(RenderError::ResourceCreation) }
            },
        }
    }

    /// Whether the protocol has ended.
    pub fn is_complete(&self) -> (b: bool)
        ensures
            b == (self is Complete),
    {
        match self {
            LinkSession::Complete { .. } => true,
            _ => false,
        }
    }
}

/// The result of a finished link protocol: the linked program handle, or
/// the compile, link or allocation failure that ended it. No partial
/// success exists: an errored protocol carries no handle.
pub fn link_program(session: LinkSession) -> (r: Result<ProgramHandle, RenderError>)
    requires
        session is Complete,
    ensures
        r == session->result,
{
    match session {
        LinkSession::Complete { result } => result,
        _ => {
            proof {
                assert(false);
            }
            Err(RenderError::ResourceCreation)
        },
    }
}

} // verus!
