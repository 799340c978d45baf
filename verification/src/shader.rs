//! Shader compilation and program linking.
//!
//! The driver alone decides whether a shader compiles or a program links;
//! the host obtains a status and an info log (fetched by the two-call
//! idiom) and hands them here. This module owns everything around them:
//! which stage a resource name declares, the blank buffer the info-log
//! query fills, how a driver status becomes an owned `Shader` or `Program`
//! or a structured error, and the exact attach/link/detach order.

use vstd::prelude::*;
use vstd::string::*;
use crate::context::{Gl, GlCommand, gl_apply};
use crate::error::RenderError;

verus! {

/// `suf` is the tail of `s`.
pub open spec fn is_suffix_of(suf: Seq<char>, s: Seq<char>) -> bool {
    suf.len() <= s.len() && s.subrange(s.len() - suf.len(), s.len() as int) == suf
}

/// Whether `s` ends with `suffix`, over the characters of both.
pub fn has_suffix(s: &str, suffix: &str) -> (r: bool)
    ensures
        r == is_suffix_of(suffix@, s@),
{
    let n = s.unicode_len();
    let m = suffix.unicode_len();
    if m > n {
        return false;
    }
    let mut i: usize = 0;
    while i < m
        invariant
            m <= n,
            n == s@.len(),
            m == suffix@.len(),
            i <= m,
            forall|j: int| 0 <= j < i ==> s@[n - m + j] == suffix@[j],
        decreases m - i,
    {
        if s.get_char(n - m + i) != suffix.get_char(i) {
            proof {
                if is_suffix_of(suffix@, s@) {
                    assert(s@.subrange(n - m, n as int)[i as int] == s@[n - m + i]);
                }
            }
            return false;
        }
        i = i + 1;
    }
    proof {
        assert(s@.subrange(n - m, n as int) =~= suffix@);
    }
    true
}

/// The two shader stages this renderer builds.
#[derive(Clone, Copy, PartialEq, Eq, Structural, Debug)]
pub enum ShaderKind {
    Vertex,
    Fragment,
}

/// The stage a resource name declares by its extension: `.vert` names a
/// vertex stage, `.frag` a fragment stage, anything else no stage at all.
pub open spec fn spec_shader_kind(name: Seq<char>) -> Option<ShaderKind> {
    if is_suffix_of(".vert"@, name) {
        Some(ShaderKind::Vertex)
    } else if is_suffix_of(".frag"@, name) {
        Some(ShaderKind::Fragment)
    } else {
        None
    }
}

/// Determines the shader stage from the resource name's extension.
pub fn kind_for_name(name: &str) -> (r: Option<ShaderKind>)
    ensures
        r == spec_shader_kind(name@),
{
    if has_suffix(name, ".vert") {
        Some(ShaderKind::Vertex)
    } else if has_suffix(name, ".frag") {
        Some(ShaderKind::Fragment)
    } else {
        None
    }
}

/// The two stage resource names a program is built from: the base name with
/// `.vert` and with `.frag` appended.
pub fn stage_names(name: &str) -> (r: (String, String))
    ensures
        r.0@ == name@ + ".vert"@,
        r.1@ == name@ + ".frag"@,
{
    let vert = name.to_owned().concat(".vert");
    let frag = name.to_owned().concat(".frag");
    (vert, frag)
}

/// The names `stage_names` produces always declare the stages they are
/// meant for: the `.vert` name is recognized as a vertex stage and the
/// `.frag` name as a fragment stage, whatever the base name.
pub proof fn lemma_stage_names_declare_their_kinds(name: Seq<char>)
    ensures
        spec_shader_kind(name + ".vert"@) == Some(ShaderKind::Vertex),
        spec_shader_kind(name + ".frag"@) == Some(ShaderKind::Fragment),
{
    reveal_strlit(".vert");
    reveal_strlit(".frag");
    let v = name + ".vert"@;
    let f = name + ".frag"@;
    assert(v.subrange(v.len() - 5, v.len() as int) =~= ".vert"@);
    assert(f.subrange(f.len() - 5, f.len() as int) =~= ".frag"@);
    if is_suffix_of(".vert"@, f) {
        assert(f.subrange(f.len() - 5, f.len() as int)[1] == ".vert"@[1]);
    }
}

/// The buffer the host hands to the driver's info-log query: `len` spaces,
/// no interior NUL, sized by the length the first query reported. A zero
/// length yields an empty buffer, and so an empty (not missing) message.
pub fn log_buffer(len: usize) -> (v: Vec<u8>)
    ensures
        v@.len() == len,
        forall|i: int| 0 <= i < len ==> v@[i] == 32u8,
{
    let mut v: Vec<u8> = Vec::new();
    let mut i: usize = 0;
    while i < len
        invariant
            i <= len,
            v@.len() == i,
            forall|j: int| 0 <= j < i ==> v@[j] == 32u8,
        decreases len - i,
    {
        v.push(32u8);
        i = i + 1;
    }
    v
}

/// An owned, successfully compiled shader object: one GPU shader handle and
/// the stage it was compiled for. Values exist only for compilations the
/// driver accepted.
#[derive(Clone, Copy, PartialEq, Eq, Structural, Debug)]
pub struct Shader {
    id: u32,
    kind: ShaderKind,
}

impl Shader {
    /// The GPU shader object name this value owns.
    pub closed spec fn spec_id(self) -> u32 {
        self.id
    }

    /// The stage this shader was compiled for.
    pub closed spec fn spec_kind(self) -> ShaderKind {
        self.kind
    }

    /// The owned handle is a valid (nonzero) GL object name.
    pub open spec fn wf(self) -> bool {
        self.spec_id() >= 1
    }

    /// The driver's verdict on compiling shader object `id` for stage
    /// `kind`: on success the owned `Shader`, on failure a `CompileError`
    /// carrying the driver's info log `log` word for word — an empty log
    /// still yields an (empty) message.
    pub fn from_compile(id: u32, kind: ShaderKind, compiled: bool, log: String) -> (r: Result<
        Shader,
        RenderError,
    >)
        requires
            id >= 1,
        ensures
            compiled <==> r is Ok,
            compiled ==> (r matches Ok(s) && s.spec_id() == id && s.spec_kind() == kind
                && s.wf()),
            !compiled ==> (r matches Err(RenderError::CompileError { message }) && message@
                == log@),
    {
        if compiled {
            Ok(Shader { id, kind })
        } else {
            Err(RenderError::CompileError { message: log })
        }
    }

    /// The GPU shader object name this value owns.
    pub fn id(&self) -> (r: u32)
        ensures
            r == self.spec_id(),
    {
        self.id
    }

    /// The stage this shader was compiled for.
    pub fn kind(&self) -> (r: ShaderKind)
        ensures
            r == self.spec_kind(),
    {
        self.kind
    }
}

/// One call of the linking sequence, for the host to perform in order.
#[derive(Clone, Copy, PartialEq, Eq, Structural, Debug)]
pub enum LinkStep {
    /// Attach a shader object to a program object.
    Attach(u32, u32),
    /// Link the program object.
    Link(u32),
    /// Detach a shader object from a program object, so its GPU object can
    /// be released independently of the program.
    Detach(u32, u32),
}

/// The exact linking sequence for program object `program` over the given
/// stages: attach every shader in order, link once, then detach every
/// shader in the same order.
pub fn link_steps(program: u32, shaders: &Vec<Shader>) -> (steps: Vec<LinkStep>)
    ensures
        steps@.len() == 2 * shaders@.len() + 1,
        forall|i: int|
            0 <= i < shaders@.len() ==> steps@[i] == LinkStep::Attach(
                program,
                shaders@[i].spec_id(),
            ),
        steps@[shaders@.len() as int] == LinkStep::Link(program),
        forall|i: int|
            0 <= i < shaders@.len() ==> steps@[shaders@.len() + 1 + i] == LinkStep::Detach(
                program,
                shaders@[i].spec_id(),
            ),
{
    let n = shaders.len();
    let mut steps: Vec<LinkStep> = Vec::new();
    let mut i: usize = 0;
    while i < n
        invariant
            n == shaders@.len(),
            i <= n,
            steps@.len() == i,
            forall|j: int|
                0 <= j < i ==> steps@[j] == LinkStep::Attach(program, shaders@[j].spec_id()),
        decreases n - i,
    {
        steps.push(LinkStep::Attach(program, shaders[i].id()));
        i = i + 1;
    }
    steps.push(LinkStep::Link(program));
    let mut k: usize = 0;
    while k < n
        invariant
            n == shaders@.len(),
            k <= n,
            steps@.len() == n + 1 + k,
            forall|j: int|
                0 <= j < n ==> steps@[j] == LinkStep::Attach(program, shaders@[j].spec_id()),
            steps@[n as int] == LinkStep::Link(program),
            forall|j: int|
                0 <= j < k ==> steps@[n + 1 + j] == LinkStep::Detach(
                    program,
                    shaders@[j].spec_id(),
                ),
        decreases n - k,
    {
        steps.push(LinkStep::Detach(program, shaders[k].id()));
        k = k + 1;
    }
    steps
}

/// An owned, successfully linked GPU program. Values exist only for links
/// the driver accepted: a failed compile or link never yields a `Program`.
/// The shaders it was linked from may be dropped; the program keeps only
/// the linked result.
#[derive(Clone, Copy, PartialEq, Eq, Structural, Debug)]
pub struct Program {
    id: u32,
}

impl Program {
    /// The GPU program object name this value owns.
    pub closed spec fn spec_id(self) -> u32 {
        self.id
    }

    /// The owned handle is a valid (nonzero) GL object name.
    pub open spec fn wf(self) -> bool {
        self.spec_id() >= 1
    }

    /// The driver's verdict on linking program object `id`: on success the
    /// owned `Program`, on failure a `LinkError` carrying the driver's info
    /// log `log` word for word.
    pub fn from_link(id: u32, linked: bool, log: String) -> (r: Result<Program, RenderError>)
        requires
            id >= 1,
        ensures
            linked <==> r is Ok,
            linked ==> (r matches Ok(p) && p.spec_id() == id && p.wf()),
            !linked ==> (r matches Err(RenderError::LinkError { message }) && message@ == log@),
    {
        if linked {
            Ok(Program { id })
        } else {
            Err(RenderError::LinkError { message: log })
        }
    }

    /// Makes this program the active one for subsequent draw calls, and
    /// changes nothing else of the pipeline state. Repeating the call on
    /// the same program leaves the state exactly as it was.
    pub fn set_used(&self, gl: &mut Gl)
        ensures
            *final(gl) == gl_apply(*old(gl), GlCommand::UseProgram(self.spec_id())),
            final(gl).active_program == self.spec_id(),
    {
        gl.use_program(self.id);
    }

    /// The GPU program object name this value owns.
    pub fn id(&self) -> (r: u32)
        ensures
            r == self.spec_id(),
    {
        self.id
    }
}

} // verus!
