//! Model of the state a renderer drives through its GL context.
//!
//! The real context is a table of driver function pointers resolved by the
//! host; every call through it mutates driver-side pipeline state. `Gl`
//! models exactly the part of that state this renderer touches: the names it
//! has generated and the current bindings. The host mirrors each method with
//! the corresponding driver call, and replays the `GlCommand` lists that the
//! per-frame functions return.

use vstd::prelude::*;

verus! {

/// One call issued to the GL context during a frame, in the order the host
/// must perform it. `Present` is the buffer swap that displays the frame.
#[derive(Clone, Copy, PartialEq, Eq, Structural, Debug)]
pub enum GlCommand {
    Clear,
    UseProgram(u32),
    BindVertexArray(u32),
    BindElementArrayBuffer(u32),
    DrawElements(u32),
    Present,
}

/// The GL context handle: resolved once by the host, then shared by every
/// component that issues GL calls. Object names start at 1; 0 means "no
/// object bound" throughout, as in the GL API itself.
#[derive(Clone, Copy, PartialEq, Eq, Structural, Debug)]
pub struct Gl {
    pub next_shader: u32,
    pub next_program: u32,
    pub next_buffer: u32,
    pub next_vertex_array: u32,
    pub active_program: u32,
    pub bound_vertex_array: u32,
    pub bound_element_array_buffer: u32,
}

/// The pipeline state after one command is applied.
pub open spec fn gl_apply(s: Gl, c: GlCommand) -> Gl {
    match c {
        GlCommand::Clear => s,
        GlCommand::UseProgram(p) => (Gl { active_program: p, ..s }),
        GlCommand::BindVertexArray(v) => (Gl { bound_vertex_array: v, ..s }),
        GlCommand::BindElementArrayBuffer(b) => (Gl { bound_element_array_buffer: b, ..s }),
        GlCommand::DrawElements(_) => s,
        GlCommand::Present => s,
    }
}

/// The pipeline state after a whole command list is applied, first to last.
pub open spec fn gl_apply_all(s: Gl, cs: Seq<GlCommand>) -> Gl
    decreases cs.len(),
{
    if cs.len() == 0 {
        s
    } else {
        gl_apply(gl_apply_all(s, cs.drop_last()), cs.last())
    }
}

impl Gl {
    /// All object-name counters have moved past 0, so every name the model
    /// hands out is a valid (nonzero) GL object name.
    pub open spec fn wf(self) -> bool {
        self.next_shader >= 1 && self.next_program >= 1 && self.next_buffer >= 1
            && self.next_vertex_array >= 1
    }

    /// A freshly resolved context: nothing generated, nothing bound.
    pub fn new() -> (gl: Gl)
        ensures
            gl.wf(),
            gl == (Gl {
                next_shader: 1u32,
                next_program: 1u32,
                next_buffer: 1u32,
                next_vertex_array: 1u32,
                active_program: 0u32,
                bound_vertex_array: 0u32,
                bound_element_array_buffer: 0u32,
            }),
    {
        Gl {
            next_shader: 1,
            next_program: 1,
            next_buffer: 1,
            next_vertex_array: 1,
            active_program: 0,
            bound_vertex_array: 0,
            bound_element_array_buffer: 0,
        }
    }

    /// Generates a fresh buffer object name (the model of `GenBuffers`).
    pub fn gen_buffer(&mut self) -> (id: u32)
        requires
            old(self).wf(),
            old(self).next_buffer < u32::MAX,
        ensures
            id == old(self).next_buffer,
            id >= 1,
            *final(self) == (Gl { next_buffer: (id + 1) as u32, ..*old(self) }),
            final(self).wf(),
    {
        let id = self.next_buffer;
        self.next_buffer = id + 1;
        id
    }

    /// Generates a fresh vertex array object name (the model of
    /// `GenVertexArrays`).
    pub fn gen_vertex_array(&mut self) -> (id: u32)
        requires
            old(self).wf(),
            old(self).next_vertex_array < u32::MAX,
        ensures
            id == old(self).next_vertex_array,
            id >= 1,
            *final(self) == (Gl { next_vertex_array: (id + 1) as u32, ..*old(self) }),
            final(self).wf(),
    {
        let id = self.next_vertex_array;
        self.next_vertex_array = id + 1;
        id
    }

    /// Creates a fresh shader object name (the model of `CreateShader`).
    pub fn create_shader(&mut self) -> (id: u32)
        requires
            old(self).wf(),
            old(self).next_shader < u32::MAX,
        ensures
            id == old(self).next_shader,
            id >= 1,
            *final(self) == (Gl { next_shader: (id + 1) as u32, ..*old(self) }),
            final(self).wf(),
    {
        let id = self.next_shader;
        self.next_shader = id + 1;
        id
    }

    /// Creates a fresh program object name (the model of `CreateProgram`).
    pub fn create_program(&mut self) -> (id: u32)
        requires
            old(self).wf(),
            old(self).next_program < u32::MAX,
        ensures
            id == old(self).next_program,
            id >= 1,
            *final(self) == (Gl { next_program: (id + 1) as u32, ..*old(self) }),
            final(self).wf(),
    {
        let id = self.next_program;
        self.next_program = id + 1;
        id
    }

    /// Makes `program` the active program for subsequent draw calls; every
    /// other part of the pipeline state is untouched.
    pub fn use_program(&mut self, program: u32)
        ensures
            *final(self) == gl_apply(*old(self), GlCommand::UseProgram(program)),
            final(self).active_program == program,
    {
        self.active_program = program;
    }

    /// Binds `vao` as the current vertex array.
    pub fn bind_vertex_array(&mut self, vao: u32)
        ensures
            *final(self) == gl_apply(*old(self), GlCommand::BindVertexArray(vao)),
    {
        self.bound_vertex_array = vao;
    }

    /// Binds `ebo` as the current element array buffer.
    pub fn bind_element_array_buffer(&mut self, ebo: u32)
        ensures
            *final(self) == gl_apply(*old(self), GlCommand::BindElementArrayBuffer(ebo)),
    {
        self.bound_element_array_buffer = ebo;
    }

    /// Applies a whole command list to the model, first to last. The host
    /// performs the same list against the driver, one call per command.
    pub fn run_commands(&mut self, cs: &Vec<GlCommand>)
        ensures
            *final(self) == gl_apply_all(*old(self), cs@),
    {
        let mut i: usize = 0;
        while i < cs.len()
            invariant
                i <= cs.len(),
                *self == gl_apply_all(*old(self), cs@.take(i as int)),
            decreases cs.len() - i,
        {
            let c = cs[i];
            proof {
                assert(cs@.take(i + 1 as int).drop_last() =~= cs@.take(i as int));
                assert(cs@.take(i + 1 as int).last() == cs@[i as int]);
            }
            match c {
                GlCommand::Clear => {},
                GlCommand::UseProgram(p) => {
                    self.active_program = p;
                },
                GlCommand::BindVertexArray(v) => {
                    self.bound_vertex_array = v;
                },
                GlCommand::BindElementArrayBuffer(b) => {
                    self.bound_element_array_buffer = b;
                },
                GlCommand::DrawElements(_) => {},
                GlCommand::Present => {},
            }
            i = i + 1;
        }
        proof {
            assert(cs@.take(cs@.len() as int) =~= cs@);
        }
    }
}

/// Once a program is active, it stays active across any sequence of commands
/// that contains no `UseProgram`: clears, binds, draws and presents never
/// change the active program.
pub proof fn lemma_active_program_persists(s: Gl, cs: Seq<GlCommand>)
    requires
        forall|i: int| 0 <= i < cs.len() ==> !(cs[i] is UseProgram),
    ensures
        gl_apply_all(s, cs).active_program == s.active_program,
    decreases cs.len(),
{
    if cs.len() > 0 {
        lemma_active_program_persists(s, cs.drop_last());
    }
}

/// A program made active stays the active program until another
/// `UseProgram` command: whatever else is issued after the activation —
/// clears, binds, draws, presents — the active program is still the one
/// activated.
pub proof fn lemma_activation_outlasts_other_commands(s: Gl, p: u32, cs: Seq<GlCommand>)
    requires
        forall|i: int| 0 <= i < cs.len() ==> !(cs[i] is UseProgram),
    ensures
        gl_apply_all(gl_apply(s, GlCommand::UseProgram(p)), cs).active_program == p,
{
    lemma_active_program_persists(gl_apply(s, GlCommand::UseProgram(p)), cs);
}

/// Activating the same program again changes nothing: `UseProgram` is
/// idempotent on the pipeline state.
pub proof fn lemma_use_program_idempotent(s: Gl, p: u32)
    ensures
        gl_apply(gl_apply(s, GlCommand::UseProgram(p)), GlCommand::UseProgram(p))
            == gl_apply(s, GlCommand::UseProgram(p)),
{
}

} // verus!
