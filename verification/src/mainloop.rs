//! The per-frame state machine of the render loop.
//!
//! The loop has two states, `Running` and `Quit`. Each iteration the host
//! drains the pending event queue and hands the events here; `frame`
//! decides whether to stop and which GL commands the frame issues. A quit
//! event ends the loop within that iteration, with no further draw
//! commands; otherwise the frame clears, activates the program, binds the
//! geometry, draws once and presents.

use vstd::prelude::*;
use crate::context::{Gl, GlCommand, gl_apply, gl_apply_all};
use crate::shader::Program;

verus! {

/// An input event as far as this loop cares: a request to quit, or
/// anything else (ignored).
#[derive(Clone, Copy, PartialEq, Eq, Structural, Debug)]
pub enum Event {
    Quit,
    Other,
}

/// The loop's state after an iteration.
#[derive(Clone, Copy, PartialEq, Eq, Structural, Debug)]
pub enum LoopState {
    Running,
    Quit,
}

/// Whether the drained events contain a quit request.
pub open spec fn has_quit(events: Seq<Event>) -> bool {
    exists|i: int| 0 <= i < events.len() && events[i] is Quit
}

/// The command list of one drawn frame: clear the color buffer, activate
/// the program, bind the vertex array and the index buffer, draw
/// `index_count` indexed elements, present the frame.
pub open spec fn frame_commands(program: u32, vao: u32, ebo: u32, index_count: u32) -> Seq<
    GlCommand,
> {
    seq![
        GlCommand::Clear,
        GlCommand::UseProgram(program),
        GlCommand::BindVertexArray(vao),
        GlCommand::BindElementArrayBuffer(ebo),
        GlCommand::DrawElements(index_count),
        GlCommand::Present,
    ]
}

/// A drawn frame leaves its own program active and its own geometry bound:
/// whatever the pipeline state was before, after the frame's command list
/// the active program is the frame's program, the bound vertex array its
/// vertex array, and the bound element array buffer its index buffer.
pub proof fn lemma_frame_leaves_its_program_active(s: Gl, program: u32, vao: u32, ebo: u32,
    index_count: u32)
    ensures
        gl_apply_all(s, frame_commands(program, vao, ebo, index_count)).active_program == program,
        gl_apply_all(s, frame_commands(program, vao, ebo, index_count)).bound_vertex_array == vao,
        gl_apply_all(
            s,
            frame_commands(program, vao, ebo, index_count),
        ).bound_element_array_buffer == ebo,
{
    let cs = frame_commands(program, vao, ebo, index_count);
    assert(cs.take(1).drop_last() =~= cs.take(0));
    assert(cs.take(2).drop_last() =~= cs.take(1));
    assert(cs.take(3).drop_last() =~= cs.take(2));
    assert(cs.take(4).drop_last() =~= cs.take(3));
    assert(cs.take(5).drop_last() =~= cs.take(4));
    assert(cs.take(6) =~= cs);
    assert(cs.drop_last() =~= cs.take(5));
    assert(gl_apply_all(s, cs.take(0)) == s);
    assert(gl_apply_all(s, cs.take(1)) == gl_apply(gl_apply_all(s, cs.take(0)), cs[0]));
    assert(gl_apply_all(s, cs.take(2)) == gl_apply(gl_apply_all(s, cs.take(1)), cs[1]));
    assert(gl_apply_all(s, cs.take(3)) == gl_apply(gl_apply_all(s, cs.take(2)), cs[2]));
    assert(gl_apply_all(s, cs.take(4)) == gl_apply(gl_apply_all(s, cs.take(3)), cs[3]));
    assert(gl_apply_all(s, cs.take(5)) == gl_apply(gl_apply_all(s, cs.take(4)), cs[4]));
    assert(gl_apply_all(s, cs) == gl_apply(gl_apply_all(s, cs.take(5)), cs[5]));
}

/// One iteration of the render loop. If `events` contains a quit request
/// the loop stops within this iteration: the result is `Quit`, the command
/// list is empty and the pipeline state is untouched — no further draw is
/// issued. Otherwise the frame's fixed command list is applied to the
/// model and returned for the host to perform, and the loop keeps running.
pub fn frame(gl: &mut Gl, events: &Vec<Event>, program: &Program, vao: u32, ebo: u32,
    index_count: u32) -> (r: (LoopState, Vec<GlCommand>))
    ensures
        has_quit(events@) ==> r.0 is Quit && r.1@.len() == 0 && *final(gl) == *old(gl),
        !has_quit(events@) ==> r.0 is Running && r.1@ == frame_commands(
            program.spec_id(),
            vao,
            ebo,
            index_count,
        ) && *final(gl) == gl_apply_all(*old(gl), r.1@),
{
    let mut i: usize = 0;
    while i < events.len()
        invariant
            i <= events.len(),
            forall|j: int| 0 <= j < i ==> !(events@[j] is Quit),
        decreases events.len() - i,
    {
        if matches!(events[i], Event::Quit) {
            proof {
                assert(events@[i as int] is Quit);
                assert(has_quit(events@));
            }
            return (LoopState::Quit, Vec::new());
        }
        i = i + 1;
    }
    let mut cmds: Vec<GlCommand> = Vec::new();
    cmds.push(GlCommand::Clear);
    cmds.push(GlCommand::UseProgram(program.id()));
    cmds.push(GlCommand::BindVertexArray(vao));
    cmds.push(GlCommand::BindElementArrayBuffer(ebo));
    cmds.push(GlCommand::DrawElements(index_count));
    cmds.push(GlCommand::Present);
    proof {
        assert(cmds@ =~= frame_commands(program.spec_id(), vao, ebo, index_count));
    }
    gl.run_commands(&cmds);
    (LoopState::Running, cmds)
}

} // verus!
