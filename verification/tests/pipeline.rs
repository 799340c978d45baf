use render_gl::context::{Gl, GlCommand};
use render_gl::error::RenderError;
use render_gl::mainloop::{frame, Event, LoopState};
use render_gl::shader::{
    has_suffix, kind_for_name, link_steps, log_buffer, stage_names, LinkStep, Program, Shader,
    ShaderKind,
};

#[test]
fn vert_extension_names_vertex_stage() {
    assert_eq!(kind_for_name("shaders/triangle.vert"), Some(ShaderKind::Vertex));
}

#[test]
fn frag_extension_names_fragment_stage() {
    assert_eq!(kind_for_name("shaders/triangle.frag"), Some(ShaderKind::Fragment));
}

#[test]
fn other_names_declare_no_stage() {
    assert_eq!(kind_for_name("shaders/triangle.glsl"), None);
    assert_eq!(kind_for_name("vert"), None);
    assert_eq!(kind_for_name(""), None);
}

#[test]
fn suffix_check_is_exact() {
    assert!(has_suffix("triangle.vert", ".vert"));
    assert!(!has_suffix("triangle.vert", ".frag"));
    assert!(!has_suffix("rt", ".vert"));
    assert!(has_suffix("anything", ""));
}

#[test]
fn stage_names_append_the_two_extensions() {
    let (vert, frag) = stage_names("shaders/triangle");
    assert_eq!(vert, "shaders/triangle.vert");
    assert_eq!(frag, "shaders/triangle.frag");
    assert_eq!(kind_for_name(&vert), Some(ShaderKind::Vertex));
    assert_eq!(kind_for_name(&frag), Some(ShaderKind::Fragment));
}

#[test]
fn log_buffer_is_sized_and_blank() {
    assert_eq!(log_buffer(0), Vec::<u8>::new());
    assert_eq!(log_buffer(5), vec![b' '; 5]);
}

#[test]
fn accepted_compile_yields_usable_shader() {
    let r = Shader::from_compile(7, ShaderKind::Vertex, true, String::new());
    let s = r.expect("accepted compile must yield a shader");
    assert_eq!(s.id(), 7);
    assert_eq!(s.kind(), ShaderKind::Vertex);
}

#[test]
fn rejected_compile_carries_the_driver_log() {
    let log = String::from("0:3(2): error: expected '}'");
    let r = Shader::from_compile(7, ShaderKind::Fragment, false, log.clone());
    match r {
        Err(RenderError::CompileError { message }) => assert_eq!(message, log),
        other => panic!("expected a compile error, got {:?}", other),
    }
}

#[test]
fn unmatched_brace_diagnostic_keeps_its_line_reference() {
    // A driver rejecting a fragment source with an unmatched brace reports
    // a log with a line reference; the error keeps it word for word.
    let log = String::from("0:7(1): error: unexpected end of file, expected '}'");
    let r = Shader::from_compile(3, ShaderKind::Fragment, false, log);
    match r {
        Err(RenderError::CompileError { message }) => {
            assert!(!message.is_empty());
            assert!(message.contains("0:7"));
        }
        other => panic!("expected a compile error, got {:?}", other),
    }
}

#[test]
fn rejected_compile_with_empty_log_gives_empty_message() {
    let r = Shader::from_compile(2, ShaderKind::Vertex, false, String::new());
    match r {
        Err(RenderError::CompileError { message }) => assert_eq!(message, ""),
        other => panic!("expected a compile error, got {:?}", other),
    }
}

#[test]
fn accepted_link_yields_usable_program() {
    let r = Program::from_link(11, true, String::new());
    let p = r.expect("accepted link must yield a program");
    assert_eq!(p.id(), 11);
}

#[test]
fn rejected_link_carries_the_driver_log() {
    let log = String::from("error: vertex output `COLOR' has no matching fragment input");
    let r = Program::from_link(11, false, log.clone());
    match r {
        Err(RenderError::LinkError { message }) => assert_eq!(message, log),
        other => panic!("expected a link error, got {:?}", other),
    }
}

#[test]
fn link_steps_attach_link_then_detach_in_order() {
    let mut gl = Gl::new();
    let v_id = gl.create_shader();
    let f_id = gl.create_shader();
    let vert = Shader::from_compile(v_id, ShaderKind::Vertex, true, String::new()).unwrap();
    let frag = Shader::from_compile(f_id, ShaderKind::Fragment, true, String::new()).unwrap();
    let p_id = gl.create_program();
    let steps = link_steps(p_id, &vec![vert, frag]);
    assert_eq!(
        steps,
        vec![
            LinkStep::Attach(p_id, v_id),
            LinkStep::Attach(p_id, f_id),
            LinkStep::Link(p_id),
            LinkStep::Detach(p_id, v_id),
            LinkStep::Detach(p_id, f_id),
        ]
    );
}

#[test]
fn generated_names_are_fresh_and_nonzero() {
    let mut gl = Gl::new();
    let b1 = gl.gen_buffer();
    let b2 = gl.gen_buffer();
    let vao = gl.gen_vertex_array();
    assert!(b1 >= 1 && b2 >= 1 && vao >= 1);
    assert_ne!(b1, b2);
}

#[test]
fn activation_persists_until_another_activation() {
    let mut gl = Gl::new();
    let p_id = gl.create_program();
    let program = Program::from_link(p_id, true, String::new()).unwrap();
    program.set_used(&mut gl);
    assert_eq!(gl.active_program, p_id);
    gl.bind_vertex_array(4);
    gl.bind_element_array_buffer(9);
    gl.run_commands(&vec![GlCommand::Clear, GlCommand::DrawElements(6), GlCommand::Present]);
    assert_eq!(gl.active_program, p_id);
    // Repeating the activation is idempotent.
    let before = gl;
    program.set_used(&mut gl);
    assert_eq!(gl, before);
    // Another program's activation replaces it.
    let q_id = gl.create_program();
    let other = Program::from_link(q_id, true, String::new()).unwrap();
    other.set_used(&mut gl);
    assert_eq!(gl.active_program, q_id);
}

#[test]
fn frame_without_quit_draws_and_presents() {
    let mut gl = Gl::new();
    let p_id = gl.create_program();
    let program = Program::from_link(p_id, true, String::new()).unwrap();
    let (state, cmds) = frame(&mut gl, &vec![Event::Other, Event::Other], &program, 4, 9, 6);
    assert_eq!(state, LoopState::Running);
    assert_eq!(
        cmds,
        vec![
            GlCommand::Clear,
            GlCommand::UseProgram(p_id),
            GlCommand::BindVertexArray(4),
            GlCommand::BindElementArrayBuffer(9),
            GlCommand::DrawElements(6),
            GlCommand::Present,
        ]
    );
    assert_eq!(gl.active_program, p_id);
    assert_eq!(gl.bound_vertex_array, 4);
    assert_eq!(gl.bound_element_array_buffer, 9);
}

#[test]
fn quit_event_stops_the_loop_without_further_draws() {
    let mut gl = Gl::new();
    let p_id = gl.create_program();
    let program = Program::from_link(p_id, true, String::new()).unwrap();
    let before = gl;
    let (state, cmds) = frame(&mut gl, &vec![Event::Other, Event::Quit], &program, 4, 9, 6);
    assert_eq!(state, LoopState::Quit);
    assert!(cmds.is_empty());
    assert_eq!(gl, before);
}

#[test]
fn pass_through_pipeline_builds_and_draws() {
    // The end-to-end shape: both stages compile, the program links, its
    // activation survives the frame's own commands, and one frame draws
    // the quad's six indices and presents.
    let mut gl = Gl::new();
    let v_id = gl.create_shader();
    let f_id = gl.create_shader();
    let vert = Shader::from_compile(v_id, ShaderKind::Vertex, true, String::new()).unwrap();
    let frag = Shader::from_compile(f_id, ShaderKind::Fragment, true, String::new()).unwrap();
    let p_id = gl.create_program();
    let steps = link_steps(p_id, &vec![vert, frag]);
    assert_eq!(steps.len(), 5);
    let program = Program::from_link(p_id, true, String::new()).unwrap();
    program.set_used(&mut gl);
    let vao = gl.gen_vertex_array();
    let ebo = gl.gen_buffer();
    let (state, cmds) = frame(&mut gl, &Vec::new(), &program, vao, ebo, 6);
    assert_eq!(state, LoopState::Running);
    assert_eq!(cmds.last(), Some(&GlCommand::Present));
    assert_eq!(gl.active_program, p_id);
    let (state, cmds) = frame(&mut gl, &vec![Event::Quit], &program, vao, ebo, 6);
    assert_eq!(state, LoopState::Quit);
    assert!(cmds.is_empty());
}
