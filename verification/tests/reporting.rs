use render_gl::error::{RenderError, ResourceErrorKind};
use render_gl::geometry::{quad_indices, quad_vertex_layout, FLOATS_PER_VERTEX, QUAD_INDEX_COUNT};
use render_gl::report::{failure_to_string, Cause};
use render_gl::resources::check_source_bytes;

fn cause(message: &str, happened_at: &str) -> Cause {
    Cause { message: String::from(message), happened_at: String::from(happened_at) }
}

#[test]
fn empty_chain_formats_to_nothing() {
    assert_eq!(failure_to_string(&Vec::new()), "");
}

#[test]
fn single_cause_is_its_message_and_a_line_end() {
    let text = failure_to_string(&vec![cause("SDL error", "")]);
    assert_eq!(text, "SDL error\n");
}

#[test]
fn chain_displays_innermost_cause_first() {
    // Outermost first, as walking a cause chain yields it.
    let causes = vec![cause("failed to set up the program", ""), cause("link failed", "")];
    let text = failure_to_string(&causes);
    assert_eq!(text, "link failed\n   Which caused the following issue:\nfailed to set up the program\n");
}

#[test]
fn captured_place_is_appended_to_its_cause() {
    let causes = vec![cause("outer", "main.rs:12"), cause("inner", "")];
    let text = failure_to_string(&causes);
    assert_eq!(
        text,
        "inner\n   Which caused the following issue:\nouter This happened at main.rs:12\n"
    );
}

#[test]
fn error_messages_carry_their_diagnostic_text() {
    let e = RenderError::CompileError { message: String::from("bad token") };
    assert_eq!(e.message(), "bad token");
    let e = RenderError::LinkError { message: String::from("no main") };
    assert_eq!(e.message(), "no main");
    let e = RenderError::ContextInitError { message: String::from("no display") };
    assert_eq!(e.message(), "no display");
    let e = RenderError::ResourceError {
        name: String::from("shaders/triangle.vert"),
        kind: ResourceErrorKind::NotFound,
    };
    assert_eq!(e.message(), "shaders/triangle.vert");
}

#[test]
fn source_without_nul_is_accepted() {
    let bytes = b"#version 330 core\nvoid main() {}\n".to_vec();
    assert!(check_source_bytes("shaders/triangle.vert", &bytes).is_ok());
    assert!(check_source_bytes("empty.vert", &Vec::new()).is_ok());
}

#[test]
fn source_with_interior_nul_is_rejected() {
    let bytes = vec![b'a', 0u8, b'b'];
    match check_source_bytes("shaders/triangle.vert", &bytes) {
        Err(RenderError::ResourceError { name, kind }) => {
            assert_eq!(name, "shaders/triangle.vert");
            assert_eq!(kind, ResourceErrorKind::ContainsNul);
        }
        other => panic!("expected a resource error, got {:?}", other),
    }
}

#[test]
fn quad_is_two_triangles_over_four_vertices() {
    assert_eq!(quad_indices(), vec![0, 1, 2, 1, 2, 3]);
    assert_eq!(quad_indices().len() as u32, QUAD_INDEX_COUNT);
}

#[test]
fn vertex_layout_interleaves_position_and_color() {
    let layout = quad_vertex_layout();
    assert_eq!(layout.len(), 2);
    assert_eq!((layout[0].location, layout[0].components, layout[0].offset_floats), (0, 3, 0));
    assert_eq!((layout[1].location, layout[1].components, layout[1].offset_floats), (1, 3, 3));
    for a in &layout {
        assert!(a.offset_floats + a.components <= FLOATS_PER_VERTEX);
    }
}
