use wasd_scene::error::BackendError;
use wasd_scene::frame::{compose_frame, DrawCommand};
use wasd_scene::motion::Offset;
use wasd_scene::scene::setup;

#[test]
fn fresh_setup_frame_issues_the_fixed_sequence() {
    let s = setup();
    let cmds = compose_frame(&s.initial_offset);
    assert_eq!(cmds.len(), 10);

    assert!(matches!(&cmds[0], DrawCommand::BuildGui(_)));
    assert!(matches!(&cmds[1], DrawCommand::ClearFrame(_)));
    assert!(matches!(&cmds[2], DrawCommand::BindPipeline));
    assert!(matches!(&cmds[3], DrawCommand::BindTexture(0)));
    assert!(matches!(&cmds[4], DrawCommand::BindGeometry));
    assert!(matches!(&cmds[5], DrawCommand::DrawIndexed { first: 0, count: 3 }));
    assert!(matches!(&cmds[6], DrawCommand::Circle(_)));
    assert!(matches!(&cmds[7], DrawCommand::Text(_)));
    assert!(matches!(&cmds[8], DrawCommand::Text(_)));
    assert!(matches!(&cmds[9], DrawCommand::SubmitGui));

    // Exactly one 3D draw, one circle, two texts, one GUI submission.
    let draws = cmds
        .iter()
        .filter(|c| matches!(c, DrawCommand::DrawIndexed { .. }))
        .count();
    let circles = cmds.iter().filter(|c| matches!(c, DrawCommand::Circle(_))).count();
    let texts = cmds.iter().filter(|c| matches!(c, DrawCommand::Text(_))).count();
    let gui_submits = cmds.iter().filter(|c| matches!(c, DrawCommand::SubmitGui)).count();
    assert_eq!((draws, circles, texts, gui_submits), (1, 1, 2, 1));
}

#[test]
fn fresh_setup_frame_draws_circle_at_origin() {
    let s = setup();
    let cmds = compose_frame(&s.initial_offset);
    match &cmds[6] {
        DrawCommand::Circle(c) => {
            assert_eq!(c.radius, 50);
            assert_eq!(c.x_micros, 0);
            assert_eq!(c.y_micros, 0);
            assert_eq!((c.color.r, c.color.g, c.color.b, c.color.a), (10, 0, 0, 10));
        }
        other => panic!("expected a circle, found {other:?}"),
    }
}

#[test]
fn frame_circle_follows_the_offset() {
    let o = Offset { x: 12_500_000, y: -3_000_000 };
    let cmds = compose_frame(&o);
    match &cmds[6] {
        DrawCommand::Circle(c) => {
            assert_eq!(c.x_micros, 12_500_000);
            assert_eq!(c.y_micros, -3_000_000);
        }
        other => panic!("expected a circle, found {other:?}"),
    }
}

#[test]
fn frame_text_labels_are_fixed() {
    let cmds = compose_frame(&Offset { x: 0, y: 0 });
    match &cmds[7] {
        DrawCommand::Text(t) => {
            assert_eq!(t.text, "Use WASD to move the circle");
            assert_eq!((t.x, t.y, t.size), (10, 10, 20));
        }
        other => panic!("expected a text label, found {other:?}"),
    }
    match &cmds[8] {
        DrawCommand::Text(t) => {
            assert_eq!(t.text, "Last key: key:?");
            assert_eq!((t.x, t.y, t.size), (10, 560, 20));
        }
        other => panic!("expected a text label, found {other:?}"),
    }
}

#[test]
fn frame_gui_tree_is_fixed() {
    let cmds = compose_frame(&Offset { x: 0, y: 0 });
    match &cmds[0] {
        DrawCommand::BuildGui(g) => {
            assert_eq!(g.window_title, "egui window");
            assert_eq!(g.panel_name, "side_panel");
            assert_eq!(g.heading, "Egui Plugin Example");
            assert_eq!(g.quit_label, "Quit");
            assert!(g.quit_exits);
            assert_eq!(g.info_label, "Check the source code to learn more about how it works");
        }
        other => panic!("expected the GUI tree, found {other:?}"),
    }
}

#[test]
fn frame_clears_with_scene_clear_options() {
    let s = setup();
    let cmds = compose_frame(&s.initial_offset);
    match &cmds[1] {
        DrawCommand::ClearFrame(c) => {
            assert_eq!(*c, s.clear);
        }
        other => panic!("expected the clear, found {other:?}"),
    }
}

#[test]
fn backend_error_messages() {
    assert_eq!(BackendError::ResourceCreation.message(), "resource creation failed");
    assert_eq!(BackendError::PipelineCompilation.message(), "pipeline compilation failed");
    assert_eq!(BackendError::BackendSubmission.message(), "frame submission failed");
}
