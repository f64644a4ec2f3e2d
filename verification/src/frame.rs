//! The per-frame draw plan.
//!
//! Each frame re-issues the same sequence of commands: the GUI tree is
//! built first, the triangle is drawn in a cleared 3D pass, the circle
//! and two text labels follow as a 2D overlay, and the GUI output is
//! submitted last so that it composites over both passes. The plan is
//! a list of plain commands that the unverified shell replays against
//! the backend; the only value that varies between frames is the
//! circle's offset.

use vstd::prelude::*;

verus! {

use crate::motion::Offset;
use crate::scene::ClearConfig;
use crate::scene::ColorTenths;
use crate::scene::clear_blue;

/// The immediate-mode GUI tree built every frame: an empty floating
/// window, and a left side panel with a heading, a quit button and an
/// informational label. `quit_exits` records that clicking the button
/// ends the application.
#[derive(Clone, PartialEq, Eq, Debug)]
pub struct GuiSpec {
    pub window_title: String,
    pub panel_name: String,
    pub heading: String,
    pub quit_label: String,
    pub quit_exits: bool,
    pub info_label: String,
}

/// The filled circle of the 2D overlay, at the current offset.
#[derive(Clone, Copy, PartialEq, Eq, Structural, Debug)]
pub struct CircleSpec {
    pub radius: i32,
    pub x_micros: i64,
    pub y_micros: i64,
    pub color: ColorTenths,
}

/// One text label of the 2D overlay.
#[derive(Clone, PartialEq, Eq, Debug)]
pub struct TextSpec {
    pub text: String,
    pub x: i32,
    pub y: i32,
    pub size: i32,
}

/// One command of the frame. The shell replays the list in order.
#[derive(Clone, PartialEq, Eq, Debug)]
pub enum DrawCommand {
    /// Build the GUI tree; its draw output is kept for the final submit.
    BuildGui(GuiSpec),
    /// Begin the 3D pass, clearing color and depth.
    ClearFrame(ClearConfig),
    /// Bind the compiled shader pipeline.
    BindPipeline,
    /// Bind the placeholder texture at the given slot.
    BindTexture(u32),
    /// Bind the vertex, index and uniform buffers.
    BindGeometry,
    /// Issue one indexed draw covering `count` indices from `first`.
    DrawIndexed { first: u32, count: u32 },
    /// Draw the overlay circle.
    Circle(CircleSpec),
    /// Draw one overlay text label.
    Text(TextSpec),
    /// Submit the GUI output built at the start of the frame.
    SubmitGui,
}

/// The GUI tree never changes between frames.
pub open spec fn gui_fixed(g: GuiSpec) -> bool {
    &&& g.window_title@ == "egui window"@
    &&& g.panel_name@ == "side_panel"@
    &&& g.heading@ == "Egui Plugin Example"@
    &&& g.quit_label@ == "Quit"@
    &&& g.quit_exits == true
    &&& g.info_label@ == "Check the source code to learn more about how it works"@
}

/// The overlay circle: radius 50, red, centered on the given offset.
pub open spec fn circle_at(c: CircleSpec, o: Offset) -> bool {
    &&& c.radius == 50
    &&& c.x_micros == o.x
    &&& c.y_micros == o.y
    &&& c.color == (ColorTenths { r: 10, g: 0, b: 0, a: 10 })
}

/// The full frame for a given circle offset, pinned command by
/// command: GUI build, cleared 3D pass ending in one indexed draw of
/// the triangle, the circle, the usage label, the key label, and the
/// GUI submission last.
pub open spec fn frame_plan(s: Seq<DrawCommand>, o: Offset) -> bool {
    &&& s.len() == 10
    &&& s[0] matches DrawCommand::BuildGui(g) && gui_fixed(g)
    &&& s[1] matches DrawCommand::ClearFrame(c) && c == clear_blue()
    &&& s[2] == DrawCommand::BindPipeline
    &&& s[3] matches DrawCommand::BindTexture(slot) && slot == 0
    &&& s[4] == DrawCommand::BindGeometry
    &&& s[5] matches DrawCommand::DrawIndexed { first, count } && first == 0 && count == 3
    &&& s[6] matches DrawCommand::Circle(c) && circle_at(c, o)
    &&& s[7] matches DrawCommand::Text(t) && t.text@ == "Use WASD to move the circle"@ && t.x
        == 10 && t.y == 10 && t.size == 20
    &&& s[8] matches DrawCommand::Text(t) && t.text@ == "Last key: key:?"@ && t.x == 10 && t.y
        == 560 && t.size == 20
    &&& s[9] == DrawCommand::SubmitGui
}

/// Compose the commands of one frame for the given circle offset.
pub fn compose_frame(offset: &Offset) -> (cmds: Vec<DrawCommand>)
    ensures
        frame_plan(cmds@, *offset),
{
    let mut cmds: Vec<DrawCommand> = Vec::new();
    cmds.push(DrawCommand::BuildGui(GuiSpec {
        window_title: String::from_str("egui window"),
        panel_name: String::from_str("side_panel"),
        heading: String::from_str("Egui Plugin Example"),
        quit_label: String::from_str("Quit"),
        quit_exits: true,
        info_label: String::from_str("Check the source code to learn more about how it works"),
    }));
    cmds.push(DrawCommand::ClearFrame(ClearConfig {
        color: ColorTenths { r: 0, g: 0, b: 10, a: 10 },
        depth_tenths: 10,
    }));
    cmds.push(DrawCommand::BindPipeline);
    cmds.push(DrawCommand::BindTexture(0));
    cmds.push(DrawCommand::BindGeometry);
    cmds.push(DrawCommand::DrawIndexed { first: 0, count: 3 });
    cmds.push(DrawCommand::Circle(CircleSpec {
        radius: 50,
        x_micros: offset.x,
        y_micros: offset.y,
        color: ColorTenths { r: 10, g: 0, b: 0, a: 10 },
    }));
    cmds.push(DrawCommand::Text(TextSpec {
        text: String::from_str("Use WASD to move the circle"),
        x: 10,
        y: 10,
        size: 20,
    }));
    cmds.push(DrawCommand::Text(TextSpec {
        text: String::from_str("Last key: key:?"),
        x: 10,
        y: 560,
        size: 20,
    }));
    cmds.push(DrawCommand::SubmitGui);
    cmds
}

/// Does this command issue an indexed 3D draw?
pub open spec fn is_indexed_draw(c: DrawCommand) -> bool {
    c matches DrawCommand::DrawIndexed { .. }
}

/// Does this command draw the overlay circle?
pub open spec fn is_circle(c: DrawCommand) -> bool {
    c matches DrawCommand::Circle(_)
}

/// Does this command draw an overlay text label?
pub open spec fn is_text(c: DrawCommand) -> bool {
    c matches DrawCommand::Text(_)
}

/// Does this command submit the GUI output?
pub open spec fn is_gui_submit(c: DrawCommand) -> bool {
    c == DrawCommand::SubmitGui
}

/// Each frame issues exactly one indexed 3D draw (covering 3 indices),
/// exactly one circle draw, exactly two text draws, and exactly one
/// GUI submission - and in that relative order: the 3D draw precedes
/// the circle, the circle precedes both texts, and both texts precede
/// the GUI submission.
pub proof fn lemma_frame_draw_counts(s: Seq<DrawCommand>, o: Offset)
    requires
        frame_plan(s, o),
    ensures
        forall|i: int| 0 <= i < s.len() ==> (is_indexed_draw(s[i]) <==> i == 5),
        forall|i: int| 0 <= i < s.len() ==> (is_circle(s[i]) <==> i == 6),
        forall|i: int| 0 <= i < s.len() ==> (is_text(s[i]) <==> i == 7 || i == 8),
        forall|i: int| 0 <= i < s.len() ==> (is_gui_submit(s[i]) <==> i == 9),
        s[5] matches DrawCommand::DrawIndexed { count, .. } && count == 3,
{
}

} // verus!
