use crate::extent::Rect;
use vstd::prelude::*;

verus! {

/// A color with eight bits to the channel.
#[derive(Clone, Copy, Debug, PartialEq, Eq, Structural)]
pub struct ClearColor {
    pub red: u8,
    pub green: u8,
    pub blue: u8,
    pub alpha: u8,
}

/// One command of a frame's command buffer.
#[derive(Clone, Copy, Debug, PartialEq, Eq, Structural)]
pub enum Command {
    /// Begin a primary command buffer; `one_time_submit` says that it is submitted once only.
    Begin { one_time_submit: bool },
    /// Set the first viewport.
    SetViewport(Rect),
    /// Set the first scissor rectangle.
    SetScissor(Rect),
    /// Begin the render pass over `area`, clearing its one attachment to `clear`.
    BeginRenderPass { area: Rect, clear: ClearColor },
    /// Bind the graphics pipeline with this number.
    BindPipeline(usize),
    /// Draw the vertices from `first_vertex` up to, not including,
    /// `end_vertex`, for the instances from `first_instance` up to, not
    /// including, `end_instance`.
    Draw { first_vertex: u32, end_vertex: u32, first_instance: u32, end_instance: u32 },
    /// End the render pass.
    EndRenderPass,
    /// Finish recording.
    Finish,
}

impl ClearColor {
    /// Black, and fully opaque.
    pub open spec fn opaque_black() -> ClearColor {
        ClearColor { red: 0, green: 0, blue: 0, alpha: 255 }
    }
}

/// What is recorded for one frame drawn over `area`: a one-time command
/// buffer that sets viewport and scissor to the whole area, clears it to
/// opaque black, binds the pipeline and draws one instance of no vertices.
pub open spec fn frame_script(area: Rect) -> Seq<Command> {
    seq![
        Command::Begin { one_time_submit: true },
        Command::SetViewport(area),
        Command::SetScissor(area),
        Command::BeginRenderPass { area, clear: ClearColor::opaque_black() },
        Command::BindPipeline(0),
        Command::Draw { first_vertex: 0, end_vertex: 0, first_instance: 0, end_instance: 1 },
        Command::EndRenderPass,
        Command::Finish,
    ]
}

/// Lists the commands to record for one frame drawn over `area`, in their order.
pub fn frame_commands(area: Rect) -> (commands: Vec<Command>)
    ensures
        commands@ == frame_script(area),
{
    let mut commands: Vec<Command> = Vec::new();
    commands.push(Command::Begin { one_time_submit: true });
    commands.push(Command::SetViewport(area));
    commands.push(Command::SetScissor(area));
    commands.push(
        Command::BeginRenderPass { area, clear: ClearColor { red: 0, green: 0, blue: 0, alpha: 255 } },
    );
    commands.push(Command::BindPipeline(0));
    commands.push(Command::Draw { first_vertex: 0, end_vertex: 0, first_instance: 0, end_instance: 1 });
    commands.push(Command::EndRenderPass);
    commands.push(Command::Finish);
    assert(commands@ =~= frame_script(area));
    commands
}

} // verus!
