//! The decisions of the render loop: what to do for each window event, and how
//! to draw each primitive.
use vstd::prelude::*;

verus! {

use crate::renderer::Primitive;

/// A window event, as far as the render loop tells events apart.
#[derive(Clone, Copy, Debug, PartialEq, Eq, Structural)]
pub enum FrameEvent {
    /// Every pending event has been handled.
    MainEventsCleared,
    /// The window's drawable area has the given size now.
    Resized { width: u32, height: u32 },
    /// The window asks for a frame.
    RedrawRequested,
    /// The user asks to close the window.
    CloseRequested,
    /// Any other event.
    Other,
}

/// What the render loop does in answer to an event.
#[derive(Clone, Copy, Debug, PartialEq, Eq, Structural)]
pub enum FrameAction {
    /// Ask the window for a frame.
    RequestRedraw,
    /// Build the swap chain anew at the given size.
    RecreateSwapChain { width: u32, height: u32 },
    /// Encode and submit one frame.
    DrawFrame,
    /// Leave the loop.
    Exit,
    /// Nothing to do.
    Wait,
}

/// How one primitive is drawn: through its indices when it has any, else
/// straight from its vertices.
#[derive(Clone, Copy, Debug, PartialEq, Eq, Structural)]
pub enum DrawCall {
    Indexed { index_count: u32 },
    Vertices { vertex_count: u32 },
}

/// The action that answers `event`.
pub open spec fn action_for(event: FrameEvent) -> FrameAction {
    match event {
        FrameEvent::MainEventsCleared => FrameAction::RequestRedraw,
        FrameEvent::Resized { width, height } => FrameAction::RecreateSwapChain { width, height },
        FrameEvent::RedrawRequested => FrameAction::DrawFrame,
        FrameEvent::CloseRequested => FrameAction::Exit,
        FrameEvent::Other => FrameAction::Wait,
    }
}

/// Decides what the render loop does for one event. Events are answered one at
/// a time, in the order they come; a frame is only encoded on request.
pub fn next_action(event: FrameEvent) -> (r: FrameAction)
    ensures
        r == action_for(event),
{
    match event {
        FrameEvent::MainEventsCleared => FrameAction::RequestRedraw,
        FrameEvent::Resized { width, height } => FrameAction::RecreateSwapChain { width, height },
        FrameEvent::RedrawRequested => FrameAction::DrawFrame,
        FrameEvent::CloseRequested => FrameAction::Exit,
        FrameEvent::Other => FrameAction::Wait,
    }
}

impl Primitive {
    /// The draw call for this primitive: indexed over all its indices if it has
    /// any, else over all its vertices.
    pub fn draw_call(&self) -> (r: DrawCall)
        requires
            self.indices@.len() <= u32::MAX,
            self.vertex@.len() <= u32::MAX,
        ensures
            self.indices@.len() > 0 ==> r == (DrawCall::Indexed { index_count: self.indices@.len() as u32 }),
            self.indices@.len() == 0 ==> r == (DrawCall::Vertices { vertex_count: self.vertex@.len() as u32 }),
    {
        if self.indices.len() > 0 {
            DrawCall::Indexed { index_count: self.indices.len() as u32 }
        } else {
            DrawCall::Vertices { vertex_count: self.vertex.len() as u32 }
        }
    }
}

} // verus!
