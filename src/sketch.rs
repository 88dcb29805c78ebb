//! The shared sketch dimensions and how window events change them.
//!
//! Sketch space has its origin at the centre of the sketch; the coordinate
//! mapping takes the x axis from `[-width / 2, width / 2]` and the y axis from
//! `[-height / 2, height / 2]` onto `[-1, 1]`. The halves are whole numbers: an
//! odd dimension is rounded down.

use vstd::prelude::*;

verus! {

/// A window event, reduced to what the sketch reacts to.
#[derive(Clone, Copy, Debug, PartialEq, Eq, Structural)]
pub enum WindowEvent {
    /// The window's drawable area now has this size.
    Resized { width: u32, height: u32 },
    /// The user asked for the window to close.
    CloseRequested,
    /// Anything else: input, focus, movement.
    Other,
}

/// What the owner of the window must do in answer to an event.
#[derive(Clone, Copy, Debug, PartialEq, Eq, Structural)]
pub enum EventAction {
    /// Resize the window's surface and viewport to this size.
    ResizeSurface { width: u32, height: u32 },
    /// Stop the sketch.
    Stop,
    /// Nothing to do.
    Nothing,
}

/// The input ranges of the coordinate mapping: sketch-space x runs over
/// `[-half_width, half_width]` and y over `[-half_height, half_height]`.
#[derive(Clone, Copy, Debug, PartialEq, Eq, Structural)]
pub struct Bounds {
    pub half_width: u32,
    pub half_height: u32,
}

/// The width and height of the sketch, shared between the user's code and the
/// coordinate mapping.
#[derive(Clone, Copy, Debug, PartialEq, Eq, Structural)]
pub struct SketchState {
    pub width: u32,
    pub height: u32,
}

/// The state after `ev`: a resize takes the new dimensions, nothing else changes them.
pub open spec fn state_after(s: SketchState, ev: WindowEvent) -> SketchState {
    match ev {
        WindowEvent::Resized { width, height } => SketchState { width, height },
        _ => s,
    }
}

/// The action that answers `ev`.
pub open spec fn action_for(ev: WindowEvent) -> EventAction {
    match ev {
        WindowEvent::Resized { width, height } => EventAction::ResizeSurface { width, height },
        WindowEvent::CloseRequested => EventAction::Stop,
        WindowEvent::Other => EventAction::Nothing,
    }
}

/// The mapping's input ranges for sketch dimensions `width` by `height`.
pub open spec fn bounds_of(width: u32, height: u32) -> Bounds {
    Bounds { half_width: width / 2, half_height: height / 2 }
}

impl SketchState {
    /// A sketch of the given size.
    pub fn new(width: u32, height: u32) -> (r: SketchState)
        ensures
            r.width == width,
            r.height == height,
    {
        SketchState { width, height }
    }

    /// Sets the sketch's size.
    pub fn size(&mut self, width: u32, height: u32)
        ensures
            final(self).width == width,
            final(self).height == height,
    {
        self.width = width;
        self.height = height;
    }

    /// Updates the dimensions from a window event and says what the window's
    /// owner must do: a resize takes the new size and resizes the surface, a
    /// close request stops the sketch, anything else is ignored.
    pub fn handle_event(&mut self, ev: WindowEvent) -> (r: EventAction)
        ensures
            *final(self) == state_after(*old(self), ev),
            r == action_for(ev),
    {
        match ev {
            WindowEvent::Resized { width, height } => {
                self.width = width;
                self.height = height;
                EventAction::ResizeSurface { width, height }
            },
            WindowEvent::CloseRequested => EventAction::Stop,
            WindowEvent::Other => EventAction::Nothing,
        }
    }

    /// The input ranges of the coordinate mapping for the current dimensions.
    pub fn bounds(&self) -> (r: Bounds)
        ensures
            r == bounds_of(self.width, self.height),
    {
        Bounds { half_width: self.width / 2, half_height: self.height / 2 }
    }

    /// Whether the mapping is defined: both input ranges have nonzero length.
    pub fn can_map(&self) -> (r: bool)
        ensures
            r == (bounds_of(self.width, self.height).half_width > 0
                && bounds_of(self.width, self.height).half_height > 0),
            r == (self.width >= 2 && self.height >= 2),
    {
        self.width >= 2 && self.height >= 2
    }
}

/// A resize event replaces the shared dimensions, so the mapping that follows
/// uses the input ranges of the new size; where the new size halves to other
/// values than the old one, those ranges differ from the ones before.
pub proof fn lemma_resize_propagates(s: SketchState, width: u32, height: u32)
    ensures
        state_after(s, WindowEvent::Resized { width, height }) == (SketchState { width, height }),
        bounds_of(
            state_after(s, WindowEvent::Resized { width, height }).width,
            state_after(s, WindowEvent::Resized { width, height }).height,
        ) == bounds_of(width, height),
        (s.width / 2 != width / 2 || s.height / 2 != height / 2) ==> bounds_of(
            state_after(s, WindowEvent::Resized { width, height }).width,
            state_after(s, WindowEvent::Resized { width, height }).height,
        ) != bounds_of(s.width, s.height),
{
}

} // verus!
