use vstd::prelude::*;

verus! {

/// The window events the engine reacts to.
#[derive(Clone, Copy, Debug, PartialEq, Eq, Structural)]
pub enum WindowEvent {
    CloseRequested,
    /// New inner size in physical pixels.
    Resized(u32, u32),
    RedrawRequested,
    Other,
}

/// What the window asks of the event loop after an event.
#[derive(Clone, Copy, Debug, PartialEq, Eq, Structural)]
pub enum WindowAction {
    Nothing,
    /// Leave the event loop.
    Exit,
    /// Ask for another redraw.
    RequestRedraw,
    /// A resize that came before the window reached its intended size; the
    /// window does not act on it.
    SuppressedResize,
}

/// Window-side state: the window is ready once it has been resized to the
/// size it was created with; earlier resizes are suppressed.
#[derive(Clone, Copy, Debug, PartialEq, Eq, Structural)]
pub struct EngineWindow {
    pub initialized: bool,
    pub intended_width: u32,
    pub intended_height: u32,
}

impl EngineWindow {
    /// State of a window just created with the given inner size.
    pub fn create(width: u32, height: u32) -> (r: Self)
        ensures
            !r.initialized,
            r.intended_width == width,
            r.intended_height == height,
    {
        EngineWindow { initialized: false, intended_width: width, intended_height: height }
    }

    /// Updates the state for `event` and says what the event loop should do.
    pub fn handle_event(&mut self, event: WindowEvent) -> (r: WindowAction)
        ensures
            final(self).intended_width == old(self).intended_width,
            final(self).intended_height == old(self).intended_height,
            match event {
                WindowEvent::Resized(w, h) => {
                    let reached = w == old(self).intended_width && h == old(self).intended_height;
                    &&& final(self).initialized == (old(self).initialized || reached)
                    &&& r == if final(self).initialized {
                        WindowAction::Nothing
                    } else {
                        WindowAction::SuppressedResize
                    }
                },
                WindowEvent::CloseRequested => r == WindowAction::Exit && *final(self) == *old(
                    self,
                ),
                WindowEvent::RedrawRequested => r == WindowAction::RequestRedraw && *final(self)
                    == *old(self),
                WindowEvent::Other => r == WindowAction::Nothing && *final(self) == *old(self),
            },
    {
        match event {
            WindowEvent::CloseRequested => WindowAction::Exit,
            WindowEvent::Resized(w, h) => {
                if !self.initialized {
                    if w == self.intended_width && h == self.intended_height {
                        self.initialized = true;
                    } else {
                        return WindowAction::SuppressedResize;
                    }
                }
                WindowAction::Nothing
            },
            WindowEvent::RedrawRequested => WindowAction::RequestRedraw,
            WindowEvent::Other => WindowAction::Nothing,
        }
    }

    /// Whether the window has reached its intended size.
    pub fn get_ready(&self) -> (r: bool)
        ensures
            r == self.initialized,
    {
        self.initialized
    }
}

} // verus!
