//! Display outputs and the events that report their coming and going.

use crate::config::text_view;
use vstd::prelude::*;

verus! {

/// What the display server says of one output at the moment of an event.
#[derive(Debug)]
pub struct OutputInfo {
    /// The name of the output; virtual outputs may have none.
    pub name: Option<String>,
    /// Where the output lies in the compositor's logical space.
    pub logical_position: Option<(i32, i32)>,
    /// How large the output is in the compositor's logical space.
    pub logical_size: Option<(i32, i32)>,
}

/// The content of an [`OutputInfo`].
pub struct OutputInfoView {
    pub name: Option<Seq<char>>,
    pub logical_position: Option<(i32, i32)>,
    pub logical_size: Option<(i32, i32)>,
}

impl OutputInfoView {
    /// The point at which the output's monitor is looked up: its logical
    /// position, or the origin where the display server reported none.
    pub open spec fn position(self) -> (i32, i32) {
        match self.logical_position {
            Some(point) => point,
            None => (0i32, 0i32),
        }
    }
}

impl View for OutputInfo {
    type V = OutputInfoView;

    open spec fn view(&self) -> OutputInfoView {
        OutputInfoView {
            name: text_view(self.name),
            logical_position: self.logical_position,
            logical_size: self.logical_size,
        }
    }
}

impl OutputInfo {
    /// The point at which the output's monitor is looked up.
    pub fn position(&self) -> (point: (i32, i32))
        ensures
            point == self@.position(),
    {
        match self.logical_position {
            Some(point) => point,
            None => (0, 0),
        }
    }
}

/// What happened to an output.
#[derive(Debug, Clone, Copy, PartialEq, Eq, Structural)]
pub enum OutputEventType {
    /// The output was attached.
    New,
    /// Something about the output changed.
    Update,
    /// The output was detached.
    Destroyed,
}

/// One event of the output monitor.
#[derive(Debug)]
pub struct OutputEvent {
    /// The output that the event is about.
    pub output: OutputInfo,
    /// What happened to it.
    pub event_type: OutputEventType,
}

/// The content of an [`OutputEvent`].
pub struct OutputEventView {
    pub output: OutputInfoView,
    pub event_type: OutputEventType,
}

impl View for OutputEvent {
    type V = OutputEventView;

    open spec fn view(&self) -> OutputEventView {
        OutputEventView { output: self.output@, event_type: self.event_type }
    }
}

} // verus!
