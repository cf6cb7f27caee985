//! Translation of native drag-and-drop window events into named events for the
//! user interface.
//!
//! Each native event is handled on its own: no drag session is tracked, and each
//! drag-and-drop signal gives exactly one outbound event.

use vstd::prelude::*;

verus! {

/// A native window event, with the paths it carries already turned into strings in the
/// order the system reported them.
pub enum NativeWindowEvent {
    /// A drag entered the window, carrying these paths.
    DragEnter { paths: Vec<String> },
    /// The pointer moved during a drag.
    DragOver { paths: Vec<String> },
    /// The paths were dropped on the window.
    Drop { paths: Vec<String> },
    /// The drag left the window or was cancelled.
    DragLeave,
    /// Any other window event.
    Other,
}

/// The names of the events that the user interface receives.
#[derive(PartialEq, Eq, Structural, Clone, Copy, Debug)]
pub enum EventName {
    FileDropHover,
    FileDrop,
    FileDropCancelled,
}

impl EventName {
    /// The name under which the event is sent.
    pub open spec fn spec_as_str(self) -> Seq<char> {
        match self {
            EventName::FileDropHover => "file-drop-hover"@,
            EventName::FileDrop => "file-drop"@,
            EventName::FileDropCancelled => "file-drop-cancelled"@,
        }
    }

    /// Returns the name under which the event is sent.
    pub fn as_str(&self) -> (r: &'static str)
        ensures
            r@ == self.spec_as_str(),
    {
        match self {
            EventName::FileDropHover => "file-drop-hover",
            EventName::FileDrop => "file-drop",
            EventName::FileDropCancelled => "file-drop-cancelled",
        }
    }
}

/// An event for the user interface: a name, and either a list of paths or no payload.
pub struct UiEvent {
    pub name: EventName,
    pub payload: Option<Vec<String>>,
}

/// The value of a [`UiEvent`]: its name and the sequence of paths it carries, if any.
pub ghost struct UiEventView {
    pub name: EventName,
    pub payload: Option<Seq<String>>,
}

impl View for UiEvent {
    type V = UiEventView;

    open spec fn view(&self) -> UiEventView {
        UiEventView {
            name: self.name,
            payload: match self.payload {
                Some(paths) => Some(paths@),
                None => None,
            },
        }
    }
}

/// The event that the user interface is sent for a native window event, if any.
///
/// Entering gives a hover event with the entering paths; moving gives a hover event
/// with no paths, whatever the native event carries; dropping gives a drop event with
/// the dropped paths; leaving gives a cancel event without payload. Nothing else gives
/// an event.
pub open spec fn event_for(native: NativeWindowEvent) -> Option<UiEventView> {
    match native {
        NativeWindowEvent::DragEnter { paths } => Some(
            UiEventView { name: EventName::FileDropHover, payload: Some(paths@) },
        ),
        NativeWindowEvent::DragOver { .. } => Some(
            UiEventView { name: EventName::FileDropHover, payload: Some(Seq::empty()) },
        ),
        NativeWindowEvent::Drop { paths } => Some(
            UiEventView { name: EventName::FileDrop, payload: Some(paths@) },
        ),
        NativeWindowEvent::DragLeave => Some(
            UiEventView { name: EventName::FileDropCancelled, payload: None },
        ),
        NativeWindowEvent::Other => None,
    }
}

/// Translates one native window event into the event to send to the user interface,
/// or `None` where nothing is to be sent.
pub fn translate(native: NativeWindowEvent) -> (r: Option<UiEvent>)
    ensures
        match r {
            Some(event) => event_for(native) == Some(event@),
            None => event_for(native) is None,
        },
{
    match native {
        NativeWindowEvent::DragEnter { paths } => Some(
            UiEvent { name: EventName::FileDropHover, payload: Some(paths) },
        ),
        NativeWindowEvent::DragOver { .. } => Some(
            UiEvent { name: EventName::FileDropHover, payload: Some(Vec::new()) },
        ),
        NativeWindowEvent::Drop { paths } => Some(
            UiEvent { name: EventName::FileDrop, payload: Some(paths) },
        ),
        NativeWindowEvent::DragLeave => Some(
            UiEvent { name: EventName::FileDropCancelled, payload: None },
        ),
        NativeWindowEvent::Other => None,
    }
}

} // verus!
