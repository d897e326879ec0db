//! The error event: one immutable record per report.

use vstd::prelude::*;
use crate::frames::{FrameModel, StackFrame, frames_model};

verus! {

/// An error event: who reported it, what kind of error, its message and the
/// application frames at the point of the report.
pub struct ErrorEvent {
    pub app_name: String,
    pub error_type: String,
    pub error_message: String,
    pub frames: Vec<StackFrame>,
}

/// The mathematical value of an `ErrorEvent`.
pub struct EventModel {
    pub app_name: Seq<char>,
    pub error_type: Seq<char>,
    pub error_message: Seq<char>,
    pub frames: Seq<FrameModel>,
}

impl View for ErrorEvent {
    type V = EventModel;

    open spec fn view(&self) -> EventModel {
        EventModel {
            app_name: self.app_name@,
            error_type: self.error_type@,
            error_message: self.error_message@,
            frames: frames_model(self.frames@),
        }
    }
}

/// Builds an event from its four parts; the application name is copied.
pub fn build_event(
    app_name: &String,
    error_type: String,
    error_message: String,
    frames: Vec<StackFrame>,
) -> (r: ErrorEvent)
    ensures
        r@ == (EventModel {
            app_name: app_name@,
            error_type: error_type@,
            error_message: error_message@,
            frames: frames_model(frames@),
        }),
{
    ErrorEvent { app_name: app_name.clone(), error_type, error_message, frames }
}

} // verus!
