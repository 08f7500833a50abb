//! The session window's own state: closing it, its focus request, and fitting
//! it to the frame being shown.
use vstd::prelude::*;
use crate::protocol::VideoFrameDescriptor;
use super::{keeps_runtime, AppView, HostDesktopApp};

verus! {

/// The operator closed the session window: it is no longer open, deferred,
/// asked to take focus or tied to a device, and the next frame fits it anew.
pub open spec fn closed_spec(s: AppView) -> AppView {
    AppView {
        window_open: false,
        window_deferred: false,
        window_focus: false,
        window_device: None,
        window_auto_sized: None,
        ..s
    }
}

/// What the window was fitted to for a frame: its width, height and rotation.
pub open spec fn frame_key(f: VideoFrameDescriptor) -> (u32, u32, u16) {
    (f.width, f.height, f.rotation_degrees)
}

/// The frame the window should be fitted to now: the session's frame, unless
/// the window was already fitted to one like it.
pub open spec fn frame_to_fit_spec(s: AppView) -> Option<(u32, u32, u16)> {
    match s.session.latest_frame {
        Some(f) => if s.window_auto_sized == Some(frame_key(f)) {
            None
        } else {
            Some(frame_key(f))
        },
        None => None,
    }
}

impl HostDesktopApp {
    /// Closes the session window.
    pub fn close_session_window(&mut self)
        ensures
            final(self)@ == closed_spec(old(self)@),
    {
        self.session_window_open = false;
        self.session_window_deferred_until_streaming = false;
        self.session_window_focus_requested = false;
        self.session_window_device_id = None;
        self.session_window_auto_sized_frame = None;
    }

    /// Whether the session window should take focus now; the request is used
    /// up.
    pub fn take_session_window_focus_request(&mut self) -> (r: bool)
        ensures
            r == old(self)@.window_focus,
            final(self)@ == (AppView { window_focus: false, ..old(self)@ }),
    {
        let r = self.session_window_focus_requested;
        self.session_window_focus_requested = false;
        r
    }

    /// The frame (width, height, rotation) that the session window should now
    /// be fitted to, if any; when there is one, it is remembered and a resize
    /// is pending.
    pub fn session_window_frame_to_fit(&mut self) -> (r: Option<(u32, u32, u16)>)
        ensures
            r == frame_to_fit_spec(old(self)@),
            keeps_runtime(old(self)@, final(self)@),
            final(self)@ == match r {
                Some(k) => AppView { window_auto_sized: Some(k), window_resize_pending: true, ..old(self)@ },
                None => old(self)@,
            },
    {
        let key = match &self.session.latest_frame {
            Some(f) => (f.width, f.height, f.rotation_degrees),
            None => return None,
        };
        let fitted = match self.session_window_auto_sized_frame {
            Some(k) => k.0 == key.0 && k.1 == key.1 && k.2 == key.2,
            None => false,
        };
        if fitted {
            return None;
        }
        self.session_window_auto_sized_frame = Some(key);
        self.session_window_resize_pending = true;
        Some(key)
    }

    /// Whether a resize of the session window is still pending; the flag is
    /// cleared.
    pub fn take_session_window_resize_pending(&mut self) -> (r: bool)
        ensures
            r == old(self)@.window_resize_pending,
            final(self)@ == (AppView { window_resize_pending: false, ..old(self)@ }),
    {
        let r = self.session_window_resize_pending;
        self.session_window_resize_pending = false;
        r
    }
}

} // verus!
