use vstd::prelude::*;
use crate::action::Action;
use crate::geometry::{Drag, Region, crop_of, drag_moved, normal_rect, normalize, crop_region};
use crate::timeline::Timeline;

verus! {

/// The drag mailbox: the last drag reported by the overlay's pointer
/// callbacks, waiting for the controller. Drag-begin writes the start point,
/// drag-end the offset; it holds one drag, and a second completed drag
/// overwrites one that was not yet taken.
pub struct DragMailbox {
    pub start: Option<(i32, i32)>,
    pub offset: Option<(i32, i32)>,
}

/// The drag that the mailbox holds, complete or not.
pub open spec fn held_drag(m: DragMailbox) -> Option<Drag> {
    match (m.start, m.offset) {
        (Some(s), Some(o)) => Some(Drag { start_x: s.0, start_y: s.1, offset_x: o.0, offset_y: o.1 }),
        _ => None,
    }
}

/// The mailbox holds a complete drag that moved.
pub open spec fn drag_ready(m: DragMailbox) -> bool {
    held_drag(m) matches Some(d) && drag_moved(d)
}

impl DragMailbox {
    pub fn new() -> (r: Self)
        ensures
            r.start is None,
            r.offset is None,
    {
        DragMailbox { start: None, offset: None }
    }

    /// The pointer went down at (x, y): the start point is written, the
    /// offset is left as it was.
    pub fn drag_begin(&mut self, x: i32, y: i32)
        ensures
            final(self).start == Some((x, y)),
            final(self).offset == old(self).offset,
    {
        self.start = Some((x, y));
    }

    /// The pointer was released (dx, dy) away from where it went down.
    pub fn drag_end(&mut self, dx: i32, dy: i32)
        ensures
            final(self).start == old(self).start,
            final(self).offset == Some((dx, dy)),
    {
        self.offset = Some((dx, dy));
    }

    /// Takes the drag if it is complete and moved, and clears the mailbox;
    /// otherwise leaves the mailbox as it is.
    pub fn take_ready(&mut self) -> (r: Option<Drag>)
        ensures
            r is Some <==> drag_ready(*old(self)),
            r is Some ==> r == held_drag(*old(self)) && final(self).start is None
                && final(self).offset is None,
            r is None ==> *final(self) == *old(self),
    {
        match (self.start, self.offset) {
            (Some(s), Some(o)) => {
                let d = Drag { start_x: s.0, start_y: s.1, offset_x: o.0, offset_y: o.1 };
                if d.moved() {
                    self.start = None;
                    self.offset = None;
                    Some(d)
                } else {
                    None
                }
            },
            _ => None,
        }
    }
}

/// What the application must do after a step of the session.
#[derive(Clone, Copy, Debug, PartialEq, Eq, Structural)]
pub enum Effect {
    /// Nothing changes on screen.
    Nothing,
    /// Minimize the main window, wait the chosen delay, capture the screen
    /// as frame 0, and report the result with `Session::capture_done`.
    Capture,
    /// Load frame `index` into the overlay and onto the clipboard.
    Show { index: usize },
    /// Export frame `index` in the chosen format, and report whether it was
    /// written with `Session::export_done`.
    Export { index: usize },
    /// Close the overlay and bring back the main window.
    Close,
    /// Cut `region` out of frame `source`, store it as frame `target`, and
    /// show it in the overlay and on the clipboard.
    Crop { source: usize, target: usize, region: Region },
}

/// The capture session: whether a crop overlay is open, and the timeline of
/// the latest session.
pub struct Session {
    active: bool,
    timeline: Option<Timeline>,
}

impl Session {
    pub closed spec fn spec_active(&self) -> bool {
        self.active
    }

    pub closed spec fn spec_timeline(&self) -> Option<Timeline> {
        self.timeline
    }

    pub open spec fn wf(&self) -> bool {
        &&& self.spec_active() ==> self.spec_timeline() is Some
        &&& self.spec_timeline() matches Some(t) ==> t.wf()
    }

    /// The timeline of the latest session; meaningful once a capture opened one.
    pub open spec fn latest_timeline(&self) -> Timeline {
        self.spec_timeline()->0
    }

    pub fn new() -> (r: Session)
        ensures
            r.wf(),
            !r.spec_active(),
            r.spec_timeline() is None,
    {
        Session { active: false, timeline: None }
    }

    pub fn is_active(&self) -> (r: bool)
        ensures
            r == self.spec_active(),
    {
        self.active
    }

    /// Index of the frame on display, if a session was ever opened.
    pub fn current_index(&self) -> (r: Option<usize>)
        ensures
            r is Some <==> self.spec_timeline() is Some,
            r matches Some(i) ==> i == self.latest_timeline().cursor(),
    {
        match &self.timeline {
            Some(t) => Some(t.current_index()),
            None => None,
        }
    }

    /// Index of the furthest frame that redo reaches, if a session was ever
    /// opened.
    pub fn last_index(&self) -> (r: Option<usize>)
        requires
            self.wf(),
        ensures
            r is Some <==> self.spec_timeline() is Some,
            r matches Some(i) ==> i == self.latest_timeline().high_water(),
    {
        match &self.timeline {
            Some(t) => Some(t.last_index()),
            None => None,
        }
    }

    /// Width and height of frame `index` of the latest session's timeline.
    pub fn frame_size(&self, index: usize) -> (r: Option<(u32, u32)>)
        ensures
            r is Some <==> (self.spec_timeline() is Some && index < self.latest_timeline().sizes().len()),
            r matches Some(s) ==> s == self.latest_timeline().sizes()[index as int],
    {
        match &self.timeline {
            Some(t) => t.size_of(index),
            None => None,
        }
    }

    /// Applies one action taken from the action flag.
    /// - New: asks for a capture, only when no session is open.
    /// - Save: asks to export the frame on display, only in a session.
    /// - Undo / Redo: move the cursor one frame back / forward and show that
    ///   frame, only in a session and when the cursor is not at the first /
    ///   furthest frame.
    /// - Cancel: closes the session.
    /// In every other case nothing changes and `Effect::Nothing` comes back.
    pub fn handle(&mut self, a: Action) -> (e: Effect)
        requires
            old(self).wf(),
        ensures
            final(self).wf(),
            final(self).spec_timeline() matches Some(t) ==> old(self).spec_timeline() matches Some(o)
                && t.sizes() == o.sizes(),
            a == Action::New ==> *final(self) == *old(self) && e == (if old(self).spec_active() {
                Effect::Nothing
            } else {
                Effect::Capture
            }),
            a == Action::Save ==> *final(self) == *old(self) && e == (if old(self).spec_active() {
                Effect::Export { index: old(self).latest_timeline().cursor() as usize }
            } else {
                Effect::Nothing
            }),
            a == Action::Undo ==> if old(self).spec_active() && old(self).latest_timeline().cursor() > 0 {
                &&& final(self).spec_active()
                &&& final(self).latest_timeline().cursor() == old(self).latest_timeline().cursor() - 1
                &&& e == Effect::Show { index: final(self).latest_timeline().cursor() as usize }
            } else {
                *final(self) == *old(self) && e == Effect::Nothing
            },
            a == Action::Redo ==> if old(self).spec_active() && old(self).latest_timeline().cursor()
                < old(self).latest_timeline().high_water() {
                &&& final(self).spec_active()
                &&& final(self).latest_timeline().cursor() == old(self).latest_timeline().cursor() + 1
                &&& e == Effect::Show { index: final(self).latest_timeline().cursor() as usize }
            } else {
                *final(self) == *old(self) && e == Effect::Nothing
            },
            a == Action::Cancel ==> if old(self).spec_active() {
                &&& !final(self).spec_active()
                &&& final(self).spec_timeline() == old(self).spec_timeline()
                &&& e == Effect::Close
            } else {
                *final(self) == *old(self) && e == Effect::Nothing
            },
    {
        match a {
            Action::New => {
                if self.active {
                    Effect::Nothing
                } else {
                    Effect::Capture
                }
            },
            Action::Save => {
                match &self.timeline {
                    Some(t) if self.active => Effect::Export { index: t.current_index() },
                    _ => Effect::Nothing,
                }
            },
            Action::Undo => {
                if !self.active {
                    return Effect::Nothing;
                }
                match &mut self.timeline {
                    Some(t) => {
                        if t.retreat() {
                            Effect::Show { index: t.current_index() }
                        } else {
                            Effect::Nothing
                        }
                    },
                    None => Effect::Nothing,
                }
            },
            Action::Redo => {
                if !self.active {
                    return Effect::Nothing;
                }
                match &mut self.timeline {
                    Some(t) => {
                        if t.advance() {
                            Effect::Show { index: t.current_index() }
                        } else {
                            Effect::Nothing
                        }
                    },
                    None => Effect::Nothing,
                }
            },
            Action::Cancel => {
                if self.active {
                    self.active = false;
                    Effect::Close
                } else {
                    Effect::Nothing
                }
            },
        }
    }

    /// Reports a finished screen capture of the given size. It opens a
    /// session whose timeline holds the capture as frame 0, unless a session
    /// is already open: then nothing changes and false comes back.
    pub fn capture_done(&mut self, width: u32, height: u32) -> (opened: bool)
        requires
            old(self).wf(),
        ensures
            final(self).wf(),
            opened == !old(self).spec_active(),
            opened ==> final(self).spec_active() && final(self).latest_timeline().cursor() == 0
                && final(self).latest_timeline().sizes() == seq![(width, height)],
            !opened ==> *final(self) == *old(self),
    {
        if self.active {
            false
        } else {
            self.timeline = Some(Timeline::new(width, height));
            self.active = true;
            true
        }
    }

    /// Reports the end of an export. A written file closes the session; a
    /// cancelled dialog or a failed write leaves it open.
    pub fn export_done(&mut self, written: bool) -> (e: Effect)
        requires
            old(self).wf(),
        ensures
            final(self).wf(),
            final(self).spec_timeline() == old(self).spec_timeline(),
            written && old(self).spec_active() ==> !final(self).spec_active() && e == Effect::Close,
            !(written && old(self).spec_active()) ==> *final(self) == *old(self) && e == Effect::Nothing,
    {
        if written && self.active {
            self.active = false;
            Effect::Close
        } else {
            Effect::Nothing
        }
    }

    /// Applies a pending drag to the frame on display. Outside a session, or
    /// without a complete drag that moved, nothing happens. Otherwise the
    /// drag is taken out of the mailbox and normalized; when its origin lies
    /// inside the frame on display and it has a width and a height, the crop
    /// becomes the next frame and the furthest one, and is shown; otherwise
    /// the drag is dropped and the timeline is left as it was.
    pub fn crop_step(&mut self, drags: &mut DragMailbox) -> (e: Effect)
        requires
            old(self).wf(),
        ensures
            final(self).wf(),
            final(self).spec_active() == old(self).spec_active(),
            !(old(self).spec_active() && drag_ready(*old(drags))) ==> *final(self) == *old(self)
                && *final(drags) == *old(drags) && e == Effect::Nothing,
            old(self).spec_active() && drag_ready(*old(drags)) ==> {
                let t = old(self).latest_timeline();
                let size = t.sizes()[t.cursor() as int];
                let cut = crop_of(normal_rect(held_drag(*old(drags))->0), size.0, size.1);
                &&& final(drags).start is None
                &&& final(drags).offset is None
                &&& match cut {
                    None => *final(self) == *old(self) && e == Effect::Nothing,
                    Some(g) => {
                        &&& final(self).latest_timeline().cursor() == t.cursor() + 1
                        &&& final(self).latest_timeline().high_water() == t.cursor() + 1
                        &&& final(self).latest_timeline().sizes() == t.sizes().subrange(0, t.cursor() + 1 as int).push(
                            (g.width, g.height),
                        )
                        &&& e == Effect::Crop {
                            source: t.cursor() as usize,
                            target: (t.cursor() + 1) as usize,
                            region: g,
                        }
                    },
                }
            },
    {
        if !self.active {
            return Effect::Nothing;
        }
        match &mut self.timeline {
            Some(t) => {
                let d = match drags.take_ready() {
                    Some(d) => d,
                    None => {
                        return Effect::Nothing;
                    },
                };
                let rect = normalize(d);
                let (width, height) = t.current_size();
                match crop_region(rect, width, height) {
                    Some(g) => {
                        let source = t.current_index();
                        let target = t.append(g.width, g.height);
                        Effect::Crop { source, target, region: g }
                    },
                    None => Effect::Nothing,
                }
            },
            None => Effect::Nothing,
        }
    }
}

} // verus!
