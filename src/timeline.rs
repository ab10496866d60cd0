use vstd::prelude::*;

verus! {

/// The history of crops in one session. Frame `i` is stored by the
/// application under the name for index `i`; the timeline keeps the size of
/// every reachable frame together with two cursors: the frame on display and
/// the furthest frame that redo can reach.
pub struct Timeline {
    current: usize,
    sizes: Vec<(u32, u32)>,
}

impl Timeline {
    /// Index of the frame on display.
    pub closed spec fn cursor(&self) -> nat {
        self.current as nat
    }

    /// Width and height of every reachable frame, by index.
    pub closed spec fn sizes(&self) -> Seq<(u32, u32)> {
        self.sizes@
    }

    /// Index of the furthest frame that redo can reach.
    pub open spec fn high_water(&self) -> int {
        self.sizes().len() - 1
    }

    pub open spec fn wf(&self) -> bool {
        self.sizes().len() >= 1 && self.cursor() <= self.high_water()
    }

    /// A timeline holding the first capture of a session as frame 0.
    pub fn new(width: u32, height: u32) -> (r: Timeline)
        ensures
            r.wf(),
            r.cursor() == 0,
            r.sizes() == seq![(width, height)],
    {
        let mut sizes: Vec<(u32, u32)> = Vec::new();
        sizes.push((width, height));
        Timeline { current: 0, sizes }
    }

    pub fn current_index(&self) -> (r: usize)
        ensures
            r == self.cursor(),
    {
        self.current
    }

    pub fn last_index(&self) -> (r: usize)
        requires
            self.wf(),
        ensures
            r == self.high_water(),
    {
        self.sizes.len() - 1
    }

    /// Width and height of the frame on display.
    pub fn current_size(&self) -> (r: (u32, u32))
        requires
            self.wf(),
        ensures
            r == self.sizes()[self.cursor() as int],
    {
        self.sizes[self.current]
    }

    /// Width and height of frame `index`, if it is reachable.
    pub fn size_of(&self, index: usize) -> (r: Option<(u32, u32)>)
        ensures
            r is Some <==> index < self.sizes().len(),
            r matches Some(s) ==> s == self.sizes()[index as int],
    {
        if index < self.sizes.len() {
            Some(self.sizes[index])
        } else {
            None
        }
    }

    /// Undo: steps back one frame, unless the first frame is on display.
    pub fn retreat(&mut self) -> (moved: bool)
        requires
            old(self).wf(),
        ensures
            final(self).wf(),
            final(self).sizes() == old(self).sizes(),
            moved <==> old(self).cursor() > 0,
            moved ==> final(self).cursor() == old(self).cursor() - 1,
            !moved ==> *final(self) == *old(self),
    {
        if self.current > 0 {
            self.current = self.current - 1;
            true
        } else {
            false
        }
    }

    /// Redo: steps forward one frame, unless the furthest one is on display.
    pub fn advance(&mut self) -> (moved: bool)
        requires
            old(self).wf(),
        ensures
            final(self).wf(),
            final(self).sizes() == old(self).sizes(),
            moved <==> old(self).cursor() < old(self).high_water(),
            moved ==> final(self).cursor() == old(self).cursor() + 1,
            !moved ==> *final(self) == *old(self),
    {
        if self.current < self.sizes.len() - 1 {
            self.current = self.current + 1;
            true
        } else {
            false
        }
    }

    /// Records a new frame of the given size right after the one on display
    /// and shows it. Frames past the one on display are no longer
    /// reachable: the new frame is also the furthest one. Returns its index.
    pub fn append(&mut self, width: u32, height: u32) -> (index: usize)
        requires
            old(self).wf(),
        ensures
            final(self).wf(),
            index == old(self).cursor() + 1,
            final(self).cursor() == index,
            final(self).high_water() == index,
            final(self).sizes() == old(self).sizes().subrange(0, index as int).push((width, height)),
    {
        // the cursor is below a `usize` length, so the next index fits
        let len: usize = self.sizes.len();
        assert(self.current < len);
        let keep: usize = self.current + 1;
        self.sizes.truncate(keep);
        self.sizes.push((width, height));
        self.current = keep;
        keep
    }
}

} // verus!
