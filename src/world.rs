use vstd::prelude::*;

verus! {

/// A box that bounces around a resizable screen.
pub struct World {
    pub width: i16,
    pub height: i16,
    pub box_x: i16,
    pub box_y: i16,
    pub velocity_x: i16,
    pub velocity_y: i16,
}

/// The velocity after a bounce check: moving right (`1`) from the left edge or beyond,
/// left (`-1`) once past the far edge, unchanged in between.
pub open spec fn bounced(position: i16, limit: i16, velocity: i16) -> i16 {
    if position > limit {
        -1i16
    } else if position <= 0 {
        1i16
    } else {
        velocity
    }
}

/// The fill colour, `0x48 0xB2 0xE8 0xFF`, as the channel at position `i` of a pixel.
pub open spec fn fill_channel(i: int) -> u8 {
    if i % 4 == 0 {
        0x48
    } else if i % 4 == 1 {
        0xB2
    } else if i % 4 == 2 {
        0xE8
    } else {
        0xFF
    }
}

impl World {
    /// The velocities are one step in each direction.
    pub open spec fn wf(&self) -> bool {
        (self.velocity_x == 1 || self.velocity_x == -1) && (self.velocity_y == 1 || self.velocity_y == -1)
    }

    /// A world of the given size with the box at (24, 16) moving down and right.
    pub fn new(width: u32, height: u32) -> (r: World)
        ensures
            r.wf(),
            r.width == width as i16 && r.height == height as i16,
            r.box_x == 24 && r.box_y == 16,
            r.velocity_x == 1 && r.velocity_y == 1,
    {
        World { width: width as i16, height: height as i16, box_x: 24, box_y: 16, velocity_x: 1, velocity_y: 1 }
    }

    /// Moves the box one step, bouncing it off the edges.
    pub fn update(&mut self)
        requires
            old(self).wf(),
            i16::MIN < old(self).box_x < i16::MAX,
            i16::MIN < old(self).box_y < i16::MAX,
        ensures
            final(self).wf(),
            final(self).width == old(self).width && final(self).height == old(self).height,
            final(self).velocity_x == bounced(old(self).box_x, old(self).width, old(self).velocity_x),
            final(self).velocity_y == bounced(old(self).box_y, old(self).height, old(self).velocity_y),
            final(self).box_x == old(self).box_x + final(self).velocity_x,
            final(self).box_y == old(self).box_y + final(self).velocity_y,
    {
        if self.box_x <= 0 {
            self.velocity_x = 1;
        }
        if self.box_x > self.width {
            self.velocity_x = -1;
        }
        if self.box_y <= 0 {
            self.velocity_y = 1;
        }
        if self.box_y > self.height {
            self.velocity_y = -1;
        }
        self.box_x = self.box_x + self.velocity_x;
        self.box_y = self.box_y + self.velocity_y;
    }

    pub fn resize(&mut self, width: u32, height: u32)
        ensures
            *final(self) == (World { width: width as i16, height: height as i16, ..*old(self) }),
    {
        self.width = width as i16;
        self.height = height as i16;
    }

    /// Fills every whole four-byte pixel of `frame` with the background colour; a trailing
    /// partial pixel is left as it was.
    pub fn draw(&self, frame: &mut Vec<u8>)
        ensures
            final(frame)@.len() == old(frame)@.len(),
            forall|i: int|
                0 <= i < old(frame)@.len() ==> final(frame)@[i] == (if i < old(frame)@.len() - old(frame)@.len()
                    % 4 {
                    fill_channel(i)
                } else {
                    old(frame)@[i]
                }),
    {
        let n = frame.len() - frame.len() % 4;
        let ghost before = frame@;
        let mut i: usize = 0;
        while i < n
            invariant
                i <= n,
                n == before.len() - before.len() % 4,
                frame@.len() == before.len(),
                forall|j: int| 0 <= j < frame@.len() ==> frame@[j] == (if j < i { fill_channel(j) } else { before[j] }),
            decreases n - i,
        {
            let c: u8 = if i % 4 == 0 {
                0x48
            } else if i % 4 == 1 {
                0xB2
            } else if i % 4 == 2 {
                0xE8
            } else {
                0xFF
            };
            frame.set(i, c);
            i = i + 1;
        }
    }
}

} // verus!
