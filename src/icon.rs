//! Animation state of the tray icon: a static icon, and a cycle of frames
//! shown while speech plays.

use vstd::prelude::*;

verus! {

/// Side of the square tray icon, in pixels.
pub const ICON_SIZE: u32 = 16;

/// Width of one bar of the icon, in pixels.
pub const LINE_WIDTH: u32 = 2;

/// Opacity of a bar's body.
pub const BODY_ALPHA: u8 = 255;

/// Opacity of the pixel that rounds each end of a bar.
pub const CAP_ALPHA: u8 = 180;

/// A pixel of a bar: its place and its opacity.
#[derive(PartialEq, Eq, Structural, Clone, Copy, Debug)]
pub struct Pixel {
    pub x: u32,
    pub y: u32,
    pub alpha: u8,
}

/// First row of the body of a bar of `height`, centred on the icon.
pub open spec fn line_top(height: u32) -> int {
    let t = ICON_SIZE / 2 - height / 2;
    if t < 0 {
        0
    } else {
        t
    }
}

/// Last row of the body of a bar of `height`, centred on the icon.
pub open spec fn line_bottom(height: u32) -> int {
    let b = ICON_SIZE / 2 + height / 2;
    if b > ICON_SIZE - 1 {
        ICON_SIZE - 1
    } else {
        b
    }
}

/// The opacity that a bar at column `x` of `height` gives the pixel at
/// (`px`, `py`): opaque on its body, a cap just above and below the body when
/// that row is on the icon, nothing elsewhere; columns past the icon's edge
/// are left out.
pub open spec fn line_alpha(x: u32, height: u32, px: int, py: int) -> Option<u8> {
    if !(x <= px < x + LINE_WIDTH && px < ICON_SIZE) {
        None
    } else if line_top(height) <= py <= line_bottom(height) {
        Some(BODY_ALPHA)
    } else if line_top(height) > 0 && py == line_top(height) - 1 {
        Some(CAP_ALPHA)
    } else if line_bottom(height) < ICON_SIZE - 1 && py == line_bottom(height) + 1 {
        Some(CAP_ALPHA)
    } else {
        None
    }
}

/// Whether `r` draws the pixel at (`px`, `py`).
pub open spec fn drawn(r: Seq<Pixel>, px: int, py: int) -> bool {
    exists|i: int| 0 <= i < r.len() && r[i].x == px && r[i].y == py
}

proof fn lemma_drawn_grows(a: Seq<Pixel>, b: Seq<Pixel>, px: int, py: int)
    requires
        a.len() <= b.len(),
        forall|i: int| 0 <= i < a.len() ==> b[i] == a[i],
        drawn(a, px, py),
    ensures
        drawn(b, px, py),
{
    let i = choose|i: int| 0 <= i < a.len() && a[i].x == px && a[i].y == py;
    assert(b[i].x == px && b[i].y == py);
}

/// The pixels of a vertical bar at column `x` of `height`, centred on the
/// icon, with rounded ends: each pixel drawn once, and every pixel of the bar
/// drawn.
pub fn line_pixels(x: u32, height: u32) -> (r: Vec<Pixel>)
    ensures
        forall|i: int|
            0 <= i < r@.len() ==> line_alpha(x, height, r@[i].x as int, r@[i].y as int) == Some(
                r@[i].alpha,
            ),
        forall|px: int, py: int|
            #[trigger] line_alpha(x, height, px, py) is Some ==> drawn(r@, px, py),
{
    let center_y: u32 = ICON_SIZE / 2;
    let half: u32 = height / 2;
    let y_start: u32 = if half > center_y {
        0
    } else {
        center_y - half
    };
    let y_end: u32 = if half > ICON_SIZE - 1 - center_y {
        ICON_SIZE - 1
    } else {
        center_y + half
    };
    assert(y_start == line_top(height));
    assert(y_end == line_bottom(height));
    let mut r: Vec<Pixel> = Vec::new();
    let mut dx: u32 = 0;
    while dx < LINE_WIDTH
        invariant
            y_start == line_top(height),
            y_end == line_bottom(height),
            y_start <= y_end < ICON_SIZE,
            dx <= LINE_WIDTH,
            forall|i: int|
                0 <= i < r@.len() ==> line_alpha(x, height, r@[i].x as int, r@[i].y as int)
                    == Some(r@[i].alpha),
            forall|px: int, py: int|
                px < x + dx && #[trigger] line_alpha(x, height, px, py) is Some ==> drawn(r@, px, py),
        decreases LINE_WIDTH - dx,
    {
        if x < ICON_SIZE && dx < ICON_SIZE - x {
            let px = x + dx;
            let mut y: u32 = y_start;
            while y <= y_end
                invariant
                    y_start == line_top(height),
                    y_end == line_bottom(height),
                    y_start <= y_end < ICON_SIZE,
                    px == x + dx,
                    px < ICON_SIZE,
                    dx < LINE_WIDTH,
                    y_start <= y <= y_end + 1,
                    forall|i: int|
                        0 <= i < r@.len() ==> line_alpha(x, height, r@[i].x as int, r@[i].y as int)
                            == Some(r@[i].alpha),
                    forall|qx: int, py: int|
                        qx < x + dx && #[trigger] line_alpha(x, height, qx, py) is Some ==> drawn(r@, qx, py),
                    forall|py: int| y_start <= py < y ==> #[trigger] drawn(r@, px as int, py),
                decreases y_end + 1 - y,
            {
                let ghost prev = r@;
                r.push(Pixel { x: px, y, alpha: BODY_ALPHA });
                proof {
                    let last = r@.len() - 1;
                    assert(r@[last].x == px && r@[last].y == y);
                    assert forall|py: int| y_start <= py < y + 1 implies #[trigger] drawn(r@, px as int, py) by {
                        if py == y {
                            assert(r@[last].x == px && r@[last].y == py);
                        } else {
                            lemma_drawn_grows(prev, r@, px as int, py);
                        }
                    }
                    assert forall|qx: int, py: int|
                        qx < x + dx && #[trigger] line_alpha(x, height, qx, py) is Some implies drawn(r@, qx, py) by {
                        lemma_drawn_grows(prev, r@, qx, py);
                    }
                }
                y += 1;
            }
            let ghost mid = r@;
            if y_start > 0 {
                r.push(Pixel { x: px, y: y_start - 1, alpha: CAP_ALPHA });
            }
            if y_end < ICON_SIZE - 1 {
                r.push(Pixel { x: px, y: y_end + 1, alpha: CAP_ALPHA });
            }
            proof {
                assert forall|qx: int, qy: int|
                    qx < x + dx + 1 && #[trigger] line_alpha(x, height, qx, qy) is Some implies drawn(r@, qx, qy) by {
                    if qx < x + dx {
                        lemma_drawn_grows(mid, r@, qx, qy);
                    } else if y_start <= qy <= y_end {
                        assert(drawn(mid, px as int, qy));
                        lemma_drawn_grows(mid, r@, qx, qy);
                    } else if y_start > 0 && qy == y_start - 1 {
                        let k = mid.len() as int;
                        assert(r@[k].x == qx && r@[k].y == qy);
                    } else {
                        let k = r@.len() - 1;
                        assert(r@[k].x == qx && r@[k].y == qy);
                    }
                }
            }
        }
        dx += 1;
    }
    r
}

/// Cycles through animation frames of icon type `I`.
pub struct IconAnimator<I> {
    pub static_icon: I,
    pub animation_frames: Vec<I>,
    pub current_frame: usize,
    pub is_animating: bool,
}

impl<I> IconAnimator<I> {
    /// The frame index stays within the frames, when there are any.
    pub open spec fn wf(&self) -> bool {
        self.animation_frames@.len() == 0 || self.current_frame < self.animation_frames@.len()
    }

    /// A stopped animator over a static icon and its animation frames.
    pub fn new(static_icon: I, animation_frames: Vec<I>) -> (r: IconAnimator<I>)
        ensures
            r.wf(),
            r.static_icon == static_icon,
            r.animation_frames@ == animation_frames@,
            r.current_frame == 0,
            !r.is_animating,
    {
        IconAnimator { static_icon, animation_frames, current_frame: 0, is_animating: false }
    }

    /// The icon shown while no speech plays.
    pub fn static_icon(&self) -> (r: &I)
        ensures
            *r == self.static_icon,
    {
        &self.static_icon
    }

    /// Starts the animation from the first frame.
    pub fn start_animation(&mut self)
        ensures
            final(self).is_animating,
            final(self).current_frame == 0,
            final(self).static_icon == old(self).static_icon,
            final(self).animation_frames@ == old(self).animation_frames@,
            final(self).wf(),
    {
        self.is_animating = true;
        self.current_frame = 0;
    }

    /// Stops the animation and rewinds it.
    pub fn stop_animation(&mut self)
        ensures
            !final(self).is_animating,
            final(self).current_frame == 0,
            final(self).static_icon == old(self).static_icon,
            final(self).animation_frames@ == old(self).animation_frames@,
            final(self).wf(),
    {
        self.is_animating = false;
        self.current_frame = 0;
    }

    /// Whether the animation runs.
    pub fn is_animating(&self) -> (r: bool)
        ensures
            r == self.is_animating,
    {
        self.is_animating
    }

    /// Advances to the next frame, cyclically, and returns it; `None` when
    /// the animation is stopped or has no frames.
    pub fn next_frame(&mut self) -> (r: Option<&I>)
        requires
            old(self).wf(),
        ensures
            final(self).wf(),
            final(self).static_icon == old(self).static_icon,
            final(self).animation_frames@ == old(self).animation_frames@,
            final(self).is_animating == old(self).is_animating,
            r is None <==> !old(self).is_animating || old(self).animation_frames@.len() == 0,
            r is None ==> final(self).current_frame == old(self).current_frame,
            r is Some ==> final(self).current_frame == (old(self).current_frame + 1)
                % (old(self).animation_frames@.len() as int),
            r matches Some(f) ==> *f == old(self).animation_frames@[final(self).current_frame as int],
    {
        let n = self.animation_frames.len();
        if !self.is_animating || n == 0 {
            return None;
        }
        self.current_frame = (self.current_frame + 1) % n;
        Some(&self.animation_frames[self.current_frame])
    }

    /// The icon to show now: the current frame while animating, the static
    /// icon otherwise.
    pub fn current_icon(&self) -> (r: &I)
        requires
            self.wf(),
        ensures
            *r == if self.is_animating && self.animation_frames@.len() > 0 {
                self.animation_frames@[self.current_frame as int]
            } else {
                self.static_icon
            },
    {
        if self.is_animating && self.animation_frames.len() > 0 {
            &self.animation_frames[self.current_frame]
        } else {
            &self.static_icon
        }
    }
}

} // verus!
