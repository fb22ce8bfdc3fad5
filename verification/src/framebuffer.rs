//! The depth-tested, dual-buffer framebuffer and its compositor.
//!
//! A frame accumulates into a lit color buffer and a separate emissive
//! buffer, each write passing a nearest-wins depth test; at frame end the
//! compositor adds the emissive buffer onto the color buffer with per-channel
//! saturation.

use vstd::prelude::*;

verus! {

/// The "infinitely far" depth sentinel: every candidate write is nearer.
pub const DEPTH_FAR: i64 = i64::MAX;

/// One 8-bit channel extracted from a packed `0x00RRGGBB` pixel.
pub open spec fn red_of(c: int) -> int {
    (c / 0x10000) % 0x100
}

pub open spec fn green_of(c: int) -> int {
    (c / 0x100) % 0x100
}

pub open spec fn blue_of(c: int) -> int {
    c % 0x100
}

/// One channel of the additive blend: saturating at 255, never wrapping.
pub open spec fn sat_add_channel(a: int, b: int) -> int {
    if a + b > 255 {
        255
    } else {
        a + b
    }
}

/// The additive blend of a base pixel and an emissive pixel, per channel,
/// clamped at 255.
pub open spec fn blend_add_spec(base: int, emissive: int) -> int {
    crate::color::pack_rgb(
        sat_add_channel(red_of(base), red_of(emissive)),
        sat_add_channel(green_of(base), green_of(emissive)),
        sat_add_channel(blue_of(base), blue_of(emissive)),
    )
}

/// Merge one emissive pixel onto one base pixel: per-channel saturating
/// addition on the packed `0x00RRGGBB` form.
pub fn blend_add(base: u32, emissive: u32) -> (r: u32)
    ensures
        r == blend_add_spec(base as int, emissive as int),
        r < 0x100_0000,
{
    let br: u32 = (base / 0x10000) % 0x100;
    let bg: u32 = (base / 0x100) % 0x100;
    let bb: u32 = base % 0x100;
    let er: u32 = (emissive / 0x10000) % 0x100;
    let eg: u32 = (emissive / 0x100) % 0x100;
    let eb: u32 = emissive % 0x100;
    let r: u32 = if br + er > 255 {
        255
    } else {
        br + er
    };
    let g: u32 = if bg + eg > 255 {
        255
    } else {
        bg + eg
    };
    let b: u32 = if bb + eb > 255 {
        255
    } else {
        bb + eb
    };
    r * 0x10000 + g * 0x100 + b
}

/// The fixed-size render target: a lit color buffer, an emissive buffer and
/// a depth buffer, all `width * height`, row-major.
pub struct Framebuffer {
    pub width: usize,
    pub height: usize,
    pub buffer: Vec<u32>,
    pub emissive_buffer: Vec<u32>,
    pub zbuffer: Vec<i64>,
    pub background_color: u32,
    pub current_color: u32,
}

/// The three buffers cover exactly `width * height` pixels.
pub open spec fn fb_wf(fb: Framebuffer) -> bool {
    &&& fb.buffer@.len() == fb.width * fb.height
    &&& fb.emissive_buffer@.len() == fb.width * fb.height
    &&& fb.zbuffer@.len() == fb.width * fb.height
}

/// The nearest-wins depth test at one pixel: a candidate replaces the stored
/// depth and color exactly when it is strictly nearer.
pub open spec fn depth_write(z: int, c: int, d: int, c_new: int) -> (int, int) {
    if d < z {
        (d, c_new)
    } else {
        (z, c)
    }
}

fn fill_u32(n: usize, v: u32) -> (r: Vec<u32>)
    ensures
        r@.len() == n,
        forall|i: int| 0 <= i < n ==> r@[i] == v,
{
    let mut out: Vec<u32> = Vec::new();
    let mut k: usize = 0;
    while k < n
        invariant
            k <= n,
            out@.len() == k,
            forall|i: int| 0 <= i < k ==> out@[i] == v,
        decreases n - k,
    {
        out.push(v);
        k = k + 1;
    }
    out
}

fn fill_i64(n: usize, v: i64) -> (r: Vec<i64>)
    ensures
        r@.len() == n,
        forall|i: int| 0 <= i < n ==> r@[i] == v,
{
    let mut out: Vec<i64> = Vec::new();
    let mut k: usize = 0;
    while k < n
        invariant
            k <= n,
            out@.len() == k,
            forall|i: int| 0 <= i < k ==> out@[i] == v,
        decreases n - k,
    {
        out.push(v);
        k = k + 1;
    }
    out
}

impl Framebuffer {
    /// Allocate a target of `width * height` pixels, cleared to black, with
    /// every depth at the far sentinel.
    pub fn new(width: usize, height: usize) -> (fb: Framebuffer)
        requires
            width * height <= 0x1000_0000,
        ensures
            fb_wf(fb),
            fb.width == width,
            fb.height == height,
            fb.background_color == 0,
            fb.current_color == 0,
            forall|i: int|
                0 <= i < fb.buffer@.len() ==> fb.buffer@[i] == 0 && fb.emissive_buffer@[i] == 0
                    && fb.zbuffer@[i] == DEPTH_FAR,
    {
        let n: usize = width * height;
        Framebuffer {
            width,
            height,
            buffer: fill_u32(n, 0),
            emissive_buffer: fill_u32(n, 0),
            zbuffer: fill_i64(n, DEPTH_FAR),
            background_color: 0,
            current_color: 0,
        }
    }

    pub fn set_background_color(&mut self, color: u32)
        ensures
            *final(self) == (Framebuffer { background_color: color, ..*old(self) }),
    {
        self.background_color = color;
    }

    pub fn set_current_color(&mut self, color: u32)
        ensures
            *final(self) == (Framebuffer { current_color: color, ..*old(self) }),
    {
        self.current_color = color;
    }

    /// Reset for a new frame: color buffer to the background color, emissive
    /// buffer to zero-black, depth buffer to the far sentinel.
    pub fn clear(&mut self)
        requires
            fb_wf(*old(self)),
        ensures
            fb_wf(*final(self)),
            final(self).width == old(self).width,
            final(self).height == old(self).height,
            final(self).background_color == old(self).background_color,
            final(self).current_color == old(self).current_color,
            forall|i: int|
                0 <= i < final(self).buffer@.len() ==> #[trigger] final(self).buffer@[i]
                    == final(self).background_color && final(self).emissive_buffer@[i] == 0
                    && final(self).zbuffer@[i] == DEPTH_FAR,
    {
        let n: usize = self.buffer.len();
        self.buffer = fill_u32(n, self.background_color);
        self.emissive_buffer = fill_u32(n, 0);
        self.zbuffer = fill_i64(n, DEPTH_FAR);
    }

    /// Bounds-checked, depth-tested write of the current draw color at pixel
    /// `(x, y)`. A strictly nearer candidate updates the depth buffer and
    /// exactly one of the two color buffers, chosen by `is_emissive`; any
    /// other candidate leaves the target untouched.
    pub fn point(&mut self, x: usize, y: usize, depth: i64, is_emissive: bool)
        requires
            fb_wf(*old(self)),
        ensures
            fb_wf(*final(self)),
            final(self).width == old(self).width,
            final(self).height == old(self).height,
            final(self).background_color == old(self).background_color,
            final(self).current_color == old(self).current_color,
            x < old(self).width && y < old(self).height ==> ({
                let idx = y * old(self).width + x;
                let zc = depth_write(
                    old(self).zbuffer@[idx as int] as int,
                    (if is_emissive {
                        old(self).emissive_buffer@[idx as int]
                    } else {
                        old(self).buffer@[idx as int]
                    }) as int,
                    depth as int,
                    old(self).current_color as int,
                );
                &&& final(self).zbuffer@ == old(self).zbuffer@.update(idx as int, zc.0 as i64)
                &&& (if is_emissive {
                    final(self).emissive_buffer@ == old(self).emissive_buffer@.update(
                        idx as int,
                        zc.1 as u32,
                    ) && final(self).buffer@ == old(self).buffer@
                } else {
                    final(self).buffer@ == old(self).buffer@.update(idx as int, zc.1 as u32)
                        && final(self).emissive_buffer@ == old(self).emissive_buffer@
                })
            }),
            !(x < old(self).width && y < old(self).height) ==> *final(self) == *old(self),
    {
        if x < self.width && y < self.height {
            let n: usize = self.zbuffer.len();
            proof {
                assert(y * self.width + x < self.width * self.height) by (nonlinear_arith)
                    requires
                        x < self.width,
                        y < self.height,
                ;
                assert(y * self.width + x < n);
            }
            let idx: usize = y * self.width + x;
            if depth < self.zbuffer[idx] {
                self.zbuffer.set(idx, depth);
                if is_emissive {
                    let c: u32 = self.current_color;
                    self.emissive_buffer.set(idx, c);
                } else {
                    let c: u32 = self.current_color;
                    self.buffer.set(idx, c);
                }
            } else {
                proof {
                    assert(final(self).zbuffer@ =~= old(self).zbuffer@.update(
                        (y * old(self).width + x) as int,
                        old(self).zbuffer@[(y * old(self).width + x) as int],
                    ));
                }
            }
        }
    }
}

/// The compositor: saturating-add every emissive pixel onto the lit pixel
/// beneath it, once per frame, after every body has been drawn.
pub fn post_process(framebuffer: &mut Framebuffer)
    requires
        fb_wf(*old(framebuffer)),
    ensures
        fb_wf(*final(framebuffer)),
        final(framebuffer).width == old(framebuffer).width,
        final(framebuffer).height == old(framebuffer).height,
        final(framebuffer).background_color == old(framebuffer).background_color,
        final(framebuffer).current_color == old(framebuffer).current_color,
        final(framebuffer).emissive_buffer@ == old(framebuffer).emissive_buffer@,
        final(framebuffer).zbuffer@ == old(framebuffer).zbuffer@,
        final(framebuffer).buffer@.len() == old(framebuffer).buffer@.len(),
        forall|i: int|
            0 <= i < final(framebuffer).buffer@.len() ==> final(framebuffer).buffer@[i]
                == blend_add_spec(
                old(framebuffer).buffer@[i] as int,
                old(framebuffer).emissive_buffer@[i] as int,
            ),
{
    let n: usize = framebuffer.buffer.len();
    let mut i: usize = 0;
    while i < n
        invariant
            fb_wf(*framebuffer),
            n == framebuffer.buffer@.len(),
            i <= n,
            framebuffer.width == old(framebuffer).width,
            framebuffer.height == old(framebuffer).height,
            framebuffer.background_color == old(framebuffer).background_color,
            framebuffer.current_color == old(framebuffer).current_color,
            framebuffer.emissive_buffer@ == old(framebuffer).emissive_buffer@,
            framebuffer.zbuffer@ == old(framebuffer).zbuffer@,
            framebuffer.buffer@.len() == old(framebuffer).buffer@.len(),
            forall|k: int|
                i <= k < n ==> framebuffer.buffer@[k] == old(framebuffer).buffer@[k],
            forall|k: int|
                0 <= k < i ==> framebuffer.buffer@[k] == blend_add_spec(
                    old(framebuffer).buffer@[k] as int,
                    old(framebuffer).emissive_buffer@[k] as int,
                ),
        decreases n - i,
    {
        let emissive: u32 = framebuffer.emissive_buffer[i];
        let base: u32 = framebuffer.buffer[i];
        let merged: u32 = blend_add(base, emissive);
        framebuffer.buffer.set(i, merged);
        i = i + 1;
    }
}

} // verus!
