//! Pipeline plumbing between the stages: primitive assembly from the
//! transformed vertex stream, and the depth-tested framebuffer write of a
//! shaded fragment.

use crate::color::{ic, pack_rgb, Color};
use crate::fragment::Fragment;
use crate::framebuffer::{depth_write, fb_wf, Framebuffer};
use crate::vertex::Vertex;
use vstd::prelude::*;

verus! {

/// Group the transformed vertex stream into triangles: consecutive triples,
/// any trailing one or two vertices dropped.
pub fn assemble_triangles(vertices: &Vec<Vertex>) -> (tris: Vec<(Vertex, Vertex, Vertex)>)
    requires
        vertices@.len() + 2 <= usize::MAX,
    ensures
        tris@.len() == vertices@.len() / 3,
        forall|k: int|
            0 <= k < tris@.len() ==> (#[trigger] tris@[k]).0 == vertices@[3 * k]
                && tris@[k].1 == vertices@[3 * k + 1] && tris@[k].2 == vertices@[3 * k + 2],
{
    let n: usize = vertices.len();
    let mut tris: Vec<(Vertex, Vertex, Vertex)> = Vec::new();
    let mut i: usize = 0;
    while i + 2 < n
        invariant
            n == vertices@.len(),
            n + 2 <= usize::MAX,
            i % 3 == 0,
            i <= n,
            tris@.len() == i / 3,
            forall|k: int|
                0 <= k < tris@.len() ==> (#[trigger] tris@[k]).0 == vertices@[3 * k]
                    && tris@[k].1 == vertices@[3 * k + 1] && tris@[k].2 == vertices@[3 * k + 2],
        decreases n - i,
    {
        proof {
            assert(3 * (i / 3) == i) by (nonlinear_arith)
                requires
                    i % 3 == 0,
                    i == 3 * (i / 3) + i % 3,
            ;
            vstd::arithmetic::div_mod::lemma_fundamental_div_mod(i as int, 3);
        }
        let v0: Vertex = vertices[i];
        let v1: Vertex = vertices[i + 1];
        let v2: Vertex = vertices[i + 2];
        tris.push((v0, v1, v2));
        proof {
            vstd::arithmetic::div_mod::lemma_fundamental_div_mod(i as int + 3, 3);
            assert((i + 3) / 3 == i / 3 + 1 && (i + 3) % 3 == 0) by (nonlinear_arith)
                requires
                    i % 3 == 0,
                    i == 3 * (i / 3) + i % 3,
                    i + 3 == 3 * ((i + 3) / 3) + (i + 3) % 3,
                    0 <= (i + 3) % 3 < 3,
                    i / 3 >= 0,
                    (i + 3) / 3 >= 0,
            ;
        }
        i = i + 3;
    }
    proof {
        vstd::arithmetic::div_mod::lemma_fundamental_div_mod(i as int, 3);
        vstd::arithmetic::div_mod::lemma_fundamental_div_mod(n as int, 3);
        assert(i / 3 == n as int / 3) by (nonlinear_arith)
            requires
                i % 3 == 0,
                i as int == 3 * (i as int / 3) + i % 3,
                n as int == 3 * (n as int / 3) + n as int % 3,
                0 <= n as int % 3 < 3,
                i <= n < i + 3,
        ;
    }
    tris
}

/// What the framebuffer write of one shaded fragment does: inside the
/// target, the depth test decides; outside, nothing happens at all.
pub open spec fn draw_effect(
    fb0: Framebuffer,
    fb1: Framebuffer,
    f: Fragment,
    color: Color,
    is_emissive: bool,
) -> bool {
    let x = f.position.x as int;
    let y = f.position.y as int;
    let hex = pack_rgb(ic(color).r, ic(color).g, ic(color).b);
    if 0 <= x < fb0.width && 0 <= y < fb0.height {
        let idx = y * fb0.width + x;
        let zc = depth_write(
            fb0.zbuffer@[idx] as int,
            (if is_emissive {
                fb0.emissive_buffer@[idx]
            } else {
                fb0.buffer@[idx]
            }) as int,
            f.depth as int,
            hex,
        );
        &&& fb1.current_color == hex
        &&& fb1.zbuffer@ == fb0.zbuffer@.update(idx, zc.0 as i64)
        &&& (if is_emissive {
            fb1.emissive_buffer@ == fb0.emissive_buffer@.update(idx, zc.1 as u32)
                && fb1.buffer@ == fb0.buffer@
        } else {
            fb1.buffer@ == fb0.buffer@.update(idx, zc.1 as u32) && fb1.emissive_buffer@
                == fb0.emissive_buffer@
        })
        &&& fb1.width == fb0.width && fb1.height == fb0.height
        &&& fb1.background_color == fb0.background_color
    } else {
        fb1 == fb0
    }
}

/// Write one shaded fragment into the framebuffer: make its color current
/// and perform the bounds-checked, depth-tested point write. A fragment
/// whose pixel lies outside the target changes nothing.
pub fn draw_fragment(
    framebuffer: &mut Framebuffer,
    fragment: &Fragment,
    shaded_color: Color,
    is_emissive: bool,
)
    requires
        fb_wf(*old(framebuffer)),
    ensures
        fb_wf(*final(framebuffer)),
        draw_effect(*old(framebuffer), *final(framebuffer), *fragment, shaded_color, is_emissive),
{
    let x: i64 = fragment.position.x;
    let y: i64 = fragment.position.y;
    if x < 0 || y < 0 {
        return ;
    }
    if (x as u64) < (framebuffer.width as u64) && (y as u64) < (framebuffer.height as u64) {
        let xu: usize = x as usize;
        let yu: usize = y as usize;
        let hex: u32 = shaded_color.to_hex();
        framebuffer.set_current_color(hex);
        framebuffer.point(xu, yu, fragment.depth, is_emissive);
    }
}

} // verus!
