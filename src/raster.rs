use vstd::prelude::*;
use crate::command::Rgba8;

verus! {

/// One unit of normalized device coordinates, in the fixed-point steps that
/// vertex positions are given in.
pub const NDC_ONE: i64 = 65536;

/// Largest image side the rasterizer accepts.
pub const MAX_SIDE: u32 = 16384;

/// A vertex position in normalized device coordinates, scaled by `NDC_ONE`:
/// x runs from -1 (left) to 1 (right), y from -1 (top) to 1 (bottom).
#[derive(Clone, Copy, Debug, PartialEq, Eq, Structural)]
pub struct Vertex {
    pub x: i32,
    pub y: i32,
}

#[derive(Clone, Copy, Debug, PartialEq, Eq, Structural)]
pub struct Triangle {
    pub a: Vertex,
    pub b: Vertex,
    pub c: Vertex,
}

/// Twice the signed area of the triangle (p, q, r).
pub open spec fn edge(px: int, py: int, qx: int, qy: int, rx: int, ry: int) -> int {
    (qx - px) * (ry - py) - (qy - py) * (rx - px)
}

/// Centre of pixel column `i` in an image `w` wide, in normalized device
/// coordinates scaled by `NDC_ONE * w`.
pub open spec fn center(i: int, w: int) -> int {
    (2 * i + 1 - w) * NDC_ONE
}

/// The closed triangle `t`, stretched over a `w` by `h` image, holds the point
/// (x, y), both in the units of `center`. A degenerate triangle holds nothing.
pub open spec fn in_triangle(t: Triangle, w: int, h: int, x: int, y: int) -> bool {
    let (ax, ay) = (t.a.x * w, t.a.y * h);
    let (bx, by) = (t.b.x * w, t.b.y * h);
    let (cx, cy) = (t.c.x * w, t.c.y * h);
    let area = edge(ax, ay, bx, by, cx, cy);
    let e0 = edge(ax, ay, bx, by, x, y);
    let e1 = edge(bx, by, cx, cy, x, y);
    let e2 = edge(cx, cy, ax, ay, x, y);
    (area > 0 && e0 >= 0 && e1 >= 0 && e2 >= 0) || (area < 0 && e0 <= 0 && e1 <= 0 && e2 <= 0)
}

/// The centre of pixel (i, j) of a `w` by `h` image lies in `t`.
pub open spec fn covers(t: Triangle, w: int, h: int, i: int, j: int) -> bool {
    in_triangle(t, w, h, center(i, w), center(j, h))
}

/// The colour of pixel (i, j) after a render pass cleared to `clear` draws
/// `t` with the constant colour `fill`.
pub open spec fn shaded(t: Triangle, w: int, h: int, i: int, j: int, clear: Rgba8, fill: Rgba8) -> Rgba8 {
    if covers(t, w, h, i, j) {
        fill
    } else {
        clear
    }
}

/// `px` is the row-major `w` by `h` image of `t` drawn over `clear` in `fill`.
pub open spec fn is_rendering(px: Seq<Rgba8>, t: Triangle, w: int, h: int, clear: Rgba8, fill: Rgba8) -> bool {
    &&& px.len() == w * h
    &&& forall|j: int, i: int|
        0 <= j < h && 0 <= i < w ==> #[trigger] px[j * w + i] == shaded(t, w, h, i, j, clear, fill)
}

proof fn lemma_mul_bound(a: int, b: int, ka: int, kb: int)
    requires
        -ka <= a <= ka,
        -kb <= b <= kb,
    ensures
        -(ka * kb) <= a * b <= ka * kb,
{
    assert(-(ka * kb) <= a * b <= ka * kb) by (nonlinear_arith)
        requires
            -ka <= a <= ka,
            -kb <= b <= kb,
    ;
}

/// A vertex coordinate stretched over an image side `s`.
fn stretch(v: i32, s: u32) -> (r: i64)
    requires
        s <= MAX_SIDE,
    ensures
        r == v * s,
        -0x8000_0000 * 16384 <= r <= 0x8000_0000 * 16384,
{
    proof {
        lemma_mul_bound(v as int, s as int, 0x8000_0000, 16384);
    }
    (v as i64) * (s as i64)
}

/// The centre of pixel `i` on a side of `s` pixels, in the units of `center`.
fn center_of(i: u32, s: u32) -> (r: i64)
    requires
        i < s <= MAX_SIDE,
    ensures
        r == center(i as int, s as int),
        -0x8000_0000 <= r <= 0x8000_0000,
{
    proof {
        assert(-32768 <= 2 * i + 1 - s <= 32768);
        lemma_mul_bound(2 * i + 1 - s, NDC_ONE as int, 32768, 65536);
    }
    (2 * (i as i64) + 1 - (s as i64)) * NDC_ONE
}

/// `edge` on coordinates of the size that `stretch` and `center_of` give.
fn edge_of(px: i64, py: i64, qx: i64, qy: i64, rx: i64, ry: i64) -> (r: i128)
    requires
        -0x10_0000_0000_0000 <= px <= 0x10_0000_0000_0000,
        -0x10_0000_0000_0000 <= py <= 0x10_0000_0000_0000,
        -0x10_0000_0000_0000 <= qx <= 0x10_0000_0000_0000,
        -0x10_0000_0000_0000 <= qy <= 0x10_0000_0000_0000,
        -0x10_0000_0000_0000 <= rx <= 0x10_0000_0000_0000,
        -0x10_0000_0000_0000 <= ry <= 0x10_0000_0000_0000,
    ensures
        r == edge(px as int, py as int, qx as int, qy as int, rx as int, ry as int),
{
    proof {
        let k: int = 0x20_0000_0000_0000int;
        lemma_mul_bound(qx - px, ry - py, k, k);
        lemma_mul_bound(qy - py, rx - px, k, k);
    }
    let d1 = (qx as i128 - px as i128) * (ry as i128 - py as i128);
    let d2 = (qy as i128 - py as i128) * (rx as i128 - px as i128);
    d1 - d2
}

/// Whether the centre of pixel (i, j) lies in `t`.
pub fn pixel_covered(t: &Triangle, w: u32, h: u32, i: u32, j: u32) -> (r: bool)
    requires
        i < w <= MAX_SIDE,
        j < h <= MAX_SIDE,
    ensures
        r == covers(*t, w as int, h as int, i as int, j as int),
{
    let ax = stretch(t.a.x, w);
    let ay = stretch(t.a.y, h);
    let bx = stretch(t.b.x, w);
    let by = stretch(t.b.y, h);
    let cx = stretch(t.c.x, w);
    let cy = stretch(t.c.y, h);
    let x = center_of(i, w);
    let y = center_of(j, h);
    let area = edge_of(ax, ay, bx, by, cx, cy);
    let e0 = edge_of(ax, ay, bx, by, x, y);
    let e1 = edge_of(bx, by, cx, cy, x, y);
    let e2 = edge_of(cx, cy, ax, ay, x, y);
    (area > 0 && e0 >= 0 && e1 >= 0 && e2 >= 0) || (area < 0 && e0 <= 0 && e1 <= 0 && e2 <= 0)
}

/// Runs a render pass over a `w` by `h` colour target: clears it to `clear`
/// and draws `t` with the constant colour `fill`. Pixels come row by row, top
/// row first. `None` where a side is over `MAX_SIDE`.
pub fn render_triangle(t: &Triangle, w: u32, h: u32, clear: Rgba8, fill: Rgba8) -> (r: Option<Vec<Rgba8>>)
    ensures
        r is None <==> (w > MAX_SIDE || h > MAX_SIDE),
        r matches Some(px) ==> is_rendering(px@, *t, w as int, h as int, clear, fill),
{
    if w > MAX_SIDE || h > MAX_SIDE {
        return None;
    }
    let mut px: Vec<Rgba8> = Vec::new();
    let mut j: u32 = 0;
    while j < h
        invariant
            j <= h <= MAX_SIDE,
            w <= MAX_SIDE,
            px@.len() == j * w,
            forall|jj: int, ii: int|
                0 <= jj < j && 0 <= ii < w ==> #[trigger] px@[jj * w + ii] == shaded(
                    *t,
                    w as int,
                    h as int,
                    ii,
                    jj,
                    clear,
                    fill,
                ),
        decreases h - j,
    {
        let mut i: u32 = 0;
        while i < w
            invariant
                j < h <= MAX_SIDE,
                i <= w <= MAX_SIDE,
                px@.len() == j * w + i,
                forall|jj: int, ii: int|
                    0 <= jj < j && 0 <= ii < w ==> #[trigger] px@[jj * w + ii] == shaded(
                        *t,
                        w as int,
                        h as int,
                        ii,
                        jj,
                        clear,
                        fill,
                    ),
                forall|ii: int|
                    0 <= ii < i ==> #[trigger] px@[j * w + ii] == shaded(
                        *t,
                        w as int,
                        h as int,
                        ii,
                        j as int,
                        clear,
                        fill,
                    ),
            decreases w - i,
        {
            let c = if pixel_covered(t, w, h, i, j) {
                fill
            } else {
                clear
            };
            let ghost before = px@;
            px.push(c);
            proof {
                assert forall|jj: int, ii: int| 0 <= jj < j && 0 <= ii < w implies #[trigger] px@[jj
                    * w + ii] == shaded(*t, w as int, h as int, ii, jj, clear, fill) by {
                    assert(jj * w + ii < (jj + 1) * w) by (nonlinear_arith)
                        requires
                            ii < w,
                    ;
                    assert((jj + 1) * w <= j * w) by (nonlinear_arith)
                        requires
                            jj + 1 <= j,
                            w >= 0,
                    ;
                    assert(px@[jj * w + ii] == before[jj * w + ii]);
                }
            }
            i = i + 1;
        }
        proof {
            assert((j + 1) * w == j * w + w) by (nonlinear_arith);
        }
        j = j + 1;
    }
    proof {
        assert(px@.len() == w * h) by (nonlinear_arith)
            requires
                px@.len() == j * w,
                j == h,
        ;
    }
    Some(px)
}

} // verus!

verus! {

/// After a render, a pixel that differs from the clear colour has its centre
/// inside the triangle and holds the fill colour; every pixel whose centre is
/// outside the triangle holds exactly the clear colour.
pub proof fn lemma_render_stays_in_hull(
    px: Seq<Rgba8>,
    t: Triangle,
    w: int,
    h: int,
    clear: Rgba8,
    fill: Rgba8,
    i: int,
    j: int,
)
    requires
        is_rendering(px, t, w, h, clear, fill),
        0 <= i < w,
        0 <= j < h,
    ensures
        px[j * w + i] != clear ==> covers(t, w, h, i, j) && px[j * w + i] == fill,
        !covers(t, w, h, i, j) ==> px[j * w + i] == clear,
{
    assert(px[j * w + i] == shaded(t, w, h, i, j, clear, fill));
}

/// Packs pixels into bytes, four per pixel in the order red, green, blue,
/// alpha, with no padding.
pub fn pack_rgba8(px: &Vec<Rgba8>) -> (r: Vec<u8>)
    requires
        px@.len() * 4 <= usize::MAX,
    ensures
        r@.len() == 4 * px@.len(),
        forall|k: int|
            0 <= k < px@.len() ==> {
                &&& #[trigger] r@[4 * k] == px@[k].r
                &&& r@[4 * k + 1] == px@[k].g
                &&& r@[4 * k + 2] == px@[k].b
                &&& r@[4 * k + 3] == px@[k].a
            },
{
    let mut r: Vec<u8> = Vec::new();
    let mut k: usize = 0;
    while k < px.len()
        invariant
            k <= px@.len(),
            r@.len() == 4 * k,
            forall|m: int|
                0 <= m < k ==> {
                    &&& #[trigger] r@[4 * m] == px@[m].r
                    &&& r@[4 * m + 1] == px@[m].g
                    &&& r@[4 * m + 2] == px@[m].b
                    &&& r@[4 * m + 3] == px@[m].a
                },
        decreases px@.len() - k,
    {
        let p = px[k];
        let ghost before = r@;
        r.push(p.r);
        r.push(p.g);
        r.push(p.b);
        r.push(p.a);
        assert forall|m: int| 0 <= m < k + 1 implies {
            &&& #[trigger] r@[4 * m] == px@[m].r
            &&& r@[4 * m + 1] == px@[m].g
            &&& r@[4 * m + 2] == px@[m].b
            &&& r@[4 * m + 3] == px@[m].a
        } by {
            if m < k {
                assert(r@[4 * m] == before[4 * m]);
                assert(r@[4 * m + 1] == before[4 * m + 1]);
                assert(r@[4 * m + 2] == before[4 * m + 2]);
                assert(r@[4 * m + 3] == before[4 * m + 3]);
            }
        }
        k = k + 1;
    }
    r
}

} // verus!
