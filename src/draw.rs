//! Low-level interface for drawing UI primitives into one triangle list.
use vstd::prelude::*;

use crate::color::{rgba_of, Color};
use crate::math::Vec2;

verus! {

/// One vertex: position, texture coordinate and RGBA color.
///
/// A vertex without a texture coordinate is drawn fully opaque.
#[derive(Clone, Copy, Debug, PartialEq)]
pub struct Vert<S> {
    pub pos: Vec2<S>,
    pub uv: Option<Vec2<S>>,
    pub rgba: [u8; 4],
}

/// An untextured vertex at `p` with the bytes of `color`.
pub open spec fn plain<S>(p: Vec2<S>, color: Color) -> Vert<S> {
    Vert { pos: p, uv: None, rgba: rgba_of(color) }
}

/// A textured vertex at `p` with texture coordinate `uv`.
pub open spec fn textured<S>(p: Vec2<S>, uv: Vec2<S>, color: Color) -> Vert<S> {
    Vert { pos: p, uv: Some(uv), rgba: rgba_of(color) }
}

/// The largest vertex count a batch may reach: every index fits in `u32`.
pub open spec fn max_verts() -> nat {
    u32::MAX as nat
}

/// The two triangles of a quad whose first vertex sits at `b`:
/// `(b, b+1, b+2)` and `(b+1, b+2, b+3)`.
pub open spec fn quad_pattern(b: int) -> Seq<u32> {
    seq![b as u32, (b + 1) as u32, (b + 2) as u32, (b + 1) as u32, (b + 2) as u32, (b + 3) as u32]
}

/// The indices of `n` quads, the `j`-th starting at vertex `k + stride * j`.
pub open spec fn strip(k: int, stride: int, n: nat) -> Seq<u32>
    decreases n,
{
    if n == 0 {
        Seq::empty()
    } else {
        strip(k, stride, (n - 1) as nat) + quad_pattern(k + stride * (n - 1))
    }
}

/// Indices shifted by `k`, as `extend` appends them.
pub open spec fn shifted(idx: Seq<u32>, k: int) -> Seq<u32> {
    Seq::new(idx.len(), |i: int| (idx[i] + k) as u32)
}

/// The vertices of a ribbon: the two sides of each point, in order.
pub open spec fn pair_verts<S>(sides: Seq<(Vec2<S>, Vec2<S>)>, color: Color) -> Seq<Vert<S>>
    decreases sides.len(),
{
    if sides.len() == 0 {
        Seq::empty()
    } else {
        pair_verts(sides.drop_last(), color) + seq![
            plain(sides.last().0, color),
            plain(sides.last().1, color),
        ]
    }
}

/// The vertices of independent quads, four per quad, in order.
pub open spec fn quad_verts<S>(quads: Seq<(Vec2<S>, Vec2<S>, Vec2<S>, Vec2<S>)>, color: Color) -> Seq<Vert<S>>
    decreases quads.len(),
{
    if quads.len() == 0 {
        Seq::empty()
    } else {
        quad_verts(quads.drop_last(), color) + seq![
            plain(quads.last().0, color),
            plain(quads.last().1, color),
            plain(quads.last().2, color),
            plain(quads.last().3, color),
        ]
    }
}

/// Every index of `idx` names one of the first `n` vertices.
pub open spec fn indices_below(idx: Seq<u32>, n: nat) -> bool {
    forall|i: int| 0 <= i < idx.len() ==> (#[trigger] idx[i]) < n
}

/// Geometry for one frame: vertices and a triangle list over them.
#[derive(Clone, Debug)]
pub struct DrawData<S> {
    verts: Vec<Vert<S>>,
    indicies: Vec<u32>,
}

impl<S> View for DrawData<S> {
    type V = (Seq<Vert<S>>, Seq<u32>);

    closed spec fn view(&self) -> (Seq<Vert<S>>, Seq<u32>) {
        (self.verts@, self.indicies@)
    }
}

impl<S: Copy> DrawData<S> {
    /// Every index names an existing vertex, indices come in whole
    /// triangles, and the vertex count stays within the `u32` range.
    pub open spec fn wf(&self) -> bool {
        &&& self@.0.len() <= max_verts()
        &&& self@.1.len() % 3 == 0
        &&& indices_below(self@.1, self@.0.len())
    }

    /// Room is left for `n` more vertices.
    pub open spec fn has_room(&self, n: nat) -> bool {
        self@.0.len() + n <= max_verts()
    }

    /// An empty batch.
    pub fn new() -> (r: DrawData<S>)
        ensures
            r.wf(),
            r@.0.len() == 0,
            r@.1.len() == 0,
    {
        DrawData { verts: Vec::new(), indicies: Vec::new() }
    }

    /// Empty the batch for the next frame.
    pub fn clear(&mut self)
        ensures
            final(self).wf(),
            final(self)@.0.len() == 0,
            final(self)@.1.len() == 0,
    {
        self.verts.clear();
        self.indicies.clear();
    }

    /// The vertices so far.
    pub fn verts(&self) -> (r: &[Vert<S>])
        ensures
            r@ == self@.0,
    {
        self.verts.as_slice()
    }

    /// The indices so far; every three form one triangle.
    pub fn indicies(&self) -> (r: &[u32])
        ensures
            r@ == self@.1,
    {
        self.indicies.as_slice()
    }

    /// Append the two triangles of a quad whose first vertex is `b`.
    fn push_quad_indices(&mut self, b: u32)
        requires
            b as int + 3 <= u32::MAX,
        ensures
            final(self).verts@ == old(self).verts@,
            final(self).indicies@ == old(self).indicies@ + quad_pattern(b as int),
    {
        self.indicies.push(b);
        self.indicies.push(b + 1);
        self.indicies.push(b + 2);
        self.indicies.push(b + 1);
        self.indicies.push(b + 2);
        self.indicies.push(b + 3);
        assert(self.indicies@ =~= old(self).indicies@ + quad_pattern(b as int));
    }

    /// Append four vertices and the two triangles that cover them.
    fn push_quad(&mut self, v0: Vert<S>, v1: Vert<S>, v2: Vert<S>, v3: Vert<S>)
        requires
            old(self).wf(),
            old(self).has_room(4),
        ensures
            final(self).wf(),
            final(self)@.0 == old(self)@.0 + seq![v0, v1, v2, v3],
            final(self)@.1 == old(self)@.1 + quad_pattern(old(self)@.0.len() as int),
    {
        let b = self.verts.len() as u32;
        self.verts.push(v0);
        self.verts.push(v1);
        self.verts.push(v2);
        self.verts.push(v3);
        self.push_quad_indices(b);
        assert(self.verts@ =~= old(self).verts@ + seq![v0, v1, v2, v3]);
        proof {
            lemma_quad_below(b as int);
            lemma_append_below(old(self)@.1, quad_pattern(b as int), self@.0.len());
        }
    }

    /// Add vertices as they are, with indices relative to them: index `i`
    /// of `indicies` becomes `i` plus the vertex count before the call.
    pub fn extend(&mut self, verts: &[Vert<S>], indicies: &[u32])
        requires
            old(self).wf(),
            old(self).has_room(verts@.len()),
            indicies@.len() % 3 == 0,
            indices_below(indicies@, verts@.len()),
        ensures
            final(self).wf(),
            final(self)@.0 == old(self)@.0 + verts@,
            final(self)@.1 == old(self)@.1 + shifted(indicies@, old(self)@.0.len() as int),
    {
        let base = self.verts.len() as u32;
        let mut i: usize = 0;
        while i < verts.len()
            invariant
                i <= verts@.len(),
                self.indicies@ == old(self).indicies@,
                self.verts@ == old(self).verts@ + verts@.take(i as int),
            decreases verts@.len() - i,
        {
            self.verts.push(verts[i]);
            i = i + 1;
            assert(self.verts@ =~= old(self).verts@ + verts@.take(i as int));
        }
        assert(verts@.take(i as int) =~= verts@);
        let mut j: usize = 0;
        while j < indicies.len()
            invariant
                j <= indicies@.len(),
                base as int == old(self)@.0.len(),
                self.verts@ == old(self).verts@ + verts@,
                indices_below(indicies@, verts@.len()),
                old(self).has_room(verts@.len()),
                self.indicies@ == old(self).indicies@ + shifted(indicies@.take(j as int), base as int),
            decreases indicies@.len() - j,
        {
            assert(indicies@[j as int] < verts@.len());
            self.indicies.push(base + indicies[j]);
            j = j + 1;
            assert(self.indicies@ =~= old(self).indicies@ + shifted(indicies@.take(j as int), base as int));
        }
        assert(indicies@.take(j as int) =~= indicies@);
        proof {
            lemma_shifted_below(indicies@, verts@.len(), base as int);
            lemma_append_below(old(self)@.1, shifted(indicies@, base as int), self@.0.len());
        }
    }

    /// A triangle of one color, in the given vertex order.
    pub fn tri(&mut self, color: Color, a: Vec2<S>, b: Vec2<S>, c: Vec2<S>)
        requires
            old(self).wf(),
            old(self).has_room(3),
        ensures
            final(self).wf(),
            final(self)@.0 == old(self)@.0 + seq![plain(a, color), plain(b, color), plain(c, color)],
            final(self)@.1 == old(self)@.1 + shifted(seq![0u32, 1u32, 2u32], old(self)@.0.len() as int),
    {
        let rgba = <[u8; 4] as From<Color>>::from(color);
        let base = self.verts.len() as u32;
        self.verts.push(Vert { pos: a, uv: None, rgba });
        self.verts.push(Vert { pos: b, uv: None, rgba });
        self.verts.push(Vert { pos: c, uv: None, rgba });
        self.indicies.push(base);
        self.indicies.push(base + 1);
        self.indicies.push(base + 2);
        proof { lemma_tri_appended(old(self)@.1, self@.1, base as int, self@.0.len()); }
        assert(self.verts@ =~= old(self)@.0 + seq![plain(a, color), plain(b, color), plain(c, color)]);
    }

    /// A triangle with a color for each vertex.
    pub fn tri_multicolor(&mut self, a: (Vec2<S>, Color), b: (Vec2<S>, Color), c: (Vec2<S>, Color))
        requires
            old(self).wf(),
            old(self).has_room(3),
        ensures
            final(self).wf(),
            final(self)@.0 == old(self)@.0 + seq![plain(a.0, a.1), plain(b.0, b.1), plain(c.0, c.1)],
            final(self)@.1 == old(self)@.1 + shifted(seq![0u32, 1u32, 2u32], old(self)@.0.len() as int),
    {
        let base = self.verts.len() as u32;
        self.verts.push(Vert { pos: a.0, uv: None, rgba: <[u8; 4] as From<Color>>::from(a.1) });
        self.verts.push(Vert { pos: b.0, uv: None, rgba: <[u8; 4] as From<Color>>::from(b.1) });
        self.verts.push(Vert { pos: c.0, uv: None, rgba: <[u8; 4] as From<Color>>::from(c.1) });
        self.indicies.push(base);
        self.indicies.push(base + 1);
        self.indicies.push(base + 2);
        proof { lemma_tri_appended(old(self)@.1, self@.1, base as int, self@.0.len()); }
        assert(self.verts@ =~= old(self)@.0 + seq![plain(a.0, a.1), plain(b.0, b.1), plain(c.0, c.1)]);
    }

    /// An axis-aligned rectangle between two opposite corners, in either
    /// order: vertices at `(a.x, a.y)`, `(a.x, b.y)`, `(b.x, a.y)`, `(b.x, b.y)`.
    pub fn rect(&mut self, color: Color, a: Vec2<S>, b: Vec2<S>)
        requires
            old(self).wf(),
            old(self).has_room(4),
        ensures
            final(self).wf(),
            final(self)@.0 == old(self)@.0 + rect_verts(color, a, b),
            final(self)@.1 == old(self)@.1 + quad_pattern(old(self)@.0.len() as int),
    {
        let rgba = <[u8; 4] as From<Color>>::from(color);
        self.push_quad(
            Vert { pos: Vec2 { x: a.x, y: a.y }, uv: None, rgba },
            Vert { pos: Vec2 { x: a.x, y: b.y }, uv: None, rgba },
            Vert { pos: Vec2 { x: b.x, y: a.y }, uv: None, rgba },
            Vert { pos: Vec2 { x: b.x, y: b.y }, uv: None, rgba },
        );
    }

    /// A rectangle as `rect`, with texture coordinates spread the same way
    /// between the two corners' coordinates.
    pub fn rect_uv(&mut self, color: Color, corner_a: (Vec2<S>, Vec2<S>), corner_b: (Vec2<S>, Vec2<S>))
        requires
            old(self).wf(),
            old(self).has_room(4),
        ensures
            final(self).wf(),
            final(self)@.0 == old(self)@.0 + rect_uv_verts(color, corner_a, corner_b),
            final(self)@.1 == old(self)@.1 + quad_pattern(old(self)@.0.len() as int),
    {
        let rgba = <[u8; 4] as From<Color>>::from(color);
        let (a, uv_a) = corner_a;
        let (b, uv_b) = corner_b;
        self.push_quad(
            Vert { pos: Vec2 { x: a.x, y: a.y }, uv: Some(Vec2 { x: uv_a.x, y: uv_a.y }), rgba },
            Vert { pos: Vec2 { x: a.x, y: b.y }, uv: Some(Vec2 { x: uv_a.x, y: uv_b.y }), rgba },
            Vert { pos: Vec2 { x: b.x, y: a.y }, uv: Some(Vec2 { x: uv_b.x, y: uv_a.y }), rgba },
            Vert { pos: Vec2 { x: b.x, y: b.y }, uv: Some(Vec2 { x: uv_b.x, y: uv_b.y }), rgba },
        );
    }

    /// A connected line given, for each of its points, the two vertices
    /// where the ribbon's edges cross that point (on the miter line at a
    /// joint). Two vertices per point and two triangles per segment; nothing
    /// for fewer than two points.
    pub fn polyline(&mut self, color: Color, sides: &[(Vec2<S>, Vec2<S>)])
        requires
            old(self).wf(),
            old(self).has_room(2 * sides@.len()),
        ensures
            final(self).wf(),
            sides@.len() < 2 ==> final(self)@ == old(self)@,
            sides@.len() >= 2 ==> final(self)@.0 == old(self)@.0 + pair_verts(sides@, color),
            sides@.len() >= 2 ==> final(self)@.1 == old(self)@.1 + strip(
                old(self)@.0.len() as int,
                2,
                (sides@.len() - 1) as nat,
            ),
    {
        if sides.len() < 2 {
            return;
        }
        let rgba = <[u8; 4] as From<Color>>::from(color);
        let k = self.verts.len() as u32;
        self.verts.push(Vert { pos: sides[0].0, uv: None, rgba });
        self.verts.push(Vert { pos: sides[0].1, uv: None, rgba });
        proof {
            lemma_pair_verts_step(sides@, 0, color);
            assert(sides@.take(0) =~= Seq::<(Vec2<S>, Vec2<S>)>::empty());
            assert(self.verts@ =~= old(self).verts@ + pair_verts(sides@.take(1), color));
        }
        let mut j: usize = 1;
        while j < sides.len()
            invariant
                1 <= j <= sides@.len(),
                k as int == old(self)@.0.len(),
                rgba == rgba_of(color),
                old(self).has_room(2 * sides@.len()),
                self.verts@ == old(self).verts@ + pair_verts(sides@.take(j as int), color),
                self.indicies@ == old(self).indicies@ + strip(k as int, 2, (j - 1) as nat),
            decreases sides@.len() - j,
        {
            proof { lemma_pair_verts_len(sides@.take(j as int), color); }
            self.verts.push(Vert { pos: sides[j].0, uv: None, rgba });
            self.verts.push(Vert { pos: sides[j].1, uv: None, rgba });
            proof {
                lemma_pair_verts_step(sides@, j as int, color);
                assert(self.verts@ =~= old(self).verts@ + pair_verts(sides@.take(j + 1), color));
            }
            self.push_quad_indices(k + 2 * ((j - 1) as u32));
            j = j + 1;
        }
        proof {
            assert(sides@.take(j as int) =~= sides@);
            lemma_pair_verts_len(sides@, color);
            let n = (sides@.len() - 1) as nat;
            lemma_strip_below(k as int, 2, n);
            lemma_strip_len(k as int, 2, n);
            lemma_append_below(old(self)@.1, strip(k as int, 2, n), self@.0.len());
        }
    }

    /// A line drawn as one independent rectangle per segment, each given by
    /// its four corners; no joining between segments. Nothing for no segment.
    pub fn rect_polyline(&mut self, color: Color, quads: &[(Vec2<S>, Vec2<S>, Vec2<S>, Vec2<S>)])
        requires
            old(self).wf(),
            old(self).has_room(4 * quads@.len()),
        ensures
            final(self).wf(),
            final(self)@.0 == old(self)@.0 + quad_verts(quads@, color),
            final(self)@.1 == old(self)@.1 + strip(old(self)@.0.len() as int, 4, quads@.len()),
    {
        let rgba = <[u8; 4] as From<Color>>::from(color);
        let ghost k = old(self)@.0.len() as int;
        let mut j: usize = 0;
        while j < quads.len()
            invariant
                j <= quads@.len(),
                k == old(self)@.0.len(),
                rgba == rgba_of(color),
                self.wf(),
                old(self).has_room(4 * quads@.len()),
                self@.0 == old(self)@.0 + quad_verts(quads@.take(j as int), color),
                self@.1 == old(self)@.1 + strip(k, 4, j as nat),
            decreases quads@.len() - j,
        {
            proof {
                lemma_quad_verts_len(quads@.take(j as int), color);
                assert(self@.0.len() == k + 4 * j);
            }
            let q = quads[j];
            self.push_quad(
                Vert { pos: q.0, uv: None, rgba },
                Vert { pos: q.1, uv: None, rgba },
                Vert { pos: q.2, uv: None, rgba },
                Vert { pos: q.3, uv: None, rgba },
            );
            proof {
                lemma_quad_verts_step(quads@, j as int, color);
                assert(self@.0 =~= old(self)@.0 + quad_verts(quads@.take(j + 1), color));
            }
            j = j + 1;
        }
        assert(quads@.take(j as int) =~= quads@);
    }
}

impl<S: Copy> Default for DrawData<S> {
    fn default() -> (r: DrawData<S>)
        ensures
            r.wf(),
            r@.0.len() == 0,
            r@.1.len() == 0,
    {
        DrawData::new()
    }
}

/// The four corners of the box between `a` and `b`, as `rect` lays them out.
pub open spec fn rect_verts<S>(color: Color, a: Vec2<S>, b: Vec2<S>) -> Seq<Vert<S>> {
    seq![
        plain(Vec2 { x: a.x, y: a.y }, color),
        plain(Vec2 { x: a.x, y: b.y }, color),
        plain(Vec2 { x: b.x, y: a.y }, color),
        plain(Vec2 { x: b.x, y: b.y }, color),
    ]
}

/// The four textured corners, as `rect_uv` lays them out.
pub open spec fn rect_uv_verts<S>(color: Color, ca: (Vec2<S>, Vec2<S>), cb: (Vec2<S>, Vec2<S>)) -> Seq<Vert<S>> {
    seq![
        textured(Vec2 { x: ca.0.x, y: ca.0.y }, Vec2 { x: ca.1.x, y: ca.1.y }, color),
        textured(Vec2 { x: ca.0.x, y: cb.0.y }, Vec2 { x: ca.1.x, y: cb.1.y }, color),
        textured(Vec2 { x: cb.0.x, y: ca.0.y }, Vec2 { x: cb.1.x, y: ca.1.y }, color),
        textured(Vec2 { x: cb.0.x, y: cb.0.y }, Vec2 { x: cb.1.x, y: cb.1.y }, color),
    ]
}

proof fn lemma_quad_below(b: int)
    requires
        0 <= b,
        b + 3 <= u32::MAX,
    ensures
        indices_below(quad_pattern(b), (b + 4) as nat),
        quad_pattern(b).len() == 6,
{
}

proof fn lemma_append_below(s: Seq<u32>, t: Seq<u32>, n: nat)
    requires
        indices_below(s, n),
        indices_below(t, n),
    ensures
        indices_below(s + t, n),
{
    assert forall|i: int| 0 <= i < (s + t).len() implies #[trigger] (s + t)[i] < n by {
        if i >= s.len() {
            assert((s + t)[i] == t[i - s.len()]);
        }
    }
}

proof fn lemma_below_mono(s: Seq<u32>, n: nat, m: nat)
    requires
        indices_below(s, n),
        n <= m,
    ensures
        indices_below(s, m),
{
}

proof fn lemma_shifted_below(idx: Seq<u32>, n: nat, k: int)
    requires
        indices_below(idx, n),
        0 <= k,
        k + n <= u32::MAX,
    ensures
        indices_below(shifted(idx, k), (k + n) as nat),
        shifted(idx, k).len() == idx.len(),
{
    assert forall|i: int| 0 <= i < idx.len() implies #[trigger] shifted(idx, k)[i] < k + n by {
        assert(idx[i] < n);
    }
}

proof fn lemma_tri_appended(before: Seq<u32>, after: Seq<u32>, b: int, n: nat)
    requires
        0 <= b,
        b + 3 == n,
        n <= u32::MAX,
        after == before.push(b as u32).push((b + 1) as u32).push((b + 2) as u32),
        indices_below(before, b as nat),
        before.len() % 3 == 0,
    ensures
        after == before + shifted(seq![0u32, 1u32, 2u32], b),
        indices_below(after, n),
        after.len() % 3 == 0,
{
    assert(after =~= before + shifted(seq![0u32, 1u32, 2u32], b));
    lemma_below_mono(before, b as nat, n);
    assert forall|i: int| 0 <= i < after.len() implies #[trigger] after[i] < n by {
        if i < before.len() {
            assert(after[i] == before[i]);
        }
    }
}

/// Pushing the sides of point `j` extends the ribbon's vertices by two.
proof fn lemma_pair_verts_step<S>(sides: Seq<(Vec2<S>, Vec2<S>)>, j: int, color: Color)
    requires
        0 <= j < sides.len(),
    ensures
        pair_verts(sides.take(j + 1), color) == pair_verts(sides.take(j), color) + seq![
            plain(sides[j].0, color),
            plain(sides[j].1, color),
        ],
{
    assert(sides.take(j + 1).drop_last() =~= sides.take(j));
}

/// A ribbon has two vertices per point.
pub proof fn lemma_pair_verts_len<S>(sides: Seq<(Vec2<S>, Vec2<S>)>, color: Color)
    ensures
        pair_verts(sides, color).len() == 2 * sides.len(),
    decreases sides.len(),
{
    if sides.len() > 0 {
        lemma_pair_verts_len(sides.drop_last(), color);
    }
}

/// Pushing quad `j` extends the vertices of the quads by four.
proof fn lemma_quad_verts_step<S>(quads: Seq<(Vec2<S>, Vec2<S>, Vec2<S>, Vec2<S>)>, j: int, color: Color)
    requires
        0 <= j < quads.len(),
    ensures
        quad_verts(quads.take(j + 1), color) == quad_verts(quads.take(j), color) + seq![
            plain(quads[j].0, color),
            plain(quads[j].1, color),
            plain(quads[j].2, color),
            plain(quads[j].3, color),
        ],
{
    assert(quads.take(j + 1).drop_last() =~= quads.take(j));
}

/// Independent quads have four vertices each.
pub proof fn lemma_quad_verts_len<S>(quads: Seq<(Vec2<S>, Vec2<S>, Vec2<S>, Vec2<S>)>, color: Color)
    ensures
        quad_verts(quads, color).len() == 4 * quads.len(),
    decreases quads.len(),
{
    if quads.len() > 0 {
        lemma_quad_verts_len(quads.drop_last(), color);
    }
}

/// A strip of `n` quads has six indices per quad.
pub proof fn lemma_strip_len(k: int, stride: int, n: nat)
    ensures
        strip(k, stride, n).len() == 6 * n,
    decreases n,
{
    if n > 0 {
        lemma_strip_len(k, stride, (n - 1) as nat);
    }
}

/// Every index of a strip names a vertex before the end of its last quad.
proof fn lemma_strip_below(k: int, stride: int, n: nat)
    requires
        0 <= k,
        0 <= stride,
        1 <= n,
        k + stride * (n - 1) + 3 <= u32::MAX,
    ensures
        indices_below(strip(k, stride, n), (k + stride * (n - 1) + 4) as nat),
    decreases n,
{
    let b = k + stride * (n - 1);
    assert(0 <= stride * (n - 1)) by (nonlinear_arith)
        requires
            0 <= stride,
            1 <= n,
    ;
    lemma_quad_below(b);
    if n > 1 {
        assert(stride * (n - 2) <= stride * (n - 1)) by (nonlinear_arith)
            requires
                0 <= stride,
                2 <= n,
        ;
        lemma_strip_below(k, stride, (n - 1) as nat);
        lemma_below_mono(strip(k, stride, (n - 1) as nat), (k + stride * (n - 2) + 4) as nat, (b + 4) as nat);
        lemma_append_below(strip(k, stride, (n - 1) as nat), quad_pattern(b), (b + 4) as nat);
    } else {
        assert(stride * (n - 1) == 0) by (nonlinear_arith)
            requires
                n == 1,
        ;
        assert(strip(k, stride, 0) =~= Seq::<u32>::empty());
        assert(strip(k, stride, n) =~= quad_pattern(b));
    }
}

/// `p` is one of the four corners of the box between `a` and `b`.
pub open spec fn is_box_corner<S>(a: Vec2<S>, b: Vec2<S>, p: Vec2<S>) -> bool {
    (p.x == a.x || p.x == b.x) && (p.y == a.y || p.y == b.y)
}

/// A rectangle, whatever the order of its corners, is four vertices at the
/// four corners of the box between them and six indices naming exactly
/// those four slots: two triangles that share the diagonal from
/// `(a.x, b.y)` to `(b.x, a.y)`, one on each side of it, so that together
/// they cover the box.
pub proof fn lemma_rect_covers_box<S>(color: Color, a: Vec2<S>, b: Vec2<S>, k: int)
    requires
        0 <= k,
        k + 3 <= u32::MAX,
    ensures
        rect_verts(color, a, b).len() == 4,
        quad_pattern(k).len() == 6,
        quad_pattern(k).to_set() == set![k as u32, (k + 1) as u32, (k + 2) as u32, (k + 3) as u32],
        quad_pattern(k).subrange(0, 3) == seq![k as u32, (k + 1) as u32, (k + 2) as u32],
        quad_pattern(k).subrange(3, 6) == seq![(k + 1) as u32, (k + 2) as u32, (k + 3) as u32],
        rect_verts(color, a, b)[1].pos == (Vec2 { x: a.x, y: b.y }),
        rect_verts(color, a, b)[2].pos == (Vec2 { x: b.x, y: a.y }),
        rect_verts(color, a, b)[0].pos == (Vec2 { x: a.x, y: a.y }),
        rect_verts(color, a, b)[3].pos == (Vec2 { x: b.x, y: b.y }),
        forall|p: Vec2<S>|
            #[trigger] is_box_corner(a, b, p) <==> exists|i: int|
                0 <= i < 4 && #[trigger] rect_verts(color, a, b)[i].pos == p,
{
    let q = quad_pattern(k);
    assert(q.subrange(0, 3) =~= seq![k as u32, (k + 1) as u32, (k + 2) as u32]);
    assert(q.subrange(3, 6) =~= seq![(k + 1) as u32, (k + 2) as u32, (k + 3) as u32]);
    let e = set![k as u32, (k + 1) as u32, (k + 2) as u32, (k + 3) as u32];
    assert forall|v: u32| q.to_set().contains(v) <==> e.contains(v) by {
        if e.contains(v) {
            if v == k as u32 {
                assert(q[0] == v);
            } else if v == (k + 1) as u32 {
                assert(q[1] == v);
            } else if v == (k + 2) as u32 {
                assert(q[2] == v);
            } else {
                assert(q[5] == v);
            }
        }
    }
    assert(q.to_set() =~= e);
    let r = rect_verts(color, a, b);
    assert forall|p: Vec2<S>| #[trigger] is_box_corner(a, b, p) <==> exists|i: int|
        0 <= i < 4 && #[trigger] r[i].pos == p by {
        if is_box_corner(a, b, p) {
            if p.x == a.x && p.y == a.y {
                assert(r[0].pos == p);
            } else if p.x == a.x {
                assert(r[1].pos == p);
            } else if p.y == a.y {
                assert(r[2].pos == p);
            } else {
                assert(r[3].pos == p);
            }
        }
    }
}

/// A polyline through `n` points, `n >= 2`, has `2n` vertices and
/// `6(n - 1)` indices; with fewer points `polyline` appends nothing.
pub proof fn lemma_polyline_counts<S>(sides: Seq<(Vec2<S>, Vec2<S>)>, color: Color, k: int)
    requires
        sides.len() >= 2,
    ensures
        pair_verts(sides, color).len() == 2 * sides.len(),
        strip(k, 2, (sides.len() - 1) as nat).len() == 6 * (sides.len() - 1),
{
    lemma_pair_verts_len(sides, color);
    lemma_strip_len(k, 2, (sides.len() - 1) as nat);
}

/// A line of `n - 1` independent segment rectangles through `n` points
/// has `4(n - 1)` vertices and `6(n - 1)` indices.
pub proof fn lemma_rect_polyline_counts<S>(
    quads: Seq<(Vec2<S>, Vec2<S>, Vec2<S>, Vec2<S>)>,
    color: Color,
    k: int,
)
    ensures
        quad_verts(quads, color).len() == 4 * quads.len(),
        strip(k, 4, quads.len()).len() == 6 * quads.len(),
{
    lemma_quad_verts_len(quads, color);
    lemma_strip_len(k, 4, quads.len());
}

/// Indices given to `extend` stay relative: extending by `(v1, i1)` and
/// then by `(v2, i2)` from `k` vertices appends the same indices as one
/// `extend` by `v1 + v2` with `i2` shifted past `v1`.
pub proof fn lemma_extend_twice(i1: Seq<u32>, n1: nat, i2: Seq<u32>, n2: nat, k: nat)
    requires
        indices_below(i1, n1),
        indices_below(i2, n2),
        k + n1 + n2 <= u32::MAX,
    ensures
        shifted(i1, k as int) + shifted(i2, (k + n1) as int) == shifted(i1 + shifted(i2, n1 as int), k as int),
        indices_below(i1 + shifted(i2, n1 as int), n1 + n2),
{
    lemma_shifted_below(i2, n2, n1 as int);
    lemma_below_mono(i1, n1, n1 + n2);
    lemma_append_below(i1, shifted(i2, n1 as int), n1 + n2);
    let lhs = shifted(i1, k as int) + shifted(i2, (k + n1) as int);
    let rhs = shifted(i1 + shifted(i2, n1 as int), k as int);
    assert forall|i: int| 0 <= i < lhs.len() implies lhs[i] == rhs[i] by {
        if i >= i1.len() {
            assert(i2[i - i1.len()] < n2);
        } else {
            assert(i1[i] < n1);
        }
    }
    assert(lhs =~= rhs);
}

/// `extend` builds what the primitives build: a triangle's indices
/// `0, 1, 2` and a quad's pattern from `0` land where `tri` and `rect`
/// put theirs.
pub proof fn lemma_extend_matches_primitives(k: nat)
    requires
        k + 3 <= u32::MAX,
    ensures
        shifted(seq![0u32, 1u32, 2u32], k as int) == seq![k as u32, (k + 1) as u32, (k + 2) as u32],
        shifted(quad_pattern(0), k as int) == quad_pattern(k as int),
{
    assert(shifted(seq![0u32, 1u32, 2u32], k as int) =~= seq![k as u32, (k + 1) as u32, (k + 2) as u32]);
    assert(shifted(quad_pattern(0), k as int) =~= quad_pattern(k as int));
}

} // verus!
