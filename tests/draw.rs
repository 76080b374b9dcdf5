use immediate_mode::draw::{DrawData, Vert};
use immediate_mode::{Color, Vec2};

fn v(x: f32, y: f32) -> Vec2<f32> {
    Vec2 { x, y }
}

fn plain(p: Vec2<f32>, rgba: [u8; 4]) -> Vert<f32> {
    Vert { pos: p, uv: None, rgba }
}

#[test]
fn triangle_on_empty_batch() {
    let mut d = DrawData::<f32>::new();
    d.tri(Color(0x11223344), v(0.0, 0.0), v(0.0, 1.0), v(1.0, 0.0));
    let c = [0x11, 0x22, 0x33, 0x44];
    assert_eq!(d.verts(), &[plain(v(0.0, 0.0), c), plain(v(0.0, 1.0), c), plain(v(1.0, 0.0), c)]);
    assert_eq!(d.indicies(), &[0, 1, 2]);
}

#[test]
fn triangle_after_other_geometry_offsets_indices() {
    let mut d = DrawData::<f32>::new();
    d.rect(Color(0xFFFFFFFF), v(0.0, 0.0), v(1.0, 1.0));
    d.tri(Color(0xFFFFFFFF), v(0.0, 0.0), v(0.0, 1.0), v(1.0, 0.0));
    assert_eq!(d.verts().len(), 7);
    assert_eq!(&d.indicies()[6..], &[4, 5, 6]);
}

#[test]
fn multicolor_triangle_has_a_color_per_vertex() {
    let mut d = DrawData::<f32>::new();
    d.tri_multicolor(
        (v(0.0, 0.0), Color(0xFF0000FF)),
        (v(0.0, 1.0), Color(0x00FF00FF)),
        (v(1.0, 0.0), Color(0x0000FFFF)),
    );
    assert_eq!(d.verts()[0].rgba, [255, 0, 0, 255]);
    assert_eq!(d.verts()[1].rgba, [0, 255, 0, 255]);
    assert_eq!(d.verts()[2].rgba, [0, 0, 255, 255]);
    assert_eq!(d.indicies(), &[0, 1, 2]);
}

#[test]
fn rect_corners_in_either_order() {
    let c = [1, 2, 3, 4];
    for (a, b) in [(v(0.0, 0.0), v(2.0, 3.0)), (v(2.0, 3.0), v(0.0, 0.0))] {
        let mut d = DrawData::<f32>::new();
        d.rect(Color(0x01020304), a, b);
        assert_eq!(
            d.verts(),
            &[plain(v(a.x, a.y), c), plain(v(a.x, b.y), c), plain(v(b.x, a.y), c), plain(v(b.x, b.y), c)]
        );
        assert_eq!(d.indicies(), &[0, 1, 2, 1, 2, 3]);
        let mut slots: Vec<u32> = d.indicies().to_vec();
        slots.sort();
        slots.dedup();
        assert_eq!(slots, vec![0, 1, 2, 3]);
    }
}

#[test]
fn rect_uv_spreads_texture_coordinates() {
    let mut d = DrawData::<f32>::new();
    d.rect_uv(Color(0xFFFFFFFF), (v(0.0, 0.0), v(0.25, 0.5)), (v(4.0, 8.0), v(0.75, 1.0)));
    let uvs: Vec<Option<Vec2<f32>>> = d.verts().iter().map(|x| x.uv).collect();
    assert_eq!(uvs, vec![Some(v(0.25, 0.5)), Some(v(0.25, 1.0)), Some(v(0.75, 0.5)), Some(v(0.75, 1.0))]);
    assert_eq!(d.verts()[1].pos, v(0.0, 8.0));
    assert_eq!(d.indicies(), &[0, 1, 2, 1, 2, 3]);
}

#[test]
fn extend_offsets_relative_indices() {
    let mut d = DrawData::<f32>::new();
    let c = [1, 0, 0, 1];
    let first = [plain(v(0.0, 0.0), c), plain(v(0.0, 0.5), c), plain(v(0.5, 0.0), c)];
    d.extend(&first, &[0, 1, 2]);
    let second = [plain(v(1.0, 0.0), c), plain(v(1.0, 0.5), c), plain(v(0.5, 1.0), c)];
    d.extend(&second, &[2, 1, 0]);
    assert_eq!(d.verts().len(), 6);
    assert_eq!(d.indicies(), &[0, 1, 2, 5, 4, 3]);
}

#[test]
fn extend_matches_rect() {
    let color = Color(0x01020304);
    let mut direct = DrawData::<f32>::new();
    direct.tri(color, v(0.0, 0.0), v(0.0, 1.0), v(1.0, 0.0));
    direct.rect(color, v(0.0, 0.0), v(1.0, 1.0));
    let mut built = DrawData::<f32>::new();
    let c = [1, 2, 3, 4];
    built.extend(&[plain(v(0.0, 0.0), c), plain(v(0.0, 1.0), c), plain(v(1.0, 0.0), c)], &[0, 1, 2]);
    built.extend(
        &[plain(v(0.0, 0.0), c), plain(v(0.0, 1.0), c), plain(v(1.0, 0.0), c), plain(v(1.0, 1.0), c)],
        &[0, 1, 2, 1, 2, 3],
    );
    assert_eq!(direct.verts(), built.verts());
    assert_eq!(direct.indicies(), built.indicies());
}

#[test]
fn polyline_counts() {
    for n in 0..6usize {
        let sides: Vec<(Vec2<f32>, Vec2<f32>)> =
            (0..n).map(|i| (v(i as f32, 1.0), v(i as f32, -1.0))).collect();
        let mut d = DrawData::<f32>::new();
        d.polyline(Color(0xFFFFFFFF), &sides);
        if n < 2 {
            assert_eq!(d.verts().len(), 0);
            assert_eq!(d.indicies().len(), 0);
        } else {
            assert_eq!(d.verts().len(), 2 * n);
            assert_eq!(d.indicies().len(), 6 * (n - 1));
        }
    }
}

#[test]
fn polyline_three_points_layout() {
    let mut d = DrawData::<f32>::new();
    d.tri(Color(0), v(0.0, 0.0), v(0.0, 1.0), v(1.0, 0.0));
    let sides = [(v(0.0, 1.0), v(0.0, -1.0)), (v(1.0, 1.0), v(1.0, -1.0)), (v(2.0, 1.0), v(2.0, -1.0))];
    d.polyline(Color(0xFFFFFFFF), &sides);
    assert_eq!(d.verts().len(), 9);
    assert_eq!(d.verts()[3].pos, v(0.0, 1.0));
    assert_eq!(d.verts()[8].pos, v(2.0, -1.0));
    assert_eq!(&d.indicies()[3..], &[3, 4, 5, 4, 5, 6, 5, 6, 7, 6, 7, 8]);
}

#[test]
fn rect_polyline_counts_and_layout() {
    let quads = [
        (v(0.0, 1.0), v(0.0, -1.0), v(1.0, 1.0), v(1.0, -1.0)),
        (v(1.0, 1.0), v(1.0, -1.0), v(2.0, 1.0), v(2.0, -1.0)),
    ];
    let mut d = DrawData::<f32>::new();
    d.rect_polyline(Color(0xFFFFFFFF), &quads);
    assert_eq!(d.verts().len(), 8);
    assert_eq!(d.indicies(), &[0, 1, 2, 1, 2, 3, 4, 5, 6, 5, 6, 7]);
    assert_eq!(d.verts()[6].pos, v(2.0, 1.0));
    let mut empty = DrawData::<f32>::new();
    empty.rect_polyline(Color(0xFFFFFFFF), &[]);
    assert_eq!(empty.verts().len(), 0);
    assert_eq!(empty.indicies().len(), 0);
}

#[test]
fn clear_empties_the_batch() {
    let mut d = DrawData::<f32>::default();
    d.rect(Color(0), v(0.0, 0.0), v(1.0, 1.0));
    d.clear();
    assert!(d.verts().is_empty());
    assert!(d.indicies().is_empty());
}
