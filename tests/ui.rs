use immediate_mode::draw::Vert;
use immediate_mode::{Color, Context, Input, Vec2, UI};

fn at(x: f32, y: f32) -> Option<Vec2<f32>> {
    Some(Vec2 { x, y })
}

// The region of the tests is the open box (0, 0) .. (10, 10).
fn inside(ui: &UI<f32>) -> bool {
    match ui.mouse_pos() {
        Some(p) => 0.0 < p.x && p.x < 10.0 && 0.0 < p.y && p.y < 10.0,
        None => false,
    }
}

fn query(ui: &mut UI<f32>, id: u64) -> immediate_mode::Event<f32> {
    let hit = inside(ui);
    ui.event(id, hit)
}

#[test]
fn press_inside_then_move_off_while_down() {
    let x = 7;
    let mut ui = UI::new(Input::new(at(5.0, 5.0), true));
    let e = query(&mut ui, x);
    assert!(!e.is_held);
    assert!(ui.is_held(x));
    assert_eq!(e.mouse_pos, at(5.0, 5.0));

    ui.finish_frame();
    ui.next_frame(Input::new(at(20.0, 5.0), true));
    let e = query(&mut ui, x);
    assert!(e.is_held);
    assert!(!e.is_clicked);
    assert_eq!(e.mouse_pos, None);
    // leaving the region while down releases the hold
    assert!(!ui.is_held(x));
    let e = query(&mut ui, x);
    assert!(!e.is_held);
    assert!(!e.is_clicked);
}

#[test]
fn release_while_off_region_is_no_click() {
    let x = 7;
    let mut ui = UI::new(Input::new(at(5.0, 5.0), true));
    query(&mut ui, x);
    ui.finish_frame();
    ui.next_frame(Input::new(at(20.0, 5.0), false));
    let e = query(&mut ui, x);
    assert!(!e.is_clicked);
    assert!(!e.is_held);
    assert!(!ui.is_held(x));
}

#[test]
fn press_then_release_inside_clicks_once() {
    let x = 42;
    let mut ui = UI::new(Input::new(at(5.0, 5.0), true));
    let first = query(&mut ui, x);
    assert!(!first.is_clicked);
    ui.finish_frame();
    ui.next_frame(Input::new(at(6.0, 6.0), false));
    let second = query(&mut ui, x);
    assert!(second.is_clicked);
    assert!(!second.is_held);
    assert!(!ui.is_held(x));
    ui.finish_frame();
    ui.next_frame(Input::new(at(6.0, 6.0), false));
    assert!(!query(&mut ui, x).is_clicked);
}

#[test]
fn hover_carries_to_next_frame() {
    let x = 3;
    let mut ui = UI::new(Input::new(at(5.0, 5.0), false));
    let e = query(&mut ui, x);
    assert!(!e.is_hovered);
    ui.finish_frame();
    assert!(ui.is_hovered(x));
    ui.next_frame(Input::new(None, false));
    assert!(ui.is_hovered(x));
    // reported before any hit this frame, and without a pointer at all
    let e = ui.event(x, false);
    assert!(e.is_hovered);
    assert_eq!(e.mouse_pos, None);
    ui.finish_frame();
    assert!(!ui.is_hovered(x));
}

#[test]
fn edge_of_region_does_not_hit() {
    let mut ui = UI::new(Input::new(at(0.0, 5.0), true));
    assert!(!inside(&ui));
    let e = query(&mut ui, 1);
    assert!(!ui.is_held(1));
    assert_eq!(e.mouse_pos, None);
}

#[test]
fn no_pointer_means_no_hit() {
    let mut ui = UI::<f32>::new(Input::new(None, true));
    let e = ui.event(1, true);
    assert!(!ui.is_held(1));
    assert_eq!(e.mouse_pos, None);
}

#[test]
fn last_hit_wins_hover() {
    let mut ui = UI::new(Input::new(at(5.0, 5.0), false));
    query(&mut ui, 1);
    query(&mut ui, 2);
    ui.finish_frame();
    assert!(!ui.is_hovered(1));
    assert!(ui.is_hovered(2));
}

#[test]
fn set_active_and_set_hover() {
    let mut ui = UI::<f32>::new(Input::new(None, true));
    ui.set_active(9);
    assert!(ui.is_held(9));
    let e = ui.event(9, false);
    assert!(e.is_held);
    ui.set_hover(5);
    ui.finish_frame();
    assert!(ui.is_hovered(5));
}

#[test]
fn ids_depend_on_scope_and_token() {
    let mut ui = UI::<f32>::new(Input::new(None, false));
    let a = ui.calculate_id("button");
    assert_eq!(a, ui.calculate_id("button"));
    assert_ne!(a, ui.calculate_id("other"));
    ui.push_id(a);
    let nested = ui.calculate_id("button");
    assert_ne!(nested, a);
    assert_eq!(ui.pop_id(), Some(a));
    assert_eq!(ui.calculate_id("button"), a);
    assert_eq!(ui.pop_id(), None);
}

#[test]
fn frame_geometry_is_exposed_then_cleared() {
    let mut ui = UI::new(Input::new(None, false));
    ui.draw().rect(Color(0xFFFFFFFF), Vec2 { x: 0.0f32, y: 0.0 }, Vec2 { x: 1.0, y: 1.0 });
    {
        let r = ui.finish_frame();
        assert_eq!(r.verts().len(), 4);
        assert_eq!(r.indicies(), &[0, 1, 2, 1, 2, 3]);
        let first: &Vert<f32> = &r.verts()[0];
        assert_eq!(first.rgba, [255, 255, 255, 255]);
    }
    ui.next_frame(Input::new(None, false));
    let r = ui.finish_frame();
    assert!(r.verts().is_empty());
    assert!(r.indicies().is_empty());
}

#[test]
fn context_rotates_hover() {
    let mut c = Context::default();
    c.finish_frame();
    let mut ui = UI::<f32>::new(Input::new(None, false));
    ui.set_hover(4);
    assert!(!ui.is_hovered(4));
    ui.finish_frame();
    assert!(ui.is_hovered(4));
    ui.finish_frame();
    assert!(!ui.is_hovered(4));
}

#[test]
fn event_callbacks_run_on_their_condition() {
    let mut ui = UI::new(Input::new(at(5.0, 5.0), true));
    query(&mut ui, 1);
    let e = query(&mut ui, 1);
    let mut held_at = None;
    let mut clicked = false;
    e.on_hold(|p| held_at = Some(p));
    e.on_click(|_| clicked = true);
    assert_eq!(held_at, at(5.0, 5.0));
    assert!(!clicked);
    assert_eq!(e.tooltip_anchor(), None);
}
