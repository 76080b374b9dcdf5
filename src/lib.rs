//! Immediate-mode 2D user interface: per-frame geometry batching and the
//! small cross-frame state that turns stateless draw calls into widgets
//! that can be hovered, held and clicked.
use vstd::prelude::*;

pub mod color;
pub mod draw;
pub mod math;
pub mod text;
pub mod theme;

pub use crate::color::{Color, Theme};
pub use crate::math::Vec2;

use crate::draw::DrawData;
use std::collections::hash_map::RandomState;
use std::hash::BuildHasher;
use std::hash::Hash;

verus! {

/// Unique identifier for a UI element; `0` stands for no element.
pub type ID = u64;

/// Relies on `RandomState::new` from std: a hash builder with fresh keys.
#[verifier::external_body]
fn new_id_hasher() -> RandomState {
    RandomState::new()
}

/// Relies on `BuildHasher::hash_one` from std: the hash of the parent id
/// followed by the token, under the builder's keys.
#[verifier::external_body]
fn hash_id<H: Hash>(hasher: &RandomState, parent: Option<&u64>, token: H) -> u64 {
    hasher.hash_one((parent, token))
}

/// Input for one frame: pointer position, if any, and the primary button.
#[derive(Clone, Debug)]
pub struct Input<S> {
    mouse_pos: Option<Vec2<S>>,
    mouse_down: bool,
}

impl<S: Copy> Input<S> {
    /// The pointer position, absent when no pointer is active.
    pub closed spec fn pointer(&self) -> Option<Vec2<S>> {
        self.mouse_pos
    }

    /// Whether the primary button is down.
    pub closed spec fn down(&self) -> bool {
        self.mouse_down
    }

    /// Input from a pointer position and the primary button's state.
    pub fn new(mouse_pos: Option<Vec2<S>>, mouse_down: bool) -> (r: Input<S>)
        ensures
            r.pointer() == mouse_pos,
            r.down() == mouse_down,
    {
        Input { mouse_pos, mouse_down }
    }
}

/// State that persists between frames.
#[derive(Debug)]
pub struct Context {
    held_id: ID,
    hover_id: ID,
    prev_hover_id: ID,
    id_hasher: RandomState,
}

impl Context {
    /// The element holding the pointer.
    pub closed spec fn held(&self) -> ID {
        self.held_id
    }

    /// The element hovered so far in this frame.
    pub closed spec fn hover(&self) -> ID {
        self.hover_id
    }

    /// The element hovered at the end of the last frame.
    pub closed spec fn prev_hover(&self) -> ID {
        self.prev_hover_id
    }

    /// End the frame: what is hovered now becomes the last frame's hover.
    pub fn finish_frame(&mut self)
        ensures
            final(self).prev_hover() == old(self).hover(),
            final(self).hover() == 0,
            final(self).held() == old(self).held(),
    {
        self.prev_hover_id = self.hover_id;
        self.hover_id = 0;
    }
}

impl Default for Context {
    fn default() -> (r: Context)
        ensures
            r.held() == 0,
            r.hover() == 0,
            r.prev_hover() == 0,
    {
        Context { held_id: 0, hover_id: 0, prev_hover_id: 0, id_hasher: new_id_hasher() }
    }
}

/// Result of a user interaction with one region of the UI.
#[derive(Clone, Copy, Debug)]
pub struct Event<S> {
    /// The button went up over this region while it held the pointer
    pub is_clicked: bool,
    /// The region was the one hovered at the end of the last frame
    pub is_hovered: bool,
    /// The region holds the pointer and the button is still down
    pub is_held: bool,
    /// The pointer position, present when the pointer is over the region
    pub mouse_pos: Option<Vec2<S>>,
}

impl<S: Copy> Event<S> {
    /// Run `action` on the pointer position when `pred` holds and the
    /// pointer is over the region.
    fn when<F: FnOnce(Vec2<S>)>(&self, pred: bool, action: F) -> (r: &Self)
        requires
            pred && self.mouse_pos is Some ==> action.requires((self.mouse_pos.unwrap(),)),
        ensures
            r == self,
    {
        if pred {
            if let Some(pos) = self.mouse_pos {
                action(pos);
            }
        }
        self
    }

    /// Run `action` when the region was clicked.
    pub fn on_click<F: FnOnce(Vec2<S>)>(&self, action: F) -> (r: &Self)
        requires
            self.is_clicked && self.mouse_pos is Some ==> action.requires((self.mouse_pos.unwrap(),)),
        ensures
            r == self,
    {
        self.when(self.is_clicked, action)
    }

    /// Run `action` while the region is hovered.
    pub fn on_hover<F: FnOnce(Vec2<S>)>(&self, action: F) -> (r: &Self)
        requires
            self.is_hovered && self.mouse_pos is Some ==> action.requires((self.mouse_pos.unwrap(),)),
        ensures
            r == self,
    {
        self.when(self.is_hovered, action)
    }

    /// Run `action` while the button is held down on the region.
    pub fn on_hold<F: FnOnce(Vec2<S>)>(&self, action: F) -> (r: &Self)
        requires
            self.is_held && self.mouse_pos is Some ==> action.requires((self.mouse_pos.unwrap(),)),
        ensures
            r == self,
    {
        self.when(self.is_held, action)
    }

    /// Where a tooltip for this region goes: the pointer position, while
    /// the region is hovered and not held.
    pub fn tooltip_anchor(&self) -> (r: Option<Vec2<S>>)
        ensures
            r == (if self.is_hovered && !self.is_held { self.mouse_pos } else { None }),
    {
        if self.is_hovered && !self.is_held {
            self.mouse_pos
        } else {
            None
        }
    }
}

/// Gathers the commands that draw one frame of the UI and answers
/// interaction queries against the state kept between frames.
///
/// When a frame is built, `finish_frame` exposes its geometry.
#[derive(Debug)]
pub struct UI<S> {
    draw_data: DrawData<S>,
    context: Context,
    id_stack: Vec<u64>,
    input: Input<S>,
}

impl<S: Copy> UI<S> {
    /// The geometry of the frame so far.
    pub closed spec fn geometry(&self) -> (Seq<draw::Vert<S>>, Seq<u32>) {
        self.draw_data@
    }

    /// The persistent interaction state.
    pub closed spec fn state(&self) -> (ID, ID, ID) {
        (self.context.held(), self.context.hover(), self.context.prev_hover())
    }

    /// The element holding the pointer.
    pub open spec fn held_id(&self) -> ID {
        self.state().0
    }

    /// The element hovered so far in this frame.
    pub open spec fn hover_id(&self) -> ID {
        self.state().1
    }

    /// The element hovered at the end of the last frame.
    pub open spec fn prev_hover_id(&self) -> ID {
        self.state().2
    }

    /// The input of this frame.
    pub closed spec fn frame_input(&self) -> Input<S> {
        self.input
    }

    /// The ids from which new ids derive, innermost last.
    pub closed spec fn scopes(&self) -> Seq<u64> {
        self.id_stack@
    }

    /// The geometry is well formed, as `DrawData::wf` says.
    pub open spec fn wf(&self) -> bool {
        &&& self.geometry().0.len() <= draw::max_verts()
        &&& self.geometry().1.len() % 3 == 0
        &&& draw::indices_below(self.geometry().1, self.geometry().0.len())
    }

    /// The UI for its first frame.
    pub fn new(input: Input<S>) -> (r: UI<S>)
        ensures
            r.wf(),
            r.geometry().0.len() == 0,
            r.geometry().1.len() == 0,
            r.state() == (0u64, 0u64, 0u64),
            r.frame_input() == input,
            r.scopes().len() == 0,
    {
        UI {
            draw_data: DrawData::new(),
            context: Context::default(),
            id_stack: Vec::new(),
            input,
        }
    }

    /// Start the next frame with new input and empty geometry.
    pub fn next_frame(&mut self, input: Input<S>)
        ensures
            final(self).wf(),
            final(self).geometry().0.len() == 0,
            final(self).geometry().1.len() == 0,
            final(self).state() == old(self).state(),
            final(self).frame_input() == input,
            final(self).scopes() == old(self).scopes(),
    {
        self.input = input;
        self.draw_data.clear();
    }

    /// The geometry of this frame, to draw primitives into.
    pub fn draw(&mut self) -> (r: &mut DrawData<S>)
        requires
            old(self).wf(),
        ensures
            r.wf(),
            r@ == old(self).geometry(),
            final(self).geometry() == final(r)@,
            final(self).state() == old(self).state(),
            final(self).frame_input() == old(self).frame_input(),
            final(self).scopes() == old(self).scopes(),
    {
        &mut self.draw_data
    }

    /// The pointer position of this frame.
    pub fn mouse_pos(&self) -> (r: Option<Vec2<S>>)
        ensures
            r == self.frame_input().pointer(),
    {
        self.input.mouse_pos
    }

    /// Derive an id that keeps track of an element between frames, from
    /// the innermost scope id and a token.
    pub fn calculate_id<H: Hash>(&self, into_id: H) -> (r: ID) {
        hash_id(&self.context.id_hasher, self.id_stack.last(), into_id)
    }

    /// Open a scope: ids derived until it is closed are salted by `id`.
    pub fn push_id(&mut self, id: ID)
        ensures
            final(self).scopes() == old(self).scopes().push(id),
            final(self).state() == old(self).state(),
            final(self).geometry() == old(self).geometry(),
            final(self).wf() == old(self).wf(),
            final(self).frame_input() == old(self).frame_input(),
    {
        self.id_stack.push(id);
    }

    /// Close the innermost scope.
    pub fn pop_id(&mut self) -> (r: Option<ID>)
        ensures
            old(self).scopes().len() == 0 ==> r is None && final(self).scopes() == old(self).scopes(),
            old(self).scopes().len() > 0 ==> r == Some(old(self).scopes().last())
                && final(self).scopes() == old(self).scopes().drop_last(),
            final(self).state() == old(self).state(),
            final(self).geometry() == old(self).geometry(),
            final(self).wf() == old(self).wf(),
            final(self).frame_input() == old(self).frame_input(),
    {
        self.id_stack.pop()
    }

    /// Complete this frame: rotate the hover state and expose the geometry.
    pub fn finish_frame(&mut self) -> (r: Renderer<'_, S>)
        ensures
            final(self).state() == (old(self).held_id(), 0u64, old(self).hover_id()),
            final(self).geometry() == old(self).geometry(),
            final(self).wf() == old(self).wf(),
            final(self).frame_input() == old(self).frame_input(),
            final(self).scopes() == old(self).scopes(),
            r.geometry() == old(self).geometry(),
    {
        self.context.finish_frame();
        Renderer { ui: self }
    }

    /// Whether `id` holds the pointer.
    pub fn is_held(&self, id: ID) -> (r: bool)
        ensures
            r == (id == self.held_id()),
    {
        id == self.context.held_id
    }

    /// Whether `id` was hovered at the end of the last frame.
    pub fn is_hovered(&self, id: ID) -> (r: bool)
        ensures
            r == (id == self.prev_hover_id()),
    {
        id == self.context.prev_hover_id
    }

    /// Check the region of element `id` for pointer interaction. `inside`
    /// tells whether this frame's pointer lies strictly inside the region;
    /// without a pointer nothing is inside.
    ///
    /// A hit makes `id` the hovered element and, with the button down, the
    /// held one (with the button up it releases the hold). Leaving the
    /// region releases a hold of `id`.
    pub fn event(&mut self, id: ID, inside: bool) -> (r: Event<S>)
        ensures
            ({
                let hit = old(self).frame_input().pointer() is Some && inside;
                let down = old(self).frame_input().down();
                let was_held = id == old(self).held_id();
                &&& final(self).held_id() == (if hit {
                    if down { id } else { 0 }
                } else if was_held {
                    0
                } else {
                    old(self).held_id()
                })
                &&& final(self).hover_id() == (if hit { id } else { old(self).hover_id() })
                &&& final(self).prev_hover_id() == old(self).prev_hover_id()
                &&& r.is_clicked == (!down && was_held && hit)
                &&& r.is_hovered == (id == old(self).prev_hover_id())
                &&& r.is_held == (down && was_held)
                &&& r.mouse_pos == (if hit { old(self).frame_input().pointer() } else { None })
            }),
            final(self).geometry() == old(self).geometry(),
            final(self).wf() == old(self).wf(),
            final(self).frame_input() == old(self).frame_input(),
            final(self).scopes() == old(self).scopes(),
    {
        let was_held = id == self.context.held_id;
        let hit = self.input.mouse_pos.is_some() && inside;
        if hit {
            self.context.held_id = if self.input.mouse_down { id } else { 0 };
            self.context.hover_id = id;
        } else if was_held {
            self.context.held_id = 0;
        }
        Event {
            is_clicked: !self.input.mouse_down && was_held && hit,
            is_hovered: self.context.prev_hover_id == id,
            is_held: self.input.mouse_down && was_held,
            mouse_pos: if hit { self.input.mouse_pos } else { None },
        }
    }

    /// Make `id` the element that holds the pointer.
    pub fn set_active(&mut self, id: ID)
        ensures
            final(self).state() == (id, old(self).hover_id(), old(self).prev_hover_id()),
            final(self).geometry() == old(self).geometry(),
            final(self).wf() == old(self).wf(),
            final(self).frame_input() == old(self).frame_input(),
            final(self).scopes() == old(self).scopes(),
    {
        self.context.held_id = id;
    }

    /// Make `id` the element hovered in this frame.
    pub fn set_hover(&mut self, id: ID)
        ensures
            final(self).state() == (old(self).held_id(), id, old(self).prev_hover_id()),
            final(self).geometry() == old(self).geometry(),
            final(self).wf() == old(self).wf(),
            final(self).frame_input() == old(self).frame_input(),
            final(self).scopes() == old(self).scopes(),
    {
        self.context.hover_id = id;
    }
}

/// Read-only access to a finished frame's geometry for rendering.
///
/// Once rendering is done, call `next_frame` on the UI.
#[derive(Debug)]
pub struct Renderer<'a, S> {
    ui: &'a UI<S>,
}

impl<'a, S: Copy> Renderer<'a, S> {
    /// The finished frame's geometry.
    pub closed spec fn geometry(&self) -> (Seq<draw::Vert<S>>, Seq<u32>) {
        self.ui.geometry()
    }

    /// The vertices of the frame.
    pub fn verts(&self) -> (r: &[draw::Vert<S>])
        ensures
            r@ == self.geometry().0,
    {
        self.ui.draw_data.verts()
    }

    /// The indices of the frame; every three form one triangle.
    pub fn indicies(&self) -> (r: &[u32])
        ensures
            r@ == self.geometry().1,
    {
        self.ui.draw_data.indicies()
    }
}

} // verus!
