//! The view registry with its activity throttling, the operations that reach
//! the views from outside, and the decision taken on a pixel read-back.
//!
//! The views themselves live in the web engine. The registry keeps their ids
//! and the time each was last active, decides what an operation does, and
//! names the engine call that carries it out.

use std::collections::HashMap;
use std::collections::HashSet;
use vstd::prelude::*;
use vstd::std_specs::hash::*;
use vstd::std_specs::iter::IteratorSpec;

verus! {

broadcast use vstd::std_specs::hash::group_hash_axioms;

/// A view that was active less than this many milliseconds ago is repainted
/// every cycle.
pub const FRESHNESS_WINDOW_MS: u64 = 1000;

pub const GLFW_MOD_SHIFT: u32 = 0x0001;

pub const GLFW_MOD_CONTROL: u32 = 0x0002;

pub const GLFW_MOD_ALT: u32 = 0x0004;

pub const GLFW_MOD_SUPER: u32 = 0x0008;

pub const GLFW_MOD_CAPS_LOCK: u32 = 0x0010;

pub const GLFW_MOD_NUM_LOCK: u32 = 0x0020;

/// The modifier keys held during a key event.
#[derive(Clone, Copy, Debug, PartialEq, Eq, Structural)]
pub struct KeyEventModifiers {
    pub alt: bool,
    pub ctrl: bool,
    pub meta: bool,
    pub shift: bool,
}

/// The modifiers that a set of modifier bits names. The lock bits name none.
pub open spec fn modifiers_of(key_mods: u32) -> KeyEventModifiers {
    KeyEventModifiers {
        alt: key_mods & GLFW_MOD_ALT != 0,
        ctrl: key_mods & GLFW_MOD_CONTROL != 0,
        meta: key_mods & GLFW_MOD_SUPER != 0,
        shift: key_mods & GLFW_MOD_SHIFT != 0,
    }
}

pub fn parse_glfw_modifiers(key_mods: u32) -> (r: KeyEventModifiers)
    ensures
        r == modifiers_of(key_mods),
{
    KeyEventModifiers {
        alt: key_mods & GLFW_MOD_ALT != 0,
        ctrl: key_mods & GLFW_MOD_CONTROL != 0,
        meta: key_mods & GLFW_MOD_SUPER != 0,
        shift: key_mods & GLFW_MOD_SHIFT != 0,
    }
}

#[derive(Clone, Copy, Debug, PartialEq, Eq, Structural)]
pub enum MouseButton {
    NoButton,
    Left,
    Middle,
    Right,
}

/// The button that a button number names: 0, 1 and 2 are left, middle and
/// right; any other number is no button.
pub open spec fn button_of(button: u32) -> MouseButton {
    if button == 0 {
        MouseButton::Left
    } else if button == 1 {
        MouseButton::Middle
    } else if button == 2 {
        MouseButton::Right
    } else {
        MouseButton::NoButton
    }
}

pub fn parse_mouse_button(button: u32) -> (r: MouseButton)
    ensures
        r == button_of(button),
{
    match button {
        0 => MouseButton::Left,
        1 => MouseButton::Middle,
        2 => MouseButton::Right,
        _ => MouseButton::NoButton,
    }
}

#[derive(Clone, Copy, Debug, PartialEq, Eq, Structural)]
pub enum MouseEventType {
    MouseMoved,
    MouseDown,
    MouseUp,
}

#[derive(Clone, Copy, Debug, PartialEq, Eq, Structural)]
pub enum KeyEventType {
    KeyDown,
    KeyUp,
}

/// An operation on the views, as it arrives from outside.
#[derive(Clone, Debug, PartialEq, Eq)]
pub enum ViewOp {
    CreateView { url: String, width: u32, height: u32, transparent: u32 },
    SetSize { view_id: u32, width: u32, height: u32 },
    RemoveView { view_id: u32 },
    MouseMove { view_id: u32, x: i32, y: i32 },
    MouseDown { view_id: u32, x: i32, y: i32, button: u32 },
    MouseUp { view_id: u32, x: i32, y: i32, button: u32 },
    Scroll { view_id: u32, x: i32, y: i32 },
    Focus { view_id: u32, focused: u32 },
    KeyDown { view_id: u32, scancode: u32, key_mods: u32 },
    KeyUp { view_id: u32, scancode: u32, key_mods: u32 },
    Input { view_id: u32, text: String },
    CopyFromView { view_id: u32, buf_size: usize },
}

/// The engine call that carries an operation out.
#[derive(Clone, Debug, PartialEq, Eq)]
pub enum ViewAction {
    /// Nothing to do: the operation named a view that does not exist.
    Nothing,
    /// Create a view of that size, load the address, and keep it under the id.
    CreateView { view_id: u32, url: String, width: u32, height: u32, transparent: bool },
    Resize { view_id: u32, width: u32, height: u32 },
    RemoveView { view_id: u32 },
    Mouse { view_id: u32, event: MouseEventType, x: i32, y: i32, button: MouseButton },
    /// Scroll by pixels.
    Scroll { view_id: u32, x: i32, y: i32 },
    Focus { view_id: u32 },
    Unfocus { view_id: u32 },
    /// A key press or release, without a virtual key code and without text.
    Key { view_id: u32, ty: KeyEventType, modifiers: KeyEventModifiers, native_key_code: i32 },
    /// Typed text: a character event without modifiers and with native key
    /// code 0, whose text and unmodified text are both `text`.
    Text { view_id: u32, text: String },
    /// Read the view's pixels back into a buffer of that many bytes.
    ReadBack { view_id: u32, buf_size: usize },
}

impl ViewOp {
    /// The view that the operation names; none for a creation.
    pub open spec fn target(self) -> Option<u32> {
        match self {
            ViewOp::CreateView { .. } => None,
            ViewOp::SetSize { view_id, .. } => Some(view_id),
            ViewOp::RemoveView { view_id } => Some(view_id),
            ViewOp::MouseMove { view_id, .. } => Some(view_id),
            ViewOp::MouseDown { view_id, .. } => Some(view_id),
            ViewOp::MouseUp { view_id, .. } => Some(view_id),
            ViewOp::Scroll { view_id, .. } => Some(view_id),
            ViewOp::Focus { view_id, .. } => Some(view_id),
            ViewOp::KeyDown { view_id, .. } => Some(view_id),
            ViewOp::KeyUp { view_id, .. } => Some(view_id),
            ViewOp::Input { view_id, .. } => Some(view_id),
            ViewOp::CopyFromView { view_id, .. } => Some(view_id),
        }
    }

    /// Whether the operation counts as activity of its view: a resize and
    /// every input event do, a removal and a read-back do not.
    pub open spec fn is_activity(self) -> bool {
        match self {
            ViewOp::CreateView { .. } => false,
            ViewOp::RemoveView { .. } => false,
            ViewOp::CopyFromView { .. } => false,
            _ => true,
        }
    }

    /// Whether the operation asks for a repaint at once. A resize does,
    /// whether or not its view exists.
    pub open spec fn forces_redraw(self) -> bool {
        self is SetSize
    }

    /// The engine call for the operation on a view that exists, or for a
    /// creation under the id `new_id`.
    pub open spec fn call(self, new_id: u32) -> ViewAction {
        match self {
            ViewOp::CreateView { url, width, height, transparent } => ViewAction::CreateView {
                view_id: new_id,
                url,
                width,
                height,
                transparent: transparent != 0,
            },
            ViewOp::SetSize { view_id, width, height } => ViewAction::Resize { view_id, width, height },
            ViewOp::RemoveView { view_id } => ViewAction::RemoveView { view_id },
            ViewOp::MouseMove { view_id, x, y } => ViewAction::Mouse {
                view_id,
                event: MouseEventType::MouseMoved,
                x,
                y,
                button: MouseButton::NoButton,
            },
            ViewOp::MouseDown { view_id, x, y, button } => ViewAction::Mouse {
                view_id,
                event: MouseEventType::MouseDown,
                x,
                y,
                button: button_of(button),
            },
            ViewOp::MouseUp { view_id, x, y, button } => ViewAction::Mouse {
                view_id,
                event: MouseEventType::MouseUp,
                x,
                y,
                button: button_of(button),
            },
            ViewOp::Scroll { view_id, x, y } => ViewAction::Scroll { view_id, x, y },
            ViewOp::Focus { view_id, focused } => if focused != 0 {
                ViewAction::Focus { view_id }
            } else {
                ViewAction::Unfocus { view_id }
            },
            ViewOp::KeyDown { view_id, scancode, key_mods } => ViewAction::Key {
                view_id,
                ty: KeyEventType::KeyDown,
                modifiers: modifiers_of(key_mods),
                native_key_code: scancode as i32,
            },
            ViewOp::KeyUp { view_id, scancode, key_mods } => ViewAction::Key {
                view_id,
                ty: KeyEventType::KeyUp,
                modifiers: modifiers_of(key_mods),
                native_key_code: scancode as i32,
            },
            ViewOp::Input { view_id, text } => ViewAction::Text { view_id, text },
            ViewOp::CopyFromView { view_id, buf_size } => ViewAction::ReadBack { view_id, buf_size },
        }
    }

    /// A copy of the operation.
    pub fn duplicate(&self) -> (r: ViewOp)
        ensures
            r == *self,
    {
        match self {
            ViewOp::CreateView { url, width, height, transparent } => ViewOp::CreateView {
                url: url.clone(),
                width: *width,
                height: *height,
                transparent: *transparent,
            },
            ViewOp::SetSize { view_id, width, height } => ViewOp::SetSize {
                view_id: *view_id,
                width: *width,
                height: *height,
            },
            ViewOp::RemoveView { view_id } => ViewOp::RemoveView { view_id: *view_id },
            ViewOp::MouseMove { view_id, x, y } => ViewOp::MouseMove { view_id: *view_id, x: *x, y: *y },
            ViewOp::MouseDown { view_id, x, y, button } => ViewOp::MouseDown {
                view_id: *view_id,
                x: *x,
                y: *y,
                button: *button,
            },
            ViewOp::MouseUp { view_id, x, y, button } => ViewOp::MouseUp {
                view_id: *view_id,
                x: *x,
                y: *y,
                button: *button,
            },
            ViewOp::Scroll { view_id, x, y } => ViewOp::Scroll { view_id: *view_id, x: *x, y: *y },
            ViewOp::Focus { view_id, focused } => ViewOp::Focus { view_id: *view_id, focused: *focused },
            ViewOp::KeyDown { view_id, scancode, key_mods } => ViewOp::KeyDown {
                view_id: *view_id,
                scancode: *scancode,
                key_mods: *key_mods,
            },
            ViewOp::KeyUp { view_id, scancode, key_mods } => ViewOp::KeyUp {
                view_id: *view_id,
                scancode: *scancode,
                key_mods: *key_mods,
            },
            ViewOp::Input { view_id, text } => ViewOp::Input { view_id: *view_id, text: text.clone() },
            ViewOp::CopyFromView { view_id, buf_size } => ViewOp::CopyFromView {
                view_id: *view_id,
                buf_size: *buf_size,
            },
        }
    }
}

/// Milliseconds from `since` to `now`; none if `now` is the earlier.
pub open spec fn elapsed(since: u64, now: u64) -> int {
    if now >= since {
        now - since
    } else {
        0
    }
}

/// The registry as a value: the ids of the live views, the time of the last
/// activity of those that were active lately, and the number of views ever
/// created.
pub struct ViewState {
    pub views: Set<u32>,
    pub updated: Map<u32, u64>,
    pub created: u32,
}

impl ViewState {
    pub open spec fn empty() -> ViewState {
        ViewState { views: Set::empty(), updated: Map::empty(), created: 0 }
    }

    /// Every live view was created, so that its id is below the number of
    /// views ever created; and only live views have an activity time.
    pub open spec fn wf(self) -> bool {
        &&& self.views.finite()
        &&& forall|id: u32| self.views.contains(id) ==> id < self.created
        &&& forall|id: u32| self.updated.contains_key(id) ==> self.views.contains(id)
    }

    /// The id that the next view gets: ids go up from zero, one for each view
    /// ever created, and none is given twice.
    pub open spec fn next_id(self) -> u32 {
        self.created
    }

    /// The registry after an operation at time `now`. A creation adds a view
    /// under the next id and marks it active; a removal drops the view with
    /// its activity time; an operation that counts as activity marks its view
    /// active, if it exists.
    pub open spec fn step(self, op: ViewOp, now: u64) -> ViewState {
        match op {
            ViewOp::CreateView { .. } => ViewState {
                views: self.views.insert(self.next_id()),
                updated: self.updated.insert(self.next_id(), now),
                created: (self.created + 1) as u32,
            },
            ViewOp::RemoveView { view_id } => ViewState {
                views: self.views.remove(view_id),
                updated: self.updated.remove(view_id),
                ..self
            },
            _ => if op.is_activity() && self.views.contains(op.target().unwrap()) {
                ViewState { updated: self.updated.insert(op.target().unwrap(), now), ..self }
            } else {
                self
            },
        }
    }

    /// The engine call that an operation leads to.
    pub open spec fn action(self, op: ViewOp) -> ViewAction {
        match op.target() {
            Some(view_id) => if self.views.contains(view_id) {
                op.call(view_id)
            } else {
                ViewAction::Nothing
            },
            None => op.call(self.next_id()),
        }
    }

    /// Whether a view is repainted in a cycle at time `now`: it is live and
    /// was active less than the freshness window ago.
    pub open spec fn needs_paint(self, view_id: u32, now: u64) -> bool {
        &&& self.views.contains(view_id)
        &&& self.updated.contains_key(view_id)
        &&& elapsed(self.updated[view_id], now) < FRESHNESS_WINDOW_MS
    }

    /// Whether a cycle at time `now` drops the activity time of a view: the
    /// view is live and its last activity is the freshness window or more
    /// ago.
    pub open spec fn goes_stale(self, view_id: u32, now: u64) -> bool {
        &&& self.views.contains(view_id)
        &&& self.updated.contains_key(view_id)
        &&& elapsed(self.updated[view_id], now) >= FRESHNESS_WINDOW_MS
    }

    /// The registry after the activity sweep of a cycle at time `now`.
    pub open spec fn refreshed(self, now: u64) -> ViewState {
        ViewState {
            updated: self.updated.remove_keys(Set::new(|id: u32| self.goes_stale(id, now))),
            ..self
        }
    }
}

/// The ids of the live views, the time of the last activity of each, and the
/// number of views ever created.
pub struct ViewRegistry {
    views: HashSet<u32>,
    views_updated: HashMap<u32, u64>,
    created: u32,
}

impl ViewRegistry {
    pub closed spec fn state(&self) -> ViewState {
        ViewState { views: self.views@, updated: self.views_updated@, created: self.created }
    }

    pub fn new() -> (r: Self)
        ensures
            r.state() == ViewState::empty(),
    {
        ViewRegistry { views: HashSet::new(), views_updated: HashMap::new(), created: 0 }
    }

    /// The number of views ever created, which is the id of the next.
    pub fn created(&self) -> (r: u32)
        ensures
            r == self.state().created,
    {
        self.created
    }

    /// Whether an id is left for another view.
    pub fn can_create(&self) -> (r: bool)
        ensures
            r == (self.state().created < u32::MAX),
    {
        self.created < u32::MAX
    }

    pub fn contains(&self, view_id: u32) -> (r: bool)
        ensures
            r == self.state().views.contains(view_id),
    {
        self.views.contains(&view_id)
    }

    /// The number of live views.
    pub fn len(&self) -> (r: usize)
        ensures
            r == self.state().views.len(),
    {
        self.views.len()
    }

    /// When the view was last active, if the registry still holds that.
    pub fn last_activity(&self, view_id: u32) -> (r: Option<u64>)
        ensures
            r == if self.state().updated.contains_key(view_id) {
                Some(self.state().updated[view_id])
            } else {
                None
            },
    {
        match self.views_updated.get(&view_id) {
            Some(t) => Some(*t),
            None => None,
        }
    }

    /// The engine call for an operation on a live view.
    fn call_on(op: &ViewOp, view_id: u32) -> (r: ViewAction)
        requires
            op.target() == Some(view_id),
        ensures
            r == op.call(view_id),
    {
        match op {
            ViewOp::CreateView { .. } => ViewAction::Nothing,
            ViewOp::SetSize { view_id, width, height } => ViewAction::Resize {
                view_id: *view_id,
                width: *width,
                height: *height,
            },
            ViewOp::RemoveView { view_id } => ViewAction::RemoveView { view_id: *view_id },
            ViewOp::MouseMove { view_id, x, y } => ViewAction::Mouse {
                view_id: *view_id,
                event: MouseEventType::MouseMoved,
                x: *x,
                y: *y,
                button: MouseButton::NoButton,
            },
            ViewOp::MouseDown { view_id, x, y, button } => ViewAction::Mouse {
                view_id: *view_id,
                event: MouseEventType::MouseDown,
                x: *x,
                y: *y,
                button: parse_mouse_button(*button),
            },
            ViewOp::MouseUp { view_id, x, y, button } => ViewAction::Mouse {
                view_id: *view_id,
                event: MouseEventType::MouseUp,
                x: *x,
                y: *y,
                button: parse_mouse_button(*button),
            },
            ViewOp::Scroll { view_id, x, y } => ViewAction::Scroll { view_id: *view_id, x: *x, y: *y },
            ViewOp::Focus { view_id, focused } => if *focused != 0 {
                ViewAction::Focus { view_id: *view_id }
            } else {
                ViewAction::Unfocus { view_id: *view_id }
            },
            ViewOp::KeyDown { view_id, scancode, key_mods } => ViewAction::Key {
                view_id: *view_id,
                ty: KeyEventType::KeyDown,
                modifiers: parse_glfw_modifiers(*key_mods),
                native_key_code: #[verifier::truncate]
                (*scancode as i32),
            },
            ViewOp::KeyUp { view_id, scancode, key_mods } => ViewAction::Key {
                view_id: *view_id,
                ty: KeyEventType::KeyUp,
                modifiers: parse_glfw_modifiers(*key_mods),
                native_key_code: #[verifier::truncate]
                (*scancode as i32),
            },
            ViewOp::Input { view_id, text } => ViewAction::Text {
                view_id: *view_id,
                text: text.clone(),
            },
            ViewOp::CopyFromView { view_id, buf_size } => ViewAction::ReadBack {
                view_id: *view_id,
                buf_size: *buf_size,
            },
        }
    }

    /// Applies an operation at time `now`: brings the registry up to date and
    /// returns the engine call to make and whether a repaint is due at once.
    pub fn apply(&mut self, op: &ViewOp, now: u64) -> (r: (ViewAction, bool))
        requires
            op is CreateView ==> old(self).state().created < u32::MAX,
        ensures
            final(self).state() == old(self).state().step(*op, now),
            old(self).state().wf() ==> final(self).state().wf(),
            r.0 == old(self).state().action(*op),
            r.1 == op.forces_redraw(),
    {
        match op {
            ViewOp::CreateView { url, width, height, transparent } => {
                let id = self.created;
                self.created = id + 1;
                self.views.insert(id);
                self.views_updated.insert(id, now);
                (
                    ViewAction::CreateView {
                        view_id: id,
                        url: url.clone(),
                        width: *width,
                        height: *height,
                        transparent: *transparent != 0,
                    },
                    false,
                )
            },
            ViewOp::SetSize { view_id, .. } => (self.touch(op, *view_id, now), true),
            ViewOp::RemoveView { view_id } => {
                self.views_updated.remove(view_id);
                if self.views.remove(view_id) {
                    (ViewAction::RemoveView { view_id: *view_id }, false)
                } else {
                    (ViewAction::Nothing, false)
                }
            },
            ViewOp::MouseMove { view_id, .. } => (self.touch(op, *view_id, now), false),
            ViewOp::MouseDown { view_id, .. } => (self.touch(op, *view_id, now), false),
            ViewOp::MouseUp { view_id, .. } => (self.touch(op, *view_id, now), false),
            ViewOp::Scroll { view_id, .. } => (self.touch(op, *view_id, now), false),
            ViewOp::Focus { view_id, .. } => (self.touch(op, *view_id, now), false),
            ViewOp::KeyDown { view_id, .. } => (self.touch(op, *view_id, now), false),
            ViewOp::KeyUp { view_id, .. } => (self.touch(op, *view_id, now), false),
            ViewOp::Input { view_id, .. } => (self.touch(op, *view_id, now), false),
            ViewOp::CopyFromView { view_id, .. } => {
                if self.views.contains(view_id) {
                    (Self::call_on(op, *view_id), false)
                } else {
                    (ViewAction::Nothing, false)
                }
            },
        }
    }

    /// An operation that counts as activity: if its view exists, the view is
    /// marked active and the engine call is returned.
    fn touch(&mut self, op: &ViewOp, view_id: u32, now: u64) -> (r: ViewAction)
        requires
            op.target() == Some(view_id),
            op.is_activity(),
        ensures
            final(self).state() == old(self).state().step(*op, now),
            r == old(self).state().action(*op),
    {
        if self.views.contains(&view_id) {
            self.views_updated.insert(view_id, now);
            Self::call_on(op, view_id)
        } else {
            ViewAction::Nothing
        }
    }

    /// The ids of the live views, in no particular order.
    pub fn view_ids(&self) -> (r: Vec<u32>)
        ensures
            r@.to_set() == self.state().views,
            r@.no_duplicates(),
    {
        let mut out: Vec<u32> = Vec::new();
        let ghost ks = spec_hash_keys_iter(&self.views).remaining();
        for k in it: self.views.iter()
            invariant
                it.seq() == ks,
                out@.len() == it.index(),
                forall|j: int| 0 <= j < out@.len() ==> out@[j] == *it.seq()[j],
        {
            out.push(*k);
        }
        assert(out@ =~= ks.unref());
        out
    }

    /// The activity sweep of a paint cycle at time `now`. Returns the views
    /// to repaint, each once and in no particular order: the live views that
    /// were active less than the freshness window ago. The activity time of
    /// a live view that was last active the window or more ago is dropped.
    pub fn refresh(&mut self, now: u64) -> (r: Vec<u32>)
        ensures
            r@.no_duplicates(),
            forall|id: u32| #[trigger] r@.contains(id) <==> old(self).state().needs_paint(id, now),
            final(self).state() == old(self).state().refreshed(now),
            old(self).state().wf() ==> final(self).state().wf(),
    {
        let ids = self.view_ids();
        let mut out: Vec<u32> = Vec::new();
        let n = ids.len();
        let mut i: usize = 0;
        let ghost start = self.state();
        while i < n
            invariant
                i <= n,
                n == ids@.len(),
                ids@.no_duplicates(),
                ids@.to_set() == start.views,
                start == old(self).state(),
                self.views@ == start.views,
                self.created == start.created,
                out@.no_duplicates(),
                forall|id: u32| #[trigger]
                    out@.contains(id) <==> among(ids@, i as int, id) && start.needs_paint(id, now),
                forall|id: u32| #[trigger]
                    self.views_updated@.contains_key(id) <==> start.updated.contains_key(id) && !(among(
                        ids@,
                        i as int,
                        id,
                    ) && start.goes_stale(id, now)),
                forall|id: u32| #[trigger]
                    self.views_updated@.contains_key(id) ==> self.views_updated@[id]
                        == start.updated[id],
            decreases n - i,
        {
            let id = ids[i];
            let ghost before = out@;
            assert forall|x: u32| among(ids@, i + 1, x) <==> among(ids@, i as int, x) || x == id by {}
            let fresh = match self.last_activity(id) {
                Some(t) => {
                    let passed: u64 = if now >= t {
                        now - t
                    } else {
                        0
                    };
                    if passed < FRESHNESS_WINDOW_MS {
                        Some(true)
                    } else {
                        Some(false)
                    }
                },
                None => None,
            };
            if fresh == Some(true) {
                out.push(id);
                proof {
                    assert(!before.contains(id));
                    assert forall|x: u32| #[trigger] out@.contains(x) <==> before.contains(x) || x == id by {
                        if before.contains(x) {
                            let k = choose|k: int| 0 <= k < before.len() && before[k] == x;
                            assert(out@[k] == x);
                        }
                        if x == id {
                            assert(out@[before.len() as int] == x);
                        }
                    }
                }
            } else if fresh == Some(false) {
                self.views_updated.remove(&id);
            }
            i += 1;
        }
        proof {
            let want = start.refreshed(now);
            assert forall|id: u32| start.views.contains(id) implies among(ids@, n as int, id) by {}
            assert(self.views_updated@ =~= want.updated);
        }
        out
    }
}

/// Whether `id` is one of the first `n` of `ids`.
pub open spec fn among(ids: Seq<u32>, n: int, id: u32) -> bool {
    exists|j: int| 0 <= j < n && ids[j] == id
}

/// What the engine reports of the render target of a view.
#[derive(Clone, Copy, Debug, PartialEq, Eq, Structural)]
pub struct RenderTarget {
    pub texture_id: u32,
    pub width: u32,
    pub height: u32,
}

/// What a read-back does with the caller's buffer.
#[derive(Clone, Copy, Debug, PartialEq, Eq, Structural)]
pub enum ReadBack {
    /// The buffer is too small for the pixels: the shortfall is reported and
    /// nothing is written, whether or not the texture is resolved.
    TooSmall { got: usize, need: u128 },
    /// The buffer holds the pixels, and the texture behind the view is not
    /// resolved yet: the whole buffer is set to zero.
    ZeroFill { len: usize },
    /// The pixels of the texture are read into the buffer, four 8-bit
    /// channels each, rows of `row_length` pixels. A buffer larger than
    /// needed is reported and used all the same.
    Read { texture: u32, row_length: u32, oversized: bool, need: u128 },
}

/// The bytes that the pixels of a target take at four bytes each.
pub open spec fn bytes_needed(target: RenderTarget) -> int {
    target.width * target.height * 4
}

/// The decision on a read-back, from the view's render target, the native
/// texture that its texture id resolves to, if any, and the size of the
/// buffer. The size is looked at first.
pub open spec fn read_back_of(target: RenderTarget, texture: Option<u32>, buf_size: usize) -> ReadBack {
    if buf_size < bytes_needed(target) {
        ReadBack::TooSmall { got: buf_size, need: bytes_needed(target) as u128 }
    } else {
        match texture {
            None => ReadBack::ZeroFill { len: buf_size },
            Some(texture) => ReadBack::Read {
                texture,
                row_length: target.width,
                oversized: buf_size > bytes_needed(target),
                need: bytes_needed(target) as u128,
            },
        }
    }
}

pub fn copy_from_view(target: RenderTarget, texture: Option<u32>, buf_size: usize) -> (r: ReadBack)
    ensures
        r == read_back_of(target, texture, buf_size),
{
    let width: u128 = target.width as u128;
    let height: u128 = target.height as u128;
    assert(width * height <= 0xffff_ffff * 0xffff_ffff) by (nonlinear_arith)
        requires
            0 <= width <= 0xffff_ffff,
            0 <= height <= 0xffff_ffff,
    ;
    let need: u128 = width * height * 4;
    let got: u128 = buf_size as u128;
    if got < need {
        ReadBack::TooSmall { got: buf_size, need }
    } else {
        match texture {
            None => ReadBack::ZeroFill { len: buf_size },
            Some(texture) => ReadBack::Read {
                texture,
                row_length: target.width,
                oversized: got > need,
                need,
            },
        }
    }
}

/// A read-back writes to the buffer only where the buffer holds all the
/// pixels: a buffer that is too small is left alone, whatever the texture.
/// It zero-fills only where the texture behind the view is not resolved, and
/// then the whole buffer; it reads pixels only from a resolved texture.
pub proof fn lemma_read_back_fits(target: RenderTarget, texture: Option<u32>, buf_size: usize)
    ensures
        read_back_of(target, texture, buf_size) is TooSmall <==> buf_size < bytes_needed(target),
        read_back_of(target, texture, buf_size) is ZeroFill <==> texture is None && buf_size
            >= bytes_needed(target),
        read_back_of(target, texture, buf_size) is ZeroFill ==> read_back_of(
            target,
            texture,
            buf_size,
        ) == (ReadBack::ZeroFill { len: buf_size }),
        read_back_of(target, texture, buf_size) is Read <==> texture is Some && buf_size
            >= bytes_needed(target),
{
}

/// A new view gets an id that names no live view and that no view had before
/// it: the number of views created so far. The views that live keep their
/// ids and their activity times, and the registry holds one view more.
pub proof fn lemma_new_view_is_new(state: ViewState, op: ViewOp, now: u64)
    requires
        state.wf(),
        op is CreateView,
        state.created < u32::MAX,
    ensures
        !state.views.contains(state.next_id()),
        state.step(op, now).views == state.views.insert(state.created),
        state.step(op, now).views.len() == state.views.len() + 1,
        state.step(op, now).created == state.created + 1,
        state.step(op, now).wf(),
        forall|id: u32|
            state.views.contains(id) ==> state.step(op, now).updated.contains_key(id)
                == state.updated.contains_key(id) && state.step(op, now).updated[id]
                == state.updated[id],
        state.action(op) is CreateView,
        state.action(op)->CreateView_view_id == state.created,
{
}

/// No operation gives a live view an id that was not handed out: where every
/// live view is below the number of views created, so it is afterwards.
pub proof fn lemma_step_keeps_ids(state: ViewState, op: ViewOp, now: u64)
    requires
        state.wf(),
        op is CreateView ==> state.created < u32::MAX,
    ensures
        state.step(op, now).wf(),
        state.step(op, now).created >= state.created,
        state.refreshed(now).wf(),
{
}

/// A view that was last active the freshness window or more ago is not
/// repainted by the cycle, and the cycle drops its activity time, so that no
/// later cycle repaints it until it is active again.
pub proof fn lemma_idle_view_not_painted(state: ViewState, view_id: u32, now: u64)
    requires
        state.views.contains(view_id),
        state.updated.contains_key(view_id),
        elapsed(state.updated[view_id], now) >= FRESHNESS_WINDOW_MS,
    ensures
        !state.needs_paint(view_id, now),
        !state.refreshed(now).updated.contains_key(view_id),
        forall|later: u64| !state.refreshed(now).needs_paint(view_id, later),
{
}

/// An operation that counts as activity of a live view at time `at` marks it
/// active at `at`; and a view active at `at` is repainted by every cycle
/// before `at` plus the freshness window, which also leaves its activity time
/// as it is.
pub proof fn lemma_active_view_painted(state: ViewState, op: ViewOp, at: u64, now: u64)
    requires
        op.is_activity() || op is CreateView,
        op is CreateView || state.views.contains(op.target().unwrap()),
        at <= now < at + FRESHNESS_WINDOW_MS,
    ensures
        ({
            let view_id = if op is CreateView {
                state.next_id()
            } else {
                op.target().unwrap()
            };
            let active = state.step(op, at);
            &&& active.views.contains(view_id)
            &&& active.updated[view_id] == at
            &&& active.needs_paint(view_id, now)
            &&& active.refreshed(now).views.contains(view_id)
            &&& active.refreshed(now).updated.contains_key(view_id)
            &&& active.refreshed(now).updated[view_id] == at
        }),
{
    let view_id = if op is CreateView {
        state.next_id()
    } else {
        op.target().unwrap()
    };
    let active = state.step(op, at);
}

} // verus!
