//! What a window decides from the input it reads: which keys went down or
//! up between two frames, which modifier keys are held, whether the mouse is
//! over the window, and which buffers a clear wipes.
//!
//! Keys are SDL key codes (`sdl2::keyboard::Keycode` as `i32`) and modifiers
//! are SDL's modifier bits (`sdl2::keyboard::Mod::bits`).
use vstd::prelude::*;
use crate::gl_enums;
use crate::gl_types::RenderMask;

verus! {

/// Left shift held.
pub const LSHIFTMOD: u16 = 0x0001;
/// Right shift held.
pub const RSHIFTMOD: u16 = 0x0002;
/// Left control held.
pub const LCTRLMOD: u16 = 0x0040;
/// Right control held.
pub const RCTRLMOD: u16 = 0x0080;
/// Left alt held.
pub const LALTMOD: u16 = 0x0100;
/// Right alt held.
pub const RALTMOD: u16 = 0x0200;

fn holds(keys: &Vec<i32>, key: i32) -> (r: bool)
    ensures
        r == keys@.contains(key),
{
    let mut i: usize = 0;
    while i < keys.len()
        invariant
            i <= keys@.len(),
            forall|j: int| 0 <= j < i ==> keys@[j] != key,
        decreases keys@.len() - i,
    {
        if keys[i] == key {
            return true;
        }
        i = i + 1;
    }
    false
}

/// The keys of `a` that are not in `b`.
fn without(a: &Vec<i32>, b: &Vec<i32>) -> (r: Vec<i32>)
    ensures
        r@.to_set() == a@.to_set().difference(b@.to_set()),
{
    let mut r: Vec<i32> = Vec::new();
    let mut i: usize = 0;
    while i < a.len()
        invariant
            i <= a@.len(),
            forall|k: i32| r@.contains(k) <==> (exists|j: int| 0 <= j < i && a@[j] == k) && !b@.contains(k),
        decreases a@.len() - i,
    {
        let k = a[i];
        let ghost prev = r@;
        if !holds(b, k) {
            r.push(k);
            proof {
                assert forall|x: i32| r@.contains(x) <==> (exists|j: int| 0 <= j < i + 1 && a@[j] == x) && !b@.contains(x) by {
                    if r@.contains(x) {
                        let n = choose|n: int| 0 <= n < r@.len() && r@[n] == x;
                        if n < prev.len() {
                            assert(prev[n] == x);
                            assert(prev.contains(x));
                        } else {
                            assert(a@[i as int] == x);
                        }
                    }
                    if (exists|j: int| 0 <= j < i + 1 && a@[j] == x) && !b@.contains(x) {
                        let j = choose|j: int| 0 <= j < i + 1 && a@[j] == x;
                        if j == i {
                            assert(r@[r@.len() - 1] == x);
                        } else {
                            assert(prev.contains(x));
                            let n = choose|n: int| 0 <= n < prev.len() && prev[n] == x;
                            assert(r@[n] == x);
                        }
                    }
                }
            }
        } else {
            proof {
                assert forall|x: i32| r@.contains(x) <==> (exists|j: int| 0 <= j < i + 1 && a@[j] == x) && !b@.contains(x) by {
                    if (exists|j: int| 0 <= j < i + 1 && a@[j] == x) && !b@.contains(x) {
                        let j = choose|j: int| 0 <= j < i + 1 && a@[j] == x;
                        assert(j != i);
                    }
                }
            }
        }
        i = i + 1;
    }
    assert(r@.to_set() =~= a@.to_set().difference(b@.to_set())) by {
        assert forall|x: i32| a@.contains(x) <==> exists|j: int| 0 <= j < a@.len() && a@[j] == x by {
            if a@.contains(x) {
                let j = choose|j: int| 0 <= j < a@.len() && a@[j] == x;
            }
        }
    }
    r
}

/// The keyboard as seen in the last two frames: the keys held in the
/// previous and in the current frame, those that went down and those that
/// went up between them, and the modifier keys held.
pub struct SdlKeyboardState {
    prev_keys: Vec<i32>,
    pressed_keys: Vec<i32>,
    new_keys: Vec<i32>,
    old_keys: Vec<i32>,
    modifiers: u16,
}

impl SdlKeyboardState {
    /// The keys held in the frame before the last update.
    pub closed spec fn previous(&self) -> Set<i32> {
        self.prev_keys@.to_set()
    }

    /// The keys held now.
    pub closed spec fn pressed(&self) -> Set<i32> {
        self.pressed_keys@.to_set()
    }

    /// The keys that went down at the last update.
    pub closed spec fn newly_pressed(&self) -> Set<i32> {
        self.new_keys@.to_set()
    }

    /// The keys that went up at the last update.
    pub closed spec fn released(&self) -> Set<i32> {
        self.old_keys@.to_set()
    }

    /// The modifier bits held now.
    pub closed spec fn mods(&self) -> u16 {
        self.modifiers
    }

    /// `post` is `pre` after a frame in which `pressed` were the keys held
    /// and `modifiers` the modifier bits.
    pub open spec fn after_update(pre: Self, post: Self, pressed: Seq<i32>, modifiers: u16) -> bool {
        &&& post.pressed() == pressed.to_set()
        &&& post.previous() == pressed.to_set()
        &&& post.newly_pressed() == pressed.to_set().difference(pre.previous())
        &&& post.released() == pre.previous().difference(pressed.to_set())
        &&& post.mods() == modifiers
    }

    /// A first reading: `pressed_keys` held and `modifiers` set, with no
    /// frame before it, so no key went down or up yet.
    pub fn new(pressed_keys: Vec<i32>, modifiers: u16) -> (r: Self)
        ensures
            r.pressed() == pressed_keys@.to_set(),
            r.previous() == Set::<i32>::empty(),
            r.newly_pressed() == Set::<i32>::empty(),
            r.released() == Set::<i32>::empty(),
            r.mods() == modifiers,
    {
        let r = SdlKeyboardState {
            prev_keys: Vec::new(),
            pressed_keys,
            new_keys: Vec::new(),
            old_keys: Vec::new(),
            modifiers,
        };
        assert(r.previous() =~= Set::<i32>::empty());
        assert(r.newly_pressed() =~= Set::<i32>::empty());
        assert(r.released() =~= Set::<i32>::empty());
        r
    }

    /// Moves to the next frame, in which `pressed_keys` are held and
    /// `modifiers` set: keys held now and not before went down, keys held
    /// before and not now went up.
    pub fn update(&mut self, pressed_keys: Vec<i32>, modifiers: u16)
        ensures
            Self::after_update(*old(self), *final(self), pressed_keys@, modifiers),
    {
        self.new_keys = without(&pressed_keys, &self.prev_keys);
        self.old_keys = without(&self.prev_keys, &pressed_keys);
        self.prev_keys = pressed_keys.clone();
        self.pressed_keys = pressed_keys;
        self.modifiers = modifiers;
    }

    pub fn is_shift_pressed(&self) -> (r: bool)
        ensures
            r == ((self.mods() & LSHIFTMOD) != 0 || (self.mods() & RSHIFTMOD) != 0),
    {
        (self.modifiers & LSHIFTMOD) != 0 || (self.modifiers & RSHIFTMOD) != 0
    }

    pub fn is_control_pressed(&self) -> (r: bool)
        ensures
            r == ((self.mods() & LCTRLMOD) != 0 || (self.mods() & RCTRLMOD) != 0),
    {
        (self.modifiers & LCTRLMOD) != 0 || (self.modifiers & RCTRLMOD) != 0
    }

    pub fn is_alt_pressed(&self) -> (r: bool)
        ensures
            r == ((self.mods() & LALTMOD) != 0 || (self.mods() & RALTMOD) != 0),
    {
        (self.modifiers & LALTMOD) != 0 || (self.modifiers & RALTMOD) != 0
    }

    /// `key` went down at the last update.
    pub fn is_key_pressed(&self, key: i32) -> (r: bool)
        ensures
            r == self.newly_pressed().contains(key),
    {
        holds(&self.new_keys, key)
    }

    /// `key` is held now, whether it just went down or was held before.
    pub fn is_key_pressed_repeat(&self, key: i32) -> (r: bool)
        ensures
            r == self.pressed().contains(key),
    {
        holds(&self.pressed_keys, key)
    }

    /// `key` is held now.
    pub fn is_key_down(&self, key: i32) -> (r: bool)
        ensures
            r == self.pressed().contains(key),
    {
        holds(&self.pressed_keys, key)
    }

    /// `key` went up at the last update.
    pub fn is_key_released(&self, key: i32) -> (r: bool)
        ensures
            r == self.released().contains(key),
    {
        holds(&self.old_keys, key)
    }

    /// `key` is not held now.
    pub fn is_key_up(&self, key: i32) -> (r: bool)
        ensures
            r == !self.pressed().contains(key),
    {
        !holds(&self.pressed_keys, key)
    }
}

impl Default for SdlKeyboardState {
    /// No key held, none went down or up, no modifier.
    fn default() -> (r: Self)
        ensures
            r.pressed() == Set::<i32>::empty(),
            r.previous() == Set::<i32>::empty(),
            r.newly_pressed() == Set::<i32>::empty(),
            r.released() == Set::<i32>::empty(),
            r.mods() == 0,
    {
        let r = SdlKeyboardState {
            prev_keys: Vec::new(),
            pressed_keys: Vec::new(),
            new_keys: Vec::new(),
            old_keys: Vec::new(),
            modifiers: 0,
        };
        assert(r.pressed() =~= Set::<i32>::empty());
        assert(r.previous() =~= Set::<i32>::empty());
        assert(r.newly_pressed() =~= Set::<i32>::empty());
        assert(r.released() =~= Set::<i32>::empty());
        r
    }
}

/// Two frames in a row decide alone what went down and up: after updates
/// with `first` and then `second` held, the keys that went down are those
/// of `second` not in `first`, the keys that went up those of `first` not in
/// `second`, whatever came before.
pub proof fn lemma_transitions_between_frames(
    s0: SdlKeyboardState,
    s1: SdlKeyboardState,
    s2: SdlKeyboardState,
    first: Seq<i32>,
    m1: u16,
    second: Seq<i32>,
    m2: u16,
)
    requires
        SdlKeyboardState::after_update(s0, s1, first, m1),
        SdlKeyboardState::after_update(s1, s2, second, m2),
    ensures
        s2.newly_pressed() == second.to_set().difference(first.to_set()),
        s2.released() == first.to_set().difference(second.to_set()),
        forall|k: i32| first.contains(k) && second.contains(k) ==> !s2.newly_pressed().contains(k)
            && !s2.released().contains(k) && s2.pressed().contains(k),
{
}

/// The buffers `glClear` wipes for `buffer_bits`: those it selects, or the
/// color, depth and stencil buffers when none is given.
pub fn clear_mask(buffer_bits: Option<RenderMask>) -> (r: u32)
    ensures
        r == match buffer_bits {
            Some(m) => m.spec_bits(),
            None => (gl_enums::COLOR_BUFFER_BIT | gl_enums::DEPTH_BUFFER_BIT | gl_enums::STENCIL_BUFFER_BIT),
        },
{
    match buffer_bits {
        Some(m) => m.to_opengl(),
        None => gl_enums::COLOR_BUFFER_BIT | gl_enums::DEPTH_BUFFER_BIT | gl_enums::STENCIL_BUFFER_BIT,
    }
}

/// The mouse is over the window `window_id` when that window has the mouse
/// focus.
pub fn mouse_in_window(focused_window_id: Option<u32>, window_id: u32) -> (r: bool)
    ensures
        r == (focused_window_id == Some(window_id)),
{
    match focused_window_id {
        Some(id) => id == window_id,
        None => false,
    }
}

} // verus!
