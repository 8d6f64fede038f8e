use vstd::arithmetic::div_mod::{lemma_fundamental_div_mod, lemma_fundamental_div_mod_converse};
use vstd::prelude::*;

verus! {

/// Angles are kept in tenths of a degree; a full turn is this many steps.
pub const TURN: u32 = 3600;

/// The zoom factor a demo starts with (0.5); zoom factors are kept in thousandths.
pub const SCALE_INITIAL: u64 = 500;

/// The smallest zoom factor scrolling can reach (0.05), so that the scene never
/// collapses or turns inside out.
pub const SCALE_FLOOR: u64 = 50;

/// How much one scroll step changes the zoom factor (1/20).
pub const SCALE_STEP: u64 = 50;

/// Something the demo owns and advances every frame; drawing it is the caller's part.
pub trait SceneItem: Sized {
    /// The item as it stands after being advanced by `elapsed` microseconds.
    spec fn advanced(&self, elapsed: u64) -> Self;

    /// Advances the item by `elapsed` microseconds.
    fn anim(&mut self, elapsed: u64)
        ensures
            *final(self) == old(self).advanced(elapsed),
    ;
}

/// Whether a mouse button is held down.
#[derive(Clone, Copy, Debug, PartialEq, Eq, Structural)]
pub enum ElementState {
    Pressed,
    Released,
}

/// The last known state of the three mouse buttons.
#[derive(Clone, Copy, Debug, PartialEq, Eq, Structural)]
pub struct ButtonStates {
    pub left: ElementState,
    pub middle: ElementState,
    pub right: ElementState,
}

/// A windowing event, reduced to what the demo reacts to.
#[derive(Clone, Copy, Debug, PartialEq, Eq, Structural)]
pub enum Event {
    /// The window's drawing surface changed size.
    Resized,
    /// The window asks to be drawn.
    RedrawRequested,
    /// The user asked to close the window.
    CloseRequested,
    /// A character was typed.
    ReceivedCharacter(char),
    /// The mouse moved by this many device units.
    MouseMotion { dx: i32, dy: i32 },
    /// The wheel turned by this many lines, positive away from the user.
    LineScroll(i32),
    /// The wheel (or a touchpad) scrolled by this many steps, positive towards the user.
    PixelScroll(i32),
    /// A mouse button (1 left, 2 middle, 3 right) changed state.
    Button { button: u32, state: ElementState },
    /// The event loop polled, at `now` microseconds on a monotonic clock.
    Poll { now: u64 },
    /// Anything else.
    Other,
}

/// What the caller does after an event was handled.
#[derive(Clone, Copy, Debug, PartialEq, Eq, Structural)]
pub enum Action {
    /// Nothing more.
    Nothing,
    /// Resize the drawing surface to the window's new size.
    Resize,
    /// Draw the scene and present it.
    Draw,
    /// Ask the window to be redrawn.
    RequestRedraw,
    /// Leave the event loop.
    Exit,
}

/// Everything a demo holds apart from its scene items.
#[derive(Clone, Copy, Debug, PartialEq, Eq, Structural)]
pub struct DemoState {
    /// When the last frame was animated, once one has been.
    pub last_animate: Option<u64>,
    pub buttons: ButtonStates,
    pub paused: bool,
    /// Rotation about the vertical axis, in tenths of a degree.
    pub yrot: u32,
    /// Rotation about the horizontal axis, in tenths of a degree.
    pub xrot: u32,
    /// Zoom factor, in thousandths.
    pub scale: u64,
}

impl DemoState {
    /// Angles lie within one turn, and the zoom factor is at least its floor.
    pub open spec fn wf(self) -> bool {
        &&& self.yrot < TURN
        &&& self.xrot < TURN
        &&& self.scale >= SCALE_FLOOR
    }
}

/// `angle` turned by `delta` tenths of a degree, within one turn.
pub open spec fn turned(angle: u32, delta: i32) -> u32 {
    ((angle + delta) % (TURN as int)) as u32
}

/// `scale` after a scroll of `steps`: lowered by one step per unit, never below the
/// floor, and saturating at the largest representable value.
pub open spec fn scrolled(scale: u64, steps: int) -> u64 {
    let v = scale - SCALE_STEP * steps;
    if v < SCALE_FLOOR {
        SCALE_FLOOR
    } else if v > u64::MAX {
        u64::MAX
    } else {
        v as u64
    }
}

/// The time elapsed from `last` to `now`; a clock that went backwards counts as none.
pub open spec fn elapsed(last: u64, now: u64) -> u64 {
    if now >= last {
        (now - last) as u64
    } else {
        0
    }
}

/// The duration handed to every scene item when the demo animates at `now`, if any:
/// none while paused, and none on the very first frame.
pub open spec fn frame_elapsed(s: DemoState, now: u64) -> Option<u64> {
    if s.paused {
        None
    } else {
        match s.last_animate {
            None => None,
            Some(last) => Some(elapsed(last, now)),
        }
    }
}

/// The state after a mouse motion: the camera turns only while the left button is held.
pub open spec fn after_mouse_move(s: DemoState, dx: i32, dy: i32) -> DemoState {
    if s.buttons.left == ElementState::Pressed {
        DemoState { yrot: turned(s.yrot, dx), xrot: turned(s.xrot, dy), ..s }
    } else {
        s
    }
}

/// The state after a scroll of `steps`.
pub open spec fn after_scroll(s: DemoState, steps: int) -> DemoState {
    DemoState { scale: scrolled(s.scale, steps), ..s }
}

/// The state after the pause flag flips.
pub open spec fn after_toggle(s: DemoState) -> DemoState {
    DemoState { paused: !s.paused, ..s }
}

/// The state after a frame is animated at `now`.
pub open spec fn after_animate(s: DemoState, now: u64) -> DemoState {
    DemoState { last_animate: Some(now), ..s }
}

/// The state after a button event.
pub open spec fn after_button(s: DemoState, button: u32, state: ElementState) -> DemoState {
    if button == 1 {
        DemoState { buttons: ButtonStates { left: state, ..s.buttons }, ..s }
    } else if button == 2 {
        DemoState { buttons: ButtonStates { middle: state, ..s.buttons }, ..s }
    } else if button == 3 {
        DemoState { buttons: ButtonStates { right: state, ..s.buttons }, ..s }
    } else {
        s
    }
}

/// Whether a typed character toggles the pause.
pub open spec fn is_pause_key(ch: char) -> bool {
    ch == 'f' || ch == 'F'
}

/// The state after `e` is handled.
pub open spec fn after_event(s: DemoState, e: Event) -> DemoState {
    match e {
        Event::ReceivedCharacter(ch) => if is_pause_key(ch) {
            after_toggle(s)
        } else {
            s
        },
        Event::MouseMotion { dx, dy } => after_mouse_move(s, dx, dy),
        Event::LineScroll(lines) => after_scroll(s, -lines),
        Event::PixelScroll(steps) => after_scroll(s, steps as int),
        Event::Button { button, state } => after_button(s, button, state),
        Event::Poll { now } => after_animate(s, now),
        _ => s,
    }
}

/// What the caller is asked to do after `e`.
pub open spec fn event_action(e: Event) -> Action {
    match e {
        Event::Resized => Action::Resize,
        Event::RedrawRequested => Action::Draw,
        Event::CloseRequested => Action::Exit,
        Event::Poll { .. } => Action::RequestRedraw,
        _ => Action::Nothing,
    }
}

/// The scene items after a frame animated with `step`: each advanced once by the same
/// duration, or all left as they were.
pub open spec fn animated<T: SceneItem>(items: Seq<T>, step: Option<u64>) -> Seq<T> {
    match step {
        None => items,
        Some(dt) => Seq::new(items.len(), |i: int| items[i].advanced(dt)),
    }
}

/// Drives a scene: camera orientation and zoom under mouse control, a pause switch, and
/// the per-frame time step handed to every scene item.
pub struct Demo<T> {
    last_animate: Option<u64>,
    pub button_states: ButtonStates,
    paused: bool,
    yrot: u32,
    xrot: u32,
    scale: u64,
    scene_items: Vec<T>,
}

impl<T> View for Demo<T> {
    type V = DemoState;

    closed spec fn view(&self) -> DemoState {
        DemoState {
            last_animate: self.last_animate,
            buttons: self.button_states,
            paused: self.paused,
            yrot: self.yrot,
            xrot: self.xrot,
            scale: self.scale,
        }
    }
}

/// A turn by `delta` leaves an angle within one turn where it was exactly when `delta` is
/// a whole number of turns.
proof fn lemma_turn_fixed(angle: u32, delta: i32)
    requires
        angle < TURN,
    ensures
        turned(angle, delta) == angle <==> (delta as int) % (TURN as int) == 0,
        turned(angle, delta) < TURN,
{
    let t = TURN as int;
    let a = angle as int;
    let d = delta as int;
    lemma_fundamental_div_mod(d, t);
    let q = d / t;
    let r = d % t;
    assert(a + d == q * t + (a + r)) by (nonlinear_arith)
        requires
            d == t * q + r,
    ;
    if a + r < t {
        lemma_fundamental_div_mod_converse(a + d, t, q, a + r);
    } else {
        assert(a + d == (q + 1) * t + (a + r - t)) by (nonlinear_arith)
            requires
                a + d == q * t + (a + r),
        ;
        lemma_fundamental_div_mod_converse(a + d, t, q + 1, a + r - t);
    }
}

/// Mouse motion turns the camera if and only if the left button is held: while it is
/// released no motion of any size changes the state, and while it is held each axis
/// turns unless its motion is a whole number of turns. Nothing but the angles changes.
pub proof fn lemma_mouse_turns_only_while_pressed(s: DemoState, dx: i32, dy: i32)
    requires
        s.wf(),
    ensures
        after_mouse_move(s, dx, dy).wf(),
        s.buttons.left != ElementState::Pressed ==> after_mouse_move(s, dx, dy) == s,
        s.buttons.left == ElementState::Pressed ==> {
            &&& (after_mouse_move(s, dx, dy).yrot != s.yrot <==> (dx as int) % (TURN as int) != 0)
            &&& (after_mouse_move(s, dx, dy).xrot != s.xrot <==> (dy as int) % (TURN as int) != 0)
        },
        after_mouse_move(s, dx, dy) == (DemoState {
            yrot: after_mouse_move(s, dx, dy).yrot,
            xrot: after_mouse_move(s, dx, dy).xrot,
            ..s
        }),
{
    lemma_turn_fixed(s.yrot, dx);
    lemma_turn_fixed(s.xrot, dy);
}

/// The zoom factor after scrolling by each of `steps` in turn.
pub open spec fn scrolled_all(scale: u64, steps: Seq<int>) -> u64
    decreases steps.len(),
{
    if steps.len() == 0 {
        scale
    } else {
        scrolled_all(scrolled(scale, steps[0]), steps.drop_first())
    }
}

/// No sequence of scrolls, however large, takes the zoom factor below its floor.
pub proof fn lemma_scale_never_below_floor(scale: u64, steps: Seq<int>)
    requires
        scale >= SCALE_FLOOR,
    ensures
        scrolled_all(scale, steps) >= SCALE_FLOOR,
    decreases steps.len(),
{
    if steps.len() > 0 {
        lemma_scale_never_below_floor(scrolled(scale, steps[0]), steps.drop_first());
    }
}

/// Animating a frame at `now` keeps the number of scene items. While running, and once a
/// previous frame is recorded, every item is advanced exactly once, all by the same time
/// since that frame; while paused, and on the first frame, none is.
pub proof fn lemma_frame_advances_each_item_once<T: SceneItem>(s: DemoState, items: Seq<T>, now: u64)
    ensures
        animated(items, frame_elapsed(s, now)).len() == items.len(),
        s.paused ==> animated(items, frame_elapsed(s, now)) == items,
        s.last_animate is None ==> animated(items, frame_elapsed(s, now)) == items,
        !s.paused && s.last_animate is Some ==> forall|i: int|
            0 <= i < items.len() ==> #[trigger] animated(items, frame_elapsed(s, now))[i]
                == items[i].advanced(elapsed(s.last_animate.unwrap(), now)),
{
}

/// Turns `angle` by `delta` tenths of a degree, keeping the result within one turn.
fn turn(angle: u32, delta: i32) -> (r: u32)
    requires
        angle < TURN,
    ensures
        r == turned(angle, delta),
        r < TURN,
{
    let sum: i64 = angle as i64 + delta as i64;
    if sum >= 0 {
        ((sum as u64) % (TURN as u64)) as u32
    } else {
        let back: u64 = ((-sum) as u64) % (TURN as u64);
        if back == 0 {
            0
        } else {
            (TURN as u64 - back) as u32
        }
    }
}

impl<T> Demo<T> {
    /// Angles lie within one turn and the zoom factor is at least its floor.
    #[verifier::type_invariant]
    closed spec fn inv(&self) -> bool {
        self@.wf()
    }
}

impl<T: SceneItem> Demo<T> {
    /// The scene items, in the order they were given.
    pub closed spec fn items(&self) -> Seq<T> {
        self.scene_items@
    }

    /// A demo over `scene_items`, facing straight ahead at half zoom, not yet animated,
    /// running, with every button released.
    pub fn new(scene_items: Vec<T>) -> (d: Self)
        ensures
            d@ == (DemoState {
                last_animate: None,
                buttons: ButtonStates {
                    left: ElementState::Released,
                    middle: ElementState::Released,
                    right: ElementState::Released,
                },
                paused: false,
                yrot: 0,
                xrot: 0,
                scale: SCALE_INITIAL,
            }),
            d@.wf(),
            d.items() == scene_items@,
    {
        Demo {
            last_animate: None,
            button_states: ButtonStates {
                left: ElementState::Released,
                middle: ElementState::Released,
                right: ElementState::Released,
            },
            paused: false,
            yrot: 0,
            xrot: 0,
            scale: SCALE_INITIAL,
            scene_items,
        }
    }

    /// Rotation about the vertical axis, in tenths of a degree.
    pub fn yrot(&self) -> (r: u32)
        ensures
            r == self@.yrot,
    {
        self.yrot
    }

    /// Rotation about the horizontal axis, in tenths of a degree.
    pub fn xrot(&self) -> (r: u32)
        ensures
            r == self@.xrot,
    {
        self.xrot
    }

    /// The zoom factor, in thousandths.
    pub fn scale(&self) -> (r: u64)
        ensures
            r == self@.scale,
    {
        self.scale
    }

    /// Whether animation is paused.
    pub fn is_paused(&self) -> (r: bool)
        ensures
            r == self@.paused,
    {
        self.paused
    }

    /// The scene items, for drawing in order.
    pub fn scene_items(&self) -> (r: &Vec<T>)
        ensures
            r@ == self.items(),
    {
        &self.scene_items
    }

    /// Turns the camera by the mouse motion (`dx` about the vertical axis, `dy` about
    /// the horizontal one, a tenth of a degree per unit), only while the left button is
    /// held.
    pub fn mouse_move(&mut self, dx: i32, dy: i32)
        ensures
            final(self)@ == after_mouse_move(old(self)@, dx, dy),
            final(self)@.wf(),
            final(self).items() == old(self).items(),
    {
        proof {
            use_type_invariant(&*self);
        }
        if self.button_states.left == ElementState::Pressed {
            self.yrot = turn(self.yrot, dx);
            self.xrot = turn(self.xrot, dy);
        }
    }

    /// Flips between running and paused.
    pub fn toggle_paused(&mut self)
        ensures
            final(self)@ == after_toggle(old(self)@),
            final(self).items() == old(self).items(),
    {
        proof {
            use_type_invariant(&*self);
        }
        self.paused = !self.paused;
    }

    /// Zooms out by one step per unit of `steps` (in by a negative amount), never below
    /// the floor.
    pub fn scroll_delta(&mut self, steps: i32)
        ensures
            final(self)@ == after_scroll(old(self)@, steps as int),
            final(self)@.wf(),
            final(self).items() == old(self).items(),
    {
        proof {
            use_type_invariant(&*self);
        }
        if steps >= 0 {
            let down: u64 = SCALE_STEP * steps as u64;
            if self.scale >= SCALE_FLOOR + down {
                self.scale = self.scale - down;
            } else {
                self.scale = SCALE_FLOOR;
            }
        } else {
            let up: u64 = SCALE_STEP * ((-(steps as i64)) as u64);
            if self.scale > u64::MAX - up {
                self.scale = u64::MAX;
            } else {
                self.scale = self.scale + up;
            }
        }
    }

    /// Animates one frame at `now` (microseconds on a monotonic clock): unless paused or
    /// on the very first frame, every scene item is advanced once by the time since the
    /// previous frame. The frame time is recorded either way.
    pub fn animate(&mut self, now: u64)
        ensures
            final(self)@ == after_animate(old(self)@, now),
            final(self).items() == animated(old(self).items(), frame_elapsed(old(self)@, now)),
    {
        proof {
            use_type_invariant(&*self);
        }
        if !self.paused {
            match self.last_animate {
                None => {},
                Some(last) => {
                    let dt: u64 = if now >= last {
                        now - last
                    } else {
                        0
                    };
                    let ghost before = self.scene_items@;
                    let ghost state = self@;
                    let n = self.scene_items.len();
                    for i in 0..n
                        invariant
                            n == before.len(),
                            self.scene_items@.len() == n,
                            forall|j: int| 0 <= j < i ==> self.scene_items@[j] == before[j].advanced(dt),
                            forall|j: int| i <= j < n ==> self.scene_items@[j] == before[j],
                            self@ == state,
                            state.wf(),
                    {
                        self.scene_items[i].anim(dt);
                    }
                    assert(self.scene_items@ =~= animated(before, Some(dt)));
                },
            }
        }
        self.last_animate = Some(now);
    }

    /// Handles one windowing event and says what the caller does next.
    pub fn handle_event(&mut self, event: Event) -> (action: Action)
        ensures
            action == event_action(event),
            final(self)@ == after_event(old(self)@, event),
            final(self)@.wf(),
            final(self).items() == match event {
                Event::Poll { now } => animated(old(self).items(), frame_elapsed(old(self)@, now)),
                _ => old(self).items(),
            },
    {
        proof {
            use_type_invariant(&*self);
        }
        match event {
            Event::Resized => Action::Resize,
            Event::RedrawRequested => Action::Draw,
            Event::CloseRequested => Action::Exit,
            Event::ReceivedCharacter(ch) => {
                if ch == 'f' || ch == 'F' {
                    self.toggle_paused();
                }
                Action::Nothing
            },
            Event::MouseMotion { dx, dy } => {
                self.mouse_move(dx, dy);
                Action::Nothing
            },
            Event::LineScroll(lines) => {
                let steps: i64 = -(lines as i64);
                if steps > i32::MAX as i64 {
                    self.scroll_delta(i32::MAX);
                    self.scroll_delta(1);
                } else {
                    self.scroll_delta(steps as i32);
                }
                Action::Nothing
            },
            Event::PixelScroll(steps) => {
                self.scroll_delta(steps);
                Action::Nothing
            },
            Event::Button { button, state } => {
                if button == 1 {
                    self.button_states.left = state;
                } else if button == 2 {
                    self.button_states.middle = state;
                } else if button == 3 {
                    self.button_states.right = state;
                }
                Action::Nothing
            },
            Event::Poll { now } => {
                self.animate(now);
                Action::RequestRedraw
            },
            Event::Other => Action::Nothing,
        }
    }
}

} // verus!
