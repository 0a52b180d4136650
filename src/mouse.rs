//! Mouse buttons: the latch that keeps a short click visible for one frame,
//! the mapping from window-level buttons to input slots, and the five slots.
use vstd::prelude::*;

verus! {

/// Number of mouse-button slots in the GUI's input state.
pub const BUTTON_SLOTS: usize = 5;

/// One mouse button as seen between two frames.
///
/// `held` is the current physical state. `pressed_this_frame` remembers a
/// press since the last sample, so that a press released before the frame
/// samples it is still reported once.
#[derive(Clone, Copy, Debug, PartialEq, Eq, Structural)]
pub struct Button {
    pub held: bool,
    pub pressed_this_frame: bool,
}

/// The button after a press (`true`) or release (`false`) is recorded.
pub open spec fn after_set(b: Button, pressed: bool) -> Button {
    Button { held: pressed, pressed_this_frame: b.pressed_this_frame || pressed }
}

/// The button after a frame has sampled it.
pub open spec fn after_sample(b: Button) -> Button {
    Button { held: b.held, pressed_this_frame: false }
}

/// What a frame reads for one slot.
pub open spec fn sampled(b: Button) -> bool {
    b.held || b.pressed_this_frame
}

impl Button {
    /// A released button with no pending press.
    pub fn new() -> (r: Button)
        ensures
            !r.held,
            !r.pressed_this_frame,
    {
        Button { held: false, pressed_this_frame: false }
    }

    /// Records a press (`true`) or a release (`false`).
    pub fn set(&mut self, pressed: bool)
        ensures
            *final(self) == after_set(*old(self), pressed),
    {
        self.held = pressed;
        if pressed {
            self.pressed_this_frame = true;
        }
    }

    /// Samples the button for a frame: down if it is held or was pressed since
    /// the last sample. Clears the pending press.
    pub fn get(&mut self) -> (r: bool)
        ensures
            r == sampled(*old(self)),
            *final(self) == after_sample(*old(self)),
    {
        let pressed = self.pressed_this_frame;
        self.pressed_this_frame = false;
        self.held || pressed
    }
}

/// A mouse button as the windowing layer names it.
#[derive(Clone, Copy, Debug, PartialEq, Eq, Structural)]
pub enum MouseButton {
    Left,
    Middle,
    Right,
    Back,
    Forward,
    Other(u8),
}

/// Where the middle and right buttons go.
///
/// The direct adapter puts the middle button in slot 1 and the right button in
/// slot 2; the suspendable adapter swaps them.
#[derive(Clone, Copy, Debug, PartialEq, Eq, Structural)]
pub enum ButtonLayout {
    MiddleFirst,
    RightFirst,
}

/// The slot that a button lands in, if any.
pub open spec fn slot_of(layout: ButtonLayout, button: MouseButton) -> Option<nat> {
    match button {
        MouseButton::Left => Some(0),
        MouseButton::Middle => match layout {
            ButtonLayout::MiddleFirst => Some(1),
            ButtonLayout::RightFirst => Some(2),
        },
        MouseButton::Right => match layout {
            ButtonLayout::MiddleFirst => Some(2),
            ButtonLayout::RightFirst => Some(1),
        },
        MouseButton::Other(n) => if n == 3 || n == 4 {
            Some(n as nat)
        } else {
            None
        },
        _ => None,
    }
}

/// The slot that `button` lands in under `layout`; `None` for buttons that
/// have no slot (back, forward and numbered buttons other than 3 and 4).
pub fn button_slot(layout: ButtonLayout, button: MouseButton) -> (r: Option<usize>)
    ensures
        r matches Some(i) ==> i < BUTTON_SLOTS,
        r.is_some() == slot_of(layout, button).is_some(),
        r matches Some(i) ==> slot_of(layout, button) == Some(i as nat),
{
    match button {
        MouseButton::Left => Some(0),
        MouseButton::Middle => match layout {
            ButtonLayout::MiddleFirst => Some(1),
            ButtonLayout::RightFirst => Some(2),
        },
        MouseButton::Right => match layout {
            ButtonLayout::MiddleFirst => Some(2),
            ButtonLayout::RightFirst => Some(1),
        },
        MouseButton::Other(n) => if n == 3 || n == 4 {
            Some(n as usize)
        } else {
            None
        },
        _ => None,
    }
}

/// The five button slots, in input-state order.
#[derive(Clone, Copy, Debug)]
pub struct MouseButtons {
    pub buttons: [Button; 5],
}

impl MouseButtons {
    /// All buttons released, no pending press.
    pub fn new() -> (r: MouseButtons)
        ensures
            forall|i: int| 0 <= i < 5 ==> !r.buttons@[i].held && !r.buttons@[i].pressed_this_frame,
    {
        MouseButtons { buttons: [Button::new(), Button::new(), Button::new(), Button::new(), Button::new()] }
    }

    /// Applies a press (`pressed`) or release of `button`. A button without a
    /// slot leaves every slot unchanged.
    pub fn set(&mut self, layout: ButtonLayout, button: MouseButton, pressed: bool)
        ensures
            match slot_of(layout, button) {
                Some(i) => final(self).buttons@ == old(self).buttons@.update(
                    i as int,
                    after_set(old(self).buttons@[i as int], pressed),
                ),
                None => *final(self) == *old(self),
            },
    {
        match button_slot(layout, button) {
            Some(i) => {
                let mut b = self.buttons[i];
                b.set(pressed);
                self.buttons[i] = b;
            },
            None => {},
        }
    }

    /// Samples all five slots for a frame and clears every pending press.
    pub fn sample(&mut self) -> (r: Vec<bool>)
        ensures
            r@.len() == 5,
            forall|i: int| 0 <= i < 5 ==> r@[i] == sampled(#[trigger] old(self).buttons@[i]),
            forall|i: int|
                0 <= i < 5 ==> #[trigger] final(self).buttons@[i] == after_sample(old(self).buttons@[i]),
    {
        let mut r: Vec<bool> = Vec::new();
        let mut i: usize = 0;
        while i < BUTTON_SLOTS
            invariant
                i <= 5,
                r@.len() == i,
                forall|j: int| 0 <= j < i ==> r@[j] == sampled(#[trigger] old(self).buttons@[j]),
                forall|j: int|
                    0 <= j < i ==> #[trigger] self.buttons@[j] == after_sample(old(self).buttons@[j]),
                forall|j: int| i <= j < 5 ==> #[trigger] self.buttons@[j] == old(self).buttons@[j],
            decreases 5 - i,
        {
            let mut b = self.buttons[i];
            let down = b.get();
            self.buttons[i] = b;
            r.push(down);
            i = i + 1;
        }
        r
    }
}

/// A press and a release that both arrive between two frames are seen as one
/// click: the first frame after them reads the button as down, the frame after
/// that reads it as up (if nothing else arrives in between).
pub proof fn lemma_click_between_frames(b: Button)
    ensures
        sampled(after_set(after_set(b, true), false)),
        !sampled(after_sample(after_set(after_set(b, true), false))),
{
}

} // verus!
