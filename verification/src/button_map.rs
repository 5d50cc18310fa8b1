//! A map keyed by mouse button.

use crate::binding::{Action, Binding, ButtonId};
use vstd::prelude::*;

verus! {

/// A partial assignment of values to mouse buttons.
#[derive(Debug)]
pub struct ButtonMap<V> {
    /// Value of [`ButtonId::LeftClick`].
    pub left_click: Option<V>,
    /// Value of [`ButtonId::RightClick`].
    pub right_click: Option<V>,
    /// Value of [`ButtonId::MiddleClick`].
    pub middle_click: Option<V>,
    /// Value of [`ButtonId::Back`].
    pub back: Option<V>,
    /// Value of [`ButtonId::Forward`].
    pub forward: Option<V>,
    /// Value of [`ButtonId::DpiToggle`].
    pub dpi_toggle: Option<V>,
    /// Value of [`ButtonId::Thumbwheel`].
    pub thumbwheel: Option<V>,
    /// Value of [`ButtonId::ThumbwheelScrollUp`].
    pub thumbwheel_scroll_up: Option<V>,
    /// Value of [`ButtonId::ThumbwheelScrollDown`].
    pub thumbwheel_scroll_down: Option<V>,
    /// Value of [`ButtonId::GestureButton`].
    pub gesture_button: Option<V>,
}

impl<V> View for ButtonMap<V> {
    type V = Map<ButtonId, V>;

    open spec fn view(&self) -> Map<ButtonId, V> {
        Map::new(|b: ButtonId| self.slot(b) is Some, |b: ButtonId| self.slot(b)->0)
    }
}

impl<V> Default for ButtonMap<V> {
    fn default() -> (map: Self)
        ensures
            map == ButtonMap::<V>::empty(),
    {
        ButtonMap::new()
    }
}

impl<V> ButtonMap<V> {
    /// The map without entries.
    pub open spec fn empty() -> ButtonMap<V> {
        ButtonMap {
            left_click: None,
            right_click: None,
            middle_click: None,
            back: None,
            forward: None,
            dpi_toggle: None,
            thumbwheel: None,
            thumbwheel_scroll_up: None,
            thumbwheel_scroll_down: None,
            gesture_button: None,
        }
    }

    /// The value of a button, if it has one.
    pub open spec fn slot(self, button: ButtonId) -> Option<V> {
        match button {
            ButtonId::LeftClick => self.left_click,
            ButtonId::RightClick => self.right_click,
            ButtonId::MiddleClick => self.middle_click,
            ButtonId::Back => self.back,
            ButtonId::Forward => self.forward,
            ButtonId::DpiToggle => self.dpi_toggle,
            ButtonId::Thumbwheel => self.thumbwheel,
            ButtonId::ThumbwheelScrollUp => self.thumbwheel_scroll_up,
            ButtonId::ThumbwheelScrollDown => self.thumbwheel_scroll_down,
            ButtonId::GestureButton => self.gesture_button,
        }
    }

    /// The map with a button's slot replaced.
    pub open spec fn with_slot(self, button: ButtonId, slot: Option<V>) -> ButtonMap<V> {
        match button {
            ButtonId::LeftClick => ButtonMap { left_click: slot, ..self },
            ButtonId::RightClick => ButtonMap { right_click: slot, ..self },
            ButtonId::MiddleClick => ButtonMap { middle_click: slot, ..self },
            ButtonId::Back => ButtonMap { back: slot, ..self },
            ButtonId::Forward => ButtonMap { forward: slot, ..self },
            ButtonId::DpiToggle => ButtonMap { dpi_toggle: slot, ..self },
            ButtonId::Thumbwheel => ButtonMap { thumbwheel: slot, ..self },
            ButtonId::ThumbwheelScrollUp => ButtonMap { thumbwheel_scroll_up: slot, ..self },
            ButtonId::ThumbwheelScrollDown => ButtonMap { thumbwheel_scroll_down: slot, ..self },
            ButtonId::GestureButton => ButtonMap { gesture_button: slot, ..self },
        }
    }

    /// The map with a value put in for a button.
    pub open spec fn with(self, button: ButtonId, value: V) -> ButtonMap<V> {
        self.with_slot(button, Some(value))
    }

    /// The map with a button's value taken out.
    pub open spec fn without(self, button: ButtonId) -> ButtonMap<V> {
        self.with_slot(button, None)
    }

    /// The map with every value of `top` laid over this one's.
    pub open spec fn overlaid(self, top: ButtonMap<V>) -> ButtonMap<V> {
        ButtonMap {
            left_click: if top.left_click is Some { top.left_click } else { self.left_click },
            right_click: if top.right_click is Some { top.right_click } else { self.right_click },
            middle_click: if top.middle_click is Some { top.middle_click } else { self.middle_click },
            back: if top.back is Some { top.back } else { self.back },
            forward: if top.forward is Some { top.forward } else { self.forward },
            dpi_toggle: if top.dpi_toggle is Some { top.dpi_toggle } else { self.dpi_toggle },
            thumbwheel: if top.thumbwheel is Some { top.thumbwheel } else { self.thumbwheel },
            thumbwheel_scroll_up: if top.thumbwheel_scroll_up is Some { top.thumbwheel_scroll_up } else { self.thumbwheel_scroll_up },
            thumbwheel_scroll_down: if top.thumbwheel_scroll_down is Some { top.thumbwheel_scroll_down } else { self.thumbwheel_scroll_down },
            gesture_button: if top.gesture_button is Some { top.gesture_button } else { self.gesture_button },
        }
    }

    /// Number of buttons with a value.
    pub open spec fn count(self) -> nat {
        ((if self.left_click is Some { 1int } else { 0 })
            + (if self.right_click is Some { 1int } else { 0 })
            + (if self.middle_click is Some { 1int } else { 0 })
            + (if self.back is Some { 1int } else { 0 })
            + (if self.forward is Some { 1int } else { 0 })
            + (if self.dpi_toggle is Some { 1int } else { 0 })
            + (if self.thumbwheel is Some { 1int } else { 0 })
            + (if self.thumbwheel_scroll_up is Some { 1int } else { 0 })
            + (if self.thumbwheel_scroll_down is Some { 1int } else { 0 })
            + (if self.gesture_button is Some { 1int } else { 0 })) as nat
    }

    /// The map without entries.
    #[must_use]
    pub fn new() -> (map: Self)
        ensures
            map == ButtonMap::<V>::empty(),
            map@ == Map::<ButtonId, V>::empty(),
    {
        let map = ButtonMap {
            left_click: None,
            right_click: None,
            middle_click: None,
            back: None,
            forward: None,
            dpi_toggle: None,
            thumbwheel: None,
            thumbwheel_scroll_up: None,
            thumbwheel_scroll_down: None,
            gesture_button: None,
        };
        assert(map@ =~= Map::<ButtonId, V>::empty());
        map
    }

    /// The value of a button, if it has one.
    #[must_use]
    pub fn get(&self, button: ButtonId) -> (value: Option<&V>)
        ensures
            match value {
                Some(found) => self.slot(button) == Some(*found),
                None => self.slot(button) is None,
            },
    {
        match button {
            ButtonId::LeftClick => self.left_click.as_ref(),
            ButtonId::RightClick => self.right_click.as_ref(),
            ButtonId::MiddleClick => self.middle_click.as_ref(),
            ButtonId::Back => self.back.as_ref(),
            ButtonId::Forward => self.forward.as_ref(),
            ButtonId::DpiToggle => self.dpi_toggle.as_ref(),
            ButtonId::Thumbwheel => self.thumbwheel.as_ref(),
            ButtonId::ThumbwheelScrollUp => self.thumbwheel_scroll_up.as_ref(),
            ButtonId::ThumbwheelScrollDown => self.thumbwheel_scroll_down.as_ref(),
            ButtonId::GestureButton => self.gesture_button.as_ref(),
        }
    }

    /// Whether a button has a value.
    #[must_use]
    pub fn contains_key(&self, button: ButtonId) -> (found: bool)
        ensures
            found == (self.slot(button) is Some),
    {
        self.get(button).is_some()
    }

    /// Give a button a value, replacing the one it had.
    pub fn insert(&mut self, button: ButtonId, value: V)
        ensures
            *final(self) == old(self).with(button, value),
            final(self)@ == old(self)@.insert(button, value),
    {
        match button {
            ButtonId::LeftClick => self.left_click = Some(value),
            ButtonId::RightClick => self.right_click = Some(value),
            ButtonId::MiddleClick => self.middle_click = Some(value),
            ButtonId::Back => self.back = Some(value),
            ButtonId::Forward => self.forward = Some(value),
            ButtonId::DpiToggle => self.dpi_toggle = Some(value),
            ButtonId::Thumbwheel => self.thumbwheel = Some(value),
            ButtonId::ThumbwheelScrollUp => self.thumbwheel_scroll_up = Some(value),
            ButtonId::ThumbwheelScrollDown => self.thumbwheel_scroll_down = Some(value),
            ButtonId::GestureButton => self.gesture_button = Some(value),
        }
        assert(self@ =~= old(self)@.insert(button, value));
    }

    /// Take a button's value out and return it.
    pub fn remove(&mut self, button: ButtonId) -> (value: Option<V>)
        ensures
            value == old(self).slot(button),
            *final(self) == old(self).without(button),
            final(self)@ == old(self)@.remove(button),
    {
        let value = match button {
            ButtonId::LeftClick => self.left_click.take(),
            ButtonId::RightClick => self.right_click.take(),
            ButtonId::MiddleClick => self.middle_click.take(),
            ButtonId::Back => self.back.take(),
            ButtonId::Forward => self.forward.take(),
            ButtonId::DpiToggle => self.dpi_toggle.take(),
            ButtonId::Thumbwheel => self.thumbwheel.take(),
            ButtonId::ThumbwheelScrollUp => self.thumbwheel_scroll_up.take(),
            ButtonId::ThumbwheelScrollDown => self.thumbwheel_scroll_down.take(),
            ButtonId::GestureButton => self.gesture_button.take(),
        };
        assert(self@ =~= old(self)@.remove(button));
        value
    }

    /// Number of buttons with a value.
    #[must_use]
    pub fn len(&self) -> (count: usize)
        ensures
            count == self.count(),
    {
        let mut n: usize = 0;
        if self.left_click.is_some() {
            n += 1;
        }
        if self.right_click.is_some() {
            n += 1;
        }
        if self.middle_click.is_some() {
            n += 1;
        }
        if self.back.is_some() {
            n += 1;
        }
        if self.forward.is_some() {
            n += 1;
        }
        if self.dpi_toggle.is_some() {
            n += 1;
        }
        if self.thumbwheel.is_some() {
            n += 1;
        }
        if self.thumbwheel_scroll_up.is_some() {
            n += 1;
        }
        if self.thumbwheel_scroll_down.is_some() {
            n += 1;
        }
        if self.gesture_button.is_some() {
            n += 1;
        }
        n
    }

    /// Whether no button has a value.
    #[must_use]
    pub fn is_empty(&self) -> (empty: bool)
        ensures
            empty == (*self == ButtonMap::<V>::empty()),
    {
        self.len() == 0
    }
}

/// Copy an optional binding.
fn clone_binding(slot: &Option<Binding>) -> (copy: Option<Binding>)
    ensures
        copy == *slot,
{
    match slot {
        Some(binding) => Some(binding.clone()),
        None => None,
    }
}

/// Copy an optional action.
fn clone_action(slot: &Option<Action>) -> (copy: Option<Action>)
    ensures
        copy == *slot,
{
    match slot {
        Some(action) => Some(action.clone()),
        None => None,
    }
}

impl Clone for ButtonMap<Binding> {
    fn clone(&self) -> (copy: Self)
        ensures
            copy == *self,
    {
        ButtonMap {
            left_click: clone_binding(&self.left_click),
            right_click: clone_binding(&self.right_click),
            middle_click: clone_binding(&self.middle_click),
            back: clone_binding(&self.back),
            forward: clone_binding(&self.forward),
            dpi_toggle: clone_binding(&self.dpi_toggle),
            thumbwheel: clone_binding(&self.thumbwheel),
            thumbwheel_scroll_up: clone_binding(&self.thumbwheel_scroll_up),
            thumbwheel_scroll_down: clone_binding(&self.thumbwheel_scroll_down),
            gesture_button: clone_binding(&self.gesture_button),
        }
    }
}

impl Clone for ButtonMap<Action> {
    fn clone(&self) -> (copy: Self)
        ensures
            copy == *self,
    {
        ButtonMap {
            left_click: clone_action(&self.left_click),
            right_click: clone_action(&self.right_click),
            middle_click: clone_action(&self.middle_click),
            back: clone_action(&self.back),
            forward: clone_action(&self.forward),
            dpi_toggle: clone_action(&self.dpi_toggle),
            thumbwheel: clone_action(&self.thumbwheel),
            thumbwheel_scroll_up: clone_action(&self.thumbwheel_scroll_up),
            thumbwheel_scroll_down: clone_action(&self.thumbwheel_scroll_down),
            gesture_button: clone_action(&self.gesture_button),
        }
    }
}

impl ButtonMap<Binding> {
    /// Lay every binding of `top` over this map's.
    pub fn overlay(&mut self, top: &ButtonMap<Binding>)
        ensures
            *final(self) == old(self).overlaid(*top),
    {
        if top.left_click.is_some() {
            self.left_click = clone_binding(&top.left_click);
        }
        if top.right_click.is_some() {
            self.right_click = clone_binding(&top.right_click);
        }
        if top.middle_click.is_some() {
            self.middle_click = clone_binding(&top.middle_click);
        }
        if top.back.is_some() {
            self.back = clone_binding(&top.back);
        }
        if top.forward.is_some() {
            self.forward = clone_binding(&top.forward);
        }
        if top.dpi_toggle.is_some() {
            self.dpi_toggle = clone_binding(&top.dpi_toggle);
        }
        if top.thumbwheel.is_some() {
            self.thumbwheel = clone_binding(&top.thumbwheel);
        }
        if top.thumbwheel_scroll_up.is_some() {
            self.thumbwheel_scroll_up = clone_binding(&top.thumbwheel_scroll_up);
        }
        if top.thumbwheel_scroll_down.is_some() {
            self.thumbwheel_scroll_down = clone_binding(&top.thumbwheel_scroll_down);
        }
        if top.gesture_button.is_some() {
            self.gesture_button = clone_binding(&top.gesture_button);
        }
    }
}

/// A set of mouse buttons.
#[derive(Clone, Copy, Debug, PartialEq, Eq, Structural)]
pub struct ButtonSet {
    /// Whether [`ButtonId::LeftClick`] is in the set.
    pub left_click: bool,
    /// Whether [`ButtonId::RightClick`] is in the set.
    pub right_click: bool,
    /// Whether [`ButtonId::MiddleClick`] is in the set.
    pub middle_click: bool,
    /// Whether [`ButtonId::Back`] is in the set.
    pub back: bool,
    /// Whether [`ButtonId::Forward`] is in the set.
    pub forward: bool,
    /// Whether [`ButtonId::DpiToggle`] is in the set.
    pub dpi_toggle: bool,
    /// Whether [`ButtonId::Thumbwheel`] is in the set.
    pub thumbwheel: bool,
    /// Whether [`ButtonId::ThumbwheelScrollUp`] is in the set.
    pub thumbwheel_scroll_up: bool,
    /// Whether [`ButtonId::ThumbwheelScrollDown`] is in the set.
    pub thumbwheel_scroll_down: bool,
    /// Whether [`ButtonId::GestureButton`] is in the set.
    pub gesture_button: bool,
}

impl ButtonSet {
    /// Whether the set has a button.
    pub open spec fn has(self, button: ButtonId) -> bool {
        match button {
            ButtonId::LeftClick => self.left_click,
            ButtonId::RightClick => self.right_click,
            ButtonId::MiddleClick => self.middle_click,
            ButtonId::Back => self.back,
            ButtonId::Forward => self.forward,
            ButtonId::DpiToggle => self.dpi_toggle,
            ButtonId::Thumbwheel => self.thumbwheel,
            ButtonId::ThumbwheelScrollUp => self.thumbwheel_scroll_up,
            ButtonId::ThumbwheelScrollDown => self.thumbwheel_scroll_down,
            ButtonId::GestureButton => self.gesture_button,
        }
    }

    /// Whether the set has a button.
    #[must_use]
    pub fn contains(&self, button: ButtonId) -> (found: bool)
        ensures
            found == self.has(button),
    {
        match button {
            ButtonId::LeftClick => self.left_click,
            ButtonId::RightClick => self.right_click,
            ButtonId::MiddleClick => self.middle_click,
            ButtonId::Back => self.back,
            ButtonId::Forward => self.forward,
            ButtonId::DpiToggle => self.dpi_toggle,
            ButtonId::Thumbwheel => self.thumbwheel,
            ButtonId::ThumbwheelScrollUp => self.thumbwheel_scroll_up,
            ButtonId::ThumbwheelScrollDown => self.thumbwheel_scroll_down,
            ButtonId::GestureButton => self.gesture_button,
        }
    }
}

impl<V> ButtonMap<V> {
    /// The buttons with a value.
    #[must_use]
    pub fn keys(&self) -> (buttons: ButtonSet)
        ensures
            forall|button: ButtonId| #[trigger] buttons.has(button) == (self.slot(button) is Some),
    {
        ButtonSet {
            left_click: self.left_click.is_some(),
            right_click: self.right_click.is_some(),
            middle_click: self.middle_click.is_some(),
            back: self.back.is_some(),
            forward: self.forward.is_some(),
            dpi_toggle: self.dpi_toggle.is_some(),
            thumbwheel: self.thumbwheel.is_some(),
            thumbwheel_scroll_up: self.thumbwheel_scroll_up.is_some(),
            thumbwheel_scroll_down: self.thumbwheel_scroll_down.is_some(),
            gesture_button: self.gesture_button.is_some(),
        }
    }
}

/// What is written for a button is read back, and no other button changes.
pub proof fn law_button_read_after_write<V>(
    map: ButtonMap<V>,
    written: ButtonId,
    read: ButtonId,
    slot: Option<V>,
)
    ensures
        map.with_slot(written, slot).slot(read) == if read == written {
            slot
        } else {
            map.slot(read)
        },
{
}

/// Two maps that agree on every button are equal.
pub proof fn lemma_same_slots<V>(a: ButtonMap<V>, b: ButtonMap<V>)
    requires
        forall|button: ButtonId| #[trigger] a.slot(button) == b.slot(button),
    ensures
        a == b,
{
    assert(a.slot(ButtonId::LeftClick) == b.slot(ButtonId::LeftClick));
    assert(a.slot(ButtonId::RightClick) == b.slot(ButtonId::RightClick));
    assert(a.slot(ButtonId::MiddleClick) == b.slot(ButtonId::MiddleClick));
    assert(a.slot(ButtonId::Back) == b.slot(ButtonId::Back));
    assert(a.slot(ButtonId::Forward) == b.slot(ButtonId::Forward));
    assert(a.slot(ButtonId::DpiToggle) == b.slot(ButtonId::DpiToggle));
    assert(a.slot(ButtonId::Thumbwheel) == b.slot(ButtonId::Thumbwheel));
    assert(a.slot(ButtonId::ThumbwheelScrollUp) == b.slot(ButtonId::ThumbwheelScrollUp));
    assert(a.slot(ButtonId::ThumbwheelScrollDown) == b.slot(ButtonId::ThumbwheelScrollDown));
    assert(a.slot(ButtonId::GestureButton) == b.slot(ButtonId::GestureButton));
}

/// Each button has the slot of its own name.
pub proof fn law_buttons_have_their_own_slots<V>(map: ButtonMap<V>, set: ButtonSet)
    ensures
        map.slot(ButtonId::LeftClick) == map.left_click,
        map.slot(ButtonId::RightClick) == map.right_click,
        map.slot(ButtonId::MiddleClick) == map.middle_click,
        map.slot(ButtonId::Back) == map.back,
        map.slot(ButtonId::Forward) == map.forward,
        map.slot(ButtonId::DpiToggle) == map.dpi_toggle,
        map.slot(ButtonId::Thumbwheel) == map.thumbwheel,
        map.slot(ButtonId::ThumbwheelScrollUp) == map.thumbwheel_scroll_up,
        map.slot(ButtonId::ThumbwheelScrollDown) == map.thumbwheel_scroll_down,
        map.slot(ButtonId::GestureButton) == map.gesture_button,
        set.has(ButtonId::LeftClick) == set.left_click,
        set.has(ButtonId::RightClick) == set.right_click,
        set.has(ButtonId::MiddleClick) == set.middle_click,
        set.has(ButtonId::Back) == set.back,
        set.has(ButtonId::Forward) == set.forward,
        set.has(ButtonId::DpiToggle) == set.dpi_toggle,
        set.has(ButtonId::Thumbwheel) == set.thumbwheel,
        set.has(ButtonId::ThumbwheelScrollUp) == set.thumbwheel_scroll_up,
        set.has(ButtonId::ThumbwheelScrollDown) == set.thumbwheel_scroll_down,
        set.has(ButtonId::GestureButton) == set.gesture_button,
{
}

/// An overlay decides exactly the buttons that it binds; every other button keeps what
/// it had below.
pub proof fn law_overlay_decides_what_it_binds<V>(
    base: ButtonMap<V>,
    top: ButtonMap<V>,
    button: ButtonId,
)
    ensures
        top.slot(button) is Some ==> base.overlaid(top).slot(button) == top.slot(button),
        top.slot(button) is None ==> base.overlaid(top).slot(button) == base.slot(button),
        base.overlaid(ButtonMap::empty()) == base,
        ButtonMap::empty().overlaid(top) == top,
{
}

/// An empty map binds nothing, a binding is found where it was put, and a removed one is
/// not found any more.
pub proof fn law_bound_until_removed<V>(map: ButtonMap<V>, button: ButtonId, value: V)
    ensures
        ButtonMap::<V>::empty().slot(button) is None,
        map.with(button, value).slot(button) == Some(value),
        map.without(button).slot(button) is None,
        map.slot(button) is None ==> map.without(button) == map,
{
}

/// A map counts its bound buttons: one more with each new one, and one less with each
/// that is removed.
pub proof fn law_bound_buttons_are_counted<V>(map: ButtonMap<V>, button: ButtonId, value: V)
    ensures
        map.with(button, value).count() == map.count() + if map.slot(button) is None {
            1int
        } else {
            0
        },
        map.without(button).count() == map.count() - if map.slot(button) is Some {
            1int
        } else {
            0
        },
{
    match button {
        ButtonId::LeftClick => {},
        ButtonId::RightClick => {},
        ButtonId::MiddleClick => {},
        ButtonId::Back => {},
        ButtonId::Forward => {},
        ButtonId::DpiToggle => {},
        ButtonId::Thumbwheel => {},
        ButtonId::ThumbwheelScrollUp => {},
        ButtonId::ThumbwheelScrollDown => {},
        ButtonId::GestureButton => {},
    }
}

/// A map counts no button exactly when it binds none.
pub proof fn law_empty_map_counts_nothing<V>(map: ButtonMap<V>)
    ensures
        map.count() == 0 <==> map == ButtonMap::<V>::empty(),
        ButtonMap::<V>::empty().count() == 0,
{
}

} // verus!
