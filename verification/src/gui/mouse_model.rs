//! The interactive mouse model: what its cards and hotspots show, and how they
//! react.

use crate::binding::{default_action, default_binding, Action, Binding, ButtonId, GestureDirection};
use crate::button_map::ButtonMap;
use crate::device::{clone_opt_text, opt_text, opt_text_eq};
use crate::gui::picker::{action_icon_path, icon_of, GESTURE_BUTTON_ICON};
use vstd::prelude::*;

verus! {

/// A binding menu that can be open: from a button's card, or from its hotspot.
#[derive(Clone, Copy, Debug, PartialEq, Eq, Structural)]
pub enum BindingPopover {
    /// From the card.
    Label(ButtonId),
    /// From the hotspot.
    Hotspot(ButtonId),
}

/// Scratch state of the mouse model.
#[derive(Debug)]
pub struct MouseModelView {
    /// Key of the shown device.
    pub current_device_key: Option<String>,
    /// The button under the pointer.
    pub hovered: Option<ButtonId>,
    /// The open binding menu.
    pub open_binding_popover: Option<BindingPopover>,
    /// The direction whose action list is open in the gesture menu.
    pub gesture_active_dir: Option<GestureDirection>,
}

/// The content of a [`MouseModelView`].
pub struct MouseModel {
    /// Key of the shown device.
    pub device: Option<Seq<char>>,
    /// The button under the pointer.
    pub hovered: Option<ButtonId>,
    /// The open binding menu.
    pub popover: Option<BindingPopover>,
    /// The direction whose action list is open.
    pub direction: Option<GestureDirection>,
}

impl View for MouseModelView {
    type V = MouseModel;

    open spec fn view(&self) -> MouseModel {
        MouseModel {
            device: opt_text(self.current_device_key),
            hovered: self.hovered,
            popover: self.open_binding_popover,
            direction: self.gesture_active_dir,
        }
    }
}

impl MouseModel {
    /// With a device shown: another device starts with nothing open.
    pub open spec fn showing(self, device: Option<Seq<char>>) -> MouseModel {
        if self.device == device {
            self
        } else {
            MouseModel { device, hovered: None, popover: None, direction: None }
        }
    }

    /// With a binding menu opened or closed. Closing one that is not open changes
    /// nothing.
    pub open spec fn with_popover(self, popover: BindingPopover, open: bool) -> MouseModel {
        if open {
            MouseModel { popover: Some(popover), ..self }
        } else if self.popover == Some(popover) {
            MouseModel { popover: None, ..self }
        } else {
            self
        }
    }

    /// With the pointer entering or leaving a button. Leaving one that the pointer
    /// is not on changes nothing.
    pub open spec fn with_hover(self, button: ButtonId, entered: bool) -> MouseModel {
        if entered {
            MouseModel { hovered: Some(button), ..self }
        } else if self.hovered == Some(button) {
            MouseModel { hovered: None, ..self }
        } else {
            self
        }
    }
}

impl MouseModelView {
    /// The view at launch.
    #[must_use]
    pub fn new() -> (view: MouseModelView)
        ensures
            view@ == (MouseModel { device: None, hovered: None, popover: None, direction: None }),
    {
        MouseModelView {
            current_device_key: None,
            hovered: None,
            open_binding_popover: None,
            gesture_active_dir: None,
        }
    }

    /// The direction whose action list is open in the gesture menu.
    #[must_use]
    pub fn gesture_selected_dir(&self) -> (direction: Option<GestureDirection>)
        ensures
            direction == self@.direction,
    {
        self.gesture_active_dir
    }

    /// Open or close a direction's action list.
    pub fn set_gesture_selected_dir(&mut self, direction: Option<GestureDirection>)
        ensures
            final(self)@ == (MouseModel { direction, ..old(self)@ }),
    {
        self.gesture_active_dir = direction;
    }

    /// Open or close a binding menu.
    pub fn set_binding_popover_open(&mut self, popover: BindingPopover, open: bool)
        ensures
            final(self)@ == old(self)@.with_popover(popover, open),
    {
        if open {
            self.open_binding_popover = Some(popover);
        } else if let Some(shown) = self.open_binding_popover {
            if shown == popover {
                self.open_binding_popover = None;
            }
        }
    }

    /// Open or close the gesture menu; closing it also closes its action list.
    pub fn gesture_popover_changed(&mut self, popover: BindingPopover, open: bool)
        ensures
            final(self)@ == (MouseModel {
                direction: if open {
                    old(self)@.direction
                } else {
                    None
                },
                ..old(self)@.with_popover(popover, open)
            }),
    {
        self.set_binding_popover_open(popover, open);
        if !open {
            self.gesture_active_dir = None;
        }
    }

    /// The pointer enters or leaves a button.
    pub fn hover_changed(&mut self, button: ButtonId, entered: bool)
        ensures
            final(self)@ == old(self)@.with_hover(button, entered),
    {
        if entered {
            self.hovered = Some(button);
        } else if let Some(hovered) = self.hovered {
            if hovered == button {
                self.hovered = None;
            }
        }
    }

    /// Show a device. Another device starts with nothing hovered and nothing open.
    pub fn show_device(&mut self, key: &Option<String>)
        ensures
            final(self)@ == old(self)@.showing(opt_text(*key)),
    {
        if !opt_text_eq(&self.current_device_key, key) {
            self.current_device_key = clone_opt_text(key);
            self.hovered = None;
            self.open_binding_popover = None;
            self.gesture_active_dir = None;
        }
    }

    /// The button that is highlighted: the one under the pointer, or else the one
    /// clicked last.
    #[must_use]
    pub fn highlight(&self, active: Option<ButtonId>) -> (button: Option<ButtonId>)
        ensures
            button == if self@.hovered is Some {
                self@.hovered
            } else {
                active
            },
    {
        match self.hovered {
            Some(button) => Some(button),
            None => active,
        }
    }

    /// Whether a button's card or hotspot is drawn highlighted: it is under the
    /// pointer, was clicked last, or its menu is open.
    #[must_use]
    pub fn is_highlighted(&self, button: ButtonId, active: Option<ButtonId>, open: bool) -> (lit:
        bool)
        ensures
            lit == (self@.hovered == Some(button) || active == Some(button) || open),
    {
        let hovered = match self.hovered {
            Some(hovered) => hovered == button,
            None => false,
        };
        let clicked = match active {
            Some(active) => active == button,
            None => false,
        };
        hovered || clicked || open
    }
}

/// The buttons that can have gestures, in display order.
pub open spec fn gesture_order() -> Seq<ButtonId> {
    seq![ButtonId::GestureButton, ButtonId::MiddleClick, ButtonId::Back, ButtonId::Forward]
}

/// The buttons of a device that can have gestures.
pub open spec fn capable_of(labels: Seq<ButtonId>) -> Seq<ButtonId> {
    gesture_order().filter(|button: ButtonId| labels.contains(button))
}

/// Whether a device's model shows a button.
fn has_button(labels: &Vec<ButtonId>, button: ButtonId) -> (found: bool)
    ensures
        found == labels@.contains(button),
{
    let mut i: usize = 0;
    while i < labels.len()
        invariant
            i <= labels@.len(),
            forall|j: int| 0 <= j < i ==> labels@[j] != button,
        decreases labels@.len() - i,
    {
        if labels[i] == button {
            assert(labels@[i as int] == button);
            return true;
        }
        i += 1;
    }
    false
}

/// The buttons of a device that can have gestures, in display order: the dedicated
/// gesture button first, then the middle, back and forward buttons.
#[must_use]
pub fn gesture_capable_buttons(labels: &Vec<ButtonId>) -> (capable: Vec<ButtonId>)
    ensures
        capable@ == capable_of(labels@),
{
    let mut capable: Vec<ButtonId> = Vec::new();
    if has_button(labels, ButtonId::GestureButton) {
        capable.push(ButtonId::GestureButton);
    }
    if has_button(labels, ButtonId::MiddleClick) {
        capable.push(ButtonId::MiddleClick);
    }
    if has_button(labels, ButtonId::Back) {
        capable.push(ButtonId::Back);
    }
    if has_button(labels, ButtonId::Forward) {
        capable.push(ButtonId::Forward);
    }
    proof {
        let keep = |button: ButtonId| labels@.contains(button);
        let order = gesture_order();
        reveal_with_fuel(Seq::filter, 5);
        assert(order.drop_last() =~= seq![
            ButtonId::GestureButton,
            ButtonId::MiddleClick,
            ButtonId::Back,
        ]);
        assert(order.drop_last().drop_last() =~= seq![
            ButtonId::GestureButton,
            ButtonId::MiddleClick,
        ]);
        assert(order.drop_last().drop_last().drop_last() =~= seq![ButtonId::GestureButton]);
        assert(order.drop_last().drop_last().drop_last().drop_last() =~= Seq::<ButtonId>::empty());
        assert(capable@ =~= order.filter(keep));
    }
    capable
}

/// The name of a button as the choice for gestures.
pub open spec fn owner_label(button: ButtonId) -> Seq<char> {
    match button {
        ButtonId::GestureButton => "Gesture Button"@,
        ButtonId::MiddleClick => "Middle"@,
        ButtonId::Back => "Back"@,
        ButtonId::Forward => "Forward"@,
        other => other.label_text(),
    }
}

/// Short name of a button as the choice for gestures.
#[must_use]
pub fn gesture_owner_label(button: ButtonId) -> (label: &'static str)
    ensures
        label@ == owner_label(button),
{
    match button {
        ButtonId::GestureButton => "Gesture Button",
        ButtonId::MiddleClick => "Middle",
        ButtonId::Back => "Back",
        ButtonId::Forward => "Forward",
        other => other.label(),
    }
}

/// The button whose gestures are shown.
pub open spec fn owner_among(owner: Option<ButtonId>, capable: Seq<ButtonId>) -> Option<ButtonId> {
    match owner {
        Some(button) => if capable.contains(button) {
            Some(button)
        } else {
            None
        },
        None => None,
    }
}

/// The button whose gestures are shown: only one that the device has.
#[must_use]
pub fn shown_gesture_owner(owner: Option<ButtonId>, capable: &Vec<ButtonId>) -> (shown: Option<
    ButtonId,
>)
    ensures
        shown == owner_among(owner, capable@),
{
    match owner {
        Some(button) => if has_button(capable, button) {
            Some(button)
        } else {
            None
        },
        None => None,
    }
}

/// Position of a button in the fixed order of all buttons.
pub open spec fn button_number(button: ButtonId) -> int {
    match button {
        ButtonId::LeftClick => 0,
        ButtonId::RightClick => 1,
        ButtonId::MiddleClick => 2,
        ButtonId::Back => 3,
        ButtonId::Forward => 4,
        ButtonId::DpiToggle => 5,
        ButtonId::Thumbwheel => 6,
        ButtonId::ThumbwheelScrollUp => 7,
        ButtonId::ThumbwheelScrollDown => 8,
        ButtonId::GestureButton => 9,
    }
}

/// One chip of the gesture-button selector.
#[derive(Clone, Copy, Debug)]
pub struct OwnerChip {
    /// The button; none switches gestures off.
    pub button: Option<ButtonId>,
    /// Number of the chip.
    pub id: usize,
    /// What is written on it.
    pub label: &'static str,
    /// Whether it is the chosen one.
    pub selected: bool,
}

/// A chip shows a choice.
pub open spec fn is_owner_chip(
    chip: OwnerChip,
    button: Option<ButtonId>,
    owner: Option<ButtonId>,
) -> bool {
    &&& chip.button == button
    &&& chip.id == match button {
        Some(button) => button_number(button) + 1,
        None => 0,
    }
    &&& chip.label@ == match button {
        Some(button) => owner_label(button),
        None => "Off"@,
    }
    &&& chip.selected == (button == owner)
}

/// The chip of a choice in the gesture-button selector.
#[must_use]
pub fn owner_chip(button: Option<ButtonId>, owner: Option<ButtonId>) -> (chip: OwnerChip)
    ensures
        is_owner_chip(chip, button, owner),
{
    let selected = match (button, owner) {
        (Some(a), Some(b)) => a == b,
        (None, None) => true,
        _ => false,
    };
    match button {
        None => OwnerChip { button, id: 0, label: "Off", selected },
        Some(choice) => {
            let number: usize = match choice {
                ButtonId::LeftClick => 0,
                ButtonId::RightClick => 1,
                ButtonId::MiddleClick => 2,
                ButtonId::Back => 3,
                ButtonId::Forward => 4,
                ButtonId::DpiToggle => 5,
                ButtonId::Thumbwheel => 6,
                ButtonId::ThumbwheelScrollUp => 7,
                ButtonId::ThumbwheelScrollDown => 8,
                ButtonId::GestureButton => 9,
            };
            OwnerChip { button, id: number + 1, label: gesture_owner_label(choice), selected }
        },
    }
}

/// A text that is shown: a fixed one to be translated, a preset's number, or a text
/// that is shown as it is.
#[derive(Debug)]
pub enum ShownText {
    /// To be translated.
    Fixed(String),
    /// A resolution preset, numbered from one.
    DpiPreset(u8),
    /// Shown as it is.
    Verbatim(String),
}

/// The content of a [`ShownText`].
pub enum ShownModel {
    /// To be translated.
    Fixed(Seq<char>),
    /// A resolution preset, numbered from one.
    DpiPreset(u8),
    /// Shown as it is.
    Verbatim(Seq<char>),
}

impl View for ShownText {
    type V = ShownModel;

    open spec fn view(&self) -> ShownModel {
        match *self {
            ShownText::Fixed(text) => ShownModel::Fixed(text@),
            ShownText::DpiPreset(number) => ShownModel::DpiPreset(number),
            ShownText::Verbatim(text) => ShownModel::Verbatim(text@),
        }
    }
}

/// The text of an action: a preset shows its number, a shortcut its keys.
pub open spec fn action_text(action: Action) -> ShownModel {
    match action {
        Action::SetDpiPreset(index) => ShownModel::DpiPreset((index + 1) as u8),
        Action::CustomShortcut(combo) => ShownModel::Verbatim(combo.label_text()),
        other => ShownModel::Fixed(other.label_text()),
    }
}

/// The text of an action: a preset shows its number, a shortcut its keys.
#[must_use]
pub fn localized_action_label(action: &Action) -> (shown: ShownText)
    requires
        *action != Action::SetDpiPreset(255),
    ensures
        shown@ == action_text(*action),
{
    match action {
        Action::SetDpiPreset(index) => ShownText::DpiPreset(*index + 1),
        Action::CustomShortcut(combo) => ShownText::Verbatim(combo.rendered_label()),
        other => ShownText::Fixed(other.label()),
    }
}

/// What a button's card says about its binding.
#[derive(Debug)]
pub struct BindingLabel {
    /// The text.
    pub text: ShownText,
    /// Whether the button has its default action.
    pub is_default: bool,
    /// The icon.
    pub icon: &'static str,
}

/// The action of a button's card.
pub open spec fn card_action(bindings: ButtonMap<Action>, button: ButtonId) -> Action {
    match bindings.slot(button) {
        Some(action) => action,
        None => default_action(button),
    }
}

/// A card's text says what the button does.
pub open spec fn is_label_of(
    label: BindingLabel,
    button: ButtonId,
    owner: Option<ButtonId>,
    gesture: Option<Binding>,
    bindings: ButtonMap<Action>,
) -> bool {
    if owner == Some(button) {
        &&& !label.is_default
        &&& if gesture matches Some(binding) && binding is Pan {
            label.text@ == ShownModel::Fixed("Pan"@) && label.icon@
                == "action-icons/scroll-text.svg"@
        } else {
            label.text@ == ShownModel::Fixed("5 directions"@) && label.icon@
                == GESTURE_BUTTON_ICON@
        }
    } else {
        let action = card_action(bindings, button);
        &&& label.text@ == action_text(action)
        &&& label.is_default == action.same_as(default_action(button))
        &&& label.icon@ == icon_of(action)
    }
}

/// Whether a card's text can be given: a summary always can, and an action unless it
/// is the preset whose number is past the last one that is shown.
pub open spec fn can_label(
    button: ButtonId,
    owner: Option<ButtonId>,
    bindings: ButtonMap<Action>,
) -> bool {
    owner == Some(button) || card_action(bindings, button) != Action::SetDpiPreset(255)
}

/// What a button's card says: a summary for the button that has the gestures, and
/// the action that is performed for every other one.
#[must_use]
pub fn binding_label(
    button: ButtonId,
    owner: Option<ButtonId>,
    gesture: Option<&Binding>,
    bindings: &ButtonMap<Action>,
) -> (label: BindingLabel)
    requires
        can_label(button, owner, *bindings),
    ensures
        is_label_of(
            label,
            button,
            owner,
            match gesture {
                Some(binding) => Some(*binding),
                None => None,
            },
            *bindings,
        ),
{
    let owns = match owner {
        Some(owner) => owner == button,
        None => false,
    };
    if owns {
        let pan = match gesture {
            Some(binding) => binding.is_pan(),
            None => false,
        };
        if pan {
            return BindingLabel {
                text: ShownText::Fixed("Pan".to_owned()),
                is_default: false,
                icon: "action-icons/scroll-text.svg",
            };
        }
        return BindingLabel {
            text: ShownText::Fixed("5 directions".to_owned()),
            is_default: false,
            icon: GESTURE_BUTTON_ICON,
        };
    }
    let action = match bindings.get(button) {
        Some(action) => action.clone(),
        None => default_binding(button),
    };
    BindingLabel {
        text: localized_action_label(&action),
        is_default: action == default_binding(button),
        icon: action_icon_path(&action),
    }
}

/// The menu that a button's card and hotspot open.
#[derive(Clone, Copy, Debug, PartialEq, Eq, Structural)]
pub enum BindingMenu {
    /// The gesture menu.
    Gesture,
    /// The list of single actions.
    Actions,
}

/// The menu that a button's card and hotspot open: only the button that has the
/// gestures opens the gesture menu.
#[must_use]
pub fn menu_for(button: ButtonId, owner: Option<ButtonId>) -> (menu: BindingMenu)
    ensures
        menu == if owner == Some(button) {
            BindingMenu::Gesture
        } else {
            BindingMenu::Actions
        },
{
    match owner {
        Some(owner) => if owner == button {
            BindingMenu::Gesture
        } else {
            BindingMenu::Actions
        },
        None => BindingMenu::Actions,
    }
}

/// The tone in which something is drawn.
#[derive(Clone, Copy, Debug, PartialEq, Eq, Structural)]
pub enum Tone {
    /// The accent colour.
    Accent,
    /// The text colour.
    Primary,
    /// The muted text colour.
    Muted,
    /// The border colour.
    Border,
}

/// How a button's card is drawn.
#[derive(Clone, Copy, Debug, PartialEq, Eq, Structural)]
pub struct CardStyle {
    /// Tone of the binding's text and icon.
    pub text: Tone,
    /// Tone of the border.
    pub border: Tone,
    /// Whether the card stands out from its surroundings.
    pub raised: bool,
}

/// How a button's card is drawn: highlighted in the accent colour, and otherwise
/// muted where the button has its default action.
pub open spec fn card_style(lit: bool, is_default: bool) -> CardStyle {
    CardStyle {
        text: if lit {
            Tone::Accent
        } else if is_default {
            Tone::Muted
        } else {
            Tone::Primary
        },
        border: if lit {
            Tone::Accent
        } else {
            Tone::Border
        },
        raised: lit,
    }
}

/// A button's card, or its hotspot.
#[derive(Debug)]
pub struct ButtonCard {
    /// The button.
    pub button: ButtonId,
    /// What the card says.
    pub label: BindingLabel,
    /// How the card is drawn.
    pub style: CardStyle,
    /// Whether the card's menu is open.
    pub card_open: bool,
    /// Whether the hotspot's menu is open.
    pub hotspot_open: bool,
    /// The menu that both open.
    pub menu: BindingMenu,
}

/// What is known of the selected device's bindings.
pub struct ShownBindings<'a> {
    /// The button clicked last.
    pub active: Option<ButtonId>,
    /// The button that has the gestures.
    pub owner: Option<ButtonId>,
    /// The gesture binding.
    pub gesture: Option<&'a Binding>,
    /// The single actions.
    pub bindings: &'a ButtonMap<Action>,
}

impl<'a> ShownBindings<'a> {
    /// The gesture binding.
    pub open spec fn gesture_binding(self) -> Option<Binding> {
        match self.gesture {
            Some(binding) => Some(*binding),
            None => None,
        }
    }
}

/// A card shows a button of the model.
pub open spec fn is_card_of(
    card: ButtonCard,
    button: ButtonId,
    view: MouseModel,
    shown: ShownBindings,
    owner: Option<ButtonId>,
) -> bool {
    let open = view.popover == Some(BindingPopover::Label(button));
    let lit = view.hovered == Some(button) || shown.active == Some(button) || open;
    &&& card.button == button
    &&& is_label_of(card.label, button, owner, shown.gesture_binding(), *shown.bindings)
    &&& card.style == card_style(lit, card.label.is_default)
    &&& card.card_open == open
    &&& card.hotspot_open == (view.popover == Some(BindingPopover::Hotspot(button)))
    &&& card.menu == if owner == Some(button) {
        BindingMenu::Gesture
    } else {
        BindingMenu::Actions
    }
}

/// What the mouse model shows.
#[derive(Debug)]
pub struct MouseScreen {
    /// The button whose leader line is highlighted.
    pub highlight: Option<ButtonId>,
    /// The choices of the gesture-button selector; empty where no button can have
    /// gestures.
    pub chips: Vec<OwnerChip>,
    /// The cards, in the order of the model's labels.
    pub cards: Vec<ButtonCard>,
}

impl MouseModelView {
    /// Whether a menu is the open one.
    fn is_open(&self, popover: BindingPopover) -> (open: bool)
        ensures
            open == (self@.popover == Some(popover)),
    {
        match self.open_binding_popover {
            Some(shown) => shown == popover,
            None => false,
        }
    }

    /// The card of a button.
    fn card(&self, button: ButtonId, shown: &ShownBindings, owner: Option<ButtonId>) -> (card:
        ButtonCard)
        requires
            can_label(button, owner, *shown.bindings),
        ensures
            is_card_of(card, button, self@, *shown, owner),
    {
        let label = binding_label(button, owner, shown.gesture, shown.bindings);
        let card_open = self.is_open(BindingPopover::Label(button));
        let lit = self.is_highlighted(button, shown.active, card_open);
        let style = if lit {
            CardStyle { text: Tone::Accent, border: Tone::Accent, raised: true }
        } else if label.is_default {
            CardStyle { text: Tone::Muted, border: Tone::Border, raised: false }
        } else {
            CardStyle { text: Tone::Primary, border: Tone::Border, raised: false }
        };
        ButtonCard {
            button,
            label,
            style,
            card_open,
            hotspot_open: self.is_open(BindingPopover::Hotspot(button)),
            menu: menu_for(button, owner),
        }
    }

    /// Decide what the model shows of a device with the given labels. Another
    /// device starts with nothing open. Gestures only show on a button that the
    /// device has.
    pub fn render(
        &mut self,
        device_key: &Option<String>,
        labels: &Vec<ButtonId>,
        shown: &ShownBindings,
    ) -> (screen: MouseScreen)
        requires
            forall|i: int|
                0 <= i < labels@.len() ==> can_label(
                    #[trigger] labels@[i],
                    owner_among(shown.owner, capable_of(labels@)),
                    *shown.bindings,
                ),
        ensures
            final(self)@ == old(self)@.showing(opt_text(*device_key)),
            screen.highlight == if final(self)@.hovered is Some {
                final(self)@.hovered
            } else {
                shown.active
            },
            ({
                let capable = capable_of(labels@);
                let owner = owner_among(shown.owner, capable);
                &&& screen.cards@.len() == labels@.len()
                &&& forall|i: int|
                    0 <= i < labels@.len() ==> is_card_of(
                        #[trigger] screen.cards@[i],
                        labels@[i],
                        final(self)@,
                        *shown,
                        owner,
                    )
                &&& if capable.len() == 0 {
                    screen.chips@.len() == 0
                } else {
                    &&& screen.chips@.len() == capable.len() + 1
                    &&& forall|i: int|
                        0 <= i < capable.len() ==> is_owner_chip(
                            #[trigger] screen.chips@[i],
                            Some(capable[i]),
                            owner,
                        )
                    &&& is_owner_chip(screen.chips@[capable.len() as int], None, owner)
                }
            }),
    {
        self.show_device(device_key);
        let capable = gesture_capable_buttons(labels);
        let owner = shown_gesture_owner(shown.owner, &capable);
        let mut chips: Vec<OwnerChip> = Vec::new();
        if capable.len() > 0 {
            let mut i: usize = 0;
            while i < capable.len()
                invariant
                    i <= capable@.len(),
                    chips@.len() == i,
                    forall|j: int|
                        0 <= j < i ==> is_owner_chip(
                            #[trigger] chips@[j],
                            Some(capable@[j]),
                            owner,
                        ),
                decreases capable@.len() - i,
            {
                chips.push(owner_chip(Some(capable[i]), owner));
                i += 1;
            }
            chips.push(owner_chip(None, owner));
        }
        let mut cards: Vec<ButtonCard> = Vec::new();
        let mut i: usize = 0;
        while i < labels.len()
            invariant
                i <= labels@.len(),
                cards@.len() == i,
                forall|j: int|
                    0 <= j < labels@.len() ==> can_label(
                        #[trigger] labels@[j],
                        owner,
                        *shown.bindings,
                    ),
                forall|j: int|
                    0 <= j < i ==> is_card_of(
                        #[trigger] cards@[j],
                        labels@[j],
                        self@,
                        *shown,
                        owner,
                    ),
            decreases labels@.len() - i,
        {
            let button = labels[i];
            assert(labels@[i as int] == button);
            cards.push(self.card(button, shown, owner));
            i += 1;
        }
        MouseScreen { highlight: self.highlight(shown.active), chips, cards }
    }

    /// A card or hotspot is clicked: its menu opens, or closes where it is open.
    pub fn trigger_clicked(&mut self, popover: BindingPopover)
        ensures
            final(self)@ == old(self)@.with_popover(
                popover,
                old(self)@.popover != Some(popover),
            ),
    {
        let open = self.is_open(popover);
        self.set_binding_popover_open(popover, !open);
    }
}

/// Clicking a card toggles its menu: a second click undoes the first, where no
/// other menu was open.
pub proof fn law_popover_toggles(view: MouseModel, popover: BindingPopover)
    requires
        view.popover is None,
    ensures
        view.with_popover(popover, true).popover == Some(popover),
        view.with_popover(popover, true).with_popover(popover, false) == view,
{
}

/// At most one menu is open, and closing one never closes another.
pub proof fn law_closing_leaves_other_menus(
    view: MouseModel,
    closed: BindingPopover,
    open: BindingPopover,
)
    requires
        closed != open,
        view.popover == Some(open),
    ensures
        view.with_popover(closed, false) == view,
{
}

/// Showing another device forgets what was hovered, opened and chosen; showing the same
/// one keeps it.
pub proof fn law_another_device_starts_afresh(view: MouseModel, device: Option<Seq<char>>)
    ensures
        view.showing(device).device == device,
        view.device == device ==> view.showing(device) == view,
        view.device != device ==> view.showing(device).hovered is None && view.showing(
            device,
        ).popover is None && view.showing(device).direction is None,
{
}

/// What opening, closing and hovering do: an opened menu takes the place of any other,
/// closing closes only the one that is open, entering marks a button and leaving unmarks
/// only that button; nothing else changes.
pub proof fn law_menus_and_hovering(
    view: MouseModel,
    popover: BindingPopover,
    button: ButtonId,
)
    ensures
        view.with_popover(popover, true).popover == Some(popover),
        view.popover == Some(popover) ==> view.with_popover(popover, false).popover is None,
        view.popover != Some(popover) ==> view.with_popover(popover, false).popover == view.popover,
        view.with_popover(popover, true).hovered == view.hovered,
        view.with_popover(popover, false).hovered == view.hovered,
        view.with_popover(popover, true).direction == view.direction,
        view.with_popover(popover, false).direction == view.direction,
        view.with_popover(popover, true).device == view.device,
        view.with_popover(popover, false).device == view.device,
        view.with_hover(button, true).hovered == Some(button),
        view.hovered == Some(button) ==> view.with_hover(button, false).hovered is None,
        view.hovered != Some(button) ==> view.with_hover(button, false).hovered == view.hovered,
        view.with_hover(button, true).popover == view.popover,
        view.with_hover(button, false).popover == view.popover,
        view.with_hover(button, true).device == view.device,
        view.with_hover(button, true).direction == view.direction,
{
}

/// Which buttons can own the gesture: those of the four that the device has.
pub proof fn law_four_buttons_can_own_the_gesture(labels: Seq<ButtonId>, button: ButtonId)
    ensures
        gesture_order().len() == 4,
        gesture_order()[0] is GestureButton,
        gesture_order()[1] is MiddleClick,
        gesture_order()[2] is Back,
        gesture_order()[3] is Forward,
        capable_of(labels).contains(button) <==> labels.contains(button) && (button is GestureButton
            || button is MiddleClick || button is Back || button is Forward),
        owner_among(Some(button), capable_of(labels)) == if labels.contains(button) && (button
            is GestureButton || button is MiddleClick || button is Back || button is Forward) {
            Some(button)
        } else {
            None
        },
        owner_among(None, capable_of(labels)) is None,
{
    let wanted = |b: ButtonId| labels.contains(b);
    let order = gesture_order();
    order.filter_lemma(wanted);
    if labels.contains(button) && (button is GestureButton || button is MiddleClick || button
        is Back || button is Forward) {
        assert(order[0] is GestureButton && order[1] is MiddleClick && order[2] is Back && order[3]
            is Forward);
        let i: int = if button is GestureButton {
            0
        } else if button is MiddleClick {
            1
        } else if button is Back {
            2
        } else {
            3
        };
        assert(order[i] == button && wanted(order[i]));
        assert(order.filter(wanted).contains(order[i]));
    }
    if order.filter(wanted).contains(button) {
        lemma_filtered_is_original(order, wanted, button);
    }
}

/// What a filter keeps was there before.
proof fn lemma_filtered_is_original(
    list: Seq<ButtonId>,
    wanted: spec_fn(ButtonId) -> bool,
    button: ButtonId,
)
    requires
        list.filter(wanted).contains(button),
    ensures
        list.contains(button),
        wanted(button),
    decreases list.len(),
{
    reveal(Seq::filter);
    if list.len() > 0 {
        let front = list.drop_last();
        if front.filter(wanted).contains(button) {
            lemma_filtered_is_original(front, wanted, button);
            let k = choose|k: int| 0 <= k < front.len() && front[k] == button;
            assert(list[k] == button);
        } else {
            let kept = list.filter(wanted);
            let k = choose|k: int| 0 <= k < kept.len() && kept[k] == button;
            if k < front.filter(wanted).len() {
                assert(front.filter(wanted)[k] == button);
            }
            assert(list.last() == button);
            assert(list[list.len() - 1] == button);
        }
    }
}

/// What the owners are called and numbered.
pub proof fn law_owners_are_named(button: ButtonId)
    ensures
        button is GestureButton ==> owner_label(button) == "Gesture Button"@,
        button is MiddleClick ==> owner_label(button) == "Middle"@,
        button is Back ==> owner_label(button) == "Back"@,
        button is Forward ==> owner_label(button) == "Forward"@,
        !(button is GestureButton || button is MiddleClick || button is Back || button is Forward)
            ==> owner_label(button) == button.label_text(),
        button is LeftClick ==> button_number(button) == 0,
        button is RightClick ==> button_number(button) == 1,
        button is MiddleClick ==> button_number(button) == 2,
        button is Back ==> button_number(button) == 3,
        button is Forward ==> button_number(button) == 4,
        button is DpiToggle ==> button_number(button) == 5,
        button is Thumbwheel ==> button_number(button) == 6,
        button is ThumbwheelScrollUp ==> button_number(button) == 7,
        button is ThumbwheelScrollDown ==> button_number(button) == 8,
        button is GestureButton ==> button_number(button) == 9,
{
}

/// What a chip shows: its own button, or `Off` where it stands for none; it is marked
/// where it stands for the owner.
pub proof fn law_chip_stands_for_its_owner(
    chip: OwnerChip,
    shown: ButtonId,
    button: Option<ButtonId>,
    owner: Option<ButtonId>,
)
    requires
        is_owner_chip(chip, button, owner),
    ensures
        chip.button == button,
        chip.selected <==> button == owner,
        button is None ==> chip.id == 0 && chip.label@ == "Off"@,
        button == Some(shown) ==> chip.id == button_number(shown) + 1 && chip.label@ == owner_label(
            shown,
        ),
{
}

/// How an action is shown: a preset by its number counted from one, a shortcut as it is
/// spelled, and any other by its name.
pub proof fn law_actions_are_shown(action: Action)
    ensures
        action matches Action::SetDpiPreset(index) ==> (index < 255 ==> action_text(action)
            == ShownModel::DpiPreset((index + 1) as u8)),
        action matches Action::CustomShortcut(combo) ==> action_text(action)
            == ShownModel::Verbatim(combo.label_text()),
        !(action is SetDpiPreset) && !(action is CustomShortcut) ==> action_text(action)
            == ShownModel::Fixed(action.label_text()),
{
}

/// What a card shows: of the gesture's owner the gesture, and of any other button its
/// action, or its default where it has none, marked as default where it is that.
pub proof fn law_card_shows_its_binding(
    label: BindingLabel,
    button: ButtonId,
    owner: Option<ButtonId>,
    gesture: Option<Binding>,
    bindings: ButtonMap<Action>,
    action: Action,
)
    requires
        is_label_of(label, button, owner, gesture, bindings),
    ensures
        owner == Some(button) && gesture is Some && gesture->0 is Pan ==> !label.is_default
            && label.text@ == ShownModel::Fixed("Pan"@) && label.icon@
            == "action-icons/scroll-text.svg"@,
        owner == Some(button) && !(gesture is Some && gesture->0 is Pan) ==> !label.is_default
            && label.text@ == ShownModel::Fixed("5 directions"@) && label.icon@
            == "action-icons/move.svg"@,
        owner != Some(button) && bindings.slot(button) == Some(action) ==> label.text@
            == action_text(action) && label.icon@ == icon_of(action) && label.is_default
            == action.same_as(default_action(button)),
        owner != Some(button) && bindings.slot(button) is None ==> label.text@ == action_text(
            default_action(button),
        ) && label.icon@ == icon_of(default_action(button)),
{
}

/// How a card looks: lit it is raised, with accented text and border; unlit its text is
/// muted for a default, and its border is plain.
pub proof fn law_lit_cards_stand_out(lit: bool, is_default: bool)
    ensures
        lit ==> card_style(lit, is_default).text is Accent && card_style(lit, is_default).border
            is Accent,
        !lit && is_default ==> card_style(lit, is_default).text is Muted,
        !lit && !is_default ==> card_style(lit, is_default).text is Primary,
        !lit ==> card_style(lit, is_default).border is Border,
        card_style(lit, is_default).raised == lit,
{
}

/// When a card is lit and open: it is lit while it is hovered, active or open; its two
/// menus open each by itself; and the owner's menu is the gesture's.
pub proof fn law_card_is_lit_while_in_use(
    card: ButtonCard,
    button: ButtonId,
    view: MouseModel,
    shown: ShownBindings,
    owner: Option<ButtonId>,
)
    requires
        is_card_of(card, button, view, shown, owner),
    ensures
        card.button == button,
        card.style.raised <==> view.hovered == Some(button) || shown.active == Some(button)
            || view.popover == Some(BindingPopover::Label(button)),
        card.card_open <==> view.popover == Some(BindingPopover::Label(button)),
        card.hotspot_open <==> view.popover == Some(BindingPopover::Hotspot(button)),
        card.menu is Gesture <==> owner == Some(button),
        card.menu is Actions <==> owner != Some(button),
{
}

} // verus!
