//! The binding menus: the action picker, and the gesture menu with its presets and
//! directions.

use crate::binding::{
    default_direction_action, default_gesture_binding, Action, Binding, ButtonId, Category,
    DirectionMap, GestureDirection,
};
use crate::button_map::ButtonMap;
use crate::gui::gesture_presets::{
    available_gesture_presets, classify_gesture_preset, offered_presets, preset_of, GesturePreset,
};
use vstd::prelude::*;

verus! {

/// Icon of the gesture button's card: four arrows, standing for its directions.
pub const GESTURE_BUTTON_ICON: &'static str = "action-icons/move.svg";

/// The actions of a category among the first `n`, in order.
pub open spec fn of_category(actions: Seq<Action>, n: int, category: Category) -> Seq<Action>
    decreases n,
{
    if n <= 0 {
        Seq::empty()
    } else if actions[n - 1].category_of() == category {
        of_category(actions, n - 1, category).push(actions[n - 1])
    } else {
        of_category(actions, n - 1, category)
    }
}

/// The categories of the first `n` actions, in the order in which they first occur.
pub open spec fn categories_seen(actions: Seq<Action>, n: int) -> Seq<Category>
    decreases n,
{
    if n <= 0 {
        Seq::empty()
    } else {
        let earlier = categories_seen(actions, n - 1);
        if earlier.contains(actions[n - 1].category_of()) {
            earlier
        } else {
            earlier.push(actions[n - 1].category_of())
        }
    }
}

/// The sections of the first `n` actions: one per category, with its actions.
pub open spec fn is_grouped(
    sections: Seq<(Category, Vec<Action>)>,
    actions: Seq<Action>,
    n: int,
) -> bool {
    &&& sections.len() == categories_seen(actions, n).len()
    &&& forall|k: int|
        0 <= k < sections.len() ==> {
            &&& (#[trigger] sections[k]).0 == categories_seen(actions, n)[k]
            &&& sections[k].1@ == of_category(actions, n, sections[k].0)
        }
}

/// A category that has not occurred has no actions.
proof fn lemma_unseen_is_empty(actions: Seq<Action>, n: int, category: Category)
    requires
        !categories_seen(actions, n).contains(category),
    ensures
        of_category(actions, n, category) == Seq::<Action>::empty(),
    decreases n,
{
    if n > 0 {
        let earlier = categories_seen(actions, n - 1);
        let here = actions[n - 1].category_of();
        assert(!earlier.contains(category)) by {
            if earlier.contains(category) {
                let k = choose|k: int| 0 <= k < earlier.len() && earlier[k] == category;
                if !earlier.contains(here) {
                    assert(earlier.push(here)[k] == category);
                }
            }
        }
        assert(here != category) by {
            if here == category && !earlier.contains(here) {
                assert(earlier.push(here)[earlier.len() as int] == category);
            }
        }
        lemma_unseen_is_empty(actions, n - 1, category);
    }
}

/// The categories occur once each, and there are no more of them than actions.
proof fn lemma_seen_once(actions: Seq<Action>, n: int)
    ensures
        categories_seen(actions, n).no_duplicates(),
        categories_seen(actions, n).len() <= if n > 0 { n } else { 0 },
    decreases n,
{
    if n > 0 {
        lemma_seen_once(actions, n - 1);
    }
}

/// The pickable actions by category, in catalog order within a category, the
/// categories in the order in which they first occur.
#[must_use]
pub fn grouped_catalog() -> (sections: Vec<(Category, Vec<Action>)>)
    ensures
        is_grouped(
            sections@,
            Action::catalog_seq(),
            Action::catalog_seq().len() as int,
        ),
{
    let actions = Action::catalog();
    let ghost catalog = actions@;
    let mut sections: Vec<(Category, Vec<Action>)> = Vec::new();
    let mut n: usize = 0;
    while n < actions.len()
        invariant
            actions@ == catalog,
            n <= catalog.len(),
            is_grouped(sections@, catalog, n as int),
        decreases catalog.len() - n,
    {
        let action = actions[n].clone();
        let category = action.category();
        let ghost before = sections@;
        let count = sections.len();
        let mut at: usize = 0;
        while at < count && sections[at].0 != category
            invariant
                count == sections@.len(),
                at <= count,
                sections@ == before,
                forall|k: int| 0 <= k < at ==> (#[trigger] before[k]).0 != category,
            decreases count - at,
        {
            at += 1;
        }
        proof {
            lemma_seen_once(catalog, n as int);
        }
        if at < count {
            let (found, mut members) = sections.remove(at);
            members.push(action);
            sections.insert(at, (found, members));
            proof {
                assert(categories_seen(catalog, n as int)[at as int] == category);
                assert forall|k: int| 0 <= k < sections@.len() implies {
                    &&& (#[trigger] sections@[k]).0 == categories_seen(catalog, n + 1)[k]
                    &&& sections@[k].1@ == of_category(catalog, n + 1, sections@[k].0)
                } by {
                    if k != at {
                        assert(sections@[k] == before[k]);
                        assert(before[k].0 != category);
                    } else {
                        assert(sections@[k].0 == before[k].0);
                        assert(sections@[k].1@ == before[k].1@.push(action));
                    }
                }
            }
        } else {
            proof {
                if categories_seen(catalog, n as int).contains(category) {
                    let k = choose|k: int|
                        0 <= k < before.len() && categories_seen(catalog, n as int)[k] == category;
                    assert(before[k].0 == category);
                }
                lemma_unseen_is_empty(catalog, n as int, category);
            }
            let mut members: Vec<Action> = Vec::new();
            members.push(action);
            sections.push((category, members));
            proof {
                assert forall|k: int| 0 <= k < sections@.len() implies {
                    &&& (#[trigger] sections@[k]).0 == categories_seen(catalog, n + 1)[k]
                    &&& sections@[k].1@ == of_category(catalog, n + 1, sections@[k].0)
                } by {
                    if k < before.len() {
                        assert(sections@[k] == before[k]);
                        assert(before[k].0 != category);
                    } else {
                        assert(sections@[k].1@ =~= of_category(catalog, n + 1, category));
                    }
                }
            }
        }
        n += 1;
    }
    sections
}

/// Icon of an action.
pub open spec fn icon_of(action: Action) -> Seq<char> {
    match action {
        Action::DoNothing => "action-icons/ban.svg"@,
        Action::LeftClick | Action::RightClick => "action-icons/mouse-pointer-click.svg"@,
        Action::MiddleClick => "action-icons/mouse.svg"@,
        Action::MouseBack => "action-icons/circle-arrow-left.svg"@,
        Action::MouseForward => "action-icons/circle-arrow-right.svg"@,
        Action::Copy => "action-icons/copy.svg"@,
        Action::Paste => "action-icons/clipboard-paste.svg"@,
        Action::Cut => "action-icons/scissors.svg"@,
        Action::Undo => "action-icons/undo-2.svg"@,
        Action::Redo => "action-icons/redo-2.svg"@,
        Action::SelectAll => "action-icons/list-checks.svg"@,
        Action::Find => "action-icons/search.svg"@,
        Action::Save => "action-icons/save.svg"@,
        Action::BrowserBack => "action-icons/arrow-left.svg"@,
        Action::BrowserForward => "action-icons/arrow-right.svg"@,
        Action::NewTab => "action-icons/square-plus.svg"@,
        Action::CloseTab => "action-icons/square-x.svg"@,
        Action::ReopenTab => "action-icons/rotate-ccw.svg"@,
        Action::NextTab => "action-icons/chevron-right.svg"@,
        Action::PrevTab => "action-icons/chevron-left.svg"@,
        Action::ReloadPage => "action-icons/rotate-cw.svg"@,
        Action::MissionControl => "action-icons/layout-grid.svg"@,
        Action::AppExpose => "action-icons/layers.svg"@,
        Action::PreviousDesktop => "action-icons/square-arrow-left.svg"@,
        Action::NextDesktop => "action-icons/square-arrow-right.svg"@,
        Action::ShowDesktop => "action-icons/monitor.svg"@,
        Action::LaunchpadShow => "action-icons/grid-3x3.svg"@,
        Action::SmartZoom => "action-icons/search.svg"@,
        Action::LockScreen => "action-icons/lock.svg"@,
        Action::Screenshot | Action::CaptureRegion => "action-icons/camera.svg"@,
        Action::PlayPause => "action-icons/play.svg"@,
        Action::NextTrack => "action-icons/skip-forward.svg"@,
        Action::PrevTrack => "action-icons/skip-back.svg"@,
        Action::VolumeUp => "action-icons/volume-2.svg"@,
        Action::VolumeDown => "action-icons/volume-1.svg"@,
        Action::MuteVolume => "action-icons/volume-x.svg"@,
        Action::CycleDpiPresets | Action::SetDpiPreset(_) => "action-icons/gauge.svg"@,
        Action::ToggleSmartShift => "action-icons/refresh-cw.svg"@,
        Action::ScrollUp => "action-icons/chevrons-up.svg"@,
        Action::ScrollDown => "action-icons/chevrons-down.svg"@,
        Action::HorizontalScrollLeft => "action-icons/chevrons-left.svg"@,
        Action::HorizontalScrollRight => "action-icons/chevrons-right.svg"@,
        Action::CustomShortcut(_) => "action-icons/keyboard.svg"@,
    }
}

/// Icon of an action, for its row in a menu and its card on the mouse model.
#[must_use]
pub fn action_icon_path(action: &Action) -> (path: &'static str)
    ensures
        path@ == icon_of(*action),
{
    match action {
        Action::DoNothing => "action-icons/ban.svg",
        Action::LeftClick | Action::RightClick => "action-icons/mouse-pointer-click.svg",
        Action::MiddleClick => "action-icons/mouse.svg",
        Action::MouseBack => "action-icons/circle-arrow-left.svg",
        Action::MouseForward => "action-icons/circle-arrow-right.svg",
        Action::Copy => "action-icons/copy.svg",
        Action::Paste => "action-icons/clipboard-paste.svg",
        Action::Cut => "action-icons/scissors.svg",
        Action::Undo => "action-icons/undo-2.svg",
        Action::Redo => "action-icons/redo-2.svg",
        Action::SelectAll => "action-icons/list-checks.svg",
        Action::Find => "action-icons/search.svg",
        Action::Save => "action-icons/save.svg",
        Action::BrowserBack => "action-icons/arrow-left.svg",
        Action::BrowserForward => "action-icons/arrow-right.svg",
        Action::NewTab => "action-icons/square-plus.svg",
        Action::CloseTab => "action-icons/square-x.svg",
        Action::ReopenTab => "action-icons/rotate-ccw.svg",
        Action::NextTab => "action-icons/chevron-right.svg",
        Action::PrevTab => "action-icons/chevron-left.svg",
        Action::ReloadPage => "action-icons/rotate-cw.svg",
        Action::MissionControl => "action-icons/layout-grid.svg",
        Action::AppExpose => "action-icons/layers.svg",
        Action::PreviousDesktop => "action-icons/square-arrow-left.svg",
        Action::NextDesktop => "action-icons/square-arrow-right.svg",
        Action::ShowDesktop => "action-icons/monitor.svg",
        Action::LaunchpadShow => "action-icons/grid-3x3.svg",
        Action::SmartZoom => "action-icons/search.svg",
        Action::LockScreen => "action-icons/lock.svg",
        Action::Screenshot | Action::CaptureRegion => "action-icons/camera.svg",
        Action::PlayPause => "action-icons/play.svg",
        Action::NextTrack => "action-icons/skip-forward.svg",
        Action::PrevTrack => "action-icons/skip-back.svg",
        Action::VolumeUp => "action-icons/volume-2.svg",
        Action::VolumeDown => "action-icons/volume-1.svg",
        Action::MuteVolume => "action-icons/volume-x.svg",
        Action::CycleDpiPresets | Action::SetDpiPreset(_) => "action-icons/gauge.svg",
        Action::ToggleSmartShift => "action-icons/refresh-cw.svg",
        Action::ScrollUp => "action-icons/chevrons-up.svg",
        Action::ScrollDown => "action-icons/chevrons-down.svg",
        Action::HorizontalScrollLeft => "action-icons/chevrons-left.svg",
        Action::HorizontalScrollRight => "action-icons/chevrons-right.svg",
        Action::CustomShortcut(_) => "action-icons/keyboard.svg",
    }
}

/// A row of an action menu.
#[derive(Debug)]
pub enum MenuRow {
    /// The header of a category.
    Header(Category),
    /// An action.
    Entry {
        /// Number of the row among the actions.
        id: usize,
        /// The action.
        action: Action,
        /// Its label.
        label: String,
        /// Its icon.
        icon: &'static str,
        /// Whether it is bound at the moment.
        selected: bool,
    },
}

/// The content of a [`MenuRow`].
pub enum RowModel {
    /// The header of a category.
    Header(Category),
    /// An action.
    Entry {
        /// Number of the row among the actions.
        id: int,
        /// The action.
        action: Action,
        /// Its label.
        label: Seq<char>,
        /// Its icon.
        icon: Seq<char>,
        /// Whether it is bound at the moment.
        selected: bool,
    },
}

impl View for MenuRow {
    type V = RowModel;

    open spec fn view(&self) -> RowModel {
        match *self {
            MenuRow::Header(category) => RowModel::Header(category),
            MenuRow::Entry { id, action, label, icon, selected } => RowModel::Entry {
                id: id as int,
                action,
                label: label@,
                icon: icon@,
                selected,
            },
        }
    }
}

/// An action is the one that is bound.
pub open spec fn is_current(current: Option<Action>, action: Action) -> bool {
    current matches Some(bound) && bound.same_as(action)
}

/// The row of an action.
pub open spec fn entry_of(action: Action, id: int, current: Option<Action>) -> RowModel {
    RowModel::Entry {
        id,
        action,
        label: action.label_text(),
        icon: icon_of(action),
        selected: is_current(current, action),
    }
}

/// The rows of the first `n` actions of a section, numbered from `first`.
pub open spec fn entry_rows(
    actions: Seq<Action>,
    n: int,
    first: int,
    current: Option<Action>,
) -> Seq<RowModel>
    decreases n,
{
    if n <= 0 {
        Seq::empty()
    } else {
        entry_rows(actions, n - 1, first, current).push(
            entry_of(actions[n - 1], first + n - 1, current),
        )
    }
}

/// How many actions the first `n` sections have.
pub open spec fn entries_before(sections: Seq<(Category, Vec<Action>)>, n: int) -> int
    decreases n,
{
    if n <= 0 {
        0
    } else {
        entries_before(sections, n - 1) + sections[n - 1].1@.len()
    }
}

/// The rows of the first `n` sections: each category's header, then its actions.
pub open spec fn section_rows(
    sections: Seq<(Category, Vec<Action>)>,
    n: int,
    current: Option<Action>,
) -> Seq<RowModel>
    decreases n,
{
    if n <= 0 {
        Seq::empty()
    } else {
        let (category, actions) = sections[n - 1];
        section_rows(sections, n - 1, current).push(RowModel::Header(category)) + entry_rows(
            actions@,
            actions@.len() as int,
            entries_before(sections, n - 1),
            current,
        )
    }
}

/// The content of rows.
pub open spec fn row_models(rows: Seq<MenuRow>) -> Seq<RowModel> {
    rows.map_values(|row: MenuRow| row@)
}

/// The rows of an action menu: the grouped catalog, with the bound action selected.
pub open spec fn are_action_rows(rows: Seq<MenuRow>, current: Option<Action>) -> bool {
    exists|sections: Seq<(Category, Vec<Action>)>|
        {
            &&& is_grouped(
                sections,
                Action::catalog_seq(),
                Action::catalog_seq().len() as int,
            )
            &&& row_models(rows) == #[trigger] section_rows(
                sections,
                sections.len() as int,
                current,
            )
        }
}

/// A borrowed action.
pub open spec fn opt_action(action: Option<&Action>) -> Option<Action> {
    match action {
        Some(action) => Some(*action),
        None => None,
    }
}

/// Actions that can be listed: every preset number but the last can be shown as a
/// number that starts at one.
pub open spec fn is_listable(actions: Seq<Action>) -> bool {
    forall|i: int| 0 <= i < actions.len() ==> #[trigger] actions[i] != Action::SetDpiPreset(255)
}

/// Every section's actions come from the catalog, and can be listed.
proof fn lemma_catalog_is_listable(category: Category, n: int)
    requires
        n <= Action::catalog_seq().len(),
    ensures
        is_listable(of_category(Action::catalog_seq(), n, category)),
        of_category(Action::catalog_seq(), n, category).len() <= if n > 0 { n } else { 0 },
    decreases n,
{
    if n > 0 {
        lemma_catalog_is_listable(category, n - 1);
        assert(Action::catalog_seq()[n - 1] != Action::SetDpiPreset(255));
    }
}

/// The category-grouped rows of an action menu, with the bound action selected.
#[must_use]
#[verifier::rlimit(40)]
pub fn action_rows(current: Option<&Action>) -> (rows: Vec<MenuRow>)
    ensures
        are_action_rows(rows@, opt_action(current)),
{
    let sections = grouped_catalog();
    let ghost catalog = Action::catalog_seq();
    let ghost bound = opt_action(current);
    proof {
        lemma_seen_once(catalog, catalog.len() as int);
    }
    let mut rows: Vec<MenuRow> = Vec::new();
    let mut next: usize = 0;
    let mut k: usize = 0;
    assert(row_models(rows@) =~= section_rows(sections@, 0, bound));
    while k < sections.len()
        invariant
            k <= sections@.len(),
            is_grouped(sections@, catalog, catalog.len() as int),
            catalog == Action::catalog_seq(),
            catalog.len() == 44,
            sections@.len() <= 44,
            bound == opt_action(current),
            next == entries_before(sections@, k as int),
            next <= 44 * k,
            row_models(rows@) == section_rows(sections@, k as int, bound),
        decreases sections@.len() - k,
    {
        let (category, actions) = &sections[k];
        let ghost before = rows@;
        let ghost first = next as int;
        proof {
            lemma_catalog_is_listable(*category, catalog.len() as int);
        }
        rows.push(MenuRow::Header(*category));
        assert(row_models(rows@) =~= row_models(before).push(RowModel::Header(*category)));
        let ghost headed = row_models(rows@);
        let mut i: usize = 0;
        while i < actions.len()
            invariant
                i <= actions@.len(),
                actions@.len() <= 44,
                is_listable(actions@),
                bound == opt_action(current),
                k < 44,
                first <= 44 * k,
                next == first + i,
                row_models(rows@) == headed + entry_rows(actions@, i as int, first, bound),
            decreases actions@.len() - i,
        {
            let ghost shown = row_models(rows@);
            let action = actions[i].clone();
            assert(actions@[i as int] == action);
            let selected = match current {
                Some(bound) => *bound == action,
                None => false,
            };
            let label = action.label();
            let icon = action_icon_path(&action);
            rows.push(MenuRow::Entry { id: next, action, label, icon, selected });
            assert(row_models(rows@) =~= shown.push(
                entry_of(actions@[i as int], first + i, bound),
            ));
            assert(headed + entry_rows(actions@, i + 1, first, bound) =~= shown.push(
                entry_of(actions@[i as int], first + i, bound),
            ));
            next += 1;
            i += 1;
        }
        k += 1;
    }
    rows
}

/// One chip of the preset selector.
#[derive(Clone, Copy, Debug)]
pub struct PresetChip {
    /// The preset.
    pub preset: GesturePreset,
    /// Number of the chip.
    pub id: usize,
    /// What is written on it.
    pub label: &'static str,
    /// Whether it is the active preset.
    pub selected: bool,
}

/// The number of a preset's chip.
pub open spec fn chip_id(preset: GesturePreset) -> int {
    match preset {
        GesturePreset::WindowNavigation => 0,
        GesturePreset::Pan => 1,
        GesturePreset::Custom => 2,
    }
}

/// The label of a preset.
pub open spec fn preset_label(preset: GesturePreset) -> Seq<char> {
    match preset {
        GesturePreset::WindowNavigation => "Window Navigation"@,
        GesturePreset::Pan => "Pan"@,
        GesturePreset::Custom => "Custom"@,
    }
}

/// A chip shows a preset.
pub open spec fn is_chip_of(chip: PresetChip, preset: GesturePreset, current: GesturePreset) -> bool {
    &&& chip.preset == preset
    &&& chip.id == chip_id(preset)
    &&& chip.label@ == preset_label(preset)
    &&& chip.selected == (preset == current)
}

/// The chip of a preset.
#[must_use]
pub fn preset_chip(preset: GesturePreset, current: GesturePreset) -> (chip: PresetChip)
    ensures
        is_chip_of(chip, preset, current),
{
    let (id, label): (usize, &'static str) = match preset {
        GesturePreset::WindowNavigation => (0, "Window Navigation"),
        GesturePreset::Pan => (1, "Pan"),
        GesturePreset::Custom => (2, "Custom"),
    };
    PresetChip { preset, id, label, selected: preset == current }
}

/// The preset selector for a binding: the presets that the platform offers.
#[must_use]
pub fn preset_card(binding: &Binding, is_macos: bool) -> (chips: Vec<PresetChip>)
    ensures
        chips@.len() == offered_presets(is_macos).len(),
        forall|i: int|
            0 <= i < chips@.len() ==> is_chip_of(
                #[trigger] chips@[i],
                offered_presets(is_macos)[i],
                preset_of(*binding),
            ),
{
    let current = classify_gesture_preset(binding);
    let presets = available_gesture_presets(is_macos);
    let mut chips: Vec<PresetChip> = Vec::new();
    let mut i: usize = 0;
    while i < presets.len()
        invariant
            i <= presets@.len(),
            presets@ == offered_presets(is_macos),
            current == preset_of(*binding),
            chips@.len() == i,
            forall|j: int|
                0 <= j < i ==> is_chip_of(#[trigger] chips@[j], presets@[j], current),
        decreases presets@.len() - i,
    {
        chips.push(preset_chip(presets[i], current));
        i += 1;
    }
    chips
}

/// The action of a direction: the bound one, or the direction's default.
pub open spec fn shown_action(binding: Binding, direction: GestureDirection) -> Action {
    match binding.direction(direction) {
        Some(action) => action,
        None => default_direction_action(direction),
    }
}

/// The binding that the gesture menu shows: the button's own, or the full default
/// map.
#[must_use]
pub fn overview_binding(binding: Option<Binding>) -> (shown: Binding)
    ensures
        shown == overview_of(binding),
{
    match binding {
        Some(binding) => binding,
        None => {
            let mut map = DirectionMap::new();
            map.fill_defaults();
            Binding::Gesture(map)
        },
    }
}

/// The action of a direction: the bound one, or the direction's default.
#[must_use]
pub fn direction_action(binding: &Binding, direction: GestureDirection) -> (action: Action)
    ensures
        action == shown_action(*binding, direction),
{
    match binding {
        Binding::Gesture(map) => match map.get(direction) {
            Some(action) => action.clone(),
            None => default_gesture_binding(direction),
        },
        _ => default_gesture_binding(direction),
    }
}

/// One direction's cell in the gesture menu.
#[derive(Debug)]
pub struct DirectionCell {
    /// The direction.
    pub direction: GestureDirection,
    /// Number of the cell.
    pub id: usize,
    /// Its header: glyph and name of the direction.
    pub header: String,
    /// The bound action; none where the direction scrolls continuously.
    pub action: Option<Action>,
    /// Whether the action is the direction's default.
    pub is_default: bool,
    /// Whether its action list is open.
    pub active: bool,
}

/// The number of a direction's cell.
pub open spec fn cell_id(direction: GestureDirection) -> int {
    match direction {
        GestureDirection::Up => 0,
        GestureDirection::Down => 1,
        GestureDirection::Left => 2,
        GestureDirection::Right => 3,
        GestureDirection::Click => 4,
    }
}

/// The header of a direction's cell.
pub open spec fn cell_header(direction: GestureDirection) -> Seq<char> {
    direction.glyph_text() + "  "@ + direction.label_text()
}

/// The header of a direction's cell.
fn header_of(direction: GestureDirection) -> (header: String)
    ensures
        header@ == cell_header(direction),
{
    let mut header = String::new();
    header.append(direction.glyph());
    header.append("  ");
    header.append(direction.label());
    assert(header@ =~= cell_header(direction));
    header
}

/// The number of a direction's cell.
fn id_of(direction: GestureDirection) -> (id: usize)
    ensures
        id == cell_id(direction),
{
    match direction {
        GestureDirection::Up => 0,
        GestureDirection::Down => 1,
        GestureDirection::Left => 2,
        GestureDirection::Right => 3,
        GestureDirection::Click => 4,
    }
}

/// A cell shows a direction with an action.
pub open spec fn is_cell_of(
    cell: DirectionCell,
    direction: GestureDirection,
    action: Action,
    active: Option<GestureDirection>,
) -> bool {
    &&& cell.direction == direction
    &&& cell.id == cell_id(direction)
    &&& cell.header@ == cell_header(direction)
    &&& cell.action == Some(action)
    &&& cell.is_default == action.same_as(default_direction_action(direction))
    &&& cell.active == (active == Some(direction))
}

/// A cell shows a direction that scrolls continuously.
pub open spec fn is_continuous_cell(cell: DirectionCell, direction: GestureDirection) -> bool {
    &&& cell.direction == direction
    &&& cell.id == cell_id(direction)
    &&& cell.header@ == cell_header(direction)
    &&& cell.action is None
    &&& !cell.active
}

/// The cell of a direction with its action.
#[must_use]
pub fn direction_cell(
    direction: GestureDirection,
    current: Action,
    active: Option<GestureDirection>,
) -> (cell: DirectionCell)
    ensures
        is_cell_of(cell, direction, current, active),
{
    DirectionCell {
        direction,
        id: id_of(direction),
        header: header_of(direction),
        is_default: current == default_gesture_binding(direction),
        action: Some(current),
        active: match active {
            Some(open) => open == direction,
            None => false,
        },
    }
}

/// The cell of a direction that scrolls continuously.
#[must_use]
pub fn pan_direction_cell(direction: GestureDirection) -> (cell: DirectionCell)
    ensures
        is_continuous_cell(cell, direction),
{
    DirectionCell {
        direction,
        id: id_of(direction),
        header: header_of(direction),
        action: None,
        is_default: false,
        active: false,
    }
}

/// The order of the cells: the top, the middle row from the left, the bottom.
pub open spec fn cell_order() -> Seq<GestureDirection> {
    seq![
        GestureDirection::Up,
        GestureDirection::Left,
        GestureDirection::Click,
        GestureDirection::Right,
        GestureDirection::Down,
    ]
}

/// The cells of a directional binding, in order.
#[must_use]
pub fn plus_card(binding: &Binding, active: Option<GestureDirection>) -> (cells: Vec<DirectionCell>)
    ensures
        are_plus_cells(cells@, *binding, active),
{
    let mut cells: Vec<DirectionCell> = Vec::new();
    let up = GestureDirection::Up;
    cells.push(direction_cell(up, direction_action(binding, up), active));
    let left = GestureDirection::Left;
    cells.push(direction_cell(left, direction_action(binding, left), active));
    let click = GestureDirection::Click;
    cells.push(direction_cell(click, direction_action(binding, click), active));
    let right = GestureDirection::Right;
    cells.push(direction_cell(right, direction_action(binding, right), active));
    let down = GestureDirection::Down;
    cells.push(direction_cell(down, direction_action(binding, down), active));
    cells
}

/// The cells of a Pan binding, in order: its four directions scroll, and its click
/// can be edited.
#[must_use]
pub fn pan_card(binding: &Binding, active: Option<GestureDirection>) -> (cells: Vec<DirectionCell>)
    ensures
        are_pan_cells(cells@, *binding, active),
{
    let mut cells: Vec<DirectionCell> = Vec::new();
    cells.push(pan_direction_cell(GestureDirection::Up));
    cells.push(pan_direction_cell(GestureDirection::Left));
    cells.push(direction_cell(GestureDirection::Click, binding.click_action(), active));
    cells.push(pan_direction_cell(GestureDirection::Right));
    cells.push(pan_direction_cell(GestureDirection::Down));
    cells
}

/// The direction whose action list is open after a cell is clicked: clicking the
/// open one again closes it.
#[must_use]
pub fn direction_clicked(open: Option<GestureDirection>, clicked: GestureDirection) -> (next: Option<
    GestureDirection,
>)
    ensures
        next == if open == Some(clicked) {
            None
        } else {
            Some(clicked)
        },
{
    match open {
        Some(direction) => if direction == clicked {
            None
        } else {
            Some(clicked)
        },
        None => Some(clicked),
    }
}

/// The action list beside the gesture menu.
#[derive(Debug)]
pub struct Flyout {
    /// Its title.
    pub title: String,
    /// The bound action.
    pub current: Action,
}

/// The action list for an open direction: for a Pan binding only the click has one.
#[must_use]
pub fn flyout_card(binding: &Binding, open: Option<GestureDirection>) -> (flyout: Option<Flyout>)
    ensures
        is_flyout_of(flyout, *binding, open),
{
    match open {
        None => None,
        Some(direction) => if !binding.is_pan() {
            Some(
                Flyout {
                    title: header_of(direction),
                    current: direction_action(binding, direction),
                },
            )
        } else {
            match direction {
                GestureDirection::Click => Some(
                    Flyout { title: "Click action".to_owned(), current: binding.click_action() },
                ),
                _ => None,
            }
        },
    }
}

/// The menu of a button with a single action.
#[derive(Debug)]
pub struct ActionPicker {
    /// The button's name.
    pub button: &'static str,
    /// The rows.
    pub rows: Vec<MenuRow>,
}

/// The menu of a button with a single action, with the bound action selected.
#[must_use]
pub fn action_picker(button: ButtonId, bindings: &ButtonMap<Action>) -> (picker: ActionPicker)
    ensures
        picker.button@ == button.label_text(),
        are_action_rows(picker.rows@, bindings.slot(button)),
{
    ActionPicker { button: button.label(), rows: action_rows(bindings.get(button)) }
}

/// The gesture menu of a button.
#[derive(Debug)]
pub struct GestureOverview {
    /// The preset selector.
    pub chips: Vec<PresetChip>,
    /// The cells of the directions.
    pub cells: Vec<DirectionCell>,
    /// The open action list.
    pub flyout: Option<Flyout>,
}

/// The cells of a Pan binding: its directions scroll, and its click can be edited.
pub open spec fn are_pan_cells(
    cells: Seq<DirectionCell>,
    binding: Binding,
    active: Option<GestureDirection>,
) -> bool {
    &&& cells.len() == 5
    &&& forall|i: int|
        0 <= i < 5 ==> if cell_order()[i] == GestureDirection::Click {
            is_cell_of(#[trigger] cells[i], GestureDirection::Click, binding.click(), active)
        } else {
            is_continuous_cell(cells[i], cell_order()[i])
        }
}

/// The cells of a directional binding.
pub open spec fn are_plus_cells(
    cells: Seq<DirectionCell>,
    binding: Binding,
    active: Option<GestureDirection>,
) -> bool {
    &&& cells.len() == 5
    &&& forall|i: int|
        0 <= i < 5 ==> is_cell_of(
            #[trigger] cells[i],
            cell_order()[i],
            shown_action(binding, cell_order()[i]),
            active,
        )
}

/// The action list of an open direction.
pub open spec fn is_flyout_of(
    flyout: Option<Flyout>,
    binding: Binding,
    open: Option<GestureDirection>,
) -> bool {
    match open {
        None => flyout is None,
        Some(direction) => if !(binding is Pan) {
            &&& flyout matches Some(card)
            &&& card.title@ == cell_header(direction)
            &&& card.current == shown_action(binding, direction)
        } else if direction == GestureDirection::Click {
            &&& flyout matches Some(card)
            &&& card.title@ == "Click action"@
            &&& card.current == binding.click()
        } else {
            flyout is None
        },
    }
}

/// The binding that the gesture menu shows.
pub open spec fn overview_of(binding: Option<Binding>) -> Binding {
    match binding {
        Some(binding) => binding,
        None => Binding::Gesture(DirectionMap::empty().with_defaults()),
    }
}

/// The gesture menu of a button: the preset selector, the cells of its binding, and
/// the action list of the open direction.
#[must_use]
pub fn gesture_overview(
    binding: Option<Binding>,
    open: Option<GestureDirection>,
    is_macos: bool,
) -> (overview: GestureOverview)
    ensures
        ({
            let shown = overview_of(binding);
            &&& overview.chips@.len() == offered_presets(is_macos).len()
            &&& forall|i: int|
                0 <= i < overview.chips@.len() ==> is_chip_of(
                    #[trigger] overview.chips@[i],
                    offered_presets(is_macos)[i],
                    preset_of(shown),
                )
            &&& if shown is Pan {
                are_pan_cells(overview.cells@, shown, open)
            } else {
                are_plus_cells(overview.cells@, shown, open)
            }
            &&& is_flyout_of(overview.flyout, shown, open)
        }),
{
    let shown = overview_binding(binding);
    let cells = if shown.is_pan() {
        pan_card(&shown, open)
    } else {
        plus_card(&shown, open)
    };
    GestureOverview {
        chips: preset_card(&shown, is_macos),
        cells,
        flyout: flyout_card(&shown, open),
    }
}

/// The grouped catalog lists every pickable action of a category, and nothing else.
pub proof fn law_group_is_complete(category: Category, n: int, action: Action)
    requires
        n <= Action::catalog_seq().len(),
    ensures
        of_category(Action::catalog_seq(), n, category).contains(action) <==> action.category_of()
            == category && exists|i: int| 0 <= i < n && #[trigger] Action::catalog_seq()[i] == action,
    decreases n,
{
    if n > 0 {
        law_group_is_complete(category, n - 1, action);
        let catalog = Action::catalog_seq();
        let earlier = of_category(catalog, n - 1, category);
        let whole = of_category(catalog, n, category);
        if whole.contains(action) {
            let k = choose|k: int| 0 <= k < whole.len() && whole[k] == action;
            if k < earlier.len() {
                assert(earlier[k] == action);
                assert(earlier.contains(action));
            } else {
                assert(catalog[n - 1] == action);
            }
        }
        if action.category_of() == category && exists|i: int|
            0 <= i < n && #[trigger] catalog[i] == action {
            let i = choose|i: int| 0 <= i < n && #[trigger] catalog[i] == action;
            if i == n - 1 {
                assert(whole[whole.len() - 1] == action);
            } else {
                assert(earlier.contains(action));
                let k = choose|k: int| 0 <= k < earlier.len() && earlier[k] == action;
                assert(whole[k] == action);
            }
        }
    }
}

/// Which icon stands for an action.
pub proof fn law_actions_have_their_icon(action: Action)
    ensures
        action is DoNothing ==> icon_of(action) == "action-icons/ban.svg"@,
        action is LeftClick ==> icon_of(action) == "action-icons/mouse-pointer-click.svg"@,
        action is RightClick ==> icon_of(action) == "action-icons/mouse-pointer-click.svg"@,
        action is MiddleClick ==> icon_of(action) == "action-icons/mouse.svg"@,
        action is MouseBack ==> icon_of(action) == "action-icons/circle-arrow-left.svg"@,
        action is MouseForward ==> icon_of(action) == "action-icons/circle-arrow-right.svg"@,
        action is Copy ==> icon_of(action) == "action-icons/copy.svg"@,
        action is Paste ==> icon_of(action) == "action-icons/clipboard-paste.svg"@,
        action is Cut ==> icon_of(action) == "action-icons/scissors.svg"@,
        action is Undo ==> icon_of(action) == "action-icons/undo-2.svg"@,
        action is Redo ==> icon_of(action) == "action-icons/redo-2.svg"@,
        action is SelectAll ==> icon_of(action) == "action-icons/list-checks.svg"@,
        action is Find ==> icon_of(action) == "action-icons/search.svg"@,
        action is Save ==> icon_of(action) == "action-icons/save.svg"@,
        action is BrowserBack ==> icon_of(action) == "action-icons/arrow-left.svg"@,
        action is BrowserForward ==> icon_of(action) == "action-icons/arrow-right.svg"@,
        action is NewTab ==> icon_of(action) == "action-icons/square-plus.svg"@,
        action is CloseTab ==> icon_of(action) == "action-icons/square-x.svg"@,
        action is ReopenTab ==> icon_of(action) == "action-icons/rotate-ccw.svg"@,
        action is NextTab ==> icon_of(action) == "action-icons/chevron-right.svg"@,
        action is PrevTab ==> icon_of(action) == "action-icons/chevron-left.svg"@,
        action is ReloadPage ==> icon_of(action) == "action-icons/rotate-cw.svg"@,
        action is MissionControl ==> icon_of(action) == "action-icons/layout-grid.svg"@,
        action is AppExpose ==> icon_of(action) == "action-icons/layers.svg"@,
        action is PreviousDesktop ==> icon_of(action) == "action-icons/square-arrow-left.svg"@,
        action is NextDesktop ==> icon_of(action) == "action-icons/square-arrow-right.svg"@,
        action is ShowDesktop ==> icon_of(action) == "action-icons/monitor.svg"@,
        action is LaunchpadShow ==> icon_of(action) == "action-icons/grid-3x3.svg"@,
        action is SmartZoom ==> icon_of(action) == "action-icons/search.svg"@,
        action is LockScreen ==> icon_of(action) == "action-icons/lock.svg"@,
        action is Screenshot ==> icon_of(action) == "action-icons/camera.svg"@,
        action is CaptureRegion ==> icon_of(action) == "action-icons/camera.svg"@,
        action is PlayPause ==> icon_of(action) == "action-icons/play.svg"@,
        action is NextTrack ==> icon_of(action) == "action-icons/skip-forward.svg"@,
        action is PrevTrack ==> icon_of(action) == "action-icons/skip-back.svg"@,
        action is VolumeUp ==> icon_of(action) == "action-icons/volume-2.svg"@,
        action is VolumeDown ==> icon_of(action) == "action-icons/volume-1.svg"@,
        action is MuteVolume ==> icon_of(action) == "action-icons/volume-x.svg"@,
        action is CycleDpiPresets ==> icon_of(action) == "action-icons/gauge.svg"@,
        action is SetDpiPreset ==> icon_of(action) == "action-icons/gauge.svg"@,
        action is ToggleSmartShift ==> icon_of(action) == "action-icons/refresh-cw.svg"@,
        action is ScrollUp ==> icon_of(action) == "action-icons/chevrons-up.svg"@,
        action is ScrollDown ==> icon_of(action) == "action-icons/chevrons-down.svg"@,
        action is HorizontalScrollLeft ==> icon_of(action) == "action-icons/chevrons-left.svg"@,
        action is HorizontalScrollRight ==> icon_of(action) == "action-icons/chevrons-right.svg"@,
        action is CustomShortcut ==> icon_of(action) == "action-icons/keyboard.svg"@,
{
}

/// A group takes the actions of its category in their order: each further action goes to
/// the end of its own group and to no other.
pub proof fn law_groups_keep_the_order(actions: Seq<Action>, n: int, category: Category)
    requires
        0 <= n < actions.len(),
    ensures
        actions[n].category_of() == category ==> {
            &&& of_category(actions, n + 1, category).len() == of_category(
                actions,
                n,
                category,
            ).len() + 1
            &&& of_category(actions, n + 1, category).last() == actions[n]
            &&& of_category(actions, n + 1, category).drop_last() == of_category(
                actions,
                n,
                category,
            )
        },
        actions[n].category_of() != category ==> of_category(actions, n + 1, category)
            == of_category(actions, n, category),
        of_category(actions, 0, category).len() == 0,
{
    if actions[n].category_of() == category {
        assert(of_category(actions, n + 1, category).drop_last() =~= of_category(
            actions,
            n,
            category,
        ));
    }
}

/// Every category of an action is seen, and no other, each once and in the order of its
/// first action.
pub proof fn law_categories_are_seen_once(actions: Seq<Action>, n: int, category: Category)
    requires
        0 <= n <= actions.len(),
    ensures
        categories_seen(actions, n).no_duplicates(),
        categories_seen(actions, n).contains(category) <==> exists|i: int|
            0 <= i < n && (#[trigger] actions[i]).category_of() == category,
        n > 0 ==> categories_seen(actions, n - 1).len() <= categories_seen(actions, n).len()
            && categories_seen(actions, n).take(categories_seen(actions, n - 1).len() as int)
            == categories_seen(actions, n - 1),
    decreases n,
{
    if n > 0 {
        law_categories_are_seen_once(actions, n - 1, category);
        let earlier = categories_seen(actions, n - 1);
        let all = categories_seen(actions, n);
        assert(all.take(earlier.len() as int) =~= earlier);
        if !earlier.contains(actions[n - 1].category_of()) {
            assert(all[all.len() - 1] == actions[n - 1].category_of());
            if earlier.contains(category) {
                let k = choose|k: int| 0 <= k < earlier.len() && earlier[k] == category;
                assert(all[k] == category);
            }
        }
        if exists|i: int| 0 <= i < n && (#[trigger] actions[i]).category_of() == category {
            let i = choose|i: int| 0 <= i < n && (#[trigger] actions[i]).category_of() == category;
            if i < n - 1 {
                assert(earlier.contains(category));
            }
        }
        if all.contains(category) && !earlier.contains(category) {
            let k = choose|k: int| 0 <= k < all.len() && all[k] == category;
            if k < earlier.len() {
                assert(earlier[k] == category);
            }
            assert(actions[n - 1].category_of() == category);
        }
    }
}

/// What the rows of a section are: one for each action in its order, numbered on, with
/// its name and icon, and marked where it is the bound one.
pub proof fn law_rows_show_their_actions(
    actions: Seq<Action>,
    n: int,
    first: int,
    current: Option<Action>,
    i: int,
)
    requires
        0 <= i < n <= actions.len(),
    ensures
        entry_rows(actions, n, first, current).len() == n,
        entry_rows(actions, n, first, current)[i] == (RowModel::Entry {
            id: first + i,
            action: actions[i],
            label: actions[i].label_text(),
            icon: icon_of(actions[i]),
            selected: current is Some && current->0.same_as(actions[i]),
        }),
    decreases n,
{
    reveal_with_fuel(entry_rows, 2);
    if n > 1 {
        if i < n - 1 {
            law_rows_show_their_actions(actions, n - 1, first, current, i);
        } else {
            law_rows_show_their_actions(actions, n - 1, first, current, 0);
        }
    }
}

/// How the sections follow each other: a section's rows come after those of the sections
/// before it, its header first, and its entries are numbered on from theirs.
pub proof fn law_sections_follow_each_other(
    sections: Seq<(Category, Vec<Action>)>,
    n: int,
    current: Option<Action>,
    i: int,
)
    requires
        0 <= n < sections.len(),
    ensures
        ({
            let before = section_rows(sections, n, current);
            let all = section_rows(sections, n + 1, current);
            let actions = sections[n].1@;
            &&& all.len() == before.len() + 1 + actions.len()
            &&& all.take(before.len() as int) == before
            &&& all[before.len() as int] == RowModel::Header(sections[n].0)
            &&& 0 <= i < actions.len() ==> all[before.len() + 1 + i] == (RowModel::Entry {
                id: entries_before(sections, n) + i,
                action: actions[i],
                label: actions[i].label_text(),
                icon: icon_of(actions[i]),
                selected: current is Some && current->0.same_as(actions[i]),
            })
            &&& entries_before(sections, n + 1) == entries_before(sections, n) + actions.len()
        }),
        section_rows(sections, 0, current).len() == 0,
        entries_before(sections, 0) == 0,
{
    let before = section_rows(sections, n, current);
    let all = section_rows(sections, n + 1, current);
    let actions = sections[n].1@;
    if actions.len() > 0 {
        law_rows_show_their_actions(
            actions,
            actions.len() as int,
            entries_before(sections, n),
            current,
            if 0 <= i < actions.len() {
                i
            } else {
                0
            },
        );
    }
    assert(all.take(before.len() as int) =~= before);
}

/// What the preset chips are called and numbered, and which is marked.
pub proof fn law_chips_stand_for_their_preset(
    chip: PresetChip,
    preset: GesturePreset,
    current: GesturePreset,
)
    requires
        is_chip_of(chip, preset, current),
    ensures
        chip.preset == preset,
        chip.selected <==> preset == current,
        preset is WindowNavigation ==> chip.id == 0 && chip.label@ == "Window Navigation"@,
        preset is Pan ==> chip.id == 1 && chip.label@ == "Pan"@,
        preset is Custom ==> chip.id == 2 && chip.label@ == "Custom"@,
{
}

/// What the cells show: their own direction, headed by its sign and name, with its action
/// and whether that is its default; of a Pan only the click has one. They stand as a
/// cross, from the top by way of the middle row to the bottom.
pub proof fn law_cells_show_their_direction(
    cell: DirectionCell,
    direction: GestureDirection,
    action: Action,
    active: Option<GestureDirection>,
)
    ensures
        is_cell_of(cell, direction, action, active) ==> cell.direction == direction && cell.action
            == Some(action) && (cell.active <==> active == Some(direction)) && (cell.is_default
            <==> action.same_as(default_direction_action(direction))) && cell.header@
            == direction.glyph_text() + "  "@ + direction.label_text(),
        is_continuous_cell(cell, direction) ==> cell.direction == direction && cell.action is None
            && !cell.active && cell.header@ == direction.glyph_text() + "  "@
            + direction.label_text(),
        direction is Up ==> cell_id(direction) == 0,
        direction is Down ==> cell_id(direction) == 1,
        direction is Left ==> cell_id(direction) == 2,
        direction is Right ==> cell_id(direction) == 3,
        direction is Click ==> cell_id(direction) == 4,
        cell_order().len() == 5,
        cell_order()[0] is Up,
        cell_order()[1] is Left,
        cell_order()[2] is Click,
        cell_order()[3] is Right,
        cell_order()[4] is Down,
{
}

/// Which action is shown for a direction: the one bound to it, or its default; and
/// without a binding the defaults of all five.
pub proof fn law_shown_action_is_bound(
    binding: Binding,
    map: DirectionMap,
    direction: GestureDirection,
)
    ensures
        binding == Binding::Gesture(map) && map.slot(direction) is Some ==> shown_action(
            binding,
            direction,
        ) == map.slot(direction)->0,
        binding == Binding::Gesture(map) && map.slot(direction) is None ==> shown_action(
            binding,
            direction,
        ) == default_direction_action(direction),
        overview_of(Some(binding)) == binding,
        overview_of(None) matches Binding::Gesture(shown) && shown.slot(direction) == Some(
            default_direction_action(direction),
        ),
{
}

/// What the flyout shows: for the open direction its heading and action; of a Pan for the
/// click alone; and nothing while no direction is open.
pub proof fn law_flyout_shows_the_open_direction(
    flyout: Option<Flyout>,
    binding: Binding,
    open: Option<GestureDirection>,
    direction: GestureDirection,
)
    requires
        is_flyout_of(flyout, binding, open),
    ensures
        open is None ==> flyout is None,
        open == Some(direction) && !(binding is Pan) ==> (flyout matches Some(card) && card.current
            == shown_action(binding, direction) && card.title@ == direction.glyph_text() + "  "@
            + direction.label_text()),
        open == Some(direction) && binding is Pan && direction is Click ==> (flyout matches Some(
            card,
        ) && card.current == binding.click() && card.title@ == "Click action"@),
        open == Some(direction) && binding is Pan && !(direction is Click) ==> flyout is None,
        forall|bound: Action| is_current(Some(bound), bound) == bound.same_as(bound),
{
}

/// What the cross shows: in each place its own direction with the action shown for it;
/// of a Pan only the click has an action.
pub proof fn law_cross_shows_all_directions(
    cells: Seq<DirectionCell>,
    binding: Binding,
    active: Option<GestureDirection>,
)
    ensures
        are_plus_cells(cells, binding, active) ==> {
            &&& cells.len() == 5
            &&& cells[0].direction is Up && cells[1].direction is Left && cells[2].direction
                is Click && cells[3].direction is Right && cells[4].direction is Down
            &&& forall|i: int|
                0 <= i < 5 ==> (#[trigger] cells[i]).action == Some(
                    shown_action(binding, cells[i].direction),
                ) && cells[i].id == cell_id(cells[i].direction)
        },
        are_pan_cells(cells, binding, active) ==> {
            &&& cells.len() == 5
            &&& cells[0].direction is Up && cells[1].direction is Left && cells[2].direction
                is Click && cells[3].direction is Right && cells[4].direction is Down
            &&& cells[2].action == Some(binding.click())
            &&& cells[0].action is None && cells[1].action is None && cells[3].action is None
                && cells[4].action is None
            &&& forall|i: int|
                0 <= i < 5 ==> (#[trigger] cells[i]).id == cell_id(cells[i].direction)
        },
{
    if are_plus_cells(cells, binding, active) || are_pan_cells(cells, binding, active) {
        let (a, b, c, d, e) = (cells[0], cells[1], cells[2], cells[3], cells[4]);
        assert(cell_order()[0] is Up && cell_order()[1] is Left && cell_order()[2] is Click
            && cell_order()[3] is Right && cell_order()[4] is Down);
    }
}

/// What the catalog's sections are: each of the categories that the actions have, in the
/// order they come up, with exactly the actions of that category.
pub proof fn law_sections_hold_their_category(
    sections: Seq<(Category, Vec<Action>)>,
    actions: Seq<Action>,
    n: int,
    k: int,
)
    requires
        is_grouped(sections, actions, n),
        0 <= k < sections.len(),
    ensures
        sections.len() == categories_seen(actions, n).len(),
        sections[k].0 == categories_seen(actions, n)[k],
        sections[k].1@ == of_category(actions, n, categories_seen(actions, n)[k]),
{
}

/// The menu's rows are those of the catalog's sections, one after the other.
pub proof fn law_menu_lists_the_catalog(rows: Seq<MenuRow>, current: Option<Action>)
    requires
        are_action_rows(rows, current),
    ensures
        exists|sections: Seq<(Category, Vec<Action>)>|
            is_grouped(sections, Action::catalog_seq(), Action::catalog_seq().len() as int)
                && rows.len() == (#[trigger] section_rows(
                sections,
                sections.len() as int,
                current,
            )).len() && forall|i: int|
                0 <= i < rows.len() ==> (#[trigger] rows[i])@ == section_rows(
                    sections,
                    sections.len() as int,
                    current,
                )[i],
{
    let sections = choose|sections: Seq<(Category, Vec<Action>)>|
        {
            &&& is_grouped(sections, Action::catalog_seq(), Action::catalog_seq().len() as int)
            &&& row_models(rows) == #[trigger] section_rows(
                sections,
                sections.len() as int,
                current,
            )
        };
    let models = section_rows(sections, sections.len() as int, current);
    assert forall|i: int| 0 <= i < rows.len() implies (#[trigger] rows[i])@ == models[i] by {
        assert(row_models(rows)[i] == rows[i]@);
    }
}

/// A menu row shows what it holds.
pub proof fn law_menu_row_shows_itself(row: MenuRow)
    ensures
        row matches MenuRow::Header(category) ==> row@ == RowModel::Header(category),
        row matches MenuRow::Entry { id, action, label, icon, selected } ==> row@ == (
        RowModel::Entry { id: id as int, action, label: label@, icon: icon@, selected }),
{
}

} // verus!
