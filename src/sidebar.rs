use vstd::prelude::*;
use vstd::string::StringExecFns;
use crate::dock::{
    DockPosition, DockState, PanelInfo, close_dock_text, close_dock_tooltip, dock_entry_label,
    dock_entry_text,
};

verus! {

/// The screen edge that a sidebar renders on.
#[derive(Debug, Clone, Copy, PartialEq, Eq, Structural)]
pub enum SidebarSide {
    Left,
    Right,
}

/// One of the two stacked groups of a sidebar.
#[derive(Debug, Clone, Copy, PartialEq, Eq, Structural)]
pub enum ButtonGroup {
    Top,
    Bottom,
}

/// A corner of a context menu or of the element it is attached to.
#[derive(Debug, Clone, Copy, PartialEq, Eq, Structural)]
pub enum MenuCorner {
    TopLeft,
    TopRight,
}

/// What a click on a button asks for.
#[derive(Debug, Clone, Copy, PartialEq, Eq, Structural)]
pub enum ButtonAction {
    /// The toggle action of the dock at this position (it closes the open dock).
    ToggleDock(DockPosition),
    /// The panel's own toggle action.
    TogglePanel { dock: DockPosition, index: usize },
}

/// One effect of a click, in the order in which it is performed.
#[derive(Debug, Clone, Copy, PartialEq, Eq, Structural)]
pub enum ClickEffect {
    /// Move the focus to the dock at this position.
    FocusDock(DockPosition),
    /// Dispatch the action.
    Dispatch(ButtonAction),
}

/// The names of the panels that stand in the top group of `side`.
pub open spec fn top_names(side: SidebarSide) -> Seq<Seq<char>> {
    match side {
        SidebarSide::Left => seq!["Project Panel"@, "GitPanel"@, "Outline Panel"@, "CollabPanel"@],
        SidebarSide::Right => seq!["AgentPanel"@, "AgentsPanel"@, "NotificationPanel"@],
    }
}

/// The names of the panels that stand in the bottom group of `side`.
pub open spec fn bottom_names(side: SidebarSide) -> Seq<Seq<char>> {
    match side {
        SidebarSide::Left => seq!["TerminalPanel"@, "DebugPanel"@],
        SidebarSide::Right => seq![],
    }
}

/// The group in which a panel of this name stands on `side`, if any.
pub open spec fn classify(side: SidebarSide, name: Seq<char>) -> Option<ButtonGroup> {
    if top_names(side).contains(name) {
        Some(ButtonGroup::Top)
    } else if bottom_names(side).contains(name) {
        Some(ButtonGroup::Bottom)
    } else {
        None
    }
}

pub fn get_top_panel_names(side: SidebarSide) -> (r: Vec<String>)
    ensures
        r.deep_view() == top_names(side),
{
    let r = match side {
        SidebarSide::Left => vec![
            String::from_str("Project Panel"),
            String::from_str("GitPanel"),
            String::from_str("Outline Panel"),
            String::from_str("CollabPanel"),
        ],
        SidebarSide::Right => vec![
            String::from_str("AgentPanel"),
            String::from_str("AgentsPanel"),
            String::from_str("NotificationPanel"),
        ],
    };
    assert(r.deep_view() =~= top_names(side));
    r
}

pub fn get_bottom_panel_names(side: SidebarSide) -> (r: Vec<String>)
    ensures
        r.deep_view() == bottom_names(side),
{
    let r = match side {
        SidebarSide::Left => vec![String::from_str("TerminalPanel"), String::from_str("DebugPanel")],
        SidebarSide::Right => Vec::new(),
    };
    assert(r.deep_view() =~= bottom_names(side));
    r
}

fn names_contain(names: &Vec<String>, name: &String) -> (r: bool)
    ensures
        r == names.deep_view().contains(name@),
{
    let mut i: usize = 0;
    while i < names.len()
        invariant
            i <= names.len(),
            forall|k: int| 0 <= k < i ==> names.deep_view()[k] != name@,
        decreases names.len() - i,
    {
        if names[i] == *name {
            assert(names.deep_view()[i as int] == name@);
            return true;
        }
        i = i + 1;
    }
    false
}

/// The positions, in menu order, that a panel at `current` may be moved to.
pub open spec fn relocate_targets(panel: PanelInfo, current: DockPosition) -> Seq<DockPosition> {
    let offer = |p: DockPosition| p != current && panel.position_is_valid_spec(p);
    (if offer(DockPosition::Left) { seq![DockPosition::Left] } else { seq![] })
        + (if offer(DockPosition::Right) { seq![DockPosition::Right] } else { seq![] })
        + (if offer(DockPosition::Bottom) { seq![DockPosition::Bottom] } else { seq![] })
}

/// The positions of the menu order in `all`, up to `n`, that a panel at
/// `current` may be moved to.
spec fn targets_among(all: Seq<DockPosition>, panel: PanelInfo, current: DockPosition, n: nat) -> Seq<
    DockPosition,
>
    decreases n,
{
    if n == 0 {
        seq![]
    } else {
        let p = all[n - 1];
        targets_among(all, panel, current, (n - 1) as nat) + if p != current
            && panel.position_is_valid_spec(p) {
            seq![p]
        } else {
            seq![]
        }
    }
}

/// The corners `(anchor, attach)` of the relocation menu on `side`, chosen so
/// that the menu opens away from the screen edge.
pub open spec fn menu_corners(side: SidebarSide) -> (MenuCorner, MenuCorner) {
    match side {
        SidebarSide::Left => (MenuCorner::TopLeft, MenuCorner::TopRight),
        SidebarSide::Right => (MenuCorner::TopRight, MenuCorner::TopLeft),
    }
}

/// An entry of the relocation menu: choosing it moves the panel to `position`.
pub struct MenuEntry {
    pub label: String,
    pub position: DockPosition,
}

/// The context menu that offers to move a panel to another dock.
pub struct RelocateMenu {
    pub anchor: MenuCorner,
    pub attach: MenuCorner,
    pub entries: Vec<MenuEntry>,
}

impl RelocateMenu {
    /// The menu's entries are those of `targets`, in that order, each with its label.
    pub open spec fn offers(&self, targets: Seq<DockPosition>) -> bool {
        &&& self.entries@.len() == targets.len()
        &&& forall|k: int|
            0 <= k < targets.len() ==> {
                &&& #[trigger] self.entries@[k].position == targets[k]
                &&& self.entries@[k].label@ == dock_entry_label(targets[k])
            }
    }
}

/// Builds the relocation menu of `panel`, which lives in the dock at `current`.
pub fn build_relocate_menu(side: SidebarSide, panel: &PanelInfo, current: DockPosition) -> (r:
    RelocateMenu)
    ensures
        (r.anchor, r.attach) == menu_corners(side),
        r.offers(relocate_targets(*panel, current)),
{
    let (anchor, attach) = match side {
        SidebarSide::Left => (MenuCorner::TopLeft, MenuCorner::TopRight),
        SidebarSide::Right => (MenuCorner::TopRight, MenuCorner::TopLeft),
    };
    let positions = [DockPosition::Left, DockPosition::Right, DockPosition::Bottom];
    let ghost all = seq![DockPosition::Left, DockPosition::Right, DockPosition::Bottom];
    let ghost offered = Seq::<DockPosition>::empty();
    let mut entries: Vec<MenuEntry> = Vec::new();
    let mut i: usize = 0;
    while i < 3
        invariant
            i <= 3,
            positions@ == all,
            entries@.len() == offered.len(),
            offered == targets_among(all, *panel, current, i as nat),
            forall|k: int|
                0 <= k < offered.len() ==> {
                    &&& #[trigger] entries@[k].position == offered[k]
                    &&& entries@[k].label@ == dock_entry_label(offered[k])
                },
        decreases 3 - i,
    {
        let position = positions[i];
        if position != current && panel.position_is_valid(position) {
            entries.push(MenuEntry { label: dock_entry_text(position), position });
            proof {
                offered = offered.push(position);
            }
        }
        proof {
            assert(offered =~= targets_among(all, *panel, current, (i + 1) as nat));
        }
        i = i + 1;
    }
    proof {
        reveal_with_fuel(targets_among, 4);
        assert(offered =~= relocate_targets(*panel, current));
    }
    RelocateMenu { anchor, attach, entries }
}

/// A launcher button for one panel.
pub struct PanelButton {
    /// The panel's stable name; with `is_active` it identifies the button.
    pub name: String,
    pub icon: String,
    /// The position of the dock that hosts the panel.
    pub dock_position: DockPosition,
    /// The panel's index in that dock.
    pub panel_index: usize,
    /// Whether the button shows the pressed state.
    pub is_active: bool,
    pub action: ButtonAction,
    pub tooltip: String,
    pub menu: RelocateMenu,
}

impl PanelButton {
    /// The button is the one that `panel`, at `index` in the dock at
    /// `dock_position`, gets on `side`.
    pub open spec fn describes(
        &self,
        side: SidebarSide,
        panel: PanelInfo,
        index: int,
        is_active: bool,
        dock_position: DockPosition,
    ) -> bool {
        &&& self.name@ == panel.name@
        &&& panel.icon is Some
        &&& self.icon@ == panel.icon->0@
        &&& self.dock_position == dock_position
        &&& self.panel_index == index
        &&& self.is_active == is_active
        &&& self.action == if is_active {
            ButtonAction::ToggleDock(dock_position)
        } else {
            ButtonAction::TogglePanel { dock: dock_position, index: index as usize }
        }
        &&& panel.tooltip is Some
        &&& self.tooltip@ == if is_active {
            close_dock_tooltip(dock_position)
        } else {
            panel.tooltip->0@
        }
        &&& (self.menu.anchor, self.menu.attach) == menu_corners(side)
        &&& self.menu.offers(relocate_targets(panel, dock_position))
    }

    /// What a click does, in order: the focus moves to the dock, then the
    /// action is dispatched.
    pub fn click_effects(&self) -> (r: Vec<ClickEffect>)
        ensures
            r@ == seq![ClickEffect::FocusDock(self.dock_position), ClickEffect::Dispatch(self.action)],
    {
        let r = vec![ClickEffect::FocusDock(self.dock_position), ClickEffect::Dispatch(self.action)];
        assert(r@ =~= seq![
            ClickEffect::FocusDock(self.dock_position),
            ClickEffect::Dispatch(self.action),
        ]);
        r
    }

    /// The tooltip is attached only while the relocation menu is closed.
    pub fn shows_tooltip(&self, menu_open: bool) -> (r: bool)
        ensures
            r == !menu_open,
    {
        !menu_open
    }

    /// The identity of the button when the sidebar is rendered again: the
    /// panel's name and the active flag.
    pub fn element_id(&self) -> (r: (String, bool))
        ensures
            r.0@ == self.name@,
            r.1 == self.is_active,
    {
        (self.name.clone(), self.is_active)
    }
}

/// Builds the button of `panel`, at `index` in the dock at `dock_position`;
/// there is none where the panel lacks an icon or a tooltip.
pub fn render_panel_button(
    side: SidebarSide,
    panel: &PanelInfo,
    index: usize,
    is_active_button: bool,
    dock_position: DockPosition,
) -> (r: Option<PanelButton>)
    ensures
        r is Some <==> panel.is_presentable(),
        r matches Some(b) ==> b.describes(side, *panel, index as int, is_active_button, dock_position),
{
    let icon = match &panel.icon {
        Some(icon) => icon.clone(),
        None => return None,
    };
    let icon_tooltip = match &panel.tooltip {
        Some(t) => t.clone(),
        None => return None,
    };
    let (action, tooltip) = if is_active_button {
        (ButtonAction::ToggleDock(dock_position), close_dock_text(dock_position))
    } else {
        (ButtonAction::TogglePanel { dock: dock_position, index }, icon_tooltip)
    };
    let menu = build_relocate_menu(side, panel, dock_position);
    Some(
        PanelButton {
            name: panel.name.clone(),
            icon,
            dock_position,
            panel_index: index,
            is_active: is_active_button,
            action,
            tooltip,
            menu,
        },
    )
}

/// An entry of the bottom group: a panel's button, or the extra item that was
/// added at this index.
pub enum SidebarItem {
    Button(PanelButton),
    Extra(usize),
}

/// The button that panel `i` of `dock` gets on `side`.
pub open spec fn button_for(b: PanelButton, side: SidebarSide, dock: DockState, i: int) -> bool {
    b.describes(side, dock.panels@[i], i, dock.is_active_button(i), dock.position)
}

/// Panel `p` gets a button in group `g` of `side`.
pub open spec fn shown_in(side: SidebarSide, p: PanelInfo, g: ButtonGroup) -> bool {
    classify(side, p.name@) == Some(g) && p.is_presentable()
}

/// The indices below `n` of the panels of `dock` that get a button in group
/// `g`, in the dock's order.
pub open spec fn slots_upto(side: SidebarSide, dock: DockState, g: ButtonGroup, n: nat) -> Seq<int>
    decreases n,
{
    if n == 0 {
        seq![]
    } else {
        slots_upto(side, dock, g, (n - 1) as nat) + if shown_in(side, dock.panels@[n - 1], g) {
            seq![n - 1]
        } else {
            seq![]
        }
    }
}

/// The indices of the panels of `dock` that get a button in group `g`, in
/// the dock's order.
pub open spec fn dock_slots(side: SidebarSide, dock: DockState, g: ButtonGroup) -> Seq<int> {
    slots_upto(side, dock, g, dock.panels@.len())
}

/// `bs` are the buttons of the panels of `dock` at `slots`, in that order.
pub open spec fn buttons_match(
    bs: Seq<PanelButton>,
    side: SidebarSide,
    dock: DockState,
    slots: Seq<int>,
) -> bool {
    &&& bs.len() == slots.len()
    &&& forall|k: int| 0 <= k < slots.len() ==> button_for(#[trigger] bs[k], side, dock, slots[k])
}

/// `items` are the buttons of the panels of `dock` at `slots`, in that order.
pub open spec fn items_match(
    items: Seq<SidebarItem>,
    side: SidebarSide,
    dock: DockState,
    slots: Seq<int>,
) -> bool {
    &&& items.len() == slots.len()
    &&& forall|k: int|
        0 <= k < slots.len() ==> match #[trigger] items[k] {
            SidebarItem::Button(b) => button_for(b, side, dock, slots[k]),
            SidebarItem::Extra(_) => false,
        }
}

/// Appends to `top` and `bottom` the buttons of the panels of `dock`, in the
/// dock's order.
pub fn collect_buttons_from_dock(
    side: SidebarSide,
    dock: &DockState,
    top_names: &Vec<String>,
    bottom_names: &Vec<String>,
    top: &mut Vec<PanelButton>,
    bottom: &mut Vec<SidebarItem>,
)
    requires
        top_names.deep_view() == crate::sidebar::top_names(side),
        bottom_names.deep_view() == crate::sidebar::bottom_names(side),
    ensures
        final(top)@.len() >= old(top)@.len(),
        final(top)@.subrange(0, old(top)@.len() as int) == old(top)@,
        buttons_match(
            final(top)@.subrange(old(top)@.len() as int, final(top)@.len() as int),
            side,
            *dock,
            dock_slots(side, *dock, ButtonGroup::Top),
        ),
        final(bottom)@.len() >= old(bottom)@.len(),
        final(bottom)@.subrange(0, old(bottom)@.len() as int) == old(bottom)@,
        items_match(
            final(bottom)@.subrange(old(bottom)@.len() as int, final(bottom)@.len() as int),
            side,
            *dock,
            dock_slots(side, *dock, ButtonGroup::Bottom),
        ),
{
    let ghost top0 = top@;
    let ghost bottom0 = bottom@;
    let mut i: usize = 0;
    while i < dock.panels.len()
        invariant
            i <= dock.panels.len(),
            top_names.deep_view() == crate::sidebar::top_names(side),
            bottom_names.deep_view() == crate::sidebar::bottom_names(side),
            top@.len() >= top0.len(),
            top@.subrange(0, top0.len() as int) == top0,
            buttons_match(
                top@.subrange(top0.len() as int, top@.len() as int),
                side,
                *dock,
                slots_upto(side, *dock, ButtonGroup::Top, i as nat),
            ),
            bottom@.len() >= bottom0.len(),
            bottom@.subrange(0, bottom0.len() as int) == bottom0,
            items_match(
                bottom@.subrange(bottom0.len() as int, bottom@.len() as int),
                side,
                *dock,
                slots_upto(side, *dock, ButtonGroup::Bottom, i as nat),
            ),
        decreases dock.panels.len() - i,
    {
        let panel = &dock.panels[i];
        let is_active_button = match dock.active_panel_index {
            Some(a) => a == i && dock.is_open,
            None => false,
        };
        let in_top = names_contain(top_names, &panel.name);
        let in_bottom = names_contain(bottom_names, &panel.name);
        let ghost top_prev = top@;
        let ghost bottom_prev = bottom@;
        if in_top || in_bottom {
            match render_panel_button(side, panel, i, is_active_button, dock.position) {
                Some(button) => {
                    if in_top {
                        top.push(button);
                    } else {
                        bottom.push(SidebarItem::Button(button));
                    }
                },
                None => {},
            }
        }
        proof {
            let n = (i + 1) as nat;
            let ts = slots_upto(side, *dock, ButtonGroup::Top, n);
            let bs = slots_upto(side, *dock, ButtonGroup::Bottom, n);
            assert(top@.subrange(0, top0.len() as int) =~= top0);
            assert(bottom@.subrange(0, bottom0.len() as int) =~= bottom0);
            let tnew = top@.subrange(top0.len() as int, top@.len() as int);
            let tprev = top_prev.subrange(top0.len() as int, top_prev.len() as int);
            assert forall|k: int| 0 <= k < ts.len() implies button_for(
                #[trigger] tnew[k],
                side,
                *dock,
                ts[k],
            ) by {
                if k < tprev.len() {
                    assert(tnew[k] == tprev[k]);
                }
            }
            let bnew = bottom@.subrange(bottom0.len() as int, bottom@.len() as int);
            let bprev = bottom_prev.subrange(bottom0.len() as int, bottom_prev.len() as int);
            assert forall|k: int| 0 <= k < bs.len() implies match #[trigger] bnew[k] {
                SidebarItem::Button(b) => button_for(b, side, *dock, bs[k]),
                SidebarItem::Extra(_) => false,
            } by {
                if k < bprev.len() {
                    assert(bnew[k] == bprev[k]);
                }
            }
        }
        i = i + 1;
    }
}

/// The extra items `0 .. n` of the bottom group, in the order they were added.
pub open spec fn extra_entries(n: nat) -> Seq<SidebarItem> {
    Seq::new(n, |j: int| SidebarItem::Extra(j as usize))
}

/// The two groups of a rendered sidebar.
pub struct SidebarLayout {
    /// The top group, pushed to the top edge.
    pub top: Vec<PanelButton>,
    /// The bottom group, pushed to the bottom edge.
    pub bottom: Vec<SidebarItem>,
    /// Whether a divider stands between the groups.
    pub divider: bool,
}

/// The launcher buttons of one side of the window, over the three docks.
pub struct SidebarButtons<V> {
    pub side: SidebarSide,
    pub left_dock: DockState,
    pub bottom_dock: DockState,
    pub right_dock: DockState,
    /// The items added to the end of the bottom group, in the order they came.
    pub bottom_items: Vec<V>,
}

impl<V> SidebarButtons<V> {
    pub fn new(
        side: SidebarSide,
        left_dock: DockState,
        bottom_dock: DockState,
        right_dock: DockState,
    ) -> (r: Self)
        ensures
            r.side == side,
            r.left_dock == left_dock,
            r.bottom_dock == bottom_dock,
            r.right_dock == right_dock,
            r.bottom_items@.len() == 0,
    {
        SidebarButtons { side, left_dock, bottom_dock, right_dock, bottom_items: Vec::new() }
    }

    /// Adds an item at the end of the bottom group.
    pub fn add_bottom_item(&mut self, item: V)
        ensures
            final(self).bottom_items@ == old(self).bottom_items@.push(item),
            final(self).side == old(self).side,
            final(self).left_dock == old(self).left_dock,
            final(self).bottom_dock == old(self).bottom_dock,
            final(self).right_dock == old(self).right_dock,
    {
        self.bottom_items.push(item);
    }

    /// The sidebar's dock at `p`.
    pub open spec fn dock_at(&self, p: DockPosition) -> DockState {
        match p {
            DockPosition::Left => self.left_dock,
            DockPosition::Bottom => self.bottom_dock,
            DockPosition::Right => self.right_dock,
        }
    }

    /// Takes the new state of a dock after it announced a change; it replaces
    /// the sidebar's dock at the same position.
    pub fn update_dock(&mut self, dock: DockState)
        ensures
            final(self).dock_at(dock.position) == dock,
            forall|p: DockPosition| p != dock.position ==> final(self).dock_at(p) == old(self).dock_at(p),
            final(self).side == old(self).side,
            final(self).bottom_items@ == old(self).bottom_items@,
    {
        match dock.position {
            DockPosition::Left => self.left_dock = dock,
            DockPosition::Bottom => self.bottom_dock = dock,
            DockPosition::Right => self.right_dock = dock,
        }
    }

    /// The number of buttons that the docks give group `g`.
    pub open spec fn button_count(&self, g: ButtonGroup) -> nat {
        dock_slots(self.side, self.left_dock, g).len() + dock_slots(
            self.side,
            self.bottom_dock,
            g,
        ).len() + dock_slots(self.side, self.right_dock, g).len()
    }

    /// `l` is what the sidebar shows: the buttons of the left, bottom and right
    /// docks in that order, each group in the dock's order; then the extra
    /// items at the end of the bottom group; a divider where both groups have
    /// entries.
    pub open spec fn renders(&self, l: SidebarLayout) -> bool {
        let side = self.side;
        let (lt, bt, rt) = (
            dock_slots(side, self.left_dock, ButtonGroup::Top).len() as int,
            dock_slots(side, self.bottom_dock, ButtonGroup::Top).len() as int,
            dock_slots(side, self.right_dock, ButtonGroup::Top).len() as int,
        );
        let (lb, bb, rb) = (
            dock_slots(side, self.left_dock, ButtonGroup::Bottom).len() as int,
            dock_slots(side, self.bottom_dock, ButtonGroup::Bottom).len() as int,
            dock_slots(side, self.right_dock, ButtonGroup::Bottom).len() as int,
        );
        let top = l.top@;
        let bottom = l.bottom@;
        &&& top.len() == lt + bt + rt
        &&& buttons_match(
            top.subrange(0, lt),
            side,
            self.left_dock,
            dock_slots(side, self.left_dock, ButtonGroup::Top),
        )
        &&& buttons_match(
            top.subrange(lt, lt + bt),
            side,
            self.bottom_dock,
            dock_slots(side, self.bottom_dock, ButtonGroup::Top),
        )
        &&& buttons_match(
            top.subrange(lt + bt, lt + bt + rt),
            side,
            self.right_dock,
            dock_slots(side, self.right_dock, ButtonGroup::Top),
        )
        &&& bottom.len() == lb + bb + rb + self.bottom_items@.len()
        &&& items_match(
            bottom.subrange(0, lb),
            side,
            self.left_dock,
            dock_slots(side, self.left_dock, ButtonGroup::Bottom),
        )
        &&& items_match(
            bottom.subrange(lb, lb + bb),
            side,
            self.bottom_dock,
            dock_slots(side, self.bottom_dock, ButtonGroup::Bottom),
        )
        &&& items_match(
            bottom.subrange(lb + bb, lb + bb + rb),
            side,
            self.right_dock,
            dock_slots(side, self.right_dock, ButtonGroup::Bottom),
        )
        &&& bottom.subrange(lb + bb + rb, bottom.len() as int) == extra_entries(
            self.bottom_items@.len(),
        )
        &&& l.divider == (top.len() > 0 && bottom.len() > 0)
    }

    pub fn render(&self) -> (r: SidebarLayout)
        ensures
            self.renders(r),
    {
        let top_names = get_top_panel_names(self.side);
        let bottom_names = get_bottom_panel_names(self.side);
        let mut top: Vec<PanelButton> = Vec::new();
        let mut bottom: Vec<SidebarItem> = Vec::new();
        collect_buttons_from_dock(
            self.side,
            &self.left_dock,
            &top_names,
            &bottom_names,
            &mut top,
            &mut bottom,
        );
        let ghost (t1, b1) = (top@, bottom@);
        collect_buttons_from_dock(
            self.side,
            &self.bottom_dock,
            &top_names,
            &bottom_names,
            &mut top,
            &mut bottom,
        );
        let ghost (t2, b2) = (top@, bottom@);
        collect_buttons_from_dock(
            self.side,
            &self.right_dock,
            &top_names,
            &bottom_names,
            &mut top,
            &mut bottom,
        );
        let ghost (t3, b3) = (top@, bottom@);
        let mut j: usize = 0;
        while j < self.bottom_items.len()
            invariant
                j <= self.bottom_items@.len(),
                bottom@.len() == b3.len() + j,
                bottom@.subrange(0, b3.len() as int) == b3,
                bottom@.subrange(b3.len() as int, bottom@.len() as int) == extra_entries(j as nat),
            decreases self.bottom_items@.len() - j,
        {
            let ghost prev = bottom@;
            bottom.push(SidebarItem::Extra(j));
            proof {
                assert(bottom@.subrange(0, b3.len() as int) =~= prev.subrange(0, b3.len() as int));
                assert(bottom@.subrange(b3.len() as int, bottom@.len() as int) =~= prev.subrange(
                    b3.len() as int,
                    prev.len() as int,
                ).push(SidebarItem::Extra(j)));
                assert(extra_entries((j + 1) as nat) =~= extra_entries(j as nat).push(
                    SidebarItem::Extra(j),
                ));
            }
            j = j + 1;
        }
        proof {
            let (n1, n2, n3) = (t1.len() as int, t2.len() as int, t3.len() as int);
            assert(t1.subrange(0, n1) =~= t1);
            assert(top@.subrange(0, n1) =~= t1);
            assert(top@.subrange(n1, n2) =~= t2.subrange(n1, n2));
            assert(top@.subrange(n2, n3) =~= t3.subrange(n2, n3));
            let (m1, m2, m3) = (b1.len() as int, b2.len() as int, b3.len() as int);
            assert(b1.subrange(0, m1) =~= b1);
            assert(bottom@.subrange(0, m1) =~= b1);
            assert(bottom@.subrange(m1, m2) =~= b2.subrange(m1, m2));
            assert(bottom@.subrange(m2, m3) =~= b3.subrange(m2, m3));
        }
        let divider = top.len() > 0 && bottom.len() > 0;
        SidebarLayout { top, bottom, divider }
    }
}

proof fn lemma_slots_upto_contains(side: SidebarSide, dock: DockState, g: ButtonGroup, n: nat, i: int)
    requires
        n <= dock.panels@.len(),
    ensures
        slots_upto(side, dock, g, n).contains(i) <==> (0 <= i < n && shown_in(
            side,
            dock.panels@[i],
            g,
        )),
    decreases n,
{
    if n > 0 {
        lemma_slots_upto_contains(side, dock, g, (n - 1) as nat, i);
        let prev = slots_upto(side, dock, g, (n - 1) as nat);
        let s = slots_upto(side, dock, g, n);
        if shown_in(side, dock.panels@[n - 1], g) {
            assert(s == prev.push(n - 1));
            if prev.contains(i) {
                let k = choose|k: int| 0 <= k < prev.len() && prev[k] == i;
                assert(s[k] == i);
            }
            if i == n - 1 {
                assert(s[prev.len() as int] == i);
            }
        } else {
            assert(s =~= prev);
        }
    }
}

/// A panel of a dock gets a button, in one group or the other, exactly when
/// its name is on one of the side's lists and it has both an icon and a
/// tooltip.
pub proof fn lemma_button_iff_icon_and_tooltip(side: SidebarSide, dock: DockState, i: int)
    requires
        0 <= i < dock.panels@.len(),
    ensures
        (dock_slots(side, dock, ButtonGroup::Top).contains(i) || dock_slots(
            side,
            dock,
            ButtonGroup::Bottom,
        ).contains(i)) <==> (classify(side, dock.panels@[i].name@) is Some
            && dock.panels@[i].icon is Some && dock.panels@[i].tooltip is Some),
{
    lemma_slots_upto_contains(side, dock, ButtonGroup::Top, dock.panels@.len(), i);
    lemma_slots_upto_contains(side, dock, ButtonGroup::Bottom, dock.panels@.len(), i);
}

/// No panel gets a button in both groups.
pub proof fn lemma_never_in_both_groups(side: SidebarSide, dock: DockState, i: int)
    ensures
        !(dock_slots(side, dock, ButtonGroup::Top).contains(i) && dock_slots(
            side,
            dock,
            ButtonGroup::Bottom,
        ).contains(i)),
{
    lemma_slots_upto_contains(side, dock, ButtonGroup::Top, dock.panels@.len(), i);
    lemma_slots_upto_contains(side, dock, ButtonGroup::Bottom, dock.panels@.len(), i);
}

/// No name is on both lists of a side.
pub proof fn lemma_name_lists_disjoint(side: SidebarSide, name: Seq<char>)
    ensures
        !(top_names(side).contains(name) && bottom_names(side).contains(name)),
{
    reveal_strlit("Project Panel");
    reveal_strlit("GitPanel");
    reveal_strlit("Outline Panel");
    reveal_strlit("CollabPanel");
    reveal_strlit("TerminalPanel");
    reveal_strlit("DebugPanel");
    let (t, b) = (top_names(side), bottom_names(side));
    if t.contains(name) && b.contains(name) {
        let i = choose|i: int| 0 <= i < t.len() && t[i] == name;
        let j = choose|j: int| 0 <= j < b.len() && b[j] == name;
        assert(t[i][0] != b[j][0]);
    }
}

/// The divider stands between the groups exactly when both have entries.
pub proof fn lemma_divider_iff_both_groups<V>(s: SidebarButtons<V>, l: SidebarLayout)
    requires
        s.renders(l),
    ensures
        l.divider <==> (l.top@.len() > 0 && l.bottom@.len() > 0),
{
}

/// A button is active exactly when its panel is the dock's active panel and
/// the dock is open; an active button closes the dock, any other one toggles
/// its panel.
pub proof fn lemma_active_flag(b: PanelButton, side: SidebarSide, dock: DockState, i: int)
    requires
        0 <= i < dock.panels@.len(),
        button_for(b, side, dock, i),
    ensures
        b.is_active <==> (dock.active_panel_index == Some(i as usize) && dock.is_open),
        b.is_active ==> b.action == ButtonAction::ToggleDock(dock.position),
        !b.is_active ==> b.action == (ButtonAction::TogglePanel { dock: dock.position, index: i as usize }),
{
}

/// The relocation menu of a panel at `current` offers no entry for `current`,
/// and one entry, under its own label, for each other position where the
/// panel may live.
pub proof fn lemma_relocate_menu(
    m: RelocateMenu,
    panel: PanelInfo,
    current: DockPosition,
    p: DockPosition,
)
    requires
        m.offers(relocate_targets(panel, current)),
    ensures
        forall|k: int|
            0 <= k < m.entries@.len() ==> #[trigger] m.entries@[k].position != current
                && m.entries@[k].label@ != dock_entry_label(current),
        (exists|k: int| 0 <= k < m.entries@.len() && #[trigger] m.entries@[k].position == p) <==> (p
            != current && panel.position_is_valid_spec(p)),
        forall|k1: int, k2: int|
            0 <= k1 < m.entries@.len() && 0 <= k2 < m.entries@.len() && #[trigger] m.entries@[k1].position
                == #[trigger] m.entries@[k2].position ==> k1 == k2,
{
    lemma_relocate_targets(panel, current);
    let t = relocate_targets(panel, current);
    assert forall|k: int| 0 <= k < m.entries@.len() implies #[trigger] m.entries@[k].position
        != current && m.entries@[k].label@ != dock_entry_label(current) by {
        assert(t.contains(t[k]));
        lemma_dock_entry_label_injective(m.entries@[k].position, current);
    }
    if p != current && panel.position_is_valid_spec(p) {
        assert(t.contains(p));
        let k = choose|k: int| 0 <= k < t.len() && t[k] == p;
        assert(m.entries@[k].position == p);
    }
    if exists|k: int| 0 <= k < m.entries@.len() && #[trigger] m.entries@[k].position == p {
        let k = choose|k: int| 0 <= k < m.entries@.len() && #[trigger] m.entries@[k].position == p;
        assert(t.contains(t[k]));
    }
    assert forall|k1: int, k2: int|
        0 <= k1 < m.entries@.len() && 0 <= k2 < m.entries@.len() && #[trigger] m.entries@[k1].position
            == #[trigger] m.entries@[k2].position implies k1 == k2 by {
        assert(t[k1] == t[k2]);
    }
}

proof fn lemma_relocate_targets(panel: PanelInfo, current: DockPosition)
    ensures
        forall|p: DockPosition|
            #[trigger] relocate_targets(panel, current).contains(p) <==> (p != current
                && panel.position_is_valid_spec(p)),
        forall|k1: int, k2: int|
            0 <= k1 < relocate_targets(panel, current).len() && 0 <= k2 < relocate_targets(
                panel,
                current,
            ).len() && #[trigger] relocate_targets(panel, current)[k1] == #[trigger] relocate_targets(
                panel,
                current,
            )[k2] ==> k1 == k2,
{
    let t = relocate_targets(panel, current);
    let offer = |p: DockPosition| p != current && panel.position_is_valid_spec(p);
    let (l, r, b) = (DockPosition::Left, DockPosition::Right, DockPosition::Bottom);
    if offer(l) {
        if offer(r) {
            if offer(b) {
                assert(t =~= seq![l, r, b]);
            } else {
                assert(t =~= seq![l, r]);
            }
        } else {
            if offer(b) {
                assert(t =~= seq![l, b]);
            } else {
                assert(t =~= seq![l]);
            }
        }
    } else {
        if offer(r) {
            if offer(b) {
                assert(t =~= seq![r, b]);
            } else {
                assert(t =~= seq![r]);
            }
        } else {
            if offer(b) {
                assert(t =~= seq![b]);
            } else {
                assert(t =~= seq![]);
            }
        }
    }
    assert forall|p: DockPosition| #[trigger] t.contains(p) <==> offer(p) by {
        if offer(p) {
            if p == l {
                assert(t[0] == p);
            } else if p == r {
                assert(t[if offer(l) { 1int } else { 0 }] == p);
            } else {
                assert(t[t.len() - 1] == p);
            }
        }
    }
}

/// Distinct positions have distinct relocation labels.
pub proof fn lemma_dock_entry_label_injective(p: DockPosition, q: DockPosition)
    ensures
        dock_entry_label(p) == dock_entry_label(q) ==> p == q,
{
    reveal_strlit("Dock ");
    reveal_strlit("Left");
    reveal_strlit("Right");
    reveal_strlit("Bottom");
    if dock_entry_label(p) == dock_entry_label(q) && p != q {
        assert(dock_entry_label(p)[5] == dock_entry_label(q)[5]);
        assert(dock_entry_label(p).len() == dock_entry_label(q).len());
    }
}

/// The extra items follow every button that the docks give the bottom group,
/// in the order in which they were added.
pub proof fn lemma_extras_after_buttons<V>(s: SidebarButtons<V>, l: SidebarLayout)
    requires
        s.renders(l),
    ensures
        forall|k: int| 0 <= k < s.button_count(ButtonGroup::Bottom) ==> (#[trigger] l.bottom@[k] is Button),
        l.bottom@.subrange(s.button_count(ButtonGroup::Bottom) as int, l.bottom@.len() as int)
            == extra_entries(s.bottom_items@.len()),
{
    let side = s.side;
    let lb = dock_slots(side, s.left_dock, ButtonGroup::Bottom).len() as int;
    let bb = dock_slots(side, s.bottom_dock, ButtonGroup::Bottom).len() as int;
    let rb = dock_slots(side, s.right_dock, ButtonGroup::Bottom).len() as int;
    assert forall|k: int| 0 <= k < s.button_count(ButtonGroup::Bottom) implies #[trigger] l.bottom@[k] is Button by {
        if k < lb {
            assert(l.bottom@.subrange(0, lb)[k] == l.bottom@[k]);
        } else if k < lb + bb {
            assert(l.bottom@.subrange(lb, lb + bb)[k - lb] == l.bottom@[k]);
        } else {
            assert(l.bottom@.subrange(lb + bb, lb + bb + rb)[k - lb - bb] == l.bottom@[k]);
        }
    }
}

/// When only the active panel of a dock changes, every panel keeps its group,
/// and the button of the panel that was active no longer shows the active
/// state.
pub proof fn lemma_active_change_keeps_groups(
    side: SidebarSide,
    before: DockState,
    after: DockState,
    g: ButtonGroup,
)
    requires
        after.panels@ == before.panels@,
        after.position == before.position,
        after.is_open == before.is_open,
    ensures
        dock_slots(side, after, g) == dock_slots(side, before, g),
        forall|b: PanelButton, i: int|
            #![trigger button_for(b, side, after, i)]
            before.is_active_button(i) && after.active_panel_index != before.active_panel_index
                && button_for(b, side, after, i) ==> !b.is_active,
{
    lemma_slots_upto_same_panels(side, before, after, g, before.panels@.len());
}

proof fn lemma_slots_upto_same_panels(
    side: SidebarSide,
    d1: DockState,
    d2: DockState,
    g: ButtonGroup,
    n: nat,
)
    requires
        d1.panels@ == d2.panels@,
        n <= d1.panels@.len(),
    ensures
        slots_upto(side, d1, g, n) == slots_upto(side, d2, g, n),
    decreases n,
{
    if n > 0 {
        lemma_slots_upto_same_panels(side, d1, d2, g, (n - 1) as nat);
    }
}

} // verus!
