use vstd::prelude::*;
use vstd::string::StringExecFns;

verus! {

/// A region of the window that hosts panels.
#[derive(Debug, Clone, Copy, PartialEq, Eq, Structural)]
pub enum DockPosition {
    Left,
    Right,
    Bottom,
}

impl DockPosition {
    /// The word under which the position is shown to the user.
    pub open spec fn label_spec(self) -> Seq<char> {
        match self {
            DockPosition::Left => "Left"@,
            DockPosition::Right => "Right"@,
            DockPosition::Bottom => "Bottom"@,
        }
    }

    pub fn label(&self) -> (r: &'static str)
        ensures
            r@ == self.label_spec(),
    {
        match self {
            DockPosition::Left => "Left",
            DockPosition::Right => "Right",
            DockPosition::Bottom => "Bottom",
        }
    }
}

/// The text of the relocation entry that moves a panel to `p`.
pub open spec fn dock_entry_label(p: DockPosition) -> Seq<char> {
    "Dock "@ + p.label_spec()
}

/// The tooltip of an active button, whose click closes the dock at `p`.
pub open spec fn close_dock_tooltip(p: DockPosition) -> Seq<char> {
    "Close "@ + p.label_spec() + " Dock"@
}

pub fn dock_entry_text(p: DockPosition) -> (r: String)
    ensures
        r@ == dock_entry_label(p),
{
    let mut s = String::from_str("Dock ");
    s.append(p.label());
    s
}

pub fn close_dock_text(p: DockPosition) -> (r: String)
    ensures
        r@ == close_dock_tooltip(p),
{
    let mut s = String::from_str("Close ");
    s.append(p.label());
    s.append(" Dock");
    s
}

/// What the sidebar reads of one panel.
pub struct PanelInfo {
    /// The stable name that identifies the kind of panel.
    pub name: String,
    /// The icon, where the panel has one.
    pub icon: Option<String>,
    /// The tooltip of the icon, where the panel has one.
    pub tooltip: Option<String>,
    /// Whether the panel may live in the left dock.
    pub valid_left: bool,
    /// Whether the panel may live in the right dock.
    pub valid_right: bool,
    /// Whether the panel may live in the bottom dock.
    pub valid_bottom: bool,
}

impl PanelInfo {
    pub open spec fn position_is_valid_spec(&self, p: DockPosition) -> bool {
        match p {
            DockPosition::Left => self.valid_left,
            DockPosition::Right => self.valid_right,
            DockPosition::Bottom => self.valid_bottom,
        }
    }

    pub fn position_is_valid(&self, p: DockPosition) -> (r: bool)
        ensures
            r == self.position_is_valid_spec(p),
    {
        match p {
            DockPosition::Left => self.valid_left,
            DockPosition::Right => self.valid_right,
            DockPosition::Bottom => self.valid_bottom,
        }
    }

    /// A panel is shown only where it has both an icon and a tooltip.
    pub open spec fn is_presentable(&self) -> bool {
        self.icon is Some && self.tooltip is Some
    }
}

/// What the sidebar reads of one dock when it renders.
pub struct DockState {
    pub position: DockPosition,
    pub is_open: bool,
    pub active_panel_index: Option<usize>,
    /// The panels in the dock's own order.
    pub panels: Vec<PanelInfo>,
}

impl DockState {
    /// The panel at index `i` shows the active state: it is the dock's active
    /// panel and the dock is open.
    pub open spec fn is_active_button(&self, i: int) -> bool {
        self.active_panel_index == Some(i as usize) && self.is_open && 0 <= i
    }
}

} // verus!
