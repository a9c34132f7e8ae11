//! The navigation bar: its links, the collapsible menu of narrow windows and
//! the dark mode switch.
use vstd::prelude::*;

verus! {

/// A link of the navigation bar.
pub struct NavLink {
    pub href: &'static str,
    pub label: &'static str,
}

/// The links of the navigation bar, in order.
pub open spec fn nav_link_table() -> Seq<(Seq<char>, Seq<char>)> {
    seq![
        ("/"@, "Home"@),
        ("/query"@, "Query AI"@),
        ("/stream-query"@, "Stream AI"@),
        ("/stream-thinking"@, "Stream Thinking AI"@),
        ("/models"@, "Models"@),
    ]
}

/// The links of the navigation bar, in order.
pub fn navbar_links() -> (v: Vec<NavLink>)
    ensures
        v@.len() == nav_link_table().len(),
        forall|i: int|
            0 <= i < v@.len() ==> (#[trigger] v@[i]).href@ == nav_link_table()[i].0 && v@[i].label@
                == nav_link_table()[i].1,
{
    let mut v: Vec<NavLink> = Vec::new();
    v.push(NavLink { href: "/", label: "Home" });
    v.push(NavLink { href: "/query", label: "Query AI" });
    v.push(NavLink { href: "/stream-query", label: "Stream AI" });
    v.push(NavLink { href: "/stream-thinking", label: "Stream Thinking AI" });
    v.push(NavLink { href: "/models", label: "Models" });
    v
}

/// The menu of narrow windows, open or folded.
#[derive(Clone, Copy, Debug, PartialEq, Eq, Structural)]
pub struct NavMenu {
    pub open: bool,
}

impl NavMenu {
    /// A folded menu.
    pub fn new() -> (m: NavMenu)
        ensures
            !m.open,
    {
        NavMenu { open: false }
    }

    /// The menu after a press of its button.
    pub open spec fn toggled(self) -> NavMenu {
        NavMenu { open: !self.open }
    }

    /// The menu button was pressed.
    pub fn toggle(&mut self)
        ensures
            *final(self) == old(self).toggled(),
    {
        self.open = !self.open;
    }

    /// The style of the menu: shown while open, never on wide windows.
    pub fn menu_class(&self) -> (c: &'static str)
        ensures
            c@ == (if self.open {
                "block lg:hidden"@
            } else {
                "hidden lg:hidden"@
            }),
    {
        if self.open {
            "block lg:hidden"
        } else {
            "hidden lg:hidden"
        }
    }
}

/// Pressing the menu button twice leaves the menu as it was.
pub proof fn lemma_toggle_twice(m: NavMenu)
    ensures
        m.toggled().toggled() == m,
{
}

/// The menu after `k` presses of its button.
pub open spec fn toggled_times(m: NavMenu, k: nat) -> NavMenu
    decreases k,
{
    if k == 0 {
        m
    } else {
        toggled_times(m, (k - 1) as nat).toggled()
    }
}

/// From the folded menu, `k` presses leave it open exactly when `k` is odd.
pub proof fn lemma_presses_open_when_odd(k: nat)
    ensures
        toggled_times(NavMenu { open: false }, k).open == (k % 2 == 1),
    decreases k,
{
    if k > 0 {
        lemma_presses_open_when_odd((k - 1) as nat);
    }
}

/// What the dark mode switch does to the document's classes.
#[derive(Clone, Copy, Debug, PartialEq, Eq, Structural)]
pub enum DarkModeChange {
    /// Add the class `dark`.
    AddDark,
    /// Remove the class `dark`.
    RemoveDark,
}

/// The dark mode switch: the class `dark` is removed where present, added
/// where absent.
pub fn dark_mode_change(has_dark: bool) -> (c: DarkModeChange)
    ensures
        c == (if has_dark {
            DarkModeChange::RemoveDark
        } else {
            DarkModeChange::AddDark
        }),
{
    if !has_dark {
        DarkModeChange::AddDark
    } else {
        DarkModeChange::RemoveDark
    }
}

/// Whether the class `dark` is present after a change.
pub open spec fn dark_after(has_dark: bool, c: DarkModeChange) -> bool {
    c == DarkModeChange::AddDark || (has_dark && c != DarkModeChange::RemoveDark)
}

/// The switch flips dark mode, and two presses restore it.
pub proof fn lemma_dark_mode_flips(has_dark: bool)
    ensures
        dark_after(
            has_dark,
            if has_dark {
                DarkModeChange::RemoveDark
            } else {
                DarkModeChange::AddDark
            },
        ) == !has_dark,
{
}

} // verus!
