//! The side bar that switches between the panes.

use crate::icon::IconName;
use vstd::prelude::*;

verus! {

/// A pane that the side bar can select.
#[derive(Clone, Copy, Debug, PartialEq, Eq, Structural)]
pub enum LeftBarItem {
    Forum,
    Find,
}

impl LeftBarItem {
    /// Every item, in the order the bar shows them.
    pub fn all_items() -> (r: Vec<LeftBarItem>)
        ensures
            r@ == seq![LeftBarItem::Forum, LeftBarItem::Find],
    {
        let mut v: Vec<LeftBarItem> = Vec::new();
        v.push(LeftBarItem::Forum);
        v.push(LeftBarItem::Find);
        assert(v@ =~= seq![LeftBarItem::Forum, LeftBarItem::Find]);
        v
    }

    /// The icon of the item's button.
    pub fn icon(&self) -> (r: IconName)
        ensures
            *self == LeftBarItem::Forum ==> r == IconName::House,
            *self == LeftBarItem::Find ==> r == IconName::BookMarked,
    {
        match self {
            LeftBarItem::Forum => IconName::House,
            LeftBarItem::Find => IconName::BookMarked,
        }
    }

    /// The item's name, which identifies its button.
    pub fn id(&self) -> (r: &'static str)
        ensures
            *self == LeftBarItem::Forum ==> r@ == "Forum"@,
            *self == LeftBarItem::Find ==> r@ == "Find"@,
    {
        match self {
            LeftBarItem::Forum => "Forum",
            LeftBarItem::Find => "Find",
        }
    }
}

/// The side bar: which pane is selected.
pub struct LeftBar {
    selected_item: LeftBarItem,
}

impl LeftBar {
    pub closed spec fn selected(&self) -> LeftBarItem {
        self.selected_item
    }

    /// A bar with the forum pane selected.
    pub fn new() -> (r: Self)
        ensures
            r.selected() == LeftBarItem::Forum,
    {
        LeftBar { selected_item: LeftBarItem::Forum }
    }

    pub fn selected_item(&self) -> (r: &LeftBarItem)
        ensures
            *r == self.selected(),
    {
        &self.selected_item
    }

    /// A button of the bar was clicked: its item becomes the selected one.
    pub fn on_click(&mut self, item: LeftBarItem)
        ensures
            final(self).selected() == item,
    {
        self.selected_item = item;
    }
}

} // verus!
