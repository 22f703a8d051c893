//! The interactive lists of the `filings` and `news` commands: which item
//! is selected, which part of the list is shown, and what each key does.
use vstd::prelude::*;

use crate::edgar::view::scrolled;
use crate::keys::{KeyCode, KeyEvent};

verus! {

/// The list's position: the selected item and the first one shown, among
/// `count` items.
#[derive(Debug, Clone, Copy, PartialEq, Eq, Structural)]
pub struct ListView {
    pub selected: usize,
    pub scroll: usize,
    pub count: usize,
}

/// What the program does after a key press.
#[derive(Debug, Clone, Copy, PartialEq, Eq, Structural)]
pub enum ListAction {
    /// Keep showing the list.
    Continue,
    /// Close the list.
    Quit,
    /// Open the item at this index in the web browser, when it has an
    /// address.
    Open(usize),
}

impl ListView {
    /// The list is not empty and the selected item is in it.
    pub open spec fn wf(self) -> bool {
        self.count > 0 && self.selected < self.count
    }

    /// The list at its start: the first item selected and shown first.
    pub fn new(count: usize) -> (b: Self)
        requires
            count > 0,
        ensures
            b == (ListView { selected: 0, scroll: 0, count }),
            b.wf(),
    {
        ListView { selected: 0, scroll: 0, count }
    }
}

/// What a key press does to the list, and what the program does next.
pub open spec fn list_key(b: ListView, key: KeyEvent) -> (ListView, ListAction) {
    match key.code {
        KeyCode::Char('q') | KeyCode::Esc => (b, ListAction::Quit),
        KeyCode::Char('c') if key.modifiers.control => (b, ListAction::Quit),
        KeyCode::Up | KeyCode::Char('k') => (
            ListView {
                selected: if b.selected > 0 {
                    (b.selected - 1) as usize
                } else {
                    0
                },
                ..b
            },
            ListAction::Continue,
        ),
        KeyCode::Down | KeyCode::Char('j') => (
            ListView {
                selected: if b.selected < b.count - 1 {
                    (b.selected + 1) as usize
                } else {
                    b.selected
                },
                ..b
            },
            ListAction::Continue,
        ),
        KeyCode::Enter => (b, ListAction::Open(b.selected)),
        _ => (b, ListAction::Continue),
    }
}

/// How many items fit in a list area `height` rows high: three rows each,
/// inside a border.
pub open spec fn items_per_page(height: u16) -> int {
    (if height >= 2 {
        height - 2
    } else {
        0
    }) / 3
}

impl ListView {
    /// Applies a key press: `q`, Esc and Ctrl-C close the list; Up/Down and
    /// `k`/`j` move the selection within the list; Enter asks to open the
    /// selected item.
    pub fn handle_key(&mut self, key: KeyEvent) -> (action: ListAction)
        requires
            old(self).wf(),
        ensures
            *final(self) == list_key(*old(self), key).0,
            action == list_key(*old(self), key).1,
    {
        match key.code {
            KeyCode::Char('q') | KeyCode::Esc => ListAction::Quit,
            KeyCode::Char('c') if key.modifiers.control => ListAction::Quit,
            KeyCode::Up | KeyCode::Char('k') => {
                self.selected = self.selected.saturating_sub(1);
                ListAction::Continue
            },
            KeyCode::Down | KeyCode::Char('j') => {
                if self.selected < self.count - 1 {
                    self.selected = self.selected + 1;
                }
                ListAction::Continue
            },
            KeyCode::Enter => ListAction::Open(self.selected),
            _ => ListAction::Continue,
        }
    }

    /// Moves the first item shown so that the selected one is visible in a
    /// list area `height` rows high, and returns how many items fit in it.
    /// The area must hold at least one item unless the selection is above
    /// the first one shown.
    pub fn scroll_to_selected(&mut self, height: u16) -> (per_page: usize)
        requires
            items_per_page(height) > 0 || old(self).selected < old(self).scroll,
        ensures
            per_page == items_per_page(height),
            *final(self) == (ListView {
                scroll: scrolled(old(self).selected, old(self).scroll, items_per_page(height)),
                ..*old(self)
            }),
    {
        let list_height: usize = if height >= 2 {
            (height - 2) as usize
        } else {
            0
        };
        let per_page = list_height / 3;
        if self.selected < self.scroll {
            self.scroll = self.selected;
        } else if self.selected - self.scroll >= per_page {
            self.scroll = self.selected.saturating_sub(per_page - 1);
        }
        per_page
    }
}

/// Every key press keeps the selection inside the list, and the list's
/// length.
pub proof fn law_list_key_keeps_wf(b: ListView, key: KeyEvent)
    requires
        b.wf(),
    ensures
        list_key(b, key).0.wf(),
        list_key(b, key).0.count == b.count,
        list_key(b, key).1 matches ListAction::Open(i) ==> i < b.count,
{
}

/// After scrolling, the selected item is among those shown.
pub proof fn law_selected_item_shown(b: ListView, height: u16)
    requires
        items_per_page(height) > 0,
    ensures
        ({
            let first = scrolled(b.selected, b.scroll, items_per_page(height));
            first <= b.selected < first + items_per_page(height)
        }),
{
}

} // verus!
