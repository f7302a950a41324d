//! The main menu: a selection that wraps around, and what a frame's input
//! makes of it.

use vstd::prelude::*;
use crate::views::ViewAction;

verus! {

/// What a menu entry does when it is confirmed.
#[derive(Clone, Copy, Debug, PartialEq, Eq, Structural)]
pub enum MenuAction {
    /// Open the live view.
    NewGame,
    /// Nothing yet: the menu stays.
    Options,
    /// Leave the program.
    Quit,
}

/// The input flags of one frame that the menu reads.
#[derive(Clone, Copy, Debug, PartialEq, Eq, Structural)]
pub struct MenuInput {
    pub quit: bool,
    pub key_escape: bool,
    pub key_space: bool,
    pub key_up: bool,
    pub key_down: bool,
}

/// The entries of the menu, in the order shown, and the one selected.
pub struct MainMenuView {
    pub actions: Vec<MenuAction>,
    pub selected: usize,
}

/// The entry above `selected` among `count`, the last one above the first.
pub open spec fn index_above(selected: int, count: int) -> int {
    if selected <= 0 {
        count - 1
    } else {
        selected - 1
    }
}

/// The entry below `selected` among `count`, the first one below the last.
pub open spec fn index_below(selected: int, count: int) -> int {
    if selected + 1 >= count {
        0
    } else {
        selected + 1
    }
}

/// The selection after a frame in which up, down, both or neither is held:
/// up is applied first, then down.
pub open spec fn moved_selection(selected: int, count: int, up: bool, down: bool) -> int {
    let after_up = if up {
        index_above(selected, count)
    } else {
        selected
    };
    if down {
        index_below(after_up, count)
    } else {
        after_up
    }
}

/// What confirming an entry tells the frame loop.
pub open spec fn outcome_of(action: MenuAction) -> ViewAction {
    match action {
        MenuAction::NewGame => ViewAction::ChangeToGame,
        MenuAction::Options => ViewAction::Continue,
        MenuAction::Quit => ViewAction::Quit,
    }
}

impl MenuAction {
    /// The words under which this entry is shown.
    pub open spec fn label_text(self) -> Seq<char> {
        match self {
            MenuAction::NewGame => "New Game"@,
            MenuAction::Options => "Options"@,
            MenuAction::Quit => "Quit"@,
        }
    }

    /// The words under which this entry is shown.
    pub fn label(&self) -> (text: &'static str)
        ensures
            text@ == self.label_text(),
    {
        match *self {
            MenuAction::NewGame => "New Game",
            MenuAction::Options => "Options",
            MenuAction::Quit => "Quit",
        }
    }
}

/// The function from an entry to what confirming it tells the frame loop.
pub fn dispatch(action: MenuAction) -> (result: ViewAction)
    ensures
        result == outcome_of(action),
{
    match action {
        MenuAction::NewGame => ViewAction::ChangeToGame,
        MenuAction::Options => ViewAction::Continue,
        MenuAction::Quit => ViewAction::Quit,
    }
}

impl MainMenuView {
    /// There is an entry, and the selection points at one.
    pub open spec fn wf(self) -> bool {
        self.selected < self.actions@.len()
    }

    /// The menu of three entries, new game, options and quit, with the first
    /// selected.
    pub fn new() -> (menu: Self)
        ensures
            menu.wf(),
            menu.actions@ == seq![MenuAction::NewGame, MenuAction::Options, MenuAction::Quit],
            menu.selected == 0,
    {
        let mut actions: Vec<MenuAction> = Vec::new();
        actions.push(MenuAction::NewGame);
        actions.push(MenuAction::Options);
        actions.push(MenuAction::Quit);
        proof {
            assert(actions@ =~= seq![MenuAction::NewGame, MenuAction::Options, MenuAction::Quit]);
        }
        MainMenuView { actions, selected: 0 }
    }

    /// One frame of the menu. A quit signal or escape ends the program before
    /// anything else is looked at. Otherwise confirming hands back what the
    /// selected entry stands for, and the selection stays. Otherwise up and
    /// down move the selection, wrapping at both ends, and the menu goes on.
    pub fn render(&mut self, input: MenuInput) -> (result: ViewAction)
        requires
            old(self).wf(),
        ensures
            final(self).wf(),
            final(self).actions@ == old(self).actions@,
            final(self).selected == (if input.quit || input.key_escape || input.key_space {
                old(self).selected as int
            } else {
                moved_selection(
                    old(self).selected as int,
                    old(self).actions@.len() as int,
                    input.key_up,
                    input.key_down,
                )
            }),
            result == (if input.quit || input.key_escape {
                ViewAction::Quit
            } else if input.key_space {
                outcome_of(old(self).actions@[old(self).selected as int])
            } else {
                ViewAction::Continue
            }),
    {
        if input.quit || input.key_escape {
            return ViewAction::Quit;
        }
        if input.key_space {
            return dispatch(self.actions[self.selected]);
        }
        if input.key_up {
            if self.selected == 0 {
                self.selected = self.actions.len() - 1;
            } else {
                self.selected = self.selected - 1;
            }
        }
        if input.key_down {
            if self.selected >= self.actions.len() - 1 {
                self.selected = 0;
            } else {
                self.selected = self.selected + 1;
            }
        }
        ViewAction::Continue
    }
}

/// Moving down from the last entry selects the first; moving up from the
/// first selects the last; and either way the selection stays within the
/// menu.
pub proof fn selection_wraps(selected: int, count: int, up: bool, down: bool)
    requires
        0 <= selected < count,
    ensures
        index_below(count - 1, count) == 0,
        index_above(0, count) == count - 1,
        0 <= moved_selection(selected, count, up, down) < count,
{
}

} // verus!
