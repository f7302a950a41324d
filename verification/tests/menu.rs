use sim_viewer::views::main_menu::{dispatch, MainMenuView, MenuAction, MenuInput};
use sim_viewer::views::ViewAction;

fn idle() -> MenuInput {
    MenuInput { quit: false, key_escape: false, key_space: false, key_up: false, key_down: false }
}

#[test]
fn new_menu_has_three_entries_and_selects_the_first() {
    let menu = MainMenuView::new();
    assert_eq!(menu.actions, vec![MenuAction::NewGame, MenuAction::Options, MenuAction::Quit]);
    assert_eq!(menu.selected, 0);
}

#[test]
fn down_from_the_last_entry_wraps_to_the_first() {
    let mut menu = MainMenuView::new();
    menu.selected = 2;
    assert_eq!(menu.render(MenuInput { key_down: true, ..idle() }), ViewAction::Continue);
    assert_eq!(menu.selected, 0);
}

#[test]
fn up_from_the_first_entry_wraps_to_the_last() {
    let mut menu = MainMenuView::new();
    assert_eq!(menu.render(MenuInput { key_up: true, ..idle() }), ViewAction::Continue);
    assert_eq!(menu.selected, 2);
}

#[test]
fn up_and_down_move_by_one_inside_the_menu() {
    let mut menu = MainMenuView::new();
    menu.render(MenuInput { key_down: true, ..idle() });
    assert_eq!(menu.selected, 1);
    menu.render(MenuInput { key_down: true, ..idle() });
    assert_eq!(menu.selected, 2);
    menu.render(MenuInput { key_up: true, ..idle() });
    assert_eq!(menu.selected, 1);
}

#[test]
fn up_and_down_together_cancel() {
    let mut menu = MainMenuView::new();
    menu.render(MenuInput { key_up: true, key_down: true, ..idle() });
    assert_eq!(menu.selected, 0);
    menu.selected = 2;
    menu.render(MenuInput { key_up: true, key_down: true, ..idle() });
    assert_eq!(menu.selected, 2);
}

#[test]
fn idle_frame_changes_nothing() {
    let mut menu = MainMenuView::new();
    menu.selected = 1;
    assert_eq!(menu.render(idle()), ViewAction::Continue);
    assert_eq!(menu.selected, 1);
}

#[test]
fn confirm_hands_back_what_the_selected_entry_stands_for() {
    let mut menu = MainMenuView::new();
    assert_eq!(menu.render(MenuInput { key_space: true, ..idle() }), ViewAction::ChangeToGame);
    menu.selected = 1;
    assert_eq!(menu.render(MenuInput { key_space: true, ..idle() }), ViewAction::Continue);
    menu.selected = 2;
    assert_eq!(menu.render(MenuInput { key_space: true, ..idle() }), ViewAction::Quit);
    assert_eq!(menu.selected, 2);
}

#[test]
fn confirm_comes_before_moving() {
    let mut menu = MainMenuView::new();
    let input = MenuInput { key_space: true, key_down: true, ..idle() };
    assert_eq!(menu.render(input), ViewAction::ChangeToGame);
    assert_eq!(menu.selected, 0);
}

#[test]
fn quit_and_escape_come_before_everything() {
    let mut menu = MainMenuView::new();
    let all = MenuInput { quit: true, key_escape: false, key_space: true, key_up: true, key_down: true };
    assert_eq!(menu.render(all), ViewAction::Quit);
    assert_eq!(menu.selected, 0);
    let esc = MenuInput { key_escape: true, key_space: true, ..idle() };
    assert_eq!(menu.render(esc), ViewAction::Quit);
    assert_eq!(menu.selected, 0);
}

#[test]
fn single_entry_menu_wraps_onto_itself() {
    let mut menu = MainMenuView { actions: vec![MenuAction::Quit], selected: 0 };
    menu.render(MenuInput { key_down: true, ..idle() });
    assert_eq!(menu.selected, 0);
    menu.render(MenuInput { key_up: true, ..idle() });
    assert_eq!(menu.selected, 0);
}

#[test]
fn dispatch_maps_each_entry() {
    assert_eq!(dispatch(MenuAction::NewGame), ViewAction::ChangeToGame);
    assert_eq!(dispatch(MenuAction::Options), ViewAction::Continue);
    assert_eq!(dispatch(MenuAction::Quit), ViewAction::Quit);
}

#[test]
fn every_entry_has_its_label() {
    assert_eq!(MenuAction::NewGame.label(), "New Game");
    assert_eq!(MenuAction::Options.label(), "Options");
    assert_eq!(MenuAction::Quit.label(), "Quit");
}
