use process_monitor::application::{App, AppEventState, Focus};
use process_monitor::column::ColumnOptions;
use process_monitor::config::{AppConfig, ProcessTableViewsConfig, RefreshRateConfig};
use process_monitor::config_manager::{ConfigManagerComponent, ConfigManagerEventState, ConfigMenuOptions};
use process_monitor::key::{Event, Key, KeyCodeInput, KeyInput, ALT_MODIFIER, CONTROL_MODIFIER};
use process_monitor::process::Process;
use process_monitor::process_table_component::{ProcessTableComponent, ProcessTableEventState};
use process_monitor::sort::RowSort;
use process_monitor::views::{ProcessTableViewFocus, ProcessTableViews, ViewsOrientation};

fn processes() -> Vec<Process> {
    vec![
        Process::new(10, (5.0f32).to_bits(), (1.0f32).to_bits(), 300, "init".to_string()),
        Process::new(20, (9.0f32).to_bits(), (2.0f32).to_bits(), 100, "sh".to_string()),
        Process::new(30, (1.0f32).to_bits(), (3.0f32).to_bits(), 200, "vim".to_string()),
    ]
}

fn focus(c: &ProcessTableComponent) -> ProcessTableViewFocus {
    *c.views().active_view().view_focus()
}

#[test]
fn keys_map_from_terminal_input() {
    let k = |code, modifiers| Key::from_input(KeyInput { code, modifiers });
    assert_eq!(k(KeyCodeInput::Char('c'), CONTROL_MODIFIER), Key::Ctrlc);
    assert_eq!(k(KeyCodeInput::Char('x'), CONTROL_MODIFIER), Key::Ctrlx);
    assert_eq!(k(KeyCodeInput::Char('q'), CONTROL_MODIFIER), Key::Char('q'));
    assert_eq!(k(KeyCodeInput::Char('c'), CONTROL_MODIFIER | 1), Key::Char('c'));
    assert_eq!(k(KeyCodeInput::Char('s'), ALT_MODIFIER), Key::Alts);
    assert_eq!(k(KeyCodeInput::Left, ALT_MODIFIER), Key::AltLeft);
    assert_eq!(k(KeyCodeInput::Left, 0), Key::Left);
    assert_eq!(k(KeyCodeInput::Enter, CONTROL_MODIFIER), Key::Enter);
    assert_eq!(k(KeyCodeInput::Other, 0), Key::Unknown);
}

#[test]
fn a_new_component_has_one_default_view() {
    let c = ProcessTableComponent::new(processes()).unwrap();
    assert_eq!(c.views().count_views(), 1);
    assert_eq!(focus(&c), ProcessTableViewFocus::Rows);
    assert!(c.views().active_view().table_state().row_selection().selection().is_none());
    assert_eq!(c.table().count_visible_rows(&RowSort::CpuDec, &None), 3);
}

#[test]
fn focus_moves_between_rows_columns_and_filter() {
    let mut c = ProcessTableComponent::new(processes()).unwrap();
    assert_eq!(c.event(Key::Tab), ProcessTableEventState::Consumed);
    assert_eq!(focus(&c), ProcessTableViewFocus::Columns);
    assert_eq!(c.views().active_view().table_state().columns().selection(), Some(0));
    c.event(Key::Tab);
    assert_eq!(focus(&c), ProcessTableViewFocus::Rows);
    assert!(c.views().active_view().table_state().columns().selection().is_none());
    c.event(Key::Char('/'));
    assert_eq!(focus(&c), ProcessTableViewFocus::Filter);
    c.event(Key::Enter);
    assert_eq!(focus(&c), ProcessTableViewFocus::Rows);
    assert_eq!(c.event(Key::PageUp), ProcessTableEventState::NotConsumed);
}

#[test]
fn row_selection_and_sort_keys() {
    let mut c = ProcessTableComponent::new(processes()).unwrap();
    c.event(Key::Down);
    // With no row selected, moving selects the first.
    assert_eq!(c.views().active_view().table_state().row_selection().selection(), Some(0));
    c.new_snapshot(processes()).unwrap();
    assert_eq!(c.views().active_view().table_state().row_selection().selection(), Some(0));
    c.event(Key::Down);
    c.event(Key::Down);
    assert_eq!(c.views().active_view().table_state().row_selection().selection(), Some(2));
    c.event(Key::Up);
    assert_eq!(c.views().active_view().table_state().row_selection().selection(), Some(1));
    c.event(Key::Char('p'));
    assert_eq!(*c.views().active_view().table_state().row_sort(), RowSort::PidDec);
    c.event(Key::Char('p'));
    assert_eq!(*c.views().active_view().table_state().row_sort(), RowSort::PidInc);
    // Row 1 in pid order is pid 20.
    assert_eq!(c.event(Key::Char('T')), ProcessTableEventState::TerminatePid(20));
}

#[test]
fn typing_a_filter_narrows_the_rows_and_reports_errors() {
    let mut c = ProcessTableComponent::new(processes()).unwrap();
    c.new_snapshot(processes()).unwrap();
    c.event(Key::Char('/'));
    for ch in "mem > 150".chars() {
        c.event(Key::Char(ch));
    }
    let view = c.views().active_view();
    assert_eq!(view.table_state().filter_string().as_str(), "mem > 150");
    assert!(view.filter_err_msg().is_none());
    assert!(view.table_state().filter_ast().is_some());
    assert_eq!(
        c.table().count_visible_rows(view.table_state().row_sort(), view.table_state().filter_ast()),
        2
    );
    c.event(Key::Backspace);
    c.event(Key::Backspace);
    c.event(Key::Backspace);
    let view = c.views().active_view();
    assert_eq!(view.filter_err_msg().unwrap(), "Parse Error: Expected number");
    assert!(view.table_state().filter_ast().is_none());
    c.event(Key::Char('#'));
    let view = c.views().active_view();
    assert_eq!(view.filter_err_msg().unwrap(), "Lex Error: Unexpected char: #");
}

#[test]
fn column_keys_edit_the_active_view() {
    let mut c = ProcessTableComponent::new(processes()).unwrap();
    c.event(Key::Tab);
    c.event(Key::Delete);
    assert_eq!(c.views().active_view().table_state().columns().len(), 4);
    c.event(Key::Char('n'));
    assert_eq!(c.views().active_view().table_state().columns().columns()[0], ColumnOptions::Name);
    c.event(Key::Right);
    assert_eq!(c.views().active_view().table_state().columns().selection(), Some(1));
    c.event(Key::Left);
    c.event(Key::Left);
    assert_eq!(c.views().active_view().table_state().columns().selection(), Some(4));
}

#[test]
fn view_keys_add_switch_and_remove_views() {
    let mut c = ProcessTableComponent::new(processes()).unwrap();
    c.event(Key::Char('/'));
    c.event(Key::Alts);
    assert_eq!(c.views().count_views(), 2);
    c.event(Key::Alts);
    assert_eq!(c.views().count_views(), 2);
    assert_eq!(c.views().views_selection(), 0);
    c.event(Key::AltRight);
    assert_eq!(c.views().views_selection(), 1);
    assert_eq!(focus(&c), ProcessTableViewFocus::Filter);
    c.event(Key::AltRight);
    assert_eq!(c.views().views_selection(), 0);
    c.event(Key::AltLeft);
    assert_eq!(c.views().views_selection(), 1);
    c.event(Key::Alth);
    assert_eq!(*c.views().views_orientation(), ViewsOrientation::SplitHorizontal);
    c.event(Key::Altd);
    assert_eq!(c.views().count_views(), 1);
    assert_eq!(c.views().views_selection(), 0);
    c.event(Key::Altd);
    assert_eq!(c.views().count_views(), 1);
}

#[test]
fn config_menu_moves_and_asks_to_save() {
    let mut m = ConfigManagerComponent::new(AppConfig::default());
    assert_eq!(m.menu().menu_options().len(), 2);
    assert_eq!(m.event(Key::Up), ConfigManagerEventState::Consumed);
    assert_eq!(m.menu().menu_selection(), 0);
    m.event(Key::Down);
    m.event(Key::Down);
    assert_eq!(m.menu().menu_selection(), 1);
    assert_eq!(m.event(Key::Enter), ConfigManagerEventState::Consumed);
    m.event(Key::Up);
    assert_eq!(m.event(Key::Enter), ConfigManagerEventState::SaveCurrentConfig);
    assert_eq!(m.event(Key::Tab), ConfigManagerEventState::NotConsumed);
    assert_eq!(ConfigMenuOptions::SetRefreshRate1s.as_str(), "Set refresh rate to 1s");
}

#[test]
fn refresh_rate_accepts_one_two_or_five_seconds() {
    let mut r = RefreshRateConfig::default();
    assert_eq!(r.interval(), (2, 0));
    assert!(r.set_interval(5, 0));
    assert_eq!(r.interval(), (5, 0));
    assert!(!r.set_interval(3, 0));
    assert!(!r.set_interval(1, 1));
    assert_eq!(r.interval(), (5, 0));
}

#[test]
fn app_routes_keys_by_focus_and_saves_views() {
    let mut app = App::new_with_config(AppConfig::default(), processes()).unwrap();
    assert_eq!(app.focus(), Focus::Table);
    assert_eq!(app.key_event(Key::Ctrlx), AppEventState::Consumed);
    assert_eq!(app.focus(), Focus::Config);
    assert_eq!(app.key_event(Key::Enter), AppEventState::SaveConfig);
    assert!(app.config_manager().app_config().tables_views_config().is_some());
    assert_eq!(app.key_event(Key::Esc), AppEventState::Consumed);
    assert_eq!(app.focus(), Focus::Table);
    assert_eq!(app.key_event(Key::PageDown), AppEventState::NotConsumed);
}

#[test]
fn stored_views_come_back() {
    let mut views = ProcessTableViews::default();
    views.create_new_view_from_active();
    views.inc_selection();
    let stored = ProcessTableViewsConfig::from_views(&views);
    let back = stored.to_views().unwrap();
    assert_eq!(back.count_views(), 2);
    assert_eq!(back.views_selection(), 1);
    let broken = ProcessTableViewsConfig::from_parts(Vec::new(), 0, ViewsOrientation::SplitVertical, 2);
    assert!(broken.to_views().is_none());
    let config = AppConfig::new(RefreshRateConfig::default(), Some(broken));
    let app = App::new_with_config(config, processes()).unwrap();
    assert_eq!(app.process_table().views().count_views(), 1);
    assert!(app.config_manager().app_config().tables_views_config().is_none());
}

#[test]
fn app_moves_the_menu_selection_in_the_config_focus() {
    let mut app = App::new_with_config(AppConfig::default(), processes()).unwrap();
    assert_eq!(app.key_event(Key::Ctrlx), AppEventState::Consumed);
    let count = app.config_manager().menu().menu_options().len();
    assert_eq!(app.config_manager().menu().menu_selection(), 0);
    assert_eq!(app.key_event(Key::Up), AppEventState::Consumed);
    assert_eq!(app.config_manager().menu().menu_selection(), 0);
    for i in 1..count {
        assert_eq!(app.key_event(Key::Down), AppEventState::Consumed);
        assert_eq!(app.config_manager().menu().menu_selection(), i);
    }
    assert_eq!(app.key_event(Key::Down), AppEventState::Consumed);
    assert_eq!(app.config_manager().menu().menu_selection(), count - 1);
    assert_eq!(app.key_event(Key::Up), AppEventState::Consumed);
    assert_eq!(app.config_manager().menu().menu_selection(), count.saturating_sub(2));
    assert_eq!(app.focus(), Focus::Config);
}
