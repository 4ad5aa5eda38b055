use mctui::app::{App, Outcome, Surface};
use mctui::key::{Event, Key};
use mctui::profile::{Profile, Version};
use mctui::window::{Tag, Window};

const ENTER: Key = Key::Char('\n');
const TAB: Key = Key::Char('\t');

fn version(id: &str) -> Version {
    Version { id: id.to_string(), label: format!("Version {}", id) }
}

fn profile(id: &str, name: &str, version: &str) -> Profile {
    Profile { id: id.to_string(), name: name.to_string(), version: version.to_string() }
}

fn app_at_home() -> App {
    let mut app = App::new();
    assert_eq!(app.dispatch(Event::Input(ENTER)), Outcome::Idle);
    assert_eq!(app.current_window, Window::Home(String::new()));
    app
}

fn app_on_profiles_tab(ids: &[&str]) -> App {
    let mut app = app_at_home();
    app.windows.home.profiles_tab.set_ids(ids.iter().map(|s| s.to_string()).collect());
    assert_eq!(app.dispatch(Event::Input(TAB)), Outcome::Idle);
    assert_eq!(app.windows.home.tab_index, 1);
    app
}

fn all_keys() -> Vec<Key> {
    vec![
        Key::Backspace,
        Key::Left,
        Key::Right,
        Key::Up,
        Key::Down,
        Key::Home,
        Key::End,
        Key::PageUp,
        Key::PageDown,
        Key::BackTab,
        Key::Delete,
        Key::Insert,
        Key::F(1),
        Key::Char('a'),
        Key::Char('n'),
        Key::Char('\n'),
        Key::Char('\t'),
        Key::Alt('q'),
        Key::Ctrl('q'),
        Key::Null,
        Key::Esc,
    ]
}

#[test]
fn starts_on_welcome() {
    let app = App::new();
    assert_eq!(app.current_window, Window::Welcome(String::new()));
    assert_eq!(app.current_window.tag(), Tag::Welcome);
    assert_eq!(app.windows.home.tab_index, 0);
    assert!(app.windows.home.sender.is_none());
    assert!(app.windows.home.receiver.is_none());
    assert_eq!(app.windows.profile_creator.id, None);
    assert_eq!(app.windows.profile_creator.input, "");
    assert!(app.windows.profile_creator.versions.is_empty());
}

#[test]
fn welcome_ignores_other_keys() {
    for key in all_keys() {
        if key == ENTER {
            continue;
        }
        let mut app = App::new();
        assert_eq!(app.dispatch(Event::Input(key)), Outcome::Idle);
        assert_eq!(app.current_window, Window::Welcome(String::new()));
    }
}

#[test]
fn every_key_leads_to_a_window_that_was_asked_for() {
    for key in all_keys() {
        let mut app = app_at_home();
        let before = app.current_window.clone();
        let out = app.dispatch(Event::Input(key));
        assert_ne!(out, Outcome::Quit);
        let expected = if key == Key::Esc {
            Window::Welcome(String::new())
        } else if key == ENTER {
            Window::ProfileCreator(String::new())
        } else {
            before
        };
        assert_eq!(app.current_window, expected);
    }
}

#[test]
fn quit_ends_the_loop_from_every_window() {
    let mut app = App::new();
    assert_eq!(app.dispatch(Event::Input(Key::Char('q'))), Outcome::Quit);
    assert_eq!(app.current_window, Window::Welcome(String::new()));

    let mut app = app_on_profiles_tab(&["a", "b"]);
    let tab = app.windows.home.profiles_tab.clone();
    let nav = app.windows.home.bottom_nav;
    assert_eq!(app.dispatch(Event::Input(Key::Char('q'))), Outcome::Quit);
    assert_eq!(app.current_window, Window::Home(String::new()));
    assert_eq!(app.windows.home.tab_index, 1);
    assert_eq!(app.windows.home.profiles_tab, tab);
    assert_eq!(app.windows.home.bottom_nav, nav);

    let mut app = App::new();
    app.current_window = Window::ProfileCreator(String::new());
    let creator = app.windows.profile_creator.clone();
    assert_eq!(app.dispatch(Event::Input(Key::Char('q'))), Outcome::Quit);
    assert_eq!(app.windows.profile_creator, creator);
    assert_eq!(app.current_window, Window::ProfileCreator(String::new()));
}

#[test]
fn quit_is_not_typed_into_the_name() {
    let mut app = App::new();
    app.current_window = Window::ProfileCreator(String::new());
    assert_eq!(app.handle_key(Key::Char('q')), Outcome::Quit);
    assert_eq!(app.windows.profile_creator.input, "");
}

#[test]
fn tick_changes_nothing_without_a_queue() {
    let mut app = app_on_profiles_tab(&["a"]);
    assert_eq!(app.dispatch(Event::Tick), Outcome::Idle);
    assert_eq!(app.current_window, Window::Home(String::new()));
    assert_eq!(app.windows.home.tab_index, 1);
    assert!(app.windows.profile_creator.versions.is_empty());
}

#[test]
fn tick_changes_nothing_with_a_queue() {
    let mut app = app_on_profiles_tab(&["a", "b"]);
    app.windows.home.connect();
    let sender = app.windows.home.sender.clone().expect("a connected window has a sender");
    sender.send(vec![version("v1"), version("v2")]).expect("the receiver is alive");
    let tab = app.windows.home.profiles_tab.clone();
    let nav = app.windows.home.bottom_nav;
    let creator = app.windows.profile_creator.clone();

    assert_eq!(app.dispatch(Event::Tick), Outcome::Idle);
    assert_eq!(app.current_window, Window::Home(String::new()));
    assert_eq!(app.windows.home.tab_index, 1);
    assert_eq!(app.windows.home.profiles_tab, tab);
    assert_eq!(app.windows.home.bottom_nav, nav);
    assert_eq!(app.windows.profile_creator, creator);

    app.drain();
    assert_eq!(app.windows.profile_creator.versions, vec![version("v1"), version("v2")]);
}

#[test]
fn drain_takes_in_arrived_versions() {
    let mut app = App::new();
    app.windows.home.connect();
    let sender = app.windows.home.sender.clone().expect("a connected window has a sender");
    app.drain();
    assert!(app.windows.profile_creator.versions.is_empty());

    sender.send(vec![version("v1"), version("v2")]).expect("the receiver is alive");
    app.drain();
    assert_eq!(app.windows.profile_creator.versions, vec![version("v1"), version("v2")]);
    assert_eq!(app.windows.profile_creator.selected_version, 0);
    assert_eq!(app.current_window, Window::Welcome(String::new()));

    app.drain();
    assert_eq!(app.windows.profile_creator.versions.len(), 2);
}

#[test]
fn drain_takes_one_list_at_a_time() {
    let mut app = App::new();
    app.windows.home.connect();
    let sender = app.windows.home.sender.clone().expect("a connected window has a sender");
    sender.send(vec![version("v1")]).expect("the receiver is alive");
    sender.send(vec![version("v1"), version("v2")]).expect("the receiver is alive");
    app.drain();
    assert_eq!(app.windows.profile_creator.versions, vec![version("v1")]);
    app.drain();
    assert_eq!(app.windows.profile_creator.versions, vec![version("v1"), version("v2")]);
}

#[test]
fn drain_without_a_queue_changes_nothing() {
    let mut app = App::new();
    app.absorb(Some(vec![version("v1")]));
    app.drain();
    assert_eq!(app.windows.profile_creator.versions, vec![version("v1")]);
    assert_eq!(app.current_window, Window::Welcome(String::new()));
}

#[test]
fn drain_survives_a_vanished_sender() {
    let mut app = App::new();
    app.windows.home.connect();
    app.windows.home.sender = None;
    app.drain();
    assert!(app.windows.profile_creator.versions.is_empty());
    assert!(app.windows.home.poll().is_none());
}

#[test]
fn connect_opens_both_ends() {
    let mut app = App::new();
    app.windows.home.connect();
    assert!(app.windows.home.sender.is_some());
    assert!(app.windows.home.receiver.is_some());
    let sender = app.windows.home.sender.clone().expect("sender");
    sender.send(vec![version("only")]).expect("send");
    assert_eq!(app.windows.home.poll(), Some(vec![version("only")]));
    assert_eq!(app.windows.home.poll(), None);
}

#[test]
fn absorb_clamps_the_choice() {
    let mut app = App::new();
    app.absorb(Some(vec![version("a"), version("b"), version("c")]));
    app.windows.profile_creator.selected_version = 2;
    app.absorb(Some(vec![version("a"), version("b")]));
    assert_eq!(app.windows.profile_creator.selected_version, 1);
    app.absorb(None);
    assert_eq!(app.windows.profile_creator.selected_version, 1);
    assert_eq!(app.windows.profile_creator.versions.len(), 2);
    app.absorb(Some(Vec::new()));
    assert_eq!(app.windows.profile_creator.selected_version, 0);
}

#[test]
fn home_own_request_wins_over_the_parts() {
    for tab in [0usize, 1usize] {
        let mut app = app_at_home();
        app.windows.home.profiles_tab.set_ids(vec!["a".to_string(), "b".to_string()]);
        app.windows.home.profiles_tab.selected = 1;
        app.windows.home.bottom_nav.selected = 1;
        app.windows.home.tab_index = tab;
        let tab_before = app.windows.home.profiles_tab.clone();
        let nav_before = app.windows.home.bottom_nav;
        assert_eq!(app.dispatch(Event::Input(Key::Esc)), Outcome::Idle);
        assert_eq!(app.current_window, Window::Welcome(String::new()));
        assert_eq!(app.windows.home.profiles_tab, tab_before);
        assert_eq!(app.windows.home.bottom_nav, nav_before);
        assert_eq!(app.windows.home.tab_index, tab);
    }
}

#[test]
fn profiles_tab_never_sees_keys_on_the_primary_tab() {
    for key in all_keys() {
        let mut app = app_at_home();
        app.windows.home.profiles_tab.set_ids(vec!["a".to_string(), "b".to_string()]);
        let before = app.windows.home.profiles_tab.clone();
        let _ = app.dispatch(Event::Input(key));
        assert_eq!(app.windows.home.profiles_tab, before);
    }
}

#[test]
fn bottom_nav_never_sees_keys_on_the_profiles_tab() {
    for key in all_keys() {
        let mut app = app_on_profiles_tab(&["a", "b"]);
        let before = app.windows.home.bottom_nav;
        let _ = app.dispatch(Event::Input(key));
        assert_eq!(app.windows.home.bottom_nav, before);
    }
}

#[test]
fn keys_reach_the_part_that_the_tab_selects() {
    let mut app = app_at_home();
    assert_eq!(app.dispatch(Event::Input(Key::Right)), Outcome::Idle);
    assert_eq!(app.windows.home.bottom_nav.selected, 1);
    assert_eq!(app.dispatch(Event::Input(Key::Down)), Outcome::Idle);
    assert_eq!(app.windows.home.profiles_tab.selected, 0);

    let mut app = app_on_profiles_tab(&["a", "b"]);
    assert_eq!(app.dispatch(Event::Input(Key::Down)), Outcome::Idle);
    assert_eq!(app.windows.home.profiles_tab.selected, 1);
    assert_eq!(app.dispatch(Event::Input(Key::Right)), Outcome::Idle);
    assert_eq!(app.windows.home.bottom_nav.selected, 0);
}

#[test]
fn tab_key_switches_back_and_forth() {
    let mut app = app_at_home();
    assert_eq!(app.dispatch(Event::Input(TAB)), Outcome::Idle);
    assert_eq!(app.windows.home.tab_index, 1);
    assert_eq!(app.dispatch(Event::Input(TAB)), Outcome::Idle);
    assert_eq!(app.windows.home.tab_index, 0);
    assert_eq!(app.current_window, Window::Home(String::new()));
}

#[test]
fn bottom_nav_entries_lead_to_their_windows() {
    let mut app = app_at_home();
    assert_eq!(app.dispatch(Event::Input(ENTER)), Outcome::Idle);
    assert_eq!(app.current_window, Window::ProfileCreator(String::new()));

    let mut app = app_at_home();
    assert_eq!(app.dispatch(Event::Input(Key::Right)), Outcome::Idle);
    assert_eq!(app.dispatch(Event::Input(ENTER)), Outcome::Idle);
    assert_eq!(app.current_window, Window::Welcome(String::new()));
}

#[test]
fn editing_a_named_profile_asks_for_a_lookup() {
    let mut app = app_on_profiles_tab(&["first", "existing-id"]);
    assert_eq!(app.dispatch(Event::Input(Key::Down)), Outcome::Idle);
    let out = app.dispatch(Event::Input(ENTER));
    assert_eq!(out, Outcome::Lookup("existing-id".to_string()));
    assert_eq!(app.current_window, Window::Home(String::new()));
    assert_eq!(app.windows.profile_creator.id, None);
}

#[test]
fn seeding_selects_the_bound_version() {
    let mut app = app_on_profiles_tab(&["existing-id"]);
    app.absorb(Some(vec![version("v1"), version("v2"), version("v3"), version("v2")]));
    assert_eq!(app.dispatch(Event::Input(ENTER)), Outcome::Lookup("existing-id".to_string()));
    app.finish_lookup("existing-id".to_string(), Some(profile("existing-id", "Survival", "v2")));
    assert_eq!(app.current_window, Window::ProfileCreator("existing-id".to_string()));
    assert_eq!(app.windows.profile_creator.id, Some("existing-id".to_string()));
    assert_eq!(app.windows.profile_creator.input, "Survival");
    assert_eq!(app.windows.profile_creator.selected_version, 1);
}

#[test]
fn seeding_keeps_the_choice_when_no_version_matches() {
    let mut app = app_on_profiles_tab(&["existing-id"]);
    app.absorb(Some(vec![version("v1"), version("v2"), version("v3")]));
    app.windows.profile_creator.selected_version = 2;
    app.finish_lookup("existing-id".to_string(), Some(profile("existing-id", "Creative", "v9")));
    assert_eq!(app.windows.profile_creator.input, "Creative");
    assert_eq!(app.windows.profile_creator.selected_version, 2);
    assert_eq!(app.current_window, Window::ProfileCreator("existing-id".to_string()));
}

#[test]
fn new_profile_never_asks_for_a_lookup() {
    let mut app = app_on_profiles_tab(&["existing-id"]);
    let out = app.dispatch(Event::Input(Key::Char('n')));
    assert_eq!(out, Outcome::Idle);
    assert_eq!(app.current_window, Window::ProfileCreator(String::new()));

    let mut app = app_on_profiles_tab(&[""]);
    let out = app.dispatch(Event::Input(ENTER));
    assert_eq!(out, Outcome::Idle);
    assert_eq!(app.current_window, Window::ProfileCreator(String::new()));
}

#[test]
fn confirm_on_an_empty_profile_list_does_nothing() {
    let mut app = app_on_profiles_tab(&[]);
    assert_eq!(app.dispatch(Event::Input(ENTER)), Outcome::Idle);
    assert_eq!(app.current_window, Window::Home(String::new()));
}

#[test]
fn seeding_miss_is_not_fatal() {
    let mut app = app_on_profiles_tab(&["gone"]);
    app.absorb(Some(vec![version("v1"), version("v2")]));
    app.windows.profile_creator.selected_version = 1;
    app.windows.profile_creator.input = "draft".to_string();
    assert_eq!(app.dispatch(Event::Input(ENTER)), Outcome::Lookup("gone".to_string()));
    app.finish_lookup("gone".to_string(), None);
    assert_eq!(app.current_window, Window::ProfileCreator("gone".to_string()));
    assert_eq!(app.windows.profile_creator.input, "draft");
    assert_eq!(app.windows.profile_creator.selected_version, 1);
    assert_eq!(app.windows.profile_creator.id, Some("gone".to_string()));
}

#[test]
fn confirm_without_versions_is_rejected() {
    let mut app = App::new();
    app.current_window = Window::ProfileCreator(String::new());
    app.windows.profile_creator.input = "name".to_string();
    let out = app.dispatch(Event::Input(ENTER));
    assert_eq!(out, Outcome::Idle);
    assert_eq!(app.current_window, Window::ProfileCreator(String::new()));
    assert_eq!(app.windows.profile_creator.input, "name");
    assert_eq!(app.windows.profile_creator.draft(&String::new()), None);
}

#[test]
fn confirm_asks_to_store_the_draft() {
    let mut app = App::new();
    app.absorb(Some(vec![version("v1"), version("v2")]));
    app.current_window = Window::ProfileCreator(String::new());
    for c in "My world".chars() {
        assert_eq!(app.dispatch(Event::Input(Key::Char(c))), Outcome::Idle);
    }
    assert_eq!(app.dispatch(Event::Input(Key::Down)), Outcome::Idle);
    let out = app.dispatch(Event::Input(ENTER));
    assert_eq!(out, Outcome::Persist(profile("", "My world", "v2")));
    assert_eq!(app.current_window, Window::ProfileCreator(String::new()));

    app.finish_persist(true);
    assert_eq!(app.current_window, Window::Home(String::new()));
    assert!(!app.windows.profile_creator.failed);
}

#[test]
fn confirm_stores_under_the_edited_id() {
    let mut app = App::new();
    app.absorb(Some(vec![version("v1"), version("v2")]));
    app.finish_lookup("edited".to_string(), Some(profile("edited", "Old", "v2")));
    let out = app.dispatch(Event::Input(ENTER));
    assert_eq!(out, Outcome::Persist(profile("edited", "Old", "v2")));
}

#[test]
fn failed_store_keeps_the_window() {
    let mut app = App::new();
    app.absorb(Some(vec![version("v1")]));
    app.current_window = Window::ProfileCreator(String::new());
    assert_eq!(app.dispatch(Event::Input(ENTER)), Outcome::Persist(profile("", "", "v1")));
    app.finish_persist(false);
    assert_eq!(app.current_window, Window::ProfileCreator(String::new()));
    assert!(app.windows.profile_creator.failed);
    app.finish_persist(true);
    assert!(!app.windows.profile_creator.failed);
    assert_eq!(app.current_window, Window::Home(String::new()));
}

#[test]
fn cancel_leaves_the_creator_without_storing() {
    let mut app = App::new();
    app.absorb(Some(vec![version("v1")]));
    app.current_window = Window::ProfileCreator(String::new());
    assert_eq!(app.dispatch(Event::Input(Key::Esc)), Outcome::Idle);
    assert_eq!(app.current_window, Window::Home(String::new()));
}

#[test]
fn window_state_survives_navigation() {
    let mut app = app_on_profiles_tab(&["a", "b"]);
    assert_eq!(app.dispatch(Event::Input(Key::Down)), Outcome::Idle);
    assert_eq!(app.dispatch(Event::Input(Key::Char('n'))), Outcome::Idle);
    assert_eq!(app.dispatch(Event::Input(Key::Char('x'))), Outcome::Idle);
    assert_eq!(app.dispatch(Event::Input(Key::Esc)), Outcome::Idle);
    assert_eq!(app.current_window, Window::Home(String::new()));
    assert_eq!(app.windows.home.tab_index, 1);
    assert_eq!(app.windows.home.profiles_tab.selected, 1);
    assert_eq!(app.windows.profile_creator.input, "x");
}

#[test]
fn render_plan_draws_each_surface_once() {
    let mut app = App::new();
    assert_eq!(app.render_plan(), vec![Surface::Welcome]);
    app.current_window = Window::Home(String::new());
    for tab in [0usize, 1usize] {
        app.windows.home.tab_index = tab;
        assert_eq!(app.render_plan(), vec![Surface::Home, Surface::BottomNav]);
    }
    app.current_window = Window::ProfileCreator("p".to_string());
    assert_eq!(app.render_plan(), vec![Surface::ProfileCreator]);
}

#[test]
fn go_follows_a_request() {
    let mut app = App::new();
    app.go(None);
    assert_eq!(app.current_window, Window::Welcome(String::new()));
    app.go(Some(Window::Home("x".to_string())));
    assert_eq!(app.current_window, Window::Home("x".to_string()));
}

#[test]
fn creating_after_editing_stores_a_new_profile() {
    let mut app = app_on_profiles_tab(&["existing-id"]);
    app.absorb(Some(vec![version("v1"), version("v2")]));
    assert_eq!(app.dispatch(Event::Input(ENTER)), Outcome::Lookup("existing-id".to_string()));
    app.finish_lookup("existing-id".to_string(), Some(profile("existing-id", "Old", "v2")));
    assert_eq!(app.dispatch(Event::Input(Key::Esc)), Outcome::Idle);
    let creator = app.windows.profile_creator.clone();

    assert_eq!(app.dispatch(Event::Input(Key::Char('n'))), Outcome::Idle);
    assert_eq!(app.current_window, Window::ProfileCreator(String::new()));
    assert_eq!(app.windows.profile_creator, creator);
    assert_eq!(app.windows.profile_creator.id, Some("existing-id".to_string()));
    assert_eq!(app.dispatch(Event::Input(ENTER)), Outcome::Persist(profile("", "Old", "v2")));
}

#[test]
fn bottom_nav_request_leaves_the_creator_alone() {
    let mut app = app_at_home();
    app.windows.home.profiles_tab.set_ids(vec!["a".to_string(), "b".to_string()]);
    app.windows.profile_creator.seed("a".to_string(), Some(profile("a", "Kept", "v1")));
    let creator = app.windows.profile_creator.clone();
    let tab = app.windows.home.profiles_tab.clone();
    assert_eq!(app.windows.home.bottom_nav.selected, 0);

    assert_eq!(app.dispatch(Event::Input(ENTER)), Outcome::Idle);
    assert_eq!(app.current_window, Window::ProfileCreator(String::new()));
    assert_eq!(app.windows.profile_creator, creator);
    assert_eq!(app.windows.home.profiles_tab, tab);
}

#[test]
fn keys_leave_the_other_windows_alone() {
    for key in all_keys() {
        let mut app = app_on_profiles_tab(&["", "b"]);
        app.windows.profile_creator.seed("b".to_string(), Some(profile("b", "Kept", "v1")));
        let creator = app.windows.profile_creator.clone();
        let _ = app.dispatch(Event::Input(key));
        assert_eq!(app.windows.profile_creator, creator);

        let mut app = App::new();
        app.absorb(Some(vec![version("v1")]));
        app.windows.home.profiles_tab.set_ids(vec!["a".to_string()]);
        app.current_window = Window::ProfileCreator(String::new());
        let tab = app.windows.home.profiles_tab.clone();
        let nav = app.windows.home.bottom_nav;
        let _ = app.dispatch(Event::Input(key));
        assert_eq!(app.windows.home.profiles_tab, tab);
        assert_eq!(app.windows.home.bottom_nav, nav);
        assert_eq!(app.windows.home.tab_index, 0);
    }
}
