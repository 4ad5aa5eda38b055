//! Laws of the state machine, proved from the contracts of its functions.

use vstd::prelude::*;
use crate::app::{App, Asked, Surface, own_surface, surfaces};
use crate::home::{Home, PROFILES_TAB, switched};
use crate::key::Key;
use crate::profile::{ProfileView, Version, is_first_match};
use crate::profile_creator::ProfileCreator;
use crate::widget::Widget;
use crate::window::{Route, Tag, bare};

verus! {

/// A key other than the quit key either leaves the current window as it is
/// or makes current the window that the current window asked for. The
/// result is always one of the three windows.
pub proof fn law_window_kept_or_requested(app: App, key: Key, next: App, out: Asked)
    requires
        app.keyed(key, &next, out),
        !key.is_quit(),
    ensures
        next.current_window == app.current_window || Some(next.current_window@) == app.requested(
            key,
        ),
        next.current_window@.tag == Tag::Welcome || next.current_window@.tag == Tag::Home
            || next.current_window@.tag == Tag::ProfileCreator,
        out != Asked::Quit,
{
}

/// Taking in what the queue held never changes which window is current;
/// it touches neither the welcome screen nor the home window, and of the
/// profile creator neither the prepared identifier nor the name buffer.
/// Where nothing had arrived the whole application is what it was.
pub proof fn law_absorbing_keeps_the_window(app: App, arrived: Option<Vec<Version>>, next: App)
    requires
        app.absorbed(arrived, &next),
    ensures
        next.current_window == app.current_window,
        next.windows.welcome == app.windows.welcome,
        next.windows.home == app.windows.home,
        next.windows.profile_creator.id == app.windows.profile_creator.id,
        next.windows.profile_creator.input == app.windows.profile_creator.input,
        arrived is None ==> next == app,
        app.wf() ==> next.wf(),
{
}

/// A key other than the quit key reaches the current window alone: the
/// windows that are not current are afterwards what they were before.
pub proof fn law_other_windows_keep_their_state(app: App, key: Key, next: App, out: Asked)
    requires
        app.keyed(key, &next, out),
        !key.is_quit(),
    ensures
        app.current_window@.tag != Tag::Welcome ==> next.windows.welcome == app.windows.welcome,
        app.current_window@.tag != Tag::Home ==> next.windows.home == app.windows.home,
        app.current_window@.tag != Tag::ProfileCreator ==> next.windows.profile_creator
            == app.windows.profile_creator,
{
}

/// While the home window is current and the primary tab is the one shown
/// when the parts are consulted, a key leaves the profiles tab and the
/// profile creator as they were and asks for no lookup; the window that
/// becomes current is the one that the home window's own handler or, if
/// that asked for none, the navigation strip asked for.
pub proof fn law_primary_tab_leaves_profiles_alone(app: App, key: Key, next: App, out: Asked)
    requires
        app.keyed(key, &next, out),
        !key.is_quit(),
        app.current_window@.tag == Tag::Home,
        switched(app.windows.home.tab_index, key) != PROFILES_TAB,
    ensures
        out == Asked::Idle,
        next.windows.home.profiles_tab == app.windows.home.profiles_tab,
        next.windows.profile_creator == app.windows.profile_creator,
        app.windows.home.route(key) is None ==> app.requested(key)
            == app.windows.home.bottom_nav.route(key) && app.windows.home.bottom_nav.steps(
            key,
            &next.windows.home.bottom_nav,
        ),
        app.moved_to(app.requested(key), &next),
{
}

/// The quit key ends the loop in every state, and no window sees it: the
/// whole application is afterwards what it was before. No other key ends
/// the loop.
pub proof fn law_quit_is_universal(app: App, key: Key, next: App, out: Asked)
    requires
        app.keyed(key, &next, out),
    ensures
        key.is_quit() ==> out == Asked::Quit && next == app,
        out == Asked::Quit ==> key.is_quit(),
{
}

/// Where the home window's own handler asks for a window on a key, that
/// request is the result, and neither the profiles tab nor the navigation
/// strip is touched by the key.
pub proof fn law_home_own_request_wins(home: Home, key: Key, next: Home, r: Option<Route>)
    requires
        home.dispatched(key, &next, r),
        home.route(key) is Some,
    ensures
        r == home.route(key),
        next.profiles_tab == home.profiles_tab,
        next.bottom_nav == home.bottom_nav,
{
}

/// The tab index decides which part of the home window gets a key. While
/// the profiles tab is the one shown when the parts are consulted, the
/// navigation strip is untouched and asks for nothing; while it is not,
/// the same holds of the profiles tab. For every key but the tab-switch
/// key the tab shown then is the tab shown before the key; the tab-switch
/// key itself changes neither part, so a part is never changed by a key
/// that was pressed while the other tab was shown.
pub proof fn law_tab_gates_delegation(home: Home, key: Key, next: Home, r: Option<Route>)
    requires
        home.dispatched(key, &next, r),
    ensures
        switched(home.tab_index, key) == PROFILES_TAB ==> next.bottom_nav == home.bottom_nav,
        switched(home.tab_index, key) != PROFILES_TAB ==> next.profiles_tab == home.profiles_tab,
        home.route(key) is None && switched(home.tab_index, key) == PROFILES_TAB ==> r
            == home.profiles_tab.route(key),
        home.route(key) is None && switched(home.tab_index, key) != PROFILES_TAB ==> r
            == home.bottom_nav.route(key),
        !key.is_tab_switch() ==> switched(home.tab_index, key) == home.tab_index,
        home.tab_index == PROFILES_TAB ==> next.bottom_nav == home.bottom_nav,
        home.tab_index != PROFILES_TAB ==> next.profiles_tab == home.profiles_tab,
{
}

/// A lookup is asked for only while the home window is current, only for a
/// request that its profiles tab made, and only where that request names a
/// profile by a non-empty identifier. A request to create a new
/// profile, which carries the empty identifier, is followed at once and
/// leaves the profile creator as it was.
pub proof fn law_lookup_names_a_profile(app: App, key: Key, next: App, out: Asked)
    requires
        app.keyed(key, &next, out),
    ensures
        out matches Asked::Lookup(id) ==> {
            &&& id.len() > 0
            &&& app.current_window@.tag == Tag::Home
            &&& app.requested(key) == Some(Route { tag: Tag::ProfileCreator, id })
            &&& app.windows.home.route(key) is None
            &&& switched(app.windows.home.tab_index, key) == PROFILES_TAB
            &&& app.windows.home.profiles_tab.route(key) == app.requested(key)
        },
        !key.is_quit() && app.requested(key) == Some(bare(Tag::ProfileCreator)) ==> {
            &&& out == Asked::Idle
            &&& next.current_window@ == bare(Tag::ProfileCreator)
            &&& next.windows.profile_creator == app.windows.profile_creator
        },
{
}

/// Seeding with a profile that was found puts its name into the buffer and
/// chooses the first version that carries its version identifier.
pub proof fn law_seeding_selects_first_match(
    creator: ProfileCreator,
    id: Seq<char>,
    profile: ProfileView,
    next: ProfileCreator,
    i: int,
)
    requires
        creator.seeded(id, Some(profile), &next),
        is_first_match(creator.versions@, profile.version, i),
    ensures
        next.selected_version == i,
        next.input@ == profile.name,
        next.versions@[i].id@ == profile.version,
        next.target_id() == id,
{
}

/// A lookup that finds nothing is no failure: the profile creator becomes
/// current with the identifier asked for, and its name buffer, its choice
/// and its versions are what they were.
pub proof fn law_seeding_miss_keeps_fields(app: App, id: Seq<char>, next: App)
    requires
        app.looked_up(id, None, &next),
    ensures
        next.current_window@ == (Route { tag: Tag::ProfileCreator, id }),
        next.windows.profile_creator.input == app.windows.profile_creator.input,
        next.windows.profile_creator.selected_version
            == app.windows.profile_creator.selected_version,
        next.windows.profile_creator.versions == app.windows.profile_creator.versions,
{
}

/// With no versions to choose from, confirming in the profile creator asks
/// for nothing: no window is requested, nothing is to be stored, and the
/// profile creator stays current.
pub proof fn law_confirm_needs_a_version(app: App, key: Key, next: App, out: Asked)
    requires
        app.keyed(key, &next, out),
        key.is_confirm(),
        app.current_window@.tag == Tag::ProfileCreator,
        app.windows.profile_creator.versions@.len() == 0,
    ensures
        app.windows.profile_creator.route(key) is None,
        out == Asked::Idle,
        next.current_window == app.current_window,
        next.windows.profile_creator.versions == app.windows.profile_creator.versions,
        next.windows.profile_creator.selected_version
            == app.windows.profile_creator.selected_version,
        next.windows.profile_creator.input@ == app.windows.profile_creator.input@,
{
}

/// A draft is asked to be stored only on confirm in the profile creator
/// with a version chosen. It is then the draft of the fields as they
/// stand, under the identifier that the current window carries: the empty
/// one for a new profile, whatever profile was edited before.
pub proof fn law_persist_only_on_confirm(app: App, key: Key, next: App, out: Asked)
    requires
        app.keyed(key, &next, out),
    ensures
        out matches Asked::Persist(p) ==> {
            &&& key.is_confirm()
            &&& app.current_window@.tag == Tag::ProfileCreator
            &&& app.windows.profile_creator.can_confirm()
            &&& p == app.windows.profile_creator.spec_draft(app.current_window@.id)
            &&& p.id == app.current_window@.id
        },
{
}

/// In every state of the application, whatever tab the home window shows,
/// one tick draws the current window's own surface exactly once, draws the
/// navigation strip exactly once if the home window is current and not at
/// all otherwise, and draws nothing else.
pub proof fn law_each_surface_drawn_once(app: App)
    ensures
        ({
            let tag = app.current_window@.tag;
            let plan = surfaces(tag);
            &&& plan.len() == if tag == Tag::Home {
                2int
            } else {
                1int
            }
            &&& forall|i: int|
                0 <= i < plan.len() ==> (#[trigger] plan[i] == own_surface(tag) <==> i == 0)
            &&& forall|i: int|
                0 <= i < plan.len() ==> (#[trigger] plan[i] == Surface::BottomNav <==> tag
                    == Tag::Home && i == 1)
        }),
{
}

/// Handling a key keeps every window well formed.
pub proof fn law_keys_keep_selections_in_range(app: App, key: Key, next: App, out: Asked)
    requires
        app.keyed(key, &next, out),
        app.wf(),
    ensures
        next.wf(),
{
}

} // verus!
