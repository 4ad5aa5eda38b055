//! The application: every window's state, the tag of the current one, and
//! the rules by which one event changes them.

use vstd::prelude::*;
use crate::home::Home;
use crate::key::{Event, Key};
use crate::profile::{Profile, ProfileView, Version};
use crate::profile_creator::ProfileCreator;
use crate::welcome::Welcome;
use crate::widget::Widget;
use crate::window::{Route, Tag, Window, bare, target};

verus! {

/// The state of every window. Each lives as long as the application, so
/// nothing is lost by leaving a window and coming back.
pub struct Windows {
    pub welcome: Welcome,
    pub home: Home,
    pub profile_creator: ProfileCreator,
}

/// The application.
pub struct App {
    /// The window that is drawn and that receives the keys.
    pub current_window: Window,
    pub windows: Windows,
}

/// What the caller has to do after an event was dispatched.
#[derive(Clone, Debug, PartialEq, Eq)]
pub enum Outcome {
    /// End the loop and give the terminal back.
    Quit,
    /// Nothing: draw and wait for the next event.
    Idle,
    /// Ask the profile store for the profile with this identifier and hand
    /// the answer to [`App::finish_lookup`].
    Lookup(String),
    /// Store this profile and hand the result to [`App::finish_persist`].
    Persist(Profile),
}

/// The mathematical value of an [`Outcome`].
pub ghost enum Asked {
    Quit,
    Idle,
    Lookup(Seq<char>),
    Persist(ProfileView),
}

impl View for Outcome {
    type V = Asked;

    open spec fn view(&self) -> Asked {
        match self {
            Outcome::Quit => Asked::Quit,
            Outcome::Idle => Asked::Idle,
            Outcome::Lookup(id) => Asked::Lookup(id@),
            Outcome::Persist(p) => Asked::Persist(p@),
        }
    }
}

/// Something that is drawn: a window's own area, or the navigation strip.
#[derive(Clone, Copy, Debug, PartialEq, Eq, Structural)]
pub enum Surface {
    Welcome,
    Home,
    BottomNav,
    ProfileCreator,
}

/// The surface on which the window `tag` draws itself.
pub open spec fn own_surface(tag: Tag) -> Surface {
    match tag {
        Tag::Welcome => Surface::Welcome,
        Tag::Home => Surface::Home,
        Tag::ProfileCreator => Surface::ProfileCreator,
    }
}

/// What is drawn in one tick while `tag` is current, in drawing order: the
/// window itself and, for the home window, the navigation strip after it.
pub open spec fn surfaces(tag: Tag) -> Seq<Surface> {
    match tag {
        Tag::Home => seq![Surface::Home, Surface::BottomNav],
        _ => seq![own_surface(tag)],
    }
}

/// The value of an optional profile.
pub open spec fn found_view(found: Option<Profile>) -> Option<ProfileView> {
    match found {
        Some(p) => Some(p@),
        None => None,
    }
}

/// Whether a requested transition needs the profile store first: it leads
/// to the profile creator and names a profile.
pub open spec fn needs_lookup(r: Option<Route>) -> bool {
    r matches Some(route) && route.tag == Tag::ProfileCreator && route.id.len() > 0
}

impl App {
    /// Every window's state is well formed.
    pub open spec fn wf(&self) -> bool {
        &&& self.windows.home.wf()
        &&& self.windows.profile_creator.wf()
    }

    /// Whether the current window of `next` is what the request `r` makes
    /// of the current window here: the requested one, or the same where
    /// nothing was requested.
    pub open spec fn moved_to(&self, r: Option<Route>, next: &App) -> bool {
        match r {
            Some(route) => next.current_window@ == route,
            None => next.current_window == self.current_window,
        }
    }

    /// The window that `key` asks for in this state: the request of the
    /// current window, and of nobody else.
    pub open spec fn requested(&self, key: Key) -> Option<Route> {
        match self.current_window@.tag {
            Tag::Welcome => self.windows.welcome.route(key),
            Tag::Home => self.windows.home.requested(key),
            Tag::ProfileCreator => self.windows.profile_creator.route(key),
        }
    }

    /// Whether `next` and `out` are what the key press `key` gives in this
    /// state.
    ///
    /// The quit key ends the loop and touches nothing. Any other key goes to
    /// the current window alone; the other windows stay as they were. A
    /// request for a window is followed at once, with two exceptions. A
    /// request of the home window to edit a named profile first asks for a
    /// lookup, and a confirmed draft in the profile creator first asks to
    /// be stored; in both the current window stays until the caller reports
    /// back. The draft carries the identifier of the current window, so a
    /// profile creator that was opened for a new profile never stores under
    /// the identifier of a profile that it edited before.
    pub open spec fn keyed(&self, key: Key, next: &App, out: Asked) -> bool {
        if key.is_quit() {
            out == Asked::Quit && *next == *self
        } else {
            match self.current_window@.tag {
                Tag::Welcome => {
                    &&& next.windows.home == self.windows.home
                    &&& next.windows.profile_creator == self.windows.profile_creator
                    &&& self.windows.welcome.steps(key, &next.windows.welcome)
                    &&& out == Asked::Idle
                    &&& self.moved_to(self.requested(key), next)
                },
                Tag::ProfileCreator => {
                    &&& next.windows.home == self.windows.home
                    &&& next.windows.welcome == self.windows.welcome
                    &&& self.windows.profile_creator.steps(key, &next.windows.profile_creator)
                    &&& if key.is_confirm() && self.windows.profile_creator.can_confirm() {
                        &&& out == Asked::Persist(
                            self.windows.profile_creator.spec_draft(self.current_window@.id),
                        )
                        &&& next.current_window == self.current_window
                    } else {
                        &&& out == Asked::Idle
                        &&& self.moved_to(self.requested(key), next)
                    }
                },
                Tag::Home => {
                    &&& next.windows.welcome == self.windows.welcome
                    &&& next.windows.profile_creator == self.windows.profile_creator
                    &&& self.windows.home.dispatched(key, &next.windows.home, self.requested(key))
                    &&& if needs_lookup(self.requested(key)) {
                        &&& out == Asked::Lookup(self.requested(key)->Some_0.id)
                        &&& next.current_window == self.current_window
                    } else {
                        &&& out == Asked::Idle
                        &&& self.moved_to(self.requested(key), next)
                    }
                },
            }
        }
    }

    /// Whether `next` is this state after `arrived` came out of the queue:
    /// an arrived list of versions is installed in the profile creator, and
    /// nothing else changes.
    pub open spec fn absorbed(&self, arrived: Option<Vec<Version>>, next: &App) -> bool {
        &&& next.current_window == self.current_window
        &&& next.windows.welcome == self.windows.welcome
        &&& next.windows.home == self.windows.home
        &&& match arrived {
            Some(versions) => {
                &&& next.windows.profile_creator.versions == versions
                &&& next.windows.profile_creator.selected_version == crate::cursor::clamped(
                    self.windows.profile_creator.selected_version,
                    versions.len(),
                )
                &&& next.windows.profile_creator.id == self.windows.profile_creator.id
                &&& next.windows.profile_creator.input == self.windows.profile_creator.input
                &&& next.windows.profile_creator.failed == self.windows.profile_creator.failed
            },
            None => next.windows.profile_creator == self.windows.profile_creator,
        }
    }

    /// Whether `next` is this state after the lookup of the profile `id`
    /// was answered with `found`: the profile creator is current and
    /// carries `id`, it was prepared as [`ProfileCreator::seeded`] says, and
    /// the other windows are as they were.
    pub open spec fn looked_up(&self, id: Seq<char>, found: Option<ProfileView>, next: &App) -> bool {
        &&& next.current_window@ == (Route { tag: Tag::ProfileCreator, id })
        &&& self.windows.profile_creator.seeded(id, found, &next.windows.profile_creator)
        &&& next.windows.welcome == self.windows.welcome
        &&& next.windows.home == self.windows.home
    }

    /// The application at its start: the welcome screen is current, every
    /// window is in its first state, and no queue is open.
    pub fn new() -> (app: App)
        ensures
            app.current_window@ == bare(Tag::Welcome),
            app.windows.home.tab_index == 0,
            app.windows.home.receiver is None,
            app.windows.home.sender is None,
            app.windows.home.profiles_tab.ids@.len() == 0,
            app.windows.home.bottom_nav.selected == 0,
            app.windows.profile_creator.id is None,
            app.windows.profile_creator.input@.len() == 0,
            app.windows.profile_creator.versions@.len() == 0,
            app.windows.profile_creator.selected_version == 0,
            !app.windows.profile_creator.failed,
            app.wf(),
    {
        App {
            current_window: Window::plain(Tag::Welcome),
            windows: Windows {
                welcome: Welcome::new(),
                home: Home::new(),
                profile_creator: ProfileCreator::new(),
            },
        }
    }

    /// What to draw in this tick, in drawing order.
    pub fn render_plan(&self) -> (plan: Vec<Surface>)
        ensures
            plan@ == surfaces(self.current_window@.tag),
    {
        let mut plan: Vec<Surface> = Vec::new();
        match self.current_window.tag() {
            Tag::Welcome => {
                plan.push(Surface::Welcome);
            },
            Tag::Home => {
                plan.push(Surface::Home);
                plan.push(Surface::BottomNav);
            },
            Tag::ProfileCreator => {
                plan.push(Surface::ProfileCreator);
            },
        }
        assert(plan@ =~= surfaces(self.current_window@.tag));
        plan
    }

    /// Follows a request: makes the requested window current, or leaves the
    /// current one where nothing was requested.
    pub fn go(&mut self, route: Option<Window>)
        ensures
            old(self).moved_to(target(route), final(self)),
            final(self).windows == old(self).windows,
    {
        match route {
            Some(window) => {
                self.current_window = window;
            },
            None => {},
        }
    }

    /// Handles one key press.
    pub fn handle_key(&mut self, key: Key) -> (out: Outcome)
        ensures
            old(self).keyed(key, final(self), out@),
            old(self).wf() ==> final(self).wf(),
    {
        if key.quits() {
            return Outcome::Quit;
        }
        match self.current_window.tag() {
            Tag::Welcome => {
                let route = self.windows.welcome.handle_events(key);
                self.go(route);
                Outcome::Idle
            },
            Tag::ProfileCreator => {
                let route = self.windows.profile_creator.handle_events(key);
                if key.confirms() {
                    match self.windows.profile_creator.draft(self.current_window.id()) {
                        Some(profile) => Outcome::Persist(profile),
                        None => Outcome::Idle,
                    }
                } else {
                    self.go(route);
                    Outcome::Idle
                }
            },
            Tag::Home => {
                let route = self.windows.home.dispatch(key);
                match route {
                    Some(Window::ProfileCreator(id)) => {
                        if id.as_str().is_empty() {
                            self.current_window = Window::ProfileCreator(id);
                            Outcome::Idle
                        } else {
                            Outcome::Lookup(id)
                        }
                    },
                    other => {
                        self.go(other);
                        Outcome::Idle
                    },
                }
            },
        }
    }

    /// Takes in what was found in the queue.
    pub fn absorb(&mut self, arrived: Option<Vec<Version>>)
        ensures
            old(self).absorbed(arrived, final(self)),
            old(self).wf() ==> final(self).wf(),
    {
        match arrived {
            Some(versions) => {
                self.windows.profile_creator.install(versions);
            },
            None => {},
        }
    }

    /// Looks into the queue once, without waiting, and takes in what it
    /// finds as [`App::absorb`] says. What it finds depends on the sender;
    /// without a queue it finds nothing.
    pub fn drain(&mut self)
        ensures
            exists|arrived: Option<Vec<Version>>| #[trigger]
                old(self).absorbed(arrived, final(self)),
            old(self).windows.home.receiver is None ==> *final(self) == *old(self),
            old(self).wf() ==> final(self).wf(),
    {
        let arrived = self.windows.home.poll();
        self.absorb(arrived);
    }

    /// Dispatches one event. A key press is handled as [`App::handle_key`]
    /// says. A tick asks for nothing and leaves the application as it was:
    /// it only lets the caller draw again.
    pub fn dispatch(&mut self, event: Event) -> (out: Outcome)
        ensures
            match event {
                Event::Input(key) => old(self).keyed(key, final(self), out@),
                Event::Tick => out@ == Asked::Idle && *final(self) == *old(self),
            },
            old(self).wf() ==> final(self).wf(),
    {
        match event {
            Event::Input(key) => self.handle_key(key),
            Event::Tick => Outcome::Idle,
        }
    }

    /// Completes a lookup that [`Outcome::Lookup`] asked for: prepares the
    /// profile creator for the profile `id` with what the store answered,
    /// and makes the profile creator current. A profile that was not found
    /// seeds nothing, and the transition takes place all the same.
    pub fn finish_lookup(&mut self, id: String, found: Option<Profile>)
        ensures
            old(self).looked_up(id@, found_view(found), final(self)),
            old(self).wf() ==> final(self).wf(),
    {
        let target_id = id.clone();
        self.windows.profile_creator.seed(id, found);
        self.current_window = Window::ProfileCreator(target_id);
    }

    /// Completes a store that [`Outcome::Persist`] asked for. Where the
    /// profile was stored the home window becomes current; where it was not,
    /// the current window stays and the profile creator remembers the
    /// failure.
    pub fn finish_persist(&mut self, saved: bool)
        ensures
            saved ==> final(self).current_window@ == bare(Tag::Home),
            !saved ==> final(self).current_window == old(self).current_window,
            final(self).windows.profile_creator.failed == !saved,
            final(self).windows.profile_creator.id == old(self).windows.profile_creator.id,
            final(self).windows.profile_creator.input == old(self).windows.profile_creator.input,
            final(self).windows.profile_creator.versions == old(
                self,
            ).windows.profile_creator.versions,
            final(self).windows.profile_creator.selected_version == old(
                self,
            ).windows.profile_creator.selected_version,
            final(self).windows.welcome == old(self).windows.welcome,
            final(self).windows.home == old(self).windows.home,
            old(self).wf() ==> final(self).wf(),
    {
        self.windows.profile_creator.settle(saved);
        if saved {
            self.current_window = Window::plain(Tag::Home);
        }
    }
}

} // verus!
