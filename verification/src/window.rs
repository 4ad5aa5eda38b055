//! The window tag: which screen is current, and the identifier it carries.

use vstd::prelude::*;

verus! {

/// The three screens, without their payload.
#[derive(Clone, Copy, Debug, PartialEq, Eq, Structural)]
pub enum Tag {
    Welcome,
    Home,
    ProfileCreator,
}

/// A screen together with an identifier. For the profile creator the
/// identifier names the profile to edit; the empty string means a new one.
#[derive(Clone, Debug, PartialEq, Eq)]
pub enum Window {
    Welcome(String),
    Home(String),
    ProfileCreator(String),
}

/// The mathematical value of a [`Window`]: its tag and the characters of its
/// identifier.
pub ghost struct Route {
    pub tag: Tag,
    pub id: Seq<char>,
}

impl View for Window {
    type V = Route;

    open spec fn view(&self) -> Route {
        match self {
            Window::Welcome(id) => Route { tag: Tag::Welcome, id: id@ },
            Window::Home(id) => Route { tag: Tag::Home, id: id@ },
            Window::ProfileCreator(id) => Route { tag: Tag::ProfileCreator, id: id@ },
        }
    }
}

/// The value of an optional transition.
pub open spec fn target(w: Option<Window>) -> Option<Route> {
    match w {
        Some(w) => Some(w@),
        None => None,
    }
}

/// The route to `tag` that carries no identifier.
pub open spec fn bare(tag: Tag) -> Route {
    Route { tag, id: Seq::<char>::empty() }
}

impl Window {
    /// The tag of this window.
    pub fn tag(&self) -> (t: Tag)
        ensures
            t == self@.tag,
    {
        match self {
            Window::Welcome(_) => Tag::Welcome,
            Window::Home(_) => Tag::Home,
            Window::ProfileCreator(_) => Tag::ProfileCreator,
        }
    }

    /// The identifier that this window carries.
    pub fn id(&self) -> (s: &String)
        ensures
            s@ == self@.id,
    {
        match self {
            Window::Welcome(id) => id,
            Window::Home(id) => id,
            Window::ProfileCreator(id) => id,
        }
    }

    /// The window `tag` with an empty identifier.
    pub fn plain(tag: Tag) -> (w: Window)
        ensures
            w@ == bare(tag),
    {
        match tag {
            Tag::Welcome => Window::Welcome(String::new()),
            Tag::Home => Window::Home(String::new()),
            Tag::ProfileCreator => Window::ProfileCreator(String::new()),
        }
    }
}

} // verus!
