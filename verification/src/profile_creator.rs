//! The window in which a profile is created or edited.

use vstd::prelude::*;
use crate::cursor::{clamp_selection, clamped, in_list, move_selection, moved};
use crate::key::Key;
use crate::profile::{Profile, ProfileView, Version, find_version, is_first_match, no_match};
use crate::text::{pop_char, push_char};
use crate::widget::Widget;
use crate::window::{Route, Tag, Window, bare};

verus! {

/// The editable fields of the profile creator. They are working copies: the
/// profile store holds the truth, and only a confirmed draft goes back to it.
#[derive(Clone, Debug, PartialEq, Eq)]
pub struct ProfileCreator {
    /// The profile that the fields were last prepared for, if any.
    pub id: Option<String>,
    /// The name as typed so far.
    pub input: String,
    /// The versions that can be chosen, in the order shown.
    pub versions: Vec<Version>,
    /// Position of the chosen version.
    pub selected_version: usize,
    /// Whether the last attempt to store the draft failed.
    pub failed: bool,
}

/// The name buffer after `key`: a character other than Enter is added at
/// the end, Backspace removes the last character if there is one, and no
/// other key changes the text.
pub open spec fn typed(text: Seq<char>, key: Key) -> Seq<char> {
    match key {
        Key::Char(c) => if c == '\n' {
            text
        } else {
            text.push(c)
        },
        Key::Backspace => if text.len() > 0 {
            text.drop_last()
        } else {
            text
        },
        _ => text,
    }
}

impl ProfileCreator {
    /// The chosen position is inside the list of versions, or 0 where the
    /// list is empty.
    pub open spec fn wf(&self) -> bool {
        in_list(self.selected_version, self.versions.len())
    }

    /// The identifier of the profile that the creator was last prepared
    /// for; empty where it never was.
    pub open spec fn target_id(&self) -> Seq<char> {
        match self.id {
            Some(s) => s@,
            None => Seq::<char>::empty(),
        }
    }

    /// Whether a draft can be made: a version is chosen.
    pub open spec fn can_confirm(&self) -> bool {
        self.selected_version < self.versions.len()
    }

    /// The profile that confirming would store under the identifier `id`:
    /// the name as typed, bound to the chosen version.
    pub open spec fn spec_draft(&self, id: Seq<char>) -> ProfileView
        recommends
            self.can_confirm(),
    {
        ProfileView {
            id,
            name: self.input@,
            version: self.versions[self.selected_version as int].id@,
        }
    }

    /// Whether `next` is this state after it was prepared for editing the
    /// profile `id`, for which the store answered `found`. The identifier is
    /// taken over in any case. A profile that was found gives its name to
    /// the buffer, and the first version with exactly its version
    /// identifier becomes the chosen one; where no version has it, the
    /// choice stays. A profile that was not found changes nothing else.
    pub open spec fn seeded(&self, id: Seq<char>, found: Option<ProfileView>, next: &Self) -> bool {
        &&& next.id matches Some(s) && s@ == id
        &&& next.versions == self.versions
        &&& next.failed == self.failed
        &&& match found {
            Some(p) => {
                &&& next.input@ == p.name
                &&& forall|i: int| #[trigger]
                    is_first_match(self.versions@, p.version, i) ==> next.selected_version == i
                &&& no_match(self.versions@, p.version) ==> next.selected_version
                    == self.selected_version
            },
            None => {
                &&& next.input == self.input
                &&& next.selected_version == self.selected_version
            },
        }
    }

    /// A creator for a new profile, with no versions to choose from yet.
    pub fn new() -> (c: ProfileCreator)
        ensures
            c.id is None,
            c.input@.len() == 0,
            c.versions@.len() == 0,
            c.selected_version == 0,
            !c.failed,
            c.wf(),
    {
        ProfileCreator {
            id: None,
            input: String::new(),
            versions: Vec::new(),
            selected_version: 0,
            failed: false,
        }
    }

    /// The profile that confirming would store now under the identifier
    /// `id`, or `None` where no version is chosen, as with an empty list of
    /// versions. The empty identifier stands for a new profile.
    pub fn draft(&self, id: &String) -> (r: Option<Profile>)
        ensures
            match r {
                Some(p) => self.can_confirm() && p@ == self.spec_draft(id@),
                None => !self.can_confirm(),
            },
    {
        if self.selected_version < self.versions.len() {
            Some(
                Profile {
                    id: id.clone(),
                    name: self.input.clone(),
                    version: self.versions[self.selected_version].id.clone(),
                },
            )
        } else {
            None
        }
    }

    /// Prepares the creator for editing the profile `id`, given what the
    /// store answered for it.
    pub fn seed(&mut self, id: String, found: Option<Profile>)
        ensures
            old(self).seeded(
                id@,
                match found {
                    Some(p) => Some(p@),
                    None => None,
                },
                final(self),
            ),
            old(self).wf() ==> final(self).wf(),
    {
        self.id = Some(id);
        match found {
            Some(profile) => {
                match find_version(&self.versions, &profile.version) {
                    Some(i) => {
                        self.selected_version = i;
                    },
                    None => {},
                }
                self.input = profile.name;
            },
            None => {},
        }
    }

    /// Replaces the versions to choose from. The choice is brought back
    /// into the new list where it fell outside.
    pub fn install(&mut self, versions: Vec<Version>)
        ensures
            final(self).versions == versions,
            final(self).selected_version == clamped(old(self).selected_version, versions.len()),
            final(self).id == old(self).id,
            final(self).input == old(self).input,
            final(self).failed == old(self).failed,
            final(self).wf(),
    {
        self.selected_version = clamp_selection(self.selected_version, versions.len());
        self.versions = versions;
    }

    /// Records how storing the draft went.
    pub fn settle(&mut self, saved: bool)
        ensures
            final(self).failed == !saved,
            final(self).id == old(self).id,
            final(self).input == old(self).input,
            final(self).versions == old(self).versions,
            final(self).selected_version == old(self).selected_version,
    {
        self.failed = !saved;
    }
}

impl Widget for ProfileCreator {
    /// Cancel goes back to the home window. Confirm does so too, but only
    /// where a version is chosen: with no versions it asks for nothing.
    open spec fn route(&self, key: Key) -> Option<Route> {
        if key.is_cancel() || (key.is_confirm() && self.can_confirm()) {
            Some(bare(Tag::Home))
        } else {
            None
        }
    }

    open spec fn steps(&self, key: Key, next: &ProfileCreator) -> bool {
        &&& next.id == self.id
        &&& next.versions == self.versions
        &&& next.failed == self.failed
        &&& next.input@ == typed(self.input@, key)
        &&& next.selected_version == moved(self.selected_version, self.versions.len(), key)
    }

    fn handle_events(&mut self, key: Key) -> (r: Option<Window>)
        ensures
            old(self).wf() ==> final(self).wf(),
    {
        match key {
            Key::Esc => Some(Window::plain(Tag::Home)),
            Key::Char(c) => {
                if c == '\n' {
                    if self.selected_version < self.versions.len() {
                        Some(Window::plain(Tag::Home))
                    } else {
                        None
                    }
                } else {
                    push_char(&mut self.input, c);
                    None
                }
            },
            Key::Backspace => {
                let _ = pop_char(&mut self.input);
                None
            },
            _ => {
                self.selected_version = move_selection(
                    self.selected_version,
                    self.versions.len(),
                    key,
                );
                None
            },
        }
    }
}

} // verus!
