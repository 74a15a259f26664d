//! The basic wizard: service groups to choose from, and the short
//! environment file that carries the choice.

use crate::text::{join, joined};
use vstd::prelude::*;

verus! {

/// A group of services that is started together.
#[derive(Debug)]
pub struct Profile {
    /// The name under which the group is shown.
    pub name: String,
    /// The compose profile that starts the group; empty for the default
    /// group, which always runs.
    pub compose_profile: String,
}

/// The mathematical value of a [`Profile`].
pub struct ProfileView {
    pub name: Seq<char>,
    pub compose_profile: Seq<char>,
}

impl View for Profile {
    type V = ProfileView;

    open spec fn view(&self) -> ProfileView {
        ProfileView { name: self.name@, compose_profile: self.compose_profile@ }
    }
}

impl DeepView for Profile {
    type V = ProfileView;

    open spec fn deep_view(&self) -> ProfileView {
        self@
    }
}

/// The groups on offer, the default group first.
pub open spec fn profile_list() -> Seq<ProfileView> {
    seq![
        ProfileView { name: "Default (lila, lila-ws, mongodb, redis)"@, compose_profile: ""@ },
        ProfileView {
            name: "Stockfish (for playing against or analyzing games)"@,
            compose_profile: "stockfish"@,
        },
        ProfileView { name: "External Engine"@, compose_profile: "external-engine"@ },
        ProfileView { name: "Search (elasticsearch, lila-search)"@, compose_profile: "search"@ },
        ProfileView {
            name: "Images (for generating gifs and thumbnails)"@,
            compose_profile: "images"@,
        },
    ]
}

/// The line that carries the chosen groups: `COMPOSE_PROFILES=` and the
/// groups' compose profiles, joined by commas.
pub open spec fn profiles_line_of(selected: Seq<Seq<char>>) -> Seq<char> {
    "COMPOSE_PROFILES="@ + joined(selected, ","@)
}

/// The short environment file: the chosen groups, whether the database is
/// seeded, and the two passwords. Without seeding, both passwords are empty.
pub open spec fn env_file_of(
    selected: Seq<Seq<char>>,
    setup_database: bool,
    su_password: Seq<char>,
    password: Seq<char>,
) -> Seq<char> {
    profiles_line_of(selected) + "\nSETUP_DB="@ + (if setup_database {
        "true"@
    } else {
        "false"@
    }) + "\nSU_PASSWORD="@ + (if setup_database {
        su_password
    } else {
        ""@
    }) + "\nPASSWORD="@ + (if setup_database {
        password
    } else {
        ""@
    })
}

/// A group with its name and compose profile.
fn profile(name: &str, compose_profile: &str) -> (r: Profile)
    ensures
        r@ == (ProfileView { name: name@, compose_profile: compose_profile@ }),
{
    Profile { name: String::from_str(name), compose_profile: String::from_str(compose_profile) }
}

/// The groups on offer, the default group first.
pub fn profiles() -> (r: Vec<Profile>)
    ensures
        r.deep_view() == profile_list(),
{
    let mut list: Vec<Profile> = Vec::new();
    list.push(profile("Default (lila, lila-ws, mongodb, redis)", ""));
    list.push(profile("Stockfish (for playing against or analyzing games)", "stockfish"));
    list.push(profile("External Engine", "external-engine"));
    list.push(profile("Search (elasticsearch, lila-search)", "search"));
    list.push(profile("Images (for generating gifs and thumbnails)", "images"));
    assert(list.deep_view() =~= profile_list());
    list
}

/// The line that carries the chosen groups.
pub fn profiles_line(selected: &Vec<String>) -> (r: String)
    ensures
        r@ == profiles_line_of(selected.deep_view()),
{
    let mut line = String::from_str("COMPOSE_PROFILES=");
    let list = join(selected, ",");
    line.append(list.as_str());
    line
}

/// The short environment file.
pub fn env_file(
    selected: &Vec<String>,
    setup_database: bool,
    su_password: &str,
    password: &str,
) -> (r: String)
    ensures
        r@ == env_file_of(selected.deep_view(), setup_database, su_password@, password@),
{
    let mut text = profiles_line(selected);
    text.append("\nSETUP_DB=");
    text.append(
        if setup_database {
            "true"
        } else {
            "false"
        },
    );
    text.append("\nSU_PASSWORD=");
    text.append(
        if setup_database {
            su_password
        } else {
            ""
        },
    );
    text.append("\nPASSWORD=");
    text.append(
        if setup_database {
            password
        } else {
            ""
        },
    );
    text
}

impl Profile {
    /// What is said beside the group: that the default group is required;
    /// nothing of the others.
    pub fn hint(&self) -> (r: String)
        ensures
            r@ == if self@.compose_profile.len() == 0 {
                "required"@
            } else {
                ""@
            },
    {
        if self.compose_profile.as_str().unicode_len() == 0 {
            String::from_str("required")
        } else {
            String::from_str("")
        }
    }
}

} // verus!
