//! The deployment mode, and the dataset that each mode loads.

use vstd::prelude::*;

verus! {

/// The two modes a deployment runs in.
#[derive(Debug, Clone, Copy, PartialEq, Eq)]
pub enum Profile {
    /// Serves the mock dataset.
    Development,
    /// Serves the real dataset.
    Production,
}

/// The mode that a flag's value selects: development where there is no flag or
/// the flag is exactly `dev`, production for every other value.
pub open spec fn selected(flag: Option<Seq<char>>) -> Profile {
    match flag {
        None => Profile::Development,
        Some(value) => if value == "dev"@ {
            Profile::Development
        } else {
            Profile::Production
        },
    }
}

/// The path of the dataset that a mode loads.
pub open spec fn dataset_of(profile: Profile) -> Seq<char> {
    match profile {
        Profile::Development => "./data/ensToAddMock.json"@,
        Profile::Production => "./data/ensToAdd.json"@,
    }
}

/// The flag's value, where there is a flag.
pub open spec fn flag_view(flag: Option<String>) -> Option<Seq<char>> {
    match flag {
        Some(value) => Some(value@),
        None => None,
    }
}

impl Profile {
    /// The name of the environment variable that carries the flag.
    pub fn variable() -> (name: &'static str)
        ensures
            name@ == "PROFILE"@,
    {
        "PROFILE"
    }

    /// Reads the mode off the flag's value, `None` standing for no flag.
    pub fn from_flag(flag: Option<String>) -> (profile: Profile)
        ensures
            profile == selected(flag_view(flag)),
    {
        match flag {
            None => Profile::Development,
            Some(value) => {
                let development = "dev".to_owned();
                if value == development {
                    Profile::Development
                } else {
                    Profile::Production
                }
            },
        }
    }

    /// The path of the dataset that this mode loads.
    pub fn dataset_path(self) -> (path: &'static str)
        ensures
            path@ == dataset_of(self),
    {
        match self {
            Profile::Development => "./data/ensToAddMock.json",
            Profile::Production => "./data/ensToAdd.json",
        }
    }
}

} // verus!
