use vstd::prelude::*;

use std::path::PathBuf;

use crate::text::string_of;

verus! {

#[verifier::external_type_specification]
#[verifier::external_body]
pub struct ExPathBuf(PathBuf);

/// A directory of the application: a root that the system gave, and the names of the
/// directories below it.
pub struct DirPath {
    pub root: PathBuf,
    pub parts: Vec<String>,
}

/// The names of the directories below the root.
pub open spec fn part_names(parts: Seq<String>) -> Seq<Seq<char>> {
    parts.map_values(|p: String| p@)
}

impl DirPath {
    /// The directory `part` below this one.
    pub fn join(self, part: &str) -> (r: DirPath)
        ensures
            r.root == self.root,
            part_names(r.parts@) == part_names(self.parts@).push(part@),
    {
        let DirPath { root, mut parts } = self;
        let ghost before = parts@;
        parts.push(string_of(part));
        proof {
            assert(part_names(parts@) =~= part_names(before).push(part@));
        }
        DirPath { root, parts }
    }
}

/// `dirs::config_dir`: the user's configuration directory, where the system names one.
/// What it returns depends on the system and its environment; nothing is stated of it.
#[verifier::external_body]
fn user_config_dir() -> Option<PathBuf> {
    dirs::config_dir()
}

/// The application's configuration directory below a user configuration directory.
pub fn rustframe_config_dir_in(config_dir: Option<PathBuf>) -> (r: Option<DirPath>)
    ensures
        match config_dir {
            Some(root) => r matches Some(d) && d.root == root && part_names(d.parts@) == seq![
                "RustFrame"@,
            ],
            None => r is None,
        },
{
    match config_dir {
        Some(root) => {
            let d = DirPath { root, parts: Vec::new() };
            proof {
                assert(part_names(d.parts@) =~= Seq::<Seq<char>>::empty());
            }
            let r = d.join("RustFrame");
            proof {
                assert(part_names(r.parts@) =~= seq!["RustFrame"@]);
            }
            Some(r)
        },
        None => None,
    }
}

/// The application's configuration directory, where the system names a user
/// configuration directory: `RustFrame` below it.
pub fn rustframe_config_dir() -> (r: Option<DirPath>)
    ensures
        r matches Some(d) ==> part_names(d.parts@) == seq!["RustFrame"@],
{
    rustframe_config_dir_in(user_config_dir())
}

/// The directory of capture profiles below a user configuration directory:
/// `RustFrame/Profiles` below it.
pub fn rustframe_profiles_dir_in(config_dir: Option<PathBuf>) -> (r: Option<DirPath>)
    ensures
        match config_dir {
            Some(root) => r matches Some(d) && d.root == root && part_names(d.parts@) == seq![
                "RustFrame"@,
                "Profiles"@,
            ],
            None => r is None,
        },
{
    match rustframe_config_dir_in(config_dir) {
        Some(d) => {
            let r = d.join("Profiles");
            proof {
                assert(part_names(r.parts@) =~= seq!["RustFrame"@, "Profiles"@]);
            }
            Some(r)
        },
        None => None,
    }
}

/// The directory of capture profiles, where the system names a user configuration
/// directory: `Profiles` below the configuration directory.
pub fn rustframe_profiles_dir() -> (r: Option<DirPath>)
    ensures
        r matches Some(d) ==> part_names(d.parts@) == seq!["RustFrame"@, "Profiles"@],
{
    rustframe_profiles_dir_in(user_config_dir())
}

} // verus!
