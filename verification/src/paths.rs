//! Where the workouts, the imports and the sounds are kept.

use vstd::prelude::*;

verus! {

/// The directory of this program under the user's configuration directory.
pub const CONFIG_DIR: &'static str = "workouts";

/// The directory of the workouts that are ready to be played.
pub const DATA_DIR: &'static str = "data";

/// The directory of the workouts that wait to be imported.
pub const IMPORT_DIR: &'static str = "import";

/// The directory of the sound files.
pub const SOUNDS_DIR: &'static str = "sounds";

/// The name of the environment variable that names the user's configuration
/// directory.
pub const CONFIG_HOME_ENV_VAR: &'static str = "XDG_CONFIG_HOME";

/// The configuration directory under a home directory where no other is
/// named.
pub const DEFAULT_CONFIG_HOME: &'static str = ".config";

/// The directory that a build copies from.
pub const INPUT_DIR: &'static str = ".";

/// The two sides of an installation: the directory that the files come
/// from, and the one that they are kept in.
#[derive(Copy, Clone, Debug)]
pub enum Source {
    Input,
    Output,
}

/// The text of the path that `std::path::Path::join` makes of the path
/// `base` and the further path `part`.
pub uninterp spec fn joined(base: Seq<char>, part: Seq<char>) -> Seq<char>;

/// Adds `part` to the path `base`.
///
/// Calls `std::path::Path::join` on the two texts taken as paths and hands
/// back the text of the path that comes of it; nothing is claimed of that
/// text but that it is the one that `join` gives for these two.
#[verifier::external_body]
pub(crate) fn join(base: &str, part: &str) -> (r: String)
    ensures
        r@ == joined(base@, part@),
{
    std::path::Path::new(base).join(part).to_string_lossy().into_owned()
}

impl Source {
    /// The directory of this side, given the user's configuration
    /// directory.
    pub fn path(&self, config_home: &str) -> (r: String)
        ensures
            r@ == (match *self {
                Source::Input => INPUT_DIR@,
                Source::Output => joined(config_home@, CONFIG_DIR@),
            }),
    {
        match self {
            Source::Input => INPUT_DIR.to_owned(),
            Source::Output => config_path(config_home),
        }
    }
}

/// The user's configuration directory: the one that the environment names,
/// or else `.config` under the home directory.
pub fn config_home(configured: Option<String>, home: &str) -> (r: String)
    ensures
        r@ == (match configured {
            Some(dir) => dir@,
            None => joined(home@, DEFAULT_CONFIG_HOME@),
        }),
{
    match configured {
        Some(dir) => dir,
        None => join(home, DEFAULT_CONFIG_HOME),
    }
}

/// The directory of this program under the configuration directory.
pub fn config_path(config_home: &str) -> (r: String)
    ensures
        r@ == joined(config_home@, CONFIG_DIR@),
{
    join(config_home, CONFIG_DIR)
}

/// The directory of the workouts that are ready to be played.
pub fn data_path(config_home: &str) -> (r: String)
    ensures
        r@ == joined(joined(config_home@, CONFIG_DIR@), DATA_DIR@),
{
    join(config_path(config_home).as_str(), DATA_DIR)
}

/// The directory of the workouts that wait to be imported.
pub fn import_path(config_home: &str) -> (r: String)
    ensures
        r@ == joined(joined(config_home@, CONFIG_DIR@), IMPORT_DIR@),
{
    join(config_path(config_home).as_str(), IMPORT_DIR)
}

/// The directory of the sound files.
pub fn sounds_path(config_home: &str) -> (r: String)
    ensures
        r@ == joined(joined(config_home@, CONFIG_DIR@), SOUNDS_DIR@),
{
    join(config_path(config_home).as_str(), SOUNDS_DIR)
}

} // verus!
