//! Management library for X11/Wayland cursor theme directories.
//!
//! The library holds the logic of the cursor tools: the name-mapping
//! tables, the planning of symlink and rename batches, the templating of
//! theme metadata files, and the assembly of multi-size cursor
//! configurations.  All file system and subprocess work is left to the
//! surrounding application, which feeds plain values in and carries the
//! returned plans out.

use vstd::prelude::*;

pub mod commands;
pub mod cursor_mapping;
pub mod text;
pub mod theme_config;

use crate::text::spec_join;

verus! {

/// A path is modelled as a string; joining appends a single separator
/// and the new component.
pub open spec fn path_join(base: Seq<char>, component: Seq<char>) -> Seq<char> {
    base + seq!['/'] + component
}

/// Join a path with a single component, as `<base>/<component>`.
pub fn join_path(base: &str, component: &str) -> (r: String)
    ensures
        r@ == path_join(base@, component@),
{
    proof {
        reveal_strlit("/");
    }
    let mut s = base.to_owned();
    s.append("/");
    s.append(component);
    s
}

/// Errors of the cursor operations.
#[derive(Debug)]
pub enum CursorError {
    /// A theme directory was not found at the named path.
    ThemeNotFound(String),
    /// A cursor file was not found at the named path.
    CursorNotFound(String),
    /// An external command exited with a failure status.
    CommandFailed { command: String, error: String },
    /// An input/output operation failed with the given description.
    Io(String),
}

/// The description of an error, as it is shown to the user.
pub open spec fn error_message(e: CursorError) -> Seq<char> {
    match e {
        CursorError::ThemeNotFound(p) => "Theme directory not found: "@ + p@,
        CursorError::CursorNotFound(p) => "Cursor file not found: "@ + p@,
        CursorError::CommandFailed { command, error } => "Command failed: "@ + command@ + " - "@
            + error@,
        CursorError::Io(e) => "IO error: "@ + e@,
    }
}

impl CursorError {
    /// Render the error as one line of text.
    pub fn message(&self) -> (r: String)
        ensures
            r@ == error_message(*self),
    {
        match self {
            CursorError::ThemeNotFound(p) => {
                let mut s = "Theme directory not found: ".to_owned();
                s.append(p.as_str());
                s
            },
            CursorError::CursorNotFound(p) => {
                let mut s = "Cursor file not found: ".to_owned();
                s.append(p.as_str());
                s
            },
            CursorError::CommandFailed { command, error } => {
                let mut s = "Command failed: ".to_owned();
                s.append(command.as_str());
                s.append(" - ");
                s.append(error.as_str());
                s
            },
            CursorError::Io(e) => {
                let mut s = "IO error: ".to_owned();
                s.append(e.as_str());
                s
            },
        }
    }
}

/// A cursor theme: its name, its root directory, and the `cursors`
/// subdirectory under that root.
#[derive(Debug, Clone)]
pub struct CursorTheme {
    pub name: String,
    pub path: String,
    pub cursors_dir: String,
}

impl CursorTheme {
    /// The cursors directory lies directly under the theme root.
    pub open spec fn wf(self) -> bool {
        self.cursors_dir@ == path_join(self.path@, "cursors"@)
    }

    /// Make a theme rooted at `path`.
    pub fn new(name: String, path: String) -> (t: Self)
        ensures
            t.name == name,
            t.path == path,
            t.wf(),
    {
        let cursors_dir = join_path(path.as_str(), "cursors");
        Self { name, path, cursors_dir }
    }

    /// Are both the theme root and its cursors directory present on
    /// disk?  The answer depends on the state of the file system.
    pub fn exists_on_disk(&self) -> bool {
        path_exists(self.path.as_str()) && path_exists(self.cursors_dir.as_str())
    }
}

/// Whether a path names an existing file system entity.  Relies on
/// `std::path::Path::exists`; the answer depends on the state of the
/// file system, so nothing is promised of it.
#[verifier::external_body]
pub fn path_exists(path: &str) -> bool {
    std::path::Path::new(path).exists()
}

/// Utilities for external commands: the verified side builds the
/// command line shown in error reports.
pub struct CommandUtils;

/// A command followed by its space-separated arguments.
pub open spec fn command_line_spec(command: Seq<char>, args: Seq<Seq<char>>) -> Seq<char> {
    command + seq![' '] + spec_join(args, ' ')
}

impl CommandUtils {
    /// Render a command and its arguments as one line.
    pub fn command_line(command: &str, args: &Vec<String>) -> (r: String)
        ensures
            r@ == command_line_spec(command@, args@.map_values(|a: String| a@)),
    {
        proof {
            reveal_strlit(" ");
        }
        let mut s = command.to_owned();
        s.append(" ");
        s.append(crate::text::join_with(args, " ").as_str());
        s
    }
}

/// The arguments that ask the icon-cache updater to rebuild a theme
/// directory's cache: force the rebuild and include an index check.
pub fn icon_cache_args(theme_dir: &str) -> (r: Vec<String>)
    ensures
        r@.map_values(|a: String| a@) == seq!["-f"@, "-t"@, theme_dir@],
{
    let mut v: Vec<String> = Vec::new();
    v.push("-f".to_owned());
    v.push("-t".to_owned());
    v.push(theme_dir.to_owned());
    proof {
        assert(v@.map_values(|a: String| a@) =~= seq!["-f"@, "-t"@, theme_dir@]);
    }
    v
}

/// The user's home directory, if the environment reveals one, as a
/// string path.  Relies on `home::home_dir`; the answer depends on the
/// environment, so nothing is promised of it.
#[verifier::external_body]
pub fn get_home_dir() -> Option<String> {
    home::home_dir().and_then(|p| p.to_str().map(|s| s.to_string()))
}

/// The `.icons` directory under a given home directory.
pub fn icons_dir_of(home: &str) -> (r: String)
    ensures
        r@ == path_join(home@, ".icons"@),
{
    join_path(home, ".icons")
}

/// The user's `.icons` directory, if a home directory can be found.
pub fn get_icons_dir() -> (r: Option<String>)
    ensures
        r matches Some(p) ==> exists|home: Seq<char>| p@ == path_join(home, ".icons"@),
{
    match get_home_dir() {
        Some(home) => Some(icons_dir_of(home.as_str())),
        None => None,
    }
}

} // verus!
