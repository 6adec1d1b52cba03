//! The option model: the flags of a run and the paths it is to work on.
use vstd::prelude::*;
use std::path::Path;

verus! {

/// A path as the user gave it, not yet looked up in the file system.
#[derive(Debug, PartialEq, Eq)]
pub struct InputPath {
    /// The path as text.
    pub text: String,
    /// Whether the path starts at the root of the file system.
    pub rooted: bool,
}

/// The mathematical value of an [`InputPath`].
pub ghost struct InputPathView {
    pub text: Seq<char>,
    pub rooted: bool,
}

impl View for InputPath {
    type V = InputPathView;

    open spec fn view(&self) -> InputPathView {
        InputPathView { text: self.text@, rooted: self.rooted }
    }
}

/// `std::path::Path::has_root` on the path that the text spells. What makes
/// a root differs between platforms, so nothing is claimed of the answer.
#[verifier::external_body]
fn has_root(text: &str) -> (rooted: bool) {
    Path::new(text).has_root()
}

impl InputPath {
    /// Takes a path from the user and lets the platform say whether it is
    /// rooted.
    pub fn new(text: String) -> (path: InputPath)
        ensures
            path.text == text,
    {
        let rooted = has_root(text.as_str());
        InputPath { text, rooted }
    }
}

impl Clone for InputPath {
    fn clone(&self) -> (copy: Self)
        ensures
            copy@ == self@,
    {
        InputPath { text: self.text.clone(), rooted: self.rooted }
    }
}

/// The flags of a run and the paths it is to work on, in the order given.
#[derive(Debug, PartialEq, Eq)]
pub struct Settings {
    /// Do not overwrite any files; tell what would be overwritten.
    pub dry_run: bool,
    /// Prompt before overwriting each file.
    pub interactive: bool,
    /// Descend into directories.
    pub recursive: bool,
    /// Suppress all interaction.
    pub suppress: bool,
    /// Tell what was overwritten.
    pub verbose: bool,
    /// Show the help message and do nothing else.
    pub help: bool,
    /// Show the version and do nothing else.
    pub version: bool,
    /// The paths to work on.
    pub paths: Vec<InputPath>,
}

/// The mathematical value of [`Settings`].
pub ghost struct SettingsView {
    pub dry_run: bool,
    pub interactive: bool,
    pub recursive: bool,
    pub suppress: bool,
    pub verbose: bool,
    pub help: bool,
    pub version: bool,
    pub paths: Seq<InputPathView>,
}

impl SettingsView {
    /// Prompting for every file and suppressing every prompt contradict each
    /// other.
    pub open spec fn conflicting(self) -> bool {
        self.interactive && self.suppress
    }
}

impl View for Settings {
    type V = SettingsView;

    open spec fn view(&self) -> SettingsView {
        SettingsView {
            dry_run: self.dry_run,
            interactive: self.interactive,
            recursive: self.recursive,
            suppress: self.suppress,
            verbose: self.verbose,
            help: self.help,
            version: self.version,
            paths: self.paths@.map_values(|path: InputPath| path@),
        }
    }
}

} // verus!
