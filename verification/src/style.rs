//! Where the stylesheet is found, and which file changes call for loading it
//! again.

use crate::config::text_view;
use crate::error::ExitCode;
use crate::paths::{is_absolute_path, joined_path, parent_path, same_path};
use vstd::prelude::*;

verus! {

/// What was done to a file that was modified.
#[derive(Debug, Clone, Copy, PartialEq, Eq, Structural)]
pub enum ModifyKind {
    /// Unknown.
    Any,
    /// Its content changed.
    Data,
    /// Its metadata changed.
    Metadata,
    /// Its name changed.
    Name,
    /// Something else.
    Other,
}

/// What happened to a watched file.
#[derive(Debug, Clone, Copy, PartialEq, Eq, Structural)]
pub enum EventKind {
    /// Unknown.
    Any,
    /// It was opened, read or closed.
    Access,
    /// It was created.
    Create,
    /// It was modified.
    Modify(ModifyKind),
    /// It was removed.
    Remove,
    /// Something else.
    Other,
}

/// One event of the file watcher.
#[derive(Debug)]
pub struct WatchEvent {
    /// What happened.
    pub kind: EventKind,
    /// The files that it happened to.
    pub paths: Vec<String>,
}

/// The content of a [`WatchEvent`].
pub struct WatchEventView {
    pub kind: EventKind,
    pub paths: Seq<Seq<char>>,
}

impl View for WatchEvent {
    type V = WatchEventView;

    open spec fn view(&self) -> WatchEventView {
        WatchEventView { kind: self.kind, paths: self.paths@.map_values(|path: String| path@) }
    }
}

impl WatchEventView {
    /// Whether the event says that the content of the stylesheet at
    /// `style_path` changed: it reports changed content, and the first file
    /// that it names is the stylesheet.
    pub open spec fn changes_style(self, style_path: Seq<char>) -> bool {
        &&& self.kind == EventKind::Modify(ModifyKind::Data)
        &&& self.paths.len() > 0
        &&& same_path(self.paths[0], style_path)
    }
}

/// The name of the directory, below the user's configuration directory, that
/// holds the stylesheet.
pub const STYLE_DIRECTORY: &'static str = "ironbar";

/// The name of the stylesheet in that directory.
pub const STYLE_FILE: &'static str = "style.css";

/// The stylesheet to load: `css_override` where it is given, else the
/// stylesheet below the user's configuration directory `config_dir`.
pub open spec fn chosen_style_path(
    css_override: Option<Seq<char>>,
    config_dir: Option<Seq<char>>,
) -> Option<Seq<char>> {
    match (css_override, config_dir) {
        (Some(path), _) => Some(path),
        (None, Some(dir)) => Some(joined_path(joined_path(dir, STYLE_DIRECTORY@), STYLE_FILE@)),
        (None, None) => None,
    }
}

/// Picks the stylesheet to load.
///
/// An explicit path wins. Without one the stylesheet is looked for below the
/// user's configuration directory; where that directory is unknown too, the
/// process cannot go on.
pub fn style_path(css_override: Option<String>, config_dir: Option<String>) -> (result: Result<
    String,
    ExitCode,
>)
    ensures
        match chosen_style_path(text_view(css_override), text_view(config_dir)) {
            Some(path) => result matches Ok(found) && found@ == path,
            None => result matches Err(code) && code == ExitCode::CreateBars,
        },
{
    match css_override {
        Some(path) => Ok(path),
        None => match config_dir {
            Some(dir) => {
                let directory = crate::paths::join(dir.as_str(), STYLE_DIRECTORY);
                Ok(crate::paths::join(directory.as_str(), STYLE_FILE))
            },
            None => Err(ExitCode::CreateBars),
        },
    }
}

/// The stylesheet's path as the file watcher needs it: an absolute path is
/// kept, any other is taken from the directory `current_dir`.
pub fn absolute_style_path(style_path: String, current_dir: &str) -> (absolute: String)
    ensures
        absolute@ == if is_absolute_path(style_path@) {
            style_path@
        } else {
            joined_path(current_dir@, style_path@)
        },
{
    if crate::paths::is_absolute(style_path.as_str()) {
        style_path
    } else {
        crate::paths::join(current_dir, style_path.as_str())
    }
}

/// The directory to watch for changes of the stylesheet at `style_path`: the
/// one that holds it. A path without a parent has none.
pub fn watched_directory(style_path: &str) -> (directory: Option<String>)
    ensures
        text_view(directory) == parent_path(style_path@),
{
    crate::paths::parent(style_path)
}

/// Decides whether `event` calls for loading the stylesheet at `style_path`
/// again, and if so returns the path to load.
pub fn style_change(event: &WatchEvent, style_path: &str) -> (reload: Option<String>)
    ensures
        reload is Some <==> event@.changes_style(style_path@),
        reload matches Some(path) ==> path@ == style_path@,
        event@.kind == EventKind::Modify(ModifyKind::Data) && event@.paths.len() > 0
            && event@.paths[0] == style_path@ ==> reload is Some,
{
    match event.kind {
        EventKind::Modify(ModifyKind::Data) => {
            if event.paths.len() > 0 && crate::paths::is_same(event.paths[0].as_str(), style_path) {
                Some(style_path.to_owned())
            } else {
                None
            }
        },
        _ => None,
    }
}

/// A report of anything but changed content never calls for loading the
/// stylesheet again, and neither does one that names no file. Files that a
/// report names after the first play no part.
pub proof fn lemma_style_change(event: WatchEventView, other: WatchEventView, style_path: Seq<char>)
    ensures
        event.kind != EventKind::Modify(ModifyKind::Data) ==> !event.changes_style(style_path),
        event.kind == other.kind && event.paths.len() > 0 && other.paths.len() > 0
            && event.paths[0] == other.paths[0] ==> event.changes_style(style_path)
            == other.changes_style(style_path),
        event.paths.len() == 0 ==> !event.changes_style(style_path),
{
}

} // verus!
