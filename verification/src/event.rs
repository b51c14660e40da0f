//! What an interceptor tells the application about a drag gesture.

use vstd::prelude::*;

verus! {

/// An event of a drag gesture over the window.
///
/// A path is the sequence of UTF-16 units that the windowing system holds
/// for it, without a terminator.
#[derive(Debug, PartialEq, Eq)]
pub enum FileDropEvent {
    /// The pointer entered the window carrying these files.
    Hovered(Vec<Vec<u16>>),
    /// These files were dropped on the window.
    Dropped(Vec<Vec<u16>>),
    /// The gesture left the window or was given up.
    Cancelled,
}

/// The mathematical value of a list of paths.
pub open spec fn paths_view(paths: Vec<Vec<u16>>) -> Seq<Seq<u16>> {
    paths@.map_values(|path: Vec<u16>| path@)
}

/// The mathematical value of a [`FileDropEvent`].
pub enum FileDropEventView {
    Hovered(Seq<Seq<u16>>),
    Dropped(Seq<Seq<u16>>),
    Cancelled,
}

impl View for FileDropEvent {
    type V = FileDropEventView;

    open spec fn view(&self) -> FileDropEventView {
        match self {
            FileDropEvent::Hovered(paths) => FileDropEventView::Hovered(paths_view(*paths)),
            FileDropEvent::Dropped(paths) => FileDropEventView::Dropped(paths_view(*paths)),
            FileDropEvent::Cancelled => FileDropEventView::Cancelled,
        }
    }
}

} // verus!
