use vstd::prelude::*;

verus! {

/// What can go wrong in the editor and in its note store.
#[derive(Clone, Copy, Debug, PartialEq, Eq, Structural)]
pub enum NoteError {
    /// A note that was asked for does not exist.
    NotFound,
    /// The store could not list, read, write or create a note.
    IoFailure,
    /// An edit addressed a position outside the buffer.
    IndexOutOfRange,
}

} // verus!
