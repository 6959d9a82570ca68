use vstd::prelude::*;

pub mod buffer;
pub mod cursor;
pub mod editor;
pub mod error;
pub mod laws;
pub mod listing;
pub mod note_text;

verus! {

} // verus!
