use vstd::prelude::*;

verus! {

/// A platform's source of global key presses. It is set up once at start and
/// released at shutdown; it hands its key presses to the application on its
/// own.
pub trait OsInput: Sized {
    fn new() -> Self;

    fn on_shutdown(&self);
}

} // verus!
