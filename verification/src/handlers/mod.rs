//! What each key does to the engine.
pub mod common_key_events;
pub mod timesheet;

use crate::app::App;
use crate::event::Key;
use crate::handlers::timesheet::{handle_spec, request_spec};
use vstd::prelude::*;

verus! {

/// What the host must do after a key was handled.
#[derive(Clone, Copy, Debug, PartialEq, Eq, Structural)]
pub enum Request {
    /// Nothing: the engine did all there was to do.
    Nothing,
    /// Write the store to where it is kept.
    Save,
}

/// Handles one key press: the engine moves on by [`handle_spec`], and the
/// result is what is left for the host to do.
pub fn handle_app(key: Key, app: &mut App) -> (request: Request)
    ensures
        final(app)@ == handle_spec(key, old(app)@),
        request == request_spec(key, old(app)@),
        old(app)@.wf() ==> final(app)@.wf(),
        old(app)@.wf() && old(app)@.comment_has_home() ==> final(app)@.comment_has_home(),
{
    handle_block_events(key, app)
}

/// Handles a key for the block that has the focus: the timesheet.
fn handle_block_events(key: Key, app: &mut App) -> (request: Request)
    ensures
        final(app)@ == handle_spec(key, old(app)@),
        request == request_spec(key, old(app)@),
        old(app)@.wf() ==> final(app)@.wf(),
        old(app)@.wf() && old(app)@.comment_has_home() ==> final(app)@.comment_has_home(),
{
    timesheet::handle(key, app)
}

} // verus!
