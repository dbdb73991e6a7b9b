use vstd::prelude::*;

pub mod hub;
pub mod laws;
pub mod message;
pub mod session;

use crate::hub::{Hub, HubClosed, CAPACITY};
use crate::message::{FormError, Message};

verus! {

/// Why a posted message was not published.
#[derive(PartialEq, Eq, Structural, Debug, Clone, Copy)]
pub enum PostError {
    /// The form broke a length limit; the hub never saw it.
    Invalid(FormError),
    /// The hub is closed.
    Closed,
}

/// Builds the relay's shared state: an empty, open hub of capacity `CAPACITY`.
pub fn rocket() -> (h: Hub)
    ensures
        h.wf(),
        h@.log == Seq::<Message>::empty(),
        h@.capacity == CAPACITY,
        !h@.closed,
        h@.cursors == Map::<u64, u64>::empty(),
        h@.next_id == 0,
{
    Hub::new(CAPACITY)
}

/// Handles a posted message: checks the form's length limits, then publishes it
/// without waiting for any reader. On success, says how many cursors it went to.
pub fn post(form: Message, queue: &mut Hub) -> (r: Result<usize, PostError>)
    requires
        old(queue).wf(),
        old(queue)@.log.len() < u64::MAX,
    ensures
        final(queue).wf(),
        form.form_error() matches Some(e) ==> r == Err::<usize, PostError>(PostError::Invalid(e))
            && final(queue)@ == old(queue)@,
        form.valid() && old(queue)@.closed ==> r == Err::<usize, PostError>(PostError::Closed)
            && final(queue)@ == old(queue)@,
        form.valid() && !old(queue)@.closed ==> r == Ok::<usize, PostError>(
            old(queue)@.cursors.len() as usize,
        ) && final(queue)@ == old(queue)@.publish(form),
{
    match form.validate() {
        Err(e) => Err(PostError::Invalid(e)),
        Ok(()) => match queue.publish(form) {
            Ok(n) => Ok(n),
            Err(HubClosed) => Err(PostError::Closed),
        },
    }
}

} // verus!
