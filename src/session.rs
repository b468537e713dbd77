use vstd::prelude::*;

use crate::error::{already_initialized_message, not_initialized_message, PaymentError};

verus! {

/// What `init` does to the registry's contents, and whether it accepts the
/// new session.
pub open spec fn init_transition<S>(active: Option<S>, session: S) -> (Option<S>, bool) {
    match active {
        None => (Some(session), true),
        Some(current) => (Some(current), false),
    }
}

/// The holder of at most one live wallet session.
///
/// The registry itself is plain data; the embedding code keeps it behind one
/// lock, so that checking for a session, building it and storing it happen in
/// one critical section.
pub struct SessionRegistry<S> {
    session: Option<S>,
}

impl<S> View for SessionRegistry<S> {
    type V = Option<S>;

    closed spec fn view(&self) -> Option<S> {
        self.session
    }
}

impl<S> SessionRegistry<S> {
    /// A registry with no session.
    pub fn new() -> (r: SessionRegistry<S>)
        ensures
            r@ is None,
    {
        SessionRegistry { session: None }
    }

    pub fn is_active(&self) -> (r: bool)
        ensures
            r == self@ is Some,
    {
        self.session.is_some()
    }

    /// Whether a new session may be built: fails while one is active, so
    /// that nothing is built that would then be thrown away.
    pub fn check_can_init(&self) -> (r: Result<(), PaymentError>)
        ensures
            r is Ok <==> self@ is None,
            r is Err ==> r->Err_0.is_generic_with(already_initialized_message()),
    {
        match &self.session {
            None => Ok(()),
            Some(_) => Err(PaymentError::already_initialized()),
        }
    }

    /// Stores `session` as the live session, unless one is active already;
    /// a live session is never replaced.
    pub fn init(&mut self, session: S) -> (r: Result<(), PaymentError>)
        ensures
            (final(self)@, r is Ok) == init_transition(old(self)@, session),
            r is Err ==> r->Err_0.is_generic_with(already_initialized_message()),
    {
        match &self.session {
            None => {
                self.session = Some(session);
                Ok(())
            },
            Some(_) => Err(PaymentError::already_initialized()),
        }
    }

    /// The live session, or a `Generic` error when there is none.
    pub fn get_active(&self) -> (r: Result<&S, PaymentError>)
        ensures
            r is Ok <==> self@ is Some,
            r matches Ok(s) ==> self@ == Some(*s),
            self@ is None ==> r->Err_0.is_generic_with(not_initialized_message()),
    {
        match &self.session {
            Some(s) => Ok(s),
            None => Err(PaymentError::not_initialized()),
        }
    }

    /// Ends the live session, handing it back to the caller.
    pub fn disconnect(&mut self) -> (r: Option<S>)
        ensures
            r == old(self)@,
            final(self)@ is None,
    {
        self.session.take()
    }
}

/// Starting a session a second time, with no teardown in between, is refused
/// and leaves the first session in place.
pub proof fn lemma_second_init_rejected<S>(first: S, second: S)
    ensures
        init_transition(None, first) == (Some(first), true),
        init_transition(init_transition(None, first).0, second) == (Some(first), false),
{
}

} // verus!
