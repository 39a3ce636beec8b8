use crate::session::SessionInfo;
use crate::session::SessionPtr;
use vstd::prelude::*;

verus! {

/// An open session on the multi-session interface of the protocol engine.
/// Such sessions share state inside the engine and are to stay on the
/// thread that opened them.
#[derive(Debug)]
pub struct MultiSessionPtr {
    session: SessionPtr,
    confined: core::marker::PhantomData<std::rc::Rc<()>>,
}

/// A session on the multi-session interface owned by the caller.
#[derive(Debug)]
pub struct MultiSession(MultiSessionPtr);

impl View for MultiSessionPtr {
    type V = SessionPtr;

    closed spec fn view(&self) -> SessionPtr {
        self.session
    }
}

impl View for MultiSession {
    type V = SessionPtr;

    closed spec fn view(&self) -> SessionPtr {
        self.0@
    }
}

impl MultiSessionPtr {
    /// The session as the protocol engine opened it.
    pub fn new(session: SessionPtr) -> (res: MultiSessionPtr)
        ensures
            res@ == session,
    {
        MultiSessionPtr { session, confined: core::marker::PhantomData }
    }

    pub fn as_raw(&self) -> (res: &SessionPtr)
        ensures
            *res == self@,
    {
        &self.session
    }
}

impl SessionInfo for MultiSessionPtr {
    closed spec fn spec_session(&self) -> SessionPtr {
        self.session
    }

    fn session(&self) -> (res: &SessionPtr) {
        &self.session
    }
}

impl MultiSession {
    /// A handle on an open session.
    pub fn from_raw(session: MultiSessionPtr) -> (res: MultiSession)
        ensures
            res@ == session@,
    {
        MultiSession(session)
    }

    /// Gives up the handle and returns the session it owned.
    pub fn into_raw(self) -> (res: MultiSessionPtr)
        ensures
            res@ == self@,
    {
        self.0
    }
}

impl core::ops::Deref for MultiSession {
    type Target = MultiSessionPtr;

    fn deref(&self) -> (res: &MultiSessionPtr)
        ensures
            res@ == self@,
    {
        &self.0
    }
}

} // verus!
