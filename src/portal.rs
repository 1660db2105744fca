use vstd::prelude::*;

use crate::comm::{RegistryError, Request, RequestRegistry, Response};
use crate::screencast::{ScreenCast, SessionTable};

verus! {

/// What the portal's call handlers share: the screen-cast interface, the
/// published requests and the open sessions.
pub struct DesktopPortalState {
    pub screencast: ScreenCast,
    pub requests: RequestRegistry,
    pub sessions: SessionTable,
}

impl DesktopPortalState {
    pub open spec fn wf(&self) -> bool {
        self.requests.wf() && self.sessions.wf()
    }

    /// A state with nothing published and no session open.
    pub fn new(screencast: ScreenCast) -> (r: DesktopPortalState)
        ensures
            r.wf(),
            r.requests@ == Seq::<Seq<char>>::empty(),
            r.sessions@ == Seq::<(Seq<char>, Seq<char>)>::empty(),
    {
        DesktopPortalState { screencast, requests: RequestRegistry::new(), sessions: SessionTable::new() }
    }

    /// `ScreenCast::create_session` on this state's tables.
    pub fn create_session(&mut self, request_handle: &str, session_handle: &str, app_id: &str) -> (r: Result<Response<Vec<(String, String)>>, RegistryError>)
        requires
            old(self).wf(),
        ensures
            final(self).wf(),
            old(self).requests@.contains(request_handle@) || old(self).sessions.has_path(session_handle@) ==>
                r == Err::<Response<Vec<(String, String)>>, RegistryError>(RegistryError::AlreadyRegistered)
                && final(self).requests@ == old(self).requests@ && final(self).sessions@ == old(self).sessions@,
            !old(self).requests@.contains(request_handle@) && !old(self).sessions.has_path(session_handle@) ==> (match r {
                Ok(Response::Success(results)) => results@.len() == 0,
                _ => false,
            }) && final(self).requests@ == old(self).requests@.push(request_handle@)
                && final(self).sessions@ == old(self).sessions@.push((session_handle@, app_id@)),
    {
        self.screencast.create_session(&mut self.requests, &mut self.sessions, request_handle, session_handle, app_id)
    }

    /// Closes the request published at `path`; fails where none is.
    pub fn close_request(&mut self, path: &str) -> (r: Result<(), RegistryError>)
        requires
            old(self).wf(),
        ensures
            final(self).wf(),
            final(self).sessions@ == old(self).sessions@,
            !old(self).requests@.contains(path@) ==> r == Err::<(), RegistryError>(RegistryError::NotRegistered)
                && final(self).requests@ == old(self).requests@,
            old(self).requests@.contains(path@) ==> r is Ok && !final(self).requests@.contains(path@),
            forall|q: Seq<char>| q != path@ ==> (final(self).requests@.contains(q) == old(self).requests@.contains(q)),
    {
        let request = Request { handle_path: String::from_str(path) };
        request.close(&mut self.requests)
    }
}

} // verus!
