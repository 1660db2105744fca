use vstd::prelude::*;

use crate::comm::{RegistryError, RequestRegistry, Response};
use crate::text::same_text;

verus! {

/// Kinds of source a screen cast can capture.
#[derive(Clone, Copy, Debug, PartialEq, Eq, Structural)]
pub enum SourceTypes {
    Monitor,
    Window,
    Virtual,
}

impl SourceTypes {
    /// The kind's flag in the portal's bit mask: 1, 2 or 4.
    pub fn bit(&self) -> (r: u32)
        ensures
            r == match self {
                SourceTypes::Monitor => 1u32,
                SourceTypes::Window => 2u32,
                SourceTypes::Virtual => 4u32,
            },
    {
        match self {
            SourceTypes::Monitor => 1,
            SourceTypes::Window => 2,
            SourceTypes::Virtual => 4,
        }
    }
}

/// Ways the cursor can appear in a screen cast.
#[derive(Clone, Copy, Debug, PartialEq, Eq, Structural)]
pub enum CursorModes {
    Hidden,
    Embedded,
    Metadata,
}

impl CursorModes {
    /// The mode's flag in the portal's bit mask: 1, 2 or 4.
    pub fn bit(&self) -> (r: u32)
        ensures
            r == match self {
                CursorModes::Hidden => 1u32,
                CursorModes::Embedded => 2u32,
                CursorModes::Metadata => 4u32,
            },
    {
        match self {
            CursorModes::Hidden => 1,
            CursorModes::Embedded => 2,
            CursorModes::Metadata => 4,
        }
    }
}

/// An open screen-cast negotiation, at the session path its caller chose.
#[derive(Clone, Debug)]
pub struct Session {
    pub session_path: String,
    pub app_id: String,
}

/// The open sessions, keyed by session path.
pub struct SessionTable {
    sessions: Vec<Session>,
}

impl View for SessionTable {
    type V = Seq<(Seq<char>, Seq<char>)>;

    /// Each open session as (session path, application id), oldest first.
    closed spec fn view(&self) -> Seq<(Seq<char>, Seq<char>)> {
        self.sessions@.map_values(|s: Session| (s.session_path@, s.app_id@))
    }
}

impl SessionTable {
    /// Whether a session is open at `path`.
    pub open spec fn has_path(&self, path: Seq<char>) -> bool {
        exists|i: int| 0 <= i < self@.len() && #[trigger] self@[i].0 == path
    }

    /// No session path is used twice.
    pub open spec fn wf(&self) -> bool {
        forall|i: int, j: int| 0 <= i < j < self@.len() ==> #[trigger] self@[i].0 != #[trigger] self@[j].0
    }

    pub fn new() -> (r: SessionTable)
        ensures
            r.wf(),
            r@ == Seq::<(Seq<char>, Seq<char>)>::empty(),
    {
        let r = SessionTable { sessions: Vec::new() };
        assert(r@ =~= Seq::<(Seq<char>, Seq<char>)>::empty());
        r
    }

    fn find(&self, path: &str) -> (r: Option<usize>)
        ensures
            match r {
                Some(i) => i < self@.len() && self@[i as int].0 == path@,
                None => !self.has_path(path@),
            },
    {
        let mut i: usize = 0;
        while i < self.sessions.len()
            invariant
                i <= self.sessions@.len(),
                self@.len() == self.sessions@.len(),
                forall|j: int| 0 <= j < i ==> self@[j].0 != path@,
            decreases self.sessions@.len() - i,
        {
            if same_text(self.sessions[i].session_path.as_str(), path) {
                return Some(i);
            }
            i = i + 1;
        }
        None
    }

    pub fn contains(&self, path: &str) -> (r: bool)
        ensures
            r == self.has_path(path@),
    {
        self.find(path).is_some()
    }

    /// The application that opened the session at `path`, if one is open.
    pub fn app_id_of(&self, path: &str) -> (r: Option<String>)
        requires
            self.wf(),
        ensures
            !self.has_path(path@) ==> r is None,
            self.has_path(path@) ==> r is Some && exists|i: int|
                0 <= i < self@.len() && self@[i] == (path@, r.unwrap()@),
    {
        match self.find(path) {
            None => None,
            Some(i) => Some(self.sessions[i].app_id.clone()),
        }
    }

    /// Opens a session at `path` for `app_id`; refused where one is open
    /// there already.
    pub fn open(&mut self, path: &str, app_id: &str) -> (r: Result<(), RegistryError>)
        requires
            old(self).wf(),
        ensures
            final(self).wf(),
            final(self).has_path(path@),
            old(self).has_path(path@) ==> r == Err::<(), RegistryError>(RegistryError::AlreadyRegistered) && final(self)@ == old(self)@,
            !old(self).has_path(path@) ==> r is Ok && final(self)@ == old(self)@.push((path@, app_id@)),
    {
        if self.find(path).is_some() {
            return Err(RegistryError::AlreadyRegistered);
        }
        self.sessions.push(Session { session_path: String::from_str(path), app_id: String::from_str(app_id) });
        assert(self@ =~= old(self)@.push((path@, app_id@)));
        assert(self@[self@.len() - 1].0 == path@);
        Ok(())
    }
}

/// The screen-cast interface and what it offers.
pub struct ScreenCast {
    available_source_types: Vec<SourceTypes>,
    available_cursor_modes: Vec<CursorModes>,
    version: u8,
}

impl ScreenCast {
    pub fn new(source_types: Vec<SourceTypes>, cursor_modes: Vec<CursorModes>, version: u8) -> (r: ScreenCast)
        ensures
            r.source_types() == source_types@,
            r.cursor_modes() == cursor_modes@,
            r.version_spec() == version,
    {
        ScreenCast { available_source_types: source_types, available_cursor_modes: cursor_modes, version }
    }

    pub closed spec fn source_types(&self) -> Seq<SourceTypes> {
        self.available_source_types@
    }

    pub closed spec fn cursor_modes(&self) -> Seq<CursorModes> {
        self.available_cursor_modes@
    }

    pub closed spec fn version_spec(&self) -> u8 {
        self.version
    }

    pub fn version(&self) -> (r: u8)
        ensures
            r == self.version_spec(),
    {
        self.version
    }

    /// Starts a screen-cast session: publishes a request at exactly
    /// `request_handle` and opens a session at `session_handle` for `app_id`,
    /// answering success with an empty result dictionary. Where either path
    /// is taken already the call fails and nothing changes.
    pub fn create_session(
        &self,
        requests: &mut RequestRegistry,
        sessions: &mut SessionTable,
        request_handle: &str,
        session_handle: &str,
        app_id: &str,
    ) -> (r: Result<Response<Vec<(String, String)>>, RegistryError>)
        requires
            old(requests).wf(),
            old(sessions).wf(),
        ensures
            final(requests).wf(),
            final(sessions).wf(),
            old(requests)@.contains(request_handle@) ==> r == Err::<Response<Vec<(String, String)>>, RegistryError>(RegistryError::AlreadyRegistered)
                && final(requests)@ == old(requests)@ && final(sessions)@ == old(sessions)@,
            !old(requests)@.contains(request_handle@) && old(sessions).has_path(session_handle@) ==>
                r == Err::<Response<Vec<(String, String)>>, RegistryError>(RegistryError::AlreadyRegistered)
                && final(requests)@ == old(requests)@ && final(sessions)@ == old(sessions)@,
            !old(requests)@.contains(request_handle@) && !old(sessions).has_path(session_handle@) ==> (match r {
                Ok(Response::Success(results)) => results@.len() == 0,
                _ => false,
            }) && final(requests)@ == old(requests)@.push(request_handle@)
                && final(sessions)@ == old(sessions)@.push((session_handle@, app_id@)),
    {
        if requests.contains(request_handle) || sessions.contains(session_handle) {
            return Err(RegistryError::AlreadyRegistered);
        }
        let _ = requests.register(request_handle);
        let _ = sessions.open(session_handle, app_id);
        Ok(Response::Success(Vec::new()))
    }
}

} // verus!
