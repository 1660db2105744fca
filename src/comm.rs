use vstd::prelude::*;

use crate::text::same_text;

verus! {

/// Why a change to a path-keyed table was refused.
#[derive(Clone, Copy, Debug, PartialEq, Eq, Structural)]
pub enum RegistryError {
    /// An object is already registered at that path.
    AlreadyRegistered,
    /// No object is registered at that path.
    NotRegistered,
}

/// An in-flight privileged call, at the object path its caller chose.
#[derive(Clone, Debug)]
pub struct Request {
    pub handle_path: String,
}

/// The requests that are currently published, each at its own path.
pub struct RequestRegistry {
    requests: Vec<Request>,
}

impl View for RequestRegistry {
    type V = Seq<Seq<char>>;

    /// The published paths, oldest first.
    closed spec fn view(&self) -> Seq<Seq<char>> {
        self.requests@.map_values(|q: Request| q.handle_path@)
    }
}

impl RequestRegistry {
    /// No path is published twice.
    pub open spec fn wf(&self) -> bool {
        self@.no_duplicates()
    }

    pub fn new() -> (r: RequestRegistry)
        ensures
            r.wf(),
            r@ == Seq::<Seq<char>>::empty(),
    {
        let r = RequestRegistry { requests: Vec::new() };
        assert(r@ =~= Seq::<Seq<char>>::empty());
        r
    }

    /// The position of `path` among the published requests.
    fn find(&self, path: &str) -> (r: Option<usize>)
        ensures
            match r {
                Some(i) => i < self@.len() && self@[i as int] == path@,
                None => !self@.contains(path@),
            },
    {
        let mut i: usize = 0;
        while i < self.requests.len()
            invariant
                i <= self.requests@.len(),
                self@.len() == self.requests@.len(),
                forall|j: int| 0 <= j < i ==> self@[j] != path@,
            decreases self.requests@.len() - i,
        {
            if same_text(self.requests[i].handle_path.as_str(), path) {
                return Some(i);
            }
            i = i + 1;
        }
        None
    }

    pub fn contains(&self, path: &str) -> (r: bool)
        ensures
            r == self@.contains(path@),
    {
        self.find(path).is_some()
    }

    /// Publishes a request at exactly `path`; refused where one is there
    /// already.
    pub fn register(&mut self, path: &str) -> (r: Result<(), RegistryError>)
        requires
            old(self).wf(),
        ensures
            final(self).wf(),
            final(self)@.contains(path@),
            old(self)@.contains(path@) ==> r == Err::<(), RegistryError>(RegistryError::AlreadyRegistered) && final(self)@ == old(self)@,
            !old(self)@.contains(path@) ==> r is Ok && final(self)@ == old(self)@.push(path@),
    {
        if self.find(path).is_some() {
            return Err(RegistryError::AlreadyRegistered);
        }
        self.requests.push(Request { handle_path: String::from_str(path) });
        assert(self@ =~= old(self)@.push(path@));
        assert(self@[self@.len() - 1] == path@);
        Ok(())
    }

    /// Withdraws the request at `path`; refused where none is there, so a
    /// second removal of one path fails.
    pub fn remove(&mut self, path: &str) -> (r: Result<(), RegistryError>)
        requires
            old(self).wf(),
        ensures
            final(self).wf(),
            !old(self)@.contains(path@) ==> r == Err::<(), RegistryError>(RegistryError::NotRegistered) && final(self)@ == old(self)@,
            old(self)@.contains(path@) ==> r is Ok && !final(self)@.contains(path@) && final(self)@.len() + 1 == old(self)@.len(),
            forall|q: Seq<char>| q != path@ ==> (final(self)@.contains(q) == old(self)@.contains(q)),
    {
        match self.find(path) {
            None => Err(RegistryError::NotRegistered),
            Some(i) => {
                let ghost before = self@;
                self.requests.remove(i);
                assert(self@ =~= before.remove(i as int));
                assert forall|q: Seq<char>| q != path@ implies (self@.contains(q) == before.contains(q)) by {
                    if before.contains(q) {
                        let k = choose|k: int| 0 <= k < before.len() && before[k] == q;
                        if k < i {
                            assert(self@[k] == q);
                        } else {
                            assert(k != i);
                            assert(self@[k - 1] == q);
                        }
                    }
                };
                assert(!self@.contains(path@)) by {
                    if self@.contains(path@) {
                        let k = choose|k: int| 0 <= k < self@.len() && self@[k] == path@;
                        if k < i {
                            assert(before[k] == before[i as int]);
                        } else {
                            assert(before[k + 1] == before[i as int]);
                        }
                    }
                };
                Ok(())
            },
        }
    }
}

impl Request {
    /// Withdraws this request from `registry`, at its own path.
    pub fn close(&self, registry: &mut RequestRegistry) -> (r: Result<(), RegistryError>)
        requires
            old(registry).wf(),
        ensures
            final(registry).wf(),
            !old(registry)@.contains(self.handle_path@) ==> r == Err::<(), RegistryError>(RegistryError::NotRegistered) && final(registry)@ == old(registry)@,
            old(registry)@.contains(self.handle_path@) ==> r is Ok && !final(registry)@.contains(self.handle_path@)
                && final(registry)@.len() + 1 == old(registry)@.len(),
            forall|q: Seq<char>| q != self.handle_path@ ==> (final(registry)@.contains(q) == old(registry)@.contains(q)),
    {
        registry.remove(self.handle_path.as_str())
    }
}

/// The outcome of a portal call: success with a payload, or a cancellation,
/// or an abort.
#[derive(Clone, Debug)]
pub enum Response<T> {
    Success(T),
    Cancelled,
    Aborted,
}

impl<T> Response<T> {
    pub open spec fn status_code(&self) -> u32 {
        match self {
            Response::Success(_) => 0,
            Response::Cancelled => 1,
            Response::Aborted => 2,
        }
    }

    /// The wire status: 0 success, 1 cancelled, 2 aborted.
    pub fn status(&self) -> (r: u32)
        ensures
            r == self.status_code(),
    {
        match self {
            Response::Success(_) => 0,
            Response::Cancelled => 1,
            Response::Aborted => 2,
        }
    }
}

} // verus!
