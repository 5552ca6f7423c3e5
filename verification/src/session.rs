//! The session: the unit of interaction with the backend. A session owns
//! the registration links to resources, not the resources themselves; a
//! resource must be registered with a session before that session may use
//! it in a forward pass.

use vstd::prelude::*;
use crate::{Error, VaccelId};
use crate::backend::Backend;
use crate::resources::Resource;

verus! {

/// Execution context binding registered resources to invocation calls.
pub struct Session {
    id: VaccelId,
    open: bool,
    registered: Vec<i64>,
}

impl Session {
    /// The backend-assigned id of the session.
    pub closed spec fn id_spec(self) -> VaccelId {
        self.id
    }

    /// Whether the session is open; a closed session rejects every use.
    pub closed spec fn open_spec(self) -> bool {
        self.open
    }

    /// The ids registered with this session, in registration order.
    pub closed spec fn registered_ids(self) -> Seq<i64> {
        self.registered@
    }

    /// Whether the resource with id `id` is registered with this session.
    pub open spec fn is_registered_spec(self, id: i64) -> bool {
        self.registered_ids().contains(id)
    }

    /// Open a session on the backend. The flags are forwarded to the
    /// backend, which this model does not further interpret. The session
    /// comes back open with no registered resources; only id-space
    /// exhaustion fails, surfaced as `Runtime`.
    pub fn new(backend: &mut Backend, flags: u32) -> (r: Result<Session, Error>)
        requires
            old(backend).wf(),
        ensures
            final(backend).wf(),
            old(backend).next_id_spec() < i64::MAX ==> r is Ok && {
                let s = r->Ok_0;
                &&& s.open_spec()
                &&& s.id_spec() == old(backend).next_id_spec()
                &&& s.registered_ids() == Seq::<i64>::empty()
                &&& final(backend).next_id_spec() == old(backend).next_id_spec() + 1
                &&& final(backend).live_ids() == old(backend).live_ids()
                &&& final(backend).dep_record() == old(backend).dep_record()
            },
            old(backend).next_id_spec() == i64::MAX ==> {
                &&& r == Err::<Session, Error>(Error::Runtime(crate::VACCEL_ENOMEM))
                &&& *final(backend) == *old(backend)
            },
    {
        match backend.open_session() {
            Ok(id) => Ok(Session { id, open: true, registered: Vec::new() }),
            Err(code) => Err(Error::Runtime(code)),
        }
    }

    /// The id of the session.
    pub fn id(&self) -> (r: VaccelId)
        ensures
            r == self.id_spec(),
    {
        self.id
    }

    /// Whether the session is open.
    pub fn is_open(&self) -> (r: bool)
        ensures
            r == self.open_spec(),
    {
        self.open
    }

    /// Whether the resource with id `id` is registered with this session.
    pub fn is_registered(&self, id: i64) -> (r: bool)
        ensures
            r == self.is_registered_spec(id),
    {
        let mut i: usize = 0;
        while i < self.registered.len()
            invariant
                i <= self.registered@.len(),
                forall|j: int| 0 <= j < i ==> self.registered@[j] != id,
            decreases self.registered@.len() - i,
        {
            if self.registered[i] == id {
                return true;
            }
            i = i + 1;
        }
        false
    }

    /// How many resources are registered with this session.
    pub fn registered_count(&self) -> (r: usize)
        ensures
            r == self.registered_ids().len(),
    {
        self.registered.len()
    }

    /// Register a resource with this session, recording its id as usable in
    /// forward passes. An uninitialized resource is rejected with
    /// `InvalidArgument` and the session is left unchanged, as is a use of a
    /// closed session. Registering twice keeps a single link.
    pub fn register<R: Resource>(&mut self, resource: &R) -> (r: Result<(), Error>)
        ensures
            !resource.initialized_spec() ==> r == Err::<(), Error>(Error::InvalidArgument)
                && *final(self) == *old(self),
            resource.initialized_spec() && !old(self).open_spec() ==> {
                &&& r == Err::<(), Error>(Error::InvalidArgument)
                &&& *final(self) == *old(self)
            },
            resource.initialized_spec() && old(self).open_spec() ==> {
                &&& r is Ok
                &&& final(self).id_spec() == old(self).id_spec()
                &&& final(self).open_spec()
                &&& final(self).registered_ids() == (if old(self).is_registered_spec(
                    resource.id_spec(),
                ) {
                    old(self).registered_ids()
                } else {
                    old(self).registered_ids().push(resource.id_spec())
                })
                &&& final(self).is_registered_spec(resource.id_spec())
            },
    {
        if !resource.initialized() {
            return Err(Error::InvalidArgument);
        }
        if !self.open {
            return Err(Error::InvalidArgument);
        }
        let id = resource.id();
        if !self.is_registered(id) {
            self.registered.push(id);
            proof {
                let l = self.registered@;
                assert(l[l.len() - 1] == id);
                assert(l.contains(id));
            }
        }
        Ok(())
    }

    /// Close the session. Using the session afterwards fails instead of
    /// crashing, and a second close is rejected with `InvalidArgument`.
    pub fn close(&mut self) -> (r: Result<(), Error>)
        ensures
            old(self).open_spec() ==> {
                &&& r is Ok
                &&& !final(self).open_spec()
                &&& final(self).id_spec() == old(self).id_spec()
                &&& final(self).registered_ids() == old(self).registered_ids()
            },
            !old(self).open_spec() ==> r == Err::<(), Error>(Error::InvalidArgument)
                && *final(self) == *old(self),
    {
        if !self.open {
            return Err(Error::InvalidArgument);
        }
        self.open = false;
        Ok(())
    }
}

} // verus!
