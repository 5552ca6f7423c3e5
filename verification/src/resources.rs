//! The resource capability: identity, initialization state, safe handle
//! projection, destruction and dependency declaration, implemented by every
//! native-backed resource kind, plus the closed set of kinds for
//! heterogeneous storage with safe downcasting.

use vstd::prelude::*;
use crate::{Error, VaccelId, VACCEL_OK};
use crate::backend::Backend;
use crate::torch::SavedModel;

verus! {

/// Owning projection of a live native resource: it carries the id under
/// which the backend knows the resource. A wrapper holds at most one, and
/// gives it up when the resource is destroyed, so a destroyed resource can
/// never yield a handle.
#[derive(Clone, Copy, Debug, PartialEq, Eq, Structural)]
pub struct VaccelHandle {
    /// The backend-assigned id of the resource this handle projects.
    pub id: VaccelId,
}

/// Capability implemented by every native-backed resource kind: identity,
/// initialization state, handle projection, teardown and dependency
/// declaration. Destruction is idempotent: destroying an uninitialized
/// resource is a no-op, never a double free.
pub trait Resource: Sized {
    /// The resource's id: the backend-assigned id while initialized, the
    /// sentinel `0` before creation and after destruction.
    spec fn id_spec(self) -> VaccelId;

    /// Whether the native creation call has succeeded and the resource has
    /// not been destroyed since.
    spec fn initialized_spec(self) -> bool;

    /// The id of the resource.
    fn id(&self) -> (r: VaccelId)
        ensures
            r == self.id_spec(),
    ;

    /// Whether the resource is initialized.
    fn initialized(&self) -> (r: bool)
        ensures
            r == self.initialized_spec(),
    ;

    /// Project the native handle: present exactly while the resource is
    /// initialized, so callers can check before use instead of reaching a
    /// dead handle.
    fn to_vaccel(&self) -> (r: Option<VaccelHandle>)
        ensures
            match r {
                Some(h) => self.initialized_spec() && h.id == self.id_spec(),
                None => !self.initialized_spec(),
            },
    ;

    /// Tear the resource down. On an uninitialized resource this is a
    /// no-op, so a second destroy after a successful one never double-frees.
    /// On success the resource stops being initialized and its id stops
    /// being live; on backend failure the status is surfaced as `Runtime`
    /// and nothing changes.
    fn destroy(&mut self, backend: &mut Backend) -> (r: Result<(), Error>)
        requires
            old(backend).wf(),
        ensures
            final(backend).wf(),
            !old(self).initialized_spec() ==> r is Ok && *final(self) == *old(self)
                && *final(backend) == *old(backend),
            old(self).initialized_spec() && old(backend).is_live_spec(old(self).id_spec()) ==> {
                &&& r is Ok
                &&& !final(self).initialized_spec()
                &&& final(self).id_spec() == 0
                &&& !final(backend).is_live_spec(old(self).id_spec())
                &&& forall|x: i64|
                    x != old(self).id_spec()
                        ==> final(backend).is_live_spec(x) == old(backend).is_live_spec(x)
                &&& final(backend).live_ids().len() == old(backend).live_ids().len() - 1
                &&& final(backend).next_id_spec() == old(backend).next_id_spec()
                &&& final(backend).dep_record() == old(backend).dep_record()
            },
            old(self).initialized_spec() && !old(backend).is_live_spec(old(self).id_spec()) ==> {
                &&& r == Err::<(), Error>(Error::Runtime(crate::VACCEL_EINVAL))
                &&& *final(self) == *old(self)
                &&& *final(backend) == *old(backend)
            },
    ;

    /// Declare the resources named by `deps` as dependencies of this one.
    /// Rejected with `InvalidArgument` when the resource has no valid
    /// handle. An empty list succeeds as a no-op. Otherwise the exact list
    /// is recorded by the backend, which rejects any id it does not know as
    /// a live resource; that failure is surfaced as `Runtime` and leaves
    /// everything unchanged.
    fn set_deps(&self, backend: &mut Backend, deps: &Vec<i64>) -> (r: Result<(), Error>)
        requires
            old(backend).wf(),
        ensures
            final(backend).wf(),
            !self.initialized_spec() ==> r == Err::<(), Error>(Error::InvalidArgument)
                && *final(backend) == *old(backend),
            self.initialized_spec() && deps@.len() == 0 ==> r is Ok
                && *final(backend) == *old(backend),
            self.initialized_spec() && deps@.len() > 0 && old(backend).is_live_spec(self.id_spec())
                && (forall|j: int|
                    0 <= j < deps@.len() ==> old(backend).is_live_spec(#[trigger] deps@[j]))
                ==> {
                &&& r is Ok
                &&& final(backend).dep_record()
                    == old(backend).dep_record().insert(self.id_spec(), deps@)
                &&& final(backend).live_ids() == old(backend).live_ids()
                &&& final(backend).next_id_spec() == old(backend).next_id_spec()
            },
            self.initialized_spec() && deps@.len() > 0 && !(old(backend).is_live_spec(
                self.id_spec(),
            ) && (forall|j: int|
                0 <= j < deps@.len() ==> old(backend).is_live_spec(#[trigger] deps@[j]))) ==> {
                &&& r == Err::<(), Error>(Error::Runtime(crate::VACCEL_EINVAL))
                &&& *final(backend) == *old(backend)
            },
    {
        let resource = match self.to_vaccel() {
            Some(h) => h,
            None => {
                return Err(Error::InvalidArgument);
            },
        };
        let status = backend.set_deps_from_ids(resource.id, deps);
        if status == VACCEL_OK {
            Ok(())
        } else {
            Err(Error::Runtime(status))
        }
    }
}

/// Resource kind wrapping a shared library object loaded by the backend.
pub struct SharedObject {
    handle: Option<VaccelHandle>,
}

impl SharedObject {
    /// Create a shared-object resource from the path of a library file.
    /// An empty path is rejected with `InvalidArgument` before the backend
    /// is reached; otherwise the backend assigns a fresh id and the
    /// resource comes back initialized, or its failure is surfaced as
    /// `Runtime`.
    pub fn from_file(backend: &mut Backend, path: &str) -> (r: Result<SharedObject, Error>)
        requires
            old(backend).wf(),
        ensures
            final(backend).wf(),
            path@.len() == 0 ==> r == Err::<SharedObject, Error>(Error::InvalidArgument)
                && *final(backend) == *old(backend),
            path@.len() > 0 && old(backend).next_id_spec() < i64::MAX ==> r is Ok && {
                let o = r->Ok_0;
                &&& o.initialized_spec()
                &&& o.id_spec() == old(backend).next_id_spec()
                &&& final(backend).is_live_spec(o.id_spec())
                &&& final(backend).live_ids() == old(backend).live_ids().push(o.id_spec())
                &&& final(backend).next_id_spec() == old(backend).next_id_spec() + 1
                &&& final(backend).dep_record() == old(backend).dep_record()
            },
            path@.len() > 0 && old(backend).next_id_spec() == i64::MAX ==> {
                &&& r == Err::<SharedObject, Error>(Error::Runtime(crate::VACCEL_ENOMEM))
                &&& *final(backend) == *old(backend)
            },
    {
        if path.unicode_len() == 0 {
            return Err(Error::InvalidArgument);
        }
        match backend.create_resource() {
            Ok(id) => {
                proof {
                    let l = backend.live_ids();
                    assert(l[l.len() - 1] == id);
                    assert(l.contains(id));
                }
                Ok(SharedObject { handle: Some(VaccelHandle { id }) })
            },
            Err(code) => Err(Error::Runtime(code)),
        }
    }
}

impl Resource for SharedObject {
    closed spec fn id_spec(self) -> VaccelId {
        match self.handle {
            Some(h) => h.id,
            None => 0,
        }
    }

    closed spec fn initialized_spec(self) -> bool {
        self.handle is Some
    }

    fn id(&self) -> (r: VaccelId) {
        match self.handle {
            Some(h) => h.id,
            None => 0,
        }
    }

    fn initialized(&self) -> (r: bool) {
        self.handle.is_some()
    }

    fn to_vaccel(&self) -> (r: Option<VaccelHandle>) {
        self.handle
    }

    fn destroy(&mut self, backend: &mut Backend) -> (r: Result<(), Error>) {
        match self.handle {
            None => Ok(()),
            Some(h) => {
                let status = backend.destroy_resource(h.id);
                if status == VACCEL_OK {
                    self.handle = None;
                    Ok(())
                } else {
                    Err(Error::Runtime(status))
                }
            },
        }
    }
}

/// Resource kind wrapping one generic model given to the backend as a flat
/// byte buffer.
pub struct SingleModel {
    handle: Option<VaccelHandle>,
}

impl SingleModel {
    /// Create a single-model resource from the raw bytes of a model.
    /// An empty buffer is rejected with `InvalidArgument` before the
    /// backend is reached; otherwise the backend assigns a fresh id and the
    /// resource comes back initialized, or its failure is surfaced as
    /// `Runtime`.
    pub fn from_buffer(backend: &mut Backend, bytes: &Vec<u8>) -> (r: Result<SingleModel, Error>)
        requires
            old(backend).wf(),
        ensures
            final(backend).wf(),
            bytes@.len() == 0 ==> r == Err::<SingleModel, Error>(Error::InvalidArgument)
                && *final(backend) == *old(backend),
            bytes@.len() > 0 && old(backend).next_id_spec() < i64::MAX ==> r is Ok && {
                let m = r->Ok_0;
                &&& m.initialized_spec()
                &&& m.id_spec() == old(backend).next_id_spec()
                &&& final(backend).is_live_spec(m.id_spec())
                &&& final(backend).live_ids() == old(backend).live_ids().push(m.id_spec())
                &&& final(backend).next_id_spec() == old(backend).next_id_spec() + 1
                &&& final(backend).dep_record() == old(backend).dep_record()
            },
            bytes@.len() > 0 && old(backend).next_id_spec() == i64::MAX ==> {
                &&& r == Err::<SingleModel, Error>(Error::Runtime(crate::VACCEL_ENOMEM))
                &&& *final(backend) == *old(backend)
            },
    {
        if bytes.len() == 0 {
            return Err(Error::InvalidArgument);
        }
        match backend.create_resource() {
            Ok(id) => {
                proof {
                    let l = backend.live_ids();
                    assert(l[l.len() - 1] == id);
                    assert(l.contains(id));
                }
                Ok(SingleModel { handle: Some(VaccelHandle { id }) })
            },
            Err(code) => Err(Error::Runtime(code)),
        }
    }
}

impl Resource for SingleModel {
    closed spec fn id_spec(self) -> VaccelId {
        match self.handle {
            Some(h) => h.id,
            None => 0,
        }
    }

    closed spec fn initialized_spec(self) -> bool {
        self.handle is Some
    }

    fn id(&self) -> (r: VaccelId) {
        match self.handle {
            Some(h) => h.id,
            None => 0,
        }
    }

    fn initialized(&self) -> (r: bool) {
        self.handle.is_some()
    }

    fn to_vaccel(&self) -> (r: Option<VaccelHandle>) {
        self.handle
    }

    fn destroy(&mut self, backend: &mut Backend) -> (r: Result<(), Error>) {
        match self.handle {
            None => Ok(()),
            Some(h) => {
                let status = backend.destroy_resource(h.id);
                if status == VACCEL_OK {
                    self.handle = None;
                    Ok(())
                } else {
                    Err(Error::Runtime(status))
                }
            },
        }
    }
}

/// The closed set of resource kinds, for storage in heterogeneous
/// collections. Downcasting to a concrete kind is a safe try-cast that
/// answers `None` on a kind mismatch instead of casting unchecked.
pub enum AnyResource {
    SharedObject(SharedObject),
    SingleModel(SingleModel),
    SavedModel(SavedModel),
}

impl AnyResource {
    /// Downcast to a shared object; `None` if another kind is stored.
    pub fn as_shared_object(&self) -> (r: Option<&SharedObject>)
        ensures
            r is Some <==> self is SharedObject,
            r matches Some(o) ==> *o == self->SharedObject_0,
    {
        match self {
            AnyResource::SharedObject(o) => Some(o),
            _ => None,
        }
    }

    /// Downcast to a single model; `None` if another kind is stored.
    pub fn as_single_model(&self) -> (r: Option<&SingleModel>)
        ensures
            r is Some <==> self is SingleModel,
            r matches Some(m) ==> *m == self->SingleModel_0,
    {
        match self {
            AnyResource::SingleModel(m) => Some(m),
            _ => None,
        }
    }

    /// Downcast to a saved model; `None` if another kind is stored.
    pub fn as_saved_model(&self) -> (r: Option<&SavedModel>)
        ensures
            r is Some <==> self is SavedModel,
            r matches Some(m) ==> *m == self->SavedModel_0,
    {
        match self {
            AnyResource::SavedModel(m) => Some(m),
            _ => None,
        }
    }
}

impl Resource for AnyResource {
    closed spec fn id_spec(self) -> VaccelId {
        match self {
            AnyResource::SharedObject(o) => o.id_spec(),
            AnyResource::SingleModel(m) => m.id_spec(),
            AnyResource::SavedModel(m) => m.id_spec(),
        }
    }

    closed spec fn initialized_spec(self) -> bool {
        match self {
            AnyResource::SharedObject(o) => o.initialized_spec(),
            AnyResource::SingleModel(m) => m.initialized_spec(),
            AnyResource::SavedModel(m) => m.initialized_spec(),
        }
    }

    fn id(&self) -> (r: VaccelId) {
        match self {
            AnyResource::SharedObject(o) => o.id(),
            AnyResource::SingleModel(m) => m.id(),
            AnyResource::SavedModel(m) => m.id(),
        }
    }

    fn initialized(&self) -> (r: bool) {
        match self {
            AnyResource::SharedObject(o) => o.initialized(),
            AnyResource::SingleModel(m) => m.initialized(),
            AnyResource::SavedModel(m) => m.initialized(),
        }
    }

    fn to_vaccel(&self) -> (r: Option<VaccelHandle>) {
        match self {
            AnyResource::SharedObject(o) => o.to_vaccel(),
            AnyResource::SingleModel(m) => m.to_vaccel(),
            AnyResource::SavedModel(m) => m.to_vaccel(),
        }
    }

    fn destroy(&mut self, backend: &mut Backend) -> (r: Result<(), Error>) {
        match self {
            AnyResource::SharedObject(o) => o.destroy(backend),
            AnyResource::SingleModel(m) => m.destroy(backend),
            AnyResource::SavedModel(m) => m.destroy(backend),
        }
    }
}

} // verus!
