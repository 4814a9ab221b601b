//! The host, as far as handles depend on it.
//!
//! The host owns the objects. It gives each a pointer and an instance id, remembers the
//! class it was constructed as, and keeps the slot in which the extension binds its own
//! state to the object. A [`Host`] is handed to every operation that needs one; nothing
//! here is ambient. Objects are never released through this layer, so an id or a pointer
//! that the host has given out stays taken.
//!
//! The [`Host`] of this module lives in the extension's own process. It is the host that
//! handles run against where no engine is loaded, and its contracts are what the handle
//! layer takes for granted of any host.

use vstd::prelude::*;
use crate::storage::InstanceStorage;
use crate::sys::OpaqueObject;

verus! {

/// What the host knows of one object.
pub struct HostObjectView<T> {
    /// The id under which the object can be looked up.
    pub instance_id: u64,
    /// The class name the object was constructed with.
    pub class_name: String,
    /// The content of the object's binding slot.
    pub user_instance: Option<T>,
}

struct HostObject<T> {
    instance_id: u64,
    class_name: String,
    storage: InstanceStorage<T>,
}

impl<T> HostObject<T> {
    spec fn record(&self) -> HostObjectView<T> {
        HostObjectView {
            instance_id: self.instance_id,
            class_name: self.class_name,
            user_instance: self.storage@,
        }
    }
}

/// A host whose binding slots hold the state of objects of class `T`.
pub struct Host<T> {
    objects: Vec<HostObject<T>>,
}

impl<T> View for Host<T> {
    type V = Map<OpaqueObject, HostObjectView<T>>;

    /// The live objects, by pointer.
    closed spec fn view(&self) -> Map<OpaqueObject, HostObjectView<T>> {
        Map::new(
            |obj: OpaqueObject| 1 <= obj.addr <= self.objects@.len(),
            |obj: OpaqueObject| self.objects@[obj.addr - 1].record(),
        )
    }
}

impl<T> Host<T> {
    /// What every host upholds. Every host that this module hands out is well formed.
    pub closed spec fn wf(&self) -> bool {
        &&& self.objects@.len() < usize::MAX
        &&& forall|i: int|
            0 <= i < self.objects@.len() ==> (#[trigger] self.objects@[i]).instance_id == i + 1
    }

    /// Whether the host is out of pointers. It then answers a construction with null.
    pub closed spec fn spec_is_full(&self) -> bool {
        self.objects@.len() + 1 >= usize::MAX
    }

    /// Whether `obj` is a live object with instance id `instance_id`.
    pub open spec fn has_instance_id(&self, obj: OpaqueObject, instance_id: u64) -> bool {
        self@.dom().contains(obj) && self@[obj].instance_id == instance_id
    }

    /// The live object with the given instance id, if there is one.
    pub open spec fn spec_instance_from_id(&self, instance_id: u64) -> Option<OpaqueObject> {
        if exists|obj: OpaqueObject| self.has_instance_id(obj, instance_id) {
            Some(choose|obj: OpaqueObject| self.has_instance_id(obj, instance_id))
        } else {
            None
        }
    }

    /// A host without objects.
    pub fn new() -> (host: Host<T>)
        ensures
            host.wf(),
            !host.spec_is_full(),
            host@ == Map::<OpaqueObject, HostObjectView<T>>::empty(),
    {
        Host { objects: Vec::new() }
    }

    /// Whether the host is out of pointers.
    #[verifier::when_used_as_spec(spec_is_full)]
    pub fn is_full(&self) -> (full: bool)
        ensures
            full == self.spec_is_full(),
    {
        self.objects.len() >= usize::MAX - 1
    }

    /// Whether `obj` points to a live object.
    pub fn is_live(&self, obj: OpaqueObject) -> (live: bool)
        ensures
            live == self@.dom().contains(obj),
    {
        1 <= obj.addr && obj.addr <= self.objects.len()
    }

    /// Constructs an object of the named class, with an empty binding slot.
    ///
    /// The answer is a pointer and an id that no live object has. A host that is out of
    /// pointers answers null and stays as it was.
    pub fn construct_object(&mut self, class_name: String) -> (obj: OpaqueObject)
        requires
            old(self).wf(),
        ensures
            final(self).wf(),
            obj.is_null() <==> old(self).spec_is_full(),
            obj.is_null() ==> final(self)@ == old(self)@,
            !obj.is_null() ==> {
                &&& !old(self)@.dom().contains(obj)
                &&& final(self)@.dom().contains(obj)
                &&& forall|other: OpaqueObject| #[trigger]
                    old(self)@.dom().contains(other) ==> old(self)@[other].instance_id
                        != final(self)@[obj].instance_id
                &&& final(self)@ == old(self)@.insert(
                    obj,
                    HostObjectView {
                        instance_id: final(self)@[obj].instance_id,
                        class_name,
                        user_instance: None,
                    },
                )
            },
    {
        let count = self.objects.len();
        if count >= usize::MAX - 1 {
            return OpaqueObject::null();
        }
        let addr = count + 1;
        let obj = OpaqueObject { addr };
        self.objects.push(
            HostObject { instance_id: addr as u64, class_name, storage: InstanceStorage::new() },
        );
        proof {
            let record = HostObjectView {
                instance_id: self@[obj].instance_id,
                class_name,
                user_instance: None::<T>,
            };
            assert(self@ =~= old(self)@.insert(obj, record));
        }
        obj
    }

    /// Looks an object up by its instance id. The answer is null if no live object has
    /// the id.
    pub fn get_instance_from_id(&self, instance_id: u64) -> (obj: OpaqueObject)
        requires
            self.wf(),
        ensures
            match self.spec_instance_from_id(instance_id) {
                Some(found) => obj == found,
                None => obj.is_null(),
            },
            !obj.is_null() ==> self.has_instance_id(obj, instance_id),
    {
        if 1 <= instance_id && instance_id <= self.objects.len() as u64 {
            let obj = OpaqueObject { addr: instance_id as usize };
            proof {
                assert(self.has_instance_id(obj, instance_id));
                self.lemma_instance_id_round_trip(obj);
            }
            obj
        } else {
            assert(forall|obj: OpaqueObject| !self.has_instance_id(obj, instance_id));
            OpaqueObject::null()
        }
    }

    /// The instance id of a live object.
    pub fn get_instance_id(&self, obj: OpaqueObject) -> (instance_id: u64)
        requires
            self.wf(),
            self@.dom().contains(obj),
        ensures
            instance_id == self@[obj].instance_id,
    {
        self.objects[obj.addr - 1].instance_id
    }

    /// The binding slot of a live object.
    pub fn get_instance_binding(&self, obj: OpaqueObject) -> (storage: &InstanceStorage<T>)
        requires
            self.wf(),
            self@.dom().contains(obj),
        ensures
            storage@ == self@[obj].user_instance,
    {
        &self.objects[obj.addr - 1].storage
    }

    /// The binding slot of a live object, for writing. The object keeps its id and its
    /// class; every other object stays as it is.
    pub fn get_instance_binding_mut(&mut self, obj: OpaqueObject) -> (storage:
        &mut InstanceStorage<T>)
        requires
            old(self).wf(),
            old(self)@.dom().contains(obj),
        ensures
            storage@ == old(self)@[obj].user_instance,
            final(self).wf(),
            final(self).spec_is_full() == old(self).spec_is_full(),
            final(self)@ == old(self)@.insert(
                obj,
                HostObjectView {
                    instance_id: old(self)@[obj].instance_id,
                    class_name: old(self)@[obj].class_name,
                    user_instance: final(storage)@,
                },
            ),
    {
        &mut self.objects[obj.addr - 1].storage
    }

    /// No live object is behind the null pointer, and no two live objects share an
    /// instance id.
    pub proof fn lemma_ids_identify(&self)
        requires
            self.wf(),
        ensures
            forall|obj: OpaqueObject| #[trigger] self@.dom().contains(obj) ==> !obj.is_null(),
            forall|a: OpaqueObject, b: OpaqueObject|
                self@.dom().contains(a) && self@.dom().contains(b) && #[trigger] self@[a].instance_id
                    == #[trigger] self@[b].instance_id ==> a == b,
    {
    }

    /// Looking up the instance id of a live object finds that object.
    pub proof fn lemma_instance_id_round_trip(&self, obj: OpaqueObject)
        requires
            self.wf(),
            self@.dom().contains(obj),
        ensures
            self.spec_instance_from_id(self@[obj].instance_id) == Some(obj),
    {
        let instance_id = self@[obj].instance_id;
        assert(self.has_instance_id(obj, instance_id));
        let found = choose|found: OpaqueObject| self.has_instance_id(found, instance_id);
        assert(self.has_instance_id(found, instance_id));
        assert(found.addr == obj.addr);
    }

    /// Looking up an id that no live object has finds nothing.
    pub proof fn lemma_unused_id_finds_nothing(&self, instance_id: u64)
        requires
            forall|obj: OpaqueObject| #[trigger]
                self@.dom().contains(obj) ==> self@[obj].instance_id != instance_id,
        ensures
            self.spec_instance_from_id(instance_id) is None,
    {
    }
}

} // verus!
