//! The typed handle to a host object.
//!
//! An [`Obj<T>`] is the host's pointer to an object of the user-declared class `T`, and
//! nothing more: dropping it releases nothing. Through the host it reaches the object's
//! identity and the user's value that is bound to the object.

use core::marker::PhantomData;
use vstd::prelude::*;
use vstd::std_specs::convert::{FromSpec, FromSpecImpl};
use crate::class::GodotClass;
use crate::host::{Host, HostObjectView};
use crate::property_info::{PropertyInfo, PROPERTY_HINT_NONE, PROPERTY_USAGE_DEFAULT};
use crate::storage::InstanceStorage;
use crate::sys::OpaqueObject;
use crate::variant::{
    object_from_variant, object_to_variant, spec_object_from_variant, Variant, VariantType,
};

verus! {

/// A handle to a host object of class `T`. Its bytes are the bytes of the host's pointer.
pub struct Obj<T> {
    pub opaque: OpaqueObject,
    pub class: PhantomData<T>,
}

impl<T> View for Obj<T> {
    type V = OpaqueObject;

    /// The object that the handle points to.
    open spec fn view(&self) -> OpaqueObject {
        self.opaque
    }
}

/// The objects of a host after one more was constructed and bound to `user_object`.
pub open spec fn spec_new<T>(
    before: Map<OpaqueObject, HostObjectView<T>>,
    obj: OpaqueObject,
    instance_id: u64,
    class_name: String,
    user_object: T,
) -> Map<OpaqueObject, HostObjectView<T>> {
    before.insert(
        obj,
        HostObjectView { instance_id, class_name, user_instance: Some(user_object) },
    )
}

/// The user's value that is bound to an object, if the object's slot is filled.
pub open spec fn spec_inner<T>(
    objects: Map<OpaqueObject, HostObjectView<T>>,
    obj: OpaqueObject,
) -> Option<T> {
    objects[obj].user_instance
}

/// The objects of a host after the user's value of one object was replaced.
pub open spec fn spec_with_inner<T>(
    before: Map<OpaqueObject, HostObjectView<T>>,
    obj: OpaqueObject,
    user_object: T,
) -> Map<OpaqueObject, HostObjectView<T>> {
    before.insert(
        obj,
        HostObjectView {
            instance_id: before[obj].instance_id,
            class_name: before[obj].class_name,
            user_instance: Some(user_object),
        },
    )
}

/// The message for an instance id, written in `digits`, that belongs to no live object
/// of the class `class_name`.
pub open spec fn spec_invalid_instance_id_message(
    digits: Seq<char>,
    class_name: Seq<char>,
) -> Seq<char> {
    "Instance ID "@ + digits + " does not belong to a valid object of class '"@ + class_name
        + "'"@
}

impl<T: GodotClass + Default> Obj<T> {
    /// Has the host construct an object of class `T` and binds a value to it that
    /// `T::default()` hands out.
    ///
    /// The handle points to an object that was not there before; every other object
    /// stays as it was. A host that is out of pointers cannot be asked.
    pub fn new_default(host: &mut Host<T>) -> (obj: Self)
        requires
            old(host).wf(),
            !old(host).is_full(),
        ensures
            final(host).wf(),
            !obj@.is_null(),
            !old(host)@.dom().contains(obj@),
            forall|other: OpaqueObject| #[trigger]
                old(host)@.dom().contains(other) ==> old(host)@[other].instance_id
                    != final(host)@[obj@].instance_id,
            call_ensures(T::class_name, (), final(host)@[obj@].class_name),
            spec_inner(final(host)@, obj@) matches Some(user_object) && call_ensures(
                T::default,
                (),
                user_object,
            ) && final(host)@ == spec_new(
                old(host)@,
                obj@,
                final(host)@[obj@].instance_id,
                final(host)@[obj@].class_name,
                user_object,
            ),
    {
        let class_name = T::class_name();
        let ptr = host.construct_object(class_name);
        let result = Obj::from_obj_sys(ptr);

        result.storage(host).initialize_default();
        result
    }
}

impl<T: GodotClass> Obj<T> {
    /// Has the host construct an object of class `T` and binds `user_object` to it.
    ///
    /// The handle points to an object that was not there before; every other object
    /// stays as it was. A host that is out of pointers cannot be asked.
    pub fn new(host: &mut Host<T>, user_object: T) -> (obj: Self)
        requires
            old(host).wf(),
            !old(host).is_full(),
        ensures
            final(host).wf(),
            !obj@.is_null(),
            !old(host)@.dom().contains(obj@),
            forall|other: OpaqueObject| #[trigger]
                old(host)@.dom().contains(other) ==> old(host)@[other].instance_id
                    != final(host)@[obj@].instance_id,
            call_ensures(T::class_name, (), final(host)@[obj@].class_name),
            final(host)@ == spec_new(
                old(host)@,
                obj@,
                final(host)@[obj@].instance_id,
                final(host)@[obj@].class_name,
                user_object,
            ),
    {
        let class_name = T::class_name();
        let ptr = host.construct_object(class_name);
        let result = Obj::from_obj_sys(ptr);

        result.storage(host).initialize(user_object);
        result
    }

    /// The handle to the live object with the given instance id, or nothing if the host
    /// knows no such object.
    pub fn try_from_instance_id(host: &Host<T>, instance_id: u64) -> (found: Option<Self>)
        requires
            host.wf(),
        ensures
            match host.spec_instance_from_id(instance_id) {
                Some(obj) => found matches Some(handle) && handle@ == obj,
                None => found is None,
            },
    {
        let ptr = host.get_instance_from_id(instance_id);

        proof {
            host.lemma_ids_identify();
        }
        if ptr.is_null() {
            None
        } else {
            Some(Obj::from_obj_sys(ptr))
        }
    }

    /// The handle to the live object with the given instance id. An id that no live
    /// object has cannot be asked for.
    pub fn from_instance_id(host: &Host<T>, instance_id: u64) -> (obj: Self)
        requires
            host.wf(),
            host.spec_instance_from_id(instance_id) is Some,
        ensures
            host.spec_instance_from_id(instance_id) == Some(obj@),
            host.has_instance_id(obj@, instance_id),
    {
        match Self::try_from_instance_id(host, instance_id) {
            Some(obj) => obj,
            None => vstd::pervasive::unreached(),
        }
    }

    /// What to tell the user when an instance id belongs to no live object of class `T`:
    /// the id, in the digits that `u64::to_string` gives it, and the class.
    pub fn invalid_instance_id_message(instance_id: u64) -> (message: String)
        ensures
            exists|digits: String, class_name: String|
                {
                    &&& vstd::string::to_string_from_display_ensures::<u64>(&instance_id, digits)
                    &&& call_ensures(T::class_name, (), class_name)
                    &&& message@ == spec_invalid_instance_id_message(digits@, class_name@)
                },
    {
        let digits = instance_id.to_string();
        let class_name = T::class_name();
        proof {
            reveal_strlit("Instance ID ");
            reveal_strlit(" does not belong to a valid object of class '");
            reveal_strlit("'");
        }
        let message = String::from_str("Instance ID ").concat(digits.as_str()).concat(
            " does not belong to a valid object of class '",
        ).concat(class_name.as_str()).concat("'");
        assert(message@ =~= spec_invalid_instance_id_message(digits@, class_name@));
        message
    }

    fn from_opaque(opaque: OpaqueObject) -> (obj: Self)
        ensures
            obj@ == opaque,
    {
        Self { opaque, class: PhantomData }
    }

    /// The handle whose bytes are those of the object pointer `ptr`.
    pub fn from_obj_sys(ptr: OpaqueObject) -> (obj: Self)
        ensures
            obj@ == ptr,
    {
        Self::from_opaque(ptr)
    }

    /// The object pointer: what the host takes where it expects an object.
    pub fn obj_sys(&self) -> (ptr: OpaqueObject)
        ensures
            ptr == self@,
    {
        self.opaque
    }

    /// The handle's own storage: what the host takes where it expects the place of an
    /// object pointer. The bytes there are the bytes of the object pointer.
    pub fn sys(&self) -> (place: &OpaqueObject)
        ensures
            *place == self@,
    {
        &self.opaque
    }

    /// The instance id that the host gave the object.
    pub fn instance_id(&self, host: &Host<T>) -> (instance_id: u64)
        requires
            host.wf(),
            host@.dom().contains(self@),
        ensures
            instance_id == host@[self@].instance_id,
            host.has_instance_id(self@, instance_id),
    {
        host.get_instance_id(self.obj_sys())
    }

    /// The user's value that is bound to the object.
    pub fn inner<'a>(&self, host: &'a Host<T>) -> (user_object: &'a T)
        requires
            host.wf(),
            host@.dom().contains(self@),
            spec_inner(host@, self@) is Some,
        ensures
            Some(*user_object) == spec_inner(host@, self@),
    {
        host.get_instance_binding(self.obj_sys()).get()
    }

    /// The user's value that is bound to the object, for writing. The object holds
    /// whatever the caller leaves there; nothing else in the host changes.
    pub fn inner_mut<'a>(&mut self, host: &'a mut Host<T>) -> (user_object: &'a mut T)
        requires
            old(host).wf(),
            old(host)@.dom().contains(old(self)@),
            spec_inner(old(host)@, old(self)@) is Some,
        ensures
            *final(self) == *old(self),
            Some(*user_object) == spec_inner(old(host)@, old(self)@),
            final(host).wf(),
            final(host).spec_is_full() == old(host).spec_is_full(),
            final(host)@ == spec_with_inner(old(host)@, old(self)@, *final(user_object)),
    {
        self.storage(host).get_mut()
    }

    /// The binding slot of the object.
    pub fn storage<'a>(&self, host: &'a mut Host<T>) -> (storage: &'a mut InstanceStorage<T>)
        requires
            old(host).wf(),
            old(host)@.dom().contains(self@),
        ensures
            storage@ == old(host)@[self@].user_instance,
            final(host).wf(),
            final(host).spec_is_full() == old(host).spec_is_full(),
            final(host)@ == old(host)@.insert(
                self@,
                HostObjectView {
                    instance_id: old(host)@[self@].instance_id,
                    class_name: old(host)@[self@].class_name,
                    user_instance: final(storage)@,
                },
            ),
    {
        host.get_instance_binding_mut(self.obj_sys())
    }

    /// The tag of a property that holds a handle.
    pub fn variant_type() -> (tag: VariantType)
        ensures
            tag == VariantType::Object,
    {
        VariantType::Object
    }

    /// The record of a property that holds a handle to an object of class `T`: an
    /// object, of the class that `T` names, without a hint, with the default usage.
    pub fn property_info(name: &str) -> (info: PropertyInfo)
        ensures
            info.variant_type == VariantType::Object,
            info.name@ == name@,
            call_ensures(T::class_name, (), info.class_name),
            info.hint == PROPERTY_HINT_NONE,
            info.hint_string is None,
            info.usage == PROPERTY_USAGE_DEFAULT,
    {
        let property_name = String::from_str(name);
        let class_name = T::class_name();

        PropertyInfo {
            variant_type: Self::variant_type(),
            name: property_name,
            class_name,
            hint: PROPERTY_HINT_NONE,
            hint_string: None,
            usage: PROPERTY_USAGE_DEFAULT,
        }
    }
}

impl<T: GodotClass> From<&Variant> for Obj<T> {
    /// The handle behind a dynamic value, through the host's converter. A value that
    /// holds no object gives the null handle, which points to no live object.
    fn from(variant: &Variant) -> (obj: Self) {
        Obj::from_obj_sys(object_from_variant(variant))
    }
}

impl<T: GodotClass> FromSpecImpl<&Variant> for Obj<T> {
    open spec fn obeys_from_spec() -> bool {
        true
    }

    open spec fn from_spec(variant: &Variant) -> Self {
        Obj { opaque: spec_object_from_variant(*variant), class: PhantomData }
    }
}

impl<T: GodotClass> From<Obj<T>> for Variant {
    /// The dynamic value that holds the handle's object, through the host's converter.
    /// The handle is given up.
    fn from(obj: Obj<T>) -> (variant: Self) {
        object_to_variant(obj.obj_sys())
    }
}

impl<T: GodotClass> FromSpecImpl<Obj<T>> for Variant {
    open spec fn obeys_from_spec() -> bool {
        true
    }

    open spec fn from_spec(obj: Obj<T>) -> Self {
        Variant::Object(obj@)
    }
}

/// After `new(s)`, `inner()` is `s`.
pub proof fn lemma_new_then_inner<T>(
    before: Map<OpaqueObject, HostObjectView<T>>,
    obj: OpaqueObject,
    instance_id: u64,
    class_name: String,
    user_object: T,
)
    ensures
        spec_inner(spec_new(before, obj, instance_id, class_name, user_object), obj) == Some(
            user_object,
        ),
{
}

/// After `new_default()`, `inner()` is a value that `T::default()` hands out.
pub proof fn lemma_new_default_then_inner<T: Default>(
    before: Map<OpaqueObject, HostObjectView<T>>,
    obj: OpaqueObject,
    instance_id: u64,
    class_name: String,
    user_object: T,
)
    requires
        call_ensures(T::default, (), user_object),
    ensures
        spec_inner(spec_new(before, obj, instance_id, class_name, user_object), obj) matches Some(
            inner,
        ) && call_ensures(T::default, (), inner),
{
}

/// What is written through `inner_mut()` is what `inner()` reads afterwards, and the
/// object keeps its identity.
pub proof fn lemma_inner_mut_then_inner<T>(
    before: Map<OpaqueObject, HostObjectView<T>>,
    obj: OpaqueObject,
    user_object: T,
)
    ensures
        spec_inner(spec_with_inner(before, obj, user_object), obj) == Some(user_object),
        spec_with_inner(before, obj, user_object)[obj].instance_id == before[obj].instance_id,
        spec_with_inner(before, obj, user_object)[obj].class_name == before[obj].class_name,
        forall|other: OpaqueObject|
            other != obj && before.dom().contains(other) ==> #[trigger] spec_with_inner(
                before,
                obj,
                user_object,
            )[other] == before[other],
{
}

/// Constructing an object leaves the value of every other object as it was.
pub proof fn lemma_new_keeps_others<T>(
    before: Map<OpaqueObject, HostObjectView<T>>,
    obj: OpaqueObject,
    instance_id: u64,
    class_name: String,
    user_object: T,
    other: OpaqueObject,
)
    requires
        before.dom().contains(other),
        !before.dom().contains(obj),
    ensures
        spec_new(before, obj, instance_id, class_name, user_object).dom().contains(other),
        spec_new(before, obj, instance_id, class_name, user_object)[other] == before[other],
{
}

/// A handle that is turned into a dynamic value and back points to the same object.
pub proof fn lemma_variant_round_trip<T: GodotClass>(obj: Obj<T>)
    ensures
        <Obj<T> as FromSpec<&Variant>>::from_spec(
            &<Variant as FromSpec<Obj<T>>>::from_spec(obj),
        )@ == obj@,
{
}

} // verus!
