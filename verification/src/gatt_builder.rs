//! Building the attributes of a Bluedroid GATT server: descriptors,
//! characteristics and profiles, with their names, permissions, properties,
//! values and which callbacks they take, and the view of them that the event
//! router works on.
//!
//! The callbacks themselves stay with the embedding application: a builder
//! records whether one was taken, which decides how the stack answers reads
//! and which writes are routed to the application.

use vstd::prelude::*;
use vstd::string::StringSliceAdditionalSpecFns;
use vstd::utf8::encode_utf8;

use crate::ble::{AttributePermissions, CharacteristicProperties, PropertyFlags, CCCD_UUID16};
use crate::gatt::{AttrEntry, AttrUuid, CharacteristicEntry, ProfileEntry, ServiceEntry};
use crate::gatt_server::{user_description, CharacteristicValue, DescriptorValue, USER_DESCRIPTION_UUID16};
use crate::text::push_str;

verus! {

/// A copy of a string slice.
fn owned(s: &str) -> (r: String)
    ensures
        r@ == s@,
{
    let mut r = String::new();
    push_str(&mut r, s);
    r
}

/// A GATT descriptor.
pub struct Descriptor {
    name: Option<String>,
    uuid: AttrUuid,
    permissions: AttributePermissions,
    value: DescriptorValue,
    response_by_app: bool,
    has_write_callback: bool,
}

impl Descriptor {
    /// The name, used for debugging only.
    pub closed spec fn spec_name(self) -> Option<Seq<char>> {
        match self.name {
            Some(n) => Some(n@),
            None => None,
        }
    }

    /// The UUID.
    pub closed spec fn spec_uuid(self) -> AttrUuid {
        self.uuid
    }

    /// The access permissions.
    pub closed spec fn spec_permissions(self) -> AttributePermissions {
        self.permissions
    }

    /// The value.
    pub closed spec fn spec_value(self) -> Seq<u8> {
        self.value.spec_value()
    }

    /// The handle the stack assigned, once registered.
    pub closed spec fn spec_handle(self) -> Option<u16> {
        self.value.spec_handle()
    }

    /// Whether reads are answered by the application's read callback.
    pub closed spec fn spec_response_by_app(self) -> bool {
        self.response_by_app
    }

    /// Whether a write callback is installed.
    pub closed spec fn spec_has_write_callback(self) -> bool {
        self.has_write_callback
    }

    /// A descriptor with the given UUID: no name, no access, the value a
    /// single zero byte answered automatically, no callbacks, not registered.
    pub fn new(uuid: AttrUuid) -> (d: Self)
        ensures
            d.spec_name() is None,
            d.spec_uuid() == uuid,
            d.spec_permissions() == (AttributePermissions { read_access: false, write_access: false, encryption_required: false }),
            d.spec_value() == seq![0u8],
            d.spec_handle() is None,
            !d.spec_response_by_app(),
            !d.spec_has_write_callback(),
    {
        Descriptor {
            name: None,
            uuid,
            permissions: AttributePermissions::new(),
            value: DescriptorValue::new(),
            response_by_app: false,
            has_write_callback: false,
        }
    }

    /// Sets the name.
    pub fn name(&mut self, name: &str)
        ensures
            final(self).spec_name() == Some(name@),
            final(self).spec_uuid() == old(self).spec_uuid(),
            final(self).spec_permissions() == old(self).spec_permissions(),
            final(self).spec_value() == old(self).spec_value(),
            final(self).spec_handle() == old(self).spec_handle(),
            final(self).spec_response_by_app() == old(self).spec_response_by_app(),
            final(self).spec_has_write_callback() == old(self).spec_has_write_callback(),
    {
        self.name = Some(owned(name));
    }

    /// Sets the access permissions.
    pub fn permissions(&mut self, permissions: AttributePermissions)
        ensures
            final(self).spec_permissions() == permissions,
            final(self).spec_name() == old(self).spec_name(),
            final(self).spec_uuid() == old(self).spec_uuid(),
            final(self).spec_value() == old(self).spec_value(),
            final(self).spec_handle() == old(self).spec_handle(),
            final(self).spec_response_by_app() == old(self).spec_response_by_app(),
            final(self).spec_has_write_callback() == old(self).spec_has_write_callback(),
    {
        self.permissions = permissions;
    }

    /// Takes a read callback: accepted, and reads then answered by the
    /// application, exactly when the permissions allow reads; otherwise the
    /// callback is ignored.
    pub fn on_read(&mut self) -> (accepted: bool)
        ensures
            accepted == old(self).spec_permissions().read_access,
            final(self).spec_response_by_app() == (old(self).spec_response_by_app() || accepted),
            final(self).spec_name() == old(self).spec_name(),
            final(self).spec_uuid() == old(self).spec_uuid(),
            final(self).spec_permissions() == old(self).spec_permissions(),
            final(self).spec_value() == old(self).spec_value(),
            final(self).spec_handle() == old(self).spec_handle(),
            final(self).spec_has_write_callback() == old(self).spec_has_write_callback(),
    {
        if !self.permissions.read_access {
            return false;
        }
        self.response_by_app = true;
        true
    }

    /// Takes a write callback: accepted exactly when the permissions allow
    /// writes; otherwise the callback is ignored.
    pub fn on_write(&mut self) -> (accepted: bool)
        ensures
            accepted == old(self).spec_permissions().write_access,
            final(self).spec_has_write_callback() == (old(self).spec_has_write_callback() || accepted),
            final(self).spec_name() == old(self).spec_name(),
            final(self).spec_uuid() == old(self).spec_uuid(),
            final(self).spec_permissions() == old(self).spec_permissions(),
            final(self).spec_value() == old(self).spec_value(),
            final(self).spec_handle() == old(self).spec_handle(),
            final(self).spec_response_by_app() == old(self).spec_response_by_app(),
    {
        if !self.permissions.write_access {
            return false;
        }
        self.has_write_callback = true;
        true
    }

    /// Records the handle the stack assigned.
    pub fn registered(&mut self, handle: u16)
        ensures
            final(self).spec_handle() == Some(handle),
            final(self).spec_value() == old(self).spec_value(),
            final(self).spec_name() == old(self).spec_name(),
            final(self).spec_uuid() == old(self).spec_uuid(),
            final(self).spec_permissions() == old(self).spec_permissions(),
            final(self).spec_response_by_app() == old(self).spec_response_by_app(),
            final(self).spec_has_write_callback() == old(self).spec_has_write_callback(),
    {
        self.value.registered(handle);
    }

    /// Replaces the value. Returns the handle under which the stack's copy
    /// is to be updated, if the descriptor is registered.
    pub fn set_value(&mut self, value: Vec<u8>) -> (push: Option<u16>)
        ensures
            final(self).spec_value() == value@,
            push == old(self).spec_handle(),
            final(self).spec_handle() == old(self).spec_handle(),
            final(self).spec_name() == old(self).spec_name(),
            final(self).spec_uuid() == old(self).spec_uuid(),
            final(self).spec_permissions() == old(self).spec_permissions(),
            final(self).spec_response_by_app() == old(self).spec_response_by_app(),
            final(self).spec_has_write_callback() == old(self).spec_has_write_callback(),
    {
        self.value.set_value(value)
    }

    /// The "User Description" descriptor (UUID `0x2901`) for
    /// `description`: read-only, with the description's UTF-8 bytes as its
    /// value.
    pub fn user_description(description: &str) -> (d: Self)
        ensures
            d.spec_name() == Some("User Description"@),
            d.spec_uuid() == AttrUuid::Uuid16(USER_DESCRIPTION_UUID16),
            d.spec_permissions() == (AttributePermissions {
                read_access: true,
                write_access: false,
                encryption_required: false,
            }),
            d.spec_value() == description.spec_bytes(),
            d.spec_handle() is None,
            !d.spec_response_by_app(),
            !d.spec_has_write_callback(),
    {
        let (uuid16, permissions, value) = user_description(description);
        Descriptor {
            name: Some(owned("User Description")),
            uuid: AttrUuid::Uuid16(uuid16),
            permissions,
            value,
            response_by_app: false,
            has_write_callback: false,
        }
    }

    /// The Client Characteristic Configuration descriptor (UUID `0x2902`):
    /// readable and writable, its reads answered and its writes taken by the
    /// application, which keeps each client's value (see `CccdStore` and
    /// `cccd_stored_answer`).
    pub fn cccd() -> (d: Self)
        ensures
            d.spec_name() == Some("Client Characteristic Configuration"@),
            d.spec_uuid() == AttrUuid::Uuid16(CCCD_UUID16),
            d.spec_permissions() == (AttributePermissions {
                read_access: true,
                write_access: true,
                encryption_required: false,
            }),
            d.spec_value() == seq![0u8],
            d.spec_handle() is None,
            d.spec_response_by_app(),
            d.spec_has_write_callback(),
    {
        let mut d = Descriptor::new(AttrUuid::Uuid16(CCCD_UUID16));
        d.name("Client Characteristic Configuration");
        d.permissions(AttributePermissions::new().read().write());
        d.on_read();
        d.on_write();
        d
    }

    /// The descriptor as the event router sees it.
    pub open spec fn spec_entry(self) -> AttrEntry {
        AttrEntry {
            uuid: self.spec_uuid(),
            handle: self.spec_handle(),
            has_write_callback: self.spec_has_write_callback(),
            response_by_app: self.spec_response_by_app(),
        }
    }

    /// The descriptor as the event router sees it (see `spec_entry`).
    pub fn entry(&self) -> (e: AttrEntry)
        ensures
            e == self.spec_entry(),
    {
        AttrEntry {
            uuid: self.uuid,
            handle: self.value.handle(),
            has_write_callback: self.has_write_callback,
            response_by_app: self.response_by_app,
        }
    }
}

/// A GATT characteristic.
pub struct Characteristic {
    name: Option<String>,
    uuid: AttrUuid,
    permissions: AttributePermissions,
    properties: CharacteristicProperties,
    value: CharacteristicValue,
    response_by_app: bool,
    has_write_callback: bool,
    descriptors: Vec<Descriptor>,
}

impl Characteristic {
    /// The name, used for debugging only.
    pub closed spec fn spec_name(self) -> Option<Seq<char>> {
        match self.name {
            Some(n) => Some(n@),
            None => None,
        }
    }

    /// The UUID.
    pub closed spec fn spec_uuid(self) -> AttrUuid {
        self.uuid
    }

    /// The access permissions.
    pub closed spec fn spec_permissions(self) -> AttributePermissions {
        self.permissions
    }

    /// The properties announced.
    pub closed spec fn spec_properties(self) -> CharacteristicProperties {
        self.properties
    }

    /// The value and the limits on its length.
    pub closed spec fn spec_value_state(self) -> CharacteristicValue {
        self.value
    }

    /// Whether reads are answered by the application's read callback rather
    /// than automatically with the value.
    pub closed spec fn spec_response_by_app(self) -> bool {
        self.response_by_app
    }

    /// Whether a write callback is installed.
    pub closed spec fn spec_has_write_callback(self) -> bool {
        self.has_write_callback
    }

    /// The descriptors, in the order they were added.
    pub closed spec fn spec_descriptors(self) -> Seq<Descriptor> {
        self.descriptors@
    }

    /// Whether `c` differs from `self` at most in the value state, the
    /// response mode and the write callback.
    pub open spec fn same_shape(self, c: Characteristic) -> bool {
        &&& c.spec_name() == self.spec_name()
        &&& c.spec_uuid() == self.spec_uuid()
        &&& c.spec_permissions() == self.spec_permissions()
        &&& c.spec_properties() == self.spec_properties()
        &&& c.spec_descriptors() == self.spec_descriptors()
    }

    /// A characteristic with the given UUID: no name, no access, no
    /// property, the value of `CharacteristicValue::new` answered
    /// automatically, no callbacks, no descriptors.
    pub fn new(uuid: AttrUuid) -> (c: Self)
        ensures
            c.spec_name() is None,
            c.spec_uuid() == uuid,
            c.spec_permissions() == (AttributePermissions { read_access: false, write_access: false, encryption_required: false }),
            c.spec_properties().flags() == (PropertyFlags {
                broadcast: false, read: false, write_without_response: false, write: false,
                notify: false, indicate: false, authenticated_signed_writes: false, extended_properties: false,
            }),
            c.spec_value_state().spec_value() == seq![0u8],
            c.spec_value_state().spec_max_value_length() is None,
            !c.spec_value_state().spec_value_set(),
            c.spec_value_state().spec_handle() is None,
            !c.spec_response_by_app(),
            !c.spec_has_write_callback(),
            c.spec_descriptors() == Seq::<Descriptor>::empty(),
    {
        Characteristic {
            name: None,
            uuid,
            permissions: AttributePermissions::new(),
            properties: CharacteristicProperties::new(),
            value: CharacteristicValue::new(),
            response_by_app: false,
            has_write_callback: false,
            descriptors: Vec::new(),
        }
    }

    /// Adds a descriptor.
    pub fn descriptor(&mut self, descriptor: Descriptor)
        ensures
            final(self).spec_descriptors() == old(self).spec_descriptors().push(descriptor),
            final(self).spec_name() == old(self).spec_name(),
            final(self).spec_uuid() == old(self).spec_uuid(),
            final(self).spec_permissions() == old(self).spec_permissions(),
            final(self).spec_properties() == old(self).spec_properties(),
            final(self).spec_value_state() == old(self).spec_value_state(),
            final(self).spec_response_by_app() == old(self).spec_response_by_app(),
            final(self).spec_has_write_callback() == old(self).spec_has_write_callback(),
    {
        self.descriptors.push(descriptor);
    }

    /// Sets the name.
    pub fn name(&mut self, name: &str)
        ensures
            final(self).spec_name() == Some(name@),
            final(self).spec_uuid() == old(self).spec_uuid(),
            final(self).spec_permissions() == old(self).spec_permissions(),
            final(self).spec_properties() == old(self).spec_properties(),
            final(self).spec_descriptors() == old(self).spec_descriptors(),
            final(self).spec_value_state() == old(self).spec_value_state(),
            final(self).spec_response_by_app() == old(self).spec_response_by_app(),
            final(self).spec_has_write_callback() == old(self).spec_has_write_callback(),
    {
        self.name = Some(owned(name));
    }

    /// Sets the access permissions.
    pub fn permissions(&mut self, permissions: AttributePermissions)
        ensures
            final(self).spec_permissions() == permissions,
            final(self).spec_name() == old(self).spec_name(),
            final(self).spec_uuid() == old(self).spec_uuid(),
            final(self).spec_properties() == old(self).spec_properties(),
            final(self).spec_descriptors() == old(self).spec_descriptors(),
            final(self).spec_value_state() == old(self).spec_value_state(),
            final(self).spec_response_by_app() == old(self).spec_response_by_app(),
            final(self).spec_has_write_callback() == old(self).spec_has_write_callback(),
    {
        self.permissions = permissions;
    }

    /// Sets the properties announced.
    pub fn properties(&mut self, properties: CharacteristicProperties)
        ensures
            final(self).spec_properties() == properties,
            final(self).spec_name() == old(self).spec_name(),
            final(self).spec_uuid() == old(self).spec_uuid(),
            final(self).spec_permissions() == old(self).spec_permissions(),
            final(self).spec_descriptors() == old(self).spec_descriptors(),
            final(self).spec_value_state() == old(self).spec_value_state(),
            final(self).spec_response_by_app() == old(self).spec_response_by_app(),
            final(self).spec_has_write_callback() == old(self).spec_has_write_callback(),
    {
        self.properties = properties;
    }

    /// Sets the maximum length of the value (by default the length of the
    /// latest value set before the registration, or 8 bytes).
    pub fn max_value_length(&mut self, length: u16)
        ensures
            final(self).spec_value_state().spec_max_value_length() == Some(length),
            final(self).spec_value_state().spec_value() == old(self).spec_value_state().spec_value(),
            final(self).spec_value_state().spec_value_set() == old(self).spec_value_state().spec_value_set(),
            final(self).spec_value_state().spec_handle() == old(self).spec_value_state().spec_handle(),
            final(self).spec_value_state().spec_registered_max() == old(self).spec_value_state().spec_registered_max(),
            old(self).same_shape(*final(self)),
            final(self).spec_response_by_app() == old(self).spec_response_by_app(),
            final(self).spec_has_write_callback() == old(self).spec_has_write_callback(),
    {
        self.value.max_value_length(length);
    }

    /// Takes a read callback: accepted, and reads then answered by the
    /// application, exactly when the characteristic announces reads and its
    /// permissions allow them; otherwise the callback is ignored.
    pub fn on_read(&mut self) -> (accepted: bool)
        ensures
            accepted == (old(self).spec_properties().flags().read && old(self).spec_permissions().read_access),
            final(self).spec_response_by_app() == (old(self).spec_response_by_app() || accepted),
            old(self).same_shape(*final(self)),
            final(self).spec_value_state() == old(self).spec_value_state(),
            final(self).spec_has_write_callback() == old(self).spec_has_write_callback(),
    {
        if !(self.properties.is_read() && self.permissions.read_access) {
            return false;
        }
        self.response_by_app = true;
        true
    }

    /// Takes a write callback: accepted exactly when the characteristic
    /// announces writes (with or without response) and its permissions
    /// allow them; otherwise the callback is ignored.
    pub fn on_write(&mut self) -> (accepted: bool)
        ensures
            accepted == ((old(self).spec_properties().flags().write
                || old(self).spec_properties().flags().write_without_response)
                && old(self).spec_permissions().write_access),
            final(self).spec_has_write_callback() == (old(self).spec_has_write_callback() || accepted),
            old(self).same_shape(*final(self)),
            final(self).spec_value_state() == old(self).spec_value_state(),
            final(self).spec_response_by_app() == old(self).spec_response_by_app(),
    {
        if !(self.properties.is_writable() && self.permissions.write_access) {
            return false;
        }
        self.has_write_callback = true;
        true
    }

    /// Adds a "User Description" descriptor holding the name, when the
    /// characteristic has one (see `Descriptor::user_description`).
    pub fn show_name(&mut self)
        ensures
            old(self).spec_name() is None ==> final(self).spec_descriptors() == old(self).spec_descriptors(),
            old(self).spec_name() matches Some(n) ==> {
                let ds = final(self).spec_descriptors();
                &&& ds.len() == old(self).spec_descriptors().len() + 1
                &&& ds.drop_last() == old(self).spec_descriptors()
                &&& ds.last().spec_name() == Some("User Description"@)
                &&& ds.last().spec_uuid() == AttrUuid::Uuid16(USER_DESCRIPTION_UUID16)
                &&& ds.last().spec_permissions() == (AttributePermissions {
                    read_access: true,
                    write_access: false,
                    encryption_required: false,
                })
                &&& ds.last().spec_value() == encode_utf8(n)
                &&& ds.last().spec_handle() is None
                &&& !ds.last().spec_response_by_app()
                &&& !ds.last().spec_has_write_callback()
            },
            final(self).spec_name() == old(self).spec_name(),
            final(self).spec_uuid() == old(self).spec_uuid(),
            final(self).spec_permissions() == old(self).spec_permissions(),
            final(self).spec_properties() == old(self).spec_properties(),
            final(self).spec_value_state() == old(self).spec_value_state(),
            final(self).spec_response_by_app() == old(self).spec_response_by_app(),
            final(self).spec_has_write_callback() == old(self).spec_has_write_callback(),
    {
        match &self.name {
            Some(n) => {
                let d = Descriptor::user_description(n.as_str());
                self.descriptors.push(d);
                assert(self.descriptors@.drop_last() =~= old(self).spec_descriptors());
            },
            None => {},
        }
    }

    /// Records the handle the stack assigned to the characteristic's value
    /// (see `CharacteristicValue::registered`).
    pub fn registered(&mut self, handle: u16)
        ensures
            final(self).spec_value_state().spec_handle() == Some(handle),
            final(self).spec_value_state().spec_registered_max() == old(self).spec_value_state().spec_max_len(),
            final(self).spec_value_state().spec_value() == old(self).spec_value_state().spec_value(),
            final(self).spec_value_state().spec_value_set() == old(self).spec_value_state().spec_value_set(),
            final(self).spec_value_state().spec_max_value_length() == old(self).spec_value_state().spec_max_value_length(),
            old(self).same_shape(*final(self)),
            final(self).spec_response_by_app() == old(self).spec_response_by_app(),
            final(self).spec_has_write_callback() == old(self).spec_has_write_callback(),
    {
        self.value.registered(handle);
    }

    /// Sets the value; reads are then answered automatically with it.
    /// Returns the handle under which the stack's copy is to be updated, if
    /// the characteristic is registered. Once registered, a value longer than
    /// the registered maximum cannot be set.
    pub fn set_value(&mut self, value: Vec<u8>) -> (push: Option<u16>)
        requires
            old(self).spec_value_state().value_fits(value@.len()),
        ensures
            final(self).spec_value_state().spec_value() == value@,
            final(self).spec_value_state().spec_value_set(),
            final(self).spec_value_state().spec_max_value_length() == old(self).spec_value_state().spec_max_value_length(),
            final(self).spec_value_state().spec_handle() == old(self).spec_value_state().spec_handle(),
            final(self).spec_value_state().spec_registered_max() == old(self).spec_value_state().spec_registered_max(),
            push == old(self).spec_value_state().spec_handle(),
            !final(self).spec_response_by_app(),
            old(self).same_shape(*final(self)),
            final(self).spec_has_write_callback() == old(self).spec_has_write_callback(),
    {
        let push = self.value.set_value(value);
        self.response_by_app = false;
        push
    }

    /// The characteristic as the event router sees it: its value attribute,
    /// whether it notifies or indicates, and its descriptors.
    pub fn entry(&self) -> (e: CharacteristicEntry)
        ensures
            e.attr == (AttrEntry {
                uuid: self.spec_uuid(),
                handle: self.spec_value_state().spec_handle(),
                has_write_callback: self.spec_has_write_callback(),
                response_by_app: self.spec_response_by_app(),
            }),
            e.notify == self.spec_properties().flags().notify,
            e.indicate == self.spec_properties().flags().indicate,
            e.descriptors@ == self.spec_descriptors().map_values(|d: Descriptor| d.spec_entry()),
    {
        let mut ds: Vec<AttrEntry> = Vec::new();
        let mut i: usize = 0;
        while i < self.descriptors.len()
            invariant
                i <= self.descriptors@.len(),
                ds@ == self.descriptors@.subrange(0, i as int).map_values(|d: Descriptor| d.spec_entry()),
            decreases self.descriptors.len() - i,
        {
            let e = self.descriptors[i].entry();
            ds.push(e);
            i = i + 1;
            assert(ds@ =~= self.descriptors@.subrange(0, i as int).map_values(|d: Descriptor| d.spec_entry()));
        }
        assert(self.descriptors@.subrange(0, i as int) =~= self.descriptors@);
        CharacteristicEntry {
            attr: AttrEntry {
                uuid: self.uuid,
                handle: self.value.handle(),
                has_write_callback: self.has_write_callback,
                response_by_app: self.response_by_app,
            },
            notify: self.properties.is_notify(),
            indicate: self.properties.is_indicate(),
            descriptors: ds,
        }
    }
}

/// A GATT profile (an application, in the SDK's terms): its identifier, a
/// name for debugging, and its services.
pub struct Profile {
    name: Option<String>,
    entry: ProfileEntry,
}

impl Profile {
    /// The name, used for debugging only.
    pub closed spec fn spec_name(self) -> Option<Seq<char>> {
        match self.name {
            Some(n) => Some(n@),
            None => None,
        }
    }

    /// The application identifier the profile registers with.
    pub closed spec fn spec_identifier(self) -> u16 {
        self.entry.identifier
    }

    /// The interface the stack assigned, once registered.
    pub closed spec fn spec_interface(self) -> Option<u8> {
        self.entry.interface
    }

    /// The services, in the order they were added.
    pub closed spec fn spec_services(self) -> Seq<ServiceEntry> {
        self.entry.services@
    }

    /// A profile with the given identifier: no name, no interface, no
    /// services.
    pub fn new(identifier: u16) -> (p: Self)
        ensures
            p.spec_name() is None,
            p.spec_identifier() == identifier,
            p.spec_interface() is None,
            p.spec_services() == Seq::<ServiceEntry>::empty(),
    {
        Profile { name: None, entry: ProfileEntry { identifier, interface: None, services: Vec::new() } }
    }

    /// Sets the name.
    pub fn name(&mut self, name: &str)
        ensures
            final(self).spec_name() == Some(name@),
            final(self).spec_identifier() == old(self).spec_identifier(),
            final(self).spec_interface() == old(self).spec_interface(),
            final(self).spec_services() == old(self).spec_services(),
    {
        self.name = Some(owned(name));
    }

    /// Adds a service.
    pub fn service(&mut self, service: ServiceEntry)
        ensures
            final(self).spec_services() == old(self).spec_services().push(service),
            final(self).spec_name() == old(self).spec_name(),
            final(self).spec_identifier() == old(self).spec_identifier(),
            final(self).spec_interface() == old(self).spec_interface(),
    {
        self.entry.services.push(service);
    }

    /// The profile as the server and the event router hold it.
    pub fn build(self) -> (e: ProfileEntry)
        ensures
            e.identifier == self.spec_identifier(),
            e.interface == self.spec_interface(),
            e.services@ == self.spec_services(),
    {
        self.entry
    }
}

} // verus!
