//! The GATT topology: the two services, their characteristics and capabilities, the
//! advertised service list, and how reads and writes reach each characteristic.
use vstd::prelude::*;

use crate::brain::{BrainChannel, WriteError, WritePolicy, policy_accepts};

verus! {

/// Controller service (primary).
pub const CONTROLLER_UUID: u128 = 0x08590f7e_db05_467e_8757_72f6faeb13a5;

/// Telemetry characteristic of the controller service.
pub const JS_DATA_UUID: u128 = 0x08590f7e_db05_467e_8757_72f6faeb13b5;

/// Rate-control characteristic of the controller service.
pub const JS_RATE_UUID: u128 = 0x08590f7e_db05_467e_8757_72f6faeb13c5;

/// Brain service (secondary).
pub const BRAIN_UUID: u128 = 0x08590f7e_db05_467e_8757_72f6faeb13d5;

/// Host-to-device characteristic of the brain service.
pub const BRAIN_RX_UUID: u128 = 0x08590f7e_db05_467e_8757_72f6faeb13f5;

/// Device-to-host characteristic of the brain service.
pub const BRAIN_TX_UUID: u128 = 0x08590f7e_db05_467e_8757_72f6faeb1306;

/// Local name that the device advertises.
pub const ADVERT_DATA: &'static str = "604489-1-5-11-0";

/// What a characteristic lets a central do.
#[derive(Clone, Copy, Debug, PartialEq, Eq, Structural)]
pub struct Capabilities {
    pub read: bool,
    pub write: bool,
    pub write_without_response: bool,
    pub notify: bool,
    pub indicate: bool,
}

/// The four characteristics, by what they are for.
#[derive(Clone, Copy, Debug, PartialEq, Eq, Structural)]
pub enum CharacteristicRole {
    Telemetry,
    RateControl,
    BrainRx,
    BrainTx,
}

/// A characteristic: its identity, its role and its capabilities.
#[derive(Clone, Copy, Debug, PartialEq, Eq, Structural)]
pub struct CharacteristicDescriptor {
    pub uuid: u128,
    pub role: CharacteristicRole,
    pub caps: Capabilities,
}

/// A service: its identity, whether it is primary, and its characteristics in order.
#[derive(Clone, Debug)]
pub struct ServiceDescriptor {
    pub uuid: u128,
    pub primary: bool,
    pub characteristics: Vec<CharacteristicDescriptor>,
}

/// Why a request to a characteristic is refused.
#[derive(Clone, Copy, Debug, PartialEq, Eq, Structural)]
pub enum GattError {
    /// The characteristic does not offer that operation.
    NotPermitted,
    /// The payload was refused by the write policy.
    MalformedPayload,
}

/// The identity of each characteristic.
pub open spec fn role_uuid(r: CharacteristicRole) -> u128 {
    match r {
        CharacteristicRole::Telemetry => JS_DATA_UUID,
        CharacteristicRole::RateControl => JS_RATE_UUID,
        CharacteristicRole::BrainRx => BRAIN_RX_UUID,
        CharacteristicRole::BrainTx => BRAIN_TX_UUID,
    }
}

/// The capability table.
pub open spec fn role_caps(r: CharacteristicRole) -> Capabilities {
    match r {
        CharacteristicRole::Telemetry => Capabilities {
            read: true,
            write: true,
            write_without_response: true,
            notify: true,
            indicate: true,
        },
        CharacteristicRole::RateControl => Capabilities {
            read: false,
            write: true,
            write_without_response: true,
            notify: false,
            indicate: false,
        },
        CharacteristicRole::BrainRx => Capabilities {
            read: true,
            write: true,
            write_without_response: true,
            notify: true,
            indicate: true,
        },
        CharacteristicRole::BrainTx => Capabilities {
            read: true,
            write: true,
            write_without_response: true,
            notify: false,
            indicate: false,
        },
    }
}

/// The descriptor of a characteristic.
pub open spec fn role_descriptor(r: CharacteristicRole) -> CharacteristicDescriptor {
    CharacteristicDescriptor { uuid: role_uuid(r), role: r, caps: role_caps(r) }
}

/// The controller service's characteristics, in order.
pub open spec fn controller_characteristics() -> Seq<CharacteristicDescriptor> {
    seq![
        role_descriptor(CharacteristicRole::Telemetry),
        role_descriptor(CharacteristicRole::RateControl),
    ]
}

/// The brain service's characteristics, in order.
pub open spec fn brain_characteristics() -> Seq<CharacteristicDescriptor> {
    seq![role_descriptor(CharacteristicRole::BrainRx), role_descriptor(CharacteristicRole::BrainTx)]
}

/// A service descriptor is the controller service.
pub open spec fn is_controller_service(s: ServiceDescriptor) -> bool {
    s.uuid == CONTROLLER_UUID && s.primary && s.characteristics@ == controller_characteristics()
}

/// A service descriptor is the brain service.
pub open spec fn is_brain_service(s: ServiceDescriptor) -> bool {
    s.uuid == BRAIN_UUID && !s.primary && s.characteristics@ == brain_characteristics()
}

/// The application: the controller service, then the brain service.
pub open spec fn is_application(app: Seq<ServiceDescriptor>) -> bool {
    app.len() == 2 && is_controller_service(app[0]) && is_brain_service(app[1])
}

/// The identities of a list of services, in order.
pub open spec fn service_uuids(app: Seq<ServiceDescriptor>) -> Seq<u128> {
    app.map_values(|s: ServiceDescriptor| s.uuid)
}

/// What a read of a characteristic returns, if it is readable.
pub open spec fn read_result(role: CharacteristicRole, brain_out: Seq<u8>) -> Option<Seq<u8>> {
    match role {
        CharacteristicRole::Telemetry => Some(Seq::empty()),
        CharacteristicRole::RateControl => None,
        CharacteristicRole::BrainRx | CharacteristicRole::BrainTx => Some(brain_out),
    }
}

/// Whether a role's writes go to the brain channel.
pub open spec fn is_brain_role(role: CharacteristicRole) -> bool {
    role == CharacteristicRole::BrainRx || role == CharacteristicRole::BrainTx
}

/// Builds the descriptor of a characteristic.
pub fn characteristic(role: CharacteristicRole) -> (r: CharacteristicDescriptor)
    ensures
        r == role_descriptor(role),
{
    match role {
        CharacteristicRole::Telemetry => CharacteristicDescriptor {
            uuid: JS_DATA_UUID,
            role,
            caps: Capabilities {
                read: true,
                write: true,
                write_without_response: true,
                notify: true,
                indicate: true,
            },
        },
        CharacteristicRole::RateControl => CharacteristicDescriptor {
            uuid: JS_RATE_UUID,
            role,
            caps: Capabilities {
                read: false,
                write: true,
                write_without_response: true,
                notify: false,
                indicate: false,
            },
        },
        CharacteristicRole::BrainRx => CharacteristicDescriptor {
            uuid: BRAIN_RX_UUID,
            role,
            caps: Capabilities {
                read: true,
                write: true,
                write_without_response: true,
                notify: true,
                indicate: true,
            },
        },
        CharacteristicRole::BrainTx => CharacteristicDescriptor {
            uuid: BRAIN_TX_UUID,
            role,
            caps: Capabilities {
                read: true,
                write: true,
                write_without_response: true,
                notify: false,
                indicate: false,
            },
        },
    }
}

/// The controller service: telemetry and rate control, primary.
pub fn make_controller_service() -> (r: ServiceDescriptor)
    ensures
        is_controller_service(r),
{
    let characteristics = vec![
        characteristic(CharacteristicRole::Telemetry),
        characteristic(CharacteristicRole::RateControl),
    ];
    assert(characteristics@ =~= controller_characteristics());
    ServiceDescriptor { uuid: CONTROLLER_UUID, primary: true, characteristics }
}

/// The brain service: RX and TX, secondary.
pub fn make_brain_service() -> (r: ServiceDescriptor)
    ensures
        is_brain_service(r),
{
    let characteristics = vec![
        characteristic(CharacteristicRole::BrainRx),
        characteristic(CharacteristicRole::BrainTx),
    ];
    assert(characteristics@ =~= brain_characteristics());
    ServiceDescriptor { uuid: BRAIN_UUID, primary: false, characteristics }
}

/// The services handed to the BLE stack, built once at startup.
pub fn build_application() -> (r: Vec<ServiceDescriptor>)
    ensures
        is_application(r@),
{
    let controller = make_controller_service();
    let brain = make_brain_service();
    vec![controller, brain]
}

/// The service list to advertise: the identity of each service, in order.
pub fn advertised_service_uuids(app: &Vec<ServiceDescriptor>) -> (r: Vec<u128>)
    ensures
        r@ == service_uuids(app@),
{
    let mut r: Vec<u128> = Vec::new();
    let mut i: usize = 0;
    while i < app.len()
        invariant
            i <= app@.len(),
            r@ == service_uuids(app@.subrange(0, i as int)),
        decreases app@.len() - i,
    {
        r.push(app[i].uuid);
        i = i + 1;
        assert(r@ =~= service_uuids(app@.subrange(0, i as int)));
    }
    assert(app@.subrange(0, app@.len() as int) =~= app@);
    r
}

/// Answers a read of a characteristic.
pub fn handle_read(role: CharacteristicRole, brain: &BrainChannel) -> (r: Result<
    Vec<u8>,
    GattError,
>)
    ensures
        read_result(role, brain.outbound@) matches Some(v) ==> r matches Ok(b) && b@ == v,
        read_result(role, brain.outbound@) is None ==> r matches Err(GattError::NotPermitted),
{
    match role {
        CharacteristicRole::Telemetry => Ok(Vec::new()),
        CharacteristicRole::RateControl => Err(GattError::NotPermitted),
        CharacteristicRole::BrainRx | CharacteristicRole::BrainTx => Ok(brain.on_read()),
    }
}

/// Answers a write to a characteristic: the policy is checked first; the brain
/// characteristics keep the payload, the controller ones take it and drop it.
pub fn handle_write(
    role: CharacteristicRole,
    policy: WritePolicy,
    brain: &mut BrainChannel,
    data: Vec<u8>,
) -> (r: Result<(), GattError>)
    ensures
        r is Ok <==> policy_accepts(policy, data@.len()),
        r is Err ==> r == Err::<(), GattError>(GattError::MalformedPayload),
        r is Ok && is_brain_role(role) ==> final(brain).inbound@ == data@,
        !(r is Ok && is_brain_role(role)) ==> final(brain).inbound@ == old(brain).inbound@,
        final(brain).outbound@ == old(brain).outbound@,
{
    match role {
        CharacteristicRole::BrainRx | CharacteristicRole::BrainTx => {
            match brain.on_write(policy, data) {
                Ok(()) => Ok(()),
                Err(WriteError::MalformedPayload) => Err(GattError::MalformedPayload),
            }
        },
        CharacteristicRole::Telemetry | CharacteristicRole::RateControl => {
            match policy.check(data.as_slice()) {
                Ok(()) => Ok(()),
                Err(WriteError::MalformedPayload) => Err(GattError::MalformedPayload),
            }
        },
    }
}

/// The application's topology: its services are advertised exactly as the controller
/// and brain identities, each once; every characteristic carries the identity and
/// the capabilities of the table for its role; no two characteristics of a service
/// share an identity; and a read is answered exactly where the table allows it.
pub proof fn lemma_application_topology(app: Seq<ServiceDescriptor>, brain_out: Seq<u8>)
    requires
        is_application(app),
    ensures
        service_uuids(app) == seq![CONTROLLER_UUID, BRAIN_UUID],
        service_uuids(app).no_duplicates(),
        service_uuids(app).to_set() == set![CONTROLLER_UUID, BRAIN_UUID],
        forall|i: int, j: int|
            0 <= i < app.len() && 0 <= j < app[i].characteristics@.len() ==> {
                let c = #[trigger] app[i].characteristics@[j];
                c.uuid == role_uuid(c.role) && c.caps == role_caps(c.role)
            },
        forall|i: int, j: int, k: int|
            0 <= i < app.len() && 0 <= j < k < app[i].characteristics@.len() ==> (
            #[trigger] app[i].characteristics@[j]).uuid != (
            #[trigger] app[i].characteristics@[k]).uuid,
        forall|r: CharacteristicRole| role_caps(r).read <==> (#[trigger] read_result(r, brain_out)) is Some,
{
    let ids = service_uuids(app);
    assert(ids =~= seq![CONTROLLER_UUID, BRAIN_UUID]);
    assert(ids.to_set() =~= set![CONTROLLER_UUID, BRAIN_UUID]) by {
        assert(ids.to_set().contains(ids[0]));
        assert(ids.to_set().contains(ids[1]));
    }
    assert(app[0].characteristics@ == controller_characteristics());
    assert(app[1].characteristics@ == brain_characteristics());
}

} // verus!
