//! The fixed data of the beacon: the GATT topology it advertises, the
//! configuration fragment it installs, and where it looks for its GATT server.

use vstd::prelude::*;
use crate::commands::strings_view;

verus! {

pub const APPLICATION_PATH: &'static str = "/com/signal/network";
pub const SERVICE_PATH: &'static str = "/com/signal/network/service0";
pub const CHARACTERISTIC_PATH: &'static str = "/com/signal/network/service0/char0";
pub const SERVICE_UUID: &'static str = "12345678-1234-5678-1234-56789abcdef0";
pub const CHARACTERISTIC_UUID: &'static str = "12345679-1234-5678-1234-56789abcdef0";

/// The value of the characteristic, readable by any connecting peer.
pub const PAYLOAD: &'static str = "Do you see it too?\nA signal in the darkness,\nwaiting to be found.";

/// Where the configuration fragment goes.
pub const PATCH_PATH: &'static str = "/etc/bluetooth/main.conf.d/signal-network.conf";

/// The configuration fragment: it disables the audio profiles that interfere
/// with a GATT-only device.
pub const PATCH_CONTENT: &'static str = "[General]\n# Disable audio profiles that interfere with GATT-only devices\nDisable=A2DP,HFP,HSP\n";

/// The GATT server script, looked for in the working directory.
pub const SCRIPT_NAME: &'static str = "gatt_server.py";
/// The GATT server script, by an explicit relative path.
pub const SCRIPT_RELATIVE: &'static str = "./gatt_server.py";
/// The GATT server script, at the place the beacon was installed.
pub const SCRIPT_FALLBACK: &'static str = "/home/blooke/clutching-pearls/signal-network/gatt_server.py";

/// What a peer may do with the characteristic.
#[derive(Clone, Copy, Debug, PartialEq, Eq, Structural)]
pub enum CharProperty {
    Read,
    Notify,
}

/// The GATT topology the beacon advertises.
pub struct ServiceDescriptor {
    pub application_path: String,
    pub service_path: String,
    pub characteristic_path: String,
    pub service_uuid: String,
    pub characteristic_uuid: String,
    pub properties: Vec<CharProperty>,
    pub payload: String,
}

impl ServiceDescriptor {
    /// The beacon's service: one readable, notifiable characteristic whose
    /// value is `PAYLOAD`.
    pub fn signal() -> (r: ServiceDescriptor)
        ensures
            r.application_path@ == APPLICATION_PATH@,
            r.service_path@ == SERVICE_PATH@,
            r.characteristic_path@ == CHARACTERISTIC_PATH@,
            r.service_uuid@ == SERVICE_UUID@,
            r.characteristic_uuid@ == CHARACTERISTIC_UUID@,
            r.properties@ == seq![CharProperty::Read, CharProperty::Notify],
            r.payload@ == PAYLOAD@,
    {
        ServiceDescriptor {
            application_path: APPLICATION_PATH.to_string(),
            service_path: SERVICE_PATH.to_string(),
            characteristic_path: CHARACTERISTIC_PATH.to_string(),
            service_uuid: SERVICE_UUID.to_string(),
            characteristic_uuid: CHARACTERISTIC_UUID.to_string(),
            properties: vec![CharProperty::Read, CharProperty::Notify],
            payload: PAYLOAD.to_string(),
        }
    }
}

/// A configuration fragment to write once, at startup.
pub struct ConfigPatch {
    pub target_path: String,
    pub content: String,
}

impl ConfigPatch {
    /// The fragment that disables the interfering audio profiles.
    pub fn profile_suppression() -> (r: ConfigPatch)
        ensures
            r.target_path@ == PATCH_PATH@,
            r.content@ == PATCH_CONTENT@,
    {
        ConfigPatch { target_path: PATCH_PATH.to_string(), content: PATCH_CONTENT.to_string() }
    }
}

/// Where the GATT server script is looked for, in this order.
pub fn script_candidates() -> (r: Vec<String>)
    ensures
        strings_view(r@) == seq![SCRIPT_NAME@, SCRIPT_RELATIVE@, SCRIPT_FALLBACK@],
{
    let r = vec![SCRIPT_NAME.to_string(), SCRIPT_RELATIVE.to_string(), SCRIPT_FALLBACK.to_string()];
    assert(strings_view(r@) =~= seq![SCRIPT_NAME@, SCRIPT_RELATIVE@, SCRIPT_FALLBACK@]);
    r
}

} // verus!
