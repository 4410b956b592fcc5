//! Accessory records as the hub lists them.

use vstd::prelude::*;

verus! {

/// A JSON value of the hub's payload that the library carries along without reading it.
#[verifier::external_type_specification]
#[verifier::external_body]
pub struct ExJsonValue(serde_json::Value);

/// The value of a characteristic. The hub sends a JSON scalar; a number stands here as the
/// IEEE-754 binary64 bit pattern of the double it denotes.
pub enum CharacteristicValue {
    Null,
    Bool(bool),
    Number(u64),
    Text(String),
    /// A JSON array or object.
    Structured,
}

/// The gauge value of a characteristic's value, as binary64 bits: the number itself, and
/// 0.0 (all bits clear) for anything that is not a number.
pub open spec fn gauge_value_of(v: CharacteristicValue) -> u64 {
    match v {
        CharacteristicValue::Number(bits) => bits,
        _ => 0,
    }
}

impl CharacteristicValue {
    /// The value a gauge takes for this characteristic value, as binary64 bits.
    pub fn gauge_value(&self) -> (r: u64)
        ensures
            r == gauge_value_of(*self),
            !(*self is Number) ==> r == 0,
    {
        match self {
            CharacteristicValue::Number(bits) => *bits,
            _ => 0,
        }
    }
}

/// One characteristic of one service of an accessory.
pub struct ServiceCharacteristics {
    pub aid: u16,
    pub iid: u16,
    pub uuid: String,
    /// The characteristic's type, such as "On" or "Brightness".
    pub type_: String,
    pub service_type: String,
    pub service_name: String,
    pub description: String,
    pub value: CharacteristicValue,
    /// The value's format, such as "string", "float", "bool" or "int".
    pub format: String,
    pub perms: Vec<String>,
    pub can_read: bool,
    pub can_write: bool,
    pub ev: bool,
}

/// The bridge instance an accessory is reached through.
pub struct Instance {
    pub name: String,
    pub username: String,
    pub ip_address: String,
    pub port: u16,
    pub services: Vec<serde_json::Value>,
    pub connection_failed_count: u16,
}

/// A device, or virtual device, of the hub, with its characteristics in the hub's order.
pub struct Accessory {
    pub aid: u32,
    pub iid: u32,
    pub uuid: String,
    pub accessory_type: String,
    pub human_type: String,
    pub service_name: String,
    pub service_characteristics: Vec<ServiceCharacteristics>,
    pub accessory_information: serde_json::Value,
    pub instance: Instance,
    pub values: serde_json::Value,
    pub unique_id: String,
}

} // verus!
