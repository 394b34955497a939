//! Resolving a device name to one of the devices that the host lists.

use vstd::prelude::*;

verus! {

/// The reserved name that stands for the host's default device.
pub const DEFAULT_DEVICE_NAME: &'static str = "Default";

/// Which device a name resolves to.
#[derive(Debug, Clone, Copy, PartialEq, Eq, Structural)]
pub enum DeviceChoice {
    /// The host's default device.
    HostDefault,
    /// The device at this index of the host's list.
    Listed(usize),
}

/// Why a name resolves to no device. Neither is worth retrying.
#[derive(Debug, Clone, Copy, PartialEq, Eq, Structural)]
pub enum DeviceError {
    /// The default device was asked for and the host has none.
    NoDefaultDevice,
    /// No listed device bears the name.
    NoSuchDevice,
}

/// A listed device whose name is known and equals `name`.
pub open spec fn is_named(entry: Option<String>, name: Seq<char>) -> bool {
    entry matches Some(n) && n@ == name
}

/// What a name resolves to, given whether the host has a default device
/// and the names of the devices it lists (`None` where a name could not be
/// read).
pub open spec fn resolution(name: Seq<char>, has_default: bool, names: Seq<Option<String>>) -> Result<
    DeviceChoice,
    DeviceError,
> {
    if name == DEFAULT_DEVICE_NAME@ {
        if has_default {
            Ok(DeviceChoice::HostDefault)
        } else {
            Err(DeviceError::NoDefaultDevice)
        }
    } else if exists|k: int| 0 <= k < names.len() && is_named(#[trigger] names[k], name) {
        let k = choose|k: int|
            0 <= k < names.len() && is_named(#[trigger] names[k], name) && forall|j: int|
                0 <= j < k ==> !is_named(#[trigger] names[j], name);
        Ok(DeviceChoice::Listed(k as usize))
    } else {
        Err(DeviceError::NoSuchDevice)
    }
}

/// Resolves `name`: the reserved name to the host's default device, any
/// other to the first listed device of exactly that name.
pub fn resolve_device(name: &String, has_default: bool, names: &Vec<Option<String>>) -> (r: Result<
    DeviceChoice,
    DeviceError,
>)
    ensures
        r == resolution(name@, has_default, names@),
{
    let reserved: String = DEFAULT_DEVICE_NAME.to_owned();
    if *name == reserved {
        if has_default {
            return Ok(DeviceChoice::HostDefault);
        } else {
            return Err(DeviceError::NoDefaultDevice);
        }
    }
    let mut i: usize = 0;
    while i < names.len()
        invariant
            i <= names@.len(),
            name@ != DEFAULT_DEVICE_NAME@,
            forall|j: int| 0 <= j < i ==> !is_named(#[trigger] names@[j], name@),
        decreases names@.len() - i,
    {
        let found = match &names[i] {
            Some(n) => *n == *name,
            None => false,
        };
        if found {
            proof {
                let nm = name@;
                let ns = names@;
                assert(nm != DEFAULT_DEVICE_NAME@);
                assert(is_named(ns[i as int], nm));
                assert(exists|k: int|
                    0 <= k < ns.len() && is_named(#[trigger] ns[k], nm) && forall|j: int|
                        0 <= j < k ==> !is_named(#[trigger] ns[j], nm));
                let k = choose|k: int|
                    0 <= k < ns.len() && is_named(#[trigger] ns[k], nm) && forall|j: int|
                        0 <= j < k ==> !is_named(#[trigger] ns[j], nm);
                if k < i {
                    assert(!is_named(ns[k], nm));
                } else if k > i {
                    assert(!is_named(ns[i as int], nm));
                }
                assert(k == i);
            }
            return Ok(DeviceChoice::Listed(i));
        }
        i = i + 1;
    }
    Err(DeviceError::NoSuchDevice)
}

} // verus!
