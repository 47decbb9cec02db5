//! Kinds of devices that join a dnet team.
use vstd::prelude::*;
use vstd::std_specs::convert::FromSpecImpl;

verus! {

/// The kind of a device; its numeric code is what the conductor sends
/// (`Cloud` is -1, `Router` 0, ... `Other` 6).
#[derive(Clone, Copy, Debug, PartialEq, Eq, Structural)]
pub enum DeviceType {
    Cloud,
    Router,
    Android,
    IOS,
    Windows,
    MAC,
    Linux,
    Other,
}

/// The device type a numeric code stands for; unknown codes are `Other`.
pub open spec fn device_type_of(code: i8) -> DeviceType {
    if code == -1 {
        DeviceType::Cloud
    } else if code == 0 {
        DeviceType::Router
    } else if code == 1 {
        DeviceType::Android
    } else if code == 2 {
        DeviceType::IOS
    } else if code == 3 {
        DeviceType::Windows
    } else if code == 4 {
        DeviceType::MAC
    } else if code == 5 {
        DeviceType::Linux
    } else {
        DeviceType::Other
    }
}

/// The numeric code of a device type.
pub open spec fn device_code(t: DeviceType) -> i8 {
    match t {
        DeviceType::Cloud => -1i8,
        DeviceType::Router => 0i8,
        DeviceType::Android => 1i8,
        DeviceType::IOS => 2i8,
        DeviceType::Windows => 3i8,
        DeviceType::MAC => 4i8,
        DeviceType::Linux => 5i8,
        DeviceType::Other => 6i8,
    }
}

/// The name `to_string` gives a device type.
pub open spec fn device_name(t: DeviceType) -> Seq<char> {
    match t {
        DeviceType::Cloud => "Cloud"@,
        DeviceType::Router => "Router"@,
        DeviceType::Android => "Android"@,
        DeviceType::IOS => "IOS"@,
        DeviceType::Windows => "Windows"@,
        DeviceType::MAC => "MAC"@,
        DeviceType::Linux => "Linux"@,
        DeviceType::Other => "Other"@,
    }
}

impl From<i8> for DeviceType {
    fn from(type_code: i8) -> (r: DeviceType) {
        match type_code {
            -1 => DeviceType::Cloud,
            0 => DeviceType::Router,
            1 => DeviceType::Android,
            2 => DeviceType::IOS,
            3 => DeviceType::Windows,
            4 => DeviceType::MAC,
            5 => DeviceType::Linux,
            _ => DeviceType::Other,
        }
    }
}

impl FromSpecImpl<i8> for DeviceType {
    open spec fn obeys_from_spec() -> bool {
        true
    }

    open spec fn from_spec(v: i8) -> DeviceType {
        device_type_of(v)
    }
}

impl DeviceType {
    /// The device type of the machine this library is built for: a Linux
    /// machine that is not an ARM router.
    pub fn get_device_type() -> (r: DeviceType)
        ensures
            r == DeviceType::Linux,
    {
        DeviceType::Linux
    }

    /// The numeric code of this device type.
    pub fn code(&self) -> (r: i8)
        ensures
            r == device_code(*self),
    {
        match self {
            DeviceType::Cloud => -1,
            DeviceType::Router => 0,
            DeviceType::Android => 1,
            DeviceType::IOS => 2,
            DeviceType::Windows => 3,
            DeviceType::MAC => 4,
            DeviceType::Linux => 5,
            DeviceType::Other => 6,
        }
    }

    /// The name of this device type.
    pub fn to_string(&self) -> (r: String)
        ensures
            r@ == device_name(*self),
    {
        match self {
            DeviceType::Cloud => "Cloud".to_string(),
            DeviceType::Router => "Router".to_string(),
            DeviceType::Android => "Android".to_string(),
            DeviceType::IOS => "IOS".to_string(),
            DeviceType::Windows => "Windows".to_string(),
            DeviceType::MAC => "MAC".to_string(),
            DeviceType::Linux => "Linux".to_string(),
            DeviceType::Other => "Other".to_string(),
        }
    }
}

/// Reading back the code of a device type gives the same device type.
pub proof fn lemma_device_code_round_trip(t: DeviceType)
    ensures
        device_type_of(device_code(t)) == t,
{
}

/// Every code outside -1 to 5 stands for `Other`, and the codes -1 to 6
/// stand for eight different device types.
pub proof fn lemma_device_type_of_codes(code: i8)
    ensures
        (code < -1 || code > 5) ==> device_type_of(code) == DeviceType::Other,
        -1 <= code <= 6 ==> device_code(device_type_of(code)) == code,
{
}

proof fn lemma_device_name_shape(t: DeviceType)
    ensures
        device_name(t).len() == match t {
            DeviceType::Cloud => 5nat,
            DeviceType::Router => 6nat,
            DeviceType::Android => 7nat,
            DeviceType::IOS => 3nat,
            DeviceType::Windows => 7nat,
            DeviceType::MAC => 3nat,
            DeviceType::Linux => 5nat,
            DeviceType::Other => 5nat,
        },
        device_name(t)[0] == match t {
            DeviceType::Cloud => 'C',
            DeviceType::Router => 'R',
            DeviceType::Android => 'A',
            DeviceType::IOS => 'I',
            DeviceType::Windows => 'W',
            DeviceType::MAC => 'M',
            DeviceType::Linux => 'L',
            DeviceType::Other => 'O',
        },
{
    reveal_strlit("Cloud");
    reveal_strlit("Router");
    reveal_strlit("Android");
    reveal_strlit("IOS");
    reveal_strlit("Windows");
    reveal_strlit("MAC");
    reveal_strlit("Linux");
    reveal_strlit("Other");
}

/// Different device types have different names.
pub proof fn lemma_device_name_injective(a: DeviceType, b: DeviceType)
    requires
        device_name(a) == device_name(b),
    ensures
        a == b,
{
    lemma_device_name_shape(a);
    lemma_device_name_shape(b);
}

} // verus!
