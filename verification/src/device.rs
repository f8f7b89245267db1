//! Audio hosts and devices, as the plain facts that the platform reports
//! about them, and the choices made on those facts: which device a name
//! selects, which stream configuration a device runs with, and whether a
//! device is still the platform's default.

use crate::text::{is_default, text_eq, DEFAULT_DEVICE};
use vstd::prelude::*;

verus! {

/// How a device represents one sample.
#[derive(Clone, Copy, Debug, PartialEq, Eq, Structural)]
pub enum SampleFormat {
    I8,
    I16,
    I32,
    I64,
    U8,
    U16,
    U32,
    U64,
    F32,
    F64,
}

/// The stream configuration a device offers by default.
#[derive(Clone, Copy, Debug, PartialEq, Eq, Structural)]
pub struct StreamConfig {
    pub channels: u16,
    pub sample_rate: u32,
    pub sample_format: SampleFormat,
}

/// A device has neither an output nor an input configuration.
#[derive(Clone, Copy, Debug, PartialEq, Eq, Structural)]
pub struct NoDefaultConfig;

/// What the platform reports about one device. A query that failed is
/// recorded as nothing.
#[derive(Clone, Debug, PartialEq, Eq)]
pub struct DeviceSnapshot {
    pub name: Option<String>,
    pub output_config: Option<StreamConfig>,
    pub input_config: Option<StreamConfig>,
}

impl DeviceSnapshot {
    /// A copy of the snapshot.
    pub fn duplicate(&self) -> (copy: DeviceSnapshot)
        ensures
            copy == *self,
    {
        let name = match &self.name {
            Some(reported) => Some(reported.clone()),
            None => None,
        };
        DeviceSnapshot { name, output_config: self.output_config, input_config: self.input_config }
    }
}

/// What the platform reports about one host.
#[derive(Clone, Debug, PartialEq, Eq)]
pub struct HostSnapshot {
    pub default_input: Option<DeviceSnapshot>,
    pub default_output: Option<DeviceSnapshot>,
    /// The host's devices in the order it lists them, or nothing when the
    /// listing failed.
    pub devices: Option<Vec<DeviceSnapshot>>,
}

/// Whether a device reports the name `name`.
pub open spec fn is_named(device: DeviceSnapshot, name: Seq<char>) -> bool {
    device.name matches Some(reported) && reported@ == name
}

/// The position of the first of `devices` that `wanted` holds of, or nothing
/// when it holds of none.
pub open spec fn first_position(
    devices: Seq<DeviceSnapshot>,
    wanted: spec_fn(DeviceSnapshot) -> bool,
) -> Option<int>
    decreases devices.len(),
{
    if devices.len() == 0 {
        None
    } else if wanted(devices[0]) {
        Some(0)
    } else {
        match first_position(devices.drop_first(), wanted) {
            Some(position) => Some(position + 1),
            None => None,
        }
    }
}

/// The first of `devices` that `wanted` holds of.
pub open spec fn first_device(
    devices: Seq<DeviceSnapshot>,
    wanted: spec_fn(DeviceSnapshot) -> bool,
) -> Option<DeviceSnapshot> {
    match first_position(devices, wanted) {
        Some(position) => Some(devices[position]),
        None => None,
    }
}

/// `first_position` finds the least position at which `wanted` holds.
pub proof fn lemma_first_position(
    devices: Seq<DeviceSnapshot>,
    wanted: spec_fn(DeviceSnapshot) -> bool,
)
    ensures
        match first_position(devices, wanted) {
            Some(position) => {
                &&& 0 <= position < devices.len()
                &&& wanted(devices[position])
                &&& forall|k: int| 0 <= k < position ==> !wanted(#[trigger] devices[k])
            },
            None => forall|k: int| 0 <= k < devices.len() ==> !wanted(#[trigger] devices[k]),
        },
    decreases devices.len(),
{
    if devices.len() > 0 && !wanted(devices[0]) {
        let rest = devices.drop_first();
        lemma_first_position(rest, wanted);
        match first_position(rest, wanted) {
            Some(position) => {
                assert forall|k: int| 0 <= k < position + 1 implies !wanted(
                    #[trigger] devices[k],
                ) by {
                    if k > 0 {
                        assert(devices[k] == rest[k - 1]);
                    }
                }
            },
            None => {
                assert forall|k: int| 0 <= k < devices.len() implies !wanted(
                    #[trigger] devices[k],
                ) by {
                    if k > 0 {
                        assert(devices[k] == rest[k - 1]);
                    }
                }
            },
        }
    }
}

/// A position that holds `wanted`, with none before it that does, is the
/// first position.
pub proof fn lemma_first_position_is(
    devices: Seq<DeviceSnapshot>,
    wanted: spec_fn(DeviceSnapshot) -> bool,
    position: int,
)
    requires
        0 <= position <= devices.len(),
        forall|k: int| 0 <= k < position ==> !wanted(#[trigger] devices[k]),
        position < devices.len() ==> wanted(devices[position]),
    ensures
        first_position(devices, wanted) == if position < devices.len() {
            Some(position)
        } else {
            None::<int>
        },
{
    lemma_first_position(devices, wanted);
}

/// Whether a search found the device `wanted`, or nothing when there is none.
pub open spec fn found_is(found: Option<&DeviceSnapshot>, wanted: Option<DeviceSnapshot>) -> bool {
    match found {
        Some(device) => wanted == Some(*device),
        None => wanted.is_none(),
    }
}

/// The position of the first of `devices` that has the given name and that
/// a search in the given role considers.
pub fn find_position(devices: &Vec<DeviceSnapshot>, name: &str, role: Role) -> (found: Option<usize>)
    ensures
        match found {
            Some(position) => first_position(
                devices@,
                |d: DeviceSnapshot| role.admits(d) && is_named(d, name@),
            ) == Some(position as int) && position < devices@.len(),
            None => first_position(
                devices@,
                |d: DeviceSnapshot| role.admits(d) && is_named(d, name@),
            ).is_none(),
        },
{
    let ghost wanted = |d: DeviceSnapshot| role.admits(d) && is_named(d, name@);
    let mut i: usize = 0;
    while i < devices.len()
        invariant
            i <= devices@.len(),
            wanted == |d: DeviceSnapshot| role.admits(d) && is_named(d, name@),
            forall|k: int| 0 <= k < i ==> !wanted(#[trigger] devices@[k]),
        decreases devices@.len() - i,
    {
        let device = &devices[i];
        let admitted = match role {
            Role::Any => true,
            Role::Input => device.input_config.is_some(),
            Role::Output => device.output_config.is_some(),
        };
        let named = match &device.name {
            Some(reported) => text_eq(reported.as_str(), name),
            None => false,
        };
        if admitted && named {
            proof {
                lemma_first_position_is(devices@, wanted, i as int);
            }
            return Some(i);
        }
        i = i + 1;
    }
    proof {
        lemma_first_position_is(devices@, wanted, devices@.len() as int);
    }
    None
}

/// The first of `devices` that has the given name and that a search in the
/// given role considers.
fn find_first<'a>(devices: &'a Vec<DeviceSnapshot>, name: &str, role: Role) -> (found: Option<
    &'a DeviceSnapshot,
>)
    ensures
        found_is(
            found,
            first_device(devices@, |d: DeviceSnapshot| role.admits(d) && is_named(d, name@)),
        ),
{
    match find_position(devices, name, role) {
        Some(position) => Some(&devices[position]),
        None => None,
    }
}

/// Which devices a search considers.
#[derive(Clone, Copy, Debug, PartialEq, Eq, Structural)]
pub enum Role {
    /// Every device.
    Any,
    /// Devices that can capture.
    Input,
    /// Devices that can play.
    Output,
}

impl Role {
    /// Whether a search in this role considers `device`.
    pub open spec fn admits(self, device: DeviceSnapshot) -> bool {
        match self {
            Role::Any => true,
            Role::Input => device.input_config.is_some(),
            Role::Output => device.output_config.is_some(),
        }
    }
}

/// The device that `name` selects on a host: the given default for the name
/// `default`, else the first listed device of that name; nothing when the
/// listing failed or holds no such device.
pub open spec fn selected_device(
    default: Option<DeviceSnapshot>,
    devices: Option<Vec<DeviceSnapshot>>,
    name: Seq<char>,
) -> Option<DeviceSnapshot> {
    if name == DEFAULT_DEVICE@ {
        default
    } else {
        match devices {
            Some(listed) => first_device(listed@, |d: DeviceSnapshot| is_named(d, name)),
            None => None,
        }
    }
}

/// A list of devices that can be searched by name.
pub trait Devices {
    /// The devices, in order.
    spec fn listed(&self) -> Seq<DeviceSnapshot>;

    /// The first device of the given name that can capture.
    fn find_input(&self, name: &str) -> (found: Option<&DeviceSnapshot>)
        ensures
            found_is(
                found,
                first_device(
                    self.listed(),
                    |d: DeviceSnapshot| Role::Input.admits(d) && is_named(d, name@),
                ),
            ),
    ;

    /// The first device of the given name that can play.
    fn find_output(&self, name: &str) -> (found: Option<&DeviceSnapshot>)
        ensures
            found_is(
                found,
                first_device(
                    self.listed(),
                    |d: DeviceSnapshot| Role::Output.admits(d) && is_named(d, name@),
                ),
            ),
    ;
}

impl Devices for Vec<DeviceSnapshot> {
    open spec fn listed(&self) -> Seq<DeviceSnapshot> {
        self@
    }

    fn find_input(&self, name: &str) -> (found: Option<&DeviceSnapshot>) {
        find_first(self, name, Role::Input)
    }

    fn find_output(&self, name: &str) -> (found: Option<&DeviceSnapshot>) {
        find_first(self, name, Role::Output)
    }
}

/// A host on which a device can be selected by name.
pub trait Host {
    /// What the host reports.
    spec fn reported(&self) -> HostSnapshot;

    /// The capture device that `name` selects.
    fn find_input_device(&self, name: &str) -> (found: Option<&DeviceSnapshot>)
        ensures
            found_is(
                found,
                selected_device(self.reported().default_input, self.reported().devices, name@),
            ),
    ;

    /// The playback device that `name` selects.
    fn find_output_device(&self, name: &str) -> (found: Option<&DeviceSnapshot>)
        ensures
            found_is(
                found,
                selected_device(self.reported().default_output, self.reported().devices, name@),
            ),
    ;
}

impl Host for HostSnapshot {
    open spec fn reported(&self) -> HostSnapshot {
        *self
    }

    fn find_input_device(&self, name: &str) -> (found: Option<&DeviceSnapshot>) {
        if is_default(name) {
            self.default_input.as_ref()
        } else {
            match &self.devices {
                Some(listed) => {
                    assert((|d: DeviceSnapshot| Role::Any.admits(d) && is_named(d, name@)) == (
                    |d: DeviceSnapshot| is_named(d, name@)));
                    find_first(listed, name, Role::Any)
                },
                None => None,
            }
        }
    }

    fn find_output_device(&self, name: &str) -> (found: Option<&DeviceSnapshot>) {
        if is_default(name) {
            self.default_output.as_ref()
        } else {
            match &self.devices {
                Some(listed) => {
                    assert((|d: DeviceSnapshot| Role::Any.admits(d) && is_named(d, name@)) == (
                    |d: DeviceSnapshot| is_named(d, name@)));
                    find_first(listed, name, Role::Any)
                },
                None => None,
            }
        }
    }
}

/// Whether both devices report a name, and the same one.
pub open spec fn same_name(a: DeviceSnapshot, b: DeviceSnapshot) -> bool {
    a.name matches Some(x) && b.name matches Some(y) && x@ == y@
}

/// The configuration a device runs with: its output configuration where it
/// has one, else its input configuration.
pub open spec fn preferred_config(device: DeviceSnapshot) -> Result<StreamConfig, NoDefaultConfig> {
    match device.output_config {
        Some(config) => Ok(config),
        None => match device.input_config {
            Some(config) => Ok(config),
            None => Err(NoDefaultConfig),
        },
    }
}

/// Whether `device` is the one that `default` names.
pub open spec fn is_default_device(device: DeviceSnapshot, default: Option<DeviceSnapshot>) -> bool {
    default matches Some(preferred) && same_name(preferred, device)
}

/// A device that can be asked for its configuration and compared with a
/// host's defaults.
pub trait Device {
    /// What the device reports.
    spec fn facts(&self) -> DeviceSnapshot;

    /// The configuration the device runs with.
    fn default_config(&self) -> (config: Result<StreamConfig, NoDefaultConfig>)
        ensures
            config == preferred_config(self.facts()),
    ;

    /// Whether the device can play.
    fn is_output(&self) -> (output: bool)
        ensures
            output == self.facts().output_config.is_some(),
    ;

    /// Whether the device can capture.
    fn is_input(&self) -> (input: bool)
        ensures
            input == self.facts().input_config.is_some(),
    ;

    /// Whether the device is the host's default for playback.
    fn is_default_output(&self, host: &HostSnapshot) -> (default: bool)
        ensures
            default == is_default_device(self.facts(), host.default_output),
    ;

    /// Whether the device is the host's default for capture.
    fn is_default_input(&self, host: &HostSnapshot) -> (default: bool)
        ensures
            default == is_default_device(self.facts(), host.default_input),
    ;

    /// Whether this device and `device` both report a name, and the same
    /// one.
    fn compare_name(&self, device: &DeviceSnapshot) -> (same: bool)
        ensures
            same == same_name(self.facts(), *device),
    ;
}

impl Device for DeviceSnapshot {
    open spec fn facts(&self) -> DeviceSnapshot {
        *self
    }

    fn default_config(&self) -> (config: Result<StreamConfig, NoDefaultConfig>) {
        if let Some(config) = self.output_config {
            return Ok(config);
        }
        if let Some(config) = self.input_config {
            return Ok(config);
        }
        Err(NoDefaultConfig)
    }

    fn is_output(&self) -> (output: bool) {
        self.output_config.is_some()
    }

    fn is_input(&self) -> (input: bool) {
        self.input_config.is_some()
    }

    fn is_default_output(&self, host: &HostSnapshot) -> (default: bool) {
        if let Some(default_output) = &host.default_output {
            return default_output.compare_name(self);
        }
        false
    }

    fn is_default_input(&self, host: &HostSnapshot) -> (default: bool) {
        if let Some(default_input) = &host.default_input {
            return default_input.compare_name(self);
        }
        false
    }

    fn compare_name(&self, device: &DeviceSnapshot) -> (same: bool) {
        if let Some(name) = &self.name {
            if let Some(device_name) = &device.name {
                return text_eq(name.as_str(), device_name.as_str());
            }
        }
        false
    }
}

/// What a device is listed as.
#[derive(Clone, Copy, Debug, PartialEq, Eq, Structural)]
pub enum DeviceKind {
    Output,
    Input,
    Unknown,
}

/// What a device is listed as: an output where it can play, else an input
/// where it can capture.
pub fn device_kind(device: &DeviceSnapshot) -> (kind: DeviceKind)
    ensures
        kind == if device.output_config.is_some() {
            DeviceKind::Output
        } else if device.input_config.is_some() {
            DeviceKind::Input
        } else {
            DeviceKind::Unknown
        },
{
    if device.is_output() {
        DeviceKind::Output
    } else if device.is_input() {
        DeviceKind::Input
    } else {
        DeviceKind::Unknown
    }
}


} // verus!
