//! Safe handling of device resources: which accesses of the host and of the
//! device to a buffer or an image are under way, which may be added, and in
//! which order the work given to the device is submitted and finished.

use vstd::prelude::*;

pub mod buffer;
pub mod command_buffer;
pub mod device;
pub mod format;
pub mod image;
pub mod memory;
pub mod range_map;
pub mod render_pass;
pub mod sampler;
pub mod swapchain;
pub mod sync;

verus! {

/// A size or an offset in bytes within device memory.
pub type DeviceSize = u64;

/// A version of the device interface.
#[derive(Clone, Copy, Debug, PartialEq, Eq, PartialOrd, Ord, Structural)]
pub struct Version {
    pub major: u32,
    pub minor: u32,
    pub patch: u32,
}

impl Version {
    /// The version with the given major and minor numbers and patch zero.
    pub open spec fn major_minor_spec(major: u32, minor: u32) -> Version {
        Version { major, minor, patch: 0 }
    }

    /// The version with the given major and minor numbers and patch zero.
    pub fn major_minor(major: u32, minor: u32) -> (v: Version)
        ensures
            v == Version::major_minor_spec(major, minor),
    {
        Version { major, minor, patch: 0 }
    }

    /// Version 1.1.
    pub fn v1_1() -> (v: Version)
        ensures
            v == Version::major_minor_spec(1, 1),
    {
        Version::major_minor(1, 1)
    }

    /// Version 1.2.
    pub fn v1_2() -> (v: Version)
        ensures
            v == Version::major_minor_spec(1, 2),
    {
        Version::major_minor(1, 2)
    }

    /// Version 1.3.
    pub fn v1_3() -> (v: Version)
        ensures
            v == Version::major_minor_spec(1, 3),
    {
        Version::major_minor(1, 3)
    }

    /// Whether this version is `other` or a later one: the major numbers
    /// decide, then the minor numbers, then the patch numbers.
    pub open spec fn at_least_spec(self, other: Version) -> bool {
        self.major > other.major || (self.major == other.major && (self.minor > other.minor || (
        self.minor == other.minor && self.patch >= other.patch)))
    }

    /// Whether this version is `other` or a later one.
    pub fn at_least(&self, other: Version) -> (r: bool)
        ensures
            r == self.at_least_spec(other),
    {
        self.major > other.major || (self.major == other.major && (self.minor > other.minor || (
        self.minor == other.minor && self.patch >= other.patch)))
    }
}

/// An allocation failed for want of memory.
#[derive(Clone, Copy, Debug, PartialEq, Eq, Structural)]
pub enum OomError {
    /// There is no memory available on the host (ie. the CPU, RAM, etc.).
    OutOfHostMemory,
    /// There is no memory available on the device (ie. video memory).
    OutOfDeviceMemory,
}

impl OomError {
    /// Whether the driver's error says that memory ran out.
    pub open spec fn convertible(err: VulkanError) -> bool {
        err is OutOfHostMemory || err is OutOfDeviceMemory
    }

    /// The error that stands for the driver's error of the same name.
    pub open spec fn from_vulkan_error_spec(err: VulkanError) -> OomError {
        if err is OutOfHostMemory {
            OomError::OutOfHostMemory
        } else {
            OomError::OutOfDeviceMemory
        }
    }

    /// Turns one of the driver's two errors on memory into an `OomError`.
    pub fn from_vulkan_error(err: VulkanError) -> (oom: OomError)
        requires
            OomError::convertible(err),
        ensures
            oom == OomError::from_vulkan_error_spec(err),
    {
        match err {
            VulkanError::OutOfHostMemory => OomError::OutOfHostMemory,
            _ => OomError::OutOfDeviceMemory,
        }
    }

    /// What the error says, in words.
    pub fn to_string(&self) -> (s: String)
        ensures
            s@ == match *self {
                OomError::OutOfHostMemory => "no memory available on the host"@,
                OomError::OutOfDeviceMemory => "no memory available on the graphical device"@,
            },
    {
        match self {
            OomError::OutOfHostMemory => "no memory available on the host".to_owned(),
            OomError::OutOfDeviceMemory => "no memory available on the graphical device".to_owned(),
        }
    }
}

/// An error that the driver reported.
#[derive(Clone, Copy, Debug, PartialEq, Eq, Structural)]
pub enum VulkanError {
    OutOfHostMemory,
    OutOfDeviceMemory,
    InitializationFailed,
    DeviceLost,
    MemoryMapFailed,
    LayerNotPresent,
    ExtensionNotPresent,
    FeatureNotPresent,
    IncompatibleDriver,
    TooManyObjects,
    FormatNotSupported,
    FragmentedPool,
    Unknown,
    OutOfPoolMemory,
    InvalidExternalHandle,
    Fragmentation,
    InvalidOpaqueCaptureAddress,
    IncompatibleDisplay,
    NotPermitted,
    SurfaceLost,
    NativeWindowInUse,
    OutOfDate,
    ValidationFailed,
    FullScreenExclusiveModeLost,
    InvalidDrmFormatModifierPlaneLayout,
    InvalidShader,
    /// A code that has no name here.
    Unnamed(i32),
}

impl VulkanError {
    /// The error that a result code of the driver other than success stands
    /// for.
    pub open spec fn from_code_spec(code: i32) -> VulkanError {
        if code == -1 {
            VulkanError::OutOfHostMemory
        } else if code == -2 {
            VulkanError::OutOfDeviceMemory
        } else if code == -3 {
            VulkanError::InitializationFailed
        } else if code == -4 {
            VulkanError::DeviceLost
        } else if code == -5 {
            VulkanError::MemoryMapFailed
        } else if code == -6 {
            VulkanError::LayerNotPresent
        } else if code == -7 {
            VulkanError::ExtensionNotPresent
        } else if code == -8 {
            VulkanError::FeatureNotPresent
        } else if code == -9 {
            VulkanError::IncompatibleDriver
        } else if code == -10 {
            VulkanError::TooManyObjects
        } else if code == -11 {
            VulkanError::FormatNotSupported
        } else if code == -12 {
            VulkanError::FragmentedPool
        } else if code == -13 {
            VulkanError::Unknown
        } else if code == -1_000_069_000 {
            VulkanError::OutOfPoolMemory
        } else if code == -1_000_072_003 {
            VulkanError::InvalidExternalHandle
        } else if code == -1_000_161_000 {
            VulkanError::Fragmentation
        } else if code == -1_000_257_000 {
            VulkanError::InvalidOpaqueCaptureAddress
        } else if code == -1_000_003_001 {
            VulkanError::IncompatibleDisplay
        } else if code == -1_000_174_001 {
            VulkanError::NotPermitted
        } else if code == -1_000_000_000 {
            VulkanError::SurfaceLost
        } else if code == -1_000_000_001 {
            VulkanError::NativeWindowInUse
        } else if code == -1_000_001_004 {
            VulkanError::OutOfDate
        } else if code == -1_000_011_001 {
            VulkanError::ValidationFailed
        } else if code == -1_000_255_000 {
            VulkanError::FullScreenExclusiveModeLost
        } else if code == -1_000_158_000 {
            VulkanError::InvalidDrmFormatModifierPlaneLayout
        } else if code == -1_000_012_000 {
            VulkanError::InvalidShader
        } else {
            VulkanError::Unnamed(code)
        }
    }

    /// Names the error that a result code of the driver stands for.
    pub fn from_code(code: i32) -> (err: VulkanError)
        ensures
            err == VulkanError::from_code_spec(code),
    {
        match code {
            -1 => VulkanError::OutOfHostMemory,
            -2 => VulkanError::OutOfDeviceMemory,
            -3 => VulkanError::InitializationFailed,
            -4 => VulkanError::DeviceLost,
            -5 => VulkanError::MemoryMapFailed,
            -6 => VulkanError::LayerNotPresent,
            -7 => VulkanError::ExtensionNotPresent,
            -8 => VulkanError::FeatureNotPresent,
            -9 => VulkanError::IncompatibleDriver,
            -10 => VulkanError::TooManyObjects,
            -11 => VulkanError::FormatNotSupported,
            -12 => VulkanError::FragmentedPool,
            -13 => VulkanError::Unknown,
            -1_000_069_000 => VulkanError::OutOfPoolMemory,
            -1_000_072_003 => VulkanError::InvalidExternalHandle,
            -1_000_161_000 => VulkanError::Fragmentation,
            -1_000_257_000 => VulkanError::InvalidOpaqueCaptureAddress,
            -1_000_003_001 => VulkanError::IncompatibleDisplay,
            -1_000_174_001 => VulkanError::NotPermitted,
            -1_000_000_000 => VulkanError::SurfaceLost,
            -1_000_000_001 => VulkanError::NativeWindowInUse,
            -1_000_001_004 => VulkanError::OutOfDate,
            -1_000_011_001 => VulkanError::ValidationFailed,
            -1_000_255_000 => VulkanError::FullScreenExclusiveModeLost,
            -1_000_158_000 => VulkanError::InvalidDrmFormatModifierPlaneLayout,
            -1_000_012_000 => VulkanError::InvalidShader,
            _ => VulkanError::Unnamed(code),
        }
    }

    /// Reads a result code of the driver: success, or the error it stands for.
    pub fn check(code: i32) -> (result: Result<(), VulkanError>)
        ensures
            result == if code == 0 {
                Ok::<(), VulkanError>(())
            } else {
                Err::<(), VulkanError>(VulkanError::from_code_spec(code))
            },
    {
        match raw_result(code) {
            Ok(()) => Ok(()),
            Err(code) => Err(VulkanError::from_code(code)),
        }
    }
}

/// `ash::vk::Result::result`, on the raw code: the code zero is the driver's
/// success and gives `Ok`, every other code comes back unchanged in `Err`.
#[verifier::external_body]
fn raw_result(code: i32) -> (result: Result<(), i32>)
    ensures
        result == if code == 0 {
            Ok::<(), i32>(())
        } else {
            Err::<(), i32>(code)
        },
{
    ash::vk::Result::from_raw(code).result().map_err(|err| err.as_raw())
}

/// What a device must have for something to be allowed: one of these is
/// enough.
#[derive(Clone, Copy, Debug, PartialEq, Eq)]
pub struct RequiresOneOf {
    /// A minimum version of the device interface.
    pub api_version: Option<Version>,
    /// Enabled features of the device.
    pub features: &'static [&'static str],
    /// Enabled extensions of the device.
    pub device_extensions: &'static [&'static str],
    /// Enabled extensions of the instance.
    pub instance_extensions: &'static [&'static str],
}

impl RequiresOneOf {
    /// A requirement that names nothing.
    pub fn empty() -> (r: RequiresOneOf)
        ensures
            r.api_version is None,
            r.features@.len() == 0,
            r.device_extensions@.len() == 0,
            r.instance_extensions@.len() == 0,
    {
        let none: &'static [&'static str] = &[];
        RequiresOneOf {
            api_version: None,
            features: none,
            device_extensions: none,
            instance_extensions: none,
        }
    }
}

impl Default for RequiresOneOf {
    fn default() -> (r: RequiresOneOf)
        ensures
            r.api_version is None,
            r.features@.len() == 0,
            r.device_extensions@.len() == 0,
            r.instance_extensions@.len() == 0,
    {
        RequiresOneOf::empty()
    }
}

/// Something was asked for that the device does not allow as it was made.
#[derive(Clone, Copy, Debug, PartialEq, Eq)]
pub struct RequirementNotMet {
    /// What was asked for.
    pub required_for: &'static str,
    /// What would have allowed it.
    pub requires_one_of: RequiresOneOf,
}

/// The names of a list, as text.
pub open spec fn names(list: &[&'static str]) -> Seq<Seq<char>> {
    list@.map_values(|name: &'static str| name@)
}

/// Whether a requirement names what was asked for, a version, features and
/// extensions of the device as given, and no extension of the instance.
pub open spec fn requirement_says(
    required_for: &'static str,
    requires_one_of: RequiresOneOf,
    text: Seq<char>,
    api_version: Option<Version>,
    features: Seq<Seq<char>>,
    device_extensions: Seq<Seq<char>>,
) -> bool {
    &&& required_for@ == text
    &&& requires_one_of.api_version == api_version
    &&& names(requires_one_of.features) == features
    &&& names(requires_one_of.device_extensions) == device_extensions
    &&& requires_one_of.instance_extensions@.len() == 0
}

impl RequirementNotMet {
    /// Whether the requirement names what was asked for, a version, features
    /// and extensions of the device as given, and no extension of the
    /// instance.
    pub open spec fn says(
        self,
        text: Seq<char>,
        api_version: Option<Version>,
        features: Seq<Seq<char>>,
        device_extensions: Seq<Seq<char>>,
    ) -> bool {
        requirement_says(
            self.required_for,
            self.requires_one_of,
            text,
            api_version,
            features,
            device_extensions,
        )
    }

    /// A requirement that was not met.
    pub fn new(
        required_for: &'static str,
        api_version: Option<Version>,
        features: &'static [&'static str],
        device_extensions: &'static [&'static str],
    ) -> (r: RequirementNotMet)
        ensures
            r.says(required_for@, api_version, names(features), names(device_extensions)),
            r.required_for == required_for,
            r.requires_one_of.features == features,
            r.requires_one_of.device_extensions == device_extensions,
    {
        let none: &'static [&'static str] = &[];
        RequirementNotMet {
            required_for,
            requires_one_of: RequiresOneOf {
                api_version,
                features,
                device_extensions,
                instance_extensions: none,
            },
        }
    }
}

/// The figure of a digit.
pub open spec fn digit_spec(digit: nat) -> Seq<char> {
    if digit == 0 {
        "0"@
    } else if digit == 1 {
        "1"@
    } else if digit == 2 {
        "2"@
    } else if digit == 3 {
        "3"@
    } else if digit == 4 {
        "4"@
    } else if digit == 5 {
        "5"@
    } else if digit == 6 {
        "6"@
    } else if digit == 7 {
        "7"@
    } else if digit == 8 {
        "8"@
    } else {
        "9"@
    }
}

/// A number written in decimal figures, without leading zeros.
pub open spec fn decimal_spec(n: nat) -> Seq<char>
    decreases n,
{
    if n < 10 {
        digit_spec(n)
    } else {
        decimal_spec(n / 10) + digit_spec(n % 10)
    }
}

/// The figure of a digit.
fn digit(d: u32) -> (figure: &'static str)
    requires
        d < 10,
    ensures
        figure@ == digit_spec(d as nat),
{
    match d {
        0 => "0",
        1 => "1",
        2 => "2",
        3 => "3",
        4 => "4",
        5 => "5",
        6 => "6",
        7 => "7",
        8 => "8",
        _ => "9",
    }
}

/// Writes a number in decimal figures.
pub fn decimal(n: u32) -> (text: String)
    ensures
        text@ == decimal_spec(n as nat),
    decreases n,
{
    if n < 10 {
        digit(n).to_owned()
    } else {
        let mut text = decimal(n / 10);
        text.append(digit(n % 10));
        text
    }
}

/// The names up to place `upto`, each followed by a comma and a space.
pub open spec fn listed(list: Seq<Seq<char>>, upto: int) -> Seq<char>
    decreases upto,
{
    if upto <= 0 {
        Seq::empty()
    } else {
        listed(list, upto - 1) + list[upto - 1] + ", "@
    }
}

/// What is said of one kind of thing of which one would do: nothing where
/// the list is empty; else a comma where something was said before, the
/// word for one or for several, and the names with commas between them.
pub open spec fn members_spec(
    before: Seq<char>,
    one: Seq<char>,
    several: Seq<char>,
    list: Seq<Seq<char>>,
) -> Seq<char> {
    if list.len() == 0 {
        before
    } else {
        let start = if before.len() == 0 {
            before
        } else {
            before + ", "@
        };
        if list.len() == 1 {
            start + one + list[0]
        } else {
            start + several + listed(list, list.len() - 1) + list[list.len() - 1]
        }
    }
}

/// What is said of the version of which a later one would do.
pub open spec fn version_text(api_version: Option<Version>) -> Seq<char> {
    match api_version {
        Some(version) => "Vulkan API version "@ + decimal_spec(version.major as nat) + "."@
            + decimal_spec(version.minor as nat),
        None => Seq::empty(),
    }
}

/// Adds to `text` what is said of one kind of thing of which one would do.
fn append_members(text: &mut String, one: &'static str, several: &'static str, list: &'static [&'static str])
    ensures
        final(text)@ == members_spec(old(text)@, one@, several@, names(list)),
{
    let n = list.len();
    if n == 0 {
        return ;
    }
    if text.as_str().unicode_len() != 0 {
        text.append(", ");
    }
    let ghost start = text@;
    if n == 1 {
        text.append(one);
        text.append(list[0]);
        return ;
    }
    text.append(several);
    let mut i: usize = 0;
    while i < n - 1
        invariant
            n == list@.len(),
            n >= 2,
            i <= n - 1,
            text@ == start + several@ + listed(names(list), i as int),
        decreases n - 1 - i,
    {
        text.append(list[i]);
        text.append(", ");
        assert(text@ =~= start + several@ + listed(names(list), i + 1));
        i += 1;
    }
    text.append(list[n - 1]);
}

impl RequiresOneOf {
    /// What the requirement says: the version, the features and the
    /// extensions of which one would do, with commas between them.
    pub open spec fn to_string_spec(self) -> Seq<char> {
        members_spec(
            members_spec(
                members_spec(
                    version_text(self.api_version),
                    "feature "@,
                    "features "@,
                    names(self.features),
                ),
                "device extension "@,
                "device extensions "@,
                names(self.device_extensions),
            ),
            "instance extension "@,
            "instance extensions "@,
            names(self.instance_extensions),
        )
    }

    /// What the requirement says, in words.
    pub fn to_string(&self) -> (text: String)
        ensures
            text@ == self.to_string_spec(),
    {
        let mut text = String::new();
        match self.api_version {
            Some(version) => {
                text.append("Vulkan API version ");
                text.append(decimal(version.major).as_str());
                text.append(".");
                text.append(decimal(version.minor).as_str());
                assert(text@ =~= version_text(self.api_version));
            },
            None => {},
        }
        append_members(&mut text, "feature ", "features ", self.features);
        append_members(&mut text, "device extension ", "device extensions ", self.device_extensions);
        append_members(
            &mut text,
            "instance extension ",
            "instance extensions ",
            self.instance_extensions,
        );
        text
    }
}

/// A number of bytes written in decimal figures.
pub fn decimal_size(n: u64) -> (text: String)
    ensures
        text@ == decimal_spec(n as nat),
    decreases n,
{
    if n < 10 {
        digit(n as u32).to_owned()
    } else {
        let mut text = decimal_size(n / 10);
        text.append(digit((n % 10) as u32));
        text
    }
}

/// What is said of a requirement that was not met: what it was for, and
/// of what one would do.
pub open spec fn requirement_text(required_for: &'static str, requires_one_of: RequiresOneOf) -> Seq<
    char,
> {
    "a requirement was not met for: "@ + required_for@ + "; requires one of: "@
        + requires_one_of.to_string_spec()
}

/// Says of a requirement that was not met what it was for, and of what one
/// would do.
pub fn requirement_message(required_for: &'static str, requires_one_of: &RequiresOneOf) -> (text:
    String)
    ensures
        text@ == requirement_text(required_for, *requires_one_of),
{
    let mut text = "a requirement was not met for: ".to_owned();
    text.append(required_for);
    text.append("; requires one of: ");
    text.append(requires_one_of.to_string().as_str());
    text
}

} // verus!
