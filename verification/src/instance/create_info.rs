use vstd::prelude::*;
use core::cmp::Ordering;

verus! {

/// Packs a version the way `VK_MAKE_API_VERSION` does.
pub open spec fn spec_make_api_version(variant: u32, major: u32, minor: u32, patch: u32) -> u32 {
    (variant << 29u32) | (major << 22u32) | (minor << 12u32) | patch
}

/// `ash::vk::make_api_version`: packs the four parts into one word as
/// `variant << 29 | major << 22 | minor << 12 | patch`, bits shifted out of the
/// word being lost.
#[verifier::external_body]
fn make_api_version(variant: u32, major: u32, minor: u32, patch: u32) -> (r: u32)
    ensures
        r == spec_make_api_version(variant, major, minor, patch),
{
    ash::vk::make_api_version(variant, major, minor, patch)
}

/// `ash::vk::api_version_variant`: the top three bits of the word.
#[verifier::external_body]
fn api_version_variant(version: u32) -> (r: u32)
    ensures
        r == version >> 29u32,
{
    ash::vk::api_version_variant(version)
}

/// `ash::vk::api_version_major`: the seven bits above bit 22.
#[verifier::external_body]
fn api_version_major(version: u32) -> (r: u32)
    ensures
        r == (version >> 22u32) & 0x7fu32,
{
    ash::vk::api_version_major(version)
}

/// `ash::vk::api_version_minor`: the ten bits above bit 12.
#[verifier::external_body]
fn api_version_minor(version: u32) -> (r: u32)
    ensures
        r == (version >> 12u32) & 0x3ffu32,
{
    ash::vk::api_version_minor(version)
}

/// `ash::vk::api_version_patch`: the low twelve bits.
#[verifier::external_body]
fn api_version_patch(version: u32) -> (r: u32)
    ensures
        r == version & 0xfffu32,
{
    ash::vk::api_version_patch(version)
}

/// A Vulkan version number in its packed form.
#[derive(Debug, Default, Clone, Copy, PartialEq, Eq, Hash, Structural)]
pub struct Version(u32);

impl View for Version {
    type V = u32;

    closed spec fn view(&self) -> u32 {
        self.0
    }
}

impl Version {
    pub open spec fn spec_variant(self) -> u32 {
        self@ >> 29u32
    }

    pub open spec fn spec_major(self) -> u32 {
        (self@ >> 22u32) & 0x7fu32
    }

    pub open spec fn spec_minor(self) -> u32 {
        (self@ >> 12u32) & 0x3ffu32
    }

    pub open spec fn spec_patch(self) -> u32 {
        self@ & 0xfffu32
    }

    pub fn new(variant: u32, major: u32, minor: u32, patch: u32) -> (r: Self)
        ensures
            r@ == spec_make_api_version(variant, major, minor, patch),
    {
        Version(make_api_version(variant, major, minor, patch))
    }

    pub fn major(&self) -> (r: u32)
        ensures
            r == self.spec_major(),
    {
        api_version_major(self.0)
    }

    pub fn minor(&self) -> (r: u32)
        ensures
            r == self.spec_minor(),
    {
        api_version_minor(self.0)
    }

    pub fn patch(&self) -> (r: u32)
        ensures
            r == self.spec_patch(),
    {
        api_version_patch(self.0)
    }

    pub fn variant(&self) -> (r: u32)
        ensures
            r == self.spec_variant(),
    {
        api_version_variant(self.0)
    }

    /// The packed word.
    pub fn into_raw(self) -> (r: u32)
        ensures
            r == self@,
    {
        self.0
    }
}

/// Each part of a version comes back unchanged from the packed form, as long as
/// it fits its field (3 bits of variant, 7 of major, 10 of minor, 12 of patch).
pub proof fn lemma_version_parts_round_trip(variant: u32, major: u32, minor: u32, patch: u32)
    requires
        variant < 8,
        major < 128,
        minor < 1024,
        patch < 4096,
    ensures
        ({
            let v = spec_make_api_version(variant, major, minor, patch);
            &&& v >> 29u32 == variant
            &&& (v >> 22u32) & 0x7fu32 == major
            &&& (v >> 12u32) & 0x3ffu32 == minor
            &&& v & 0xfffu32 == patch
        }),
{
    assert(((variant << 29u32) | (major << 22u32) | (minor << 12u32) | patch) >> 29u32 == variant
        && ((((variant << 29u32) | (major << 22u32) | (minor << 12u32) | patch) >> 22u32) & 0x7fu32)
        == major && ((((variant << 29u32) | (major << 22u32) | (minor << 12u32) | patch) >> 12u32)
        & 0x3ffu32) == minor && (((variant << 29u32) | (major << 22u32) | (minor << 12u32) | patch)
        & 0xfffu32) == patch) by (bit_vector)
        requires
            variant < 8,
            major < 128,
            minor < 1024,
            patch < 4096,
    ;
}

impl From<Version> for u32 {
    fn from(value: Version) -> (r: u32) {
        value.0
    }
}

impl vstd::std_specs::convert::FromSpecImpl<Version> for u32 {
    open spec fn obeys_from_spec() -> bool {
        true
    }

    open spec fn from_spec(v: Version) -> u32 {
        v@
    }
}

/// Three-way comparison of two integers.
pub open spec fn order_of_u32(a: u32, b: u32) -> Ordering {
    if a < b {
        Ordering::Less
    } else if a == b {
        Ordering::Equal
    } else {
        Ordering::Greater
    }
}

/// How two versions order: by variant, then (again) by variant, then by minor,
/// then by patch. The major number takes no part in it.
pub open spec fn version_order(a: Version, b: Version) -> Ordering {
    let first = order_of_u32(a.spec_variant(), b.spec_variant());
    if first != Ordering::Equal {
        first
    } else {
        let minor = order_of_u32(a.spec_minor(), b.spec_minor());
        if minor != Ordering::Equal {
            minor
        } else {
            order_of_u32(a.spec_patch(), b.spec_patch())
        }
    }
}

fn order_u32(a: u32, b: u32) -> (r: Ordering)
    ensures
        r == order_of_u32(a, b),
{
    if a < b {
        Ordering::Less
    } else if a == b {
        Ordering::Equal
    } else {
        Ordering::Greater
    }
}

impl PartialOrd for Version {
    fn partial_cmp(&self, other: &Self) -> (r: Option<Ordering>) {
        let variant = order_u32(self.variant(), other.variant());
        let repeated = order_u32(self.variant(), other.variant());
        let result = match variant {
            Ordering::Equal => match repeated {
                Ordering::Equal => match order_u32(self.minor(), other.minor()) {
                    Ordering::Equal => order_u32(self.patch(), other.patch()),
                    found => found,
                },
                found => found,
            },
            found => found,
        };
        Some(result)
    }
}

impl vstd::std_specs::cmp::PartialOrdSpecImpl for Version {
    open spec fn obeys_partial_cmp_spec() -> bool {
        true
    }

    open spec fn partial_cmp_spec(&self, other: &Self) -> Option<Ordering> {
        Some(version_order(*self, *other))
    }
}

/// The opposite ordering.
pub open spec fn reversed_order(o: Ordering) -> Ordering {
    match o {
        Ordering::Less => Ordering::Greater,
        Ordering::Equal => Ordering::Equal,
        Ordering::Greater => Ordering::Less,
    }
}

/// Swapping two versions reverses how they compare.
pub proof fn lemma_version_order_antisymmetric(a: Version, b: Version)
    ensures
        version_order(a, b) == reversed_order(version_order(b, a)),
{
}

/// Versions that differ only in the major number compare equal.
pub proof fn lemma_version_order_ignores_major(a: Version, b: Version)
    requires
        a.spec_variant() == b.spec_variant(),
        a.spec_minor() == b.spec_minor(),
        a.spec_patch() == b.spec_patch(),
    ensures
        version_order(a, b) == Ordering::Equal,
{
}

/// The comparison is transitive: a version ordered no later than a second one,
/// which is ordered no later than a third, is ordered no later than the third;
/// and strictly so when either step is strict.
pub proof fn lemma_version_order_transitive(a: Version, b: Version, c: Version)
    requires
        version_order(a, b) != Ordering::Greater,
        version_order(b, c) != Ordering::Greater,
    ensures
        version_order(a, c) != Ordering::Greater,
        (version_order(a, b) == Ordering::Less || version_order(b, c) == Ordering::Less)
            ==> version_order(a, c) == Ordering::Less,
{
}

/// Names and versions of the application, its engine and the Vulkan API it targets.
#[derive(Debug, Default, Clone, Copy, PartialEq, Eq, Hash)]
pub struct AppId {
    pub app_version: Version,
    pub engine_version: Version,
    pub vulkan_version: Version,
    pub app_name: &'static str,
    pub engine_name: &'static str,
}

/// Whether an API version is refused: it is not zero (which means "unspecified")
/// and orders below Vulkan 1.0.
pub open spec fn spec_api_version_refused(v: Version) -> bool {
    v@ != 0 && version_order(v, vulkan_1_0()) == Ordering::Less
}

/// Vulkan 1.0, as `ash::vk::API_VERSION_1_0` packs it.
pub closed spec fn vulkan_1_0() -> Version {
    Version(spec_make_api_version(0, 1, 0, 0))
}

/// The packed form of Vulkan 1.0.
pub proof fn lemma_vulkan_1_0()
    ensures
        vulkan_1_0()@ == spec_make_api_version(0, 1, 0, 0),
{
}

impl AppId {
    /// Checks the requested API version; `Err` carries a refused version.
    pub fn validate(&self) -> (r: Result<(), Version>)
        ensures
            spec_api_version_refused(self.vulkan_version) ==> r == Err::<(), Version>(
                self.vulkan_version,
            ),
            !spec_api_version_refused(self.vulkan_version) ==> r == Ok::<(), Version>(()),
    {
        let v1_0 = Version::new(0, 1, 0, 0);
        let raw: u32 = self.vulkan_version.into_raw();
        if raw != 0 && self.vulkan_version < v1_0 {
            Err(self.vulkan_version)
        } else {
            Ok(())
        }
    }
}

/// Since the comparison looks at variant, minor and patch only, and Vulkan 1.0 has
/// all three at zero, no version orders below it: `AppId::validate` accepts all.
pub proof fn lemma_no_api_version_refused(v: Version)
    ensures
        !spec_api_version_refused(v),
{
    assert(((0u32 << 29u32) | (1u32 << 22u32) | (0u32 << 12u32) | 0u32) == 0x400000u32)
        by (bit_vector);
    assert(0x400000u32 >> 29u32 == 0u32 && (0x400000u32 >> 12u32) & 0x3ffu32 == 0u32
        && 0x400000u32 & 0xfffu32 == 0u32) by (bit_vector);
}

/// What the instance is created with.
#[derive(Default, Debug, Clone, Copy)]
pub struct InstanceCreateInfo {
    pub app_id: AppId,
}

} // verus!
