use vstd::prelude::*;

verus! {

/// A target API version as a (major, minor, patch) triple.
#[derive(Clone, Copy, Debug, PartialEq, Eq, Structural)]
pub struct ApiVersion {
    pub major: u32,
    pub minor: u32,
    pub patch: u32,
}

/// Largest values that fit the bit fields of a packed version number:
/// 7 bits of major, 10 bits of minor and 12 bits of patch.
pub const MAX_MAJOR: u32 = 127;
pub const MAX_MINOR: u32 = 1023;
pub const MAX_PATCH: u32 = 4095;

impl ApiVersion {
    /// Each component fits its field of the packed encoding.
    pub open spec fn wf(self) -> bool {
        &&& self.major <= MAX_MAJOR
        &&& self.minor <= MAX_MINOR
        &&& self.patch <= MAX_PATCH
    }

    /// The packed number of this version, with variant 0.
    pub open spec fn packed(self) -> int {
        self.major * 0x40_0000 + self.minor * 0x1000 + self.patch
    }

    /// The version that nothing has been set for.
    pub fn zero() -> (r: ApiVersion)
        ensures
            r.major == 0 && r.minor == 0 && r.patch == 0,
            r.wf(),
    {
        ApiVersion { major: 0, minor: 0, patch: 0 }
    }

    pub fn is_valid(&self) -> (r: bool)
        ensures
            r == self.wf(),
    {
        self.major <= MAX_MAJOR && self.minor <= MAX_MINOR && self.patch <= MAX_PATCH
    }

    /// The packed 32-bit number that the API takes for this version.
    pub fn encode(&self) -> (r: u32)
        requires
            self.wf(),
        ensures
            r as int == self.packed(),
    {
        let r = make_version(0, self.major, self.minor, self.patch);
        let (major, minor, patch) = (self.major, self.minor, self.patch);
        assert(((0u32 << 29u32) | (major << 22u32) | (minor << 12u32) | patch) == major * 0x40_0000u32
            + minor * 0x1000u32 + patch) by (bit_vector)
            requires
                major <= 127u32,
                minor <= 1023u32,
                patch <= 4095u32,
        ;
        r
    }
}

/// Relies on ash's `vk::make_api_version`: the variant, major, minor and
/// patch numbers shifted to bits 29, 22, 12 and 0 and or-ed together.
#[verifier::external_body]
fn make_version(variant: u32, major: u32, minor: u32, patch: u32) -> (r: u32)
    ensures
        r == (variant << 29u32) | (major << 22u32) | (minor << 12u32) | patch,
{
    ash::vk::make_api_version(variant, major, minor, patch)
}

} // verus!
