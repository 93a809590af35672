//! The recognized game versions and, for each, the addresses of its features within the image.
use vstd::prelude::*;

verus! {

/// A release of the game that this library has an address table for.
#[allow(non_camel_case_types)]
#[derive(Clone, Copy, Debug, PartialEq, Eq, Structural)]
pub enum Version {
    V1_02_0,
    V1_03_0,
    V1_04_0,
    V1_05_0,
    V1_06_0,
}

/// The version number `(major, minor, patch)` of each release.
pub open spec fn version_triple(v: Version) -> (u32, u32, u32) {
    match v {
        Version::V1_02_0 => (1, 2, 0),
        Version::V1_03_0 => (1, 3, 0),
        Version::V1_04_0 => (1, 4, 0),
        Version::V1_05_0 => (1, 5, 0),
        Version::V1_06_0 => (1, 6, 0),
    }
}

/// A version number that no known release carries.
#[derive(Clone, Copy, Debug, PartialEq, Eq, Structural)]
pub struct UnrecognizedVersion {
    pub major: u32,
    pub minor: u32,
    pub patch: u32,
}

/// The release with version number `t`, if there is one.
pub open spec fn version_of(t: (u32, u32, u32)) -> Result<Version, UnrecognizedVersion> {
    if t == (1u32, 2u32, 0u32) {
        Ok(Version::V1_02_0)
    } else if t == (1u32, 3u32, 0u32) {
        Ok(Version::V1_03_0)
    } else if t == (1u32, 4u32, 0u32) {
        Ok(Version::V1_04_0)
    } else if t == (1u32, 5u32, 0u32) {
        Ok(Version::V1_05_0)
    } else if t == (1u32, 6u32, 0u32) {
        Ok(Version::V1_06_0)
    } else {
        Err(UnrecognizedVersion { major: t.0, minor: t.1, patch: t.2 })
    }
}

impl Version {
    /// The version number as three small integers.
    pub fn tuple(&self) -> (r: (u8, u8, u8))
        ensures
            r.0 as u32 == version_triple(*self).0,
            r.1 as u32 == version_triple(*self).1,
            r.2 as u32 == version_triple(*self).2,
    {
        match self {
            Version::V1_02_0 => (1, 2, 0),
            Version::V1_03_0 => (1, 3, 0),
            Version::V1_04_0 => (1, 4, 0),
            Version::V1_05_0 => (1, 5, 0),
            Version::V1_06_0 => (1, 6, 0),
        }
    }
}

impl TryFrom<(u32, u32, u32)> for Version {
    type Error = UnrecognizedVersion;

    /// The release that carries a version number; an unknown number is an error that the
    /// caller decides about.
    fn try_from(t: (u32, u32, u32)) -> (r: Result<Version, UnrecognizedVersion>) {
        match t {
            (1, 2, 0) => Ok(Version::V1_02_0),
            (1, 3, 0) => Ok(Version::V1_03_0),
            (1, 4, 0) => Ok(Version::V1_04_0),
            (1, 5, 0) => Ok(Version::V1_05_0),
            (1, 6, 0) => Ok(Version::V1_06_0),
            (major, minor, patch) => Err(UnrecognizedVersion { major, minor, patch }),
        }
    }
}

impl vstd::std_specs::convert::TryFromSpecImpl<(u32, u32, u32)> for Version {
    open spec fn obeys_try_from_spec() -> bool {
        true
    }

    open spec fn try_from_spec(t: (u32, u32, u32)) -> Result<Version, UnrecognizedVersion> {
        version_of(t)
    }
}

/// Each known release is recognized by its own version number, and only by it.
pub proof fn lemma_version_round_trip(v: Version, t: (u32, u32, u32))
    ensures
        version_of(version_triple(v)) == Ok::<Version, UnrecognizedVersion>(v),
        version_of(t) is Ok ==> version_triple(version_of(t)->Ok_0) == t,
{
}

/// Addresses of the features that the tool uses: offsets within the image in a table of a
/// release, absolute addresses once the image's load address has been added.
#[derive(Clone, Copy, Debug, PartialEq, Eq, Structural)]
pub struct BaseAddresses {
    pub quitout: usize,
    pub render_world: usize,
    pub debug_render: usize,
    pub igt: usize,
    pub player_position: usize,
    pub debug_flags: usize,
    pub show_cursor: usize,
    pub no_logo: usize,
}

/// The table of each release, as found by scanning its image.
pub open spec fn table_of(v: Version) -> BaseAddresses {
    match v {
        Version::V1_02_0 => BaseAddresses {
            quitout: 0x3b55048,
            render_world: 0x39007c8,
            debug_render: 0x3b65bc0,
            igt: 0x3b47cf0,
            player_position: 0x3b67df0,
            debug_flags: 0x3b67f59,
            show_cursor: 0x3b77048,
            no_logo: 0xdebf2b,
        },
        Version::V1_03_0 | Version::V1_04_0 => BaseAddresses {
            quitout: 0x3b56088,
            render_world: 0x39017c8,
            debug_render: 0x3b66c00,
            igt: 0x3b48d30,
            player_position: 0x3b68e30,
            debug_flags: 0x3b68f99,
            show_cursor: 0x3b78088,
            no_logo: 0xdec85b,
        },
        Version::V1_05_0 => BaseAddresses {
            quitout: 0x3d67368,
            render_world: 0x3b01838,
            debug_render: 0x3d77f04,
            igt: 0x3d5aa20,
            player_position: 0x3d7a140,
            debug_flags: 0x3d7a2c9,
            show_cursor: 0x3d8986c,
            no_logo: 0xe1b1ab,
        },
        Version::V1_06_0 => BaseAddresses {
            quitout: 0x3d67408,
            render_world: 0x3b01838,
            debug_render: 0x3d77fa4,
            igt: 0x3d5aac0,
            player_position: 0x3d7a1e0,
            debug_flags: 0x3d7a369,
            show_cursor: 0x3d8990c,
            no_logo: 0xe1b51b,
        },
    }
}

impl BaseAddresses {
    /// Every address plus `base` is still an address.
    pub open spec fn fits_base(&self, base: int) -> bool {
        &&& self.quitout + base <= usize::MAX
        &&& self.render_world + base <= usize::MAX
        &&& self.debug_render + base <= usize::MAX
        &&& self.igt + base <= usize::MAX
        &&& self.player_position + base <= usize::MAX
        &&& self.debug_flags + base <= usize::MAX
        &&& self.show_cursor + base <= usize::MAX
        &&& self.no_logo + base <= usize::MAX
    }

    /// The table with `base` added to every address.
    pub open spec fn shifted(&self, base: int) -> BaseAddresses {
        BaseAddresses {
            quitout: (self.quitout + base) as usize,
            render_world: (self.render_world + base) as usize,
            debug_render: (self.debug_render + base) as usize,
            igt: (self.igt + base) as usize,
            player_position: (self.player_position + base) as usize,
            debug_flags: (self.debug_flags + base) as usize,
            show_cursor: (self.show_cursor + base) as usize,
            no_logo: (self.no_logo + base) as usize,
        }
    }

    /// The absolute addresses in an image loaded at `base`.
    pub fn with_module_base_addr(self, base: usize) -> (r: BaseAddresses)
        requires
            self.fits_base(base as int),
        ensures
            r == self.shifted(base as int),
    {
        BaseAddresses {
            quitout: self.quitout + base,
            render_world: self.render_world + base,
            debug_render: self.debug_render + base,
            igt: self.igt + base,
            player_position: self.player_position + base,
            debug_flags: self.debug_flags + base,
            show_cursor: self.show_cursor + base,
            no_logo: self.no_logo + base,
        }
    }
}

impl From<Version> for BaseAddresses {
    /// The table of a release.
    fn from(v: Version) -> (r: BaseAddresses) {
        match v {
            Version::V1_02_0 => BaseAddresses {
                quitout: 0x3b55048,
                render_world: 0x39007c8,
                debug_render: 0x3b65bc0,
                igt: 0x3b47cf0,
                player_position: 0x3b67df0,
                debug_flags: 0x3b67f59,
                show_cursor: 0x3b77048,
                no_logo: 0xdebf2b,
            },
            Version::V1_03_0 | Version::V1_04_0 => BaseAddresses {
                quitout: 0x3b56088,
                render_world: 0x39017c8,
                debug_render: 0x3b66c00,
                igt: 0x3b48d30,
                player_position: 0x3b68e30,
                debug_flags: 0x3b68f99,
                show_cursor: 0x3b78088,
                no_logo: 0xdec85b,
            },
            Version::V1_05_0 => BaseAddresses {
                quitout: 0x3d67368,
                render_world: 0x3b01838,
                debug_render: 0x3d77f04,
                igt: 0x3d5aa20,
                player_position: 0x3d7a140,
                debug_flags: 0x3d7a2c9,
                show_cursor: 0x3d8986c,
                no_logo: 0xe1b1ab,
            },
            Version::V1_06_0 => BaseAddresses {
                quitout: 0x3d67408,
                render_world: 0x3b01838,
                debug_render: 0x3d77fa4,
                igt: 0x3d5aac0,
                player_position: 0x3d7a1e0,
                debug_flags: 0x3d7a369,
                show_cursor: 0x3d8990c,
                no_logo: 0xe1b51b,
            },
        }
    }
}

impl vstd::std_specs::convert::FromSpecImpl<Version> for BaseAddresses {
    open spec fn obeys_from_spec() -> bool {
        true
    }

    open spec fn from_spec(v: Version) -> BaseAddresses {
        table_of(v)
    }
}

} // verus!
