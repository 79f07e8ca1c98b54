//! The platform of an entry as a caller names it.

use vstd::prelude::*;
use vstd::std_specs::convert::FromSpecImpl;
use crate::metadata::{Platform, PlatformView};

verus! {

/// The platforms that a caller can name.
#[derive(Debug, Clone, Copy, PartialEq, Eq, Structural)]
pub enum PlatformLimited {
    Unknown,
    Steam,
    DLSite,
}

/// A platform and the id of an entry on it.
#[derive(Debug, Clone, PartialEq, Eq)]
pub struct PlatformInfo {
    pub name: PlatformLimited,
    pub id: Option<String>,
}

impl PlatformLimited {
    /// The platform of the catalogue that the name stands for.
    pub open spec fn platform(self) -> PlatformView {
        match self {
            PlatformLimited::Unknown => PlatformView::Unknown,
            PlatformLimited::Steam => PlatformView::Steam,
            PlatformLimited::DLSite => PlatformView::DLSite,
        }
    }

    /// The platform of the catalogue that the name stands for.
    pub fn into_platform(self) -> (r: Platform)
        ensures
            r@ == self.platform(),
    {
        match self {
            PlatformLimited::Unknown => Platform::Unknown,
            PlatformLimited::Steam => Platform::Steam,
            PlatformLimited::DLSite => Platform::DLSite,
        }
    }
}

impl From<PlatformLimited> for Platform {
    fn from(name: PlatformLimited) -> (r: Platform) {
        name.into_platform()
    }
}

impl FromSpecImpl<PlatformLimited> for Platform {
    open spec fn obeys_from_spec() -> bool {
        true
    }

    open spec fn from_spec(name: PlatformLimited) -> Platform {
        match name {
            PlatformLimited::Unknown => Platform::Unknown,
            PlatformLimited::Steam => Platform::Steam,
            PlatformLimited::DLSite => Platform::DLSite,
        }
    }
}

} // verus!
