//! The home region of a storage bucket, and the client settings that follow
//! from a region.

use crate::text::{str_view, text_view};
use vstd::prelude::*;

verus! {

/// The provider's default region: the meaning of an empty location
/// constraint, and the fallback where no region is configured.
pub const DEFAULT_REGION: &'static str = "us-east-1";

/// The region that a location constraint stands for: the default region for
/// an empty constraint and for an absent one, the constraint itself
/// otherwise.
pub open spec fn region_of(location_constraint: Option<Seq<char>>) -> Seq<char> {
    match location_constraint {
        None => DEFAULT_REGION@,
        Some(constraint) => if constraint.len() == 0 {
            DEFAULT_REGION@
        } else {
            constraint
        },
    }
}

/// The default region has a name.
pub proof fn lemma_default_region_is_named()
    ensures
        DEFAULT_REGION@.len() == 9,
{
    reveal_strlit("us-east-1");
}

/// Resolves a bucket's region from the location constraint that the storage
/// service reported for it. A bucket in the default region is reported with
/// an empty constraint or with none; both stand for the default region.
pub fn bucket_region(location_constraint: Option<&str>) -> (region: String)
    ensures
        region@ == region_of(str_view(location_constraint)),
        region@.len() > 0,
{
    proof {
        lemma_default_region_is_named();
    }
    match location_constraint {
        None => DEFAULT_REGION.to_owned(),
        Some(constraint) => {
            if constraint.is_empty() {
                DEFAULT_REGION.to_owned()
            } else {
                constraint.to_owned()
            }
        },
    }
}

/// A resolved region is never empty, and an empty or absent constraint
/// resolves to the default region.
pub proof fn lemma_region_never_empty(location_constraint: Option<Seq<char>>)
    ensures
        region_of(location_constraint).len() > 0,
        location_constraint is None || location_constraint->0.len() == 0 ==> region_of(
            location_constraint,
        ) == DEFAULT_REGION@,
        location_constraint is Some && location_constraint->0.len() > 0 ==> region_of(
            location_constraint,
        ) == location_constraint->0,
{
    lemma_default_region_is_named();
}

/// Where a client takes its region from, as a mathematical value.
pub enum RegionSource {
    Fixed(Seq<char>),
    ProviderChainOr(Seq<char>),
}

/// Where a client takes its region from: a given region, or the environment's
/// provider chain with a fallback.
#[derive(Clone, Debug, PartialEq, Eq)]
pub enum RegionChoice {
    Fixed(String),
    ProviderChainOr(String),
}

impl View for RegionChoice {
    type V = RegionSource;

    open spec fn view(&self) -> RegionSource {
        match self {
            RegionChoice::Fixed(region) => RegionSource::Fixed(region@),
            RegionChoice::ProviderChainOr(fallback) => RegionSource::ProviderChainOr(fallback@),
        }
    }
}

/// The settings of a service client.
#[derive(Clone, Debug, PartialEq, Eq)]
pub struct ClientSettings {
    pub region: RegionChoice,
    /// Whether uploads that stall are aborted. Large uploads run long; the
    /// protection is off.
    pub stalled_stream_protection: bool,
}

/// The region source for an optional region.
pub open spec fn region_source(region: Option<Seq<char>>) -> RegionSource {
    match region {
        Some(name) => RegionSource::Fixed(name),
        None => RegionSource::ProviderChainOr(DEFAULT_REGION@),
    }
}

/// The client settings for an optional region: the region if one is given,
/// else the provider chain with the default region as fallback; the
/// stalled-stream protection is always off.
pub fn load_config(region: Option<String>) -> (settings: ClientSettings)
    ensures
        settings.region@ == region_source(text_view(region)),
        !settings.stalled_stream_protection,
{
    let region = match region {
        Some(name) => RegionChoice::Fixed(name),
        None => RegionChoice::ProviderChainOr(DEFAULT_REGION.to_owned()),
    };
    ClientSettings { region, stalled_stream_protection: false }
}

} // verus!
