//! Identities of VFIO-bound NVMe devices, kept by bdev name.

use crate::identity::{DeviceIdentity, IdentityModel};
use vstd::hash_map::StringHashMap;
use vstd::prelude::*;

verus! {

/// Cache of [`DeviceIdentity`] for VFIO-bound NVMe devices, keyed by bdev name. Identity requires
/// a separate NVMe Identify Controller admin command from the health log page, and, unlike
/// health, never changes, so it's fetched once per device and reused rather than re-issued on
/// every health request.
pub struct NvmeIdentityCache {
    entries: StringHashMap<DeviceIdentity>,
}

impl View for NvmeIdentityCache {
    type V = Map<Seq<char>, IdentityModel>;

    closed spec fn view(&self) -> Map<Seq<char>, IdentityModel> {
        self.entries@.map_values(|identity: DeviceIdentity| identity@)
    }
}

/// What a cache answers for `name`.
pub open spec fn cached(
    entries: Map<Seq<char>, IdentityModel>,
    name: Seq<char>,
) -> Option<IdentityModel> {
    if entries.contains_key(name) {
        Some(entries[name])
    } else {
        None
    }
}

impl NvmeIdentityCache {
    /// A cache in which nothing has been stored.
    pub fn new() -> (r: Self)
        ensures
            r@ == Map::<Seq<char>, IdentityModel>::empty(),
    {
        let r = NvmeIdentityCache { entries: StringHashMap::new() };
        assert(r@ =~= Map::<Seq<char>, IdentityModel>::empty());
        r
    }
}

/// Look up a cached VFIO NVMe device identity, if one has already been fetched for `name`.
pub fn cached_nvme_identity(cache: &NvmeIdentityCache, name: &str) -> (r: Option<DeviceIdentity>)
    ensures
        match r {
            Some(identity) => cached(cache@, name@) == Some(identity@),
            None => cached(cache@, name@) is None,
        },
{
    match cache.entries.get(name) {
        Some(identity) => Some(identity.clone()),
        None => None,
    }
}

/// Cache a freshly-fetched VFIO NVMe device identity for `name`, in place of one that was cached
/// for it before.
pub fn cache_nvme_identity(cache: &mut NvmeIdentityCache, name: &str, identity: DeviceIdentity)
    ensures
        final(cache)@ == old(cache)@.insert(name@, identity@),
{
    cache.entries.insert(name.to_string(), identity);
    assert(cache@ =~= old(cache)@.insert(name@, identity@));
}

} // verus!
