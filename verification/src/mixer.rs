use vstd::prelude::*;

verus! {

/// The highest level of a mixer's integer volume scale.
pub open spec fn max_volume_level() -> u16 {
    u16::MAX
}

/// The lowest level of a mixer's integer volume scale.
pub open spec fn min_volume_level() -> u16 {
    0
}

/// Reads `librespot::playback::config::VolumeCtrl::MAX_VOLUME`, the highest
/// level that a mixer of the playback crate takes. The crate defines it as
/// the highest `u16`; that is what the contract claims, unproved.
#[verifier::external_body]
pub(crate) fn max_volume() -> (level: u16)
    ensures
        level == max_volume_level(),
{
    librespot::playback::config::VolumeCtrl::MAX_VOLUME
}

} // verus!
