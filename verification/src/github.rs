//! Releases and their assets, and the rule that decides which asset may
//! reach which device.

use vstd::prelude::*;
use crate::device::{ConnectedDevice, ConnectedDeviceType};
use crate::sequence::{first_index, lemma_first_index, lemma_first_index_found, lemma_first_index_next};
use crate::text::{contains, has_substring};

verus! {

/// One downloadable binary of a release.
#[derive(Debug, PartialEq, Eq)]
pub struct Asset {
    pub name: String,
    pub browser_download_url: String,
}

/// An [`Asset`] as sequences of characters.
pub struct AssetView {
    pub name: Seq<char>,
    pub browser_download_url: Seq<char>,
}

impl DeepView for Asset {
    type V = AssetView;

    open spec fn deep_view(&self) -> AssetView {
        AssetView { name: self.name@, browser_download_url: self.browser_download_url@ }
    }
}

impl View for Asset {
    type V = AssetView;

    open spec fn view(&self) -> AssetView {
        self.deep_view()
    }
}

/// One published version of a firmware, with its assets in catalog order.
#[derive(Debug, PartialEq, Eq)]
pub struct Release {
    pub tag_name: String,
    pub assets: Vec<Asset>,
}

/// A [`Release`] as sequences.
pub struct ReleaseView {
    pub tag_name: Seq<char>,
    pub assets: Seq<AssetView>,
}

impl DeepView for Release {
    type V = ReleaseView;

    open spec fn deep_view(&self) -> ReleaseView {
        ReleaseView { tag_name: self.tag_name@, assets: self.assets.deep_view() }
    }
}

impl View for Release {
    type V = ReleaseView;

    open spec fn view(&self) -> ReleaseView {
        self.deep_view()
    }
}

impl Clone for Asset {
    fn clone(&self) -> (copy: Self)
        ensures
            copy@ == self@,
    {
        Asset { name: self.name.clone(), browser_download_url: self.browser_download_url.clone() }
    }
}

impl Clone for Release {
    fn clone(&self) -> (copy: Self)
        ensures
            copy@ == self@,
    {
        let mut assets: Vec<Asset> = Vec::new();
        let mut i: usize = 0;
        while i < self.assets.len()
            invariant
                i <= self.assets.len(),
                assets.len() == i,
                forall|k: int| 0 <= k < i ==> assets[k]@ == self.assets[k]@,
            decreases self.assets.len() - i,
        {
            assets.push(self.assets[i].clone());
            i += 1;
        }
        assert(assets.deep_view() =~= self.assets.deep_view());
        Release { tag_name: self.tag_name.clone(), assets }
    }
}

impl AssetView {
    /// The asset may be installed on a device of this type: the type has a
    /// firmware tag, and the asset's name holds it.
    pub open spec fn is_compatible(self, device_type: ConnectedDeviceType) -> bool {
        match device_type.firmware_tag_of() {
            Some(tag) => has_substring(self.name, tag),
            None => false,
        }
    }
}

/// The position of the first asset in `assets` that is compatible with the
/// device type, if there is one.
pub open spec fn first_compatible(assets: Seq<AssetView>, device_type: ConnectedDeviceType) -> Option<int> {
    first_index(assets, |a: AssetView| a.is_compatible(device_type))
}

impl ReleaseView {
    /// At least one asset of the release is compatible with the device type.
    pub open spec fn is_usable(self, device_type: ConnectedDeviceType) -> bool {
        exists|i: int| 0 <= i < self.assets.len() && (#[trigger] self.assets[i]).is_compatible(device_type)
    }
}

/// The releases of `list` that a device of this type can use, in the order
/// of `list`.
pub open spec fn usable_releases(list: Seq<ReleaseView>, device_type: ConnectedDeviceType) -> Seq<ReleaseView> {
    list.filter(|r: ReleaseView| r.is_usable(device_type))
}

/// `first_compatible` gives the least position of a compatible asset, and
/// gives none exactly where no asset is compatible.
pub proof fn lemma_first_compatible(assets: Seq<AssetView>, device_type: ConnectedDeviceType)
    ensures
        match first_compatible(assets, device_type) {
            Some(i) => {
                &&& 0 <= i < assets.len()
                &&& assets[i].is_compatible(device_type)
                &&& forall|j: int| 0 <= j < i ==> !(#[trigger] assets[j]).is_compatible(device_type)
            },
            None => forall|j: int| 0 <= j < assets.len() ==> !(#[trigger] assets[j]).is_compatible(device_type),
        },
{
    lemma_first_index(assets, |a: AssetView| a.is_compatible(device_type));
}

/// Whether an asset is compatible is decided by its name and the device's
/// type: two assets of one name get one answer, whatever else differs.
pub proof fn lemma_compatibility_by_name_and_type(a: AssetView, b: AssetView, device_type: ConnectedDeviceType)
    requires
        a.name == b.name,
    ensures
        a.is_compatible(device_type) == b.is_compatible(device_type),
{
}

/// A release is usable exactly where it has a first compatible asset.
pub proof fn lemma_usable_iff_first(release: ReleaseView, device_type: ConnectedDeviceType)
    ensures
        release.is_usable(device_type) <==> first_compatible(release.assets, device_type) is Some,
{
    lemma_first_compatible(release.assets, device_type);
}

/// No asset is compatible with a device that sits in a bootloader or is
/// unknown, so no release is usable for it.
pub proof fn lemma_nothing_fits_a_bootloader(release: ReleaseView, device_type: ConnectedDeviceType)
    requires
        !device_type.is_application(),
    ensures
        !release.is_usable(device_type),
        first_compatible(release.assets, device_type) is None,
{
    lemma_first_compatible(release.assets, device_type);
}

/// Every release that `usable_releases` keeps is usable, every usable
/// release of the list is kept, and none is added.
pub proof fn lemma_usable_releases(list: Seq<ReleaseView>, device_type: ConnectedDeviceType)
    ensures
        forall|i: int|
            0 <= i < usable_releases(list, device_type).len() ==> (#[trigger] usable_releases(
                list,
                device_type,
            )[i]).is_usable(device_type),
        forall|i: int|
            0 <= i < usable_releases(list, device_type).len() ==> list.contains(
                #[trigger] usable_releases(list, device_type)[i],
            ),
        forall|i: int|
            0 <= i < list.len() && (#[trigger] list[i]).is_usable(device_type) ==> usable_releases(
                list,
                device_type,
            ).contains(list[i]),
        usable_releases(list, device_type).len() <= list.len(),
{
    let pred = |r: ReleaseView| r.is_usable(device_type);
    let kept = list.filter(pred);
    assert forall|i: int| 0 <= i < kept.len() implies (#[trigger] kept[i]).is_usable(device_type) by {
        list.lemma_filter_pred(pred, i);
    }
    assert forall|i: int| 0 <= i < kept.len() implies list.contains(#[trigger] kept[i]) by {
        assert(kept.contains(kept[i]));
        list.lemma_filter_contains_rev(pred, kept[i]);
    }
    assert forall|i: int| 0 <= i < list.len() && (#[trigger] list[i]).is_usable(device_type) implies kept.contains(
        list[i],
    ) by {
        list.lemma_filter_contains(pred, i);
    }
    list.lemma_filter_len(pred);
}

impl Asset {
    /// Whether this asset may be installed on `device`. The answer depends
    /// on the asset's name and the device's type, and on nothing else.
    pub fn is_compatible(&self, device: &ConnectedDevice) -> (fits: bool)
        ensures
            fits == self@.is_compatible(device.device_type),
    {
        match device.device_type.firmware_tag() {
            Some(tag) => contains(self.name.as_str(), tag),
            None => false,
        }
    }
}

/// The position in `release.assets` of the first asset that is compatible
/// with `device`.
pub fn find_compatible_asset(device: &ConnectedDevice, release: &Release) -> (found: Option<usize>)
    ensures
        match found {
            Some(i) => first_compatible(release@.assets, device.device_type) == Some(i as int),
            None => first_compatible(release@.assets, device.device_type) is None,
        },
        found matches Some(i) ==> i < release.assets.len(),
{
    let ghost all = release@.assets;
    let ghost fits = |a: AssetView| a.is_compatible(device.device_type);
    let mut i: usize = 0;
    while i < release.assets.len()
        invariant
            i <= release.assets.len(),
            all == release@.assets,
            fits == |a: AssetView| a.is_compatible(device.device_type),
            first_index(all.take(i as int), fits) is None,
        decreases release.assets.len() - i,
    {
        proof {
            lemma_first_index_next(all, i as int, fits);
        }
        if release.assets[i].is_compatible(device) {
            proof {
                lemma_first_index_found(all, i + 1, fits);
            }
            return Some(i);
        }
        i += 1;
    }
    assert(all.take(i as int) == all);
    None
}

impl Release {
    /// Whether at least one asset of this release is compatible with
    /// `device`.
    pub fn is_usable(&self, device: &ConnectedDevice) -> (usable: bool)
        ensures
            usable == self@.is_usable(device.device_type),
    {
        proof {
            lemma_usable_iff_first(self@, device.device_type);
        }
        find_compatible_asset(device, self).is_some()
    }
}

/// Keeps the releases that `device` can use, in their order.
pub fn compatible_releases(device: &ConnectedDevice, releases: Vec<Release>) -> (kept: Vec<Release>)
    ensures
        kept.deep_view() == usable_releases(releases.deep_view(), device.device_type),
{
    let ghost all = releases.deep_view();
    let ghost pred = |r: ReleaseView| r.is_usable(device.device_type);
    let mut kept: Vec<Release> = Vec::new();
    proof {
        reveal(Seq::filter);
        assert(all.take(0).filter(pred) == Seq::<ReleaseView>::empty());
    }
    for release in it: releases
        invariant
            all == releases.deep_view(),
            it.seq() == releases@,
            pred == |r: ReleaseView| r.is_usable(device.device_type),
            kept.deep_view() == all.take(it.index()).filter(pred),
    {
        let ghost before = kept.deep_view();
        proof {
            reveal(Seq::filter);
            let k = it.index();
            assert(all.take(k + 1).drop_last() == all.take(k));
            assert(all.take(k + 1).last() == release@);
        }
        if release.is_usable(device) {
            kept.push(release);
            assert(kept.deep_view() == before.push(release@));
        }
    }
    assert(all.take(all.len() as int) == all);
    kept
}

} // verus!
