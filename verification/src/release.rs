//! Releases of the program as the hosting service lists them, and the rules
//! by which the release client picks among them.
//!
//! The client itself (requests, decoding, writing files) is not here: this
//! module says which address lists the releases, which tag belongs to a
//! version, and which release or asset a name selects.

use vstd::prelude::*;
use vstd::string::StringExecFns;

use crate::text::str_eq;

verus! {

/// A file attached to a release.
#[derive(Debug)]
pub struct ReleaseAsset {
    pub id: u64,
    pub url: String,
    pub name: Option<String>,
    pub label: Option<String>,
    pub content_type: String,
    pub size: u64,
}

/// A release and the files attached to it.
#[derive(Debug)]
pub struct Release {
    pub id: u64,
    pub url: String,
    pub tag_name: String,
    pub name: Option<String>,
    pub body: Option<String>,
    pub draft: bool,
    pub prerelease: bool,
    pub assets: Vec<ReleaseAsset>,
}

/// An optional text as an optional sequence of characters.
pub open spec fn spec_text(text: Option<String>) -> Option<Seq<char>> {
    match text {
        Some(text) => Some(text@),
        None => None,
    }
}

/// What a [`ReleaseAsset`] is, with text as sequences of characters.
pub struct ReleaseAssetView {
    pub id: u64,
    pub url: Seq<char>,
    pub name: Option<Seq<char>>,
    pub label: Option<Seq<char>>,
    pub content_type: Seq<char>,
    pub size: u64,
}

/// What a [`Release`] is, with text as sequences of characters.
pub struct ReleaseView {
    pub id: u64,
    pub url: Seq<char>,
    pub tag_name: Seq<char>,
    pub name: Option<Seq<char>>,
    pub body: Option<Seq<char>>,
    pub draft: bool,
    pub prerelease: bool,
    pub assets: Seq<ReleaseAssetView>,
}

impl View for ReleaseAsset {
    type V = ReleaseAssetView;

    open spec fn view(&self) -> ReleaseAssetView {
        ReleaseAssetView {
            id: self.id,
            url: self.url@,
            name: spec_text(self.name),
            label: spec_text(self.label),
            content_type: self.content_type@,
            size: self.size,
        }
    }
}

impl View for Release {
    type V = ReleaseView;

    open spec fn view(&self) -> ReleaseView {
        ReleaseView {
            id: self.id,
            url: self.url@,
            tag_name: self.tag_name@,
            name: spec_text(self.name),
            body: spec_text(self.body),
            draft: self.draft,
            prerelease: self.prerelease,
            assets: Seq::new(self.assets@.len(), |i: int| self.assets@[i]@),
        }
    }
}

impl DeepView for Release {
    type V = ReleaseView;

    open spec fn deep_view(&self) -> ReleaseView {
        self@
    }
}

fn clone_text(text: &Option<String>) -> (copy: Option<String>)
    ensures
        spec_text(copy) == spec_text(*text),
{
    match text {
        Some(text) => Some(text.clone()),
        None => None,
    }
}

impl Clone for ReleaseAsset {
    /// A copy with the same contents.
    fn clone(&self) -> (copy: Self)
        ensures
            copy@ == self@,
    {
        ReleaseAsset {
            id: self.id,
            url: self.url.clone(),
            name: clone_text(&self.name),
            label: clone_text(&self.label),
            content_type: self.content_type.clone(),
            size: self.size,
        }
    }
}

impl Clone for Release {
    /// A copy with the same contents, assets included.
    fn clone(&self) -> (copy: Self)
        ensures
            copy@ == self@,
    {
        let mut assets: Vec<ReleaseAsset> = Vec::new();
        let mut i: usize = 0;
        while i < self.assets.len()
            invariant
                i <= self.assets.len(),
                assets.len() == i,
                forall|j: int| 0 <= j < i ==> assets@[j]@ == self.assets@[j]@,
            decreases self.assets.len() - i,
        {
            assets.push(self.assets[i].clone());
            i = i + 1;
        }
        let copy = Release {
            id: self.id,
            url: self.url.clone(),
            tag_name: self.tag_name.clone(),
            name: clone_text(&self.name),
            body: clone_text(&self.body),
            draft: self.draft,
            prerelease: self.prerelease,
            assets,
        };
        assert(copy@.assets =~= self@.assets);
        copy
    }
}

/// The address that lists the releases of a repository.
pub open spec fn spec_releases_url(owner: Seq<char>, repo: Seq<char>) -> Seq<char> {
    "https://api.github.com/repos/"@ + owner + "/"@ + repo + "/releases"@
}

/// The tag of the release of a version: the letter `v` and the version.
pub open spec fn spec_version_tag(version: Seq<char>) -> Seq<char> {
    "v"@ + version
}

/// Whether `index` is the first release in `releases` with the tag `tag`.
pub open spec fn first_with_tag(releases: Seq<ReleaseView>, tag: Seq<char>, index: int) -> bool {
    &&& 0 <= index < releases.len()
    &&& releases[index].tag_name == tag
    &&& forall|earlier: int| 0 <= earlier < index ==> releases[earlier].tag_name != tag
}

/// Whether no release in `releases` has the tag `tag`.
pub open spec fn none_with_tag(releases: Seq<ReleaseView>, tag: Seq<char>) -> bool {
    forall|index: int| 0 <= index < releases.len() ==> (#[trigger] releases[index]).tag_name != tag
}

/// Whether `index` is the first asset in `assets` that has the name `name`.
/// An asset without a name has no name to match.
pub open spec fn first_with_name(
    assets: Seq<ReleaseAssetView>,
    name: Seq<char>,
    index: int,
) -> bool {
    &&& 0 <= index < assets.len()
    &&& assets[index].name == Some(name)
    &&& forall|earlier: int| 0 <= earlier < index ==> assets[earlier].name != Some(name)
}

/// Whether no asset in `assets` has the name `name`.
pub open spec fn none_with_name(assets: Seq<ReleaseAssetView>, name: Seq<char>) -> bool {
    forall|index: int| 0 <= index < assets.len() ==> (#[trigger] assets[index]).name != Some(name)
}

/// The address that lists the releases of the repository `repo` of `owner`.
pub fn releases_url(owner: &str, repo: &str) -> (url: String)
    ensures
        url@ == spec_releases_url(owner@, repo@),
{
    let mut url = String::from_str("https://api.github.com/repos/");
    url.append(owner);
    url.append("/");
    url.append(repo);
    url.append("/releases");
    url
}

/// The tag under which the release of `version` is published.
pub fn version_tag(version: &str) -> (tag: String)
    ensures
        tag@ == spec_version_tag(version@),
{
    let mut tag = String::from_str("v");
    tag.append(version);
    tag
}

/// The position of the first release with the tag `tag`; `None` where no
/// release has it.
pub fn find_release_by_tag(releases: &Vec<Release>, tag: &str) -> (found: Option<usize>)
    ensures
        match found {
            Some(index) => first_with_tag(releases.deep_view(), tag@, index as int),
            None => none_with_tag(releases.deep_view(), tag@),
        },
{
    let mut i: usize = 0;
    while i < releases.len()
        invariant
            i <= releases.len(),
            forall|earlier: int|
                0 <= earlier < i ==> (#[trigger] releases[earlier])@.tag_name != tag@,
        decreases releases.len() - i,
    {
        if str_eq(releases[i].tag_name.as_str(), tag) {
            return Some(i);
        }
        i = i + 1;
    }
    None
}

impl Release {
    /// The position of the first asset with the name `asset_name`; `None`
    /// where no asset has it.
    pub fn find_asset(&self, asset_name: &str) -> (found: Option<usize>)
        ensures
            match found {
                Some(index) => first_with_name(self@.assets, asset_name@, index as int),
                None => none_with_name(self@.assets, asset_name@),
            },
    {
        let mut i: usize = 0;
        while i < self.assets.len()
            invariant
                i <= self.assets.len(),
                forall|earlier: int|
                    0 <= earlier < i ==> (#[trigger] self@.assets[earlier]).name != Some(
                        asset_name@,
                    ),
            decreases self.assets.len() - i,
        {
            let named = match &self.assets[i].name {
                Some(name) => str_eq(name.as_str(), asset_name),
                None => false,
            };
            if named {
                return Some(i);
            }
            i = i + 1;
        }
        None
    }
}

} // verus!
