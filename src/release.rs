use vstd::prelude::*;
use vstd::string::{StrSliceExecFns, StringExecFns};

verus! {

/// The fields of one release asset as the release feed gave them.
#[derive(Clone, Debug)]
pub struct RawAsset {
    pub url: Option<String>,
    pub name: Option<String>,
}

/// The fields of one release as the release feed gave them; `assets` is
/// `None` when the feed held no list of assets.
#[derive(Clone, Debug)]
pub struct RawRelease {
    pub tag_name: Option<String>,
    pub created_at: Option<String>,
    pub name: Option<String>,
    pub body: Option<String>,
    pub assets: Option<Vec<RawAsset>>,
}

#[derive(Clone, Debug)]
pub struct ReleaseAsset {
    pub download_url: String,
    pub name: String,
}

#[derive(Clone, Debug)]
pub struct Release {
    pub name: String,
    pub version: String,
    pub date: String,
    pub body: Option<String>,
    pub assets: Vec<ReleaseAsset>,
}

/// Why release metadata could not be read.
#[derive(Clone, Copy, Debug, PartialEq, Eq, Structural)]
pub enum ReleaseError {
    MissingTagName,
    MissingCreatedAt,
    NoAssets,
    AssetMissingUrl,
    AssetMissingName,
    NoRelease,
}

pub open spec fn release_error_message(e: ReleaseError) -> Seq<char> {
    match e {
        ReleaseError::MissingTagName => "Release missing `tag_name`"@,
        ReleaseError::MissingCreatedAt => "Release missing `created_at`"@,
        ReleaseError::NoAssets => "No assets found"@,
        ReleaseError::AssetMissingUrl => "Asset missing `url`"@,
        ReleaseError::AssetMissingName => "Asset missing `name`"@,
        ReleaseError::NoRelease => "No release found"@,
    }
}

impl ReleaseError {
    pub fn message(&self) -> (r: String)
        ensures
            r@ == release_error_message(*self),
    {
        match self {
            ReleaseError::MissingTagName => String::from_str("Release missing `tag_name`"),
            ReleaseError::MissingCreatedAt => String::from_str("Release missing `created_at`"),
            ReleaseError::NoAssets => String::from_str("No assets found"),
            ReleaseError::AssetMissingUrl => String::from_str("Asset missing `url`"),
            ReleaseError::AssetMissingName => String::from_str("Asset missing `name`"),
            ReleaseError::NoRelease => String::from_str("No release found"),
        }
    }
}

/// The tag without its leading `v`s.
pub open spec fn trim_leading_v(s: Seq<char>) -> Seq<char>
    decreases s.len(),
{
    if s.len() > 0 && s[0] == 'v' {
        trim_leading_v(s.drop_first())
    } else {
        s
    }
}

pub open spec fn asset_error(a: RawAsset) -> Option<ReleaseError> {
    if a.url is None {
        Some(ReleaseError::AssetMissingUrl)
    } else if a.name is None {
        Some(ReleaseError::AssetMissingName)
    } else {
        None
    }
}

/// The error of the first asset that lacks a field, if any does.
pub open spec fn first_asset_error(s: Seq<RawAsset>) -> Option<ReleaseError>
    decreases s.len(),
{
    if s.len() == 0 {
        None
    } else if asset_error(s[0]) is Some {
        asset_error(s[0])
    } else {
        first_asset_error(s.drop_first())
    }
}

pub open spec fn asset_matches(raw: RawAsset, a: ReleaseAsset) -> bool {
    &&& raw.url matches Some(u) && a.download_url@ == u@
    &&& raw.name matches Some(n) && a.name@ == n@
}

pub open spec fn same_text(a: Option<String>, b: Option<String>) -> bool {
    match (a, b) {
        (Some(x), Some(y)) => x@ == y@,
        (None, None) => true,
        _ => false,
    }
}

/// What reading `raw` gives: the first missing field in the order tag,
/// creation date, asset list, assets; else the release, named by its tag
/// when it has no name of its own.
pub open spec fn release_outcome(raw: RawRelease, r: Result<Release, ReleaseError>) -> bool {
    if raw.tag_name is None {
        r == Err::<Release, ReleaseError>(ReleaseError::MissingTagName)
    } else if raw.created_at is None {
        r == Err::<Release, ReleaseError>(ReleaseError::MissingCreatedAt)
    } else if raw.assets is None {
        r == Err::<Release, ReleaseError>(ReleaseError::NoAssets)
    } else if first_asset_error(raw.assets->Some_0@) is Some {
        r == Err::<Release, ReleaseError>(first_asset_error(raw.assets->Some_0@)->Some_0)
    } else {
        let tag = raw.tag_name->Some_0@;
        let assets = raw.assets->Some_0@;
        &&& r matches Ok(rel)
        &&& rel.name@ == (match raw.name {
            Some(n) => n@,
            None => tag,
        })
        &&& rel.version@ == trim_leading_v(tag)
        &&& rel.date@ == raw.created_at->Some_0@
        &&& same_text(rel.body, raw.body)
        &&& rel.assets@.len() == assets.len()
        &&& forall|k: int| 0 <= k < assets.len() ==> asset_matches(assets[k], #[trigger] rel.assets@[k])
    }
}

fn copy_text(s: &Option<String>) -> (r: Option<String>)
    ensures
        same_text(r, *s),
{
    match s {
        Some(t) => Some(t.clone()),
        None => None,
    }
}

fn version_of(tag: &str) -> (r: String)
    ensures
        r@ == trim_leading_v(tag@),
{
    let n = tag.unicode_len();
    let mut i: usize = 0;
    assert(tag@.subrange(0, n as int) =~= tag@);
    while i < n && tag.get_char(i) == 'v'
        invariant
            i <= n,
            n == tag@.len(),
            trim_leading_v(tag@) == trim_leading_v(tag@.subrange(i as int, n as int)),
        decreases n - i,
    {
        assert(tag@.subrange(i as int, n as int).drop_first() =~= tag@.subrange(
            i + 1,
            n as int,
        ));
        i += 1;
    }
    String::from_str(tag.substring_char(i, n))
}

/// Reads one asset: its download URL and file name are both required.
pub fn from_asset(asset: &RawAsset) -> (r: Result<ReleaseAsset, ReleaseError>)
    ensures
        match asset_error(*asset) {
            Some(e) => r == Err::<ReleaseAsset, ReleaseError>(e),
            None => r matches Ok(a) && asset_matches(*asset, a),
        },
{
    let download_url = match &asset.url {
        Some(u) => u.clone(),
        None => return Err(ReleaseError::AssetMissingUrl),
    };
    let name = match &asset.name {
        Some(n) => n.clone(),
        None => return Err(ReleaseError::AssetMissingName),
    };
    Ok(ReleaseAsset { download_url, name })
}

fn read_assets(raws: &Vec<RawAsset>) -> (r: Result<Vec<ReleaseAsset>, ReleaseError>)
    ensures
        match first_asset_error(raws@) {
            Some(e) => r == Err::<Vec<ReleaseAsset>, ReleaseError>(e),
            None => r matches Ok(v) && v@.len() == raws@.len() && forall|k: int|
                0 <= k < raws@.len() ==> asset_matches(raws@[k], #[trigger] v@[k]),
        },
{
    let mut out: Vec<ReleaseAsset> = Vec::new();
    let mut i: usize = 0;
    assert(raws@.subrange(0, raws@.len() as int) =~= raws@);
    while i < raws.len()
        invariant
            i <= raws.len(),
            first_asset_error(raws@) == first_asset_error(raws@.subrange(i as int, raws@.len() as int)),
            out@.len() == i,
            forall|k: int| 0 <= k < i ==> asset_matches(raws@[k], #[trigger] out@[k]),
        decreases raws.len() - i,
    {
        let ghost rest = raws@.subrange(i as int, raws@.len() as int);
        assert(rest[0] == raws@[i as int]);
        assert(rest.drop_first() =~= raws@.subrange(i + 1, raws@.len() as int));
        match from_asset(&raws[i]) {
            Ok(a) => out.push(a),
            Err(e) => return Err(e),
        }
        i += 1;
    }
    assert(raws@.subrange(i as int, raws@.len() as int) =~= Seq::<RawAsset>::empty());
    Ok(out)
}

/// Reads one release of the feed.
pub fn from_release(release: &RawRelease) -> (r: Result<Release, ReleaseError>)
    ensures
        release_outcome(*release, r),
{
    let tag = match &release.tag_name {
        Some(t) => t,
        None => return Err(ReleaseError::MissingTagName),
    };
    let date = match &release.created_at {
        Some(d) => d.clone(),
        None => return Err(ReleaseError::MissingCreatedAt),
    };
    let name = match &release.name {
        Some(n) => n.clone(),
        None => tag.clone(),
    };
    let raw_assets = match &release.assets {
        Some(a) => a,
        None => return Err(ReleaseError::NoAssets),
    };
    let body = copy_text(&release.body);
    let assets = match read_assets(raw_assets) {
        Ok(v) => v,
        Err(e) => return Err(e),
    };
    Ok(Release { name, version: version_of(tag.as_str()), date, body, assets })
}

/// Reads the newest release, the first that the feed lists.
pub fn first_release(releases: &Vec<RawRelease>) -> (r: Result<Release, ReleaseError>)
    ensures
        releases@.len() == 0 ==> r == Err::<Release, ReleaseError>(ReleaseError::NoRelease),
        releases@.len() > 0 ==> release_outcome(releases@[0], r),
{
    if releases.len() == 0 {
        Err(ReleaseError::NoRelease)
    } else {
        from_release(&releases[0])
    }
}

impl Release {
    /// The first asset, the one that is downloaded.
    pub fn get_first_asset(&self) -> (r: Result<&ReleaseAsset, ReleaseError>)
        ensures
            match r {
                Ok(a) => self.assets@.len() > 0 && *a == self.assets@[0],
                Err(e) => self.assets@.len() == 0 && e == ReleaseError::NoAssets,
            },
    {
        if self.assets.len() == 0 {
            Err(ReleaseError::NoAssets)
        } else {
            Ok(&self.assets[0])
        }
    }
}

} // verus!
