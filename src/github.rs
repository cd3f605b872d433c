//! Releases and their assets: which archive kinds are supported, which
//! asset fits the running platform, which release a version names, and the
//! version a release announces in its text.

use vstd::prelude::*;
use vstd::string::*;

use crate::shim::text_view;
use crate::text::{contains_char, contains_text, is_infix, same_text, split_last};

verus! {

/// The archive kinds that can be installed.
#[derive(Clone, Copy, Debug, PartialEq, Eq, Structural)]
pub enum AssetType {
    Zip,
    TarGz,
}

/// The file extension of each archive kind.
pub open spec fn extension_of(t: AssetType) -> Seq<char> {
    match t {
        AssetType::Zip => "zip"@,
        AssetType::TarGz => "tar.gz"@,
    }
}

impl AssetType {
    /// The file extension an archive of this kind is saved under.
    pub fn extension(&self) -> (r: &'static str)
        ensures
            r@ == extension_of(*self),
    {
        match self {
            AssetType::Zip => "zip",
            AssetType::TarGz => "tar.gz",
        }
    }
}

/// A file attached to a release.
pub struct Asset {
    pub name: String,
    pub content_type: String,
    pub browser_download_url: String,
}

/// A release of the catalog.
pub struct Release {
    pub name: String,
    pub tag_name: String,
    pub body: String,
    pub assets: Vec<Asset>,
    pub html_url: String,
}

/// The archive kind a content type announces, if it is a supported one.
pub open spec fn asset_type_of(content_type: Seq<char>) -> Option<AssetType> {
    if content_type == "application/x-zip-compressed"@ || content_type == "application/zip"@ {
        Some(AssetType::Zip)
    } else if content_type == "application/x-gtar"@ || content_type == "application/x-gzip"@
        || content_type == "application/gzip"@ {
        Some(AssetType::TarGz)
    } else {
        None
    }
}

impl Asset {
    /// The archive kind of this asset, by its content type; `None` where the
    /// kind is not supported.
    pub fn get_type(&self) -> (r: Option<AssetType>)
        ensures
            r == asset_type_of(self.content_type@),
    {
        let t = self.content_type.as_str();
        if same_text(t, "application/x-zip-compressed") || same_text(t, "application/zip") {
            Some(AssetType::Zip)
        } else if same_text(t, "application/x-gtar") || same_text(t, "application/x-gzip")
            || same_text(t, "application/gzip") {
            Some(AssetType::TarGz)
        } else {
            None
        }
    }
}

/// Operating systems that asset names mark.
#[derive(Clone, Copy, Debug, PartialEq, Eq, Structural)]
pub enum HostOs {
    Linux,
    MacOs,
    Windows,
    /// Any other system: every marked asset is foreign to it.
    Other,
}

/// The platform this process runs on.
#[derive(Clone, Copy, Debug, PartialEq, Eq, Structural)]
pub struct Platform {
    pub os: HostOs,
    /// The width of a pointer, in bits.
    pub pointer_width: u32,
}

/// An asset name free of every marker of another operating system
/// (`linux`, `macos`, `win`) and of another pointer width (`32`, `64`).
pub open spec fn fits_platform(p: Platform, name: Seq<char>) -> bool {
    &&& (p.os != HostOs::Linux ==> !is_infix("linux"@, name))
    &&& (p.os != HostOs::MacOs ==> !is_infix("macos"@, name))
    &&& (p.os != HostOs::Windows ==> !is_infix("win"@, name))
    &&& (p.pointer_width != 32 ==> !is_infix("32"@, name))
    &&& (p.pointer_width != 64 ==> !is_infix("64"@, name))
}

/// An asset that can be installed on the platform: a supported archive
/// whose name fits the platform.
pub open spec fn is_candidate(p: Platform, a: Asset) -> bool {
    asset_type_of(a.content_type@) is Some && fits_platform(p, a.name@)
}

/// `i` is the position of the first candidate among `assets`.
pub open spec fn is_first_candidate(p: Platform, assets: Seq<Asset>, i: int) -> bool {
    &&& 0 <= i < assets.len()
    &&& is_candidate(p, assets[i])
    &&& forall|j: int| 0 <= j < i ==> !is_candidate(p, #[trigger] assets[j])
}

impl Platform {
    /// Whether an asset name is free of the markers of other platforms.
    pub fn fits(&self, name: &str) -> (r: bool)
        ensures
            r == fits_platform(*self, name@),
    {
        if self.os != HostOs::Linux && contains_text(name, "linux") {
            return false;
        }
        if self.os != HostOs::MacOs && contains_text(name, "macos") {
            return false;
        }
        if self.os != HostOs::Windows && contains_text(name, "win") {
            return false;
        }
        if self.pointer_width != 32 && contains_text(name, "32") {
            return false;
        }
        if self.pointer_width != 64 && contains_text(name, "64") {
            return false;
        }
        true
    }
}

impl Release {
    /// The first asset, in catalog order, that is a supported archive and
    /// whose name carries no marker of another platform.
    pub fn filter_assets(&self, platform: Platform) -> (r: Option<&Asset>)
        ensures
            match r {
                Some(a) => exists|i: int|
                    is_first_candidate(platform, self.assets@, i) && *a == self.assets@[i],
                None => forall|i: int|
                    0 <= i < self.assets@.len() ==> !is_candidate(
                        platform,
                        #[trigger] self.assets@[i],
                    ),
            },
    {
        let mut i: usize = 0;
        while i < self.assets.len()
            invariant
                i <= self.assets@.len(),
                forall|j: int| 0 <= j < i ==> !is_candidate(platform, #[trigger] self.assets@[j]),
            decreases self.assets@.len() - i,
        {
            let asset = &self.assets[i];
            if asset.get_type().is_some() && platform.fits(asset.name.as_str()) {
                return Some(asset);
            }
            i += 1;
        }
        None
    }
}

/// Why no asset can be installed for a version.
#[derive(Clone, Copy, Debug, PartialEq, Eq, Structural)]
pub enum ResolveError {
    /// No release carries the requested tag.
    ReleaseNotFound,
    /// The release carries no asset for this platform.
    NoMatchingAsset,
}

/// `i` is the position of the first release tagged `tag`.
pub open spec fn is_first_tagged(releases: Seq<Release>, tag: Seq<char>, i: int) -> bool {
    &&& 0 <= i < releases.len()
    &&& releases[i].tag_name@ == tag
    &&& forall|j: int| 0 <= j < i ==> (#[trigger] releases[j]).tag_name@ != tag
}

/// The first release whose tag is exactly `tag`.
pub fn find_release<'a>(releases: &'a Vec<Release>, tag: &str) -> (r: Option<&'a Release>)
    ensures
        match r {
            Some(rel) => exists|i: int| is_first_tagged(releases@, tag@, i) && *rel == releases@[i],
            None => forall|i: int|
                0 <= i < releases@.len() ==> (#[trigger] releases@[i]).tag_name@ != tag@,
        },
{
    let mut i: usize = 0;
    while i < releases.len()
        invariant
            i <= releases@.len(),
            forall|j: int| 0 <= j < i ==> (#[trigger] releases@[j]).tag_name@ != tag@,
        decreases releases@.len() - i,
    {
        let release = &releases[i];
        if same_text(release.tag_name.as_str(), tag) {
            return Some(release);
        }
        i += 1;
    }
    None
}

/// The release tagged `version` (the first, where several are) and the
/// asset of it to install on `platform`.
pub fn resolve<'a>(releases: &'a Vec<Release>, version: &str, platform: Platform) -> (r: Result<
    (&'a Release, &'a Asset),
    ResolveError,
>)
    ensures
        match r {
            Ok((rel, a)) => exists|i: int|
                is_first_tagged(releases@, version@, i) && *rel == releases@[i] && exists|k: int|
                    is_first_candidate(platform, rel.assets@, k) && *a == rel.assets@[k],
            Err(ResolveError::ReleaseNotFound) => forall|i: int|
                0 <= i < releases@.len() ==> (#[trigger] releases@[i]).tag_name@ != version@,
            Err(ResolveError::NoMatchingAsset) => exists|i: int|
                is_first_tagged(releases@, version@, i) && forall|k: int|
                    0 <= k < releases@[i].assets@.len() ==> !is_candidate(
                        platform,
                        #[trigger] releases@[i].assets@[k],
                    ),
        },
{
    match find_release(releases, version) {
        None => Err(ResolveError::ReleaseNotFound),
        Some(release) => match release.filter_assets(platform) {
            Some(asset) => Ok((release, asset)),
            None => Err(ResolveError::NoMatchingAsset),
        },
    }
}

/// The pattern of the version token in a release's text: the word `nvim` in
/// any case at a word boundary, a space, an optional `v`, then
/// major.minor.patch with any pre-release and build suffix, up to a word
/// boundary. The group `version` holds the version text.
pub const VERSION_PATTERN: &'static str =
    r"(^|\W)(?i)nvim(?-i) v?(?<version>\d+\.\d+\.\d+(-\S+)*(\+\S+)*)(\W|$)";

/// The name of the group of [`VERSION_PATTERN`] that holds the version.
pub const VERSION_GROUP: &'static str = "version";

/// A semantic version as mathematics.
pub struct SemanticVersionView {
    pub major: u64,
    pub minor: u64,
    pub patch: u64,
    pub pre: Seq<char>,
    pub build: Seq<char>,
}

/// A semantic version: major.minor.patch, the pre-release identifier and
/// the build metadata (each empty when absent).
#[derive(Debug, PartialEq, Eq)]
pub struct SemanticVersion {
    pub major: u64,
    pub minor: u64,
    pub patch: u64,
    pub pre: String,
    pub build: String,
}

impl View for SemanticVersion {
    type V = SemanticVersionView;

    open spec fn view(&self) -> SemanticVersionView {
        SemanticVersionView {
            major: self.major,
            minor: self.minor,
            patch: self.patch,
            pre: self.pre@,
            build: self.build@,
        }
    }
}

/// Why no version could be read from a text.
#[derive(Clone, Copy, Debug, PartialEq, Eq, Structural)]
pub enum VersionError {
    /// The text holds no version token.
    NotFound,
    /// The token is not a valid semantic version.
    Invalid,
}

/// The text of a group in the leftmost match of a regular expression, by
/// the `regex` crate; `None` where the pattern does not compile, nothing
/// matches, or the group takes no part in the match.
pub uninterp spec fn regex_capture(
    pattern: Seq<char>,
    group: Seq<char>,
    text: Seq<char>,
) -> Option<Seq<char>>;

/// The version a text denotes, by `semver::Version::parse`; `None` where it
/// is not a valid semantic version.
pub uninterp spec fn semver_parse(text: Seq<char>) -> Option<SemanticVersionView>;

#[verifier::external_type_specification]
#[verifier::external_body]
pub struct ExSemverError(semver::Error);

/// Relies on `regex::Regex::captures` (with the pattern compiled by
/// `Regex::new`) and `Captures::name`: the text of group `group` in the
/// leftmost match of `pattern` in `text`.
#[verifier::external_body]
fn capture_group(pattern: &str, group: &str, text: &str) -> (r: Option<String>)
    ensures
        text_view(r) == regex_capture(pattern@, group@, text@),
{
    let re = regex::Regex::new(pattern).ok()?;
    let caps = re.captures(text)?;
    caps.name(group).map(|m| m.as_str().to_string())
}

/// Relies on `semver::Version::parse`: the version `text` denotes, with its
/// fields as plain values.
#[verifier::external_body]
fn parse_semver(text: &str) -> (r: Result<SemanticVersion, semver::Error>)
    ensures
        match r {
            Ok(v) => semver_parse(text@) == Some(v@),
            Err(_) => semver_parse(text@) is None,
        },
{
    semver::Version::parse(text).map(
        |v|
            SemanticVersion {
                major: v.major,
                minor: v.minor,
                patch: v.patch,
                pre: v.pre.as_str().to_string(),
                build: v.build.as_str().to_string(),
            },
    )
}

/// The position of the last `c` in a text that holds one.
pub open spec fn last_index_of(t: Seq<char>, c: char) -> int
    recommends
        t.contains(c),
{
    choose|i: int| 0 <= i < t.len() && t[i] == c && !t.skip(i + 1).contains(c)
}

/// The text handed to the semantic-version parser: where the version text
/// holds two hyphens or more, the last one becomes a `+`, so that the
/// segment after it is build metadata (`1.0.0-dev-1234` becomes
/// `1.0.0-dev+1234`); any other version text is kept as it is.
pub open spec fn semver_text(raw: Seq<char>) -> Seq<char> {
    if raw.contains('-') {
        let i = last_index_of(raw, '-');
        if raw.take(i).contains('-') {
            raw.take(i) + seq!['+'] + raw.skip(i + 1)
        } else {
            raw
        }
    } else {
        raw
    }
}

/// The version read from the text of the version group.
pub open spec fn version_of_capture(raw: Seq<char>) -> Result<SemanticVersionView, VersionError> {
    match semver_parse(semver_text(raw)) {
        Some(v) => Ok(v),
        None => Err(VersionError::Invalid),
    }
}

/// The version announced in a text.
pub open spec fn version_in(text: Seq<char>) -> Result<SemanticVersionView, VersionError> {
    match regex_capture(VERSION_PATTERN@, VERSION_GROUP@, text) {
        Some(raw) => version_of_capture(raw),
        None => Err(VersionError::NotFound),
    }
}

/// A version result as mathematics.
pub open spec fn version_result_view(r: Result<SemanticVersion, VersionError>) -> Result<
    SemanticVersionView,
    VersionError,
> {
    match r {
        Ok(v) => Ok(v@),
        Err(e) => Err(e),
    }
}

/// A text cut at a `c` that has none after it: the cut is at its last `c`.
proof fn lemma_last_index_at_cut(a: Seq<char>, b: Seq<char>, c: char)
    requires
        !b.contains(c),
    ensures
        (a + seq![c] + b).contains(c),
        last_index_of(a + seq![c] + b, c) == a.len(),
{
    let t = a + seq![c] + b;
    let n = a.len() as int;
    assert(t.skip(n + 1) =~= b);
    assert(t[n] == c);
    assert(0 <= n < t.len() && t[n] == c && !t.skip(n + 1).contains(c));
    let i = last_index_of(t, c);
    if i > n {
        assert(b[i - n - 1] == c);
    }
    if i < n {
        assert(t.skip(i + 1)[n - i - 1] == c);
    }
}

/// The parser's text for a version text cut at its last hyphen.
proof fn lemma_semver_text_at_cut(head: Seq<char>, tail: Seq<char>)
    requires
        !tail.contains('-'),
    ensures
        semver_text(head + seq!['-'] + tail) == if head.contains('-') {
            head + seq!['+'] + tail
        } else {
            head + seq!['-'] + tail
        },
{
    let raw = head + seq!['-'] + tail;
    lemma_last_index_at_cut(head, tail, '-');
    assert(raw.take(head.len() as int) =~= head);
    assert(raw.skip(head.len() as int + 1) =~= tail);
}

/// The text the parser is given for a captured version text: the last of
/// two or more hyphens becomes a `+`.
pub fn semver_text_of(raw: &str) -> (r: String)
    ensures
        r@ == semver_text(raw@),
{
    match split_last(raw, '-') {
        Some((head, tail)) => {
            proof {
                lemma_semver_text_at_cut(head@, tail@);
            }
            if contains_char(head.as_str(), '-') {
                let mut r = head;
                proof {
                    reveal_strlit("+");
                }
                r.append("+");
                r.append(tail.as_str());
                r
            } else {
                String::from_str(raw)
            }
        },
        None => String::from_str(raw),
    }
}

/// The version read from the text of the version group: `Invalid` where
/// it is not a semantic version.
pub fn version_from_capture(raw: &str) -> (r: Result<SemanticVersion, VersionError>)
    ensures
        version_result_view(r) == version_of_capture(raw@),
{
    let text = semver_text_of(raw);
    match parse_semver(text.as_str()) {
        Ok(v) => Ok(v),
        Err(_) => Err(VersionError::Invalid),
    }
}

/// The version announced in a text: the first `nvim` token of
/// [`VERSION_PATTERN`], read as a semantic version. `NotFound` where the
/// text holds no such token.
pub fn get_nvim_version(text: &str) -> (r: Result<SemanticVersion, VersionError>)
    ensures
        version_result_view(r) == version_in(text@),
{
    match capture_group(VERSION_PATTERN, VERSION_GROUP, text) {
        Some(raw) => version_from_capture(raw.as_str()),
        None => Err(VersionError::NotFound),
    }
}

/// A text in which the version pattern finds no token yields `NotFound`:
/// no version is read from it.
pub proof fn lemma_no_token_not_found(text: Seq<char>)
    requires
        regex_capture(VERSION_PATTERN@, VERSION_GROUP@, text) is None,
    ensures
        version_in(text) == Err::<SemanticVersionView, VersionError>(VersionError::NotFound),
{
}

impl Release {
    /// The version this release announces: read from its body, or from its
    /// name where the body announces none.
    pub fn get_nvim_version(&self) -> (r: Result<SemanticVersion, VersionError>)
        ensures
            version_result_view(r) == match version_in(self.body@) {
                Ok(v) => Ok(v),
                Err(_) => version_in(self.name@),
            },
    {
        match get_nvim_version(self.body.as_str()) {
            Ok(v) => Ok(v),
            Err(_) => get_nvim_version(self.name.as_str()),
        }
    }
}

} // verus!
