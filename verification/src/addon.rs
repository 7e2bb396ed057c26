//! Add-ons: what is known of one, the rules for enabling and disabling it,
//! and the check of its files against its layout.

use crate::settings::PathKind;
use crate::text::join3;
use vstd::prelude::*;
use vstd::string::StringExecFns;

verus! {

/// A package that an add-on depends on, as its manifest names it.
#[derive(Clone, Debug)]
pub struct Dependency {
    pub name: String,
    pub package_version: String,
}

/// The manifest of an add-on.
#[derive(Clone, Debug)]
pub struct Manifest {
    pub dependencies: Vec<Dependency>,
    pub content_type: String,
    pub title: String,
    pub manufacturer: String,
    pub creator: String,
    pub package_version: String,
    pub minimum_game_version: String,
}

/// An installed add-on.
#[derive(Clone, Debug)]
pub struct Addon {
    /// The name of the add-on's directory.
    pub id: String,
    pub name: String,
    pub creator: String,
    pub version: String,
    pub content_type: String,
    /// Whether the simulator sees the add-on.
    pub enabled: bool,
    /// Bytes on disk.
    pub size: u64,
}

/// What an `Addon` holds, as plain values.
pub struct AddonView {
    pub id: Seq<char>,
    pub name: Seq<char>,
    pub creator: Seq<char>,
    pub version: Seq<char>,
    pub content_type: Seq<char>,
    pub enabled: bool,
    pub size: u64,
}

impl View for Addon {
    type V = AddonView;

    open spec fn view(&self) -> AddonView {
        AddonView {
            id: self.id@,
            name: self.name@,
            creator: self.creator@,
            version: self.version@,
            content_type: self.content_type@,
            enabled: self.enabled,
            size: self.size,
        }
    }
}

impl DeepView for Addon {
    type V = AddonView;

    open spec fn deep_view(&self) -> AddonView {
        self@
    }
}

/// Why an add-on could not be read, enabled or disabled.
#[derive(Clone, Copy, Debug, PartialEq, Eq, Structural)]
pub enum AddonError {
    /// Nothing of that name stands in the add-ons directory.
    NotFound,
    /// What stands there is no directory.
    NotADirectory,
    /// The add-on's manifest could not be read.
    ManifestUnreadable,
    /// Something of that name stands in the community folder already.
    AlreadyEnabled,
    /// Nothing of that name stands in the community folder.
    NotEnabled,
}

/// The text of an `AddonError` for the add-on named `id`.
pub open spec fn addon_error_text(error: AddonError, id: Seq<char>) -> Seq<char> {
    match error {
        AddonError::NotFound => "Addon '"@ + id + "' not found in addons directory"@,
        AddonError::NotADirectory => "Not a directory"@,
        AddonError::ManifestUnreadable => "Addon '"@ + id + "' has no readable manifest"@,
        AddonError::AlreadyEnabled => "Addon '"@ + id
            + "' is already enabled or a file with that name exists in the community folder"@,
        AddonError::NotEnabled => "Addon '"@ + id
            + "' is not enabled or does not exist in the community folder"@,
    }
}

impl AddonError {
    /// The error as text, naming the add-on.
    pub fn message(&self, id: &str) -> (text: String)
        ensures
            text@ == addon_error_text(*self, id@),
    {
        match self {
            AddonError::NotFound => join3("Addon '", id, "' not found in addons directory"),
            AddonError::NotADirectory => String::from_str("Not a directory"),
            AddonError::ManifestUnreadable => join3(
                "Addon '",
                id,
                "' has no readable manifest",
            ),
            AddonError::AlreadyEnabled => join3(
                "Addon '",
                id,
                "' is already enabled or a file with that name exists in the community folder",
            ),
            AddonError::NotEnabled => join3(
                "Addon '",
                id,
                "' is not enabled or does not exist in the community folder",
            ),
        }
    }
}

/// Describes the add-on named `id` from what was found on disk: `kind` is what
/// stands under that name in the add-ons directory, `size` its size (zero
/// where it could not be measured), `manifest` its manifest where one could be
/// read, and `enabled` whether the name also stands in the community folder.
pub fn parse_addon(
    id: &str,
    kind: PathKind,
    size: u64,
    manifest: Option<Manifest>,
    enabled: bool,
) -> (r: Result<Addon, AddonError>)
    ensures
        kind == PathKind::Missing ==> r == Err::<Addon, AddonError>(AddonError::NotFound),
        kind == PathKind::File ==> r == Err::<Addon, AddonError>(AddonError::NotADirectory),
        kind == PathKind::Directory && manifest is None ==> r == Err::<Addon, AddonError>(
            AddonError::ManifestUnreadable,
        ),
        kind == PathKind::Directory && manifest is Some ==> r is Ok && r->Ok_0@ == (AddonView {
            id: id@,
            name: manifest->Some_0.title@,
            creator: manifest->Some_0.creator@,
            version: manifest->Some_0.package_version@,
            content_type: manifest->Some_0.content_type@,
            enabled,
            size,
        }),
{
    match kind {
        PathKind::Missing => {
            return Err(AddonError::NotFound);
        },
        PathKind::File => {
            return Err(AddonError::NotADirectory);
        },
        PathKind::Directory => {},
    }
    let manifest = match manifest {
        Some(manifest) => manifest,
        None => {
            return Err(AddonError::ManifestUnreadable);
        },
    };
    Ok(
        Addon {
            id: id.to_owned(),
            name: manifest.title,
            creator: manifest.creator,
            version: manifest.package_version,
            content_type: manifest.content_type,
            enabled,
            size,
        },
    )
}

/// Decides whether an add-on may be linked into the community folder:
/// it must stand in the add-ons directory (`installed`) and nothing of its
/// name may stand in the community folder (`linked`).
pub fn enable_addon(installed: bool, linked: bool) -> (r: Result<(), AddonError>)
    ensures
        !installed ==> r == Err::<(), AddonError>(AddonError::NotFound),
        installed && linked ==> r == Err::<(), AddonError>(AddonError::AlreadyEnabled),
        installed && !linked ==> r is Ok,
{
    if !installed {
        return Err(AddonError::NotFound);
    }
    if linked {
        return Err(AddonError::AlreadyEnabled);
    }
    Ok(())
}

/// Decides whether an add-on's link may be taken out of the community
/// folder: the add-on must stand in the add-ons directory (`installed`) and
/// its name in the community folder (`linked`).
pub fn disable_addon(installed: bool, linked: bool) -> (r: Result<(), AddonError>)
    ensures
        !installed ==> r == Err::<(), AddonError>(AddonError::NotFound),
        installed && !linked ==> r == Err::<(), AddonError>(AddonError::NotEnabled),
        installed && linked ==> r is Ok,
{
    if !installed {
        return Err(AddonError::NotFound);
    }
    if !linked {
        return Err(AddonError::NotEnabled);
    }
    Ok(())
}

/// How one file of an add-on compares with its layout.
#[derive(Clone, Copy, Debug, PartialEq, Eq, Structural)]
pub enum VerificationStatus {
    /// The file is there with the size the layout names.
    SizeMatch,
    SizeMismatch,
    NotFound,
}

/// The outcome of the check for one file.
#[derive(Debug)]
pub struct VerificationNode {
    pub status: VerificationStatus,
    pub path: String,
    /// The size on disk, or the size the layout names where the file is
    /// missing.
    pub size: u64,
}

/// The outcome of the check for a whole add-on.
#[derive(Debug)]
pub struct VerificationResult {
    /// Whether every file is there with the size the layout names.
    pub verified: bool,
    pub files: Vec<VerificationNode>,
}

/// One file that the layout of an add-on names, with what was found on disk.
#[derive(Debug)]
pub struct LayoutEntry {
    /// The file's path below the add-on's directory.
    pub path: String,
    /// The size the layout names.
    pub size: u64,
    /// The size on disk, where the file could be looked at.
    pub found: Option<u64>,
}

/// What a `VerificationNode` holds, as plain values.
pub struct VerificationNodeView {
    pub status: VerificationStatus,
    pub path: Seq<char>,
    pub size: u64,
}

impl View for VerificationNode {
    type V = VerificationNodeView;

    open spec fn view(&self) -> VerificationNodeView {
        VerificationNodeView { status: self.status, path: self.path@, size: self.size }
    }
}

impl DeepView for VerificationNode {
    type V = VerificationNodeView;

    open spec fn deep_view(&self) -> VerificationNodeView {
        self@
    }
}

/// The outcome for one file: found with the named size, found with another
/// size, or not found.
pub open spec fn node_of(entry: LayoutEntry) -> VerificationNodeView {
    match entry.found {
        Some(len) => VerificationNodeView {
            status: if len == entry.size {
                VerificationStatus::SizeMatch
            } else {
                VerificationStatus::SizeMismatch
            },
            path: entry.path@,
            size: len,
        },
        None => VerificationNodeView {
            status: VerificationStatus::NotFound,
            path: entry.path@,
            size: entry.size,
        },
    }
}

/// Holds the files of an add-on against its layout. There is one outcome
/// per entry, in the layout's order, and the add-on is verified where every
/// outcome is `SizeMatch`.
pub fn verify_addon(entries: &Vec<LayoutEntry>) -> (result: VerificationResult)
    ensures
        result.files.deep_view() == entries@.map_values(|e: LayoutEntry| node_of(e)),
        result.verified <==> forall|i: int|
            0 <= i < entries@.len() ==> (#[trigger] node_of(entries@[i])).status
                == VerificationStatus::SizeMatch,
{
    let mut verified = true;
    let mut files: Vec<VerificationNode> = Vec::new();
    let mut i: usize = 0;
    while i < entries.len()
        invariant
            i <= entries@.len(),
            files@.len() == i,
            forall|j: int| 0 <= j < i ==> (#[trigger] files@[j])@ == node_of(entries@[j]),
            verified <==> forall|j: int|
                0 <= j < i ==> (#[trigger] node_of(entries@[j])).status == VerificationStatus::SizeMatch,
        decreases entries@.len() - i,
    {
        let content = &entries[i];
        let ghost node = node_of(entries@[i as int]);
        match content.found {
            Some(len) => {
                let status = if len == content.size {
                    VerificationStatus::SizeMatch
                } else {
                    verified = false;
                    VerificationStatus::SizeMismatch
                };
                files.push(VerificationNode { status, path: content.path.clone(), size: len });
            },
            None => {
                verified = false;
                files.push(
                    VerificationNode {
                        status: VerificationStatus::NotFound,
                        path: content.path.clone(),
                        size: content.size,
                    },
                );
            },
        }
        assert(files@[i as int]@ == node);
        assert(verified ==> node.status == VerificationStatus::SizeMatch);
        i = i + 1;
    }
    assert(files.deep_view() =~= entries@.map_values(|e: LayoutEntry| node_of(e)));
    VerificationResult { verified, files }
}

/// How the installation of one picked file or folder ended.
#[derive(Debug)]
pub enum AddonInstallResult {
    Success { id: String },
    Failure { file: String, error: String },
}

/// What an `AddonInstallResult` holds, as plain values.
pub enum AddonInstallResultView {
    Success { id: Seq<char> },
    Failure { file: Seq<char>, error: Seq<char> },
}

impl View for AddonInstallResult {
    type V = AddonInstallResultView;

    open spec fn view(&self) -> AddonInstallResultView {
        match self {
            AddonInstallResult::Success { id } => AddonInstallResultView::Success { id: id@ },
            AddonInstallResult::Failure { file, error } => AddonInstallResultView::Failure {
                file: file@,
                error: error@,
            },
        }
    }
}

/// How the installation of everything that was picked ended, one result per
/// pick.
#[derive(Debug)]
pub struct InstallResult {
    pub results: Vec<AddonInstallResult>,
}

/// The result for one pick, shown as `file`: `installed` holds the add-on's
/// id or why it was not installed, `enable_error` why an installed add-on
/// could not be enabled, where that was tried and failed.
pub fn install_result(
    file: String,
    installed: Result<String, String>,
    enable_error: Option<String>,
) -> (r: AddonInstallResult)
    ensures
        r@ == match installed {
            Ok(id) => match enable_error {
                Some(error) => AddonInstallResultView::Failure { file: file@, error: error@ },
                None => AddonInstallResultView::Success { id: id@ },
            },
            Err(error) => AddonInstallResultView::Failure { file: file@, error: error@ },
        },
{
    match installed {
        Ok(id) => match enable_error {
            Some(error) => AddonInstallResult::Failure { file, error },
            None => AddonInstallResult::Success { id },
        },
        Err(error) => AddonInstallResult::Failure { file, error },
    }
}

} // verus!
