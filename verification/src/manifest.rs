//! The manifest data model and its resolver: architecture-specific
//! overrides are merged over architecture-agnostic defaults, field by
//! field and wholesale, and a version bump rewrites the templated fields
//! through the substitution engine.

use vstd::prelude::*;

use crate::packages::Error;
use crate::substitutions::{spec_insert, spec_substitute, SubstituteBuilder, SubstitutionMap,
    Version, version_major, version_minor, version_patch, version_pre_release};
use crate::Architecture;

verus! {

/// One string or many — manifest fields accept both spellings.
#[derive(Debug)]
pub enum StringArray {
    /// A single string.
    Single(String),
    /// A list of strings.
    Array(Vec<String>),
}

impl StringArray {
    /// The strings this field holds, in order.
    pub open spec fn items(&self) -> Seq<Seq<char>> {
        match self {
            StringArray::Single(s) => seq![s@],
            StringArray::Array(v) => v.deep_view(),
        }
    }

    /// An equal copy.
    pub fn duplicate(&self) -> (r: StringArray)
        ensures
            r.items() == self.items(),
    {
        match self {
            StringArray::Single(s) => StringArray::Single(s.clone()),
            StringArray::Array(v) => {
                let r = StringArray::Array(clone_string_vec(v));
                proof {
                    assert(r.items() =~= self.items());
                }
                r
            },
        }
    }

    /// The strings this field holds, as a vector.
    pub fn to_vec(self) -> (r: Vec<String>)
        ensures
            r.deep_view() == self.items(),
    {
        match self {
            StringArray::Single(s) => {
                let mut r: Vec<String> = Vec::new();
                r.push(s);
                proof {
                    assert(r.deep_view() =~= StringArray::Single(r[0]).items());
                }
                r
            },
            StringArray::Array(v) => v,
        }
    }
}

/// An equal copy of a vector of strings.
pub fn clone_string_vec(v: &Vec<String>) -> (r: Vec<String>)
    ensures
        r@ == v@,
        r.deep_view() == v.deep_view(),
{
    let mut r: Vec<String> = Vec::new();
    let mut i: usize = 0;
    while i < v.len()
        invariant
            i <= v@.len(),
            r@ == v@.subrange(0, i as int),
        decreases v@.len() - i,
    {
        r.push(v[i].clone());
        proof {
            assert(r@ =~= v@.subrange(0, i + 1 as int));
        }
        i = i + 1;
    }
    proof {
        assert(r@ =~= v@);
        assert(r.deep_view() =~= v.deep_view());
    }
    r
}

/// The items of an optional string-array field.
pub open spec fn opt_items(o: Option<StringArray>) -> Option<Seq<Seq<char>>> {
    match o {
        Some(sa) => Some(sa.items()),
        None => None,
    }
}

/// An equal copy of an optional string-array field.
pub fn dup_field(o: &Option<StringArray>) -> (r: Option<StringArray>)
    ensures
        opt_items(r) == opt_items(*o),
{
    match o {
        Some(sa) => Some(sa.duplicate()),
        None => None,
    }
}

/// The override when it sets the field, the default otherwise: fields are
/// replaced wholesale, never merged element-wise.
pub open spec fn or_opt(over: Option<Seq<Seq<char>>>, default: Option<Seq<Seq<char>>>) -> Option<
    Seq<Seq<char>>,
> {
    if over is Some {
        over
    } else {
        default
    }
}

/// The merged form of one field.
fn or_field(over: &Option<StringArray>, default: Option<StringArray>) -> (r: Option<StringArray>)
    ensures
        opt_items(r) == or_opt(opt_items(*over), opt_items(default)),
{
    match over {
        Some(sa) => Some(sa.duplicate()),
        None => default,
    }
}

/// The abstract value of an install configuration: each field as the
/// option of its list of strings.
#[verifier::ext_equal]
pub struct InstallConfigView {
    /// Binaries to expose.
    pub bin: Option<Seq<Seq<char>>>,
    /// How to check for new versions.
    pub checkver: Option<Seq<Seq<char>>>,
    /// Directory to extract into.
    pub extract_dir: Option<Seq<Seq<char>>>,
    /// Expected digests, one per URL.
    pub hash: Option<Seq<Seq<char>>>,
    /// Installer hints.
    pub installer: Option<Seq<Seq<char>>>,
    /// MSI hints.
    pub msi: Option<Seq<Seq<char>>>,
    /// Hook run after installing.
    pub post_install: Option<Seq<Seq<char>>>,
    /// Hook run after uninstalling.
    pub post_uninstall: Option<Seq<Seq<char>>>,
    /// Hook run before installing.
    pub pre_install: Option<Seq<Seq<char>>>,
    /// Hook run before uninstalling.
    pub pre_uninstall: Option<Seq<Seq<char>>>,
    /// Shortcuts to create.
    pub shortcuts: Option<Seq<Seq<char>>>,
    /// Uninstaller hints.
    pub uninstaller: Option<Seq<Seq<char>>>,
    /// Download URLs.
    pub url: Option<Seq<Seq<char>>>,
}

/// The effective per-architecture install configuration.
#[derive(Debug, Default)]
pub struct InstallConfig {
    /// Binaries to expose.
    pub bin: Option<StringArray>,
    /// How to check for new versions.
    pub checkver: Option<StringArray>,
    /// Directory to extract into.
    pub extract_dir: Option<StringArray>,
    /// Expected digests, one per URL.
    pub hash: Option<StringArray>,
    /// Installer hints.
    pub installer: Option<StringArray>,
    /// MSI hints.
    pub msi: Option<StringArray>,
    /// Hook run after installing.
    pub post_install: Option<StringArray>,
    /// Hook run after uninstalling.
    pub post_uninstall: Option<StringArray>,
    /// Hook run before installing.
    pub pre_install: Option<StringArray>,
    /// Hook run before uninstalling.
    pub pre_uninstall: Option<StringArray>,
    /// Shortcuts to create.
    pub shortcuts: Option<StringArray>,
    /// Uninstaller hints.
    pub uninstaller: Option<StringArray>,
    /// Download URLs.
    pub url: Option<StringArray>,
}

impl View for InstallConfig {
    type V = InstallConfigView;

    open spec fn view(&self) -> InstallConfigView {
        InstallConfigView {
            bin: opt_items(self.bin),
            checkver: opt_items(self.checkver),
            extract_dir: opt_items(self.extract_dir),
            hash: opt_items(self.hash),
            installer: opt_items(self.installer),
            msi: opt_items(self.msi),
            post_install: opt_items(self.post_install),
            post_uninstall: opt_items(self.post_uninstall),
            pre_install: opt_items(self.pre_install),
            pre_uninstall: opt_items(self.pre_uninstall),
            shortcuts: opt_items(self.shortcuts),
            uninstaller: opt_items(self.uninstaller),
            url: opt_items(self.url),
        }
    }
}

impl InstallConfig {
    /// An equal copy.
    pub fn duplicate(&self) -> (r: InstallConfig)
        ensures
            r@ == self@,
    {
        let r = InstallConfig {
            bin: dup_field(&self.bin),
            checkver: dup_field(&self.checkver),
            extract_dir: dup_field(&self.extract_dir),
            hash: dup_field(&self.hash),
            installer: dup_field(&self.installer),
            msi: dup_field(&self.msi),
            post_install: dup_field(&self.post_install),
            post_uninstall: dup_field(&self.post_uninstall),
            pre_install: dup_field(&self.pre_install),
            pre_uninstall: dup_field(&self.pre_uninstall),
            shortcuts: dup_field(&self.shortcuts),
            uninstaller: dup_field(&self.uninstaller),
            url: dup_field(&self.url),
        };
        proof {
            assert(r@ =~= self@);
        }
        r
    }
}

/// The abstract value of an autoupdate configuration: the same field
/// shape, holding templates instead of literals.
#[verifier::ext_equal]
pub struct AutoupdateConfigView {
    /// Templated binaries.
    pub bin: Option<Seq<Seq<char>>>,
    /// Templated path additions.
    pub env_add_path: Option<Seq<Seq<char>>>,
    /// Templated environment settings.
    pub env_set: Option<Seq<Seq<char>>>,
    /// Templated extraction directory.
    pub extract_dir: Option<Seq<Seq<char>>>,
    /// Templated hash extractions.
    pub hash: Option<Seq<Seq<char>>>,
    /// Templated installer hints.
    pub installer: Option<Seq<Seq<char>>>,
    /// Templated shortcuts.
    pub shortcuts: Option<Seq<Seq<char>>>,
    /// Templated download URLs.
    pub url: Option<Seq<Seq<char>>>,
}

/// The autoupdate section: templates for computing a new version's
/// manifest fields.
#[derive(Debug, Default)]
pub struct AutoupdateConfig {
    /// Templated binaries.
    pub bin: Option<StringArray>,
    /// Templated path additions.
    pub env_add_path: Option<StringArray>,
    /// Templated environment settings.
    pub env_set: Option<StringArray>,
    /// Templated extraction directory.
    pub extract_dir: Option<StringArray>,
    /// Templated hash extractions.
    pub hash: Option<StringArray>,
    /// Templated installer hints.
    pub installer: Option<StringArray>,
    /// Templated shortcuts.
    pub shortcuts: Option<StringArray>,
    /// Templated download URLs.
    pub url: Option<StringArray>,
}

impl View for AutoupdateConfig {
    type V = AutoupdateConfigView;

    open spec fn view(&self) -> AutoupdateConfigView {
        AutoupdateConfigView {
            bin: opt_items(self.bin),
            env_add_path: opt_items(self.env_add_path),
            env_set: opt_items(self.env_set),
            extract_dir: opt_items(self.extract_dir),
            hash: opt_items(self.hash),
            installer: opt_items(self.installer),
            shortcuts: opt_items(self.shortcuts),
            url: opt_items(self.url),
        }
    }
}

impl AutoupdateConfig {
    /// An equal copy.
    pub fn duplicate(&self) -> (r: AutoupdateConfig)
        ensures
            r@ == self@,
    {
        let r = AutoupdateConfig {
            bin: dup_field(&self.bin),
            env_add_path: dup_field(&self.env_add_path),
            env_set: dup_field(&self.env_set),
            extract_dir: dup_field(&self.extract_dir),
            hash: dup_field(&self.hash),
            installer: dup_field(&self.installer),
            shortcuts: dup_field(&self.shortcuts),
            url: dup_field(&self.url),
        };
        proof {
            assert(r@ =~= self@);
        }
        r
    }
}

/// Per-architecture install-configuration overrides.
#[derive(Debug, Default)]
pub struct ManifestArchitecture {
    /// The 32-bit x86 override.
    pub x86: Option<InstallConfig>,
    /// The 64-bit x86 override.
    pub x64: Option<InstallConfig>,
    /// The 64-bit ARM override.
    pub arm64: Option<InstallConfig>,
}

impl ManifestArchitecture {
    /// The override for one architecture, as an abstract value.
    pub open spec fn entry_view(&self, arch: Architecture) -> Option<InstallConfigView> {
        match arch {
            Architecture::X86 => match self.x86 {
                Some(c) => Some(c@),
                None => None,
            },
            Architecture::X64 => match self.x64 {
                Some(c) => Some(c@),
                None => None,
            },
            Architecture::Arm64 => match self.arm64 {
                Some(c) => Some(c@),
                None => None,
            },
        }
    }

    /// The override for one architecture.
    pub fn entry(&self, arch: Architecture) -> (r: &Option<InstallConfig>)
        ensures
            self.entry_view(arch) == match r {
                Some(c) => Some(c@),
                None => None::<InstallConfigView>,
            },
    {
        match arch {
            Architecture::X86 => &self.x86,
            Architecture::X64 => &self.x64,
            Architecture::Arm64 => &self.arm64,
        }
    }
}

/// Per-architecture autoupdate overrides.
#[derive(Debug, Default)]
pub struct AutoupdateArchitecture {
    /// The 32-bit x86 override.
    pub x86: Option<AutoupdateConfig>,
    /// The 64-bit x86 override.
    pub x64: Option<AutoupdateConfig>,
    /// The 64-bit ARM override.
    pub arm64: Option<AutoupdateConfig>,
}

impl AutoupdateArchitecture {
    /// The override for one architecture, as an abstract value.
    pub open spec fn entry_view(&self, arch: Architecture) -> Option<AutoupdateConfigView> {
        match arch {
            Architecture::X86 => match self.x86 {
                Some(c) => Some(c@),
                None => None,
            },
            Architecture::X64 => match self.x64 {
                Some(c) => Some(c@),
                None => None,
            },
            Architecture::Arm64 => match self.arm64 {
                Some(c) => Some(c@),
                None => None,
            },
        }
    }

    /// The override for one architecture.
    pub fn entry(&self, arch: Architecture) -> (r: &Option<AutoupdateConfig>)
        ensures
            self.entry_view(arch) == match r {
                Some(c) => Some(c@),
                None => None::<AutoupdateConfigView>,
            },
    {
        match arch {
            Architecture::X86 => &self.x86,
            Architecture::X64 => &self.x64,
            Architecture::Arm64 => &self.arm64,
        }
    }
}

/// The autoupdate section of a manifest.
#[derive(Debug, Default)]
pub struct Autoupdate {
    /// Per-architecture template overrides.
    pub architecture: Option<AutoupdateArchitecture>,
    /// The architecture-agnostic templates.
    pub default_config: AutoupdateConfig,
}

/// Merging an architecture-specific override over architecture-agnostic
/// defaults: for every field independently, an override that sets the
/// field replaces the default wholesale, and absence of an override is a
/// normal case, never a failure.
pub trait MergeDefaults {
    /// The merged configuration type.
    type Output: View;

    /// The merged configuration, as a mathematical function of the
    /// override table and the defaults.
    spec fn spec_merge(
        &self,
        default: <Self::Output as View>::V,
        arch: Architecture,
    ) -> <Self::Output as View>::V;

    /// Merges the override for `arch` over `default`.
    fn merge_default(&self, default: Self::Output, arch: Architecture) -> (r: Self::Output)
        ensures
            r@ == self.spec_merge(default@, arch),
    ;
}

/// The field-wise merge of an install-configuration override.
pub open spec fn merged_install_view(
    over: Option<InstallConfigView>,
    default: InstallConfigView,
) -> InstallConfigView {
    match over {
        None => default,
        Some(o) => InstallConfigView {
            bin: or_opt(o.bin, default.bin),
            checkver: or_opt(o.checkver, default.checkver),
            extract_dir: or_opt(o.extract_dir, default.extract_dir),
            hash: or_opt(o.hash, default.hash),
            installer: or_opt(o.installer, default.installer),
            msi: or_opt(o.msi, default.msi),
            post_install: or_opt(o.post_install, default.post_install),
            post_uninstall: or_opt(o.post_uninstall, default.post_uninstall),
            pre_install: or_opt(o.pre_install, default.pre_install),
            pre_uninstall: or_opt(o.pre_uninstall, default.pre_uninstall),
            shortcuts: or_opt(o.shortcuts, default.shortcuts),
            uninstaller: or_opt(o.uninstaller, default.uninstaller),
            url: or_opt(o.url, default.url),
        },
    }
}

/// The field-wise merge of an autoupdate override.
pub open spec fn merged_autoupdate_view(
    over: Option<AutoupdateConfigView>,
    default: AutoupdateConfigView,
) -> AutoupdateConfigView {
    match over {
        None => default,
        Some(o) => AutoupdateConfigView {
            bin: or_opt(o.bin, default.bin),
            env_add_path: or_opt(o.env_add_path, default.env_add_path),
            env_set: or_opt(o.env_set, default.env_set),
            extract_dir: or_opt(o.extract_dir, default.extract_dir),
            hash: or_opt(o.hash, default.hash),
            installer: or_opt(o.installer, default.installer),
            shortcuts: or_opt(o.shortcuts, default.shortcuts),
            url: or_opt(o.url, default.url),
        },
    }
}

impl MergeDefaults for Option<ManifestArchitecture> {
    type Output = InstallConfig;

    open spec fn spec_merge(&self, default: InstallConfigView, arch: Architecture)
        -> InstallConfigView {
        match self {
            None => default,
            Some(table) => merged_install_view(table.entry_view(arch), default),
        }
    }

    fn merge_default(&self, default: InstallConfig, arch: Architecture) -> (r: InstallConfig) {
        match self {
            None => default,
            Some(table) => match table.entry(arch) {
                None => default,
                Some(o) => {
                    let r = InstallConfig {
                        bin: or_field(&o.bin, default.bin),
                        checkver: or_field(&o.checkver, default.checkver),
                        extract_dir: or_field(&o.extract_dir, default.extract_dir),
                        hash: or_field(&o.hash, default.hash),
                        installer: or_field(&o.installer, default.installer),
                        msi: or_field(&o.msi, default.msi),
                        post_install: or_field(&o.post_install, default.post_install),
                        post_uninstall: or_field(&o.post_uninstall, default.post_uninstall),
                        pre_install: or_field(&o.pre_install, default.pre_install),
                        pre_uninstall: or_field(&o.pre_uninstall, default.pre_uninstall),
                        shortcuts: or_field(&o.shortcuts, default.shortcuts),
                        uninstaller: or_field(&o.uninstaller, default.uninstaller),
                        url: or_field(&o.url, default.url),
                    };
                    proof {
                        assert(r@ =~= self.spec_merge(default@, arch));
                    }
                    r
                },
            },
        }
    }
}

impl MergeDefaults for Option<AutoupdateArchitecture> {
    type Output = AutoupdateConfig;

    open spec fn spec_merge(&self, default: AutoupdateConfigView, arch: Architecture)
        -> AutoupdateConfigView {
        match self {
            None => default,
            Some(table) => merged_autoupdate_view(table.entry_view(arch), default),
        }
    }

    fn merge_default(&self, default: AutoupdateConfig, arch: Architecture) -> (r:
        AutoupdateConfig) {
        match self {
            None => default,
            Some(table) => match table.entry(arch) {
                None => default,
                Some(o) => {
                    let r = AutoupdateConfig {
                        bin: or_field(&o.bin, default.bin),
                        env_add_path: or_field(&o.env_add_path, default.env_add_path),
                        env_set: or_field(&o.env_set, default.env_set),
                        extract_dir: or_field(&o.extract_dir, default.extract_dir),
                        hash: or_field(&o.hash, default.hash),
                        installer: or_field(&o.installer, default.installer),
                        shortcuts: or_field(&o.shortcuts, default.shortcuts),
                        url: or_field(&o.url, default.url),
                    };
                    proof {
                        assert(r@ =~= self.spec_merge(default@, arch));
                    }
                    r
                },
            },
        }
    }
}

/// Merging with no override is the identity: every field of the result
/// is the default's field, whether the whole table is absent or the
/// table has no entry for the architecture.
pub proof fn lemma_merge_no_override_identity(
    table: Option<ManifestArchitecture>,
    default: InstallConfigView,
    arch: Architecture,
)
    requires
        table is None || table->0.entry_view(arch) is None,
    ensures
        table.spec_merge(default, arch) == default,
{
}

/// A field the override sets replaces the default's field wholesale; a
/// field it leaves unset keeps the default's value. Stated for every
/// field of the install configuration.
pub proof fn lemma_merge_override_wins(
    table: ManifestArchitecture,
    over: InstallConfigView,
    default: InstallConfigView,
    arch: Architecture,
)
    requires
        table.entry_view(arch) == Some(over),
    ensures
        ({
            let merged = Some(table).spec_merge(default, arch);
            &&& (over.bin is Some ==> merged.bin == over.bin) && (over.bin is None ==> merged.bin
                == default.bin)
            &&& (over.checkver is Some ==> merged.checkver == over.checkver) && (over.checkver
                is None ==> merged.checkver == default.checkver)
            &&& (over.extract_dir is Some ==> merged.extract_dir == over.extract_dir) && (
            over.extract_dir is None ==> merged.extract_dir == default.extract_dir)
            &&& (over.hash is Some ==> merged.hash == over.hash) && (over.hash is None
                ==> merged.hash == default.hash)
            &&& (over.installer is Some ==> merged.installer == over.installer) && (over.installer
                is None ==> merged.installer == default.installer)
            &&& (over.msi is Some ==> merged.msi == over.msi) && (over.msi is None ==> merged.msi
                == default.msi)
            &&& (over.post_install is Some ==> merged.post_install == over.post_install) && (
            over.post_install is None ==> merged.post_install == default.post_install)
            &&& (over.post_uninstall is Some ==> merged.post_uninstall == over.post_uninstall) && (
            over.post_uninstall is None ==> merged.post_uninstall == default.post_uninstall)
            &&& (over.pre_install is Some ==> merged.pre_install == over.pre_install) && (
            over.pre_install is None ==> merged.pre_install == default.pre_install)
            &&& (over.pre_uninstall is Some ==> merged.pre_uninstall == over.pre_uninstall) && (
            over.pre_uninstall is None ==> merged.pre_uninstall == default.pre_uninstall)
            &&& (over.shortcuts is Some ==> merged.shortcuts == over.shortcuts) && (over.shortcuts
                is None ==> merged.shortcuts == default.shortcuts)
            &&& (over.uninstaller is Some ==> merged.uninstaller == over.uninstaller) && (
            over.uninstaller is None ==> merged.uninstaller == default.uninstaller)
            &&& (over.url is Some ==> merged.url == over.url) && (over.url is None ==> merged.url
                == default.url)
        }),
{
}

/// Merging with no autoupdate override is the identity, whether the
/// table is absent or has no entry for the architecture.
pub proof fn lemma_autoupdate_merge_no_override_identity(
    table: Option<AutoupdateArchitecture>,
    default: AutoupdateConfigView,
    arch: Architecture,
)
    requires
        table is None || table->0.entry_view(arch) is None,
    ensures
        table.spec_merge(default, arch) == default,
{
}

/// A templated field the autoupdate override sets replaces the default's
/// wholesale; one it leaves unset keeps the default. Stated for every
/// field of the autoupdate configuration.
pub proof fn lemma_autoupdate_merge_override_wins(
    table: AutoupdateArchitecture,
    over: AutoupdateConfigView,
    default: AutoupdateConfigView,
    arch: Architecture,
)
    requires
        table.entry_view(arch) == Some(over),
    ensures
        ({
            let merged = Some(table).spec_merge(default, arch);
            &&& (over.bin is Some ==> merged.bin == over.bin) && (over.bin is None ==> merged.bin
                == default.bin)
            &&& (over.env_add_path is Some ==> merged.env_add_path == over.env_add_path) && (
            over.env_add_path is None ==> merged.env_add_path == default.env_add_path)
            &&& (over.env_set is Some ==> merged.env_set == over.env_set) && (over.env_set is None
                ==> merged.env_set == default.env_set)
            &&& (over.extract_dir is Some ==> merged.extract_dir == over.extract_dir) && (
            over.extract_dir is None ==> merged.extract_dir == default.extract_dir)
            &&& (over.hash is Some ==> merged.hash == over.hash) && (over.hash is None
                ==> merged.hash == default.hash)
            &&& (over.installer is Some ==> merged.installer == over.installer) && (over.installer
                is None ==> merged.installer == default.installer)
            &&& (over.shortcuts is Some ==> merged.shortcuts == over.shortcuts) && (over.shortcuts
                is None ==> merged.shortcuts == default.shortcuts)
            &&& (over.url is Some ==> merged.url == over.url) && (over.url is None ==> merged.url
                == default.url)
        }),
{
}

/// One download URL resolved from a manifest.
#[derive(Debug)]
pub struct DownloadUrl {
    /// The URL text.
    pub url: String,
}

impl View for DownloadUrl {
    type V = Seq<char>;

    open spec fn view(&self) -> Seq<char> {
        self.url@
    }
}

impl DeepView for DownloadUrl {
    type V = Seq<char>;

    open spec fn deep_view(&self) -> Seq<char> {
        self.url@
    }
}

impl DownloadUrl {
    /// Wraps a URL text.
    pub fn from_string(url: String) -> (r: DownloadUrl)
        ensures
            r@ == url@,
    {
        DownloadUrl { url }
    }
}

/// A declarative package description.
#[derive(Debug, Default)]
pub struct Manifest {
    /// The package name; taken from the manifest's file name.
    pub name: String,
    /// The package version.
    pub version: String,
    /// The bucket this manifest came from.
    pub bucket: String,
    /// A short description.
    pub description: Option<String>,
    /// The package homepage.
    pub homepage: Option<String>,
    /// The package license.
    pub license: Option<String>,
    /// Packages that must be installed first.
    pub depends: Option<StringArray>,
    /// The architecture-agnostic install configuration.
    pub install_config: InstallConfig,
    /// Per-architecture overrides.
    pub architecture: Option<ManifestArchitecture>,
    /// Templates for advancing to a new version.
    pub autoupdate: Option<Autoupdate>,
}

/// The substitution map a version bump rewrites templates with: the
/// version-derived tokens over an empty map.
pub open spec fn version_map(v: Seq<char>) -> Seq<(Seq<char>, Seq<char>)> {
    spec_insert(
        spec_insert(
            spec_insert(
                spec_insert(
                    spec_insert(Seq::empty(), "$version"@, v),
                    "$majorVersion"@,
                    version_major(v),
                ),
                "$minorVersion"@,
                version_minor(v),
            ),
            "$patchVersion"@,
            version_patch(v),
        ),
        "$preReleaseVersion"@,
        version_pre_release(v),
    )
}

/// Every template of a field, substituted.
pub open spec fn subst_items(items: Seq<Seq<char>>, m: Seq<(Seq<char>, Seq<char>)>) -> Seq<
    Seq<char>,
> {
    items.map_values(|t: Seq<char>| spec_substitute(t, m, false))
}

/// An install configuration after a version bump: each templated field
/// the autoupdate section provides is replaced by its substituted
/// templates; the other fields are kept.
pub open spec fn updated_install_view(
    c: InstallConfigView,
    a: AutoupdateConfigView,
    m: Seq<(Seq<char>, Seq<char>)>,
) -> InstallConfigView {
    InstallConfigView {
        bin: match a.bin {
            Some(ts) => Some(subst_items(ts, m)),
            None => c.bin,
        },
        extract_dir: match a.extract_dir {
            Some(ts) => Some(subst_items(ts, m)),
            None => c.extract_dir,
        },
        installer: match a.installer {
            Some(ts) => Some(subst_items(ts, m)),
            None => c.installer,
        },
        shortcuts: match a.shortcuts {
            Some(ts) => Some(subst_items(ts, m)),
            None => c.shortcuts,
        },
        url: match a.url {
            Some(ts) => Some(subst_items(ts, m)),
            None => c.url,
        },
        ..c
    }
}

/// An architecture override after a version bump: a field is rewritten
/// only when the override sets it and the merged autoupdate templates
/// provide it; every other field is kept.
pub open spec fn updated_arch_view(
    c: InstallConfigView,
    a: AutoupdateConfigView,
    m: Seq<(Seq<char>, Seq<char>)>,
) -> InstallConfigView {
    InstallConfigView {
        bin: if c.bin is Some && a.bin is Some {
            Some(subst_items(a.bin->0, m))
        } else {
            c.bin
        },
        extract_dir: if c.extract_dir is Some && a.extract_dir is Some {
            Some(subst_items(a.extract_dir->0, m))
        } else {
            c.extract_dir
        },
        installer: if c.installer is Some && a.installer is Some {
            Some(subst_items(a.installer->0, m))
        } else {
            c.installer
        },
        shortcuts: if c.shortcuts is Some && a.shortcuts is Some {
            Some(subst_items(a.shortcuts->0, m))
        } else {
            c.shortcuts
        },
        url: if c.url is Some && a.url is Some {
            Some(subst_items(a.url->0, m))
        } else {
            c.url
        },
        ..c
    }
}

/// The abstract value of an optional architecture override entry.
pub open spec fn entry_cfg_view(e: Option<InstallConfig>) -> Option<InstallConfigView> {
    match e {
        Some(c) => Some(c@),
        None => None,
    }
}

/// An optional architecture override entry after a version bump.
pub open spec fn bumped_entry(
    e: Option<InstallConfigView>,
    merged: AutoupdateConfigView,
    m: Seq<(Seq<char>, Seq<char>)>,
) -> Option<InstallConfigView> {
    match e {
        None => None,
        Some(c) => Some(updated_arch_view(c, merged, m)),
    }
}

/// Substitutes the map into every template of a field.
fn substitute_field(sa: &StringArray, map: &SubstitutionMap) -> (r: StringArray)
    ensures
        r.items() == subst_items(sa.items(), map@),
{
    match sa {
        StringArray::Single(s) => {
            let out = map.substitute(SubstituteBuilder::Text(s.clone()), false);
            let r = StringArray::Single(out);
            proof {
                assert(r.items() =~= subst_items(sa.items(), map@));
            }
            r
        },
        StringArray::Array(v) => {
            let ghost target = subst_items(v.deep_view(), map@);
            let mut out: Vec<String> = Vec::new();
            let mut i: usize = 0;
            while i < v.len()
                invariant
                    i <= v@.len(),
                    out@.len() == i,
                    target == subst_items(v.deep_view(), map@),
                    forall|k: int| 0 <= k < i ==> (#[trigger] out@[k])@ == target[k],
                decreases v@.len() - i,
            {
                let s = map.substitute(SubstituteBuilder::Text(v[i].clone()), false);
                proof {
                    assert(v.deep_view()[i as int] == v@[i as int]@);
                    assert(s@ == target[i as int]);
                }
                out.push(s);
                i = i + 1;
            }
            let r = StringArray::Array(out);
            proof {
                assert forall|k: int| 0 <= k < out@.len() implies out.deep_view()[k]
                    == target[k] by {
                    assert((out@[k])@ == target[k]);
                }
                assert(out.deep_view() =~= target);
                assert(r.items() =~= subst_items(sa.items(), map@));
            }
            r
        },
    }
}

/// A field after a version bump of the defaults: substituted templates
/// when the autoupdate section provides them, the current value
/// otherwise.
fn bumped_field(current: Option<StringArray>, templates: &Option<StringArray>,
    map: &SubstitutionMap) -> (r: Option<StringArray>)
    ensures
        opt_items(r) == match opt_items(*templates) {
            Some(ts) => Some(subst_items(ts, map@)),
            None => opt_items(current),
        },
{
    match templates {
        Some(ts) => Some(substitute_field(ts, map)),
        None => current,
    }
}

/// An override's field after a version bump: rewritten only when the
/// override sets it and the templates provide it.
fn bumped_arch_field(current: Option<StringArray>, templates: &Option<StringArray>,
    map: &SubstitutionMap) -> (r: Option<StringArray>)
    ensures
        opt_items(r) == ({
            let c = opt_items(current);
            let t = opt_items(*templates);
            if c is Some && t is Some {
                Some(subst_items(t->0, map@))
            } else {
                c
            }
        }),
{
    match current {
        Some(cur) => match templates {
            Some(ts) => Some(substitute_field(ts, map)),
            None => Some(cur),
        },
        None => None,
    }
}

impl Manifest {
    /// The effective install configuration for an architecture: the
    /// architecture's override merged over the defaults.
    pub fn install_config(&self, arch: Architecture) -> (r: InstallConfig)
        ensures
            r@ == self.architecture.spec_merge(self.install_config@, arch),
    {
        self.architecture.merge_default(self.install_config.duplicate(), arch)
    }

    /// The effective autoupdate configuration for an architecture, when
    /// the manifest has an autoupdate section.
    pub fn autoupdate_config(&self, arch: Architecture) -> (r: Option<AutoupdateConfig>)
        ensures
            match self.autoupdate {
                None => r is None,
                Some(au) => r is Some && r->0@ == au.architecture.spec_merge(
                    au.default_config@,
                    arch,
                ),
            },
    {
        match &self.autoupdate {
            None => None,
            Some(au) => Some(au.architecture.merge_default(au.default_config.duplicate(), arch)),
        }
    }

    /// The download URLs resolved for an architecture; absent exactly
    /// when the effective configuration has no URL field.
    pub fn download_urls(&self, arch: Architecture) -> (r: Option<Vec<DownloadUrl>>)
        ensures
            match self.architecture.spec_merge(self.install_config@, arch).url {
                None => r is None,
                Some(us) => r is Some && r->0.deep_view() == us,
            },
    {
        let config = self.install_config(arch);
        match config.url {
            None => None,
            Some(sa) => {
                let strings = sa.to_vec();
                let ghost target = strings.deep_view();
                let mut out: Vec<DownloadUrl> = Vec::new();
                let mut i: usize = 0;
                while i < strings.len()
                    invariant
                        i <= strings@.len(),
                        out@.len() == i,
                        target == strings.deep_view(),
                        forall|k: int| 0 <= k < i ==> (#[trigger] out@[k]).url@ == target[k],
                    decreases strings@.len() - i,
                {
                    let d = DownloadUrl::from_string(strings[i].clone());
                    proof {
                        assert(strings.deep_view()[i as int] == strings@[i as int]@);
                    }
                    out.push(d);
                    i = i + 1;
                }
                proof {
                    assert forall|k: int| 0 <= k < out@.len() implies out.deep_view()[k]
                        == target[k] by {
                        assert((out@[k]).url@ == target[k]);
                    }
                    assert(out.deep_view() =~= target);
                }
                Some(out)
            },
        }
    }

    /// The packages this manifest depends on, in install order; the
    /// package itself is not listed.
    pub fn depends(&self) -> (r: Vec<String>)
        ensures
            r.deep_view() == match self.depends {
                None => Seq::<Seq<char>>::empty(),
                Some(sa) => sa.items(),
            },
    {
        match &self.depends {
            None => {
                let r: Vec<String> = Vec::new();
                proof {
                    assert(r.deep_view() =~= Seq::<Seq<char>>::empty());
                }
                r
            },
            Some(sa) => sa.duplicate().to_vec(),
        }
    }

    /// This manifest, re-homed to the named bucket.
    pub fn with_bucket(self, bucket: &str) -> (r: Manifest)
        ensures
            r.bucket@ == bucket@,
            r.name == self.name,
            r.version == self.version,
            r.description == self.description,
            r.homepage == self.homepage,
            r.license == self.license,
            r.depends == self.depends,
            r.install_config == self.install_config,
            r.architecture == self.architecture,
            r.autoupdate == self.autoupdate,
    {
        Manifest { bucket: bucket.to_owned(), ..self }
    }

    /// The URLs a version bump would give this manifest: the autoupdate
    /// URL templates with the version tokens substituted; absent when
    /// the templates are.
    pub fn get_new_urls(&self, autoupdate: &AutoupdateConfig) -> (r: Option<StringArray>)
        ensures
            opt_items(r) == match autoupdate@.url {
                Some(ts) => Some(subst_items(ts, version_map(self.version@))),
                None => None::<Seq<Seq<char>>>,
            },
    {
        match &autoupdate.url {
            None => None,
            Some(ts) => {
                let map = self.version_submap();
                Some(substitute_field(ts, &map))
            },
        }
    }

    /// The substitution map built from this manifest's version.
    fn version_submap(&self) -> (m: SubstitutionMap)
        ensures
            m@ == version_map(self.version@),
    {
        let v = Version::new(self.version.clone());
        let mut m = SubstitutionMap::new();
        m.append_version(&v);
        m
    }

    /// Advances the manifest to a new version: replaces the version and
    /// rewrites the templated fields — URLs, binaries, extraction
    /// directory, installer hints and shortcuts — through the
    /// substitution engine, for the defaults and for every architecture
    /// override. Fails when the manifest has no autoupdate section; the
    /// version is replaced even then.
    pub fn set_version(&mut self, version: String) -> (r: Result<(), Error>)
        ensures
            final(self).version@ == version@,
            final(self).name == old(self).name,
            final(self).bucket == old(self).bucket,
            final(self).description == old(self).description,
            final(self).homepage == old(self).homepage,
            final(self).license == old(self).license,
            final(self).depends == old(self).depends,
            final(self).autoupdate == old(self).autoupdate,
            old(self).autoupdate is None ==> {
                &&& r == Err::<(), Error>(Error::MissingAutoUpdate)
                &&& final(self).install_config == old(self).install_config
                &&& final(self).architecture == old(self).architecture
            },
            old(self).autoupdate is Some ==> {
                let au = old(self).autoupdate->0;
                let m = version_map(version@);
                &&& r == Ok::<(), Error>(())
                &&& final(self).install_config@ == updated_install_view(
                    old(self).install_config@,
                    au.default_config@,
                    m,
                )
                &&& match old(self).architecture {
                    None => final(self).architecture is None,
                    Some(table) => {
                        &&& final(self).architecture is Some
                        &&& entry_cfg_view(final(self).architecture->0.x86) == bumped_entry(
                            entry_cfg_view(table.x86),
                            au.architecture.spec_merge(au.default_config@, Architecture::X86),
                            m,
                        )
                        &&& entry_cfg_view(final(self).architecture->0.x64) == bumped_entry(
                            entry_cfg_view(table.x64),
                            au.architecture.spec_merge(au.default_config@, Architecture::X64),
                            m,
                        )
                        &&& entry_cfg_view(final(self).architecture->0.arm64) == bumped_entry(
                            entry_cfg_view(table.arm64),
                            au.architecture.spec_merge(au.default_config@, Architecture::Arm64),
                            m,
                        )
                    },
                }
            },
    {
        self.version = version;
        let (au_default, au_arch) = match &self.autoupdate {
            None => {
                return Err(Error::MissingAutoUpdate);
            },
            Some(au) => {
                let d = au.default_config.duplicate();
                let a: Option<AutoupdateArchitecture> = match &au.architecture {
                    None => None,
                    Some(t) => Some(
                        AutoupdateArchitecture {
                            x86: match &t.x86 {
                                Some(c) => Some(c.duplicate()),
                                None => None,
                            },
                            x64: match &t.x64 {
                                Some(c) => Some(c.duplicate()),
                                None => None,
                            },
                            arm64: match &t.arm64 {
                                Some(c) => Some(c.duplicate()),
                                None => None,
                            },
                        },
                    ),
                };
                (d, a)
            },
        };
        let ghost au_old = old(self).autoupdate->0;
        proof {
            assert(au_arch.spec_merge(au_default@, Architecture::X86)
                == au_old.architecture.spec_merge(au_old.default_config@, Architecture::X86));
            assert(au_arch.spec_merge(au_default@, Architecture::X64)
                == au_old.architecture.spec_merge(au_old.default_config@, Architecture::X64));
            assert(au_arch.spec_merge(au_default@, Architecture::Arm64)
                == au_old.architecture.spec_merge(au_old.default_config@, Architecture::Arm64));
        }
        let map = self.version_submap();
        let mut taken = empty_install_config();
        core::mem::swap(&mut taken, &mut self.install_config);
        let ghost old_cfg_view = taken@;
        let InstallConfig {
            bin,
            checkver,
            extract_dir,
            hash,
            installer,
            msi,
            post_install,
            post_uninstall,
            pre_install,
            pre_uninstall,
            shortcuts,
            uninstaller,
            url,
        } = taken;
        self.install_config = InstallConfig {
            bin: bumped_field(bin, &au_default.bin, &map),
            checkver,
            extract_dir: bumped_field(extract_dir, &au_default.extract_dir, &map),
            hash,
            installer: bumped_field(installer, &au_default.installer, &map),
            msi,
            post_install,
            post_uninstall,
            pre_install,
            pre_uninstall,
            shortcuts: bumped_field(shortcuts, &au_default.shortcuts, &map),
            uninstaller,
            url: bumped_field(url, &au_default.url, &map),
        };
        proof {
            assert(self.install_config@ =~= updated_install_view(
                old_cfg_view,
                au_default@,
                map@,
            ));
        }
        let table = self.architecture.take();
        self.architecture = match table {
            None => None,
            Some(t) => {
                let x86 = bump_arch_entry(t.x86, &au_arch, &au_default, Architecture::X86, &map);
                let x64 = bump_arch_entry(t.x64, &au_arch, &au_default, Architecture::X64, &map);
                let arm64 = bump_arch_entry(
                    t.arm64,
                    &au_arch,
                    &au_default,
                    Architecture::Arm64,
                    &map,
                );
                Some(ManifestArchitecture { x86, x64, arm64 })
            },
        };
        Ok(())
    }
}

/// An install configuration with every field unset.
fn empty_install_config() -> (r: InstallConfig)
    ensures
        r@ == (InstallConfigView {
            bin: None,
            checkver: None,
            extract_dir: None,
            hash: None,
            installer: None,
            msi: None,
            post_install: None,
            post_uninstall: None,
            pre_install: None,
            pre_uninstall: None,
            shortcuts: None,
            uninstaller: None,
            url: None,
        }),
{
    InstallConfig {
        bin: None,
        checkver: None,
        extract_dir: None,
        hash: None,
        installer: None,
        msi: None,
        post_install: None,
        post_uninstall: None,
        pre_install: None,
        pre_uninstall: None,
        shortcuts: None,
        uninstaller: None,
        url: None,
    }
}

/// One architecture override after a version bump.
fn bump_arch_entry(
    entry: Option<InstallConfig>,
    au_arch: &Option<AutoupdateArchitecture>,
    au_default: &AutoupdateConfig,
    arch: Architecture,
    map: &SubstitutionMap,
) -> (r: Option<InstallConfig>)
    ensures
        entry_cfg_view(r) == bumped_entry(
            entry_cfg_view(entry),
            au_arch.spec_merge(au_default@, arch),
            map@,
        ),
{
    match entry {
        None => None,
        Some(c) => {
            let merged = au_arch.merge_default(au_default.duplicate(), arch);
            let ghost cv = c@;
            let InstallConfig {
                bin,
                checkver,
                extract_dir,
                hash,
                installer,
                msi,
                post_install,
                post_uninstall,
                pre_install,
                pre_uninstall,
                shortcuts,
                uninstaller,
                url,
            } = c;
            let r = InstallConfig {
                bin: bumped_arch_field(bin, &merged.bin, map),
                checkver,
                extract_dir: bumped_arch_field(extract_dir, &merged.extract_dir, map),
                hash,
                installer: bumped_arch_field(installer, &merged.installer, map),
                msi,
                post_install,
                post_uninstall,
                pre_install,
                pre_uninstall,
                shortcuts: bumped_arch_field(shortcuts, &merged.shortcuts, map),
                uninstaller,
                url: bumped_arch_field(url, &merged.url, map),
            };
            proof {
                assert(r@ =~= updated_arch_view(cv, au_arch.spec_merge(au_default@, arch), map@));
            }
            Some(r)
        },
    }
}

/// The record of one installed package.
#[derive(Debug, Default)]
pub struct InstallManifest {
    /// The package name; taken from the install record's directory.
    pub name: String,
    /// The bucket the package was installed from.
    pub bucket: Option<String>,
    /// Whether the package is held at its version.
    pub hold: Option<bool>,
}

impl InstallManifest {
    /// The source this package was installed from: its bucket, or empty
    /// when none was recorded.
    pub fn get_source(&self) -> (r: String)
        ensures
            match self.bucket {
                Some(b) => r@ == b@,
                None => r@ == Seq::<char>::empty(),
            },
    {
        match &self.bucket {
            Some(b) => b.clone(),
            None => String::new(),
        }
    }
}

} // verus!
