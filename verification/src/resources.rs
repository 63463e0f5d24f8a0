//! The rules that research resources and local algorithm packages must meet
//! before they are trusted: manifest compatibility, path safety, declared
//! sizes, download sources, integrity digests and the operators a prepared
//! research feature needs.
use vstd::prelude::*;
use crate::application::{only_normal_components, safe_relative, ResourceFile};
use crate::runtime::{hex_bytes, sha256_digest, sha256_hex};
use crate::strings::{append_str, starts_with, str_eq};

verus! {

/// A plugin package's manifest, as plain values.
#[derive(Clone, Debug)]
pub struct PluginManifest {
    pub protocol_version: u32,
    pub package_id: String,
    pub release: String,
    pub entrypoint: String,
    pub runtime: String,
    pub operators: Vec<String>,
    /// Slot name and the operator bound to it, one entry per slot.
    pub slots: Vec<(String, String)>,
    pub files: Vec<ResourceFile>,
}

/// A research resource bundle's manifest, as plain values.
#[derive(Clone, Debug)]
pub struct BundleManifest {
    pub format_version: u32,
    pub release: String,
    pub python: String,
    pub packages: String,
    pub model: String,
    pub model_revision: String,
    pub files: Vec<ResourceFile>,
    pub plugins: Vec<PluginManifest>,
}

/// The largest local package manifest accepted, in bytes.
pub const MAX_PACKAGE_MANIFEST_BYTES: usize = 1048576;
/// The most files a local package may list.
pub const MAX_PACKAGE_FILES: usize = 256;
/// The most bytes a local package may declare in all.
pub const MAX_PACKAGE_BYTES: u64 = 134217728;

/// The sum of the sizes the files declare.
pub open spec fn declared_bytes(files: Seq<ResourceFile>) -> int
    decreases files.len(),
{
    if files.len() == 0 {
        0
    } else {
        declared_bytes(files.drop_last()) + files.last().bytes
    }
}

proof fn lemma_declared_prefix(files: Seq<ResourceFile>, i: int)
    requires
        0 <= i <= files.len(),
    ensures
        declared_bytes(files.take(i)) <= declared_bytes(files),
        declared_bytes(files.take(i)) >= 0,
    decreases files.len() - i,
{
    if i < files.len() {
        lemma_declared_prefix(files, i + 1);
        assert(files.take(i + 1).drop_last() =~= files.take(i));
    } else {
        assert(files.take(i) =~= files);
        lemma_declared_nonneg(files);
    }
    if i < files.len() {
        lemma_declared_nonneg(files.take(i));
    }
}

proof fn lemma_declared_nonneg(files: Seq<ResourceFile>)
    ensures
        declared_bytes(files) >= 0,
    decreases files.len(),
{
    if files.len() > 0 {
        lemma_declared_nonneg(files.drop_last());
    }
}

/// The total of the declared sizes, or `overflow_message` when it does not fit in 64 bits.
pub fn total_declared_bytes(files: &[ResourceFile], overflow_message: &str) -> (r: Result<u64, String>)
    ensures
        declared_bytes(files@) >= 0,
        declared_bytes(files@) <= u64::MAX ==> r == Ok::<u64, String>(declared_bytes(files@) as u64),
        declared_bytes(files@) > u64::MAX ==> (r matches Err(m) && m@ == overflow_message@),
{
    proof {
        lemma_declared_nonneg(files@);
    }
    let mut total: u64 = 0;
    let mut i: usize = 0;
    while i < files.len()
        invariant
            0 <= i <= files@.len(),
            total == declared_bytes(files@.take(i as int)),
        decreases files@.len() - i,
    {
        assert(files@.take(i as int + 1).drop_last() =~= files@.take(i as int));
        match total.checked_add(files[i].bytes) {
            Some(t) => total = t,
            None => {
                proof {
                    lemma_declared_prefix(files@, i as int + 1);
                }
                return Err(overflow_message.to_owned());
            },
        }
        i += 1;
    }
    assert(files@.take(files@.len() as int) =~= files@);
    Ok(total)
}

/// Whether a path is one that `safe_relative` accepts.
pub open spec fn path_safe(path: Seq<char>) -> bool {
    path.len() > 0 && only_normal_components(path)
}

/// The error a bundle manifest meets, if any: it must have format 1, list
/// files and plugins, and name a safe release directory.
pub open spec fn bundle_problem(m: BundleManifest) -> Option<Seq<char>> {
    if m.format_version != 1 || m.files@.len() == 0 || m.plugins@.len() == 0 {
        Some("incompatible resource manifest"@)
    } else if !path_safe(m.release@) {
        Some("unsafe resource path"@)
    } else {
        None
    }
}

pub fn check_bundle_manifest(m: &BundleManifest) -> (r: Result<(), String>)
    ensures
        match bundle_problem(*m) {
            None => r is Ok,
            Some(message) => r matches Err(e) && e@ == message,
        },
{
    if m.format_version != 1 || m.files.len() == 0 || m.plugins.len() == 0 {
        return Err("incompatible resource manifest".to_owned());
    }
    match safe_relative(m.release.as_str()) {
        Ok(_) => Ok(()),
        Err(e) => Err(e),
    }
}

/// Whether some file of a package declares exactly the entrypoint's path.
pub open spec fn entrypoint_covered(p: PluginManifest) -> bool {
    exists|i: int| 0 <= i < p.files@.len() && #[trigger] p.files@[i].path@ == p.entrypoint@
}

/// The error a local algorithm package meets, if any, given its manifest's
/// size in bytes: a small manifest, safe identity, release and entrypoint
/// paths, protocol 1 on Python 3.12, between one and 256 files, at most
/// 128 MiB declared in all, and an entrypoint covered by an integrity entry.
pub open spec fn package_problem(manifest_bytes: nat, p: PluginManifest) -> Option<Seq<char>> {
    if manifest_bytes > MAX_PACKAGE_MANIFEST_BYTES {
        Some("package manifest too large"@)
    } else if !path_safe(p.package_id@) || !path_safe(p.release@) || !path_safe(p.entrypoint@) {
        Some("unsafe resource path"@)
    } else if p.protocol_version != 1 || p.runtime@ != "python-3.12"@ || p.files@.len() == 0
        || p.files@.len() > MAX_PACKAGE_FILES {
        Some("incompatible local package"@)
    } else if declared_bytes(p.files@) > u64::MAX {
        Some("package size overflow"@)
    } else if declared_bytes(p.files@) > MAX_PACKAGE_BYTES {
        Some("local algorithm package exceeds 128 MiB"@)
    } else if !entrypoint_covered(p) {
        Some("entrypoint is not integrity-covered"@)
    } else {
        None
    }
}

/// Checks a local algorithm package before it is installed; answers the
/// total of its declared sizes.
#[verifier::loop_isolation(false)]
pub fn check_local_package(manifest_bytes: usize, p: &PluginManifest) -> (r: Result<u64, String>)
    ensures
        match package_problem(manifest_bytes as nat, *p) {
            None => r == Ok::<u64, String>(declared_bytes(p.files@) as u64),
            Some(message) => r matches Err(e) && e@ == message,
        },
{
    if manifest_bytes > MAX_PACKAGE_MANIFEST_BYTES {
        return Err("package manifest too large".to_owned());
    }
    if let Err(e) = safe_relative(p.package_id.as_str()) {
        return Err(e);
    }
    if let Err(e) = safe_relative(p.release.as_str()) {
        return Err(e);
    }
    if let Err(e) = safe_relative(p.entrypoint.as_str()) {
        return Err(e);
    }
    if p.protocol_version != 1 || !str_eq(p.runtime.as_str(), "python-3.12") || p.files.len() == 0
        || p.files.len() > MAX_PACKAGE_FILES {
        return Err("incompatible local package".to_owned());
    }
    let total = match total_declared_bytes(p.files.as_slice(), "package size overflow") {
        Ok(t) => t,
        Err(e) => return Err(e),
    };
    if total > MAX_PACKAGE_BYTES {
        return Err("local algorithm package exceeds 128 MiB".to_owned());
    }
    let mut i: usize = 0;
    while i < p.files.len()
        invariant
            0 <= i <= p.files@.len(),
            forall|j: int| 0 <= j < i ==> #[trigger] p.files@[j].path@ != p.entrypoint@,
        decreases p.files@.len() - i,
    {
        if str_eq(p.files[i].path.as_str(), p.entrypoint.as_str()) {
            return Ok(total);
        }
        i += 1;
    }
    Err("entrypoint is not integrity-covered".to_owned())
}

/// The error a plugin of a prepared bundle meets, if any: safe identity and
/// entrypoint paths, protocol 1, and one slot binding per operator.
pub open spec fn plugin_problem(p: PluginManifest) -> Option<Seq<char>> {
    if !path_safe(p.package_id@) || !path_safe(p.entrypoint@) {
        Some("unsafe resource path"@)
    } else if p.protocol_version != 1 {
        Some("incompatible plugin protocol"@)
    } else if p.operators@.len() != p.slots@.len() {
        Some("plugin slot bindings do not match its operators"@)
    } else {
        None
    }
}

pub fn check_plugin(p: &PluginManifest) -> (r: Result<(), String>)
    ensures
        match plugin_problem(*p) {
            None => r is Ok,
            Some(message) => r matches Err(e) && e@ == message,
        },
{
    if let Err(e) = safe_relative(p.package_id.as_str()) {
        return Err(e);
    }
    if let Err(e) = safe_relative(p.entrypoint.as_str()) {
        return Err(e);
    }
    if p.protocol_version != 1 {
        return Err("incompatible plugin protocol".to_owned());
    }
    if p.operators.len() != p.slots.len() {
        return Err("plugin slot bindings do not match its operators".to_owned());
    }
    Ok(())
}

/// Where a missing resource may be downloaded from: only its declared
/// `https://` address.
pub open spec fn spec_download_url(file: ResourceFile) -> Option<Seq<char>> {
    match file.url {
        Some(u) => if u@.len() >= 8 && u@.take(8) == "https://"@ { Some(u@) } else { None },
        None => None,
    }
}

pub fn download_url(file: &ResourceFile) -> (r: Result<String, String>)
    ensures
        match spec_download_url(*file) {
            Some(u) => r matches Ok(x) && x@ == u,
            None => r matches Err(e) && e@ == "资源缺失且没有官方下载地址："@ + file.path@,
        },
{
    if let Some(u) = &file.url {
        proof {
            reveal_strlit("https://");
        }
        if starts_with(u.as_str(), "https://") {
            return Ok(u.clone());
        }
    }
    let mut message = "资源缺失且没有官方下载地址：".to_owned();
    append_str(&mut message, file.path.as_str());
    Err(message)
}

/// Whether a file's contents are what its entry declares: the declared size
/// and the declared lower-case hexadecimal SHA-256 digest.
pub open spec fn spec_resource_matches(file: ResourceFile, contents: Seq<u8>) -> bool {
    contents.len() == file.bytes && hex_bytes(sha256_digest(contents)) == file.sha256@
}

pub fn resource_matches(file: &ResourceFile, contents: &[u8]) -> (r: bool)
    ensures
        r == spec_resource_matches(*file, contents@),
{
    if contents.len() as u64 != file.bytes {
        return false;
    }
    let actual = sha256_hex(contents);
    str_eq(actual.as_str(), file.sha256.as_str())
}

/// Refuses a download that has grown past the size its entry declares.
pub fn check_download_size(written: u64, declared: u64) -> (r: Result<(), String>)
    ensures
        written <= declared ==> r is Ok,
        written > declared ==> (r matches Err(e) && e@ == "download exceeded declared size"@),
{
    if written > declared {
        return Err("download exceeded declared size".to_owned());
    }
    Ok(())
}

/// Progress is published on file boundaries: after a file larger than one
/// MiB, and after the last file.
pub fn publish_progress(file_bytes: u64, done: u64, total: u64) -> (r: bool)
    ensures
        r == (file_bytes > 1048576 || done == total),
{
    file_bytes > 1048576 || done == total
}

/// The operators a prepared research feature must provide.
pub open spec fn required_operators() -> Seq<Seq<char>> {
    seq!["fuzzy.edit_distance"@, "fuzzy.char_ngram"@, "xlmr.contextual_alignment"@]
}

pub open spec fn operator_listed(operators: Seq<String>, id: Seq<char>) -> bool {
    exists|i: int| 0 <= i < operators.len() && #[trigger] operators[i]@ == id
}

fn lists(operators: &Vec<String>, id: &str) -> (r: bool)
    ensures
        r == operator_listed(operators@, id@),
{
    let mut i: usize = 0;
    while i < operators.len()
        invariant
            0 <= i <= operators@.len(),
            forall|j: int| 0 <= j < i ==> #[trigger] operators@[j]@ != id@,
        decreases operators@.len() - i,
    {
        if str_eq(operators[i].as_str(), id) {
            return true;
        }
        i += 1;
    }
    false
}

/// Checks that the started workers provide both fuzzy providers and XLM-R.
pub fn check_required_operators(operators: &Vec<String>) -> (r: Result<(), String>)
    ensures
        r is Ok <==> forall|k: int| 0 <= k < 3 ==> operator_listed(operators@, #[trigger] required_operators()[k]),
        r matches Err(e) ==> e@ == "research feature requires both fuzzy providers and XLM-R"@,
{
    let a = lists(operators, "fuzzy.edit_distance");
    let b = lists(operators, "fuzzy.char_ngram");
    let c = lists(operators, "xlmr.contextual_alignment");
    assert(required_operators()[0] == "fuzzy.edit_distance"@);
    assert(required_operators()[1] == "fuzzy.char_ngram"@);
    assert(required_operators()[2] == "xlmr.contextual_alignment"@);
    if a && b && c {
        Ok(())
    } else {
        Err("research feature requires both fuzzy providers and XLM-R".to_owned())
    }
}

/// Whether an operator is served by more than one worker.
pub open spec fn has_duplicate(operators: Seq<String>) -> bool {
    exists|i: int, j: int| 0 <= i < j < operators.len() && operators[i]@ == operators[j]@
}

/// Refuses a set of workers in which two serve the same operator.
pub fn check_unique_operators(operators: &Vec<String>) -> (r: Result<(), String>)
    ensures
        r is Ok <==> !has_duplicate(operators@),
        r matches Err(e) ==> e@ == "duplicate plugin operator"@,
{
    let mut j: usize = 0;
    while j < operators.len()
        invariant
            0 <= j <= operators@.len(),
            forall|a: int, b: int| 0 <= a < b < j ==> operators@[a]@ != operators@[b]@,
        decreases operators@.len() - j,
    {
        let mut i: usize = 0;
        while i < j
            invariant
                0 <= i <= j < operators@.len(),
                forall|a: int| 0 <= a < i ==> operators@[a]@ != operators@[j as int]@,
            decreases j - i,
        {
            if str_eq(operators[i].as_str(), operators[j].as_str()) {
                return Err("duplicate plugin operator".to_owned());
            }
            i += 1;
        }
        j += 1;
    }
    Ok(())
}

} // verus!
