//! Filesystem paths and the process environment derived from the host
//! application's directories.
//!
//! On init the shim receives the application's cache and files directories
//! from the host and points the framework's temporary, cache, registry,
//! configuration, font and certificate locations at them.  The exact list of
//! assignments is computed here; the unverified layer only applies it.

use vstd::prelude::*;

verus! {

/// `base` with `child` appended as a filesystem path: an absolute `child`
/// stands alone; otherwise a separator is inserted unless `base` is empty or
/// already ends with one.
pub open spec fn joined_path(base: Seq<char>, child: Seq<char>) -> Seq<char> {
    if child.len() > 0 && child[0] == '/' {
        child
    } else if base.len() == 0 {
        child
    } else if base[base.len() - 1] == '/' {
        base + child
    } else {
        base + seq!['/'] + child
    }
}

/// Joins `child` onto `base` as a filesystem path.
pub fn join_path(base: &str, child: &str) -> (r: String)
    ensures
        r@ == joined_path(base@, child@),
{
    proof {
        reveal_strlit("/");
        assert("/"@ =~= seq!['/']);
    }
    let child_len = child.unicode_len();
    if child_len > 0 && child.get_char(0) == '/' {
        return String::from_str(child);
    }
    let base_len = base.unicode_len();
    if base_len == 0 {
        return String::from_str(child);
    }
    let mut out = String::from_str(base);
    if base.get_char(base_len - 1) != '/' {
        out.append("/");
    }
    out.append(child);
    proof {
        assert(out@ =~= joined_path(base@, child@));
    }
    out
}

/// Where the framework's plugin registry is kept: `registry.bin` in the
/// application's cache directory.
pub fn registry_file_path(cache_dir: &str) -> (r: String)
    ensures
        r@ == joined_path(cache_dir@, "registry.bin"@),
{
    join_path(cache_dir, "registry.bin")
}

/// Where fontconfig is pointed: `fontconfig` in the application's files
/// directory.
pub fn fontconfig_dir_path(files_dir: &str) -> (r: String)
    ensures
        r@ == joined_path(files_dir@, "fontconfig"@),
{
    join_path(files_dir, "fontconfig")
}

/// The certificate bundle below the application's files directory.
pub open spec fn certificates_path_chars(files_dir: Seq<char>) -> Seq<char> {
    joined_path(joined_path(joined_path(files_dir, "ssl"@), "certs"@), "ca-certificates.crt"@)
}

/// Where the certificate bundle is expected:
/// `ssl/certs/ca-certificates.crt` below the application's files directory.
pub fn certificates_file_path(files_dir: &str) -> (r: String)
    ensures
        r@ == certificates_path_chars(files_dir@),
{
    let ssl = join_path(files_dir, "ssl");
    let certs = join_path(ssl.as_str(), "certs");
    join_path(certs.as_str(), "ca-certificates.crt")
}

/// The environment assignments init applies, in order: temporary, runtime
/// and cache locations point at the cache directory, the plugin registry
/// lives there and is not reused by the plugin scanner, home and the XDG
/// data and configuration locations point at the files directory, and
/// fontconfig and the certificate bundle sit below it.
pub fn environment_assignments(cache_dir: &str, files_dir: &str) -> (r: Vec<(String, String)>)
    ensures
        r@.len() == 14,
        r@[0].0@ == "TMP"@ && r@[0].1@ == cache_dir@,
        r@[1].0@ == "TEMP"@ && r@[1].1@ == cache_dir@,
        r@[2].0@ == "TMPDIR"@ && r@[2].1@ == cache_dir@,
        r@[3].0@ == "XDG_RUNTIME_DIR"@ && r@[3].1@ == cache_dir@,
        r@[4].0@ == "XDG_CACHE_HOME"@ && r@[4].1@ == cache_dir@,
        r@[5].0@ == "GST_REGISTRY"@ && r@[5].1@ == joined_path(cache_dir@, "registry.bin"@),
        r@[6].0@ == "GST_REGISTRY_REUSE_PLUGIN_SCANNER"@ && r@[6].1@ == "no"@,
        r@[7].0@ == "HOME"@ && r@[7].1@ == files_dir@,
        r@[8].0@ == "XDG_DATA_DIRS"@ && r@[8].1@ == files_dir@,
        r@[9].0@ == "XDG_CONFIG_DIRS"@ && r@[9].1@ == files_dir@,
        r@[10].0@ == "XDG_CONFIG_HOME"@ && r@[10].1@ == files_dir@,
        r@[11].0@ == "XDG_DATA_HOME"@ && r@[11].1@ == files_dir@,
        r@[12].0@ == "FONTCONFIG_PATH"@ && r@[12].1@ == joined_path(files_dir@, "fontconfig"@),
        r@[13].0@ == "CA_CERTIFICATES"@ && r@[13].1@ == certificates_path_chars(files_dir@),
{
    let mut r: Vec<(String, String)> = Vec::new();
    r.push((String::from_str("TMP"), String::from_str(cache_dir)));
    r.push((String::from_str("TEMP"), String::from_str(cache_dir)));
    r.push((String::from_str("TMPDIR"), String::from_str(cache_dir)));
    r.push((String::from_str("XDG_RUNTIME_DIR"), String::from_str(cache_dir)));
    r.push((String::from_str("XDG_CACHE_HOME"), String::from_str(cache_dir)));
    r.push((String::from_str("GST_REGISTRY"), registry_file_path(cache_dir)));
    r.push((String::from_str("GST_REGISTRY_REUSE_PLUGIN_SCANNER"), String::from_str("no")));
    r.push((String::from_str("HOME"), String::from_str(files_dir)));
    r.push((String::from_str("XDG_DATA_DIRS"), String::from_str(files_dir)));
    r.push((String::from_str("XDG_CONFIG_DIRS"), String::from_str(files_dir)));
    r.push((String::from_str("XDG_CONFIG_HOME"), String::from_str(files_dir)));
    r.push((String::from_str("XDG_DATA_HOME"), String::from_str(files_dir)));
    r.push((String::from_str("FONTCONFIG_PATH"), fontconfig_dir_path(files_dir)));
    r.push((String::from_str("CA_CERTIFICATES"), certificates_file_path(files_dir)));
    r
}

} // verus!
