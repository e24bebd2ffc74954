//! Decision core of the cache manager, which mirrors the remote page
//! archive in a local directory tree: one subdirectory per operating-system
//! tag plus a shared `common` one, each holding `<command>.md` files.
//!
//! Everything that is a function of plain values is here, proved: path
//! construction, the page-lookup order, staleness arithmetic, and archive
//! validation and decompression. Reading the clock, probing and writing the
//! filesystem, and the network fetch are the caller's, which hands their
//! outcomes in as values.

use vstd::prelude::*;

verus! {

use crate::error::TldrError;
use crate::types::OsType;

/// Subdirectory searched first for a tag; `Other` has no directory of its
/// own and goes straight to the shared one.
pub open spec fn os_dir_spec(os: OsType) -> Seq<char> {
    match os {
        OsType::Linux => "linux"@,
        OsType::OsX => "osx"@,
        OsType::SunOs => "sunos"@,
        OsType::Other => "common"@,
    }
}

/// Path of a page file inside one subdirectory of the cache root.
pub open spec fn page_path_spec(root: Seq<char>, dir: Seq<char>, command: Seq<char>) -> Seq<char> {
    root + "/"@ + dir + "/"@ + command + ".md"@
}

/// `<root>/<dir>/<command>.md`.
pub fn page_path(root: &str, dir: &str, command: &str) -> (r: String)
    ensures
        r@ == page_path_spec(root@, dir@, command@),
{
    let mut s = String::from_str(root);
    s.append("/");
    s.append(dir);
    s.append("/");
    s.append(command);
    s.append(".md");
    s
}

/// Where the mirror lives under a user's home directory: a pure function of
/// the platform convention, independent of the working directory.
pub open spec fn cache_root_spec(home: Seq<char>) -> Seq<char> {
    home + "/.cache/tldr-rs"@
}

/// `<home>/.cache/tldr-rs`.
pub fn cache_root_path(home: &str) -> (r: String)
    ensures
        r@ == cache_root_spec(home@),
{
    let mut s = String::from_str(home);
    s.append("/.cache/tldr-rs");
    s
}

/// Result of gzip-decompressing a byte sequence: the uncompressed bytes, or
/// nothing when the bytes are not a well-formed gzip stream. A function of
/// the input bytes alone.
pub uninterp spec fn gunzip_of(bytes: Seq<u8>) -> Option<Seq<u8>>;

/// Relies on flate2's `read::GzDecoder`: reading it to the end yields the
/// uncompressed contents of the gzip stream, or an error for malformed
/// input; which of the two, and the contents, depend on the input bytes
/// alone.
#[verifier::external_body]
fn gunzip(bytes: &Vec<u8>) -> (r: Result<Vec<u8>, String>)
    ensures
        (match r {
            Ok(out) => gunzip_of(bytes@) == Some(out@),
            Err(_) => gunzip_of(bytes@) is None,
        }),
{
    let mut decoder = flate2::read::GzDecoder::new(bytes.as_slice());
    let mut out: Vec<u8> = Vec::new();
    match std::io::Read::read_to_end(&mut decoder, &mut out) {
        Ok(_) => Ok(out),
        Err(e) => Err(format!("invalid gzip data: {}", e)),
    }
}

/// Configuration of the local mirror: the fixed archive URL and the
/// operating-system tag scoping page lookups. Constructed fresh per run;
/// only its on-disk effects persist.
pub struct Cache {
    url: String,
    os: OsType,
}

impl Cache {
    /// The archive URL, as a character sequence.
    pub closed spec fn url_spec(&self) -> Seq<char> {
        self.url@
    }

    /// The tag that scopes page lookups.
    pub closed spec fn os_spec(&self) -> OsType {
        self.os
    }

    pub fn new(url: &str, os: OsType) -> (c: Cache)
        ensures
            c.url_spec() == url@,
            c.os_spec() == os,
    {
        Cache { url: String::from_str(url), os }
    }

    /// The archive URL the mirror is updated from.
    pub fn url(&self) -> (r: &str)
        ensures
            r@ == self.url_spec(),
    {
        self.url.as_str()
    }

    pub fn os(&self) -> (r: OsType)
        ensures
            r == self.os_spec(),
    {
        self.os
    }

    /// Name of the subdirectory searched first for this cache's tag.
    pub fn os_dir(&self) -> (r: &str)
        ensures
            r@ == os_dir_spec(self.os_spec()),
    {
        match self.os {
            OsType::Linux => "linux",
            OsType::OsX => "osx",
            OsType::SunOs => "sunos",
            OsType::Other => "common",
        }
    }

    /// Page lookup, decided from which of the two candidate files is
    /// present on disk: the OS-specific path wins over the shared one; no
    /// candidate present, no page — never an error.
    pub fn find_page_from(
        &self,
        root: &str,
        command: &str,
        os_present: bool,
        common_present: bool,
    ) -> (r: Option<String>)
        ensures
            (r is Some) == (os_present || common_present),
            os_present ==> (r matches Some(p) && p@ == page_path_spec(
                root@,
                os_dir_spec(self.os_spec()),
                command@,
            )),
            !os_present && common_present ==> (r matches Some(p) && p@ == page_path_spec(
                root@,
                "common"@,
                command@,
            )),
    {
        if os_present {
            Some(page_path(root, self.os_dir(), command))
        } else if common_present {
            Some(page_path(root, "common", command))
        } else {
            None
        }
    }

    /// Validate a fetched archive and decompress it: a non-success response
    /// or a malformed gzip stream is an update failure, anything else hands
    /// the uncompressed tar bytes back.
    pub fn prepare_archive(&self, status: u32, body: &Vec<u8>) -> (r: Result<Vec<u8>, TldrError>)
        ensures
            status != 200 ==> (r matches Err(e) && e matches TldrError::UpdateError(_)),
            status == 200 ==> (match gunzip_of(body@) {
                Some(out) => r matches Ok(v) && v@ == out,
                None => r matches Err(e) && e matches TldrError::UpdateError(_),
            }),
    {
        if status != 200 {
            return Err(
                TldrError::UpdateError(
                    String::from_str("download failed: the server did not answer with success"),
                ),
            );
        }
        match gunzip(body) {
            Ok(v) => Ok(v),
            Err(m) => Err(TldrError::UpdateError(m)),
        }
    }
}

/// Age of the cache in seconds, derived from the root directory's
/// last-modified time: `None` exactly when no such time could be read
/// because the root does not exist.
pub fn last_update_age(mtime_secs: Option<i64>, now_secs: i64) -> (r: Option<i64>)
    requires
        mtime_secs matches Some(m) ==> i64::MIN <= now_secs - m <= i64::MAX,
    ensures
        (match mtime_secs {
            Some(m) => r matches Some(age) && age == now_secs - m,
            None => r is None,
        }),
{
    match mtime_secs {
        Some(m) => Some(now_secs - m),
        None => None,
    }
}

} // verus!
