//! The sing-box core's lifecycle decisions: how long to wait before an
//! automatic restart, which release archive fits the host, which files of the
//! archive to keep, and whether a downloaded archive matches its published
//! checksum. Downloading, unpacking and spawning are the caller's.

use vstd::prelude::*;

use crate::text::{
    chars_of, is_whitespace, is_ws, lead_ws, push_str, str_eq, string_of, to_lowercase,
    lowercase, trim, trim_spec,
};
use sha2::Digest;
use vstd::string::StringSliceAdditionalSpecFns;

verus! {

/// The latest-release page of the sing-box project.
pub const GITHUB_LATEST: &'static str = "https://github.com/SagerNet/sing-box/releases/latest";

/// The wait, in seconds, before restart attempt `attempt` (counted from 0):
/// 2, 4, 8, 16, then 30 for every later attempt.
pub open spec fn backoff_secs_spec(attempt: nat) -> nat {
    if attempt == 0 {
        2
    } else if attempt == 1 {
        4
    } else if attempt == 2 {
        8
    } else if attempt == 3 {
        16
    } else {
        30
    }
}

/// Exponential backoff for automatic core restarts after a crash, in seconds:
/// `2^min(attempt + 1, 5)` capped at 30, so a persistently failing core never
/// spins. The attempt counter must leave room for the `+ 1`.
pub fn restart_backoff_secs(attempt: u32) -> (secs: u64)
    requires
        attempt < u32::MAX,
    ensures
        secs == backoff_secs_spec(attempt as nat),
{
    let exponent = if attempt + 1 < 5 {
        attempt + 1
    } else {
        5
    };
    let mut secs: u64 = 1;
    let mut k: u32 = 0;
    while k < exponent
        invariant
            k <= exponent <= 5,
            secs == pow2(k as nat),
        decreases exponent - k,
    {
        assert(pow2(k as nat) <= 16) by {
            reveal_with_fuel(pow2, 6);
            assert(k == 0 || k == 1 || k == 2 || k == 3 || k == 4);
        }
        secs = secs * 2;
        k = k + 1;
    }
    assert(pow2(1) == 2 && pow2(2) == 4 && pow2(3) == 8 && pow2(4) == 16 && pow2(5) == 32) by {
        reveal_with_fuel(pow2, 6);
    }
    if secs < 30 {
        secs
    } else {
        30
    }
}

pub open spec fn pow2(k: nat) -> nat
    decreases k,
{
    if k == 0 {
        1
    } else {
        2 * pow2((k - 1) as nat)
    }
}

/// The restart backoff never shrinks from one attempt to the next and never
/// exceeds thirty seconds.
pub proof fn backoff_grows_then_caps(a: nat, b: nat)
    requires
        a <= b,
    ensures
        backoff_secs_spec(a) <= backoff_secs_spec(b),
        2 <= backoff_secs_spec(b) <= 30,
        b >= 4 ==> backoff_secs_spec(b) == 30,
{
}

/// What `std::time::Duration::from_secs` returns for a second count.
pub uninterp spec fn duration_of_secs(secs: u64) -> std::time::Duration;

/// Calls `std::time::Duration::from_secs`. Trusted: the result is named
/// [`duration_of_secs`] of the argument.
#[verifier::external_body]
fn from_secs(secs: u64) -> (d: std::time::Duration)
    ensures
        d == duration_of_secs(secs),
{
    std::time::Duration::from_secs(secs)
}

/// [`restart_backoff_secs`] as a `Duration`.
pub fn restart_backoff(attempt: u32) -> (d: std::time::Duration)
    requires
        attempt < u32::MAX,
    ensures
        d == duration_of_secs(backoff_secs_spec(attempt as nat) as u64),
{
    from_secs(restart_backoff_secs(attempt))
}

pub open spec fn arch_name_spec(arch: Seq<char>) -> Seq<char> {
    if arch == "x86_64"@ {
        "amd64"@
    } else if arch == "aarch64"@ {
        "arm64"@
    } else {
        arch
    }
}

pub open spec fn os_name_spec(os: Seq<char>) -> Seq<char> {
    if os == "macos"@ {
        "darwin"@
    } else {
        os
    }
}

/// The release's platform suffix, `<os>-<arch>` in sing-box's own names, for
/// Rust's `std::env::consts::OS` and `ARCH`.
pub open spec fn core_platform_spec(os: Seq<char>, arch: Seq<char>) -> Seq<char> {
    os_name_spec(os) + "-"@ + arch_name_spec(arch)
}

/// The platform suffix of the release archive for this host.
pub fn core_platform(os: &str, arch: &str) -> (platform: String)
    ensures
        platform@ == core_platform_spec(os@, arch@),
{
    let mut platform = String::new();
    if str_eq(os, "macos") {
        push_str(&mut platform, "darwin");
    } else {
        push_str(&mut platform, os);
    }
    push_str(&mut platform, "-");
    if str_eq(arch, "x86_64") {
        push_str(&mut platform, "amd64");
    } else if str_eq(arch, "aarch64") {
        push_str(&mut platform, "arm64");
    } else {
        push_str(&mut platform, arch);
    }
    platform
}

/// The release download directory: the latest release when no version is
/// pinned, otherwise the tagged one.
pub open spec fn release_base_spec(version: Seq<char>) -> Seq<char> {
    if trim_spec(version).len() == 0 {
        "https://github.com/SagerNet/sing-box/releases/latest"@ + "/download"@
    } else {
        "https://github.com/SagerNet/sing-box/releases/download/"@ + version
    }
}

pub fn release_base(version: &str) -> (url: String)
    ensures
        url@ == release_base_spec(version@),
{
    let mut url = String::new();
    let t = trim(version);
    if t.as_str().unicode_len() == 0 {
        push_str(&mut url, GITHUB_LATEST);
        push_str(&mut url, "/download");
    } else {
        push_str(&mut url, "https://github.com/SagerNet/sing-box/releases/download/");
        push_str(&mut url, version);
    }
    url
}

/// The release archive's file name for a platform suffix.
pub fn archive_name(platform: &str) -> (name: String)
    ensures
        name@ == "sing-box-"@ + platform@ + ".zip"@,
{
    let mut name = String::new();
    push_str(&mut name, "sing-box-");
    push_str(&mut name, platform);
    push_str(&mut name, ".zip");
    name
}

/// The core binary's file name on the host.
pub fn binary_name(windows: bool) -> (name: &'static str)
    ensures
        name@ == if windows {
            "sing-box.exe"@
        } else {
            "sing-box"@
        },
{
    if windows {
        "sing-box.exe"
    } else {
        "sing-box"
    }
}

/// What becomes of one file of the release archive.
#[derive(Clone, Copy, Debug, PartialEq, Eq, Structural)]
pub enum EntryRole {
    /// The core binary: written out and marked executable.
    Binary,
    /// The wintun driver TUN mode needs on Windows: written beside the core.
    Wintun,
    /// Anything else: left in the archive.
    Skip,
}

/// ASCII case folding of one character.
pub open spec fn ascii_lower(c: char) -> char {
    if 'A' <= c && c <= 'Z' {
        ((c as u32) + 32) as char
    } else {
        c
    }
}

/// `a.eq_ignore_ascii_case(b)`.
pub open spec fn eq_ignore_ascii_case_spec(a: Seq<char>, b: Seq<char>) -> bool {
    a.len() == b.len() && forall|i: int| 0 <= i < a.len() ==> ascii_lower(#[trigger] a[i])
        == ascii_lower(b[i])
}

fn lower_ascii(c: char) -> (r: char)
    ensures
        r == ascii_lower(c),
{
    if 'A' <= c && c <= 'Z' {
        let b = (c as u8) + 32;
        b as char
    } else {
        c
    }
}

pub fn eq_ignore_ascii_case(a: &str, b: &str) -> (r: bool)
    ensures
        r == eq_ignore_ascii_case_spec(a@, b@),
{
    let x = chars_of(a);
    let y = chars_of(b);
    if x.len() != y.len() {
        return false;
    }
    let mut i: usize = 0;
    while i < x.len()
        invariant
            x@ == a@,
            y@ == b@,
            x@.len() == y@.len(),
            i <= x@.len(),
            forall|k: int| 0 <= k < i ==> ascii_lower(#[trigger] x@[k]) == ascii_lower(y@[k]),
        decreases x@.len() - i,
    {
        if lower_ascii(x[i]) != lower_ascii(y[i]) {
            return false;
        }
        i = i + 1;
    }
    true
}

/// The role of the archive file whose base name is `file_name`.
pub open spec fn entry_role_spec(file_name: Seq<char>, windows: bool) -> EntryRole {
    if file_name == (if windows {
        "sing-box.exe"@
    } else {
        "sing-box"@
    }) {
        EntryRole::Binary
    } else if windows && eq_ignore_ascii_case_spec(file_name, "wintun.dll"@) {
        EntryRole::Wintun
    } else {
        EntryRole::Skip
    }
}

pub fn entry_role(file_name: &str, windows: bool) -> (role: EntryRole)
    ensures
        role == entry_role_spec(file_name@, windows),
{
    if str_eq(file_name, binary_name(windows)) {
        EntryRole::Binary
    } else if windows && eq_ignore_ascii_case(file_name, "wintun.dll") {
        EntryRole::Wintun
    } else {
        EntryRole::Skip
    }
}

/// Why an unpacked archive cannot be used.
#[derive(Clone, Copy, Debug, PartialEq, Eq, Structural)]
pub enum ArchiveError {
    /// The archive holds no core binary.
    MissingBinary,
    /// A Windows archive holds no wintun driver, so TUN mode could not start.
    MissingWintun,
}

/// Whether the files taken from the archive make a usable install.
pub fn extraction_outcome(extracted: bool, extracted_wintun: bool, windows: bool) -> (r: Result<
    (),
    ArchiveError,
>)
    ensures
        !extracted ==> r == Err::<(), ArchiveError>(ArchiveError::MissingBinary),
        extracted && windows && !extracted_wintun ==> r == Err::<(), ArchiveError>(
            ArchiveError::MissingWintun,
        ),
        extracted && (!windows || extracted_wintun) ==> r is Ok,
{
    if !extracted {
        return Err(ArchiveError::MissingBinary);
    }
    if windows && !extracted_wintun {
        return Err(ArchiveError::MissingWintun);
    }
    Ok(())
}

/// What the `zip` crate reads from an archive's bytes (`ZipArchive::new`,
/// then `by_index`, `ZipFile::name` and `read_to_end` for each entry): every
/// entry's name and, where its data could be read, its data, in archive
/// order; nothing when the archive, an entry's header or its name cannot
/// be read.
pub uninterp spec fn zip_members(bytes: Seq<u8>) -> Option<Seq<(Seq<char>, Option<Seq<u8>>)>>;

/// One archive entry as plain values.
pub open spec fn member_view(m: (String, Option<Vec<u8>>)) -> (Seq<char>, Option<Seq<u8>>) {
    (m.0@, match m.1 {
        Some(data) => Some(data@),
        None => None,
    })
}

/// Reads a zip archive held in memory with the `zip` crate. The claim: the
/// result depends on the bytes alone and is what [`zip_members`] names.
#[verifier::external_body]
fn read_zip(bytes: &[u8]) -> (r: Option<Vec<(String, Option<Vec<u8>>)>>)
    ensures
        match r {
            Some(members) => zip_members(bytes@) == Some(members@.map_values(|m: (String, Option<Vec<u8>>)| member_view(m))),
            None => zip_members(bytes@) is None,
        },
{
    let mut archive = zip::ZipArchive::new(std::io::Cursor::new(bytes)).ok()?;
    let mut members = Vec::new();
    for index in 0..archive.len() {
        let mut file = archive.by_index(index).ok()?;
        let name = file.name().ok()?.into_owned();
        let mut data = Vec::new();
        let read = std::io::Read::read_to_end(&mut file, &mut data).ok();
        members.push((name, read.map(|_| data)));
    }
    Some(members)
}

/// Whether `c` separates the parts of an archive path: `/`, and on Windows
/// also `\`.
pub open spec fn is_path_sep(c: char, windows: bool) -> bool {
    c == '/' || (windows && c == '\\')
}

/// The part of `s` after its last separator.
pub open spec fn tail_part(s: Seq<char>, windows: bool) -> Seq<char>
    decreases s.len(),
{
    if s.len() == 0 || is_path_sep(s.last(), windows) {
        Seq::empty()
    } else {
        tail_part(s.drop_last(), windows).push(s.last())
    }
}

/// The file name an archive path ends in (`Path::file_name`): its last part
/// that is neither empty nor `.`, or nothing when that part is `..` or there
/// is none.
pub open spec fn file_name_spec(s: Seq<char>, windows: bool) -> Seq<char>
    decreases s.len(),
{
    let part = tail_part(s, windows);
    if part.len() > 0 && part != "."@ {
        if part == ".."@ {
            Seq::empty()
        } else {
            part
        }
    } else if part.len() >= s.len() {
        Seq::empty()
    } else {
        file_name_spec(s.subrange(0, s.len() - part.len() - 1), windows)
    }
}

proof fn lemma_tail_part(s: Seq<char>, windows: bool, start: int)
    requires
        0 <= start <= s.len(),
        forall|k: int| start <= k < s.len() ==> !is_path_sep(#[trigger] s[k], windows),
        start == 0 || is_path_sep(s[start - 1], windows),
    ensures
        tail_part(s, windows) == s.subrange(start, s.len() as int),
    decreases s.len(),
{
    if s.len() == start {
        if s.len() > 0 {
            assert(s.last() == s[start - 1]);
        }
        assert(s.subrange(start, s.len() as int) =~= Seq::<char>::empty());
    } else {
        lemma_tail_part(s.drop_last(), windows, start);
        assert(s.subrange(start, s.len() as int) =~= s.drop_last().subrange(start, s.len() - 1).push(s.last()));
    }
}

/// The file name an archive entry's path ends in.
pub fn file_name_of(path: &str, windows: bool) -> (name: String)
    ensures
        name@ == file_name_spec(path@, windows),
{
    let v = chars_of(path);
    let mut end: usize = v.len();
    assert(v@.subrange(0, end as int) =~= v@);
    loop
        invariant
            end <= v@.len(),
            v@ == path@,
            file_name_spec(path@, windows) == file_name_spec(v@.subrange(0, end as int), windows),
        decreases end,
    {
        let mut start: usize = end;
        while start > 0 && !(v[start - 1] == '/' || (windows && v[start - 1] == '\\'))
            invariant
                start <= end <= v@.len(),
                forall|k: int| start <= k < end ==> !is_path_sep(#[trigger] v@[k], windows),
            decreases start,
        {
            start = start - 1;
        }
        let ghost prefix = v@.subrange(0, end as int);
        proof {
            assert forall|k: int| start <= k < prefix.len() implies !is_path_sep(#[trigger] prefix[k], windows) by {
                assert(prefix[k] == v@[k]);
            }
            if start > 0 {
                assert(prefix[start - 1] == v@[start - 1]);
            }
            lemma_tail_part(prefix, windows, start as int);
            assert(prefix.subrange(start as int, end as int) =~= v@.subrange(start as int, end as int));
        }
        let part = string_of(&v, start, end);
        let n = end - start;
        let is_dot = n == 1 && v[start] == '.';
        let is_dots = n == 2 && v[start] == '.' && v[start + 1] == '.';
        proof {
            reveal_strlit(".");
            reveal_strlit("..");
            assert("."@.len() == 1 && "."@[0] == '.');
            assert(".."@.len() == 2 && ".."@[0] == '.' && ".."@[1] == '.');
            if n == 1 {
                assert(part@[0] == v@[start as int]);
                if is_dot {
                    assert(part@ =~= "."@);
                } else {
                    assert(part@[0] != "."@[0]);
                }
            } else {
                assert(part@.len() != "."@.len());
            }
            if n == 2 {
                assert(part@[0] == v@[start as int]);
                assert(part@[1] == v@[start + 1]);
                if is_dots {
                    assert(part@ =~= ".."@);
                } else if part@[0] != ".."@[0] {
                } else {
                    assert(part@[1] != ".."@[1]);
                }
            } else {
                assert(part@.len() != ".."@.len());
            }
        }
        if n > 0 && !is_dot {
            if is_dots {
                return String::new();
            }
            return part;
        }
        if start == 0 {
            return String::new();
        }
        proof {
            assert(prefix.subrange(0, prefix.len() - part@.len() - 1) =~= v@.subrange(0, start - 1));
        }
        end = start - 1;
    }
}

/// One file the core install takes from the release archive.
#[derive(Clone, Debug, PartialEq, Eq)]
pub struct CoreFile {
    /// The file name it is written under.
    pub file_name: String,
    pub role: EntryRole,
    pub data: Vec<u8>,
}

pub open spec fn core_file_view(f: CoreFile) -> (Seq<char>, EntryRole, Seq<u8>) {
    (f.file_name@, f.role, f.data@)
}

/// The entries of an archive the install keeps, in archive order: each by
/// its file name and role, with its data where that could be read.
pub open spec fn kept_entries(members: Seq<(Seq<char>, Option<Seq<u8>>)>, windows: bool) -> Seq<(Seq<char>, EntryRole, Option<Seq<u8>>)>
    decreases members.len(),
{
    if members.len() == 0 {
        Seq::empty()
    } else {
        let rest = kept_entries(members.drop_last(), windows);
        let name = file_name_spec(members.last().0, windows);
        let role = entry_role_spec(name, windows);
        if role == EntryRole::Skip {
            rest
        } else {
            rest.push((name, role, members.last().1))
        }
    }
}

/// Whether some kept entry's data could not be read.
pub open spec fn any_unreadable(kept: Seq<(Seq<char>, EntryRole, Option<Seq<u8>>)>) -> bool {
    exists|i: int| 0 <= i < kept.len() && (#[trigger] kept[i]).2 is None
}

/// Whether some kept entry has `role`.
pub open spec fn any_role(kept: Seq<(Seq<char>, EntryRole, Option<Seq<u8>>)>, role: EntryRole) -> bool {
    exists|i: int| 0 <= i < kept.len() && (#[trigger] kept[i]).1 == role
}

/// The kept entries with their data.
pub open spec fn with_data(kept: Seq<(Seq<char>, EntryRole, Option<Seq<u8>>)>) -> Seq<(Seq<char>, EntryRole, Seq<u8>)> {
    kept.map_values(|k: (Seq<char>, EntryRole, Option<Seq<u8>>)| (k.0, k.1, k.2->0))
}

/// Why the release archive gives no usable install.
#[derive(Clone, Copy, Debug, PartialEq, Eq, Structural)]
pub enum UnpackError {
    /// The bytes are not a readable zip archive.
    NotZip,
    /// A file the install needs could not be read out of the archive.
    Unreadable,
    /// The archive lacks a file the install needs.
    Incomplete(ArchiveError),
}

/// What the install takes from the release archive `bytes`: the core binary
/// (and on Windows the wintun driver), each under its file name, in archive
/// order; or why it cannot.
pub open spec fn core_files_spec(bytes: Seq<u8>, windows: bool) -> Result<Seq<(Seq<char>, EntryRole, Seq<u8>)>, UnpackError> {
    match zip_members(bytes) {
        None => Err(UnpackError::NotZip),
        Some(members) => {
            let kept = kept_entries(members, windows);
            if any_unreadable(kept) {
                Err(UnpackError::Unreadable)
            } else if !any_role(kept, EntryRole::Binary) {
                Err(UnpackError::Incomplete(ArchiveError::MissingBinary))
            } else if windows && !any_role(kept, EntryRole::Wintun) {
                Err(UnpackError::Incomplete(ArchiveError::MissingWintun))
            } else {
                Ok(with_data(kept))
            }
        },
    }
}

/// Unpacks the release archive into the files the install writes.
pub fn core_files(bytes: &[u8], windows: bool) -> (r: Result<Vec<CoreFile>, UnpackError>)
    ensures
        match r {
            Ok(files) => core_files_spec(bytes@, windows) == Ok::<Seq<(Seq<char>, EntryRole, Seq<u8>)>, UnpackError>(
                files@.map_values(|f: CoreFile| core_file_view(f)),
            ),
            Err(e) => core_files_spec(bytes@, windows) == Err::<Seq<(Seq<char>, EntryRole, Seq<u8>)>, UnpackError>(e),
        },
{
    let mut members = match read_zip(bytes) {
        Some(m) => m,
        None => return Err(UnpackError::NotZip),
    };
    let ghost all = members@.map_values(|m: (String, Option<Vec<u8>>)| member_view(m));
    let ghost original = members@;
    let n = members.len();
    let mut files: Vec<CoreFile> = Vec::new();
    let mut unreadable = false;
    let mut binary = false;
    let mut wintun = false;
    let mut i: usize = 0;
    while i < n
        invariant
            n == original.len(),
            all == original.map_values(|m: (String, Option<Vec<u8>>)| member_view(m)),
            i <= n,
            members@ == original.subrange(i as int, n as int),
            unreadable == any_unreadable(kept_entries(all.subrange(0, i as int), windows)),
            binary == any_role(kept_entries(all.subrange(0, i as int), windows), EntryRole::Binary),
            wintun == any_role(kept_entries(all.subrange(0, i as int), windows), EntryRole::Wintun),
            !unreadable ==> files@.map_values(|f: CoreFile| core_file_view(f)) == with_data(
                kept_entries(all.subrange(0, i as int), windows),
            ),
        decreases n - i,
    {
        let (path, data) = members.remove(0);
        let ghost prev = kept_entries(all.subrange(0, i as int), windows);
        proof {
            assert(members@ =~= original.subrange(i + 1, n as int));
            assert((path, data) == original[i as int]);
            assert(all.subrange(0, i + 1).drop_last() =~= all.subrange(0, i as int));
            assert(all.subrange(0, i + 1).last() == member_view(original[i as int]));
        }
        let name = file_name_of(path.as_str(), windows);
        let role = entry_role(name.as_str(), windows);
        match role {
            EntryRole::Skip => {},
            _ => {
                let ghost item = (name@, role, member_view((path, data)).1);
                let ghost next = prev.push(item);
                proof {
                    assert forall|k: int| 0 <= k < prev.len() implies #[trigger] next[k] == prev[k] by {}
                    assert(next[prev.len() as int] == item);
                }
                match data {
                    Some(bytes_read) => {
                        if role == EntryRole::Binary {
                            binary = true;
                        } else {
                            wintun = true;
                        }
                        if !unreadable {
                            let ghost before = files@;
                            let ghost entry = (name@, role, bytes_read@);
                            files.push(CoreFile { file_name: name, role, data: bytes_read });
                            proof {
                                assert(item == (entry.0, entry.1, Some(entry.2)));
                                assert(core_file_view(files@[before.len() as int]) == entry);
                                assert(with_data(next) =~= with_data(prev).push(entry));
                                assert(files@.map_values(|f: CoreFile| core_file_view(f)) =~= before.map_values(
                                    |f: CoreFile| core_file_view(f),
                                ).push(entry));
                            }
                        }
                    },
                    None => {
                        unreadable = true;
                        if role == EntryRole::Binary {
                            binary = true;
                        } else {
                            wintun = true;
                        }
                    },
                }
                proof {
                    if any_unreadable(prev) {
                        let w = choose|w: int| 0 <= w < prev.len() && (#[trigger] prev[w]).2 is None;
                        assert(next[w] == prev[w]);
                    }
                    if any_unreadable(next) {
                        let w = choose|w: int| 0 <= w < next.len() && (#[trigger] next[w]).2 is None;
                        if w < prev.len() {
                            assert(prev[w] == next[w]);
                        }
                    }
                    if any_role(prev, EntryRole::Binary) {
                        let w = choose|w: int| 0 <= w < prev.len() && (#[trigger] prev[w]).1 == EntryRole::Binary;
                        assert(next[w] == prev[w]);
                    }
                    if any_role(next, EntryRole::Binary) {
                        let w = choose|w: int| 0 <= w < next.len() && (#[trigger] next[w]).1 == EntryRole::Binary;
                        if w < prev.len() {
                            assert(prev[w] == next[w]);
                        }
                    }
                    if any_role(prev, EntryRole::Wintun) {
                        let w = choose|w: int| 0 <= w < prev.len() && (#[trigger] prev[w]).1 == EntryRole::Wintun;
                        assert(next[w] == prev[w]);
                    }
                    if any_role(next, EntryRole::Wintun) {
                        let w = choose|w: int| 0 <= w < next.len() && (#[trigger] next[w]).1 == EntryRole::Wintun;
                        if w < prev.len() {
                            assert(prev[w] == next[w]);
                        }
                    }
                }
            },
        }
        i = i + 1;
    }
    assert(all.subrange(0, n as int) =~= all);
    if unreadable {
        return Err(UnpackError::Unreadable);
    }
    match extraction_outcome(binary, wintun, windows) {
        Ok(()) => Ok(files),
        Err(e) => Err(UnpackError::Incomplete(e)),
    }
}

/// How many characters open `s` before its first whitespace.
pub open spec fn word_len(s: Seq<char>) -> nat
    decreases s.len(),
{
    if s.len() == 0 || is_ws(s[0]) {
        0
    } else {
        1 + word_len(s.drop_first())
    }
}

/// `s.split_whitespace().next().unwrap_or("")`.
pub open spec fn first_word_spec(s: Seq<char>) -> Seq<char> {
    let t = s.subrange(lead_ws(s) as int, s.len() as int);
    t.subrange(0, word_len(t) as int)
}

proof fn lemma_word_len(s: Seq<char>, i: int)
    requires
        0 <= i <= s.len(),
        forall|k: int| 0 <= k < i ==> !is_ws(#[trigger] s[k]),
        i == s.len() || is_ws(s[i]),
    ensures
        word_len(s) == i,
    decreases i,
{
    if i > 0 {
        lemma_word_len(s.drop_first(), i - 1);
    }
}

proof fn lemma_lead(s: Seq<char>, i: int)
    requires
        0 <= i <= s.len(),
        forall|k: int| 0 <= k < i ==> is_ws(#[trigger] s[k]),
        i == s.len() || !is_ws(s[i]),
    ensures
        lead_ws(s) == i,
    decreases i,
{
    if i > 0 {
        lemma_lead(s.drop_first(), i - 1);
    }
}

/// The first whitespace-separated word of `s`.
pub fn first_word(s: &str) -> (w: String)
    ensures
        w@ == first_word_spec(s@),
{
    let v = chars_of(s);
    let n = v.len();
    let mut i: usize = 0;
    while i < n && is_whitespace(v[i])
        invariant
            n == v@.len(),
            i <= n,
            forall|k: int| 0 <= k < i ==> is_ws(#[trigger] v@[k]),
        decreases n - i,
    {
        i = i + 1;
    }
    proof {
        lemma_lead(v@, i as int);
    }
    let mut j: usize = i;
    while j < n && !is_whitespace(v[j])
        invariant
            n == v@.len(),
            i <= j <= n,
            forall|k: int| i <= k < j ==> !is_ws(#[trigger] v@[k]),
        decreases n - j,
    {
        j = j + 1;
    }
    proof {
        let t = v@.subrange(i as int, n as int);
        assert forall|k: int| 0 <= k < j - i implies !is_ws(#[trigger] t[k]) by {
            assert(t[k] == v@[i + k]);
        }
        lemma_word_len(t, j - i);
        assert(t.subrange(0, j - i) =~= v@.subrange(i as int, j as int));
    }
    string_of(&v, i, j)
}

/// The SHA-256 digest `sha2::Sha256::digest` computes for `bytes`.
pub uninterp spec fn sha256_spec(bytes: Seq<u8>) -> Seq<u8>;

/// Calls `sha2::Sha256::digest`. Trusted: the 32 digest bytes are named
/// [`sha256_spec`] of the input; that they are the SHA-256 function is the
/// `sha2` crate's.
#[verifier::external_body]
pub(crate) fn sha256(bytes: &[u8]) -> (digest: Vec<u8>)
    ensures
        digest@ == sha256_spec(bytes@),
        digest@.len() == 32,
{
    sha2::Sha256::digest(bytes).to_vec()
}

/// The lower-case hexadecimal digit for `d < 16`.
pub open spec fn lower_hex_digit(d: nat) -> char {
    if d < 10 {
        crate::text::digit_char(d)
    } else if d == 10 {
        'a'
    } else if d == 11 {
        'b'
    } else if d == 12 {
        'c'
    } else if d == 13 {
        'd'
    } else if d == 14 {
        'e'
    } else {
        'f'
    }
}

/// `{:x}` of a byte string: two lower-case hex digits per byte.
pub open spec fn lower_hex_spec(bytes: Seq<u8>) -> Seq<char>
    decreases bytes.len(),
{
    if bytes.len() == 0 {
        Seq::empty()
    } else {
        lower_hex_spec(bytes.drop_last()) + seq![
            lower_hex_digit((bytes.last() / 16) as nat),
            lower_hex_digit((bytes.last() % 16) as nat),
        ]
    }
}

fn lower_hex_of(d: u8) -> (c: char)
    requires
        d < 16,
    ensures
        c == lower_hex_digit(d as nat),
{
    if d < 10 {
        let b = 48 + d;
        proof {
            assert(b as char == crate::text::digit_char(d as nat)) by {
                assert(d == 0 || d == 1 || d == 2 || d == 3 || d == 4 || d == 5 || d == 6 || d
                    == 7 || d == 8 || d == 9);
            }
        }
        b as char
    } else if d == 10 {
        'a'
    } else if d == 11 {
        'b'
    } else if d == 12 {
        'c'
    } else if d == 13 {
        'd'
    } else if d == 14 {
        'e'
    } else {
        'f'
    }
}

/// Two hex digits stand for each byte.
pub proof fn lower_hex_doubles(bytes: Seq<u8>)
    ensures
        lower_hex_spec(bytes).len() == 2 * bytes.len(),
    decreases bytes.len(),
{
    if bytes.len() > 0 {
        lower_hex_doubles(bytes.drop_last());
    }
}

/// Lower-case hexadecimal of a byte string.
pub fn lower_hex(bytes: &Vec<u8>) -> (hex: String)
    ensures
        hex@ == lower_hex_spec(bytes@),
{
    let mut hex = String::new();
    let mut i: usize = 0;
    while i < bytes.len()
        invariant
            i <= bytes@.len(),
            hex@ == lower_hex_spec(bytes@.subrange(0, i as int)),
        decreases bytes@.len() - i,
    {
        let b = bytes[i];
        hex.push(lower_hex_of(b / 16));
        hex.push(lower_hex_of(b % 16));
        proof {
            let pre = bytes@.subrange(0, i + 1);
            assert(pre.drop_last() =~= bytes@.subrange(0, i as int));
        }
        i = i + 1;
        assert(hex@ =~= lower_hex_spec(bytes@.subrange(0, i as int)));
    }
    assert(bytes@.subrange(0, bytes@.len() as int) =~= bytes@);
    hex
}

/// The lower-case hex digest a downloaded archive is compared by.
pub open spec fn sha256_hex_spec(bytes: Seq<u8>) -> Seq<char> {
    lower_hex_spec(sha256_spec(bytes))
}

/// The archive's digest as the checksum file writes it: SHA-256 in lower-case
/// hexadecimal.
pub fn sha256_hex(bytes: &[u8]) -> (hex: String)
    ensures
        hex@ == sha256_hex_spec(bytes@),
        hex@.len() == 64,
{
    let digest = sha256(bytes);
    proof {
        lower_hex_doubles(digest@);
    }
    lower_hex(&digest)
}

/// What the published checksum says about a downloaded archive.
#[derive(Clone, Debug, PartialEq, Eq)]
pub enum ChecksumVerdict {
    /// The checksum file holds no 64-character digest: the download stands on
    /// HTTPS alone.
    Unverifiable,
    /// The archive's digest is the published one.
    Match,
    /// The archive is not the published one; installing it must be refused.
    Mismatch { expected: String, actual: String },
}

/// How many bytes UTF-8 spends on one character (`char::len_utf8`).
pub open spec fn char_utf8_len(c: char) -> nat {
    if (c as u32) < 0x80 {
        1
    } else if (c as u32) < 0x800 {
        2
    } else if (c as u32) < 0x10000 {
        3
    } else {
        4
    }
}

/// The UTF-8 byte length of a string (`str::len`).
pub open spec fn utf8_len(s: Seq<char>) -> nat
    decreases s.len(),
{
    if s.len() == 0 {
        0
    } else {
        utf8_len(s.drop_last()) + char_utf8_len(s.last())
    }
}

proof fn lemma_utf8_len_monotone(s: Seq<char>, i: int, j: int)
    requires
        0 <= i <= j <= s.len(),
    ensures
        utf8_len(s.subrange(0, i)) <= utf8_len(s.subrange(0, j)),
    decreases j - i,
{
    if i < j {
        lemma_utf8_len_monotone(s, i, j - 1);
        assert(s.subrange(0, j).drop_last() =~= s.subrange(0, j - 1));
    }
}

/// Whether `s` takes exactly `n` bytes in UTF-8.
pub fn utf8_len_is(s: &str, n: u64) -> (r: bool)
    ensures
        r == (utf8_len(s@) == n),
{
    let v = chars_of(s);
    let mut total: u64 = 0;
    let mut i: usize = 0;
    while i < v.len()
        invariant
            v@ == s@,
            i <= v@.len(),
            total == utf8_len(v@.subrange(0, i as int)),
            total <= n,
        decreases v@.len() - i,
    {
        let c = v[i];
        let w: u64 = if (c as u32) < 0x80 {
            1
        } else if (c as u32) < 0x800 {
            2
        } else if (c as u32) < 0x10000 {
            3
        } else {
            4
        };
        proof {
            assert(v@.subrange(0, i + 1).drop_last() =~= v@.subrange(0, i as int));
        }
        if w > n - total {
            proof {
                lemma_utf8_len_monotone(v@, i + 1, v@.len() as int);
                assert(v@.subrange(0, v@.len() as int) =~= v@);
            }
            return false;
        }
        total = total + w;
        i = i + 1;
    }
    assert(v@.subrange(0, v@.len() as int) =~= v@);
    total == n
}

/// The digest a checksum file publishes: its first word, lower-cased, when
/// that is 64 bytes long.
pub open spec fn published_digest_spec(text: Seq<char>) -> Option<Seq<char>> {
    let expected = lowercase(first_word_spec(text));
    if utf8_len(expected) == 64 {
        Some(expected)
    } else {
        None
    }
}

/// Holds a downloaded archive against the release's `.sha256` file.
pub fn checksum_verdict(bytes: &[u8], text: &str) -> (v: ChecksumVerdict)
    ensures
        match published_digest_spec(text@) {
            None => v is Unverifiable,
            Some(expected) => if sha256_hex_spec(bytes@) == expected {
                v is Match
            } else {
                v matches ChecksumVerdict::Mismatch { expected: e, actual: a } && e@ == expected
                    && a@ == sha256_hex_spec(bytes@)
            },
        },
{
    let word = first_word(text);
    let expected = to_lowercase(word.as_str());
    if !utf8_len_is(expected.as_str(), 64) {
        return ChecksumVerdict::Unverifiable;
    }
    let actual = sha256_hex(bytes);
    if str_eq(actual.as_str(), expected.as_str()) {
        ChecksumVerdict::Match
    } else {
        ChecksumVerdict::Mismatch { expected, actual }
    }
}

/// A download URL through the configured mirror: the URL itself with no
/// mirror, otherwise the mirror prefix (without its trailing slashes), a
/// slash, and the URL.
pub open spec fn with_mirror_spec(url: Seq<char>, mirror: Seq<char>) -> Seq<char> {
    let prefix = crate::clash_api::trim_slashes_spec(trim_spec(mirror));
    if trim_spec(mirror).len() == 0 {
        url
    } else {
        prefix + "/"@ + url
    }
}

/// Puts a download URL behind the configured mirror prefix.
pub fn with_mirror(url: &str, mirror: &str) -> (r: String)
    ensures
        r@ == with_mirror_spec(url@, mirror@),
{
    let trimmed = trim(mirror);
    if trimmed.unicode_len() == 0 {
        return url.to_owned();
    }
    let mut r = crate::clash_api::controller_base(trimmed.as_str());
    push_str(&mut r, "/");
    push_str(&mut r, url);
    r
}

/// The version `sing-box version` reports: its first line, trimmed (empty
/// when it printed nothing).
pub open spec fn version_line_spec(stdout: Seq<char>) -> Seq<char> {
    let lines = crate::system_proxy::lines_spec(stdout);
    if lines.len() > 0 {
        trim_spec(lines[0])
    } else {
        Seq::empty()
    }
}

/// Reads the core's version from the output of `sing-box version`.
pub fn version_line(stdout: &str) -> (version: String)
    ensures
        version@ == version_line_spec(stdout@),
{
    let lines = crate::system_proxy::lines(stdout);
    if lines.len() > 0 {
        assert(crate::text::views(lines@)[0] == lines@[0]@);
        trim(lines[0].as_str())
    } else {
        String::new()
    }
}

} // verus!
