//! Finding the newest build artifact of a module among the entries of a
//! directory listing.

use vstd::prelude::*;
use vstd::utf8::encode_utf8;

verus! {

/// The byte `.`, which separates a file's stem from its extension.
pub const DOT: u8 = 46;

/// One immediate child of the scanned directory.
#[derive(Debug)]
pub struct DirEntry {
    /// The file name, absent when it is not valid UTF-8.
    pub name: Option<String>,
    /// Whether the child is a regular file.
    pub is_file: bool,
    /// The modification time, absent when the file's metadata could not be read.
    pub modified: Option<u64>,
}

/// Why a scan could not be completed.
#[derive(Debug, PartialEq, Eq, Clone, Copy)]
pub enum DiscoveryError {
    /// The metadata of the matching entry at `index` could not be read.
    Metadata { index: usize },
}

/// The file name prefix that every artifact of the module `name` carries.
pub open spec fn artifact_prefix(dll_prefix: Seq<u8>, name: Seq<u8>) -> Seq<u8> {
    dll_prefix + name
}

/// Whether the extension of `file` is exactly `ext`. The extension is what
/// follows the last dot of the name; a name without a dot, a name whose only
/// dot is its first byte, and the name `..` have none.
pub open spec fn has_extension(file: Seq<u8>, ext: Seq<u8>) -> bool {
    &&& !ext.contains(DOT)
    &&& file.len() >= ext.len() + 2
    &&& file[file.len() - ext.len() - 1] == DOT
    &&& file.subrange(file.len() - ext.len(), file.len() as int) == ext
    &&& !(file.len() == 2 && file[0] == DOT && file[1] == DOT)
}

/// Whether a file name belongs to an artifact: it begins with `prefix` and its
/// extension is `ext`.
pub open spec fn name_matches(file: Seq<u8>, prefix: Seq<u8>, ext: Seq<u8>) -> bool {
    prefix.is_prefix_of(file) && has_extension(file, ext)
}

/// Whether an entry is a candidate: a regular file with a readable name that
/// matches.
pub open spec fn is_candidate(e: DirEntry, prefix: Seq<u8>, ext: Seq<u8>) -> bool {
    &&& e.is_file
    &&& e.name is Some
    &&& name_matches(encode_utf8(e.name->0@), prefix, ext)
}

/// Whether any entry is a candidate.
pub open spec fn has_candidate(entries: Seq<DirEntry>, prefix: Seq<u8>, ext: Seq<u8>) -> bool {
    exists|j: int| 0 <= j < entries.len() && is_candidate(#[trigger] entries[j], prefix, ext)
}

/// Whether the entry at `i` is the scan's first candidate without a
/// modification time.
pub open spec fn first_unreadable(
    entries: Seq<DirEntry>,
    prefix: Seq<u8>,
    ext: Seq<u8>,
    i: int,
) -> bool {
    &&& 0 <= i < entries.len()
    &&& is_candidate(entries[i], prefix, ext)
    &&& entries[i].modified is None
    &&& forall|j: int|
        0 <= j < i && is_candidate(#[trigger] entries[j], prefix, ext)
            ==> entries[j].modified is Some
}

/// Whether the entry at `i` is the newest candidate among the first `upto`
/// entries: no candidate there is younger, and of those that are as young it
/// is the last.
pub open spec fn newest_among(
    entries: Seq<DirEntry>,
    prefix: Seq<u8>,
    ext: Seq<u8>,
    upto: int,
    i: int,
) -> bool {
    &&& 0 <= i < upto <= entries.len()
    &&& is_candidate(entries[i], prefix, ext)
    &&& entries[i].modified is Some
    &&& forall|j: int|
        0 <= j < upto && is_candidate(#[trigger] entries[j], prefix, ext) ==> {
            &&& entries[j].modified is Some
            &&& entries[j].modified->0 <= entries[i].modified->0
            &&& (j > i ==> entries[j].modified->0 < entries[i].modified->0)
        }
}

/// What a scan of `entries` yields: the first unreadable candidate as an
/// error, else the newest candidate, else nothing.
pub open spec fn scan_result(
    entries: Seq<DirEntry>,
    prefix: Seq<u8>,
    ext: Seq<u8>,
    r: Result<Option<usize>, DiscoveryError>,
) -> bool {
    match r {
        Err(DiscoveryError::Metadata { index }) => first_unreadable(
            entries,
            prefix,
            ext,
            index as int,
        ),
        Ok(Some(i)) => newest_among(entries, prefix, ext, entries.len() as int, i as int),
        Ok(None) => !has_candidate(entries, prefix, ext),
    }
}

/// Whether `pat` stands in `file` at offset `at`.
pub open spec fn occurs_at(file: Seq<u8>, at: int, pat: Seq<u8>) -> bool {
    &&& 0 <= at
    &&& at + pat.len() <= file.len()
    &&& file.subrange(at, at + pat.len()) == pat
}

fn matches_at(file: &[u8], at: usize, pat: &[u8]) -> (r: bool)
    requires
        at <= file@.len(),
    ensures
        r == occurs_at(file@, at as int, pat@),
{
    if pat.len() > file.len() - at {
        return false;
    }
    let mut k: usize = 0;
    while k < pat.len()
        invariant
            at + pat@.len() <= file@.len() <= usize::MAX,
            k <= pat@.len(),
            forall|q: int| 0 <= q < k ==> file@[at + q] == pat@[q],
        decreases pat@.len() - k,
    {
        if file[at + k] != pat[k] {
            assert(file@.subrange(at as int, at + pat@.len())[k as int] == file@[at + k]);
            return false;
        }
        k += 1;
    }
    assert(file@.subrange(at as int, at + pat@.len()) =~= pat@);
    true
}

fn contains_dot(ext: &[u8]) -> (r: bool)
    ensures
        r == ext@.contains(DOT),
{
    let mut k: usize = 0;
    while k < ext.len()
        invariant
            k <= ext@.len(),
            forall|q: int| 0 <= q < k ==> ext@[q] != DOT,
        decreases ext@.len() - k,
    {
        if ext[k] == DOT {
            return true;
        }
        k += 1;
    }
    false
}

/// Tells whether the extension of the file name `file` is `ext`.
pub fn extension_is(file: &[u8], ext: &[u8]) -> (r: bool)
    ensures
        r == has_extension(file@, ext@),
{
    if contains_dot(ext) {
        return false;
    }
    if file.len() < 2 || ext.len() > file.len() - 2 {
        return false;
    }
    if file.len() == 2 && file[0] == DOT && file[1] == DOT {
        return false;
    }
    let start: usize = file.len() - ext.len();
    file[start - 1] == DOT && matches_at(file, start, ext)
}

/// Tells whether the file name `file` begins with `dll_prefix` followed by
/// `name`.
pub fn prefix_is(file: &[u8], dll_prefix: &[u8], name: &[u8]) -> (r: bool)
    ensures
        r == artifact_prefix(dll_prefix@, name@).is_prefix_of(file@),
{
    let ghost whole = artifact_prefix(dll_prefix@, name@);
    if !matches_at(file, 0, dll_prefix) {
        proof {
            if whole.is_prefix_of(file@) {
                assert(file@.subrange(0, dll_prefix@.len() as int) =~= dll_prefix@);
            }
        }
        return false;
    }
    let r = matches_at(file, dll_prefix.len(), name);
    proof {
        let a = dll_prefix@.len() as int;
        if r {
            assert(whole =~= file@.subrange(0, whole.len() as int));
        } else if whole.is_prefix_of(file@) {
            assert forall|q: int| 0 <= q < name@.len() implies file@[a + q] == name@[q] by {
                assert(file@.subrange(0, whole.len() as int)[a + q] == whole[a + q]);
            }
            assert(file@.subrange(a, a + name@.len()) =~= name@);
        }
    }
    r
}

/// Scans a directory listing for the newest artifact of the module `name`.
///
/// A candidate is a regular file whose name begins with `dll_prefix` followed
/// by `name` and whose extension is `ext`, or `dll_extension` where `ext` is
/// absent. The result is the index of the candidate modified last; among
/// candidates modified at the same time, the one listed last. The scan fails
/// at the first candidate whose modification time is unknown.
pub fn find_latest_lib(
    entries: &Vec<DirEntry>,
    dll_prefix: &str,
    dll_extension: &str,
    name: &str,
    ext: Option<&str>,
) -> (r: Result<Option<usize>, DiscoveryError>)
    requires
        name@.len() > 0,
    ensures
        scan_result(
            entries@,
            artifact_prefix(encode_utf8(dll_prefix@), encode_utf8(name@)),
            encode_utf8(
                match ext {
                    Some(e) => e@,
                    None => dll_extension@,
                },
            ),
            r,
        ),
{
    let lib_ext: &str = match ext {
        Some(e) => e,
        None => dll_extension,
    };
    let ghost prefix = artifact_prefix(encode_utf8(dll_prefix@), encode_utf8(name@));
    let ghost wanted = encode_utf8(lib_ext@);
    let mut newest: Option<(u64, usize)> = None;
    let mut i: usize = 0;
    while i < entries.len()
        invariant
            i <= entries@.len(),
            prefix == artifact_prefix(encode_utf8(dll_prefix@), encode_utf8(name@)),
            wanted == encode_utf8(lib_ext@),
            lib_ext@ == match ext {
                Some(e) => e@,
                None => dll_extension@,
            },
            match newest {
                Some((t, at)) => newest_among(entries@, prefix, wanted, i as int, at as int)
                    && entries@[at as int].modified == Some(t),
                None => forall|j: int|
                    0 <= j < i ==> !is_candidate(#[trigger] entries@[j], prefix, wanted),
            },
        decreases entries@.len() - i,
    {
        let entry = &entries[i];
        let hit: bool = match &entry.name {
            Some(file) => entry.is_file && prefix_is(
                file.as_str().as_bytes(),
                dll_prefix.as_bytes(),
                name.as_bytes(),
            ) && extension_is(file.as_str().as_bytes(), lib_ext.as_bytes()),
            None => false,
        };
        assert(hit == is_candidate(entries@[i as int], prefix, wanted));
        if hit {
            match entry.modified {
                None => {
                    return Err(DiscoveryError::Metadata { index: i });
                },
                Some(t) => {
                    let older: bool = match newest {
                        Some((cur, _)) => t < cur,
                        None => false,
                    };
                    if !older {
                        newest = Some((t, i));
                    }
                },
            }
        }
        i += 1;
    }
    match newest {
        Some((_, at)) => Ok(Some(at)),
        None => Ok(None),
    }
}

/// The extension is what follows the last dot: where the last dot of `file`
/// stands at `dot`, the extension of `file` is `ext` exactly if the dot is not
/// the first byte, `ext` is all that follows it, and `file` is not `..`.
pub proof fn extension_follows_last_dot(file: Seq<u8>, ext: Seq<u8>, dot: int)
    requires
        0 <= dot < file.len(),
        file[dot] == DOT,
        forall|q: int| dot < q < file.len() ==> file[q] != DOT,
    ensures
        has_extension(file, ext) <==> {
            &&& dot > 0
            &&& file.subrange(dot + 1, file.len() as int) == ext
            &&& !(file.len() == 2 && file[0] == DOT && file[1] == DOT)
        },
{
    let n = file.len() as int;
    if has_extension(file, ext) {
        let d = n - ext.len() - 1;
        assert forall|q: int| d < q < n implies file[q] != DOT by {
            assert(file.subrange(n - ext.len(), n)[q - (n - ext.len())] == file[q]);
            assert(ext.contains(ext[q - (n - ext.len())]));
        }
        assert(d == dot);
    }
    if dot > 0 && file.subrange(dot + 1, n) == ext {
        if ext.contains(DOT) {
            let k = choose|k: int| 0 <= k < ext.len() && ext[k] == DOT;
            assert(file.subrange(dot + 1, n)[k] == file[dot + 1 + k]);
        }
    }
}

/// A name without a dot has no extension.
pub proof fn no_dot_no_extension(file: Seq<u8>, ext: Seq<u8>)
    requires
        !file.contains(DOT),
    ensures
        !has_extension(file, ext),
{
    if has_extension(file, ext) {
        assert(file.contains(file[file.len() - ext.len() - 1]));
    }
}

/// A scan has at most one outcome: two results that both describe the scan of
/// one listing are equal.
pub proof fn scan_result_is_unique(
    entries: Seq<DirEntry>,
    prefix: Seq<u8>,
    ext: Seq<u8>,
    a: Result<Option<usize>, DiscoveryError>,
    b: Result<Option<usize>, DiscoveryError>,
)
    requires
        scan_result(entries, prefix, ext, a),
        scan_result(entries, prefix, ext, b),
    ensures
        a == b,
{
}

/// A listing without a candidate yields nothing, whatever else it holds.
pub proof fn no_candidate_yields_none(
    entries: Seq<DirEntry>,
    prefix: Seq<u8>,
    ext: Seq<u8>,
    r: Result<Option<usize>, DiscoveryError>,
)
    requires
        scan_result(entries, prefix, ext, r),
        !has_candidate(entries, prefix, ext),
    ensures
        r == Ok::<Option<usize>, DiscoveryError>(None),
{
}

/// An entry that is no candidate never wins, however young it is; and the
/// winner is at least as young as every candidate.
pub proof fn newest_is_a_candidate(
    entries: Seq<DirEntry>,
    prefix: Seq<u8>,
    ext: Seq<u8>,
    i: usize,
    j: int,
)
    requires
        scan_result(entries, prefix, ext, Ok(Some(i))),
        0 <= j < entries.len(),
    ensures
        is_candidate(entries[i as int], prefix, ext),
        !is_candidate(entries[j], prefix, ext) ==> j != i,
        is_candidate(entries[j], prefix, ext) ==> entries[j].modified is Some
            && entries[j].modified->0 <= entries[i as int].modified->0,
{
}

} // verus!
