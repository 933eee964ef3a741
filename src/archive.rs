//! Planning the extraction of the server package: every entry of the archive
//! becomes a directory to create or a file to write under the destination
//! root, and no entry may reach outside that root.
use vstd::prelude::*;
use crate::text::{join, join_spec};
use std::io::Cursor;
use zip::read::ZipFile;
use zip::result::{InvalidPassword, ZipError};
use zip::ZipArchive;

verus! {

/// zip::ZipArchive, carried through opaquely: an archive opened for reading.
#[verifier::external_type_specification]
#[verifier::external_body]
#[verifier::reject_recursive_types(R)]
pub struct ExZipArchive<R>(ZipArchive<R>);

/// zip::read::ZipFile, carried through opaquely: one entry of an open archive.
#[verifier::external_type_specification]
#[verifier::external_body]
pub struct ExZipFile<'a>(ZipFile<'a>);

/// zip::result::ZipError, the archive reader's error.
#[verifier::external_type_specification]
#[verifier::external_body]
pub struct ExZipError(ZipError);

/// std::io::Error, the error of reading an entry's bytes.
#[verifier::external_type_specification]
#[verifier::external_body]
pub struct ExIoError(std::io::Error);

/// std::io::Cursor, which lets the archive reader seek in bytes held in memory.
#[verifier::external_type_specification]
#[verifier::external_body]
#[verifier::reject_recursive_types(T)]
pub struct ExCursor<T>(Cursor<T>);

/// zip::result::InvalidPassword, the entry reader's refusal of a password.
#[verifier::external_type_specification]
#[verifier::external_body]
pub struct ExInvalidPassword(InvalidPassword);

/// Whether zip::ZipArchive::new reads an archive from `bytes`.
pub uninterp spec fn zip_opens(bytes: Seq<u8>) -> bool;

/// What zip::ZipArchive::len gives for the archive read from `bytes`.
pub uninterp spec fn zip_len(bytes: Seq<u8>) -> nat;

/// Whether zip::ZipArchive::by_index_decrypt, with the empty password, opens
/// entry `i` of the archive read from `bytes`.
pub uninterp spec fn zip_entry_opens(bytes: Seq<u8>, i: int) -> bool;

/// What zip::read::ZipFile::name gives for entry `i` of the archive read from `bytes`.
pub uninterp spec fn zip_name(bytes: Seq<u8>, i: int) -> Seq<char>;

/// The bytes that std::io::Read::read_to_end yields from entry `i` of the
/// archive read from `bytes`, if a first read of the entry succeeds.
pub uninterp spec fn zip_content(bytes: Seq<u8>, i: int) -> Option<Seq<u8>>;

/// An archive read from bytes held in memory; `bytes` records those bytes.
/// Only `open_archive` builds one.
struct Archive {
    inner: ZipArchive<Cursor<Vec<u8>>>,
    bytes: Ghost<Seq<u8>>,
}

/// Entry `index` of the archive read from `bytes`, opened for reading;
/// `consumed` records that its contents were read. Only `entry_at` builds one.
struct Entry<'a> {
    file: ZipFile<'a>,
    bytes: Ghost<Seq<u8>>,
    index: Ghost<int>,
    consumed: Ghost<bool>,
}

/// Relies on zip::ZipArchive::new: reads the central directory of the archive
/// held in memory; the outcome depends on the bytes alone.
#[verifier::external_body]
fn open_archive(bytes: Vec<u8>) -> (r: Result<Archive, ZipError>)
    ensures
        r.is_ok() == zip_opens(bytes@),
        r matches Ok(a) ==> a.bytes@ == bytes@,
{
    let recorded = Ghost(bytes@);
    match ZipArchive::new(Cursor::new(bytes)) {
        Ok(inner) => Ok(Archive { inner, bytes: recorded }),
        Err(e) => Err(e),
    }
}

/// Relies on zip::ZipArchive::len: the number of entries of the archive.
#[verifier::external_body]
fn entry_count(a: &Archive) -> (r: usize)
    ensures
        r == zip_len(a.bytes@),
{
    a.inner.len()
}

/// Relies on zip::ZipArchive::by_index_decrypt with the empty password: the
/// entry at an index, ready to be read, or the reason it cannot be. Unlike
/// zip::ZipArchive::by_index it does not panic on an entry whose AES field
/// asks for a password.
#[verifier::external_body]
fn entry_at<'a>(a: &'a mut Archive, i: usize) -> (r: Result<Result<Entry<'a>, InvalidPassword>, ZipError>)
    ensures
        final(a).bytes == old(a).bytes,
        (r matches Ok(Ok(_))) == zip_entry_opens(old(a).bytes@, i as int),
        r matches Ok(Ok(e)) ==> e.bytes@ == old(a).bytes@ && e.index@ == i && !e.consumed@,
{
    let bytes = Ghost(a.bytes@);
    let index = Ghost(i as int);
    match a.inner.by_index_decrypt(i, b"") {
        Ok(Ok(file)) => Ok(Ok(Entry { file, bytes, index, consumed: Ghost(false) })),
        Ok(Err(e)) => Ok(Err(e)),
        Err(e) => Err(e),
    }
}

/// Relies on zip::read::ZipFile::name: the entry's name as stored in the archive.
#[verifier::external_body]
fn entry_name(e: &Entry) -> (r: String)
    ensures
        r@ == zip_name(e.bytes@, e.index@),
{
    e.file.name().to_string()
}

/// Relies on zip::read::ZipFile::enclosed_name, which returns the entry's own
/// name as a path, or nothing where the name holds a NUL, or a root, a drive
/// prefix or a `..` that climbs above the start. A name that `is_enclosed`
/// has none of these, with `/` or `\` as separator, so it is returned.
#[verifier::external_body]
fn entry_enclosed_name(e: &Entry) -> (r: Option<String>)
    ensures
        r matches Some(p) ==> p@ == zip_name(e.bytes@, e.index@),
        is_enclosed(zip_name(e.bytes@, e.index@)) ==> r is Some,
{
    e.file.enclosed_name().map(|p| p.to_string_lossy().into_owned())
}

/// Relies on std::io::Read::read_to_end on an entry not read before: its
/// uncompressed bytes.
#[verifier::external_body]
fn read_entry(e: &mut Entry) -> (r: Result<Vec<u8>, std::io::Error>)
    requires
        !old(e).consumed@,
    ensures
        final(e).bytes == old(e).bytes,
        final(e).index == old(e).index,
        final(e).consumed@,
        (match r {
            Ok(v) => Some(v@),
            Err(_) => None::<Seq<u8>>,
        }) == zip_content(old(e).bytes@, old(e).index@),
{
    let mut buf: Vec<u8> = Vec::new();
    let r = std::io::Read::read_to_end(&mut e.file, &mut buf).map(|_| buf);
    e.consumed = Ghost(true);
    r
}

/// Whether `c` separates path components.
pub open spec fn is_separator(c: char) -> bool {
    c == '/' || c == '\\'
}

/// Whether a `..` component starts at index `i` of `p`.
pub open spec fn parent_at(p: Seq<char>, i: int) -> bool {
    &&& 0 <= i
    &&& i + 1 < p.len()
    &&& p[i] == '.'
    &&& p[i + 1] == '.'
    &&& (i == 0 || is_separator(p[i - 1]))
    &&& (i + 2 == p.len() || is_separator(p[i + 2]))
}

/// Whether `p` is a relative path that stays under the directory it is joined
/// to: not empty, not rooted, with no drive, no NUL and no `..` component.
pub open spec fn is_enclosed(p: Seq<char>) -> bool {
    &&& p.len() > 0
    &&& !is_separator(p[0])
    &&& forall|i: int| 0 <= i < p.len() ==> p[i] != ':' && p[i] != '\0'
    &&& forall|i: int| !parent_at(p, i)
}

/// A path with a `..` component is never enclosed.
pub proof fn lemma_parent_segment_not_enclosed(p: Seq<char>, i: int)
    requires
        parent_at(p, i),
    ensures
        !is_enclosed(p),
{
}

/// Whether `p` is a relative path that stays under its directory.
pub fn check_enclosed(p: &str) -> (r: bool)
    ensures
        r == is_enclosed(p@),
{
    let n = p.unicode_len();
    if n == 0 {
        return false;
    }
    let first = p.get_char(0);
    if first == '/' || first == '\\' {
        return false;
    }
    let mut i: usize = 0;
    while i < n
        invariant
            n == p@.len(),
            i <= n,
            forall|j: int| 0 <= j < i ==> p@[j] != ':' && p@[j] != '\0',
            forall|j: int| j < i ==> !parent_at(p@, j),
        decreases n - i,
    {
        let c = p.get_char(i);
        if c == ':' || c == '\0' {
            return false;
        }
        if c == '.' && i + 1 < n && p.get_char(i + 1) == '.' {
            let before = i == 0 || p.get_char(i - 1) == '/' || p.get_char(i - 1) == '\\';
            let after = i + 2 == n || p.get_char(i + 2) == '/' || p.get_char(i + 2) == '\\';
            if before && after {
                assert(parent_at(p@, i as int));
                return false;
            }
        }
        assert(!parent_at(p@, i as int));
        i = i + 1;
    }
    assert forall|j: int| !parent_at(p@, j) by {
        if j >= n {
            assert(!(j + 1 < p@.len()));
        }
    }
    true
}

/// What extraction does with one entry.
#[derive(Debug, Clone, Copy, PartialEq, Eq)]
pub enum EntryKind {
    /// Left out: its name is not enclosed.
    Skip,
    /// A directory to create.
    Dir,
    /// A file to write.
    File,
}

/// The kind of an entry with raw name `name`, whose enclosed name is `enclosed`.
pub open spec fn entry_kind_spec(name: Seq<char>, enclosed: Option<Seq<char>>) -> EntryKind {
    match enclosed {
        Some(e) => if !is_enclosed(e) {
            EntryKind::Skip
        } else if name.len() > 0 && name.last() == '/' {
            EntryKind::Dir
        } else {
            EntryKind::File
        },
        None => EntryKind::Skip,
    }
}

/// Decides what extraction does with an entry: an entry without an enclosed
/// name, or whose name is not enclosed, is skipped; a name ending in `/` is a
/// directory; anything else is a file.
pub fn classify_entry(name: &str, enclosed: &Option<String>) -> (r: EntryKind)
    ensures
        r == entry_kind_spec(name@, match enclosed {
            Some(e) => Some(e@),
            None => None,
        }),
{
    match enclosed {
        Some(e) => {
            if !check_enclosed(e.as_str()) {
                EntryKind::Skip
            } else if crate::text::ends_with_char(name, '/') {
                EntryKind::Dir
            } else {
                EntryKind::File
            }
        },
        None => EntryKind::Skip,
    }
}

/// One step of extraction, with its path already under the destination root.
#[derive(Debug, Clone, PartialEq, Eq)]
pub enum ExtractStep {
    /// Create this directory and its parents.
    CreateDir { path: String },
    /// Create the parents of this file, then write it.
    WriteFile { path: String, contents: Vec<u8> },
}

impl View for ExtractStep {
    /// Whether the step creates a directory, its path, and the bytes it writes
    /// (none for a directory).
    type V = (bool, Seq<char>, Seq<u8>);

    open spec fn view(&self) -> Self::V {
        match self {
            ExtractStep::CreateDir { path } => (true, path@, seq![]),
            ExtractStep::WriteFile { path, contents } => (false, path@, contents@),
        }
    }
}

impl ExtractStep {
    pub open spec fn path_view(self) -> Seq<char> {
        self@.1
    }
}

/// Whether `p` is `root` joined with an enclosed relative path.
pub open spec fn under_root(root: Seq<char>, p: Seq<char>) -> bool {
    exists|rel: Seq<char>| is_enclosed(rel) && p == join_spec(root, rel)
}

/// The kind of entry `i` of the archive read from `bytes`.
pub open spec fn zip_kind(bytes: Seq<u8>, i: int) -> EntryKind {
    entry_kind_spec(zip_name(bytes, i), Some(zip_name(bytes, i)))
}

/// Whether entry `i` of the archive read from `bytes` can be extracted: it
/// opens, and a file entry reads in full.
pub open spec fn entry_ok(bytes: Seq<u8>, i: int) -> bool {
    &&& zip_entry_opens(bytes, i)
    &&& zip_kind(bytes, i) == EntryKind::File ==> zip_content(bytes, i) is Some
}

/// Whether the archive in `bytes` opens and each of its entries can be extracted.
pub open spec fn extraction_ok(bytes: Seq<u8>) -> bool {
    &&& zip_opens(bytes)
    &&& forall|i: int| 0 <= i < zip_len(bytes) ==> entry_ok(bytes, i)
}

/// The steps for the first `n` entries of the archive in `bytes`, extracted
/// under `root`: skipped entries give none, the others one each, in order.
pub open spec fn plan_prefix(root: Seq<char>, bytes: Seq<u8>, n: int) -> Seq<(bool, Seq<char>, Seq<u8>)>
    decreases n,
{
    if n <= 0 {
        seq![]
    } else {
        let prev = plan_prefix(root, bytes, n - 1);
        let i = n - 1;
        match zip_kind(bytes, i) {
            EntryKind::Skip => prev,
            EntryKind::Dir => prev.push((true, join_spec(root, zip_name(bytes, i)), seq![])),
            EntryKind::File => prev.push(
                (false, join_spec(root, zip_name(bytes, i)), zip_content(bytes, i).unwrap()),
            ),
        }
    }
}

/// The steps that extract the whole archive in `bytes` under `root`.
pub open spec fn plan_spec(root: Seq<char>, bytes: Seq<u8>) -> Seq<(bool, Seq<char>, Seq<u8>)> {
    plan_prefix(root, bytes, zip_len(bytes) as int)
}

/// The views of a list of steps.
pub open spec fn steps_view(steps: Seq<ExtractStep>) -> Seq<(bool, Seq<char>, Seq<u8>)> {
    steps.map_values(|s: ExtractStep| s@)
}

/// Why the archive could not be extracted.
#[derive(Debug, Clone, Copy, PartialEq, Eq)]
pub enum ArchiveError {
    /// The bytes are not a readable archive.
    Unreadable,
    /// An entry could not be opened or decompressed.
    BadEntry { index: usize },
}

/// The steps that extract the archive in `bytes` under `root`: one step for
/// each entry that is not skipped, in the archive's order. Every path that a
/// step names lies under `root`. It fails on bytes that are no archive, and
/// otherwise at the first entry that cannot be opened or read.
pub fn plan_extraction(bytes: Vec<u8>, root: &str) -> (r: Result<Vec<ExtractStep>, ArchiveError>)
    ensures
        r.is_ok() == extraction_ok(bytes@),
        (r == Err::<Vec<ExtractStep>, ArchiveError>(ArchiveError::Unreadable)) == !zip_opens(bytes@),
        r matches Ok(steps) ==> steps_view(steps@) == plan_spec(root@, bytes@),
        r matches Ok(steps) ==> forall|k: int|
            0 <= k < steps@.len() ==> under_root(root@, #[trigger] steps@[k].path_view()),
        r matches Err(ArchiveError::BadEntry { index }) ==> {
            &&& zip_opens(bytes@)
            &&& index < zip_len(bytes@)
            &&& !entry_ok(bytes@, index as int)
            &&& forall|j: int| 0 <= j < index ==> entry_ok(bytes@, j)
        },
{
    let ghost b = bytes@;
    let mut archive = match open_archive(bytes) {
        Ok(a) => a,
        Err(_) => return Err(ArchiveError::Unreadable),
    };
    let n = entry_count(&archive);
    let mut steps: Vec<ExtractStep> = Vec::new();
    let mut i: usize = 0;
    while i < n
        invariant
            i <= n,
            n == zip_len(b),
            b == bytes@,
            zip_opens(b),
            archive.bytes@ == b,
            steps_view(steps@) == plan_prefix(root@, b, i as int),
            forall|j: int| 0 <= j < i ==> entry_ok(b, j),
            forall|k: int| 0 <= k < steps@.len() ==> under_root(root@, #[trigger] steps@[k].path_view()),
        decreases n - i,
    {
        let opened = entry_at(&mut archive, i);
        let mut entry = match opened {
            Ok(Ok(e)) => e,
            _ => {
                assert(!zip_entry_opens(b, i as int));
                assert(!entry_ok(b, i as int));
                return Err(ArchiveError::BadEntry { index: i });
            },
        };
        let name = entry_name(&entry);
        let enclosed = entry_enclosed_name(&entry);
        let kind = classify_entry(name.as_str(), &enclosed);
        assert(kind == zip_kind(b, i as int));
        match (kind, enclosed) {
            (EntryKind::Dir, Some(rel)) => {
                let path = join(root, rel.as_str());
                assert(under_root(root@, path@));
                let step = ExtractStep::CreateDir { path };
                steps.push(step);
                assert(steps_view(steps@) =~= plan_prefix(root@, b, i + 1));
            },
            (EntryKind::File, Some(rel)) => {
                let contents = match read_entry(&mut entry) {
                    Ok(c) => c,
                    Err(_) => {
                        assert(zip_content(b, i as int) is None);
                        assert(!entry_ok(b, i as int));
                        return Err(ArchiveError::BadEntry { index: i });
                    },
                };
                let path = join(root, rel.as_str());
                assert(under_root(root@, path@));
                steps.push(ExtractStep::WriteFile { path, contents });
                assert(steps_view(steps@) =~= plan_prefix(root@, b, i + 1));
            },
            _ => {
                assert(kind == EntryKind::Skip);
                assert(plan_prefix(root@, b, i + 1) == plan_prefix(root@, b, i as int));
            },
        }
        i = i + 1;
    }
    Ok(steps)
}

} // verus!
