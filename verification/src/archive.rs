//! Extracting a shared object from a packaged archive.
//!
//! The archive's entries are scanned in stored order; the first file
//! entry whose name ends with the shared-object suffix and contains the
//! architecture tag wins, its base filename is kept and its content is
//! handed back byte for byte. Reading the zip format itself is the zip
//! crate's work, reached through the trusted items below; choosing the
//! entry is this module's verified logic.

use vstd::prelude::*;

use crate::bytes::base_name;
use crate::bytes::base_name_spec;
use crate::bytes::contains_bytes;
use crate::bytes::contains_seq;
use crate::bytes::dup;
use crate::bytes::ends_with;
use crate::bytes::ends_with_bytes;
use crate::error::Error;
use crate::lit;

verus! {

/// One archive entry as plain values: its stored name, whether it is a
/// file, and its decompressed content.
pub struct ArchiveEntry {
    pub name: Vec<u8>,
    pub is_file: bool,
    pub data: Vec<u8>,
}

impl ArchiveEntry {
    pub open spec fn view(self) -> (Seq<u8>, bool, Seq<u8>) {
        (self.name@, self.is_file, self.data@)
    }
}

/// The views of a sequence of archive entries.
pub open spec fn entries_of(v: Seq<ArchiveEntry>) -> Seq<(Seq<u8>, bool, Seq<u8>)> {
    Seq::new(v.len(), |i: int| v[i].view())
}

/// What the zip crate reads out of an archive's bytes: each entry's
/// name, file flag and content, in stored order. Parsing is a function
/// of the bytes alone.
pub uninterp spec fn archive_entries(data: Seq<u8>) -> Seq<(Seq<u8>, bool, Seq<u8>)>;

/// Whether the zip crate parses the bytes as an archive at all — a
/// function of the bytes alone.
pub uninterp spec fn archive_parses(data: Seq<u8>) -> bool;

/// Whether entry `i` of the archive parsed from `data` can be read out
/// whole (its metadata and its decompressed content) — a function of
/// the bytes and the index alone.
pub uninterp spec fn entry_reads(data: Seq<u8>, i: int) -> bool;

/// Every entry of the archive parsed from `data` can be read out.
pub open spec fn archive_reads(data: Seq<u8>) -> bool {
    archive_parses(data) && forall|i: int|
        0 <= i < archive_entries(data).len() ==> #[trigger] entry_reads(data, i)
}

/// What an open archive holds, entry by entry, in stored order.
pub uninterp spec fn zip_entries(a: zip::ZipArchive<std::io::Cursor<Vec<u8>>>) -> Seq<
    (Seq<u8>, bool, Seq<u8>),
>;

/// Whether entry `i` of an open archive can be read out whole.
pub uninterp spec fn zip_entry_ok(a: zip::ZipArchive<std::io::Cursor<Vec<u8>>>, i: int) -> bool;

/// Declares the zip crate's archive reader; its contents are reached
/// only through `zip_entries`.
#[verifier::external_type_specification]
#[verifier::external_body]
#[verifier::reject_recursive_types(R)]
pub struct ExZipArchive<R>(zip::ZipArchive<R>);

/// Declares std's in-memory reader that carries the archive's bytes.
#[verifier::external_type_specification]
#[verifier::external_body]
#[verifier::reject_recursive_types(T)]
pub struct ExCursor<T>(std::io::Cursor<T>);

/// Declares the zip crate's error type; verified code maps it to
/// `Error::ArchiveError` without looking inside.
#[verifier::external_type_specification]
#[verifier::external_body]
pub struct ExZipError(zip::result::ZipError);

/// Relies on zip::ZipArchive::new: reading the central directory of an
/// in-memory archive is a function of the archive's bytes alone, and
/// so is whether it succeeds, and whether each entry of the opened
/// archive can later be read.
#[verifier::external_body]
fn zip_open(data: Vec<u8>) -> (r: Result<
    zip::ZipArchive<std::io::Cursor<Vec<u8>>>,
    zip::result::ZipError,
>)
    ensures
        r is Ok <==> archive_parses(data@),
        r matches Ok(a) ==> zip_entries(a) == archive_entries(data@) && forall|i: int|
            #[trigger] zip_entry_ok(a, i) == entry_reads(data@, i),
{
    zip::ZipArchive::new(std::io::Cursor::new(data))
}

/// Relies on zip::ZipArchive::len: the number of entries the archive
/// holds.
#[verifier::external_body]
fn zip_len(a: &zip::ZipArchive<std::io::Cursor<Vec<u8>>>) -> (r: usize)
    ensures
        r == zip_entries(*a).len(),
{
    a.len()
}

/// Relies on zip::ZipArchive::by_index, zip::read::ZipFile::name_raw
/// and is_file, and std::io::Read::read_to_end: they hand out entry
/// `i`'s stored name, file flag and decompressed content; whether that
/// succeeds depends on the archive and the index alone; and reading
/// moves only the reader's position, leaving the entry table and every
/// entry's readability as they were.
#[verifier::external_body]
fn zip_entry(a: &mut zip::ZipArchive<std::io::Cursor<Vec<u8>>>, i: usize) -> (r: Result<
    ArchiveEntry,
    zip::result::ZipError,
>)
    requires
        i < zip_entries(*old(a)).len(),
    ensures
        zip_entries(*final(a)) == zip_entries(*old(a)),
        forall|j: int| #[trigger] zip_entry_ok(*final(a), j) == zip_entry_ok(*old(a), j),
        r is Ok <==> zip_entry_ok(*old(a), i as int),
        r matches Ok(e) ==> e.view() == zip_entries(*old(a))[i as int],
{
    let mut zf = a.by_index(i)?;
    let name = zf.name_raw().to_vec();
    let is_file = zf.is_file();
    let mut data: Vec<u8> = Vec::new();
    match std::io::Read::read_to_end(&mut zf, &mut data) {
        Ok(_) => Ok(ArchiveEntry { name, is_file, data }),
        Err(e) => Err(zip::result::ZipError::Io(e)),
    }
}

/// True of an entry the extraction takes: a file whose name ends with
/// the shared-object suffix and contains the architecture tag.
pub open spec fn entry_matches(e: (Seq<u8>, bool, Seq<u8>), arch: Seq<u8>) -> bool {
    e.1 && ends_with(e.0, lit::so_suffix()) && contains_seq(e.0, arch)
}

/// Index of the first matching entry at or after `i`, or -1.
pub open spec fn select_from(es: Seq<(Seq<u8>, bool, Seq<u8>)>, arch: Seq<u8>, i: int) -> int
    decreases es.len() - i,
{
    if i < 0 || i >= es.len() {
        -1
    } else if entry_matches(es[i], arch) {
        i
    } else {
        select_from(es, arch, i + 1)
    }
}

/// Picks the first entry that is a file, has the shared-object suffix
/// and contains the architecture tag.
pub fn select_so_entry(entries: &Vec<ArchiveEntry>, arch: &Vec<u8>) -> (r: Option<usize>)
    ensures
        select_from(entries_of(entries@), arch@, 0) == -1 ==> r is None,
        select_from(entries_of(entries@), arch@, 0) >= 0 ==> (r matches Some(i) && i == select_from(
            entries_of(entries@),
            arch@,
            0,
        )),
{
    let suffix = lit::make_so_suffix();
    let mut i: usize = 0;
    while i < entries.len()
        invariant
            i <= entries@.len(),
            select_from(entries_of(entries@), arch@, 0) == select_from(
                entries_of(entries@),
                arch@,
                i as int,
            ),
        decreases entries.len() - i,
    {
        let e = &entries[i];
        proof {
            assert(entries_of(entries@)[i as int] == entries@[i as int].view());
        }
        if e.is_file && ends_with_bytes(&e.name, &suffix) && contains_bytes(&e.name, arch) {
            return Some(i);
        }
        i = i + 1;
    }
    None
}

proof fn lemma_select_bounds(es: Seq<(Seq<u8>, bool, Seq<u8>)>, arch: Seq<u8>, i: int)
    requires
        0 <= i <= es.len(),
    ensures
        select_from(es, arch, i) == -1 || i <= select_from(es, arch, i) < es.len(),
        select_from(es, arch, i) >= 0 ==> entry_matches(es[select_from(es, arch, i)], arch),
    decreases es.len() - i,
{
    if i < es.len() && !entry_matches(es[i], arch) {
        lemma_select_bounds(es, arch, i + 1);
    }
}

/// Extracts the shared object for `arch` from the archive bytes
/// `data`: the first matching entry's base filename and content.
/// Fails with `LibraryNotFoundInArchive` exactly when the archive is
/// readable and no entry matches, and with `ArchiveError` exactly when
/// the zip crate cannot read the archive or one of its entries.
pub fn extract_so(data: Vec<u8>, arch: &Vec<u8>, archive_path: &Vec<u8>) -> (r: Result<
    (Vec<u8>, Vec<u8>),
    Error,
>)
    ensures
        archive_reads(data@) ==> ({
            let es = archive_entries(data@);
            let s = select_from(es, arch@, 0);
            match r {
                Ok(p) => s >= 0 && p.0@ == base_name_spec(es[s].0) && p.1@ == es[s].2,
                Err(e) => s == -1 && (e matches Error::LibraryNotFoundInArchive {
                    arch: a2,
                    archive_path: p2,
                } && a2@ == arch@ && p2@ == archive_path@),
            }
        }),
        !archive_reads(data@) ==> r == Err::<(Vec<u8>, Vec<u8>), Error>(Error::ArchiveError),
{
    let ghost data0 = data@;
    let mut a = match zip_open(data) {
        Ok(a) => a,
        Err(_) => {
            return Err(Error::ArchiveError);
        },
    };
    let n = zip_len(&a);
    let mut entries: Vec<ArchiveEntry> = Vec::new();
    let mut i: usize = 0;
    while i < n
        invariant
            i <= n,
            n == zip_entries(a).len(),
            zip_entries(a) == archive_entries(data0),
            archive_parses(data0),
            forall|j: int| #[trigger] zip_entry_ok(a, j) == entry_reads(data0, j),
            forall|j: int| 0 <= j < i ==> #[trigger] entry_reads(data0, j),
            entries_of(entries@) == archive_entries(data0).subrange(0, i as int),
        decreases n - i,
    {
        let e = match zip_entry(&mut a, i) {
            Ok(e) => e,
            Err(_) => {
                proof {
                    assert(!entry_reads(data0, i as int));
                    assert(!archive_reads(data0));
                }
                return Err(Error::ArchiveError);
            },
        };
        let ghost old_entries = entries@;
        entries.push(e);
        proof {
            assert(entries_of(entries@) =~= entries_of(old_entries).push(e.view()));
            assert(entries_of(entries@) =~= archive_entries(data0).subrange(0, i + 1));
        }
        i = i + 1;
    }
    proof {
        assert(entries_of(entries@) =~= archive_entries(data0));
        assert(archive_reads(data0));
        lemma_select_bounds(archive_entries(data0), arch@, 0);
    }
    match select_so_entry(&entries, arch) {
        Some(k) => {
            let name = base_name(&entries[k].name);
            let content = dup(&entries[k].data);
            proof {
                assert(entries_of(entries@)[k as int] == entries@[k as int].view());
            }
            Ok((name, content))
        },
        None => Err(
            Error::LibraryNotFoundInArchive { arch: dup(arch), archive_path: dup(archive_path) },
        ),
    }
}

} // verus!
