//! Packing a chapter's files into one compressed archive.

use vstd::prelude::*;
use vstd::multiset::Multiset;
use vstd::string::*;

use crate::error::ComicError;

verus! {

#[verifier::external_type_specification]
#[verifier::external_body]
pub struct ExZipError(zip::result::ZipError);

#[verifier::external_type_specification]
#[verifier::external_body]
pub struct ExIoError(std::io::Error);

/// An archive being written to memory, reached only through the functions
/// below.
#[verifier::external_body]
pub struct ArchiveWriter {
    inner: zip::ZipWriter<std::io::Cursor<Vec<u8>>>,
}

/// The entries written so far, each a name and its contents, in the order
/// they were started.
pub uninterp spec fn zip_entries(w: ArchiveWriter) -> Seq<(Seq<char>, Seq<u8>)>;

/// Whether the writer is still open: it is from its creation until a call
/// on it fails or the archive is finished.
pub uninterp spec fn zip_open(w: ArchiveWriter) -> bool;

/// The bytes of a finished archive holding `entries`, each written with the
/// default file options and large-file records.
pub uninterp spec fn zip_image(entries: Seq<(Seq<char>, Seq<u8>)>) -> Seq<u8>;

/// Relies on `zip::ZipWriter::new`: an archive with no entries yet, over an
/// empty in-memory buffer.
#[verifier::external_body]
fn archive_writer() -> (w: ArchiveWriter)
    ensures
        zip_entries(w) == Seq::<(Seq<char>, Seq<u8>)>::empty(),
        zip_open(w),
{
    ArchiveWriter { inner: zip::ZipWriter::new(std::io::Cursor::new(Vec::new())) }
}

/// Relies on `zip::ZipWriter::start_file`: on success a new, empty entry
/// named `name` follows the earlier ones, which it closes. Entries carry
/// large-file records, so no size limit applies; over an in-memory buffer
/// it fails only on a closed writer.
#[verifier::external_body]
fn start_entry(w: &mut ArchiveWriter, name: &str) -> (r: Result<(), zip::result::ZipError>)
    ensures
        r is Ok ==> zip_entries(*final(w)) == zip_entries(*old(w)).push((name@, Seq::empty())),
        r is Ok ==> zip_open(*final(w)),
        zip_open(*old(w)) ==> r is Ok,
{
    w.inner.start_file(name, zip::write::FileOptions::default().large_file(true))
}

/// Relies on `ZipWriter`'s `std::io::Write::write_all`: on success `data`
/// is appended to the contents of the entry last started. Entries carry
/// large-file records, so no size limit applies; over an in-memory buffer
/// an open writer does not fail.
#[verifier::external_body]
fn write_entry(w: &mut ArchiveWriter, data: &[u8]) -> (r: Result<(), std::io::Error>)
    requires
        zip_entries(*old(w)).len() > 0,
        zip_open(*old(w)),
    ensures
        r is Ok ==> {
            let before = zip_entries(*old(w));
            let last = before.last();
            zip_entries(*final(w)) == before.update(
                before.len() - 1,
                (last.0, last.1 + data@),
            )
        },
        r is Ok ==> zip_open(*final(w)),
        r is Ok,
{
    std::io::Write::write_all(&mut w.inner, data)
}

/// Relies on `zip::ZipWriter::finish`: on success the bytes of the
/// archive, as the in-memory buffer holds them. Entries carry large-file
/// records, so no size limit applies; over an in-memory buffer it fails
/// only on a closed writer.
#[verifier::external_body]
fn finish_archive(w: &mut ArchiveWriter) -> (r: Result<Vec<u8>, zip::result::ZipError>)
    ensures
        r is Ok ==> r->Ok_0@ == zip_image(zip_entries(*old(w))),
        zip_open(*old(w)) ==> r is Ok,
{
    w.inner.finish().map(|c| c.into_inner())
}

/// Relies on `zip::result::ZipError`'s `Display`: a description of the
/// error.
#[verifier::external_body]
fn zip_error_text(e: &zip::result::ZipError) -> String {
    e.to_string()
}

/// Relies on `std::io::Error`'s `Display`: a description of the error.
#[verifier::external_body]
fn io_error_text(e: &std::io::Error) -> String {
    e.to_string()
}

/// One file to archive: its name within the archive and its contents.
#[derive(Debug)]
pub struct ArchiveEntry {
    pub name: String,
    pub data: Vec<u8>,
}

/// What the entries of an archive hold, in order.
pub open spec fn entries_view(entries: Seq<ArchiveEntry>) -> Seq<(Seq<char>, Seq<u8>)> {
    entries.map_values(|e: ArchiveEntry| (e.name@, e.data@))
}

/// The archive holding `entries`, each under its own name, in the order
/// given. Large entries are recorded as such, so it is always built.
pub fn build_archive(entries: &Vec<ArchiveEntry>) -> (r: Result<Vec<u8>, ComicError>)
    ensures
        r is Ok,
        r is Ok ==> r->Ok_0@ == zip_image(entries_view(entries@)),
{
    let mut w = archive_writer();
    let mut i: usize = 0;
    while i < entries.len()
        invariant
            i <= entries.len(),
            zip_entries(w) == entries_view(entries@.subrange(0, i as int)),
            zip_open(w),
        decreases entries.len() - i,
    {
        let e = &entries[i];
        match start_entry(&mut w, e.name.as_str()) {
            Ok(()) => {},
            Err(err) => return Err(ComicError::ArchiveFailed(zip_error_text(&err))),
        }
        match write_entry(&mut w, e.data.as_slice()) {
            Ok(()) => {},
            Err(err) => return Err(ComicError::ArchiveFailed(io_error_text(&err))),
        }
        assert(zip_entries(w) =~= entries_view(entries@.subrange(0, i + 1)));
        i = i + 1;
    }
    assert(entries@.subrange(0, entries.len() as int) =~= entries@);
    match finish_archive(&mut w) {
        Ok(bytes) => Ok(bytes),
        Err(err) => Err(ComicError::ArchiveFailed(zip_error_text(&err))),
    }
}

/// Whether name `a` comes no later than `b`, comparing characters from
/// position `i` on; a proper prefix comes first.
pub open spec fn le_from(a: Seq<char>, b: Seq<char>, i: int) -> bool
    decreases a.len() - i,
{
    if i >= a.len() {
        true
    } else if i >= b.len() {
        false
    } else if a[i] != b[i] {
        a[i] < b[i]
    } else {
        le_from(a, b, i + 1)
    }
}

/// The lexicographic order of names, character by character.
pub open spec fn name_le(a: Seq<char>, b: Seq<char>) -> bool {
    le_from(a, b, 0)
}

/// Whether the entries' names ascend.
pub open spec fn names_ascend(entries: Seq<ArchiveEntry>) -> bool {
    forall|i: int, j: int|
        0 <= i < j < entries.len() ==> name_le(#[trigger] entries[i].name@, #[trigger] entries[j].name@)
}

proof fn lemma_le_total(a: Seq<char>, b: Seq<char>, i: int)
    requires
        0 <= i,
    ensures
        le_from(a, b, i) || le_from(b, a, i),
    decreases a.len() - i,
{
    if i < a.len() && i < b.len() && a[i] == b[i] {
        lemma_le_total(a, b, i + 1);
    }
}

proof fn lemma_le_transitive(a: Seq<char>, b: Seq<char>, c: Seq<char>, i: int)
    requires
        0 <= i,
        le_from(a, b, i),
        le_from(b, c, i),
    ensures
        le_from(a, c, i),
    decreases a.len() - i,
{
    if i < a.len() && a[i] == b[i] && b[i] == c[i] {
        lemma_le_transitive(a, b, c, i + 1);
    }
}

fn name_le_exec(a: &str, b: &str) -> (r: bool)
    ensures
        r == name_le(a@, b@),
{
    let la = a.unicode_len();
    let lb = b.unicode_len();
    let mut i: usize = 0;
    while i < la && i < lb
        invariant
            la == a@.len(),
            lb == b@.len(),
            i <= la,
            i <= lb,
            le_from(a@, b@, 0) == le_from(a@, b@, i as int),
        decreases la - i,
    {
        let ca = a.get_char(i);
        let cb = b.get_char(i);
        if ca != cb {
            return ca < cb;
        }
        i = i + 1;
    }
    i >= la
}

/// The entries ordered by name, so that an archive does not depend on the
/// order in which a directory was listed. No entry is added or lost.
pub fn order_entries(entries: Vec<ArchiveEntry>) -> (r: Vec<ArchiveEntry>)
    ensures
        r@.to_multiset() == entries@.to_multiset(),
        names_ascend(r@),
{
    broadcast use vstd::seq_lib::group_to_multiset_ensures;

    let ghost all = entries@;
    let mut rest = entries;
    let mut out: Vec<ArchiveEntry> = Vec::new();
    while rest.len() > 0
        invariant
            out@.to_multiset().add(rest@.to_multiset()) == all.to_multiset(),
            names_ascend(out@),
        decreases rest.len(),
    {
        let ghost before = rest@;
        let e = rest.pop().unwrap();
        proof {
            assert(before =~= rest@.push(e));
        }
        let mut k: usize = 0;
        while k < out.len() && !name_le_exec(e.name.as_str(), out[k].name.as_str())
            invariant
                k <= out.len(),
                forall|m: int| 0 <= m < k ==> name_le(#[trigger] out@[m].name@, e.name@),
            decreases out.len() - k,
        {
            proof {
                lemma_le_total(e.name@, out@[k as int].name@, 0);
            }
            k = k + 1;
        }
        let ghost old_out = out@;
        proof {
            if k < out.len() {
                assert forall|m: int| k <= m < old_out.len() implies name_le(
                    e.name@,
                    #[trigger] old_out[m].name@,
                ) by {
                    if m > k {
                        lemma_le_transitive(e.name@, old_out[k as int].name@, old_out[m].name@, 0);
                    }
                }
            }
        }
        out.insert(k, e);
        proof {
            let ns = out@;
            assert(ns =~= old_out.insert(k as int, e));
            vstd::seq_lib::to_multiset_insert(old_out, k as int, e);
            vstd::seq_lib::to_multiset_build(rest@, e);
            assert(out@.to_multiset().add(rest@.to_multiset()) =~= old_out.to_multiset().add(
                before.to_multiset(),
            ));
            assert forall|i: int, j: int| 0 <= i < j < ns.len() implies name_le(
                #[trigger] ns[i].name@,
                #[trigger] ns[j].name@,
            ) by {
                if j < k {
                } else if j == k {
                } else if i < k {
                    lemma_le_transitive(ns[i].name@, e.name@, ns[j].name@, 0);
                } else if i == k {
                } else {
                    assert(ns[i] == old_out[i - 1]);
                    assert(ns[j] == old_out[j - 1]);
                }
            }
        }
    }
    assert(rest@.to_multiset() =~= Multiset::empty());
    out
}

/// The archive file for directory `dir`: a sibling named `{dir}.cbz`.
pub fn archive_path(dir: &str) -> (r: String)
    ensures
        r@ == dir@ + seq!['.', 'c', 'b', 'z'],
{
    let mut s = String::from_str(dir);
    proof {
        reveal_strlit(".cbz");
    }
    s.append(".cbz");
    s
}

} // verus!
