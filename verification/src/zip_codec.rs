use vstd::prelude::*;

use crate::error::ArcError;
use crate::error::ArcResult;
use crate::model::ends_with_separator;
use crate::model::entry_name;
use crate::model::seq_somes;
use crate::model::views_of;
use crate::model::zip_dir_name;
use crate::model::zip_file_entry;
use crate::model::ArcEntry;
use crate::model::EntryModel;

verus! {

/// The per-record outcome of the zip codec's decode of a byte buffer:
/// `None` at the outer level when the container itself cannot be opened;
/// inside, one row per stored record in container order, `None` for a
/// record whose extraction fails. Decoding inspects the bytes alone.
pub uninterp spec fn zip_parse(bytes: Seq<u8>) -> Option<Seq<Option<EntryModel>>>;

/// The records held by an open zip archive, one row per stored record in
/// container order, `None` for a record whose extraction fails.
pub uninterp spec fn zip_contents(a: zip::ZipArchive<std::io::Cursor<Vec<u8>>>) -> Seq<
    Option<EntryModel>,
>;

/// In-memory zip output sink: a `zip::ZipWriter` over an owned buffer.
#[verifier::external_body]
pub struct ZipSink {
    inner: zip::ZipWriter<std::io::Cursor<Vec<u8>>>,
}

/// The entries accumulated in a zip output sink, as the finished buffer
/// will hand them back on decode.
pub uninterp spec fn zip_sink(w: ZipSink) -> Seq<EntryModel>;

/// Whether a file record is open for writing in the sink: a started file
/// record that no later record has closed.
pub uninterp spec fn zip_sink_open(w: ZipSink) -> bool;

/// The name under which the zip format stores an entry: a directory gains a
/// trailing slash, a file keeps its name.
pub open spec fn zip_stored_name(e: EntryModel) -> Seq<char> {
    match e {
        EntryModel::Directory { name } => zip_dir_name(name),
        EntryModel::File { name, data } => name,
    }
}

/// No record of the sequence is stored under the given name.
pub open spec fn zip_fresh(s: Seq<EntryModel>, stored: Seq<char>) -> bool {
    forall|k: int| 0 <= k < s.len() ==> zip_stored_name(#[trigger] s[k]) != stored
}

/// File contents small enough that neither the raw nor the compressed size
/// can reach the format's plain 32-bit limits, with headroom for
/// incompressible data that compression expands slightly.
pub open spec fn zip_data_ok(s: Seq<EntryModel>) -> bool {
    forall|k: int| 0 <= k < s.len() ==> match #[trigger] s[k] {
        EntryModel::File { name, data } => data.len() < 0xF000_0000,
        EntryModel::Directory { name } => true,
    }
}

/// A file entry whose name does not end in a separator; such a name would
/// make the record decode as a directory.
pub open spec fn zip_plain_entry(e: EntryModel) -> bool {
    match e {
        EntryModel::File { name, data } => !ends_with_separator(name),
        EntryModel::Directory { name } => true,
    }
}

/// Entry lists that the zip encoder accepts: stored names pairwise
/// distinct and of bounded length, no file named like a directory, and
/// file contents within the format's plain 32-bit size limits.
pub open spec fn zip_encodable(s: Seq<EntryModel>) -> bool {
    &&& forall|i: int, j: int|
        0 <= i < j < s.len() ==> zip_stored_name(s[i]) != zip_stored_name(s[j])
    &&& forall|i: int| 0 <= i < s.len() ==> entry_name(#[trigger] s[i]).len() <= 16000
    &&& forall|i: int| 0 <= i < s.len() ==> zip_plain_entry(#[trigger] s[i])
    &&& zip_data_ok(s)
}

/// The sink can take content bytes: its last record is a file whose content
/// stays within the size limits after the write.
pub open spec fn zip_can_take_data(s: Seq<EntryModel>, d: Seq<u8>) -> bool {
    s.len() > 0 && match s.last() {
        EntryModel::File { name, data } => data.len() + d.len() < 0xF000_0000,
        EntryModel::Directory { name } => false,
    }
}

/// The sink after bytes are written: they extend the content of the most
/// recently started file record; a sink whose last record is a directory,
/// or that holds no record, is unchanged.
pub open spec fn zip_append_data(s: Seq<EntryModel>, d: Seq<u8>) -> Seq<EntryModel> {
    if s.len() > 0 {
        match s.last() {
            EntryModel::File { name, data } => s.update(
                s.len() - 1,
                EntryModel::File { name: name, data: data + d },
            ),
            EntryModel::Directory { name } => s,
        }
    } else {
        s
    }
}

/// The zip decode of a byte buffer when it fully succeeds: the container
/// opens and every record extracts.
pub open spec fn zip_entries_spec(bytes: Seq<u8>) -> Option<Seq<EntryModel>> {
    match zip_parse(bytes) {
        Some(rows) => if forall|i: int| #![trigger rows[i]] 0 <= i < rows.len() ==> rows[i]
            is Some {
            Some(Seq::new(rows.len(), |i: int| rows[i].unwrap()))
        } else {
            None
        },
        None => None,
    }
}

/// Relies on `zip::ZipArchive::new`: opening parses the central directory,
/// a pure function of the buffer's bytes, and fails exactly when that
/// structure is malformed, with the codec's own error kind.
#[verifier::external_body]
fn zip_open(buf: &[u8]) -> (r: Result<zip::ZipArchive<std::io::Cursor<Vec<u8>>>, ArcError>)
    ensures
        r matches Ok(a) ==> zip_parse(buf@) == Some(zip_contents(a)),
        r is Err <==> zip_parse(buf@) is None,
        r matches Err(e) ==> e is ZipError,
{
    match zip::ZipArchive::new(std::io::Cursor::new(buf.to_vec())) {
        Ok(a) => Ok(a),
        Err(e) => Err(ArcError::ZipError(e)),
    }
}

/// Relies on `zip::ZipArchive::len`: the number of records in the central
/// directory.
#[verifier::external_body]
fn zip_len(a: &zip::ZipArchive<std::io::Cursor<Vec<u8>>>) -> (n: usize)
    ensures
        n == zip_contents(*a).len(),
{
    a.len()
}

/// Relies on `zip::ZipArchive::by_index` and `std::io::Read::read_to_end`:
/// extracting record `i` is a pure function of the buffer; a record whose
/// name ends in a separator is a directory, any other hands back its name
/// and fully decompressed content.
#[verifier::external_body]
fn zip_entry_at(a: &mut zip::ZipArchive<std::io::Cursor<Vec<u8>>>, i: usize) -> (r: Result<
    ArcEntry,
    ArcError,
>)
    requires
        i < zip_contents(*old(a)).len(),
    ensures
        zip_contents(*final(a)) == zip_contents(*old(a)),
        zip_contents(*old(a))[i as int] matches Some(m) ==> r matches Ok(e) && e@ == m,
        zip_contents(*old(a))[i as int] is None ==> r is Err,
        r matches Err(e) ==> e is ZipError || e is IoError,
{
    let mut f = a.by_index(i).map_err(ArcError::ZipError)?;
    let name = f.name().to_string();
    if f.is_dir() {
        Ok(ArcEntry::Directory(name))
    } else {
        let mut data = Vec::new();
        std::io::Read::read_to_end(&mut f, &mut data).map_err(ArcError::IoError)?;
        Ok(ArcEntry::File(name, data))
    }
}

/// Relies on `zip::ZipWriter::new` over a fresh in-memory buffer.
#[verifier::external_body]
fn zip_writer_new() -> (w: ZipSink)
    ensures
        zip_sink(w) == Seq::<EntryModel>::empty(),
        !zip_sink_open(w),
{
    ZipSink { inner: zip::ZipWriter::new(std::io::Cursor::new(Vec::new())) }
}

/// Relies on `zip::ZipWriter::add_directory`: appends a directory record
/// under the given name, adding a trailing slash unless the name already
/// ends with a separator; a duplicate name fails rather than replacing.
/// Over an in-memory buffer the call fails only on a duplicate stored name,
/// a name too long for the 16-bit length field, or a pending record whose
/// size crossed the plain 32-bit limits, so it succeeds on a fresh bounded
/// name over a size-bounded sink.
#[verifier::external_body]
fn zip_add_directory(w: &mut ZipSink, name: &String) -> (r: Result<(), ArcError>)
    ensures
        r is Ok ==> zip_sink(*final(w)) == zip_sink(*old(w)).push(
            EntryModel::Directory { name: zip_dir_name(name@) },
        ) && !zip_sink_open(*final(w)),
        zip_fresh(zip_sink(*old(w)), zip_dir_name(name@)) && name@.len() <= 16000 && zip_data_ok(
            zip_sink(*old(w)),
        ) ==> r is Ok,
        r matches Err(e) ==> e is ZipError,
{
    w.inner.add_directory(name.as_str(), zip::write::SimpleFileOptions::default()).map_err(
        ArcError::ZipError,
    )
}

/// Relies on `zip::ZipWriter::start_file`: appends a record under the given
/// name, stored verbatim with empty content until bytes are written; a name
/// ending in a separator decodes as a directory. Over an in-memory buffer
/// the call fails only on a duplicate stored name, a name too long for the
/// 16-bit length field, or a pending record whose size crossed the plain
/// 32-bit limits, so it succeeds on a fresh bounded name over a
/// size-bounded sink.
#[verifier::external_body]
fn zip_start_file(w: &mut ZipSink, name: &String) -> (r: Result<(), ArcError>)
    ensures
        r is Ok ==> zip_sink(*final(w)) == zip_sink(*old(w)).push(
            zip_file_entry(name@, Seq::empty()),
        ) && zip_sink_open(*final(w)),
        zip_fresh(zip_sink(*old(w)), name@) && name@.len() <= 16000 && zip_data_ok(
            zip_sink(*old(w)),
        ) ==> r is Ok,
        r matches Err(e) ==> e is ZipError,
{
    w.inner.start_file(name.as_str(), zip::write::SimpleFileOptions::default()).map_err(
        ArcError::ZipError,
    )
}

/// Relies on `std::io::Write::write_all` on `zip::ZipWriter`: the bytes
/// extend the most recently started file record; without an open file
/// record the call fails. Writes land in the in-memory buffer, so a write
/// into an open file record within the size limits succeeds.
#[verifier::external_body]
fn zip_write_data(w: &mut ZipSink, data: &Vec<u8>) -> (r: Result<(), ArcError>)
    ensures
        r is Ok ==> zip_sink(*final(w)) == zip_append_data(zip_sink(*old(w)), data@)
            && zip_sink_open(*final(w)) == zip_sink_open(*old(w)),
        zip_sink_open(*old(w)) && zip_can_take_data(zip_sink(*old(w)), data@) ==> r is Ok,
        r matches Err(e) ==> e is IoError,
{
    std::io::Write::write_all(&mut w.inner, data.as_slice()).map_err(ArcError::IoError)
}

/// Relies on `zip::ZipWriter::finish` and `std::io::Cursor::into_inner`:
/// writes the central directory and hands back the finished buffer, whose
/// decode yields exactly the accumulated records, each extractable. Every
/// stored name already fit its length field when its record was accepted,
/// and central-directory offsets past the 32-bit limit switch to the
/// 64-bit layout, so over a size-bounded sink the call succeeds.
#[verifier::external_body]
fn zip_finish(w: ZipSink) -> (r: Result<Vec<u8>, ArcError>)
    ensures
        r matches Ok(out) ==> zip_parse(out@) == Some(seq_somes(zip_sink(w))),
        zip_data_ok(zip_sink(w)) ==> r is Ok,
        r matches Err(e) ==> e is ZipError,
{
    match w.inner.finish() {
        Ok(c) => Ok(c.into_inner()),
        Err(e) => Err(ArcError::ZipError(e)),
    }
}

/// Decode a zip container into its entries, in container order.
pub fn read_zip(buf: &[u8]) -> (r: ArcResult<Vec<ArcEntry>>)
    ensures
        r matches Ok(v) ==> zip_entries_spec(buf@) == Some(views_of(v@)),
        r is Err ==> zip_entries_spec(buf@) is None,
        r matches Err(e) ==> e is ZipError || e is IoError,
{
    let mut archive = match zip_open(buf) {
        Ok(a) => a,
        Err(e) => {
            return Err(e);
        },
    };
    let ghost rows = zip_contents(archive);
    let n = zip_len(&archive);
    let mut entries: Vec<ArcEntry> = Vec::new();
    let mut i: usize = 0;
    while i < n
        invariant
            n == rows.len(),
            zip_contents(archive) == rows,
            zip_parse(buf@) == Some(rows),
            i <= n,
            entries@.len() == i,
            forall|j: int|
                #![trigger rows[j]]
                0 <= j < i ==> rows[j] is Some && entries@[j]@ == rows[j].unwrap(),
        decreases n - i,
    {
        let ghost prev = entries@;
        match zip_entry_at(&mut archive, i) {
            Ok(e) => {
                proof {
                    assert(rows[i as int] is Some);
                }
                entries.push(e);
                proof {
                    assert forall|j: int| #![trigger rows[j]] 0 <= j < i + 1 implies rows[j]
                        is Some && entries@[j]@ == rows[j].unwrap() by {
                        if j < i {
                            assert(entries@[j] == prev[j]);
                        }
                    }
                }
            },
            Err(e) => {
                proof {
                    assert(rows[i as int] is None);
                    assert(!(forall|k: int| #![trigger rows[k]] 0 <= k < rows.len() ==> rows[k]
                        is Some));
                }
                return Err(e);
            },
        }
        i = i + 1;
    }
    proof {
        assert(forall|k: int| #![trigger rows[k]] 0 <= k < rows.len() ==> rows[k] is Some);
        assert(views_of(entries@) =~= Seq::new(rows.len(), |k: int| rows[k].unwrap()));
    }
    Ok(entries)
}

/// Normalization keeps each entry's stored name and its content bounds:
/// adding a trailing slash to a directory name is idempotent, and a file
/// named like a directory keeps its stored name when reclassified.
proof fn lemma_zip_norm_stored(s: Seq<EntryModel>)
    ensures
        crate::model::normalize_entries(crate::model::ArcFormat::Zip, s).len() == s.len(),
        forall|k: int|
            0 <= k < s.len() ==> zip_stored_name(
                #[trigger] crate::model::normalize_entries(crate::model::ArcFormat::Zip, s)[k],
            ) == zip_stored_name(s[k]),
        zip_data_ok(s) ==> zip_data_ok(
            crate::model::normalize_entries(crate::model::ArcFormat::Zip, s),
        ),
{
    let norm = crate::model::normalize_entries(crate::model::ArcFormat::Zip, s);
    assert forall|k: int| 0 <= k < s.len() implies zip_stored_name(#[trigger] norm[k])
        == zip_stored_name(s[k]) by {
        match s[k] {
            EntryModel::Directory { name } => {
                assert(zip_dir_name(name).last() == '/' || zip_dir_name(name).last() == '\\');
            },
            EntryModel::File { name, data } => {},
        }
    }
    assert forall|k: int| 0 <= k < s.len() && zip_data_ok(s) implies match #[trigger] norm[k] {
        EntryModel::File { name, data } => data.len() < 0xF000_0000,
        EntryModel::Directory { name } => true,
    } by {}
}

/// Encode entries as a zip container, in the given order. Succeeds on any
/// list whose stored names are distinct and bounded and whose file contents
/// stay within the format's plain size limits.
pub fn archive_zip(entries: &Vec<ArcEntry>) -> (r: ArcResult<Vec<u8>>)
    ensures
        r matches Ok(out) ==> zip_entries_spec(out@) == Some(
            crate::model::normalize_entries(crate::model::ArcFormat::Zip, views_of(entries@)),
        ),
        zip_encodable(views_of(entries@)) ==> r is Ok,
        r matches Err(e) ==> e is ZipError || e is IoError,
{
    let ghost all = views_of(entries@);
    let mut w = zip_writer_new();
    let mut i: usize = 0;
    while i < entries.len()
        invariant
            all == views_of(entries@),
            i <= entries@.len(),
            zip_sink(w) == crate::model::normalize_entries(
                crate::model::ArcFormat::Zip,
                views_of(entries@.subrange(0, i as int)),
            ),
        decreases entries@.len() - i,
    {
        let ghost prefix = views_of(entries@.subrange(0, i as int));
        let ghost prev = zip_sink(w);
        proof {
            lemma_zip_norm_stored(prefix);
            assert(all[i as int] == entries@[i as int]@);
            if zip_encodable(all) {
                assert forall|k: int| 0 <= k < prev.len() implies zip_stored_name(
                    #[trigger] prev[k],
                ) != zip_stored_name(all[i as int]) by {
                    assert(prefix[k] == all[k]);
                }
                assert forall|k: int| 0 <= k < prefix.len() implies match #[trigger] prefix[k] {
                    EntryModel::File { name, data } => data.len() < 0xF000_0000,
                    EntryModel::Directory { name } => true,
                } by {
                    assert(prefix[k] == all[k]);
                }
                assert(zip_data_ok(prefix));
            }
        }
        match &entries[i] {
            ArcEntry::Directory(name) => {
                proof {
                    if zip_encodable(all) {
                        assert(zip_fresh(prev, zip_dir_name(name@)));
                    }
                }
                match zip_add_directory(&mut w, name) {
                    Ok(()) => {},
                    Err(e) => {
                        return Err(e);
                    },
                }
            },
            ArcEntry::File(name, data) => {
                proof {
                    if zip_encodable(all) {
                        assert(zip_plain_entry(all[i as int]));
                        assert(zip_fresh(prev, name@));
                    }
                }
                match zip_start_file(&mut w, name) {
                    Ok(()) => {},
                    Err(e) => {
                        return Err(e);
                    },
                }
                proof {
                    if !crate::model::ends_with_separator(name@) {
                        assert(zip_append_data(zip_sink(w), data@) =~= prev.push(
                            EntryModel::File { name: name@, data: Seq::empty() + data@ },
                        ));
                        assert(Seq::empty() + data@ =~= data@);
                    }
                    if zip_encodable(all) {
                        assert(zip_can_take_data(zip_sink(w), data@));
                    }
                }
                match zip_write_data(&mut w, data) {
                    Ok(()) => {},
                    Err(e) => {
                        return Err(e);
                    },
                }
            },
        }
        proof {
            assert(zip_sink(w) =~= crate::model::normalize_entries(
                crate::model::ArcFormat::Zip,
                views_of(entries@.subrange(0, i + 1)),
            ));
        }
        i = i + 1;
    }
    proof {
        assert(entries@.subrange(0, entries@.len() as int) =~= entries@);
        if zip_encodable(all) {
            lemma_zip_norm_stored(all);
        }
    }
    match zip_finish(w) {
        Ok(out) => {
            proof {
                let sink = crate::model::normalize_entries(
                    crate::model::ArcFormat::Zip,
                    views_of(entries@),
                );
                let rows = seq_somes(sink);
                assert(forall|k: int| 0 <= k < rows.len() ==> rows[k] is Some);
                assert(Seq::new(rows.len(), |k: int| rows[k].unwrap()) =~= sink);
            }
            Ok(out)
        },
        Err(e) => Err(e),
    }
}

} // verus!
