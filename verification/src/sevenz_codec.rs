use vstd::prelude::*;

use crate::error::ArcError;
use crate::error::ArcResult;
use crate::model::dirs_of;
use crate::model::files_of;
use crate::model::views_of;
use crate::model::ArcEntry;
use crate::model::EntryModel;

verus! {

/// The 7z codec's decode of a byte buffer (with an empty password): `None`
/// when the container or any record in it is malformed, otherwise the
/// records in the order the decoder visits them. Decoding inspects the
/// bytes alone.
pub uninterp spec fn sz_parse(bytes: Seq<u8>) -> Option<Seq<EntryModel>>;

/// In-memory 7z output sink: a `sevenz_rust::SevenZWriter` over an owned
/// buffer.
#[verifier::external_body]
pub struct SzSink {
    inner: sevenz_rust::SevenZWriter<std::io::Cursor<Vec<u8>>>,
}

/// The entries accumulated in a 7z output sink, in push order.
pub uninterp spec fn sz_sink(w: SzSink) -> Seq<EntryModel>;

/// Relies on `sevenz_rust::SevenZWriter::new` over a fresh in-memory
/// buffer: the only fallible step is a seek on the in-memory cursor, which
/// cannot fail, so the call succeeds.
#[verifier::external_body]
fn sz_writer_new() -> (r: Result<SzSink, ArcError>)
    ensures
        r is Ok,
        r matches Ok(w) ==> sz_sink(w) == Seq::<EntryModel>::empty(),
{
    match sevenz_rust::SevenZWriter::new(std::io::Cursor::new(Vec::new())) {
        Ok(inner) => Ok(SzSink { inner }),
        Err(e) => Err(ArcError::SevenzError(e)),
    }
}

/// Relies on `sevenz_rust::SevenZWriter::push_archive_entry`: a directory
/// record carries its verbatim name and no content stream, stamped with the
/// current time. Appending a streamless record performs no fallible work,
/// so the call succeeds.
#[verifier::external_body]
fn sz_push_dir(w: &mut SzSink, name: &String) -> (r: Result<(), ArcError>)
    ensures
        r is Ok,
        sz_sink(*final(w)) == sz_sink(*old(w)).push(
            (EntryModel::Directory { name: name@ }),
        ),
{
    let mut entry = sevenz_rust::SevenZArchiveEntry::default();
    entry.has_last_modified_date = true;
    entry.last_modified_date = sevenz_rust::nt_time::FileTime::now();
    entry.is_directory = true;
    entry.name = name.clone();
    match w.inner.push_archive_entry::<&[u8]>(entry, None) {
        Ok(_) => Ok(()),
        Err(e) => Err(ArcError::SevenzError(e)),
    }
}

/// Relies on `sevenz_rust::SevenZWriter::push_archive_entry`: a file record
/// carries its verbatim name and a content stream holding exactly the given
/// bytes, stamped with the current time. The default content method accepts
/// any input and every write lands in the in-memory buffer, so the call
/// succeeds.
#[verifier::external_body]
fn sz_push_file(w: &mut SzSink, name: &String, data: &Vec<u8>) -> (r: Result<(), ArcError>)
    ensures
        r is Ok,
        sz_sink(*final(w)) == sz_sink(*old(w)).push(
            (EntryModel::File { name: name@, data: data@ }),
        ),
{
    let mut entry = sevenz_rust::SevenZArchiveEntry::default();
    entry.has_last_modified_date = true;
    entry.last_modified_date = sevenz_rust::nt_time::FileTime::now();
    entry.name = name.clone();
    match w.inner.push_archive_entry(entry, Some(data.as_slice())) {
        Ok(_) => Ok(()),
        Err(e) => Err(ArcError::SevenzError(e)),
    }
}

/// Relies on `sevenz_rust::SevenZWriter::finish` and
/// `std::io::Cursor::into_inner`: writes the header structures and hands
/// back the finished buffer. Every pushed file carries a content stream and
/// every pushed directory none, and the decoder visits stream-backed
/// records first, so the buffer decodes to the pushed files in order
/// followed by the pushed directories in order. The header structures are
/// encoded with the default method into the in-memory buffer, where no
/// write can fail, so the call succeeds.
#[verifier::external_body]
fn sz_finish(w: SzSink) -> (r: Result<Vec<u8>, ArcError>)
    ensures
        r is Ok,
        r matches Ok(out) ==> sz_parse(out@) == Some(files_of(sz_sink(w)) + dirs_of(sz_sink(w))),
{
    match w.inner.finish() {
        Ok(c) => Ok(c.into_inner()),
        Err(e) => Err(ArcError::IoError(e)),
    }
}

/// Relies on `sevenz_rust::SevenZReader::for_each_entries` (with an empty
/// password): decoding is a pure function of the buffer; the decoder visits
/// stream-backed records in folder order, then records without a content
/// stream, handing back each record's verbatim name, kind and fully
/// decompressed content. The codec exposes records only through this
/// callback, so the whole enumeration stands behind one trusted call.
#[verifier::external_body]
pub(crate) fn read_7z(buf: &[u8]) -> (r: ArcResult<Vec<ArcEntry>>)
    ensures
        r matches Ok(v) ==> sz_parse(buf@) == Some(views_of(v@)),
        r is Err ==> sz_parse(buf@) is None,
        r matches Err(e) ==> e is SevenzError,
{
    let mut out: Vec<ArcEntry> = Vec::new();
    let (cursor, len) = (std::io::Cursor::new(buf), buf.len() as u64);
    let mut rd = sevenz_rust::SevenZReader::new(cursor, len, sevenz_rust::Password::empty())
        .map_err(ArcError::SevenzError)?;
    rd.for_each_entries(|entry, reader| {
        if entry.is_directory {
            out.push(ArcEntry::Directory(entry.name.clone()));
        } else {
            let mut data = Vec::new();
            std::io::Read::read_to_end(reader, &mut data).map_err(sevenz_rust::Error::io)?;
            out.push(ArcEntry::File(entry.name.clone(), data));
        }
        Ok(true)
    }).map_err(ArcError::SevenzError)?;
    Ok(out)
}

/// Encode entries as a 7z container: files keep their push order; the
/// format stores directories without content streams, so they come back
/// after the files on decode.
pub fn archive_7z(entries: &Vec<ArcEntry>) -> (r: ArcResult<Vec<u8>>)
    ensures
        r is Ok,
        r matches Ok(out) ==> sz_parse(out@) == Some(
            files_of(views_of(entries@)) + dirs_of(views_of(entries@)),
        ),
{
    let mut w = match sz_writer_new() {
        Ok(w) => w,
        Err(e) => {
            return Err(e);
        },
    };
    let mut i: usize = 0;
    while i < entries.len()
        invariant
            i <= entries@.len(),
            sz_sink(w) == views_of(entries@.subrange(0, i as int)),
        decreases entries@.len() - i,
    {
        match &entries[i] {
            ArcEntry::Directory(name) => {
                match sz_push_dir(&mut w, name) {
                    Ok(()) => {},
                    Err(e) => {
                        return Err(e);
                    },
                }
            },
            ArcEntry::File(name, data) => {
                match sz_push_file(&mut w, name, data) {
                    Ok(()) => {},
                    Err(e) => {
                        return Err(e);
                    },
                }
            },
        }
        proof {
            assert(sz_sink(w) =~= views_of(entries@.subrange(0, i + 1)));
        }
        i = i + 1;
    }
    proof {
        assert(entries@.subrange(0, entries@.len() as int) =~= entries@);
    }
    sz_finish(w)
}

} // verus!
