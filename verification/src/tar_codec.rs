use vstd::prelude::*;

use crate::error::ArcError;
use crate::error::ArcResult;
use crate::model::encodes_cleanly;
use crate::model::entry_name;
use crate::model::tar_name_ok;
use crate::model::views_of;
use crate::model::ArcEntry;
use crate::model::ArcFormat;
use crate::model::EntryModel;

verus! {

/// The tar codec's decode of a byte buffer: `None` when the container or
/// any record in it is malformed, otherwise the records in container order.
/// Decoding inspects the bytes alone.
pub uninterp spec fn tar_parse(bytes: Seq<u8>) -> Option<Seq<EntryModel>>;

/// In-memory tar output sink: a `tar::Builder` over an owned buffer.
#[verifier::external_body]
pub struct TarSink {
    inner: tar::Builder<Vec<u8>>,
}

/// The entries accumulated in a tar output sink, as the finished buffer
/// will hand them back on decode.
pub uninterp spec fn tar_sink(b: TarSink) -> Seq<EntryModel>;

/// Relies on `uzers::get_current_uid`: the calling process's user id.
#[verifier::external_body]
fn current_uid() -> u32 {
    uzers::get_current_uid()
}

/// Relies on `uzers::get_current_gid`: the calling process's group id.
#[verifier::external_body]
fn current_gid() -> u32 {
    uzers::get_current_gid()
}

/// Relies on `uzers::get_current_username`: the name of the calling
/// process's user, if the host can resolve it to a string.
#[verifier::external_body]
fn current_username() -> Option<String> {
    uzers::get_current_username().and_then(|n| n.into_string().ok())
}

/// Relies on `uzers::get_current_groupname`: the name of the calling
/// process's group, if the host can resolve it to a string.
#[verifier::external_body]
fn current_groupname() -> Option<String> {
    uzers::get_current_groupname().and_then(|n| n.into_string().ok())
}

/// Relies on `std::time::SystemTime::now`: seconds since the epoch, or zero
/// if the clock reads earlier than the epoch.
#[verifier::external_body]
fn now_unix_secs() -> u64 {
    std::time::SystemTime::now().duration_since(std::time::UNIX_EPOCH).map(
        |d| d.as_secs(),
    ).unwrap_or(0)
}

/// Relies on `std::io::Error::other`: the error reported when a stored
/// entry path is not valid UTF-8.
#[verifier::external_body]
fn utf8_error() -> std::io::Error {
    std::io::Error::other("entry path is not utf-8".to_string())
}

/// Relies on `alloc`'s integer formatting: the id rendered in decimal,
/// used as a best-effort owner name when the host cannot resolve one.
#[verifier::external_body]
fn id_string(id: u32) -> String {
    id.to_string()
}

/// Relies on `tar::Builder::new` over a fresh in-memory buffer.
#[verifier::external_body]
fn tar_builder_new() -> (b: TarSink)
    ensures
        tar_sink(b) == Seq::<EntryModel>::empty(),
{
    TarSink { inner: tar::Builder::new(Vec::new()) }
}

/// Relies on `tar::Header` setters and `tar::Builder::append_data`: appends
/// a directory record with the given metadata defaults; a name in the
/// normal form of `tar_name_ok` is stored byte for byte.
#[verifier::external_body]
fn tar_append_dir(
    b: &mut TarSink,
    name: &String,
    mode: u32,
    mtime: u64,
    uid: u64,
    uname: &String,
    gid: u64,
    gname: &String,
) -> (r: Result<(), ArcError>)
    ensures
        r is Ok && tar_name_ok(name@) ==> tar_sink(*final(b)) == tar_sink(*old(b)).push(
            EntryModel::Directory { name: name@ },
        ),
        r matches Err(e) ==> e is IoError,
{
    let mut header = tar::Header::new_gnu();
    header.set_mode(mode);
    header.set_mtime(mtime);
    header.set_uid(uid);
    header.set_username(uname.as_str()).map_err(ArcError::IoError)?;
    header.set_gid(gid);
    header.set_groupname(gname.as_str()).map_err(ArcError::IoError)?;
    header.set_entry_type(tar::EntryType::Directory);
    header.set_size(0);
    b.inner.append_data(&mut header, name.as_str(), &[][..]).map_err(ArcError::IoError)
}

/// Relies on `tar::Header` setters and `tar::Builder::append_data`: appends
/// a regular-file record with the given content and metadata defaults; a
/// name in the normal form of `tar_name_ok` is stored byte for byte.
#[verifier::external_body]
fn tar_append_file(
    b: &mut TarSink,
    name: &String,
    data: &Vec<u8>,
    mode: u32,
    mtime: u64,
    uid: u64,
    uname: &String,
    gid: u64,
    gname: &String,
) -> (r: Result<(), ArcError>)
    ensures
        r is Ok && tar_name_ok(name@) ==> tar_sink(*final(b)) == tar_sink(*old(b)).push(
            EntryModel::File { name: name@, data: data@ },
        ),
        r matches Err(e) ==> e is IoError,
{
    let mut header = tar::Header::new_gnu();
    header.set_mode(mode);
    header.set_mtime(mtime);
    header.set_uid(uid);
    header.set_username(uname.as_str()).map_err(ArcError::IoError)?;
    header.set_gid(gid);
    header.set_groupname(gname.as_str()).map_err(ArcError::IoError)?;
    header.set_entry_type(tar::EntryType::Regular);
    header.set_size(data.len() as u64);
    b.inner.append_data(&mut header, name.as_str(), data.as_slice()).map_err(ArcError::IoError)
}

/// Relies on `tar::Builder::into_inner`: writes the terminating blocks and
/// hands back the finished buffer, whose decode yields exactly the
/// accumulated records.
#[verifier::external_body]
fn tar_finish(b: TarSink) -> (r: Result<Vec<u8>, ArcError>)
    ensures
        r matches Ok(out) ==> tar_parse(out@) == Some(tar_sink(b)),
        r matches Err(e) ==> e is IoError,
{
    b.inner.into_inner().map_err(ArcError::IoError)
}

/// Relies on `tar::Archive::entries` and the per-record readers: decoding
/// is a pure function of the buffer; each record hands back its path (GNU
/// long-name extensions resolved), kind and content, in container order.
/// The codec exposes records only through a borrowing, streaming iterator,
/// so the whole enumeration stands behind this one trusted call.
#[verifier::external_body]
pub(crate) fn read_tar(buf: &[u8]) -> (r: ArcResult<Vec<ArcEntry>>)
    ensures
        r matches Ok(v) ==> tar_parse(buf@) == Some(views_of(v@)),
        r is Err ==> tar_parse(buf@) is None,
        r matches Err(e) ==> e is IoError,
{
    let mut out: Vec<ArcEntry> = Vec::new();
    for entry in tar::Archive::new(buf).entries().map_err(ArcError::IoError)? {
        let mut entry = entry.map_err(ArcError::IoError)?;
        let path = entry.path().map_err(ArcError::IoError)?.to_str().map(|s| s.to_string());
        let name = path.ok_or_else(|| ArcError::IoError(utf8_error()))?;
        if entry.header().entry_type().is_dir() {
            out.push(ArcEntry::Directory(name));
        } else {
            let mut data = Vec::new();
            std::io::Read::read_to_end(&mut entry, &mut data).map_err(ArcError::IoError)?;
            out.push(ArcEntry::File(name, data));
        }
    }
    Ok(out)
}

/// Encode entries as a tar container, in the given order, with fixed
/// permission bits, the current time as modification time, and the calling
/// process's user and group as owner metadata; an owner whose name the host
/// cannot resolve is recorded under its numeric id instead. The tar codec
/// itself reports every failure through its I/O error kind.
pub fn archive_tar(entries: &Vec<ArcEntry>) -> (r: ArcResult<Vec<u8>>)
    ensures
        r matches Ok(out) ==> (encodes_cleanly(ArcFormat::Tar, views_of(entries@)) ==> tar_parse(
            out@,
        ) == Some(views_of(entries@))),
        r matches Err(e) ==> e is IoError,
{
    let uid32 = current_uid();
    let gid32 = current_gid();
    let uid = uid32 as u64;
    let gid = gid32 as u64;
    let uname = match current_username() {
        Some(s) => s,
        None => id_string(uid32),
    };
    let gname = match current_groupname() {
        Some(s) => s,
        None => id_string(gid32),
    };
    let mtime = now_unix_secs();
    let mut b = tar_builder_new();
    let mut i: usize = 0;
    while i < entries.len()
        invariant
            i <= entries@.len(),
            encodes_cleanly(ArcFormat::Tar, views_of(entries@)) ==> tar_sink(b) == views_of(
                entries@.subrange(0, i as int),
            ),
        decreases entries@.len() - i,
    {
        let ghost all = views_of(entries@);
        proof {
            assert(all[i as int] == entries@[i as int]@);
        }
        match &entries[i] {
            ArcEntry::Directory(name) => {
                match tar_append_dir(&mut b, name, 0o766, mtime, uid, &uname, gid, &gname) {
                    Ok(()) => {},
                    Err(e) => {
                        return Err(e);
                    },
                }
            },
            ArcEntry::File(name, data) => {
                match tar_append_file(&mut b, name, data, 0o766, mtime, uid, &uname, gid, &gname) {
                    Ok(()) => {},
                    Err(e) => {
                        return Err(e);
                    },
                }
            },
        }
        proof {
            if encodes_cleanly(ArcFormat::Tar, all) {
                assert(tar_name_ok(entry_name(all[i as int])));
                assert(tar_sink(b) =~= views_of(entries@.subrange(0, i + 1)));
            }
        }
        i = i + 1;
    }
    proof {
        assert(entries@.subrange(0, entries@.len() as int) =~= entries@);
    }
    tar_finish(b)
}

} // verus!
