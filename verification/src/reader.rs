use vstd::prelude::*;

use crate::codec::reader_of;
use crate::detect::detect_spec;
use crate::error::ArcResult;
use crate::model::views_of;
use crate::model::ArcEntry;
use crate::model::ArcFormat;
use crate::model::EntryModel;

verus! {

/// Reads an archive eagerly into memory: the format tag is inferred from
/// the buffer's signature and every entry is decoded up front. The entry
/// list and format never change after construction; a cursor supports
/// one-pass sequential consumption independent of `entries`.
pub struct ArcReader {
    format: ArcFormat,
    entries: Vec<ArcEntry>,
    i: usize,
}

/// The model of a reader: its format tag, its decoded entries in container
/// order, and the position of its sequential cursor.
pub struct ReaderModel {
    pub format: ArcFormat,
    pub entries: Seq<EntryModel>,
    pub cursor: int,
}

impl View for ArcReader {
    type V = ReaderModel;

    closed spec fn view(&self) -> ReaderModel {
        ReaderModel {
            format: self.format,
            entries: views_of(self.entries@),
            cursor: self.i as int,
        }
    }
}

impl ArcReader {
    /// Takes the archive to read as a slice of bytes and reads it: the
    /// format is detected by signature sniffing and every entry is decoded,
    /// eagerly and in container order. Fails with `UnrecognizedFormat` when
    /// no supported signature matches, and with the codec's own error when
    /// the container is malformed.
    pub fn new(buf: &[u8]) -> (r: ArcResult<ArcReader>)
        ensures
            r matches Ok(rd) ==> reader_of(buf@) == Some((rd@.format, rd@.entries)) && rd@.cursor
                == 0,
            reader_of(buf@) is Some ==> r is Ok,
            r is Err ==> reader_of(buf@) is None,
            r matches Err(e) ==> (detect_spec(buf@) is None ==> e is UnrecognizedFormat),
            r matches Err(e) ==> (detect_spec(buf@) matches Some(f)
                ==> crate::codec::codec_err_wf(f, e)),
    {
        let format = match crate::detect::detect(buf) {
            Ok(f) => f,
            Err(e) => {
                return Err(e);
            },
        };
        let decoded = match format {
            ArcFormat::Zip => crate::zip_codec::read_zip(buf),
            ArcFormat::Tar => crate::tar_codec::read_tar(buf),
            ArcFormat::Sevenz => crate::sevenz_codec::read_7z(buf),
        };
        match decoded {
            Ok(entries) => Ok(ArcReader { format, entries, i: 0 }),
            Err(e) => Err(e),
        }
    }

    /// Returns the format of the archive.
    pub fn format(&self) -> (f: ArcFormat)
        ensures
            f == self@.format,
    {
        self.format
    }

    /// Returns a reference to all archive entries; usable repeatedly and
    /// independently of the sequential cursor.
    pub fn entries(&self) -> (r: &Vec<ArcEntry>)
        ensures
            views_of(r@) == self@.entries,
    {
        &self.entries
    }

    /// Yields a copy of the entry at the cursor and advances the cursor, or
    /// `None` once every entry has been consumed this way. The cursor only
    /// moves forward; `entries` remains usable regardless.
    pub fn next(&mut self) -> (r: Option<ArcEntry>)
        ensures
            final(self)@.format == old(self)@.format,
            final(self)@.entries == old(self)@.entries,
            old(self)@.cursor < old(self)@.entries.len() ==> (r matches Some(e) && e@ == old(
                self,
            )@.entries[old(self)@.cursor] && final(self)@.cursor == old(self)@.cursor + 1),
            old(self)@.cursor >= old(self)@.entries.len() ==> r is None && final(self)@.cursor
                == old(self)@.cursor,
    {
        if self.i >= self.entries.len() {
            None
        } else {
            let e = self.entries[self.i].clone();
            self.i = self.i + 1;
            Some(e)
        }
    }
}

} // verus!
