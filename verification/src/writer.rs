use vstd::prelude::*;

use crate::codec::parse_spec;
use crate::error::ArcResult;
use crate::model::encodes_cleanly;
use crate::model::normalize_entries;
use crate::model::views_of;
use crate::model::ArcEntry;
use crate::model::ArcFormat;
use crate::model::EntryModel;

verus! {

/// Accumulates entries in insertion order and serializes them on demand
/// into the format chosen at construction. The entry list grows only by
/// appension; serialization never consumes it.
pub struct ArcWriter {
    pub format: ArcFormat,
    entries: Vec<ArcEntry>,
}

/// The model of a writer: its format tag and its entries in push order.
pub struct WriterModel {
    pub format: ArcFormat,
    pub entries: Seq<EntryModel>,
}

impl View for ArcWriter {
    type V = WriterModel;

    closed spec fn view(&self) -> WriterModel {
        WriterModel { format: self.format, entries: views_of(self.entries@) }
    }
}

impl ArcWriter {
    /// Returns a new writer for the specified archive format, holding no
    /// entries yet. Never fails.
    pub fn new(format: ArcFormat) -> (w: ArcWriter)
        ensures
            w@.format == format,
            w@.entries == Seq::<EntryModel>::empty(),
    {
        let w = ArcWriter { format, entries: Vec::new() };
        proof {
            assert(views_of(w.entries@) =~= Seq::<EntryModel>::empty());
        }
        w
    }

    /// Adds an entry to the writer. No validation is applied to the name.
    pub fn push(&mut self, entry: ArcEntry)
        ensures
            final(self)@.format == old(self)@.format,
            final(self)@.entries == old(self)@.entries.push(entry@),
    {
        let ghost prev = self.entries@;
        let ghost m = entry@;
        self.entries.push(entry);
        proof {
            assert(views_of(self.entries@) =~= views_of(prev).push(m));
        }
    }

    /// Adds all entries from the slice to the writer, in order; equivalent
    /// to pushing each in turn.
    pub fn extend(&mut self, entries: &[ArcEntry])
        ensures
            final(self)@.format == old(self)@.format,
            final(self)@.entries == old(self)@.entries + views_of(entries@),
    {
        let mut i: usize = 0;
        while i < entries.len()
            invariant
                i <= entries@.len(),
                self@.format == old(self)@.format,
                self@.entries == old(self)@.entries + views_of(entries@.subrange(0, i as int)),
            decreases entries@.len() - i,
        {
            let e = entries[i].clone();
            let ghost m = e@;
            self.push(e);
            proof {
                assert(old(self)@.entries + views_of(entries@.subrange(0, i + 1)) =~= (old(
                    self,
                )@.entries + views_of(entries@.subrange(0, i as int))).push(m));
            }
            i = i + 1;
        }
        proof {
            assert(entries@.subrange(0, entries@.len() as int) =~= entries@);
        }
    }

    /// Creates the finished archive: serializes the current entry list, in
    /// stored order, into the configured format's container, and hands back
    /// the finalized buffer. Read-only on the writer: it may be called
    /// repeatedly, each call producing an independently finalized buffer.
    /// Over the in-memory sinks, 7z encoding always succeeds and zip
    /// encoding succeeds on every `zip_encodable` entry list; tar encoding
    /// additionally depends on host identity metadata. A failure carries
    /// the configured format's codec error kind, propagated unchanged.
    pub fn archive(&self) -> (r: ArcResult<Vec<u8>>)
        ensures
            r matches Ok(out) ==> (encodes_cleanly(self@.format, self@.entries) ==> parse_spec(
                self@.format,
                out@,
            ) == Some(normalize_entries(self@.format, self@.entries))),
            self@.format == ArcFormat::Sevenz ==> r is Ok,
            self@.format == ArcFormat::Zip && crate::zip_codec::zip_encodable(self@.entries)
                ==> r is Ok,
            r matches Err(e) ==> crate::codec::codec_err_wf(self@.format, e),
    {
        match self.format {
            ArcFormat::Zip => crate::zip_codec::archive_zip(&self.entries),
            ArcFormat::Tar => {
                let r = crate::tar_codec::archive_tar(&self.entries);
                proof {
                    assert(normalize_entries(ArcFormat::Tar, self@.entries) =~= self@.entries);
                }
                r
            },
            ArcFormat::Sevenz => crate::sevenz_codec::archive_7z(&self.entries),
        }
    }
}

} // verus!
