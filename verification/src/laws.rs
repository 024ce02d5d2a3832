use vstd::prelude::*;

use crate::codec::parse_spec;
use crate::codec::reader_of;
use crate::detect::detect_spec;
use crate::model::dirs_of;
use crate::model::ends_with_separator;
use crate::model::normalize_entries;
use crate::model::normalize_entry;
use crate::model::ArcFormat;
use crate::model::EntryModel;

verus! {

/// A sequence consisting of file entries alone.
pub open spec fn all_files(s: Seq<EntryModel>) -> bool {
    forall|i: int| 0 <= i < s.len() ==> #[trigger] s[i] is File
}

/// Round trip: a buffer that signature sniffing classifies as format `f`
/// and whose decode in `f` yields a writer's normalized entries is read
/// back as exactly that format and that entry sequence. Together with
/// `ArcWriter::archive`, which guarantees the decode half for the buffers
/// it produces, and `ArcReader::new`, which yields `reader_of`, this is the
/// write-then-read law, modulo the per-format name and order normalization
/// of `normalize_entries`; content sniffing can misclassify a buffer whose
/// embedded data mimics another format's signature, so detection enters as
/// a hypothesis here and is exercised by tests.
pub proof fn lemma_round_trip(f: ArcFormat, entries: Seq<EntryModel>, bytes: Seq<u8>)
    requires
        detect_spec(bytes) == Some(f),
        parse_spec(f, bytes) == Some(normalize_entries(f, entries)),
    ensures
        reader_of(bytes) == Some((f, normalize_entries(f, entries))),
{
}

/// Serialization is structurally idempotent: two buffers produced from the
/// same entry list in the same format decode to the same entry sequence,
/// even where the buffers themselves differ (embedded timestamps). That the
/// two calls agree on success is carried by `ArcWriter::archive` itself:
/// 7z encoding always succeeds and zip encoding succeeds on every
/// `zip_encodable` list, while tar success additionally depends on host
/// identity metadata.
pub proof fn lemma_archive_idempotent(
    f: ArcFormat,
    entries: Seq<EntryModel>,
    b1: Seq<u8>,
    b2: Seq<u8>,
)
    requires
        parse_spec(f, b1) == Some(normalize_entries(f, entries)),
        parse_spec(f, b2) == Some(normalize_entries(f, entries)),
    ensures
        parse_spec(f, b1) == parse_spec(f, b2),
{
}

/// An all-file sequence holds no directory entries.
pub proof fn lemma_all_files_no_dirs(s: Seq<EntryModel>)
    requires
        all_files(s),
    ensures
        dirs_of(s) == Seq::<EntryModel>::empty(),
    decreases s.len(),
{
    if s.len() > 0 {
        assert(all_files(s.drop_last()));
        lemma_all_files_no_dirs(s.drop_last());
    }
}

/// Append-only accumulation: a pushed entry appends to the normalized
/// decode, in order. Zip and tar keep the stored order for every entry
/// sequence; for 7z, which hands directories back after all files, a
/// pushed directory always lands last, and a pushed file lands last
/// exactly when no directory was pushed before it.
pub proof fn lemma_append_accumulates(f: ArcFormat, entries: Seq<EntryModel>, e: EntryModel)
    requires
        f == ArcFormat::Sevenz ==> (e is Directory || dirs_of(entries) == Seq::<
            EntryModel,
        >::empty()),
    ensures
        normalize_entries(f, entries.push(e)) == normalize_entries(f, entries).push(
            normalize_entry(f, e),
        ),
{
    match f {
        ArcFormat::Sevenz => {
            assert(entries.push(e).drop_last() == entries);
            assert(normalize_entries(f, entries.push(e)) =~= normalize_entries(f, entries).push(
                e,
            ));
        },
        _ => {
            assert(normalize_entries(f, entries.push(e)) =~= normalize_entries(f, entries).push(
                normalize_entry(f, e),
            ));
        },
    }
}

/// Empty content handling: a zero-length file comes back from an encode and
/// decode cycle as a file with empty content, never as a directory — for
/// zip, provided its name does not end in a separator, since that format
/// marks directories by the stored name alone.
pub proof fn lemma_empty_file_stays_file(f: ArcFormat, name: Seq<char>)
    requires
        f == ArcFormat::Zip ==> !ends_with_separator(name),
    ensures
        normalize_entry(f, (EntryModel::File { name: name, data: Seq::empty() })) == (
        EntryModel::File { name: name, data: Seq::empty() }),
{
}

/// In the 7z decode order, files precede directories but each group keeps
/// its push order; a file pushed after files alone therefore stands last.
pub proof fn lemma_sevenz_files_keep_order(entries: Seq<EntryModel>, e: EntryModel)
    requires
        e is File,
        all_files(entries),
    ensures
        normalize_entries(ArcFormat::Sevenz, entries.push(e)) == normalize_entries(
            ArcFormat::Sevenz,
            entries,
        ).push(e),
{
    lemma_all_files_no_dirs(entries);
    lemma_append_accumulates(ArcFormat::Sevenz, entries, e);
}

} // verus!
