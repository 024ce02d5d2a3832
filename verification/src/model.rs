use vstd::prelude::*;

verus! {

/// Supported archive container formats.
#[derive(Debug, Clone, Copy, PartialEq, Eq, Structural)]
pub enum ArcFormat {
    Zip,
    Tar,
    Sevenz,
}

/// Mathematical model of one archive member: a file with a name and its
/// fully decoded content, or a directory known by name alone.
#[verifier::ext_equal]
pub enum EntryModel {
    File { name: Seq<char>, data: Seq<u8> },
    Directory { name: Seq<char> },
}

/// One archive member: a file with a name and its content bytes, or a
/// directory with a name. Equality is structural; names are opaque strings
/// and are not normalized across formats.
#[derive(Debug, PartialEq)]
pub enum ArcEntry {
    File(String, Vec<u8>),
    Directory(String),
}

impl View for ArcEntry {
    type V = EntryModel;

    open spec fn view(&self) -> EntryModel {
        match self {
            ArcEntry::File(name, data) => EntryModel::File { name: name@, data: data@ },
            ArcEntry::Directory(name) => EntryModel::Directory { name: name@ },
        }
    }
}

/// Byte-for-byte copy of a byte vector.
fn clone_bytes(d: &Vec<u8>) -> (r: Vec<u8>)
    ensures
        r@ == d@,
{
    let mut r: Vec<u8> = Vec::new();
    let mut i: usize = 0;
    while i < d.len()
        invariant
            i <= d@.len(),
            r@ == d@.subrange(0, i as int),
        decreases d@.len() - i,
    {
        r.push(d[i]);
        proof {
            assert(r@ =~= d@.subrange(0, i + 1 as int));
        }
        i = i + 1;
    }
    proof {
        assert(r@ =~= d@);
    }
    r
}

impl Clone for ArcEntry {
    fn clone(&self) -> (r: Self)
        ensures
            r@ == self@,
    {
        match self {
            ArcEntry::File(name, data) => ArcEntry::File(name.clone(), clone_bytes(data)),
            ArcEntry::Directory(name) => ArcEntry::Directory(name.clone()),
        }
    }
}

/// The models of a sequence of entries, in order.
pub open spec fn views_of(s: Seq<ArcEntry>) -> Seq<EntryModel> {
    s.map_values(|e: ArcEntry| e@)
}

/// The name carried by an entry, whichever variant it is.
pub open spec fn entry_name(e: EntryModel) -> Seq<char> {
    match e {
        EntryModel::File { name, data } => name,
        EntryModel::Directory { name } => name,
    }
}

/// A name whose last character is one of the separators that the zip format
/// treats as marking a directory.
pub open spec fn ends_with_separator(n: Seq<char>) -> bool {
    n.len() > 0 && (n.last() == '/' || n.last() == '\\')
}

/// The name under which zip stores a directory: a trailing slash is added
/// unless the name already ends with a separator.
pub open spec fn zip_dir_name(n: Seq<char>) -> Seq<char> {
    if ends_with_separator(n) {
        n
    } else {
        n.push('/')
    }
}

/// What a zip file record decodes to: the zip format marks directories by a
/// trailing separator in the name, so a file stored under such a name comes
/// back as a directory.
pub open spec fn zip_file_entry(n: Seq<char>, d: Seq<u8>) -> EntryModel {
    if ends_with_separator(n) {
        EntryModel::Directory { name: n }
    } else {
        EntryModel::File { name: n, data: d }
    }
}

/// True when a path component consisting of `.` or `..` begins at index `i`.
pub open spec fn dot_component_at(n: Seq<char>, i: int) -> bool {
    &&& (i == 0 || n[i - 1] == '/')
    &&& n[i] == '.'
    &&& (i + 1 == n.len() || n[i + 1] == '/' || (n[i + 1] == '.' && (i + 2 == n.len() || n[i + 2]
        == '/')))
}

/// A name that the tar codec stores byte for byte: nonempty, relative,
/// without a trailing slash, empty components, or `.`/`..` components.
/// Other names are rewritten or rejected by the codec's path handling.
pub open spec fn tar_name_ok(n: Seq<char>) -> bool {
    &&& 0 < n.len()
    &&& n.first() != '/'
    &&& n.last() != '/'
    &&& forall|i: int| #![trigger n[i]] 0 <= i < n.len() - 1 ==> !(n[i] == '/' && n[i + 1] == '/')
    &&& forall|i: int| 0 <= i < n.len() ==> !dot_component_at(n, i)
}

/// The file entries of a sequence, in order.
pub open spec fn files_of(s: Seq<EntryModel>) -> Seq<EntryModel>
    decreases s.len(),
{
    if s.len() == 0 {
        Seq::empty()
    } else if s.last() is File {
        files_of(s.drop_last()).push(s.last())
    } else {
        files_of(s.drop_last())
    }
}

/// The directory entries of a sequence, in order.
pub open spec fn dirs_of(s: Seq<EntryModel>) -> Seq<EntryModel>
    decreases s.len(),
{
    if s.len() == 0 {
        Seq::empty()
    } else if s.last() is Directory {
        dirs_of(s.drop_last()).push(s.last())
    } else {
        dirs_of(s.drop_last())
    }
}

/// How one entry comes back from an encode/decode cycle in the given format.
/// Zip marks directories by a trailing separator in the stored name; tar and
/// 7z keep names verbatim.
pub open spec fn normalize_entry(f: ArcFormat, e: EntryModel) -> EntryModel {
    match f {
        ArcFormat::Zip => match e {
            EntryModel::Directory { name } => EntryModel::Directory { name: zip_dir_name(name) },
            EntryModel::File { name, data } => zip_file_entry(name, data),
        },
        ArcFormat::Tar => e,
        ArcFormat::Sevenz => e,
    }
}

/// How a whole entry sequence comes back from an encode/decode cycle.
/// The 7z codec stores directories without content streams and its decoder
/// visits stream-backed entries first, so directories come back after all
/// files; zip and tar keep the stored order.
pub open spec fn normalize_entries(f: ArcFormat, s: Seq<EntryModel>) -> Seq<EntryModel> {
    match f {
        ArcFormat::Sevenz => files_of(s) + dirs_of(s),
        _ => s.map_values(|e: EntryModel| normalize_entry(f, e)),
    }
}

/// The inputs for which the encoder's per-entry contracts are exact: tar
/// stores only names in the normal form of `tar_name_ok` byte for byte;
/// zip and 7z accept any name.
pub open spec fn encodes_cleanly(f: ArcFormat, s: Seq<EntryModel>) -> bool {
    f == ArcFormat::Tar ==> forall|i: int|
        0 <= i < s.len() ==> tar_name_ok(entry_name(#[trigger] s[i]))
}

/// Every row of the sequence, wrapped in `Some`.
pub open spec fn seq_somes(s: Seq<EntryModel>) -> Seq<Option<EntryModel>> {
    s.map_values(|e: EntryModel| Some(e))
}

} // verus!
