//! Extracting a zip archive held in memory: its entries are listed in archive order,
//! planned on their names, and only the files that will be written are decompressed.

use vstd::prelude::*;
use crate::extract::{action_for, has_no_traversal, is_quick_filter, lemma_quick_update_takes_allow_list, plan_extraction, progress_after, EntryAction, EntryFilter, ExtractStep};

verus! {

#[verifier::external_type_specification]
#[verifier::external_body]
#[verifier::reject_recursive_types(R)]
pub struct ExZipArchive<R>(zip::ZipArchive<R>);

#[verifier::external_type_specification]
#[verifier::external_body]
#[verifier::reject_recursive_types(T)]
pub struct ExCursor<T>(std::io::Cursor<T>);

#[verifier::external_type_specification]
#[verifier::external_body]
pub struct ExZipError(zip::result::ZipError);

/// An archive opened over bytes in memory.
pub type Archive = zip::ZipArchive<std::io::Cursor<Vec<u8>>>;

/// The entries zip lists in `bytes`, in archive order: the stored name reduced to its
/// normal path components (`mangled_name`, as text with `/` between components, as on
/// Unix), whether the entry is a directory, whether it is a regular file. `None` when
/// zip does not read `bytes` as an archive.
pub uninterp spec fn zip_listing(bytes: Seq<u8>) -> Option<Seq<(Seq<char>, bool, bool)>>;

/// Whether zip opens entry `index` of the archive in `bytes` for reading (`by_index`).
pub uninterp spec fn zip_opens(bytes: Seq<u8>, index: nat) -> bool;

/// The decompressed content of entry `index` of the archive in `bytes`; `None` when
/// zip cannot open or read it.
pub uninterp spec fn zip_content(bytes: Seq<u8>, index: nat) -> Option<Seq<u8>>;

/// The bytes an opened archive reads from.
pub uninterp spec fn zip_source(a: Archive) -> Seq<u8>;

/// The name and kind of one entry of an archive.
pub struct ArchiveEntry {
    pub name: String,
    pub is_dir: bool,
    pub is_file: bool,
}

/// Why an archive could not be extracted.
#[derive(Debug, Clone, Copy, PartialEq, Eq, Structural)]
pub enum ArchiveError {
    /// The bytes are not a zip archive.
    Malformed,
    /// The entry at this index could not be read.
    Entry(usize),
}

/// Relies on `zip::ZipArchive::new`, which reads the archive's central directory from
/// the bytes it is given; the names it lists, as `mangled_name` gives them, keep only
/// the normal components of the stored path.
#[verifier::external_body]
fn open_archive(bytes: Vec<u8>) -> (r: Result<Archive, zip::result::ZipError>)
    ensures
        r matches Ok(a) ==> zip_source(a) == bytes@ && zip_listing(bytes@) is Some,
        r is Ok ==> forall|i: int|
            0 <= i < zip_listing(bytes@)->0.len() ==> has_no_traversal(
                #[trigger] zip_listing(bytes@)->0[i].0,
            ),
        r is Err ==> zip_listing(bytes@) is None,
{
    zip::ZipArchive::new(std::io::Cursor::new(bytes))
}

/// Relies on `zip::ZipArchive::len`: the number of entries listed.
#[verifier::external_body]
fn archive_len(a: &Archive) -> (r: usize)
    requires
        zip_listing(zip_source(*a)) is Some,
    ensures
        r == zip_listing(zip_source(*a))->0.len(),
{
    a.len()
}

/// Relies on `zip::ZipArchive::by_index` and, on the entry it gives, `mangled_name`,
/// `is_dir` and `is_file`.
#[verifier::external_body]
fn entry_info(a: &mut Archive, index: usize) -> (r: Result<ArchiveEntry, zip::result::ZipError>)
    requires
        zip_listing(zip_source(*old(a))) is Some,
        index < zip_listing(zip_source(*old(a)))->0.len(),
    ensures
        zip_source(*final(a)) == zip_source(*old(a)),
        r is Ok <==> zip_opens(zip_source(*old(a)), index as nat),
        r matches Ok(e) ==> entry_view(e) == zip_listing(zip_source(*old(a)))->0[index as int],
{
    let file = a.by_index(index)?;
    let name = file.mangled_name().to_string_lossy().into_owned();
    Ok(ArchiveEntry { name, is_dir: file.is_dir(), is_file: file.is_file() })
}

/// Relies on `zip::ZipArchive::by_index` and reading the entry it gives to the end.
#[verifier::external_body]
fn entry_content(a: &mut Archive, index: usize) -> (r: Result<Vec<u8>, zip::result::ZipError>)
    requires
        zip_listing(zip_source(*old(a))) is Some,
        index < zip_listing(zip_source(*old(a)))->0.len(),
    ensures
        zip_source(*final(a)) == zip_source(*old(a)),
        r matches Ok(d) ==> zip_content(zip_source(*old(a)), index as nat) == Some(d@),
        r is Err ==> zip_content(zip_source(*old(a)), index as nat) is None,
{
    let mut file = a.by_index(index)?;
    let mut data = Vec::new();
    std::io::Read::read_to_end(&mut file, &mut data)?;
    Ok(data)
}

/// The name and kind of an entry.
pub open spec fn entry_view(e: ArchiveEntry) -> (Seq<char>, bool, bool) {
    (e.name@, e.is_dir, e.is_file)
}

/// The step extraction takes for each entry, and the content of each file it writes
/// (empty for the other entries).
pub struct Extraction {
    pub entries: Vec<ArchiveEntry>,
    pub steps: Vec<ExtractStep>,
    pub contents: Vec<Vec<u8>>,
}

/// Extraction writes the entry listed as `e`: a file that the filter takes and whose
/// name stays inside the root.
pub open spec fn writes_entry(e: (Seq<char>, bool, bool), filter: EntryFilter) -> bool {
    crate::extract::stays_inside(e.0) && crate::extract::filter_takes(filter, e.0) && !e.1 && e.2
}

/// Every entry of the archive in `bytes` opens, and every file that extraction
/// writes can be read.
pub open spec fn extractable(bytes: Seq<u8>, filter: EntryFilter) -> bool {
    &&& zip_listing(bytes) is Some
    &&& forall|i: nat| i < zip_listing(bytes)->0.len() ==> #[trigger] zip_opens(bytes, i)
    &&& forall|i: nat|
        i < zip_listing(bytes)->0.len() && writes_entry(zip_listing(bytes)->0[i as int], filter)
            ==> #[trigger] zip_content(bytes, i) is Some
}

/// Plans the extraction of the zip archive in `bytes` under `root` with `filter`, and
/// reads the content of each file it will write. Entries the filter leaves out are
/// never decompressed.
pub fn extract_archive(bytes: Vec<u8>, root: &str, filter: &EntryFilter) -> (r: Result<
    Extraction,
    ArchiveError,
>)
    ensures
        zip_listing(bytes@) is None ==> r == Err::<Extraction, ArchiveError>(ArchiveError::Malformed),
        zip_listing(bytes@) is Some ==> !(r matches Err(ArchiveError::Malformed)),
        extractable(bytes@, *filter) ==> r is Ok,
        r matches Err(ArchiveError::Entry(k)) ==> zip_listing(bytes@) is Some && k
            < zip_listing(bytes@)->0.len() && (!zip_opens(bytes@, k as nat) || (writes_entry(
            zip_listing(bytes@)->0[k as int],
            *filter,
        ) && zip_content(bytes@, k as nat) is None)),
        r matches Ok(x) ==> zip_listing(bytes@) is Some && x.entries@.len() == zip_listing(
            bytes@,
        )->0.len() && x.steps@.len() == x.entries@.len() && x.contents@.len()
            == x.entries@.len() && forall|i: int|
            0 <= i < x.entries@.len() ==> entry_view(#[trigger] x.entries@[i]) == zip_listing(
                bytes@,
            )->0[i] && has_no_traversal(x.entries@[i].name@) && action_for(
                x.entries@[i],
                root@,
                *filter,
                x.steps@[i].action,
            ) && x.steps@[i].progress == progress_after(i, x.entries@.len() as int) && (if x.steps@[i].action is WriteFile {
                zip_content(bytes@, i as nat) == Some(x.contents@[i]@)
            } else {
                x.contents@[i]@.len() == 0
            }),
{
    let ghost src = bytes@;
    let mut archive = match open_archive(bytes) {
        Ok(a) => a,
        Err(_) => return Err(ArchiveError::Malformed),
    };
    let n = archive_len(&archive);
    let ghost listing = zip_listing(src)->0;
    let mut entries: Vec<ArchiveEntry> = Vec::new();
    let mut i: usize = 0;
    while i < n
        invariant
            zip_source(archive) == src,
            src == bytes@,
            zip_listing(src) == Some(listing),
            forall|j: int| 0 <= j < listing.len() ==> has_no_traversal(#[trigger] listing[j].0),
            n == listing.len(),
            i <= n,
            entries@.len() == i,
            forall|j: nat| j < i ==> #[trigger] zip_opens(src, j),
            forall|j: int|
                0 <= j < i ==> entry_view(#[trigger] entries@[j]) == listing[j] && has_no_traversal(
                    entries@[j].name@,
                ),
        decreases n - i,
    {
        match entry_info(&mut archive, i) {
            Ok(e) => {
                assert(has_no_traversal(listing[i as int].0));
                entries.push(e);
            },
            Err(_) => return Err(ArchiveError::Entry(i)),
        }
        i = i + 1;
    }
    let steps = plan_extraction(&entries, root, filter);
    let mut contents: Vec<Vec<u8>> = Vec::new();
    let mut k: usize = 0;
    while k < n
        invariant
            zip_source(archive) == src,
            src == bytes@,
            zip_listing(src) == Some(listing),
            n == listing.len(),
            entries@.len() == n,
            steps@.len() == n,
            k <= n,
            contents@.len() == k,
            forall|j: nat| j < n ==> #[trigger] zip_opens(src, j),
            forall|j: int|
                0 <= j < n ==> entry_view(#[trigger] entries@[j]) == listing[j] && has_no_traversal(
                    entries@[j].name@,
                ) && action_for(entries@[j], root@, *filter, steps@[j].action)
                    && steps@[j].progress == progress_after(j, n as int),
            forall|j: int|
                0 <= j < k ==> (if (#[trigger] steps@[j]).action is WriteFile {
                    zip_content(src, j as nat) == Some(contents@[j]@)
                } else {
                    contents@[j]@.len() == 0
                }),
        decreases n - k,
    {
        let writes = match &steps[k].action {
            EntryAction::WriteFile(_) => true,
            _ => false,
        };
        if writes {
            match entry_content(&mut archive, k) {
                Ok(d) => contents.push(d),
                Err(_) => {
                    assert(entry_view(entries@[k as int]) == listing[k as int]);
                    return Err(ArchiveError::Entry(k));
                },
            }
        } else {
            contents.push(Vec::new());
        }
        k = k + 1;
    }
    Ok(Extraction { entries, steps, contents })
}

/// A quick update of an archive writes exactly its directories and files whose
/// paths start with `MinUI.zip` or `trimui`; every other entry is skipped. The
/// premises are what [`extract_archive`] promises of a successful extraction.
pub proof fn lemma_quick_extraction(x: Extraction, root: Seq<char>, filter: EntryFilter)
    requires
        is_quick_filter(filter),
        x.steps@.len() == x.entries@.len(),
        forall|i: int|
            0 <= i < x.entries@.len() ==> has_no_traversal((#[trigger] x.entries@[i]).name@)
                && action_for(x.entries@[i], root, filter, x.steps@[i].action),
    ensures
        forall|i: int|
            0 <= i < x.entries@.len() ==> (!((#[trigger] x.steps@[i]).action is Skip) <==> ((
            x.entries@[i].is_dir || x.entries@[i].is_file) && ("MinUI.zip"@.is_prefix_of(
                x.entries@[i].name@,
            ) || "trimui"@.is_prefix_of(x.entries@[i].name@)))),
{
    assert forall|i: int| 0 <= i < x.entries@.len() implies (!((#[trigger] x.steps@[i]).action is Skip)
        <==> ((x.entries@[i].is_dir || x.entries@[i].is_file) && ("MinUI.zip"@.is_prefix_of(
        x.entries@[i].name@,
    ) || "trimui"@.is_prefix_of(x.entries@[i].name@)))) by {
        lemma_quick_update_takes_allow_list(x.entries@[i], root, filter, x.steps@[i].action);
    }
}

} // verus!
