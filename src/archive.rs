use vstd::prelude::*;
use vstd::string::*;
use std::io::Cursor;
use std::io::Read;
use zip::result::ZipError;
use zip::ZipArchive;
use crate::error::AppError;
use crate::text::prefixed;

verus! {

#[verifier::external_type_specification]
#[verifier::external_body]
#[verifier::reject_recursive_types(R)]
pub struct ExZipArchive<R>(ZipArchive<R>);

#[verifier::external_type_specification]
#[verifier::external_body]
pub struct ExZipError(ZipError);

#[verifier::external_type_specification]
#[verifier::external_body]
#[verifier::reject_recursive_types(T)]
pub struct ExCursor<T>(Cursor<T>);

/// An archive read from bytes held in memory.
pub type MemArchive = ZipArchive<Cursor<Vec<u8>>>;

/// What the extractor reads of one archived entry.
pub struct ArchiveEntry {
    /// The name as stored in the archive.
    pub name: String,
    /// The stored name as a relative path that does not leave the archive's
    /// root, when the archive library accepts it as one.
    pub enclosed: Option<String>,
    /// The Unix permission bits, when the archive records them.
    pub unix_mode: Option<u32>,
    /// The entry's uncompressed contents.
    pub data: Vec<u8>,
}

/// One write into the extraction directory, at a path relative to it.
#[derive(Debug)]
pub enum ExtractStep {
    /// Create the directory (and its parents), then apply the mode if any.
    Dir(String, Option<u32>),
    /// Create the parents, write the file, then apply the mode if any.
    File(String, Vec<u8>, Option<u32>),
}

/// What an entry holds: its stored name, its enclosed path if any, its
/// Unix mode if any, and its contents.
pub type EntryView = (Seq<char>, Option<Seq<char>>, Option<u32>, Seq<u8>);

impl View for ArchiveEntry {
    type V = EntryView;

    open spec fn view(&self) -> EntryView {
        let enclosed = match self.enclosed {
            Some(p) => Some(p@),
            None => None,
        };
        (self.name@, enclosed, self.unix_mode, self.data@)
    }
}

/// A planned write as the rules speak of it.
pub enum StepView {
    Dir(Seq<char>, Option<u32>),
    File(Seq<char>, Seq<u8>, Option<u32>),
}

impl StepView {
    pub open spec fn path(&self) -> Seq<char> {
        match self {
            StepView::Dir(p, _) => *p,
            StepView::File(p, _, _) => *p,
        }
    }
}

impl View for ExtractStep {
    type V = StepView;

    open spec fn view(&self) -> StepView {
        match self {
            ExtractStep::Dir(p, m) => StepView::Dir(p@, *m),
            ExtractStep::File(p, d, m) => StepView::File(p@, d@, *m),
        }
    }
}

/// The view of a write that may be absent.
pub open spec fn opt_step_view(s: Option<ExtractStep>) -> Option<StepView> {
    match s {
        Some(x) => Some(x@),
        None => None,
    }
}

/// The views of a sequence of planned writes.
pub open spec fn steps_view(s: Seq<ExtractStep>) -> Seq<StepView> {
    s.map_values(|x: ExtractStep| x@)
}

/// The views of a sequence of entries.
pub open spec fn entries_view(s: Seq<ArchiveEntry>) -> Seq<EntryView> {
    s.map_values(|x: ArchiveEntry| x@)
}

/// Whether a `..` segment starts at position `i` of a slash-separated path.
pub open spec fn parent_segment_at(p: Seq<char>, i: int) -> bool {
    &&& 0 <= i
    &&& i + 2 <= p.len()
    &&& p[i] == '.'
    &&& p[i + 1] == '.'
    &&& (i == 0 || p[i - 1] == '/')
    &&& (i + 2 == p.len() || p[i + 2] == '/')
}

/// A relative path that stays inside the directory it is joined to: it does
/// not start at the file-system root and has no `..` segment.
pub open spec fn confined(p: Seq<char>) -> bool {
    &&& (p.len() == 0 || p[0] != '/')
    &&& forall|i: int| !parent_segment_at(p, i)
}

/// Whether a stored name denotes a directory.
pub open spec fn names_dir(name: Seq<char>) -> bool {
    name.len() > 0 && name.last() == '/'
}

/// The write that an entry leads to: none for an entry whose name is not a
/// confined path.
pub open spec fn step_of(e: EntryView) -> Option<StepView> {
    match e.1 {
        Some(p) => if confined(p) {
            if names_dir(e.0) {
                Some(StepView::Dir(p, e.2))
            } else {
                Some(StepView::File(p, e.3, e.2))
            }
        } else {
            None
        },
        None => None,
    }
}

/// The writes that a sequence of entries leads to, in archive order.
pub open spec fn plan_of(es: Seq<EntryView>) -> Seq<StepView>
    decreases es.len(),
{
    if es.len() == 0 {
        Seq::empty()
    } else {
        let rest = plan_of(es.drop_last());
        match step_of(es.last()) {
            Some(s) => rest.push(s),
            None => rest,
        }
    }
}

/// No planned write leaves the extraction directory: every path in the plan
/// of any archive's entries is confined.
pub proof fn planned_paths_are_confined(es: Seq<EntryView>)
    ensures
        forall|k: int| 0 <= k < plan_of(es).len() ==> confined(#[trigger] plan_of(es)[k].path()),
    decreases es.len(),
{
    if es.len() > 0 {
        planned_paths_are_confined(es.drop_last());
        let rest = plan_of(es.drop_last());
        match step_of(es.last()) {
            Some(s) => {
                assert(confined(s.path()));
                assert forall|k: int| 0 <= k < plan_of(es).len() implies confined(
                    #[trigger] plan_of(es)[k].path(),
                ) by {
                    if k < rest.len() {
                        assert(plan_of(es)[k] == rest[k]);
                    }
                }
            },
            None => {},
        }
    }
}

/// A confined path joined under a root directory stays under it: the joined
/// path begins with the root and a slash, and every `..` segment in it lies
/// within the root's own part.
pub proof fn joined_confined_path_stays_under_root(root: Seq<char>, p: Seq<char>)
    requires
        confined(p),
    ensures
        (root + "/"@ + p).subrange(0, root.len() as int + 1) == root + "/"@,
        forall|i: int| #[trigger] parent_segment_at(root + "/"@ + p, i) ==> i + 2 <= root.len(),
{
    reveal_strlit("/");
    let l = root.len() as int;
    let joined = root + "/"@ + p;
    assert(joined.subrange(0, l + 1) =~= root + "/"@);
    assert forall|i: int| #[trigger] parent_segment_at(joined, i) implies i + 2 <= l by {
        assert(joined[l] == '/');
        if i >= l + 1 {
            assert(joined[i] == p[i - l - 1]);
            assert(joined[i + 1] == p[i - l]);
            if i > l + 1 {
                assert(joined[i - 1] == p[i - l - 2]);
            }
            if i + 2 < joined.len() {
                assert(joined[i + 2] == p[i - l + 1]);
            }
            assert(parent_segment_at(p, i - l - 1));
        }
    }
}

/// Tells whether a relative path stays inside the directory it is joined to.
pub fn is_confined(p: &str) -> (r: bool)
    ensures
        r == confined(p@),
{
    let n = p.unicode_len();
    if n > 0 && p.get_char(0) == '/' {
        return false;
    }
    let mut i: usize = 0;
    while i < n
        invariant
            n == p@.len(),
            i <= n,
            forall|j: int| 0 <= j < i ==> !parent_segment_at(p@, j),
        decreases n - i,
    {
        if n - i >= 2 && p.get_char(i) == '.' && p.get_char(i + 1) == '.' {
            let opens = i == 0 || p.get_char(i - 1) == '/';
            let closes = n - i == 2 || p.get_char(i + 2) == '/';
            if opens && closes {
                assert(parent_segment_at(p@, i as int));
                return false;
            }
        }
        i = i + 1;
    }
    assert forall|j: int| !parent_segment_at(p@, j) by {
        if 0 <= j < n {
        }
    }
    true
}

/// Tells whether a stored name denotes a directory (ends with a slash).
pub fn is_dir_name(name: &str) -> (r: bool)
    ensures
        r == names_dir(name@),
{
    let n = name.unicode_len();
    n > 0 && name.get_char(n - 1) == '/'
}

/// The write that one archived entry leads to.
pub fn entry_step(e: ArchiveEntry) -> (r: Option<ExtractStep>)
    ensures
        opt_step_view(r) == step_of(e@),
{
    let ArchiveEntry { name, enclosed, unix_mode, data } = e;
    match enclosed {
        Some(p) => {
            if !is_confined(p.as_str()) {
                return None;
            }
            if is_dir_name(name.as_str()) {
                Some(ExtractStep::Dir(p, unix_mode))
            } else {
                Some(ExtractStep::File(p, data, unix_mode))
            }
        },
        None => None,
    }
}

/// The writes that the entries lead to, in order: entries whose names are
/// not confined paths are left out.
pub fn plan_extraction(entries: Vec<ArchiveEntry>) -> (r: Vec<ExtractStep>)
    ensures
        steps_view(r@) == plan_of(entries_view(entries@)),
{
    let ghost all = entries_view(entries@);
    let total = entries.len();
    let mut rest = entries;
    let mut steps: Vec<ExtractStep> = Vec::new();
    let mut i: usize = 0;
    while rest.len() > 0
        invariant
            i <= all.len(),
            all.len() == total,
            entries_view(rest@) == all.subrange(i as int, all.len() as int),
            steps_view(steps@) == plan_of(all.subrange(0, i as int)),
        decreases rest.len(),
    {
        assert(entries_view(rest@).len() == rest@.len());
        assert(i < all.len());
        let ghost before = rest@;
        let e = rest.remove(0);
        assert(e@ == all[i as int]) by {
            assert(entries_view(before)[0] == all.subrange(i as int, all.len() as int)[0]);
        }
        assert(all.subrange(0, i + 1).drop_last() =~= all.subrange(0, i as int));
        assert(all.subrange(0, i + 1).last() == all[i as int]);
        assert(entries_view(rest@) =~= all.subrange(i + 1, all.len() as int)) by {
            assert(rest@ =~= before.subrange(1, before.len() as int));
            assert forall|k: int| 0 <= k < rest@.len() implies entries_view(rest@)[k] == all.subrange(
                i + 1,
                all.len() as int,
            )[k] by {
                assert(entries_view(before)[k + 1] == all.subrange(i as int, all.len() as int)[k + 1]);
            }
        }
        let ghost old_steps = steps@;
        match entry_step(e) {
            Some(s) => {
                steps.push(s);
                assert(steps_view(steps@) =~= steps_view(old_steps).push(s@));
            },
            None => {},
        }
        i = i + 1;
    }
    assert(all.subrange(0, all.len() as int) =~= all);
    steps
}

/// Whether zip reads an archive's central directory from these bytes.
pub uninterp spec fn zip_opens(bytes: Seq<u8>) -> bool;

/// The number of entries that zip finds in an archive made of these bytes.
pub uninterp spec fn zip_len(bytes: Seq<u8>) -> nat;

/// What zip reads of entry `i` of an archive made of these bytes: its stored
/// name, its enclosed path, its Unix mode and its contents; none when the
/// entry cannot be read.
pub uninterp spec fn zip_entry(bytes: Seq<u8>, i: int) -> Option<EntryView>;

/// The bytes an archive was opened on.
pub uninterp spec fn opened_on(a: MemArchive) -> Seq<u8>;

/// Whether zip opens the bytes and reads every entry of them.
pub open spec fn zip_readable(bytes: Seq<u8>) -> bool {
    &&& zip_opens(bytes)
    &&& forall|i: int| 0 <= i < zip_len(bytes) ==> (#[trigger] zip_entry(bytes, i)) is Some
}

/// The entries that zip reads from the bytes, in archive order.
pub open spec fn zip_entries(bytes: Seq<u8>) -> Seq<EntryView> {
    Seq::new(zip_len(bytes), |i: int| zip_entry(bytes, i)->Some_0)
}

/// Relies on zip::ZipArchive::new: reads the archive's central directory
/// from the bytes held in memory, or fails; the outcome depends on the bytes
/// alone.
#[verifier::external_body]
fn open_archive(bytes: Vec<u8>) -> (r: Result<MemArchive, ZipError>)
    ensures
        r is Ok <==> zip_opens(bytes@),
        r is Ok ==> opened_on(r->Ok_0) == bytes@,
{
    ZipArchive::new(Cursor::new(bytes))
}

/// Relies on zip::ZipArchive::len: the number of entries in the archive.
#[verifier::external_body]
fn entry_count(a: &MemArchive) -> (r: usize)
    ensures
        r == zip_len(opened_on(*a)),
{
    a.len()
}

/// Relies on zip::ZipArchive::by_index and the entry it returns: its stored
/// name, `enclosed_name`, `unix_mode` and its contents read to the end.
#[verifier::external_body]
fn read_entry(a: &mut MemArchive, i: usize) -> (r: Result<ArchiveEntry, ZipError>)
    ensures
        opened_on(*final(a)) == opened_on(*old(a)),
        r is Ok <==> zip_entry(opened_on(*old(a)), i as int) is Some,
        r is Ok ==> zip_entry(opened_on(*old(a)), i as int) == Some(r->Ok_0@),
{
    let mut f = a.by_index(i)?;
    let name = f.name().map(|n| n.into_owned()).unwrap_or_default();
    let enclosed = f.enclosed_name().map(|p| p.to_string_lossy().into_owned());
    let unix_mode = f.unix_mode();
    let mut data = Vec::new();
    f.read_to_end(&mut data)?;
    Ok(ArchiveEntry { name, enclosed, unix_mode, data })
}

/// Relies on ZipError's Display impl: the error's description.
#[verifier::external_body]
fn zip_error_text(e: &ZipError) -> (r: String) {
    format!("{}", e)
}

/// An archive failure, described after a fixed label.
fn archive_error(label: &str, e: &ZipError) -> (r: AppError)
    ensures
        r is ZipError,
        exists|why: Seq<char>| r.detail() == label@ + why,
{
    let why = zip_error_text(e);
    AppError::ZipError(prefixed(label, why.as_str()))
}

/// The writes that unpack an archive held in memory: the plan of the entries
/// that zip reads from it, in order. It succeeds exactly when zip opens the
/// bytes and reads every entry; otherwise it fails with an archive error.
/// Every planned write lands at a confined path, so nothing is written
/// outside the extraction directory.
pub fn unzip_file(bytes: Vec<u8>) -> (r: Result<Vec<ExtractStep>, AppError>)
    ensures
        r is Ok <==> zip_readable(bytes@),
        match r {
            Ok(steps) => {
                &&& steps_view(steps@) == plan_of(zip_entries(bytes@))
                &&& forall|k: int| 0 <= k < steps.len() ==> confined(#[trigger] steps@[k]@.path())
            },
            Err(e) => e is ZipError,
        },
{
    let ghost b = bytes@;
    let mut archive = match open_archive(bytes) {
        Ok(a) => a,
        Err(e) => return Err(archive_error("Failed to read zip archive: ", &e)),
    };
    let n = entry_count(&archive);
    let mut entries: Vec<ArchiveEntry> = Vec::new();
    let mut i: usize = 0;
    while i < n
        invariant
            i <= n,
            n == zip_len(b),
            b == bytes@,
            zip_opens(b),
            opened_on(archive) == b,
            forall|j: int| 0 <= j < i ==> (#[trigger] zip_entry(b, j)) is Some,
            entries_view(entries@) == zip_entries(b).subrange(0, i as int),
        decreases n - i,
    {
        match read_entry(&mut archive, i) {
            Ok(e) => {
                let ghost before = entries@;
                entries.push(e);
                assert(entries_view(entries@) =~= entries_view(before).push(e@));
                assert(entries_view(entries@) =~= zip_entries(b).subrange(0, i + 1));
            },
            Err(e) => {
                assert(zip_entry(b, i as int) is None);
                assert(!zip_readable(b));
                return Err(archive_error("Failed to access zip entry: ", &e));
            },
        }
        i = i + 1;
    }
    assert(zip_entries(b).subrange(0, n as int) =~= zip_entries(b));
    let steps = plan_extraction(entries);
    proof {
        planned_paths_are_confined(zip_entries(b));
        assert forall|k: int| 0 <= k < steps.len() implies confined(#[trigger] steps@[k]@.path()) by {
            assert(steps_view(steps@)[k] == steps@[k]@);
        }
    }
    Ok(steps)
}

} // verus!
