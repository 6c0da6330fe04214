//! The archive installer's planning half: decodes a fetched package
//! buffer, remaps every entry's internal path by dropping the packaging
//! tool's fixed-length wrapper directory, and refuses any entry whose
//! remapped path could escape the target directory.  The plan lists, in
//! package order, which directories to create and which files to write
//! with which bytes; materializing it on disk is the surrounding
//! process's part.  The whole outcome — the plan, or which error — is a
//! function of the buffer alone.

use vstd::prelude::*;
use vstd::string::*;

use crate::text::str_contains_char;

verus! {

/// The length of the wrapper directory segment (such as `main/`) that
/// every entry name of a fetched package carries and extraction drops.
pub const WRAPPER_DIR_LEN: usize = 5;

/// Why a fetched buffer cannot be extracted.
#[derive(Clone, Copy, Debug, PartialEq, Eq, Structural)]
pub enum ExtractError {
    /// The buffer is not a readable archive, or an entry of it cannot be
    /// decompressed.
    MalformedArchive,
    /// An entry's name is too short to carry the wrapper directory, or its
    /// remapped path could escape the target directory.
    UnsafeEntryName,
}

/// One planned placement: a path relative to the target directory, whether
/// it is a directory to create or a file to write, and the file's bytes.
#[derive(Debug)]
pub struct PlannedEntry {
    pub path: String,
    pub is_dir: bool,
    pub data: Vec<u8>,
}

/// The mathematical content of a [`PlannedEntry`].
pub ghost struct EntryFields {
    pub path: Seq<char>,
    pub is_dir: bool,
    pub data: Seq<u8>,
}

impl View for PlannedEntry {
    type V = EntryFields;

    open spec fn view(&self) -> EntryFields {
        EntryFields { path: self.path@, is_dir: self.is_dir, data: self.data@ }
    }
}

/// What a package buffer decodes to: its entries in package order, each an
/// internal name and the entry's decompressed bytes; nothing when the
/// buffer is not a readable archive or an entry does not decompress.
pub uninterp spec fn zip_decoded(data: Seq<u8>) -> Option<Seq<(Seq<char>, Seq<u8>)>>;

/// The name and bytes of each decoded entry.
pub open spec fn entry_views(es: Seq<(String, Vec<u8>)>) -> Seq<(Seq<char>, Seq<u8>)> {
    es.map_values(|e: (String, Vec<u8>)| (e.0@, e.1@))
}

/// Relies on `zip::read::ZipArchive`'s `new`, `len` and `by_index`: the
/// buffer's central directory lists the entries in index order, and each
/// entry reads to its decoded name and fully decompressed bytes.  The
/// outcome — the entries, or that opening or some entry's decompression
/// fails — depends on the buffer alone.
#[verifier::external_body]
fn decode_archive(data: Vec<u8>) -> (r: Option<Vec<(String, Vec<u8>)>>)
    ensures
        match r {
            Some(es) => zip_decoded(data@) == Some(entry_views(es@)),
            None => zip_decoded(data@) is None,
        },
{
    let mut ar = zip::read::ZipArchive::new(std::io::Cursor::new(data)).ok()?;
    let mut out = Vec::new();
    for i in 0..ar.len() {
        let mut f = ar.by_index(i).ok()?;
        let name = f.name().to_string();
        let mut bytes = Vec::new();
        std::io::Read::read_to_end(&mut f, &mut bytes).ok()?;
        out.push((name, bytes));
    }
    Some(out)
}

/// Whether an internal name denotes a directory: it ends in the path
/// separator.
pub open spec fn spec_entry_is_dir(name: Seq<char>) -> bool {
    name.len() > 0 && name.last() == '/'
}

/// Whether position `i` of a remapped path starts a `..` component.
pub open spec fn spec_dotdot_at(p: Seq<char>, i: int) -> bool {
    &&& 0 <= i
    &&& i + 2 <= p.len()
    &&& p[i] == '.'
    &&& p[i + 1] == '.'
    &&& (i == 0 || p[i - 1] == '/')
    &&& (i + 2 == p.len() || p[i + 2] == '/')
}

/// Whether a remapped path could resolve outside the target directory: it
/// is absolute, some `/`-separated component of it is `..`, or it carries
/// a backslash or a colon — which a platform that separates on `\` or
/// knows drive letters would read as the `/`-based component check here
/// cannot.
pub open spec fn spec_path_escapes(p: Seq<char>) -> bool {
    ||| p.len() > 0 && p[0] == '/'
    ||| exists|i: int| spec_dotdot_at(p, i)
    ||| p.contains('\\')
    ||| p.contains(':')
}

/// Where an entry is placed: its name with the wrapper directory dropped,
/// and whether it is a directory.  Nothing, when the name is too short to
/// carry the wrapper directory, when a file's remapped path is empty, or
/// when the remapped path could escape the target directory.
pub open spec fn spec_remap(name: Seq<char>) -> Option<(Seq<char>, bool)> {
    if name.len() < WRAPPER_DIR_LEN {
        None
    } else {
        let rest = name.skip(WRAPPER_DIR_LEN as int);
        let dir = spec_entry_is_dir(name);
        if !dir && rest.len() == 0 {
            None
        } else if spec_path_escapes(rest) {
            None
        } else {
            Some((rest, dir))
        }
    }
}

/// The placements a package's entries plan to, in package order; nothing
/// when any entry's remapping is refused.
pub open spec fn spec_plan(entries: Seq<(Seq<char>, Seq<u8>)>) -> Option<Seq<EntryFields>>
    decreases entries.len(),
{
    if entries.len() == 0 {
        Some(Seq::empty())
    } else {
        match spec_plan(entries.drop_last()) {
            None => None,
            Some(plan) => match spec_remap(entries.last().0) {
                None => None,
                Some(rp) => Some(
                    plan.push(EntryFields { path: rp.0, is_dir: rp.1, data: entries.last().1 }),
                ),
            },
        }
    }
}

/// What extracting a buffer yields: the planned placements of its decoded
/// entries, the malformed-archive error when it does not decode, or the
/// unsafe-entry error when some entry's remapping is refused.
pub open spec fn spec_extraction(data: Seq<u8>) -> Result<Seq<EntryFields>, ExtractError> {
    match zip_decoded(data) {
        None => Err(ExtractError::MalformedArchive),
        Some(es) => match spec_plan(es) {
            None => Err(ExtractError::UnsafeEntryName),
            Some(plan) => Ok(plan),
        },
    }
}

/// One refused entry fails the whole plan.
proof fn lemma_plan_none_from_bad_entry(entries: Seq<(Seq<char>, Seq<u8>)>, i: int)
    requires
        0 <= i < entries.len(),
        spec_remap(entries[i].0) is None,
    ensures
        spec_plan(entries) is None,
    decreases entries.len(),
{
    if i < entries.len() - 1 {
        lemma_plan_none_from_bad_entry(entries.drop_last(), i);
    }
}

fn path_escapes(p: &str) -> (r: bool)
    ensures
        r == spec_path_escapes(p@),
{
    let len = p.unicode_len();
    if len > 0 && p.get_char(0) == '/' {
        return true;
    }
    if str_contains_char(p, '\\') || str_contains_char(p, ':') {
        return true;
    }
    if len < 2 {
        return false;
    }
    let mut i: usize = 0;
    while i <= len - 2
        invariant
            0 <= i,
            2 <= len == p@.len(),
            forall|k: int| 0 <= k < i ==> !spec_dotdot_at(p@, k),
        decreases len - i,
    {
        if p.get_char(i) == '.' && p.get_char(i + 1) == '.' && (i == 0 || p.get_char(i - 1) == '/')
            && (i + 2 == len || p.get_char(i + 2) == '/') {
            assert(spec_dotdot_at(p@, i as int));
            return true;
        }
        i = i + 1;
    }
    proof {
        assert forall|k: int| !spec_dotdot_at(p@, k) by {
            if 0 <= k && k + 2 <= p@.len() {
                assert(k < i);
            }
        }
    }
    false
}

/// Remaps one entry's internal name to its placement, refusing a name the
/// plan cannot hold.
pub fn remap_entry(name: &str) -> (r: Option<(String, bool)>)
    ensures
        match r {
            Some(p) => spec_remap(name@) == Some((p.0@, p.1)),
            None => spec_remap(name@) is None,
        },
{
    let len = name.unicode_len();
    if len < WRAPPER_DIR_LEN {
        return None;
    }
    let is_dir = name.get_char(len - 1) == '/';
    let rest = name.substring_char(WRAPPER_DIR_LEN, len).to_owned();
    proof {
        assert(rest@ =~= name@.skip(WRAPPER_DIR_LEN as int));
    }
    if !is_dir && rest.as_str().unicode_len() == 0 {
        return None;
    }
    if path_escapes(rest.as_str()) {
        return None;
    }
    Some((rest, is_dir))
}

/// Interprets a fetched buffer as a package and plans its extraction: one
/// placement per entry, in package order, each remapped by
/// [`remap_entry`].  The result is exactly [`spec_extraction`] of the
/// buffer: the plan when the buffer decodes and every entry remaps; the
/// malformed-archive error when it does not decode or an entry does not
/// decompress; the unsafe-entry error when some entry's remapping is
/// refused, so nothing escaping the target is ever placed.
pub fn plan_extraction(data: Vec<u8>) -> (r: Result<Vec<PlannedEntry>, ExtractError>)
    ensures
        match r {
            Ok(p) => spec_extraction(data@) == Ok::<_, ExtractError>(
                p@.map_values(|e: PlannedEntry| e@),
            ),
            Err(e) => spec_extraction(data@) == Err::<Seq<EntryFields>, _>(e),
        },
{
    let mut rest = match decode_archive(data) {
        Some(es) => es,
        None => {
            return Err(ExtractError::MalformedArchive);
        },
    };
    let ghost ges = zip_decoded(data@)->Some_0;
    proof {
        assert(ges == entry_views(rest@));
    }
    let mut out: Vec<PlannedEntry> = Vec::new();
    while rest.len() > 0
        invariant
            out@.len() + rest@.len() == ges.len(),
            ges.skip(out@.len() as int) == entry_views(rest@),
            spec_plan(ges.take(out@.len() as int)) == Some(out@.map_values(|e: PlannedEntry| e@)),
            zip_decoded(data@) == Some(ges),
        decreases rest@.len(),
    {
        let ghost n = out@.len() as int;
        let ghost old_rest = rest@;
        let e = rest.remove(0);
        proof {
            assert((e.0@, e.1@) == entry_views(old_rest)[0]);
            assert((e.0@, e.1@) == ges[n]);
            assert(rest@ =~= old_rest.skip(1));
            assert(entry_views(rest@) =~= ges.skip(n + 1)) by {
                assert forall|j: int| 0 <= j < rest@.len() implies entry_views(rest@)[j]
                    == ges.skip(n + 1)[j] by {
                    assert(entry_views(rest@)[j] == entry_views(old_rest)[j + 1]);
                    assert(entry_views(old_rest)[j + 1] == ges.skip(n)[j + 1]);
                }
            }
            assert(ges.take(n + 1).drop_last() =~= ges.take(n));
            assert(ges.take(n + 1).last() == ges[n]);
        }
        match remap_entry(e.0.as_str()) {
            Some(rp) => {
                let (path, is_dir) = rp;
                out.push(PlannedEntry { path, is_dir, data: e.1 });
                proof {
                    assert(out@.map_values(|e: PlannedEntry| e@) =~= spec_plan(
                        ges.take(n + 1),
                    )->Some_0);
                }
            },
            None => {
                proof {
                    lemma_plan_none_from_bad_entry(ges, n);
                }
                return Err(ExtractError::UnsafeEntryName);
            },
        }
    }
    proof {
        assert(ges.take(ges.len() as int) =~= ges);
    }
    Ok(out)
}

/// Extraction is a function of the buffer alone: running it again over a
/// byte-identical archive yields the same outcome — the same placements
/// with the same bytes, or the same error.  Re-running an install against
/// a target that already holds the extracted contents therefore rewrites
/// each file with identical bytes; that creating an already-present
/// directory is accepted is the filesystem's part, outside this crate.
pub proof fn lemma_extraction_repeatable(
    data: Seq<u8>,
    r1: Result<Seq<EntryFields>, ExtractError>,
    r2: Result<Seq<EntryFields>, ExtractError>,
)
    requires
        r1 == spec_extraction(data),
        r2 == spec_extraction(data),
    ensures
        r1 == r2,
{
}

} // verus!
