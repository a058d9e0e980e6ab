use vstd::prelude::*;
use crate::common::cipher::sm4_cbc_encrypt_hex_of;
use crate::common::fun::{file_key, file_plaintext, sm4_encrypt_file};
use crate::common::text::{chars_of, has_prefix, occurs_at_exec, string_of, text_eq};

verus! {

/// A file to save: its path and its content as the browser encrypted it.
pub struct SaveData {
    pub path: String,
    pub content: String,
}

/// A failure of file handling, with its message.
pub struct FileError {
    pub message: String,
}

impl FileError {
    /// The text with which the error displays itself: its message.
    pub fn to_text(&self) -> (r: String)
        ensures
            r@ == self.message@,
    {
        self.message.clone()
    }
}

/// A file in a directory listing.
pub struct FileInfo {
    pub name: String,
    pub permissions: Option<u32>,
    pub size: Option<u64>,
    pub modified_time: Option<u64>,
}

/// A subdirectory in a directory listing.
pub struct DirInfo {
    pub name: String,
    pub permissions: Option<u32>,
    pub modified_time: Option<u64>,
}

/// A directory listing: the directory's path, its files and its subdirectories.
pub struct FilesAndDirsInfo {
    pub path: String,
    pub files: Vec<FileInfo>,
    pub dirs: Vec<DirInfo>,
}

/// What the file system reports of one entry of a directory whose name is valid UTF-8.
pub struct DirEntryInfo {
    pub name: String,
    pub is_file: bool,
    pub is_dir: bool,
    pub size: u64,
    /// Seconds since the epoch of the last modification.
    pub modified: u64,
}

/// The view of a listed file: name, size, modification time.
pub open spec fn file_info_view(f: FileInfo) -> (Seq<char>, Option<u32>, Option<u64>, Option<u64>) {
    (f.name@, f.permissions, f.size, f.modified_time)
}

/// The view of a listed directory: name, modification time.
pub open spec fn dir_info_view(d: DirInfo) -> (Seq<char>, Option<u32>, Option<u64>) {
    (d.name@, d.permissions, d.modified_time)
}

/// The files of a directory, in order, as the listing shows them.
pub open spec fn listed_files(es: Seq<DirEntryInfo>) -> Seq<(Seq<char>, Option<u32>, Option<u64>, Option<u64>)>
    decreases es.len(),
{
    if es.len() == 0 {
        Seq::empty()
    } else {
        let e = es.last();
        listed_files(es.drop_last()) + if e.is_file {
            seq![(e.name@, None::<u32>, Some(e.size), Some(e.modified))]
        } else {
            Seq::empty()
        }
    }
}

/// The subdirectories of a directory, in order, as the listing shows them.
pub open spec fn listed_dirs(es: Seq<DirEntryInfo>) -> Seq<(Seq<char>, Option<u32>, Option<u64>)>
    decreases es.len(),
{
    if es.len() == 0 {
        Seq::empty()
    } else {
        let e = es.last();
        listed_dirs(es.drop_last()) + if !e.is_file && e.is_dir {
            seq![(e.name@, None::<u32>, Some(e.modified))]
        } else {
            Seq::empty()
        }
    }
}

/// The listing of a directory shown as `path` with these entries: regular
/// files with their size and time, directories with their time; other
/// entries are left out.
pub fn build_listing(path: String, entries: &Vec<DirEntryInfo>) -> (r: FilesAndDirsInfo)
    ensures
        r.path@ == path@,
        r.files@.map_values(|f: FileInfo| file_info_view(f)) == listed_files(entries@),
        r.dirs@.map_values(|d: DirInfo| dir_info_view(d)) == listed_dirs(entries@),
{
    let mut files: Vec<FileInfo> = Vec::new();
    let mut dirs: Vec<DirInfo> = Vec::new();
    let mut i: usize = 0;
    while i < entries.len()
        invariant
            i <= entries@.len(),
            files@.map_values(|f: FileInfo| file_info_view(f)) == listed_files(entries@.take(i as int)),
            dirs@.map_values(|d: DirInfo| dir_info_view(d)) == listed_dirs(entries@.take(i as int)),
        decreases entries@.len() - i,
    {
        let e = &entries[i];
        assert(entries@.take(i + 1).drop_last() =~= entries@.take(i as int));
        if e.is_file {
            files.push(FileInfo { name: e.name.clone(), permissions: None, size: Some(e.size), modified_time: Some(e.modified) });
        } else if e.is_dir {
            dirs.push(DirInfo { name: e.name.clone(), permissions: None, modified_time: Some(e.modified) });
        }
        assert(files@.map_values(|f: FileInfo| file_info_view(f)) =~= listed_files(entries@.take(i + 1)));
        assert(dirs@.map_values(|d: DirInfo| dir_info_view(d)) =~= listed_dirs(entries@.take(i + 1)));
        i = i + 1;
    }
    assert(entries@.take(i as int) =~= entries@);
    FilesAndDirsInfo { path, files, dirs }
}

/// Whether a directory entry is a regular file.
pub open spec fn is_file_entry() -> spec_fn(DirEntryInfo) -> bool {
    |e: DirEntryInfo| e.is_file
}

/// Whether a directory entry is a directory and not a regular file.
pub open spec fn is_dir_entry() -> spec_fn(DirEntryInfo) -> bool {
    |e: DirEntryInfo| !e.is_file && e.is_dir
}

/// A file entry as listed: name, no permissions, size and time.
pub open spec fn file_row() -> spec_fn(DirEntryInfo) -> (Seq<char>, Option<u32>, Option<u64>, Option<u64>) {
    |e: DirEntryInfo| (e.name@, None::<u32>, Some(e.size), Some(e.modified))
}

/// A directory entry as listed: name, no permissions, time.
pub open spec fn dir_row() -> spec_fn(DirEntryInfo) -> (Seq<char>, Option<u32>, Option<u64>) {
    |e: DirEntryInfo| (e.name@, None::<u32>, Some(e.modified))
}

/// A listing leaves out no entry and invents none: its files are exactly
/// the entries that are regular files, and its directories exactly the
/// entries that are directories and not regular files, each in the order
/// of the entries; so there are as many of each as there are such entries.
pub proof fn lemma_listing_keeps_every_entry(es: Seq<DirEntryInfo>)
    ensures
        listed_files(es) == es.filter(is_file_entry()).map_values(file_row()),
        listed_dirs(es) == es.filter(is_dir_entry()).map_values(dir_row()),
        listed_files(es).len() == es.filter(is_file_entry()).len(),
        listed_dirs(es).len() == es.filter(is_dir_entry()).len(),
    decreases es.len(),
{
    reveal(Seq::filter);
    if es.len() == 0 {
        assert(es.filter(is_file_entry()).map_values(file_row()) =~= listed_files(es));
        assert(es.filter(is_dir_entry()).map_values(dir_row()) =~= listed_dirs(es));
    } else {
        lemma_listing_keeps_every_entry(es.drop_last());
        let e = es.last();
        let fs = es.drop_last().filter(is_file_entry());
        let ds = es.drop_last().filter(is_dir_entry());
        if e.is_file {
            assert(es.filter(is_file_entry()) == fs.push(e));
            assert(fs.push(e).map_values(file_row()) =~= fs.map_values(file_row()) + seq![file_row()(e)]);
        } else {
            assert(es.filter(is_file_entry()) == fs);
            assert(fs.map_values(file_row()) + Seq::empty() =~= fs.map_values(file_row()));
        }
        if !e.is_file && e.is_dir {
            assert(es.filter(is_dir_entry()) == ds.push(e));
            assert(ds.push(e).map_values(dir_row()) =~= ds.map_values(dir_row()) + seq![dir_row()(e)]);
        } else {
            assert(es.filter(is_dir_entry()) == ds);
            assert(ds.map_values(dir_row()) + Seq::empty() =~= ds.map_values(dir_row()));
        }
        assert(es.filter(is_file_entry()).map_values(file_row()) =~= listed_files(es));
        assert(es.filter(is_dir_entry()).map_values(dir_row()) =~= listed_dirs(es));
    }
}

/// The Windows prefix of verbatim paths, `\\?\`.
pub open spec fn verbatim_prefix() -> Seq<char> {
    seq!['\\', '\\', '?', '\\']
}

/// The Windows prefix of verbatim network paths, `\\?\UNC\`.
pub open spec fn verbatim_unc_prefix() -> Seq<char> {
    seq!['\\', '\\', '?', '\\', 'U', 'N', 'C', '\\']
}

/// Whether cutting a canonical path for display stays on character
/// boundaries: a verbatim network path is cut after its ninth byte, which
/// needs a ninth character of one byte.
pub open spec fn display_path_defined(canonical: Seq<char>) -> bool {
    has_prefix(canonical, verbatim_unc_prefix()) ==> canonical.len() >= 9 && (canonical[8] as u32) < 128
}

/// A canonical path as the listing shows it: a verbatim network path
/// loses its first nine characters, another verbatim path its first four.
pub open spec fn display_path_of(canonical: Seq<char>) -> Seq<char> {
    if has_prefix(canonical, verbatim_prefix()) {
        if has_prefix(canonical, verbatim_unc_prefix()) {
            canonical.skip(9)
        } else {
            canonical.skip(4)
        }
    } else {
        canonical
    }
}

/// Whether a canonical path can be shortened for display without cutting a character.
pub fn display_path_applies(canonical: &str) -> (r: bool)
    ensures
        r == display_path_defined(canonical@),
{
    let cs = chars_of(canonical);
    let mut unc: Vec<char> = Vec::new();
    unc.push('\\');
    unc.push('\\');
    unc.push('?');
    unc.push('\\');
    unc.push('U');
    unc.push('N');
    unc.push('C');
    unc.push('\\');
    assert(unc@ =~= verbatim_unc_prefix());
    let is_unc = occurs_at_exec(&cs, &unc, 0);
    proof {
        assert(cs@.take(8) =~= cs@.subrange(0, 8));
    }
    if !is_unc {
        return true;
    }
    cs.len() >= 9 && (cs[8] as u32) < 128
}

/// A canonical path without the Windows verbatim prefix, for display.
pub fn display_path(canonical: &str) -> (r: String)
    requires
        display_path_defined(canonical@),
    ensures
        r@ == display_path_of(canonical@),
{
    let cs = chars_of(canonical);
    let mut pre: Vec<char> = Vec::new();
    pre.push('\\');
    pre.push('\\');
    pre.push('?');
    pre.push('\\');
    assert(pre@ =~= verbatim_prefix());
    let mut unc = pre.clone();
    unc.push('U');
    unc.push('N');
    unc.push('C');
    unc.push('\\');
    assert(unc@ =~= verbatim_unc_prefix());
    let is_verbatim = occurs_at_exec(&cs, &pre, 0);
    let is_unc = occurs_at_exec(&cs, &unc, 0);
    proof {
        assert(cs@.take(4) =~= cs@.subrange(0, 4));
        assert(cs@.take(8) =~= cs@.subrange(0, 8));
    }
    let start: usize = if !is_verbatim {
        0
    } else if is_unc {
        9
    } else {
        4
    };
    let mut out: Vec<char> = Vec::new();
    let mut k: usize = start;
    while k < cs.len()
        invariant
            start <= cs@.len(),
            start <= k <= cs@.len(),
            out@ == cs@.subrange(start as int, k as int),
        decreases cs.len() - k,
    {
        out.push(cs[k]);
        k = k + 1;
        assert(out@ =~= cs@.subrange(start as int, k as int));
    }
    assert(out@ =~= display_path_of(canonical@));
    string_of(&out)
}

/// The extension of a path, by `std::path::Path::extension`.
pub uninterp spec fn extension_of(path: Seq<char>) -> Option<Seq<char>>;

/// Calls `std::path::Path::extension`; the result is named `extension_of`.
#[verifier::external_body]
fn path_extension(path: &str) -> (r: Option<String>)
    ensures
        match r {
            Some(e) => extension_of(path@) == Some(e@),
            None => extension_of(path@) is None,
        },
{
    std::path::Path::new(path).extension().and_then(|e| e.to_str()).map(|e| e.to_string())
}

/// Whether the editor refuses files with this extension (programs and archives).
pub open spec fn blocked_extension(ext: Seq<char>) -> bool {
    ext == "exe"@ || ext == "dll"@ || ext == "so"@ || ext == "zip"@
}

/// Whether the editor refuses files with this extension.
pub fn is_blocked_extension(ext: &str) -> (r: bool)
    ensures
        r == blocked_extension(ext@),
{
    text_eq(ext, "exe") || text_eq(ext, "dll") || text_eq(ext, "so") || text_eq(ext, "zip")
}

/// The extension under which the editor opens `path` (empty when it has
/// none), or none when the editor refuses that kind of file.
pub fn content_extension(path: &str) -> (r: Option<String>)
    ensures
        match extension_of(path@) {
            Some(e) => if blocked_extension(e) { r is None } else { r matches Some(x) && x@ == e },
            None => r matches Some(x) && x@ == Seq::<char>::empty(),
        },
{
    match path_extension(path) {
        Some(e) => {
            if is_blocked_extension(e.as_str()) {
                None
            } else {
                Some(e)
            }
        },
        None => Some(String::new()),
    }
}

/// The text of GBK-encoded bytes, by `encoding_rs::GBK`.
pub uninterp spec fn gbk_decoded(bytes: Seq<u8>) -> Seq<char>;

/// Calls `encoding_rs::GBK.decode`; re-encoding the text as UTF-8 and
/// reading it back without loss gives the same text, so the result is the
/// decoded text, named `gbk_decoded`.
#[verifier::external_body]
fn convert_gbk_to_utf8(content: Vec<u8>) -> (r: String)
    ensures
        r@ == gbk_decoded(content@),
{
    let (decoded, _, _) = encoding_rs::GBK.decode(&content);
    let (encoded, _, _) = encoding_rs::UTF_8.encode(&decoded);
    String::from_utf8_lossy(encoded.as_ref()).to_string()
}

/// The content of a file as it was read: text, or bytes that are not UTF-8.
pub enum FileText {
    Utf8(String),
    Raw(Vec<u8>),
}

/// The text of a file's content: the text itself, or the bytes read as GBK.
pub open spec fn file_text_of(t: FileText) -> Seq<char> {
    match t {
        FileText::Utf8(s) => s@,
        FileText::Raw(b) => gbk_decoded(b@),
    }
}

/// What the editor sends for a file: its text encrypted with the file key,
/// and its extension. Saving the encrypted text gives the file's text back.
pub fn content_payload(text: FileText, extension: String) -> (r: (String, String))
    ensures
        r.0@ == sm4_cbc_encrypt_hex_of(file_text_of(text), file_key(), file_key()),
        file_plaintext(r.0@) == Some(file_text_of(text)),
        r.1 == extension,
{
    let plain = match text {
        FileText::Utf8(s) => s,
        FileText::Raw(b) => convert_gbk_to_utf8(b),
    };
    (sm4_encrypt_file(plain.as_str()), extension)
}

/// Showing a path only drops the Windows verbatim prefix: an ordinary path
/// is shown as it is; a verbatim path is its prefix `\\?\` followed by
/// what is shown; a verbatim network path is its prefix `\\?\UNC\` and one
/// more character followed by what is shown.
pub proof fn lemma_display_path_drops_prefix(canonical: Seq<char>)
    ensures
        !has_prefix(canonical, seq!['\\', '\\', '?', '\\']) ==> display_path_of(canonical) == canonical,
        (has_prefix(canonical, seq!['\\', '\\', '?', '\\']) && !has_prefix(canonical, seq!['\\', '\\', '?', '\\', 'U', 'N', 'C', '\\']))
            ==> seq!['\\', '\\', '?', '\\'] + display_path_of(canonical) == canonical,
        (has_prefix(canonical, seq!['\\', '\\', '?', '\\', 'U', 'N', 'C', '\\']) && canonical.len() >= 9)
            ==> canonical.take(9) + display_path_of(canonical) == canonical,
{
    if has_prefix(canonical, seq!['\\', '\\', '?', '\\', 'U', 'N', 'C', '\\']) {
        assert(canonical.take(4) =~= canonical.take(8).take(4));
        assert(canonical.take(4) =~= seq!['\\', '\\', '?', '\\']);
    }
    if has_prefix(canonical, seq!['\\', '\\', '?', '\\']) {
        assert(verbatim_prefix() =~= seq!['\\', '\\', '?', '\\']);
        if has_prefix(canonical, seq!['\\', '\\', '?', '\\', 'U', 'N', 'C', '\\']) {
            assert(verbatim_unc_prefix() =~= seq!['\\', '\\', '?', '\\', 'U', 'N', 'C', '\\']);
            if canonical.len() >= 9 {
                assert(canonical.take(9) + canonical.skip(9) =~= canonical);
            }
        } else {
            assert(verbatim_unc_prefix() =~= seq!['\\', '\\', '?', '\\', 'U', 'N', 'C', '\\']);
            assert(canonical.take(4) =~= seq!['\\', '\\', '?', '\\']);
            assert(canonical.take(4) + canonical.skip(4) =~= canonical);
        }
    } else {
        assert(verbatim_prefix() =~= seq!['\\', '\\', '?', '\\']);
    }
}

/// The editor refuses exactly programs and archives: the extensions it
/// refuses are `exe`, `dll`, `so` and `zip`, and no others.
pub proof fn lemma_editor_refuses_programs(ext: Seq<char>)
    ensures
        blocked_extension(ext) <==> set!["exe"@, "dll"@, "so"@, "zip"@].contains(ext),
{
}

} // verus!
