//! The artifact packager.
//!
//! One deployment bundles every regular file under the project root that
//! the ignore set does not match into a single gzip-compressed tar
//! archive, each file under the fixed top-level folder `build/` at its
//! relative path, bytes unchanged. The caller enumerates the filesystem
//! (following symbolic links) and reads the files; the library selects
//! the entries, drives the tar and gzip encoders of the `tar` and
//! `flate2` crates, and names the archive after a fresh random
//! identifier so concurrent runs cannot collide.

use vstd::prelude::*;
use vstd::string::StrSliceExecFns;

use crate::error::DeployError;
use crate::ignore::{is_dir_star, matched, under_dir, IgnoreSet};

verus! {

// ------------------------------------------------------------------
// The archive encoders, relied upon from tar and flate2.
// ------------------------------------------------------------------
/// A gzip-compressed tar archive being built in memory: `tar`'s builder
/// writing through `flate2`'s encoder into a byte buffer. The type is
/// opaque to the verifier; what it holds is named by
/// [`builder_entries`], and the wrappers below state what each call
/// does to it.
#[verifier::external_body]
pub struct ArchiveBuilder {
    inner: tar::Builder<flate2::write::GzEncoder<Vec<u8>>>,
}

/// The bytes of the tar archive holding the given entries (name,
/// contents), in order, each a regular file with mode `0o644`.
pub uninterp spec fn tar_of(entries: Seq<(Seq<char>, Seq<u8>)>) -> Seq<u8>;

/// The gzip compression of `data` at flate2's default level (flate2
/// writes a reproducible header, so the result depends on the bytes
/// alone).
pub uninterp spec fn gzip_of(data: Seq<u8>) -> Seq<u8>;

/// The entries appended to a building archive so far, in order.
pub uninterp spec fn builder_entries(b: ArchiveBuilder) -> Seq<(Seq<char>, Seq<u8>)>;

/// Whether appending an entry with this name and these contents to an
/// archive already holding `entries` succeeds. With the in-memory buffer
/// every raw write lands in a byte vector, so the outcome is a function
/// of the builder's contents and the arguments alone: tar's path
/// encoding refuses a name (an empty one, a nul byte, a root or parent
/// component), and the encoders' own failure paths are likewise
/// deterministic.
pub uninterp spec fn tar_append_ok(
    entries: Seq<(Seq<char>, Seq<u8>)>,
    name: Seq<char>,
    contents: Seq<u8>,
) -> bool;

/// Whether finishing an archive holding `entries` succeeds: the
/// terminator and trailer are written into the in-memory buffer, so the
/// outcome is a function of the entries alone.
pub uninterp spec fn archive_finishes(entries: Seq<(Seq<char>, Seq<u8>)>) -> bool;

/// Every entry of the list, appended in order onto the ones before it,
/// is one the archive encoders accept.
pub open spec fn appends_ok(entries: Seq<(Seq<char>, Seq<u8>)>) -> bool
    decreases entries.len(),
{
    if entries.len() == 0 {
        true
    } else {
        appends_ok(entries.drop_last()) && tar_append_ok(
            entries.drop_last(),
            entries.last().0,
            entries.last().1,
        )
    }
}

/// The whole packaging pipeline accepts these entries: every append
/// succeeds and so does finishing the archive.
pub open spec fn packaging_accepted(entries: Seq<(Seq<char>, Seq<u8>)>) -> bool {
    appends_ok(entries) && archive_finishes(entries)
}

/// Relies on tar::Builder::new over flate2::write::GzEncoder::new (the
/// default compression level, writing into a fresh in-memory buffer): a
/// new gzip-compressed tar archive with no entries.
#[verifier::external_body]
fn archive_builder() -> (b: ArchiveBuilder)
    ensures
        builder_entries(b) == Seq::<(Seq<char>, Seq<u8>)>::empty(),
{
    ArchiveBuilder {
        inner: tar::Builder::new(
            flate2::write::GzEncoder::new(Vec::new(), flate2::Compression::default()),
        ),
    }
}

/// Relies on tar::Builder::append_data, with a fresh tar::Header sized
/// to the contents and mode `0o644`: with the in-memory buffer its
/// outcome is deterministic in the builder's contents and the
/// arguments, and on success the entry is appended behind the ones
/// already there.
#[verifier::external_body]
fn archive_append(b: &mut ArchiveBuilder, name: &String, contents: &Vec<u8>) -> (r: Result<
    (),
    String,
>)
    ensures
        r is Ok <==> tar_append_ok(builder_entries(*old(b)), name@, contents@),
        r is Ok ==> builder_entries(*final(b)) == builder_entries(*old(b)).push(
            (name@, contents@),
        ),
{
    let mut header = tar::Header::new_gnu();
    header.set_size(contents.len() as u64);
    header.set_mode(0o644);
    match b.inner.append_data(&mut header, name.as_str(), contents.as_slice()) {
        Ok(()) => Ok(()),
        Err(e) => Err(e.to_string()),
    }
}

/// Relies on tar::Builder::into_inner (which finishes the archive) and
/// flate2::write::GzEncoder::finish: with the in-memory buffer the
/// outcome is deterministic in the appended entries, and the finished
/// bytes are the gzip compression of their tar serialization.
#[verifier::external_body]
fn archive_finish(b: ArchiveBuilder) -> (r: Result<Vec<u8>, String>)
    ensures
        r is Ok <==> archive_finishes(builder_entries(b)),
        r matches Ok(bytes) ==> bytes@ == gzip_of(tar_of(builder_entries(b))),
{
    match b.inner.into_inner() {
        Ok(encoder) => match encoder.finish() {
            Ok(bytes) => Ok(bytes),
            Err(e) => Err(e.to_string()),
        },
        Err(e) => Err(e.to_string()),
    }
}

/// A lower-case hexadecimal digit.
pub open spec fn is_lower_hex_digit(c: char) -> bool {
    (0x30 <= c as u32 <= 0x39) || (0x61 <= c as u32 <= 0x66)
}

/// Relies on uuid::Uuid::new_v4 and its simple format: a fresh random
/// identifier rendered as 32 lower-case hexadecimal digits. The value
/// is random, so nothing holds of it beyond its shape.
#[verifier::external_body]
fn fresh_run_id() -> (r: String)
    ensures
        r@.len() == 32,
        forall|i: int| 0 <= i < 32 ==> is_lower_hex_digit(#[trigger] r@[i]),
{
    uuid::Uuid::new_v4().to_simple().to_string()
}

// ------------------------------------------------------------------
// The archive name.
// ------------------------------------------------------------------
/// An archive file name of this library: `build_`, 32 lower-case
/// hexadecimal digits, `.tar.gz`.
pub open spec fn is_archive_name(name: Seq<char>) -> bool {
    &&& name.len() == 45
    &&& name.take(6) == "build_"@
    &&& forall|i: int| 6 <= i < 38 ==> is_lower_hex_digit(#[trigger] name[i])
    &&& name.skip(38) == ".tar.gz"@
}

/// Names a fresh archive after a random identifier, so concurrent or
/// retried runs cannot collide on the file name.
pub fn archive_file_name() -> (r: String)
    ensures
        is_archive_name(r@),
{
    let id = fresh_run_id();
    let r = "build_".to_owned().concat(id.as_str()).concat(".tar.gz");
    proof {
        reveal_strlit("build_");
        reveal_strlit(".tar.gz");
        assert(r@.take(6) =~= "build_"@);
        assert(r@.skip(38) =~= ".tar.gz"@);
    }
    r
}

// ------------------------------------------------------------------
// Selecting and staging the entries.
// ------------------------------------------------------------------
/// One filesystem entry under the project root, as enumerated by the
/// caller: its path rooted at `./`, whether it is a directory, and — for
/// a regular file — its bytes.
pub struct SourceEntry {
    pub path: String,
    pub is_dir: bool,
    pub data: Vec<u8>,
}

/// The mathematical image of a [`SourceEntry`].
pub struct SourceEntryV {
    pub path: Seq<char>,
    pub is_dir: bool,
    pub data: Seq<u8>,
}

impl View for SourceEntry {
    type V = SourceEntryV;

    open spec fn view(&self) -> SourceEntryV {
        SourceEntryV { path: self.path@, is_dir: self.is_dir, data: self.data@ }
    }
}

/// The path is rooted at the project directory and names something
/// inside it.
pub open spec fn entry_path_ok(path: Seq<char>) -> bool {
    path.len() >= 3 && path[0] == '.' && path[1] == '/'
}

/// Where a project file lands inside the archive: under the fixed
/// top-level folder, at its path relative to the project root.
pub open spec fn staged_name(path: Seq<char>) -> Seq<char> {
    "build/"@ + path.skip(2)
}

/// The entry ends up in the archive: a regular file that no ignore
/// pattern matches.
pub open spec fn contributes(e: SourceEntryV, patterns: Seq<Seq<char>>) -> bool {
    !e.is_dir && !matched(patterns, e.path)
}

/// The entries the archive receives: every contributing file, in
/// enumeration order, renamed under the top-level folder, bytes
/// unchanged.
pub open spec fn staged(entries: Seq<SourceEntryV>, patterns: Seq<Seq<char>>) -> Seq<
    (Seq<char>, Seq<u8>),
>
    decreases entries.len(),
{
    if entries.len() == 0 {
        Seq::empty()
    } else {
        staged(entries.drop_last(), patterns) + if contributes(entries.last(), patterns) {
            seq![(staged_name(entries.last().path), entries.last().data)]
        } else {
            Seq::empty()
        }
    }
}

/// The views of a list of entries.
pub open spec fn entry_views(entries: Seq<SourceEntry>) -> Seq<SourceEntryV> {
    entries.map_values(|e: SourceEntry| e@)
}

/// Builds the archive entry name of one project file.
fn staged_name_string(path: &str) -> (r: String)
    requires
        entry_path_ok(path@),
    ensures
        r@ == staged_name(path@),
{
    let len = path.unicode_len();
    let rel = path.substring_char(2, len);
    let r = "build/".to_owned().concat(rel);
    proof {
        assert(path@.subrange(2, path@.len() as int) =~= path@.skip(2));
    }
    r
}

/// Packages the project tree: every regular file among `entries` that
/// the ignore set does not match goes into a gzip-compressed tar archive
/// under `build/` at its relative path, bytes unchanged, in enumeration
/// order. It succeeds exactly when the archive encoders accept every
/// staged entry and the finish; a failing encoder aborts with `IOError`.
pub fn package(entries: &Vec<SourceEntry>, ignore: &IgnoreSet) -> (r: Result<Vec<u8>, DeployError>)
    requires
        ignore.wf(),
        forall|i: int| 0 <= i < entries@.len() ==> entry_path_ok((#[trigger] entries@[i])@.path),
    ensures
        r is Ok <==> packaging_accepted(staged(entry_views(entries@), ignore.spec_patterns())),
        r matches Ok(bytes) ==> bytes@ == gzip_of(
            tar_of(staged(entry_views(entries@), ignore.spec_patterns())),
        ),
        r matches Err(e) ==> e is IOError,
{
    let mut builder = archive_builder();
    let n = entries.len();
    proof {
        assert(entry_views(entries@).take(0) =~= Seq::<SourceEntryV>::empty());
    }
    for i in 0..n
        invariant
            n == entries.len(),
            ignore.wf(),
            forall|k: int| 0 <= k < entries@.len() ==> entry_path_ok((#[trigger] entries@[k])@.path),
            builder_entries(builder) == staged(
                entry_views(entries@).take(i as int),
                ignore.spec_patterns(),
            ),
            appends_ok(builder_entries(builder)),
    {
        let ghost views = entry_views(entries@);
        let ghost pats = ignore.spec_patterns();
        let ghost before = builder_entries(builder);
        let entry = &entries[i];
        if !entry.is_dir && !ignore.is_match(entry.path.as_str()) {
            let name = staged_name_string(entry.path.as_str());
            match archive_append(&mut builder, &name, &entry.data) {
                Ok(()) => {
                    proof {
                        assert(before.push((name@, entry.data@)).drop_last() =~= before);
                    }
                },
                Err(cause) => {
                    proof {
                        // the rejected entry stands in the staged list, so
                        // the whole packaging is not accepted
                        let i1: int = i as int + 1;
                        let upto = staged(views.take(i1), pats);
                        let k: int = upto.len() as int;
                        assert(views[i as int] == entries@[i as int]@);
                        assert(contributes(views[i as int], pats));
                        assert(views.take(i1).drop_last() =~= views.take(i as int));
                        assert(views.take(i1).last() == views[i as int]);
                        assert(upto.drop_last() =~= before);
                        assert(upto =~= before.push(
                            (staged_name(views[i as int].path), views[i as int].data),
                        ));
                        assert(name@ == staged_name(views[i as int].path));
                        assert(entry.data@ == views[i as int].data);
                        assert(upto.last() == (name@, entry.data@));
                        assert(!tar_append_ok(upto.drop_last(), upto.last().0, upto.last().1));
                        assert(!appends_ok(upto));
                        let whole = staged(views, pats);
                        lemma_staged_take_prefix(views, pats, i1);
                        assert forall|j: int| 0 <= j < k implies whole.take(k)[j] == upto[j] by {
                            assert(staged(views.take(i1), pats)[j] == staged(views, pats)[j]);
                        }
                        assert(whole.take(k) =~= upto);
                        if appends_ok(whole) {
                            lemma_appends_ok_prefix(whole, k);
                        }
                        assert(!packaging_accepted(whole));
                    }
                    return Err(DeployError::IOError(cause));
                },
            }
        }
        proof {
            assert(views.take(i + 1).drop_last() =~= views.take(i as int));
            assert(views.take(i + 1).last() == views[i as int]);
            assert(builder_entries(builder) =~= staged(
                views.take(i + 1),
                ignore.spec_patterns(),
            ));
        }
    }
    proof {
        assert(entry_views(entries@).take(n as int) =~= entry_views(entries@));
    }
    match archive_finish(builder) {
        Ok(bytes) => Ok(bytes),
        Err(cause) => Err(DeployError::IOError(cause)),
    }
}

/// A shorter entry list stages a prefix of what the full list stages.
proof fn lemma_staged_take_prefix(entries: Seq<SourceEntryV>, patterns: Seq<Seq<char>>, i: int)
    requires
        0 <= i <= entries.len(),
    ensures
        staged(entries.take(i), patterns).len() <= staged(entries, patterns).len(),
        forall|j: int|
            0 <= j < staged(entries.take(i), patterns).len() ==> #[trigger] staged(
                entries.take(i),
                patterns,
            )[j] == staged(entries, patterns)[j],
    decreases entries.len(),
{
    if i == entries.len() {
        assert(entries.take(i) =~= entries);
    } else {
        assert(entries.drop_last().take(i) =~= entries.take(i));
        lemma_staged_take_prefix(entries.drop_last(), patterns, i);
    }
}

/// Acceptance of a whole entry list carries over to each of its
/// prefixes.
proof fn lemma_appends_ok_prefix(entries: Seq<(Seq<char>, Seq<u8>)>, i: int)
    requires
        0 <= i <= entries.len(),
        appends_ok(entries),
    ensures
        appends_ok(entries.take(i)),
    decreases entries.len(),
{
    if i == entries.len() {
        assert(entries.take(i) =~= entries);
    } else {
        assert(entries.drop_last().take(i) =~= entries.take(i));
        lemma_appends_ok_prefix(entries.drop_last(), i);
    }
}

// ------------------------------------------------------------------
// What the staged entries contain.
// ------------------------------------------------------------------
/// Law (faithful packaging): every regular file that no ignore pattern
/// matches appears among the staged entries, under the top-level folder
/// at its relative path, byte-for-byte identical to the source.
pub proof fn lemma_unmatched_file_is_packaged(
    entries: Seq<SourceEntryV>,
    patterns: Seq<Seq<char>>,
    k: int,
)
    requires
        0 <= k < entries.len(),
        contributes(entries[k], patterns),
    ensures
        exists|j: int|
            0 <= j < staged(entries, patterns).len() && #[trigger] staged(entries, patterns)[j]
                == (staged_name(entries[k].path), entries[k].data),
    decreases entries.len(),
{
    let s = staged(entries, patterns);
    if k == entries.len() - 1 {
        assert(entries.last() == entries[k]);
        let j = staged(entries.drop_last(), patterns).len() as int;
        assert(s[j] == (staged_name(entries[k].path), entries[k].data));
    } else {
        assert(entries.drop_last()[k] == entries[k]);
        lemma_unmatched_file_is_packaged(entries.drop_last(), patterns, k);
        let prefix = staged(entries.drop_last(), patterns);
        let j = choose|j: int|
            0 <= j < prefix.len() && #[trigger] prefix[j] == (
                staged_name(entries[k].path),
                entries[k].data,
            );
        assert(s[j] == (staged_name(entries[k].path), entries[k].data));
    }
}

/// Law (nothing else is packaged): every staged entry stems from some
/// regular file of the enumeration that no ignore pattern matches, with
/// its staged name and its bytes.
pub proof fn lemma_staged_only_unmatched(
    entries: Seq<SourceEntryV>,
    patterns: Seq<Seq<char>>,
    j: int,
)
    requires
        0 <= j < staged(entries, patterns).len(),
    ensures
        exists|k: int|
            0 <= k < entries.len() && contributes(#[trigger] entries[k], patterns) && staged(
                entries,
                patterns,
            )[j] == (staged_name(entries[k].path), entries[k].data),
    decreases entries.len(),
{
    let prefix = staged(entries.drop_last(), patterns);
    if j < prefix.len() {
        lemma_staged_only_unmatched(entries.drop_last(), patterns, j);
        let k = choose|k: int|
            0 <= k < entries.drop_last().len() && contributes(
                #[trigger] entries.drop_last()[k],
                patterns,
            ) && prefix[j] == (
                staged_name(entries.drop_last()[k].path),
                entries.drop_last()[k].data,
            );
        assert(entries[k] == entries.drop_last()[k]);
        assert(staged(entries, patterns)[j] == prefix[j]);
    } else {
        let k = entries.len() - 1;
        assert(contributes(entries[k], patterns));
        assert(staged(entries, patterns)[j] == (staged_name(entries[k].path), entries[k].data));
    }
}

/// Law (whole directory subtrees are excluded): when the ignore set
/// holds a `<dir>/*` pattern of self-standing characters, no file under
/// `<dir>/` contributes to the archive — combined with
/// [`lemma_staged_only_unmatched`], nothing under that directory appears
/// among the staged entries.
pub proof fn lemma_dir_subtree_excluded(s: &IgnoreSet, i: int, e: SourceEntryV)
    requires
        s.wf(),
        0 <= i < s.spec_patterns().len(),
        is_dir_star(s.spec_patterns()[i]),
        under_dir(s.spec_patterns()[i], e.path),
    ensures
        matched(s.spec_patterns(), e.path),
        !contributes(e, s.spec_patterns()),
{
    s.lemma_dir_pattern_matches_subtree(i, e.path);
}

} // verus!
