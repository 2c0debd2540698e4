//! The ignore-set builder.
//!
//! A deployment packages every file under the project root except those
//! matched by the ignore patterns: a built-in default set, replaced
//! entirely by the project ignore file's pattern lines when that file is
//! readable. Each raw pattern is trimmed, rooted at the project directory
//! (`./`), and — when it names an existing directory — expanded with `/*`
//! so the directory's whole subtree is matched. The compiled matcher
//! itself is `globset`'s; the library states its behaviour and verifies
//! everything around it.

use vstd::prelude::*;
use vstd::string::StrSliceExecFns;

use crate::error::DeployError;

verus! {

// ------------------------------------------------------------------
// The compiled matcher, relied upon from globset.
// ------------------------------------------------------------------
#[verifier::external_type_specification]
#[verifier::external_body]
pub struct ExGlob(globset::Glob);

#[verifier::external_type_specification]
#[verifier::external_body]
pub struct ExGlobSet(globset::GlobSet);

#[verifier::external_type_specification]
#[verifier::external_body]
pub struct ExGlobSetBuilder(globset::GlobSetBuilder);

#[verifier::external_type_specification]
#[verifier::external_body]
pub struct ExGlobError(globset::Error);

/// Whether `pattern` is a syntactically valid glob.
pub uninterp spec fn glob_syntax_ok(pattern: Seq<char>) -> bool;

/// Whether the glob `pattern` matches `path`, under globset's default
/// options.
pub uninterp spec fn glob_matches(pattern: Seq<char>, path: Seq<char>) -> bool;

/// The pattern a compiled glob was built from.
pub uninterp spec fn glob_pattern_of(g: globset::Glob) -> Seq<char>;

/// The patterns added to a set builder so far, in order.
pub uninterp spec fn builder_globs(b: globset::GlobSetBuilder) -> Seq<Seq<char>>;

/// The patterns a compiled set matches over, in order.
pub uninterp spec fn globset_globs(s: globset::GlobSet) -> Seq<Seq<char>>;

/// Whether the combined matcher over these patterns compiles. Building
/// the set is deterministic in the patterns alone; it can refuse a set
/// (the compiled automaton's size is capped), so unconditional success
/// cannot be promised, but this names exactly when it is owed.
pub uninterp spec fn set_compiles(patterns: Seq<Seq<char>>) -> bool;

/// A character that stands for itself in a glob: everything but the
/// metacharacters `* ? [ ] { }` and the escape `\`.
pub open spec fn glob_literal_char(c: char) -> bool {
    c != '*' && c != '?' && c != '[' && c != ']' && c != '{' && c != '}' && c != '\\'
}

/// The pattern is `<dir>/*`: a directory path of self-standing characters,
/// then the all-contents wildcard.
pub open spec fn is_dir_star(pattern: Seq<char>) -> bool {
    &&& pattern.len() >= 2
    &&& pattern.last() == '*'
    &&& pattern[pattern.len() - 2] == '/'
    &&& forall|i: int| 0 <= i < pattern.len() - 1 ==> glob_literal_char(#[trigger] pattern[i])
}

/// The path lies under the directory of a `<dir>/*` pattern: it starts
/// with `<dir>/`.
pub open spec fn under_dir(pattern: Seq<char>, path: Seq<char>) -> bool {
    &&& path.len() >= pattern.len() - 1
    &&& path.take(pattern.len() - 1) == pattern.take(pattern.len() - 1)
}

/// The pattern holds exactly one `*`, at position `k`; every other
/// character stands for itself.
pub open spec fn single_star_at(pattern: Seq<char>, k: int) -> bool {
    &&& 0 <= k < pattern.len()
    &&& pattern[k] == '*'
    &&& forall|i: int|
        0 <= i < pattern.len() && i != k ==> glob_literal_char(#[trigger] pattern[i])
}

/// The path consists of the pattern's literal part before the star, then
/// anything, then its literal part after the star, the two literal parts
/// not overlapping.
pub open spec fn star_split(pattern: Seq<char>, k: int, path: Seq<char>) -> bool {
    &&& path.len() >= pattern.len() - 1
    &&& path.take(k) == pattern.take(k)
    &&& path.skip(path.len() - (pattern.len() - 1 - k)) == pattern.skip(k + 1)
}

/// Relies on globset::Glob::new: it compiles one pattern, failing exactly
/// on invalid glob syntax. Under the default options every character
/// other than the metacharacters matches itself and `*` matches any
/// sequence of characters, path separators included (the compiled
/// expression is anchored at both ends), so a pattern with a single `*`
/// among self-standing characters matches exactly the paths made of its
/// literal prefix, anything, and its literal suffix.
#[verifier::external_body]
fn glob_new(pattern: &str) -> (r: Result<globset::Glob, globset::Error>)
    ensures
        r is Ok <==> glob_syntax_ok(pattern@),
        r matches Ok(g) ==> glob_pattern_of(g) == pattern@,
        r is Ok ==> forall|k: int, path: Seq<char>|
            single_star_at(pattern@, k) ==> (glob_matches(pattern@, path) <==> #[trigger] star_split(
                pattern@,
                k,
                path,
            )),
{
    globset::Glob::new(pattern)
}

/// Relies on globset::GlobSetBuilder::new: it starts an empty set.
#[verifier::external_body]
fn globset_builder_new() -> (b: globset::GlobSetBuilder)
    ensures
        builder_globs(b) == Seq::<Seq<char>>::empty(),
{
    globset::GlobSetBuilder::new()
}

/// Relies on globset::GlobSetBuilder::add: it appends one compiled
/// pattern to the set.
#[verifier::external_body]
fn globset_builder_add(b: &mut globset::GlobSetBuilder, g: globset::Glob)
    ensures
        builder_globs(*final(b)) == builder_globs(*old(b)).push(glob_pattern_of(g)),
{
    b.add(g);
}

/// Relies on globset::GlobSetBuilder::build: compiling is deterministic
/// in the added patterns, so it succeeds exactly when the combined
/// matcher over them can be built; on success the compiled set matches
/// over exactly the patterns added so far.
#[verifier::external_body]
fn globset_builder_build(b: &globset::GlobSetBuilder) -> (r: Result<
    globset::GlobSet,
    globset::Error,
>)
    ensures
        r is Ok <==> set_compiles(builder_globs(*b)),
        r matches Ok(s) ==> globset_globs(s) == builder_globs(*b),
{
    b.build()
}

/// Relies on globset::GlobSet::is_match: it is true exactly when some
/// pattern of the set matches the path.
#[verifier::external_body]
fn globset_is_match(s: &globset::GlobSet, path: &str) -> (r: bool)
    ensures
        r == matched(globset_globs(*s), path@),
{
    s.is_match(path)
}

/// Relies on globset::Error's Display implementation for the diagnostic
/// text of a rejected pattern.
#[verifier::external_body]
fn glob_error_message(e: &globset::Error) -> String {
    e.to_string()
}

// ------------------------------------------------------------------
// Pattern trimming and normalization (verified).
// ------------------------------------------------------------------
/// A white-space character in Unicode's sense, as `str::trim` removes
/// them: the ASCII spacing characters, next line, no-break space, the
/// Ogham space mark, the typographic spaces, the line and paragraph
/// separators, and the narrow, mathematical and ideographic spaces.
pub open spec fn is_space(c: char) -> bool {
    ||| c as u32 == 0x20
    ||| 0x09 <= c as u32 <= 0x0D
    ||| c as u32 == 0x85
    ||| c as u32 == 0xA0
    ||| c as u32 == 0x1680
    ||| 0x2000 <= c as u32 <= 0x200A
    ||| c as u32 == 0x2028
    ||| c as u32 == 0x2029
    ||| c as u32 == 0x202F
    ||| c as u32 == 0x205F
    ||| c as u32 == 0x3000
}

/// How many whitespace characters `s` starts with.
pub open spec fn leading_spaces(s: Seq<char>) -> int
    decreases s.len(),
{
    if s.len() == 0 || !is_space(s[0]) {
        0
    } else {
        1 + leading_spaces(s.drop_first())
    }
}

/// How many whitespace characters `s` ends with.
pub open spec fn trailing_spaces(s: Seq<char>) -> int
    decreases s.len(),
{
    if s.len() == 0 || !is_space(s.last()) {
        0
    } else {
        1 + trailing_spaces(s.drop_last())
    }
}

/// `s` without its surrounding whitespace.
pub open spec fn spec_trim(s: Seq<char>) -> Seq<char> {
    if leading_spaces(s) == s.len() {
        Seq::empty()
    } else {
        s.subrange(leading_spaces(s), s.len() - trailing_spaces(s))
    }
}

proof fn lemma_leading_spaces(s: Seq<char>)
    ensures
        0 <= leading_spaces(s) <= s.len(),
        forall|i: int| 0 <= i < leading_spaces(s) ==> is_space(#[trigger] s[i]),
        leading_spaces(s) < s.len() ==> !is_space(s[leading_spaces(s)]),
    decreases s.len(),
{
    if s.len() != 0 && is_space(s[0]) {
        lemma_leading_spaces(s.drop_first());
        assert forall|i: int| 0 <= i < leading_spaces(s) implies is_space(#[trigger] s[i]) by {
            if i > 0 {
                assert(s.drop_first()[i - 1] == s[i]);
                assert(is_space(s.drop_first()[i - 1]));
            }
        }
        if leading_spaces(s) < s.len() {
            assert(s.drop_first()[leading_spaces(s.drop_first())] == s[leading_spaces(s)]);
        }
    }
}

proof fn lemma_trailing_spaces(s: Seq<char>)
    ensures
        0 <= trailing_spaces(s) <= s.len(),
        forall|j: int| s.len() - trailing_spaces(s) <= j < s.len() ==> is_space(#[trigger] s[j]),
        trailing_spaces(s) < s.len() ==> !is_space(s[s.len() - trailing_spaces(s) - 1]),
    decreases s.len(),
{
    if s.len() != 0 && is_space(s.last()) {
        lemma_trailing_spaces(s.drop_last());
        assert forall|j: int|
            s.len() - trailing_spaces(s) <= j < s.len() implies is_space(#[trigger] s[j]) by {
            if j < s.len() - 1 {
                assert(s.drop_last()[j] == s[j]);
                assert(is_space(s.drop_last()[j]));
            }
        }
        if trailing_spaces(s) < s.len() {
            assert(s.drop_last()[s.drop_last().len() - trailing_spaces(s.drop_last()) - 1] == s[
                s.len() - trailing_spaces(s) - 1
            ]);
        }
    }
}

/// Tells whether `c` is white space that trimming removes.
fn is_space_char(c: char) -> (r: bool)
    ensures
        r == is_space(c),
{
    let u = c as u32;
    u == 0x20 || (0x09 <= u && u <= 0x0D) || u == 0x85 || u == 0xA0 || u == 0x1680 || (0x2000 <= u
        && u <= 0x200A) || u == 0x2028 || u == 0x2029 || u == 0x202F || u == 0x205F || u == 0x3000
}

/// Strips the surrounding whitespace from a raw pattern line.
pub fn trim_spaces(s: &str) -> (r: String)
    ensures
        r@ == spec_trim(s@),
{
    proof {
        lemma_leading_spaces(s@);
        lemma_trailing_spaces(s@);
    }
    let len = s.unicode_len();
    let mut a: usize = 0;
    while a < len && is_space_char(s.get_char(a))
        invariant
            len == s@.len(),
            0 <= a <= len,
            forall|i: int| 0 <= i < a ==> is_space(#[trigger] s@[i]),
        decreases len - a,
    {
        a = a + 1;
    }
    proof {
        if a < leading_spaces(s@) {
            assert(is_space(s@[a as int]));
            assert(false);
        }
        if a > leading_spaces(s@) {
            assert(is_space(s@[leading_spaces(s@)]));
            assert(false);
        }
    }
    let mut b: usize = len;
    while b > a && is_space_char(s.get_char(b - 1))
        invariant
            len == s@.len(),
            a <= b <= len,
            forall|j: int| b <= j < len ==> is_space(#[trigger] s@[j]),
        decreases b,
    {
        b = b - 1;
    }
    if a == len {
        proof {
            reveal_strlit("");
            assert(spec_trim(s@) =~= Seq::<char>::empty());
        }
        "".to_owned()
    } else {
        proof {
            let t = trailing_spaces(s@);
            if b > s@.len() - t {
                if b == a {
                    assert(is_space(s@[a as int]));
                } else {
                    assert(is_space(s@[b - 1]));
                }
                assert(false);
            }
            if b < s@.len() - t {
                if t < s@.len() {
                    assert(is_space(s@[s@.len() - t - 1]));
                    assert(false);
                } else {
                    assert(is_space(s@[a as int]));
                    assert(false);
                }
            }
        }
        let r = s.substring_char(a, b);
        proof {
            assert(r@ =~= spec_trim(s@));
        }
        r.to_owned()
    }
}

/// A raw pattern rooted at the project directory: trimmed, an absolute
/// pattern prefixed with the project-root marker `.`, any other pattern
/// prefixed with the relative-root marker `./` unless it carries it
/// already.
pub open spec fn spec_normalize_root(raw: Seq<char>) -> Seq<char> {
    let t = spec_trim(raw);
    if t.len() >= 1 && t[0] == '/' {
        "."@ + t
    } else if t.len() >= 2 && t[0] == '.' && t[1] == '/' {
        t
    } else {
        "./"@ + t
    }
}

/// Roots a raw ignore pattern at the project directory.
pub fn normalize_root(raw: &str) -> (r: String)
    ensures
        r@ == spec_normalize_root(raw@),
{
    let t = trim_spaces(raw);
    let t_len = t.as_str().unicode_len();
    if t_len >= 1 && t.as_str().get_char(0) == '/' {
        ".".to_owned().concat(t.as_str())
    } else if t_len >= 2 && t.as_str().get_char(0) == '.' && t.as_str().get_char(1) == '/' {
        t
    } else {
        "./".to_owned().concat(t.as_str())
    }
}

/// A pattern with the all-contents wildcard appended when it names an
/// existing directory (the caller answers that filesystem question).
pub open spec fn spec_expand_dir(pattern: Seq<char>, is_dir: bool) -> Seq<char> {
    if is_dir {
        pattern + "/*"@
    } else {
        pattern
    }
}

/// Appends `/*` to a pattern that names an existing directory, so the
/// directory's whole subtree is matched.
pub fn expand_dir_pattern(pattern: String, is_dir: bool) -> (r: String)
    ensures
        r@ == spec_expand_dir(pattern@, is_dir),
{
    if is_dir {
        pattern.concat("/*")
    } else {
        pattern
    }
}

// ------------------------------------------------------------------
// Choosing the raw pattern list.
// ------------------------------------------------------------------
/// The built-in default ignore patterns: private-key files,
/// version-control metadata, the build output directory, and compressed
/// archives.
pub open spec fn spec_default_patterns() -> Seq<Seq<char>> {
    seq!["*.pem"@, ".git/*"@, "_build/*"@, "*.tar.gz"@]
}

/// The built-in default ignore patterns.
pub fn default_patterns() -> (v: Vec<String>)
    ensures
        v.deep_view() == spec_default_patterns(),
{
    let mut v: Vec<String> = Vec::new();
    crate::cmd::push_arg(&mut v, "*.pem");
    crate::cmd::push_arg(&mut v, ".git/*");
    crate::cmd::push_arg(&mut v, "_build/*");
    crate::cmd::push_arg(&mut v, "*.tar.gz");
    assert(v.deep_view() =~= spec_default_patterns());
    v
}

/// A line of the project ignore file that states a pattern: its trimmed
/// form is neither empty nor a comment.
pub open spec fn states_pattern(line: Seq<char>) -> bool {
    spec_trim(line).len() > 0 && spec_trim(line)[0] != '#'
}

/// The pattern lines of an ignore file, in order.
pub open spec fn spec_pattern_lines(lines: Seq<Seq<char>>) -> Seq<Seq<char>>
    decreases lines.len(),
{
    if lines.len() == 0 {
        Seq::empty()
    } else {
        spec_pattern_lines(lines.drop_last()) + if states_pattern(lines.last()) {
            seq![lines.last()]
        } else {
            Seq::empty()
        }
    }
}

/// Keeps the lines of the project ignore file that state a pattern,
/// dropping blank lines and comments.
pub fn pattern_lines(lines: &Vec<String>) -> (v: Vec<String>)
    ensures
        v.deep_view() == spec_pattern_lines(lines.deep_view()),
{
    let mut v: Vec<String> = Vec::new();
    let n = lines.len();
    proof {
        assert(v.deep_view() =~~= Seq::<Seq<char>>::empty());
    }
    for i in 0..n
        invariant
            n == lines.len(),
            v.deep_view() == spec_pattern_lines(lines.deep_view().take(i as int)),
    {
        let line = &lines[i];
        let trimmed = trim_spaces(line.as_str());
        let keep = if trimmed.as_str().unicode_len() == 0 {
            false
        } else {
            trimmed.as_str().get_char(0) != '#'
        };
        let ghost pre = v.deep_view();
        if keep {
            v.push(line.clone());
            assert(v.deep_view() =~~= pre.push(line@));
        }
        proof {
            let upto = lines.deep_view().take(i + 1);
            assert(upto.drop_last() =~= lines.deep_view().take(i as int));
            assert(upto.last() == lines.deep_view()[i as int]);
            assert(v.deep_view() =~= spec_pattern_lines(upto));
        }
    }
    proof {
        assert(lines.deep_view().take(n as int) =~= lines.deep_view());
    }
    v
}

/// The raw patterns a run uses: the ignore file's pattern lines when the
/// file was readable — a full override, not a merge — and the built-in
/// defaults otherwise.
pub fn effective_patterns(ignore_file_lines: Option<Vec<String>>) -> (v: Vec<String>)
    ensures
        match ignore_file_lines {
            Some(lines) => v.deep_view() == spec_pattern_lines(lines.deep_view()),
            None => v.deep_view() == spec_default_patterns(),
        },
{
    match ignore_file_lines {
        Some(lines) => pattern_lines(&lines),
        None => default_patterns(),
    }
}

// ------------------------------------------------------------------
// The compiled ignore set.
// ------------------------------------------------------------------
/// Some pattern of the set matches the path.
pub open spec fn matched(patterns: Seq<Seq<char>>, path: Seq<char>) -> bool {
    exists|i: int| 0 <= i < patterns.len() && glob_matches(#[trigger] patterns[i], path)
}

/// The compiled ignore matcher: an ordered set of normalized patterns
/// and globset's matcher over exactly those patterns.
pub struct IgnoreSet {
    set: globset::GlobSet,
    patterns: Vec<String>,
}

impl IgnoreSet {
    /// The normalized patterns the set was built from, in order.
    pub closed spec fn spec_patterns(&self) -> Seq<Seq<char>> {
        self.patterns.deep_view()
    }

    /// The matcher matches over exactly the stored patterns, and every
    /// stored pattern with a single `*` among self-standing characters
    /// matches exactly the paths made of its literal prefix, anything,
    /// and its literal suffix.
    pub closed spec fn wf(&self) -> bool {
        &&& globset_globs(self.set) == self.patterns.deep_view()
        &&& forall|i: int, k: int, path: Seq<char>|
            0 <= i < self.patterns.deep_view().len() && single_star_at(
                self.patterns.deep_view()[i],
                k,
            ) ==> (glob_matches(self.patterns.deep_view()[i], path) <==> #[trigger] star_split(
                self.patterns.deep_view()[i],
                k,
                path,
            ))
    }

    /// Compiles an ignore set from normalized patterns. Construction
    /// succeeds exactly when every pattern is syntactically valid and
    /// the combined matcher compiles; it fails with `PatternError` —
    /// before any packaging I/O — whenever a pattern is invalid.
    pub fn build(patterns: Vec<String>) -> (r: Result<IgnoreSet, DeployError>)
        ensures
            r is Ok <==> (forall|i: int|
                0 <= i < patterns.deep_view().len() ==> glob_syntax_ok(
                    #[trigger] patterns.deep_view()[i],
                )) && set_compiles(patterns.deep_view()),
            r matches Ok(s) ==> {
                &&& s.wf()
                &&& s.spec_patterns() == patterns.deep_view()
            },
            r matches Err(e) ==> e is PatternError,
    {
        let mut builder = globset_builder_new();
        let n = patterns.len();
        proof {
            assert(patterns.deep_view().take(0) =~= Seq::<Seq<char>>::empty());
        }
        for idx in 0..n
            invariant
                n == patterns.len(),
                builder_globs(builder) == patterns.deep_view().take(idx as int),
                forall|i: int|
                    0 <= i < idx ==> glob_syntax_ok(#[trigger] patterns.deep_view()[i]),
                forall|i: int, k: int, path: Seq<char>|
                    0 <= i < idx && single_star_at(patterns.deep_view()[i], k) ==> (glob_matches(
                        patterns.deep_view()[i],
                        path,
                    ) <==> #[trigger] star_split(patterns.deep_view()[i], k, path)),
        {
            assert(patterns[idx as int]@ == patterns.deep_view()[idx as int]);
            match glob_new(patterns[idx].as_str()) {
                Ok(g) => {
                    globset_builder_add(&mut builder, g);
                    assert(patterns.deep_view().take(idx + 1) =~= patterns.deep_view().take(
                        idx as int,
                    ).push(patterns.deep_view()[idx as int]));
                },
                Err(e) => {
                    proof {
                        assert(!glob_syntax_ok(patterns.deep_view()[idx as int]));
                    }
                    return Err(DeployError::PatternError(glob_error_message(&e)));
                },
            }
        }
        proof {
            assert(patterns.deep_view().take(n as int) =~= patterns.deep_view());
        }
        match globset_builder_build(&builder) {
            Ok(set) => Ok(IgnoreSet { set, patterns }),
            Err(e) => Err(DeployError::PatternError(glob_error_message(&e))),
        }
    }

    /// Reports whether any pattern of the set matches the path.
    pub fn is_match(&self, path: &str) -> (r: bool)
        requires
            self.wf(),
        ensures
            r == matched(self.spec_patterns(), path@),
    {
        globset_is_match(&self.set, path)
    }

    /// Law (exact single-star matching): a stored pattern with one `*`
    /// among self-standing characters matches a path exactly when the
    /// path is the pattern's literal prefix, anything, and its literal
    /// suffix.
    pub proof fn lemma_single_star_matching(&self, i: int, k: int, path: Seq<char>)
        requires
            self.wf(),
            0 <= i < self.spec_patterns().len(),
            single_star_at(self.spec_patterns()[i], k),
        ensures
            glob_matches(self.spec_patterns()[i], path) <==> star_split(
                self.spec_patterns()[i],
                k,
                path,
            ),
    {
    }

    /// Law (whole subtrees are excluded): when the set holds a `<dir>/*`
    /// pattern of self-standing characters, every path under `<dir>/`
    /// is matched — the packager therefore excludes the directory's whole
    /// subtree.
    pub proof fn lemma_dir_pattern_matches_subtree(&self, i: int, path: Seq<char>)
        requires
            self.wf(),
            0 <= i < self.spec_patterns().len(),
            is_dir_star(self.spec_patterns()[i]),
            under_dir(self.spec_patterns()[i], path),
        ensures
            matched(self.spec_patterns(), path),
    {
        let p = self.spec_patterns()[i];
        assert(single_star_at(p, p.len() - 1));
        assert(path.skip(path.len() as int) =~= p.skip(p.len() as int));
        assert(star_split(p, p.len() - 1, path));
        assert(glob_matches(p, path));
    }
}

} // verus!
