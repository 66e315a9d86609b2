use vstd::prelude::*;

verus! {

/// Longest repository path, in characters, that is looked at further.
pub const MAX_PATH_LENGTH: usize = 4096;

/// Characters with the Unicode `White_Space` property.
pub open spec fn is_white_space(c: char) -> bool {
    ('\u{9}' <= c && c <= '\u{d}') || c == ' ' || c == '\u{85}' || c == '\u{a0}'
        || c == '\u{1680}' || ('\u{2000}' <= c && c <= '\u{200a}') || c == '\u{2028}'
        || c == '\u{2029}' || c == '\u{202f}' || c == '\u{205f}' || c == '\u{3000}'
}

/// A string that is empty once surrounding white space is trimmed.
pub open spec fn is_blank(s: Seq<char>) -> bool {
    forall|i: int| 0 <= i < s.len() ==> is_white_space(#[trigger] s[i])
}

pub open spec fn contains_char(s: Seq<char>, c: char) -> bool {
    exists|i: int| 0 <= i < s.len() && s[i] == c
}

/// Two consecutive dots anywhere in the string. This also covers the
/// home-relative (`~/../`) and absolute (`/../`) traversal forms.
pub open spec fn has_traversal(s: Seq<char>) -> bool {
    exists|i: int| 0 <= i && i + 1 < s.len() && #[trigger] s[i] == '.' && s[i + 1] == '.'
}

/// The string-level screening of a repository path, in the order the checks apply.
pub open spec fn screen(s: Seq<char>) -> Result<(), ValidationError> {
    if is_blank(s) {
        Err(ValidationError::EmptyPath)
    } else if s.len() > MAX_PATH_LENGTH {
        Err(ValidationError::PathTooLong)
    } else if contains_char(s, '\0') {
        Err(ValidationError::InvalidCharacters)
    } else if has_traversal(s) {
        Err(ValidationError::PathTraversal)
    } else {
        Ok(())
    }
}

/// Why a repository path was rejected.
#[derive(Debug, Clone, Copy, PartialEq, Eq, Structural)]
pub enum ValidationError {
    EmptyPath,
    PathTooLong,
    InvalidCharacters,
    PathTraversal,
    NotFound,
    NotDirectory,
    NotGitRepository,
}

fn char_is_whitespace(c: char) -> (r: bool)
    ensures
        r == is_white_space(c),
{
    ('\u{9}' <= c && c <= '\u{d}') || c == ' ' || c == '\u{85}' || c == '\u{a0}'
        || c == '\u{1680}' || ('\u{2000}' <= c && c <= '\u{200a}') || c == '\u{2028}'
        || c == '\u{2029}' || c == '\u{202f}' || c == '\u{205f}' || c == '\u{3000}'
}

/// The characters of a string, in order.
pub(crate) fn chars_of(s: &str) -> (r: Vec<char>)
    ensures
        r@ == s@,
{
    let mut r: Vec<char> = Vec::new();
    for c in it: s.chars()
        invariant
            it.seq() == s@,
            r@ == it.seq().take(it.index() as int),
    {
        r.push(c);
    }
    r
}

fn all_white_space(s: &Vec<char>) -> (r: bool)
    ensures
        r == is_blank(s@),
{
    let mut i: usize = 0;
    while i < s.len()
        invariant
            i <= s.len(),
            forall|j: int| 0 <= j < i ==> is_white_space(#[trigger] s@[j]),
        decreases s.len() - i,
    {
        if !char_is_whitespace(s[i]) {
            return false;
        }
        i = i + 1;
    }
    true
}

fn has_char(s: &Vec<char>, c: char) -> (r: bool)
    ensures
        r == contains_char(s@, c),
{
    let mut i: usize = 0;
    while i < s.len()
        invariant
            i <= s.len(),
            forall|j: int| 0 <= j < i ==> s@[j] != c,
        decreases s.len() - i,
    {
        if s[i] == c {
            return true;
        }
        i = i + 1;
    }
    false
}

fn has_double_dot(s: &Vec<char>) -> (r: bool)
    ensures
        r == has_traversal(s@),
{
    let mut i: usize = 0;
    while i < s.len() && s.len() - i >= 2
        invariant
            i <= s.len(),
            forall|j: int| 0 <= j < i && j + 1 < s.len() ==> !(#[trigger] s@[j] == '.' && s@[j + 1] == '.'),
        decreases s.len() - i,
    {
        if s[i] == '.' && s[i + 1] == '.' {
            return true;
        }
        i = i + 1;
    }
    false
}

/// Screens a repository path before anything on disk is looked at.
pub fn validate_path_string(path: &str) -> (r: Result<(), ValidationError>)
    ensures
        r == screen(path@),
{
    let s = chars_of(path);
    if all_white_space(&s) {
        return Err(ValidationError::EmptyPath);
    }
    if s.len() > MAX_PATH_LENGTH {
        return Err(ValidationError::PathTooLong);
    }
    if has_char(&s, '\0') {
        return Err(ValidationError::InvalidCharacters);
    }
    if has_double_dot(&s) {
        return Err(ValidationError::PathTraversal);
    }
    Ok(())
}

} // verus!

verus! {

impl ValidationError {
    /// The fixed text shown for each rejection; it never echoes the input.
    pub open spec fn text(self) -> Seq<char> {
        match self {
            ValidationError::EmptyPath => "Repository path cannot be empty"@,
            ValidationError::PathTooLong => "Repository path exceeds maximum length"@,
            ValidationError::InvalidCharacters => "Repository path contains invalid characters"@,
            ValidationError::PathTraversal => "Repository path contains path traversal sequences"@,
            ValidationError::NotFound => "Repository path does not exist"@,
            ValidationError::NotDirectory => "Repository path is not a directory"@,
            ValidationError::NotGitRepository => "Repository path is not a git repository"@,
        }
    }

    /// The message for this rejection.
    pub fn to_string(&self) -> (r: String)
        ensures
            r@ == self.text(),
    {
        match self {
            ValidationError::EmptyPath => String::from_str("Repository path cannot be empty"),
            ValidationError::PathTooLong => String::from_str("Repository path exceeds maximum length"),
            ValidationError::InvalidCharacters => String::from_str("Repository path contains invalid characters"),
            ValidationError::PathTraversal => String::from_str("Repository path contains path traversal sequences"),
            ValidationError::NotFound => String::from_str("Repository path does not exist"),
            ValidationError::NotDirectory => String::from_str("Repository path is not a directory"),
            ValidationError::NotGitRepository => String::from_str("Repository path is not a git repository"),
        }
    }
}

impl From<ValidationError> for String {
    fn from(err: ValidationError) -> (r: String)
        ensures
            r@ == err.text(),
    {
        err.to_string()
    }
}

/// A `String` cannot be built from its characters in spec code, so `from`
/// promises nothing through this impl; its own `ensures` gives the text.
impl vstd::std_specs::convert::FromSpecImpl<ValidationError> for String {
    open spec fn obeys_from_spec() -> bool {
        false
    }

    open spec fn from_spec(v: ValidationError) -> String {
        arbitrary()
    }
}

} // verus!

verus! {

/// The message given for any format other than the accepted ones.
pub open spec fn format_message() -> Seq<char> {
    "Format must be 'json' or 'text'"@
}

/// The output formats the analysis tool is asked for.
pub open spec fn is_valid_format(f: Seq<char>) -> bool {
    f == "json"@ || f == "text"@
}

fn same_chars(a: &Vec<char>, b: &Vec<char>) -> (r: bool)
    ensures
        r == (a@ == b@),
{
    if a.len() != b.len() {
        return false;
    }
    let mut i: usize = 0;
    while i < a.len()
        invariant
            i <= a.len(),
            a.len() == b.len(),
            forall|j: int| 0 <= j < i ==> a@[j] == b@[j],
        decreases a.len() - i,
    {
        if a[i] != b[i] {
            return false;
        }
        i = i + 1;
    }
    assert(a@ =~= b@);
    true
}

/// Accepts exactly the format names `json` and `text`.
pub fn validate_format(format: &str) -> (r: Result<(), String>)
    ensures
        r is Ok <==> is_valid_format(format@),
        r matches Err(m) ==> m@ == format_message(),
{
    let f = chars_of(format);
    if same_chars(&f, &chars_of("json")) || same_chars(&f, &chars_of("text")) {
        Ok(())
    } else {
        Err(String::from_str("Format must be 'json' or 'text'"))
    }
}

pub open spec fn view_opt(o: Option<&str>) -> Option<Seq<char>> {
    match o {
        Some(s) => Some(s@),
        None => None,
    }
}

/// A leading `~` that stands alone or before `/` is replaced by the home
/// directory, when one is known; any other path is left as it is.
pub open spec fn home_expanded(p: Seq<char>, home: Option<Seq<char>>) -> Seq<char> {
    match home {
        Some(h) => if p.len() > 0 && p[0] == '~' && (p.len() == 1 || p[1] == '/') {
            h + p.skip(1)
        } else {
            p
        },
        None => p,
    }
}

/// Expands the home-directory shorthand at the start of a path.
pub fn expand_tilde(path: &str, home: Option<&str>) -> (r: String)
    ensures
        r@ == home_expanded(path@, view_opt(home)),
{
    let chars = chars_of(path);
    match home {
        Some(h) => {
            if chars.len() > 0 && chars[0] == '~' && (chars.len() == 1 || chars[1] == '/') {
                let mut r = String::from_str(h);
                r.append(path.substring_char(1, chars.len()));
                r
            } else {
                String::from_str(path)
            }
        },
        None => String::from_str(path),
    }
}

/// What the filesystem reported about a canonical path.
#[derive(Debug, Clone, Copy)]
pub struct PathFacts {
    pub exists: bool,
    pub is_dir: bool,
    pub has_marker: bool,
}

/// How a path that passed screening is judged, given its canonical form
/// (`None` when it could not be canonicalized) and what the filesystem said of it.
pub open spec fn resolution(canonical: Option<String>, facts: PathFacts) -> Result<String, ValidationError> {
    match canonical {
        None => Err(ValidationError::NotFound),
        Some(c) => if !facts.exists {
            Err(ValidationError::NotFound)
        } else if !facts.is_dir {
            Err(ValidationError::NotDirectory)
        } else if !facts.has_marker {
            Err(ValidationError::NotGitRepository)
        } else {
            Ok(c)
        },
    }
}

/// An absolute path as the platform writes it: from the root (`/`) on Unix,
/// or in the extended-length form (starting with `\\?\`) on Windows.
pub open spec fn is_absolute(p: Seq<char>) -> bool {
    p.len() > 0 && (p[0] == '/' || p[0] == '\\')
}

/// The results that validating a repository path can have: the screening's
/// rejection, or else a judgement of some canonical form and filesystem
/// report, where an accepted path is always absolute.
pub open spec fn possible_validation(path: Seq<char>, r: Result<String, ValidationError>) -> bool {
    match screen(path) {
        Err(e) => r == Err::<String, ValidationError>(e),
        Ok(_) => {
            &&& exists|c: Option<String>, f: PathFacts| r == #[trigger] resolution(c, f)
            &&& r matches Ok(p) ==> is_absolute(p@)
        },
    }
}

/// Where the repository marker sits inside a directory.
pub fn marker_path(dir: &str) -> (r: String)
    ensures
        r@ == dir@ + "/.git"@,
{
    let mut r = String::from_str(dir);
    r.append("/.git");
    r
}

/// Judges a canonicalized path by what the filesystem reported of it.
pub fn resolve_canonical(canonical: Option<String>, facts: PathFacts) -> (r: Result<String, ValidationError>)
    ensures
        r == resolution(canonical, facts),
{
    match canonical {
        None => Err(ValidationError::NotFound),
        Some(c) => if !facts.exists {
            Err(ValidationError::NotFound)
        } else if !facts.is_dir {
            Err(ValidationError::NotDirectory)
        } else if !facts.has_marker {
            Err(ValidationError::NotGitRepository)
        } else {
            Ok(c)
        },
    }
}

/// Relies on std::path::Path::canonicalize: the absolute form of an existing
/// path with symlinks resolved, or `None` when that fails or is not UTF-8.
/// That form starts at the root on Unix and uses the extended-length syntax
/// (a leading backslash) on Windows.
#[verifier::external_body]
fn canonicalize_path(path: &str) -> (r: Option<String>)
    ensures
        r matches Some(c) ==> is_absolute(c@),
{
    std::path::Path::new(path).canonicalize().ok().and_then(|c| c.into_os_string().into_string().ok())
}

/// Relies on std::path::Path::exists: whether the path names something on disk.
#[verifier::external_body]
fn path_exists(path: &str) -> (r: bool) {
    std::path::Path::new(path).exists()
}

/// Relies on std::path::Path::is_dir: whether the path names a directory.
#[verifier::external_body]
fn path_is_dir(path: &str) -> (r: bool) {
    std::path::Path::new(path).is_dir()
}

/// Screens a repository path, then resolves it on disk to the canonical path
/// of an existing directory that holds the repository marker.
pub fn validate_repo_path(path: &str, home: Option<&str>) -> (r: Result<String, ValidationError>)
    ensures
        possible_validation(path@, r),
{
    match validate_path_string(path) {
        Err(e) => {
            return Err(e);
        },
        Ok(()) => {},
    }
    let expanded = expand_tilde(path, home);
    let canonical = canonicalize_path(expanded.as_str());
    let facts = match &canonical {
        None => PathFacts { exists: false, is_dir: false, has_marker: false },
        Some(c) => {
            let exists = path_exists(c.as_str());
            let is_dir = exists && path_is_dir(c.as_str());
            let marker = marker_path(c.as_str());
            let has_marker = is_dir && path_is_dir(marker.as_str());
            PathFacts { exists, is_dir, has_marker }
        },
    };
    let r = resolve_canonical(canonical, facts);
    assert(r == resolution(canonical, facts));
    r
}

} // verus!

verus! {

/// A path that holds a NUL character, and is within the length limit, is
/// rejected for invalid characters whatever else it holds.
pub proof fn lemma_nul_rejected(s: Seq<char>)
    requires
        contains_char(s, '\0'),
        s.len() <= MAX_PATH_LENGTH,
    ensures
        screen(s) == Err::<(), ValidationError>(ValidationError::InvalidCharacters),
{
    let i = choose|i: int| 0 <= i < s.len() && s[i] == '\0';
    assert(!is_white_space(s[i]));
}

/// A path that holds `..` anywhere, and no NUL character, and is within the
/// length limit, is rejected as a traversal.
pub proof fn lemma_double_dot_rejected(s: Seq<char>)
    requires
        has_traversal(s),
        !contains_char(s, '\0'),
        s.len() <= MAX_PATH_LENGTH,
    ensures
        screen(s) == Err::<(), ValidationError>(ValidationError::PathTraversal),
{
    let i = choose|i: int| 0 <= i && i + 1 < s.len() && #[trigger] s[i] == '.' && s[i + 1] == '.';
    assert(!is_white_space(s[i]));
}

/// A path longer than the limit that is not all white space is rejected as
/// too long.
pub proof fn lemma_long_rejected(s: Seq<char>)
    requires
        s.len() > MAX_PATH_LENGTH,
        !is_blank(s),
    ensures
        screen(s) == Err::<(), ValidationError>(ValidationError::PathTooLong),
{
}

/// An empty or all-white-space path is rejected as empty.
pub proof fn lemma_blank_rejected(s: Seq<char>)
    requires
        is_blank(s),
    ensures
        screen(s) == Err::<(), ValidationError>(ValidationError::EmptyPath),
{
}

} // verus!
