use vstd::prelude::*;
use vstd::string::StringExecFns;
use vstd::string::StrSliceExecFns;

verus! {

/// `regex::Regex`, a compiled regular expression. It is held unread.
#[verifier::external_type_specification]
#[verifier::external_body]
pub struct ExRegex(regex::Regex);

/// `regex::Error`, why a pattern did not compile. It is only rendered.
#[verifier::external_type_specification]
#[verifier::external_body]
pub struct ExRegexError(regex::Error);

/// Whether `regex::Regex::new` accepts `pattern`.
pub uninterp spec fn regex_compiles(pattern: Seq<char>) -> bool;

/// Whether the regular expression compiled from `pattern` finds a match
/// somewhere in `text`.
pub uninterp spec fn regex_match(pattern: Seq<char>, text: Seq<char>) -> bool;

/// The characters that have a meaning of their own in a regular expression.
pub open spec fn is_meta_character(c: char) -> bool {
    c == '\\' || c == '.' || c == '+' || c == '*' || c == '?' || c == '(' || c == ')' || c == '|'
        || c == '[' || c == ']' || c == '{' || c == '}' || c == '^' || c == '$' || c == '#'
        || c == '&' || c == '-' || c == '~'
}

/// `text` with a backslash put before each of its meta characters.
pub open spec fn escaped(text: Seq<char>) -> Seq<char>
    decreases text.len(),
{
    if text.len() == 0 {
        Seq::empty()
    } else if is_meta_character(text.last()) {
        escaped(text.drop_last()).push('\\').push(text.last())
    } else {
        escaped(text.drop_last()).push(text.last())
    }
}

/// The pattern of the filter that is used when no target is given: it matches
/// the empty path and every path that does not start with `<`.
pub open spec fn default_pattern() -> Seq<char> {
    "^(|[^<].*)$"@
}

/// The pattern that selects the source files of `target`: the target's name,
/// taken literally, below any directories, optionally followed by further path
/// segments, and ending in `.py`.
pub open spec fn target_pattern(target: Seq<char>) -> Seq<char> {
    "^(.+/)?"@ + escaped(target) + "(/.+)?\\.py$"@
}

/// The pattern of the filter for `target`.
pub open spec fn pattern_for(target: Option<Seq<char>>) -> Seq<char> {
    match target {
        Some(t) => target_pattern(t),
        None => default_pattern(),
    }
}

/// A path that names no file on disk: the empty path, and the names that the
/// interpreter gives to code without a file, which start with `<`.
pub open spec fn is_synthetic(path: Seq<char>) -> bool {
    path.len() == 0 || path[0] == '<'
}

/// Why a filter could not be built.
#[derive(Debug)]
pub enum FilterError {
    /// The regular expression engine refused the pattern; `message` is what it
    /// said.
    InvalidPattern { message: String },
}

/// A predicate on file paths, given by a regular expression.
pub struct Filter {
    pattern: String,
    regex: regex::Regex,
}

/// Calls `regex::escape`, which copies `text` and puts a backslash in front of
/// every character for which `regex_syntax::is_meta_character` holds.
#[verifier::external_body]
fn regex_escape(text: &str) -> (out: String)
    ensures
        out@ == escaped(text@),
{
    regex::escape(text)
}

/// Calls `regex::Regex::new` on `pattern` and keeps the pattern beside the
/// compiled expression. The call succeeds exactly when the engine accepts the
/// pattern, which is what `regex_compiles` names.
#[verifier::external_body]
fn regex_new(pattern: String) -> (r: Result<Filter, regex::Error>)
    ensures
        r is Ok <==> regex_compiles(pattern@),
        r matches Ok(f) ==> f.pattern@ == pattern@,
{
    match regex::Regex::new(&pattern) {
        Ok(regex) => Ok(Filter { pattern, regex }),
        Err(e) => Err(e),
    }
}

/// Calls `regex::Regex::is_match` on the expression held by `filter`, which
/// was compiled from the pattern held beside it. The answer is what
/// `regex_match` names for that pattern and `text`.
#[verifier::external_body]
fn regex_is_match(filter: &Filter, text: &str) -> (found: bool)
    ensures
        found == regex_match(filter.pattern@, text@),
{
    filter.regex.is_match(text)
}

/// Renders a `regex::Error` through its `Display` impl.
#[verifier::external_body]
fn regex_error_message(error: &regex::Error) -> (message: String)
{
    error.to_string()
}

/// Whether `path` names no file on disk.
pub fn path_is_synthetic(path: &str) -> (b: bool)
    ensures
        b == is_synthetic(path@),
{
    if path.is_empty() {
        true
    } else {
        path.get_char(0) == '<'
    }
}

impl Filter {
    /// The pattern that this filter was compiled from.
    pub closed spec fn pattern(&self) -> Seq<char> {
        self.pattern@
    }

    /// Whether this filter accepts `path`.
    pub open spec fn accepts(&self, path: Seq<char>) -> bool {
        regex_match(self.pattern(), path)
    }

    /// Compiles `pattern` into a filter.
    pub fn from_pattern(pattern: &str) -> (r: Result<Filter, FilterError>)
        ensures
            r is Ok <==> regex_compiles(pattern@),
            r matches Ok(f) ==> f.pattern() == pattern@,
    {
        match regex_new(pattern.to_owned()) {
            Ok(filter) => Ok(filter),
            Err(e) => Err(FilterError::InvalidPattern { message: regex_error_message(&e) }),
        }
    }

    /// The filter for a session: for the source files of `target` where one is
    /// given, else for every path that is not marked as synthetic.
    pub fn new(target: Option<&str>) -> (r: Result<Filter, FilterError>)
        ensures
            r is Ok <==> regex_compiles(
                pattern_for(
                    match target {
                        Some(t) => Some(t@),
                        None => None,
                    },
                ),
            ),
            r matches Ok(f) ==> f.pattern() == pattern_for(
                match target {
                    Some(t) => Some(t@),
                    None => None,
                },
            ),
    {
        match target {
            Some(t) => {
                let mut pattern = String::from_str("^(.+/)?");
                let literal = regex_escape(t);
                pattern.append(literal.as_str());
                pattern.append("(/.+)?\\.py$");
                Filter::from_pattern(pattern.as_str())
            },
            None => Filter::from_pattern("^(|[^<].*)$"),
        }
    }

    /// The pattern that this filter was compiled from.
    pub fn as_str(&self) -> (s: &str)
        ensures
            s@ == self.pattern(),
    {
        self.pattern.as_str()
    }

    /// Whether this filter accepts `path`.
    pub fn is_match(&self, path: &str) -> (b: bool)
        ensures
            b == self.accepts(path@),
    {
        regex_is_match(self, path)
    }
}

} // verus!
