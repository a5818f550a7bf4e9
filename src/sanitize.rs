//! Destination file names: characters that file systems refuse are replaced
//! and reserved device names are disambiguated. Matching is done by `regex`.

use vstd::prelude::*;

verus! {

/// Whether `pattern` compiles as a regular expression.
pub uninterp spec fn regex_compiles(pattern: Seq<char>) -> bool;

/// Every match of `pattern` in `text`, left to right and without overlaps,
/// replaced by `rep`.
pub uninterp spec fn regex_replaced(pattern: Seq<char>, text: Seq<char>, rep: Seq<char>) -> Seq<
    char,
>;

/// Whether `pattern` matches somewhere in `text`.
pub uninterp spec fn regex_found(pattern: Seq<char>, text: Seq<char>) -> bool;

/// Relies on `regex::Regex::new` and `regex::Regex::replace_all`: compiles
/// `pattern`, failing on one that does not parse or exceeds the size limit,
/// and replaces every match in `text` by `rep`.
#[verifier::external_body]
fn regex_replace_all(pattern: &str, text: &str, rep: &str) -> (r: Option<String>)
    ensures
        r is Some <==> regex_compiles(pattern@),
        r matches Some(s) ==> s@ == regex_replaced(pattern@, text@, rep@),
{
    match regex::Regex::new(pattern) {
        Ok(re) => Some(re.replace_all(text, rep).to_string()),
        Err(_) => None,
    }
}

/// Relies on `regex::Regex::new` and `regex::Regex::is_match`: compiles
/// `pattern`, failing as above, and tells whether it matches somewhere in
/// `text`.
#[verifier::external_body]
fn regex_is_match(pattern: &str, text: &str) -> (r: Option<bool>)
    ensures
        r is Some <==> regex_compiles(pattern@),
        r matches Some(b) ==> b == regex_found(pattern@, text@),
{
    match regex::Regex::new(pattern) {
        Ok(re) => Some(re.is_match(text)),
        Err(_) => None,
    }
}

/// Characters that file names may not hold: those Windows refuses, and the
/// control characters.
pub const FORBIDDEN_CHARS: &'static str = r#"[<>:"/\\|?*\x00-\x1F]"#;

/// File names that Windows reserves for devices, with or without an extension.
pub const RESERVED_NAMES: &'static str = r#"(?i)^(con|prn|aux|nul|com[1-9]|lpt[1-9])(?:\..*)?$"#;

/// `s` without its trailing dots and spaces.
pub open spec fn trim_dots_spaces(s: Seq<char>) -> Seq<char>
    decreases s.len(),
{
    if s.len() > 0 && (s.last() == '.' || s.last() == ' ') {
        trim_dots_spaces(s.drop_last())
    } else {
        s
    }
}

/// The final name, given the name with forbidden characters replaced and
/// whether it is a reserved name: a reserved name gets an underscore, and
/// trailing dots and spaces go.
pub open spec fn finish_sanitized_spec(replaced: Seq<char>, reserved: bool) -> Seq<char> {
    trim_dots_spaces(if reserved { replaced + "_"@ } else { replaced })
}

/// Completes a name from the replacement step and the reserved-name test.
pub fn finish_sanitized(replaced: &str, reserved: bool) -> (r: String)
    ensures
        r@ == finish_sanitized_spec(replaced@, reserved),
{
    let mut s = String::from_str(replaced);
    if reserved {
        s.append("_");
    }
    let t = s.as_str();
    let ghost whole = t@;
    let mut k: usize = t.unicode_len();
    assert(t@.subrange(0, k as int) =~= whole);
    while k > 0 && (t.get_char(k - 1) == '.' || t.get_char(k - 1) == ' ')
        invariant
            k <= t@.len(),
            t@ == whole,
            trim_dots_spaces(t@.subrange(0, k as int)) == trim_dots_spaces(whole),
        decreases k,
    {
        assert(t@.subrange(0, k as int).drop_last() =~= t@.subrange(0, k - 1));
        k = k - 1;
    }
    assert(t@.subrange(0, k as int) == trim_dots_spaces(whole));
    let r = t.substring_char(0, k);
    String::from_str(r)
}

/// The sanitized form of `name`.
pub open spec fn sanitized(name: Seq<char>) -> Seq<char> {
    let replaced = regex_replaced(FORBIDDEN_CHARS@, name, "_"@);
    finish_sanitized_spec(replaced, regex_found(RESERVED_NAMES@, replaced))
}

/// Makes `name` usable as a file name on common file systems: each forbidden
/// character becomes `_`, a reserved device name gets a trailing `_`, and
/// trailing dots and spaces are removed. `None` where an expression did not
/// compile.
pub fn sanitize_filename(name: &str) -> (r: Option<String>)
    ensures
        r is Some <==> regex_compiles(FORBIDDEN_CHARS@) && regex_compiles(RESERVED_NAMES@),
        r matches Some(s) ==> s@ == sanitized(name@),
{
    let replaced = match regex_replace_all(FORBIDDEN_CHARS, name, "_") {
        Some(s) => s,
        None => return None,
    };
    let is_reserved = match regex_is_match(RESERVED_NAMES, replaced.as_str()) {
        Some(b) => b,
        None => return None,
    };
    Some(finish_sanitized(replaced.as_str(), is_reserved))
}

/// The spelled-out destination name of a record: title and format joined by a dot.
pub open spec fn file_name_spec(title: Seq<char>, format: Seq<char>) -> Seq<char> {
    title + "."@ + format
}

/// The sanitized destination name for a record with `title` and `format`.
pub fn download_file_name(title: &str, format: &str) -> (r: Option<String>)
    ensures
        r is Some <==> regex_compiles(FORBIDDEN_CHARS@) && regex_compiles(RESERVED_NAMES@),
        r matches Some(s) ==> s@ == sanitized(file_name_spec(title@, format@)),
{
    let mut joined = String::from_str(title);
    joined.append(".");
    joined.append(format);
    sanitize_filename(joined.as_str())
}

} // verus!
