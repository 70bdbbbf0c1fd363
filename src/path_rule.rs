use vstd::prelude::*;

verus! {

/// The regular expression that a script path has to match.
pub const SCRIPT_PATH_PATTERN: &'static str = "^\\S+__print_numbers[.]py$";

/// The file name that every accepted path ends with.
pub open spec fn script_file_name() -> Seq<char> {
    seq![
        '_', '_', 'p', 'r', 'i', 'n', 't', '_', 'n', 'u', 'm', 'b', 'e', 'r', 's', '.', 'p', 'y',
    ]
}

/// Unicode's White_Space property: what `\s` matches and `\S` does not.
pub open spec fn is_white_space(c: char) -> bool {
    let u = c as u32;
    (0x09 <= u && u <= 0x0d) || u == 0x20 || u == 0x85 || u == 0xa0 || u == 0x1680 || (0x2000
        <= u && u <= 0x200a) || u == 0x2028 || u == 0x2029 || u == 0x202f || u == 0x205f || u
        == 0x3000
}

/// A path fits the rule when it is the script's file name behind at least
/// one character, none of which is whitespace.
pub open spec fn fits_script_rule(path: Seq<char>) -> bool {
    let n = script_file_name().len();
    &&& path.len() > n
    &&& path.subrange(path.len() - n, path.len() as int) == script_file_name()
    &&& forall|i: int| 0 <= i < path.len() - n ==> !is_white_space(#[trigger] path[i])
}

/// Relies on regex::Regex::new, which compiles the fixed pattern (valid
/// syntax, so it never fails here), and on regex::Regex::is_match, which
/// reports whether the pattern matches the haystack. In that pattern `^` and
/// `$` are the start and end of the haystack, `\S` is any character outside
/// Unicode White_Space and `[.]` a literal dot; so there is a match exactly
/// when the whole haystack is one or more non-whitespace characters followed
/// by the file name.
#[verifier::external_body]
fn regex_is_match(pattern: &str, haystack: &str) -> (r: bool)
    requires
        pattern@ == SCRIPT_PATH_PATTERN@,
    ensures
        r == fits_script_rule(haystack@),
{
    regex::Regex::new(pattern).map(|re| re.is_match(haystack)).expect("Invalid regex pattern")
}

/// Whether `path` may be handed to the interpreter.
pub fn is_valid_script_path(path: &str) -> (r: bool)
    ensures
        r == fits_script_rule(path@),
{
    regex_is_match(SCRIPT_PATH_PATTERN, path)
}

} // verus!
