use vstd::prelude::*;
use vstd::string::*;
use crate::types::ToolCall;

verus! {

/// The directive by which the assistant asks for a file: the path stands
/// between the tags, on one line, and the shortest such span is taken.
pub const READ_FILE_PATTERN: &'static str = "<read_file>(.*?)</read_file>";

/// The answer to a request for a file outside the working directory.
pub const ACCESS_DENIED: &'static str = "Error: Access denied. You can only read files in the current directory.";

/// The text of the first capture group of the leftmost match of a regular
/// expression in a text; `None` where the expression does not compile, does not
/// match, or the group takes no part in the match.
pub uninterp spec fn first_group(pattern: Seq<char>, text: Seq<char>) -> Option<Seq<char>>;

/// Relies on regex::Regex::new, Regex::captures and Captures::get: the first
/// group of the leftmost match, as a string.
#[verifier::external_body]
fn capture_first_group(pattern: &str, text: &str) -> (r: Option<String>)
    ensures
        r matches Some(s) ==> first_group(pattern@, text@) == Some(s@),
        r is None ==> first_group(pattern@, text@) is None,
{
    let re = match regex::Regex::new(pattern) {
        Ok(re) => re,
        Err(_) => return None,
    };
    let caps = re.captures(text)?;
    let m = caps.get(1)?;
    Some(m.as_str().to_string())
}

/// A tool call as the path it asks for, if any.
pub open spec fn requested_path(t: ToolCall) -> Option<Seq<char>> {
    match t {
        ToolCall::ReadFile(p) => Some(p@),
        ToolCall::NoCall => None,
    }
}

/// The tool call that a captured path stands for.
pub fn tool_call_from_capture(cap: Option<String>) -> (r: ToolCall)
    ensures
        requested_path(r) == match cap {
            Some(p) => Some(p@),
            None => None::<Seq<char>>,
        },
{
    match cap {
        Some(p) => ToolCall::ReadFile(p),
        None => ToolCall::NoCall,
    }
}

/// Finds the first file read that the assistant's text asks for.
pub fn parse_tool_call(content: &str) -> (r: ToolCall)
    ensures
        requested_path(r) == first_group(READ_FILE_PATTERN@, content@),
{
    let cap = capture_first_group(READ_FILE_PATTERN, content);
    tool_call_from_capture(cap)
}

/// Whether a path climbs to a parent directory: it holds two dots in a row.
pub open spec fn has_parent_step(p: Seq<char>) -> bool {
    exists|i: int| 0 <= i && i + 1 < p.len() && #[trigger] p[i] == '.' && p[i + 1] == '.'
}

/// Whether a path is absolute: it starts with a slash.
pub open spec fn is_absolute(p: Seq<char>) -> bool {
    p.len() > 0 && p[0] == '/'
}

/// Whether a file may be read: only relative paths that do not climb out.
pub fn read_allowed(path: &str) -> (r: bool)
    ensures
        r == !(has_parent_step(path@) || is_absolute(path@)),
{
    let n = path.unicode_len();
    if n > 0 && path.get_char(0) == '/' {
        return false;
    }
    let mut i: usize = 0;
    while i < n && i + 1 < n
        invariant
            i <= n,
            n == path@.len(),
            forall|k: int| 0 <= k < i && k + 1 < n ==> !(#[trigger] path@[k] == '.' && path@[k + 1] == '.'),
        decreases n - i,
    {
        if path.get_char(i) == '.' && path.get_char(i + 1) == '.' {
            return false;
        }
        i = i + 1;
    }
    true
}

/// The answer handed back to the assistant for a file read, given what
/// reading it gave: its text, or the error's message.
pub open spec fn read_reply_text(path: Seq<char>, outcome: Result<Seq<char>, Seq<char>>) -> Seq<char> {
    match outcome {
        Ok(c) => "File '"@ + path + "' content: \n\n"@ + c + "\n"@,
        Err(e) => "Error reading file '"@ + path + "': "@ + e,
    }
}

/// Writes the answer for a file read.
pub fn read_reply(path: &str, outcome: Result<String, String>) -> (r: String)
    ensures
        r@ == read_reply_text(path@, match outcome {
            Ok(c) => Ok(c@),
            Err(e) => Err(e@),
        }),
{
    match outcome {
        Ok(c) => {
            let r = String::from_str("File '").concat(path).concat("' content: \n\n").concat(c.as_str()).concat("\n");
            r
        },
        Err(e) => {
            let r = String::from_str("Error reading file '").concat(path).concat("': ").concat(e.as_str());
            r
        },
    }
}

} // verus!
