//! Names and addresses of the editor windows.
use vstd::prelude::*;
use vstd::string::StrSliceExecFns;
use vstd::utf8::encode_utf8;

verus! {

/// Whether `c` is alphabetic or numeric in the Unicode sense.
pub uninterp spec fn alphanumeric(c: char) -> bool;

/// Relies on `char::is_alphanumeric`: a property of the character alone, which
/// holds of the ASCII letters and digits.
#[verifier::external_body]
fn is_alphanumeric(c: char) -> (r: bool)
    ensures
        r == alphanumeric(c),
        ('a' <= c <= 'z' || 'A' <= c <= 'Z' || '0' <= c <= '9') ==> r,
{
    c.is_alphanumeric()
}

/// Relies on `String::push`: appends one character.
#[verifier::external_body]
fn push_char(s: &mut String, c: char)
    ensures
        final(s)@ == old(s)@.push(c),
{
    s.push(c)
}

/// A character allowed in a window label as it stands.
pub open spec fn label_char_kept(c: char) -> bool {
    alphanumeric(c) || c == '-' || c == '/' || c == ':' || c == '_'
}

/// `path` with every character that a window label cannot hold replaced by `_`.
pub open spec fn sanitized(path: Seq<char>) -> Seq<char> {
    Seq::new(path.len(), |i: int| if label_char_kept(path[i]) { path[i] } else { '_' })
}

/// Makes `path` usable inside a window label.
pub fn sanitize_label(path: &str) -> (r: String)
    ensures
        r@ == sanitized(path@),
{
    let n = path.unicode_len();
    let mut r = String::new();
    let mut i: usize = 0;
    while i < n
        invariant
            n == path@.len(),
            i <= n,
            r@ == sanitized(path@).subrange(0, i as int),
        decreases n - i,
    {
        let c = path.get_char(i);
        if is_alphanumeric(c) || c == '-' || c == '/' || c == ':' || c == '_' {
            push_char(&mut r, c);
        } else {
            push_char(&mut r, '_');
        }
        assert(r@ =~= sanitized(path@).subrange(0, i + 1));
        i = i + 1;
    }
    assert(r@ =~= sanitized(path@));
    r
}

/// Prefix of every editor window's label.
pub const EDITOR_LABEL_PREFIX: &'static str = "editor_";

/// Page of the editor, before its percent-encoded project path.
pub const EDITOR_PAGE: &'static str = "index.html#/editor?path=";

/// The label of the editor window of the project at `path`.
pub fn editor_window_label(path: &str) -> (r: String)
    ensures
        r@ == EDITOR_LABEL_PREFIX@ + sanitized(path@),
{
    let s = sanitize_label(path);
    EDITOR_LABEL_PREFIX.to_owned().concat(s.as_str())
}

/// Bytes that percent-encoding leaves as they are: ASCII letters and digits
/// and `-`, `.`, `_`, `~`.
pub open spec fn unreserved(b: u8) -> bool {
    (48 <= b <= 57) || (65 <= b <= 90) || (97 <= b <= 122) || b == 45 || b == 46 || b == 95
        || b == 126
}

/// The upper-case hexadecimal digit of `d`, for `d < 16`.
pub open spec fn hex_digit(d: u8) -> char {
    if d < 10 {
        ((48 + d) as u8) as char
    } else {
        ((55 + d) as u8) as char
    }
}

/// `bytes` percent-encoded: each reserved byte becomes `%` and two upper-case
/// hexadecimal digits.
pub open spec fn percent_encoded(bytes: Seq<u8>) -> Seq<char>
    decreases bytes.len(),
{
    if bytes.len() == 0 {
        Seq::empty()
    } else {
        let b = bytes[0];
        let head = if unreserved(b) {
            seq![b as char]
        } else {
            seq!['%', hex_digit(b / 16), hex_digit(b % 16)]
        };
        head + percent_encoded(bytes.drop_first())
    }
}

/// Relies on `urlencoding::encode`: percent-encodes the UTF-8 bytes of `s`,
/// keeping ASCII letters, digits and `-`, `.`, `_`, `~`.
#[verifier::external_body]
fn url_encode(s: &str) -> (r: String)
    ensures
        r@ == percent_encoded(encode_utf8(s@)),
{
    urlencoding::encode(s).into_owned()
}

/// The address the editor window of the project at `path` opens.
pub fn editor_url(path: &str) -> (r: String)
    ensures
        r@ == EDITOR_PAGE@ + percent_encoded(encode_utf8(path@)),
{
    let enc = url_encode(path);
    EDITOR_PAGE.to_owned().concat(enc.as_str())
}

} // verus!
