//! Small pieces of text handling: whitespace, tab titles, environment
//! values.
use vstd::prelude::*;
use vstd::string::StringSliceAdditionalSpecFns;
use vstd::utf8::*;

verus! {

broadcast use vstd::utf8::encode_utf8_decode_utf8;

/// Whether two string slices hold the same characters.
pub fn str_equal(a: &str, b: &str) -> (r: bool)
    ensures
        r == (a@ == b@),
{
    let n = a.unicode_len();
    if n != b.unicode_len() {
        return false;
    }
    let mut i: usize = 0;
    while i < n
        invariant
            n == a@.len(),
            n == b@.len(),
            0 <= i <= n,
            forall|j: int| 0 <= j < i ==> #[trigger] a@[j] == b@[j],
        decreases n - i,
    {
        if a.get_char(i) != b.get_char(i) {
            return false;
        }
        i = i + 1;
    }
    assert(a@ =~= b@);
    true
}

/// The Unicode `White_Space` property, which is what `char::is_whitespace`
/// tests (and so what `str::trim` strips).
pub open spec fn is_white_space(c: char) -> bool {
    let u = c as u32;
    ||| 0x9 <= u <= 0xD
    ||| u == 0x20
    ||| u == 0x85
    ||| u == 0xA0
    ||| u == 0x1680
    ||| 0x2000 <= u <= 0x200A
    ||| u == 0x2028
    ||| u == 0x2029
    ||| u == 0x202F
    ||| u == 0x205F
    ||| u == 0x3000
}

pub fn is_white_space_char(c: char) -> (r: bool)
    ensures
        r == is_white_space(c),
{
    let u = c as u32;
    (0x9 <= u && u <= 0xD) || u == 0x20 || u == 0x85 || u == 0xA0 || u == 0x1680 || (0x2000 <= u
        && u <= 0x200A) || u == 0x2028 || u == 0x2029 || u == 0x202F || u == 0x205F || u == 0x3000
}

/// Every character is white space: the text trims to nothing.
pub open spec fn is_blank(s: Seq<char>) -> bool {
    forall|i: int| 0 <= i < s.len() ==> is_white_space(#[trigger] s[i])
}

/// Whether `s.trim()` is empty.
pub fn trims_to_empty(s: &str) -> (r: bool)
    ensures
        r == is_blank(s@),
{
    let n = s.unicode_len();
    let mut i: usize = 0;
    while i < n
        invariant
            n == s@.len(),
            0 <= i <= n,
            forall|j: int| 0 <= j < i ==> is_white_space(#[trigger] s@[j]),
        decreases n - i,
    {
        let c = s.get_char(i);
        if !is_white_space_char(c) {
            return false;
        }
        i = i + 1;
    }
    true
}

/// The longest byte length of a terminal title shown whole.
pub open spec fn title_limit() -> int {
    22
}

/// The label shown for a terminal title: titles longer than 22 bytes
/// (UTF-8) are cut to their first 21 bytes and end with an ellipsis.
pub open spec fn title_display(title: Seq<char>) -> Seq<char> {
    let bytes = encode_utf8(title);
    if bytes.len() > title_limit() {
        decode_utf8(bytes.subrange(0, 21)) + seq!['\u{2026}']
    } else {
        title
    }
}

/// A title can be cut: it is short, or its 21st byte ends a character.
pub open spec fn title_cut_ok(title: Seq<char>) -> bool {
    encode_utf8(title).len() > title_limit() ==> is_char_boundary(encode_utf8(title), 21)
}

/// The label text for a terminal title (`title` is not empty where the
/// pane uses it).
pub fn terminal_title_display(title: &str) -> (r: String)
    requires
        title_cut_ok(title@),
    ensures
        r@ == title_display(title@),
{
    let byte_len = title.as_bytes().len();
    if byte_len > 22 {
        let (head, _tail) = title.split_at(21);
        let mut out = head.to_owned();
        proof {
            reveal_strlit("\u{2026}");
            assert(head.spec_bytes() == encode_utf8(head@));
            assert(encode_utf8(head@) == encode_utf8(title@).subrange(0, 21));
            assert(decode_utf8(encode_utf8(head@)) == head@);
        }
        out.append("\u{2026}");
        out
    } else {
        title.to_owned()
    }
}

/// The new value of an environment variable that gets `value` appended:
/// `existing,value` when it already holds a non-empty value, else `value`.
pub open spec fn appended_env(existing: Option<Seq<char>>, value: Seq<char>) -> Seq<char> {
    match existing {
        Some(e) => if e.len() > 0 {
            e + seq![','] + value
        } else {
            value
        },
        None => value,
    }
}

pub fn appended_env_value(existing: Option<&str>, value: &str) -> (r: String)
    ensures
        r@ == appended_env(
            match existing {
                Some(e) => Some(e@),
                None => None,
            },
            value@,
        ),
{
    proof {
        reveal_strlit(",");
    }
    match existing {
        Some(e) => {
            if e.unicode_len() > 0 {
                let mut out = e.to_owned();
                out.append(",");
                out.append(value);
                out
            } else {
                value.to_owned()
            }
        },
        None => value.to_owned(),
    }
}

/// The shell that a new terminal runs: `$SHELL` when it is set, else
/// `/bin/bash`.
pub fn shell_or_default(shell_var: Option<String>) -> (r: String)
    ensures
        r@ == (match shell_var {
            Some(s) => s@,
            None => "/bin/bash"@,
        }),
{
    match shell_var {
        Some(s) => s,
        None => "/bin/bash".to_owned(),
    }
}

} // verus!
