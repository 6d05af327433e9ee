//! The text that a dragged tab carries: `"<pane id>:<tab id>"`, the pane
//! id in decimal. Dropping reads the pane id back with `str::parse::<u32>`
//! semantics and takes the rest as the tab id.
use vstd::prelude::*;

verus! {

pub open spec fn is_ascii_digit(c: char) -> bool {
    '0' <= c && c <= '9'
}

pub open spec fn digit_of(c: char) -> int {
    (c as u32) as int - 48
}

/// The digit character for `d < 10`.
pub open spec fn digit_char(d: int) -> char {
    if d == 0 {
        '0'
    } else if d == 1 {
        '1'
    } else if d == 2 {
        '2'
    } else if d == 3 {
        '3'
    } else if d == 4 {
        '4'
    } else if d == 5 {
        '5'
    } else if d == 6 {
        '6'
    } else if d == 7 {
        '7'
    } else if d == 8 {
        '8'
    } else {
        '9'
    }
}

pub open spec fn all_digits(s: Seq<char>) -> bool {
    forall|i: int| 0 <= i < s.len() ==> is_ascii_digit(#[trigger] s[i])
}

/// The number that a string of decimal digits denotes.
pub open spec fn decimal_value(s: Seq<char>) -> int
    decreases s.len(),
{
    if s.len() == 0 {
        0
    } else {
        decimal_value(s.drop_last()) * 10 + digit_of(s.last())
    }
}

/// What `str::parse::<u32>` accepts: an optional `+`, then one or more
/// ASCII digits whose value fits in a `u32`.
pub open spec fn parsed_u32(s: Seq<char>) -> Option<u32> {
    let d = if s.len() > 0 && s[0] == '+' {
        s.drop_first()
    } else {
        s
    };
    if d.len() > 0 && all_digits(d) && decimal_value(d) <= u32::MAX {
        Some(decimal_value(d) as u32)
    } else {
        None
    }
}

/// The decimal text of a number, as `Display` writes an unsigned integer.
pub open spec fn decimal_text(n: nat) -> Seq<char>
    decreases n,
{
    if n < 10 {
        seq![digit_char(n as int)]
    } else {
        decimal_text(n / 10) + seq![digit_char((n % 10) as int)]
    }
}

/// `k` is the position of the first `:`.
pub open spec fn is_first_colon(s: Seq<char>, k: int) -> bool {
    &&& 0 <= k < s.len()
    &&& s[k] == ':'
    &&& forall|j: int| 0 <= j < k ==> #[trigger] s[j] != ':'
}

/// The pane id and tab id that a drag payload names: the text is split at
/// its first `:`, and the part before must parse as a `u32`.
pub open spec fn parsed_payload(s: Seq<char>) -> Option<(u32, Seq<char>)> {
    if exists|k: int| is_first_colon(s, k) {
        let k = choose|k: int| is_first_colon(s, k);
        match parsed_u32(s.subrange(0, k)) {
            Some(p) => Some((p, s.subrange(k + 1, s.len() as int))),
            None => None,
        }
    } else {
        None
    }
}

/// The payload written for a drag of tab `tab_id` out of pane `pane_id`.
pub open spec fn payload_text(pane_id: u32, tab_id: Seq<char>) -> Seq<char> {
    decimal_text(pane_id as nat) + seq![':'] + tab_id
}

proof fn lemma_digit(d: int)
    requires
        0 <= d < 10,
    ensures
        digit_of(digit_char(d)) == d,
        is_ascii_digit(digit_char(d)),
        digit_char(d) != ':',
        digit_char(d) != '+',
{
    assert('0' as u32 == 48);
    if d == 0 {
    } else if d == 1 {
        assert('1' as u32 == 49);
    } else if d == 2 {
        assert('2' as u32 == 50);
    } else if d == 3 {
        assert('3' as u32 == 51);
    } else if d == 4 {
        assert('4' as u32 == 52);
    } else if d == 5 {
        assert('5' as u32 == 53);
    } else if d == 6 {
        assert('6' as u32 == 54);
    } else if d == 7 {
        assert('7' as u32 == 55);
    } else if d == 8 {
        assert('8' as u32 == 56);
    } else {
        assert('9' as u32 == 57);
    }
}

proof fn lemma_decimal_prefix_le(s: Seq<char>, k: int)
    requires
        all_digits(s),
        0 <= k <= s.len(),
    ensures
        decimal_value(s.subrange(0, k)) <= decimal_value(s),
    decreases s.len(),
{
    if k < s.len() {
        let t = s.drop_last();
        assert(all_digits(t)) by {
            assert forall|i: int| 0 <= i < t.len() implies is_ascii_digit(#[trigger] t[i]) by {
                assert(t[i] == s[i]);
            }
        }
        lemma_decimal_prefix_le(t, k);
        assert(t.subrange(0, k) =~= s.subrange(0, k));
        assert(is_ascii_digit(s[s.len() - 1]));
        assert(decimal_value(t) >= 0) by {
            lemma_decimal_nonneg(t);
        }
    } else {
        assert(s.subrange(0, k) =~= s);
    }
}

proof fn lemma_decimal_nonneg(s: Seq<char>)
    requires
        all_digits(s),
    ensures
        decimal_value(s) >= 0,
    decreases s.len(),
{
    if s.len() > 0 {
        let t = s.drop_last();
        assert forall|i: int| 0 <= i < t.len() implies is_ascii_digit(#[trigger] t[i]) by {
            assert(t[i] == s[i]);
        }
        lemma_decimal_nonneg(t);
        assert(is_ascii_digit(s[s.len() - 1]));
    }
}

proof fn lemma_decimal_text(n: nat)
    ensures
        decimal_text(n).len() > 0,
        all_digits(decimal_text(n)),
        decimal_value(decimal_text(n)) == n,
    decreases n,
{
    if n >= 10 {
        lemma_decimal_text(n / 10);
        lemma_digit((n % 10) as int);
        let t = decimal_text(n);
        assert(t.last() == digit_char((n % 10) as int));
        assert(decimal_value(t) == decimal_value(t.drop_last()) * 10 + digit_of(t.last()));
        assert(t.drop_last() =~= decimal_text(n / 10));
        vstd::arithmetic::div_mod::lemma_fundamental_div_mod(n as int, 10);
        assert forall|i: int| 0 <= i < t.len() implies is_ascii_digit(#[trigger] t[i]) by {
            if i < t.len() - 1 {
                assert(t[i] == decimal_text(n / 10)[i]);
            }
        }
    } else {
        lemma_digit(n as int);
        assert(decimal_text(n).drop_last() =~= Seq::<char>::empty());
        assert(decimal_value(Seq::<char>::empty()) == 0);
        assert(decimal_value(decimal_text(n)) == decimal_value(decimal_text(n).drop_last()) * 10
            + digit_of(decimal_text(n).last()));
    }
}

/// Reading a payload back gives the pane id and tab id it was written with.
pub proof fn law_payload_roundtrip(pane_id: u32, tab_id: Seq<char>)
    ensures
        parsed_payload(payload_text(pane_id, tab_id)) == Some((pane_id, tab_id)),
{
    let d = decimal_text(pane_id as nat);
    let s = payload_text(pane_id, tab_id);
    lemma_decimal_text(pane_id as nat);
    let k = d.len() as int;
    assert(is_first_colon(s, k)) by {
        assert forall|j: int| 0 <= j < k implies #[trigger] s[j] != ':' by {
            assert(s[j] == d[j]);
            assert(is_ascii_digit(d[j]));
        }
    }
    assert forall|k2: int| is_first_colon(s, k2) implies k2 == k by {
        if k2 < k {
            assert(s[k2] == d[k2]);
            assert(is_ascii_digit(d[k2]));
        } else if k < k2 {
            assert(s[k] == ':');
        }
    }
    assert(s.subrange(0, k) =~= d);
    assert(s.subrange(k + 1, s.len() as int) =~= tab_id);
    assert(is_ascii_digit(d[0]));
}

/// The one-character text of a digit.
fn digit_str(d: u32) -> (r: &'static str)
    requires
        d < 10,
    ensures
        r@ == seq![digit_char(d as int)],
{
    proof {
        reveal_strlit("0");
        reveal_strlit("1");
        reveal_strlit("2");
        reveal_strlit("3");
        reveal_strlit("4");
        reveal_strlit("5");
        reveal_strlit("6");
        reveal_strlit("7");
        reveal_strlit("8");
        reveal_strlit("9");
    }
    if d == 0 {
        "0"
    } else if d == 1 {
        "1"
    } else if d == 2 {
        "2"
    } else if d == 3 {
        "3"
    } else if d == 4 {
        "4"
    } else if d == 5 {
        "5"
    } else if d == 6 {
        "6"
    } else if d == 7 {
        "7"
    } else if d == 8 {
        "8"
    } else {
        "9"
    }
}

fn push_decimal(out: &mut String, n: u32)
    ensures
        final(out)@ == old(out)@ + decimal_text(n as nat),
    decreases n,
{
    if n >= 10 {
        push_decimal(out, n / 10);
    }
    out.append(digit_str(n % 10));
    proof {
        if n >= 10 {
            assert(old(out)@ + decimal_text(n as nat) =~= old(out)@ + decimal_text((n / 10) as nat)
                + seq![digit_char((n % 10) as int)]);
        }
    }
}

/// The decimal text of a `u32`.
pub fn decimal_string(n: u32) -> (r: String)
    ensures
        r@ == decimal_text(n as nat),
{
    let mut out = String::new();
    push_decimal(&mut out, n);
    proof {
        assert(Seq::<char>::empty() + decimal_text(n as nat) =~= decimal_text(n as nat));
    }
    out
}

/// The drag payload for tab `tab_id` of pane `pane_id`.
pub fn drag_payload(pane_id: u32, tab_id: &str) -> (r: String)
    ensures
        r@ == payload_text(pane_id, tab_id@),
{
    let mut out = decimal_string(pane_id);
    proof {
        reveal_strlit(":");
    }
    out.append(":");
    out.append(tab_id);
    out
}

/// `str::parse::<u32>` on decimal text.
pub fn parse_u32(s: &str) -> (r: Option<u32>)
    ensures
        r == parsed_u32(s@),
{
    let n = s.unicode_len();
    let start: usize = if n > 0 && s.get_char(0) == '+' {
        1
    } else {
        0
    };
    let ghost d = if s@.len() > 0 && s@[0] == '+' {
        s@.drop_first()
    } else {
        s@
    };
    assert(d =~= s@.subrange(start as int, n as int));
    if start == n {
        return None;
    }
    let mut value: u64 = 0;
    let mut i: usize = start;
    while i < n
        invariant
            n == s@.len(),
            start <= i <= n,
            d == s@.subrange(start as int, n as int),
            d == (if s@.len() > 0 && s@[0] == '+' {
                s@.drop_first()
            } else {
                s@
            }),
            value as int == decimal_value(d.subrange(0, i - start)),
            value <= u32::MAX,
            all_digits(d.subrange(0, i - start)),
        decreases n - i,
    {
        let c = s.get_char(i);
        let ghost pre = d.subrange(0, i - start);
        let ghost next = d.subrange(0, i + 1 - start);
        assert(next.drop_last() =~= pre);
        assert(next.last() == c);
        assert(d[i - start] == c);
        if !('0' <= c && c <= '9') {
            assert(!all_digits(d));
            return None;
        }
        value = value * 10 + (c as u64 - 48);
        assert(all_digits(next)) by {
            assert forall|j: int| 0 <= j < next.len() implies is_ascii_digit(#[trigger] next[j]) by {
                if j < pre.len() {
                    assert(next[j] == pre[j]);
                }
            }
        }
        assert(value as int == decimal_value(next));
        if value > 0xffff_ffff {
            proof {
                if all_digits(d) {
                    lemma_decimal_prefix_le(d, i + 1 - start);
                    assert(decimal_value(d) > u32::MAX);
                }
            }
            return None;
        }
        i = i + 1;
    }
    assert(d.subrange(0, n - start) =~= d);
    Some(value as u32)
}

/// Reads a drag payload: the pane id before the first `:` and the tab id
/// after it.
pub fn parse_drag_payload(s: &str) -> (r: Option<(u32, String)>)
    ensures
        match r {
            Some((p, t)) => parsed_payload(s@) == Some((p, t@)),
            None => parsed_payload(s@) is None,
        },
{
    let n = s.unicode_len();
    let mut k: usize = 0;
    while k < n && s.get_char(k) != ':'
        invariant
            n == s@.len(),
            0 <= k <= n,
            forall|j: int| 0 <= j < k ==> #[trigger] s@[j] != ':',
        decreases n - k,
    {
        k = k + 1;
    }
    if k == n {
        assert(!exists|k2: int| is_first_colon(s@, k2)) by {
            assert forall|k2: int| !is_first_colon(s@, k2) by {
                if 0 <= k2 < s@.len() {
                    assert(s@[k2] != ':');
                }
            }
        }
        return None;
    }
    assert(is_first_colon(s@, k as int));
    assert forall|k2: int| is_first_colon(s@, k2) implies k2 == k by {
        if k2 < k {
            assert(s@[k2] != ':');
        } else if k < k2 {
            assert(s@[k as int] == ':');
        }
    }
    let head = s.substring_char(0, k);
    let tail = s.substring_char(k + 1, n);
    match parse_u32(head) {
        Some(p) => Some((p, tail.to_owned())),
        None => None,
    }
}

} // verus!
