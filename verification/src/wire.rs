//! Wire-format helpers: exact string comparison, decimal rendering, and the
//! JSON framing of the sensor snapshot and of the remote service's answer.

use vstd::prelude::*;
use vstd::string::*;

use crate::vision::VisionHit;

verus! {

/// Character-exact string comparison.
pub fn str_eq(a: &str, b: &str) -> (r: bool)
    ensures
        r == (a@ == b@),
{
    let la = a.unicode_len();
    let lb = b.unicode_len();
    if la != lb {
        proof {
            assert(a@ != b@);
        }
        return false;
    }
    let mut i: usize = 0;
    while i < la
        invariant
            i <= la,
            la == a@.len(),
            la == b@.len(),
            forall|j: int| 0 <= j < i ==> a@[j] == b@[j],
        decreases la - i,
    {
        if a.get_char(i) != b.get_char(i) {
            return false;
        }
        i += 1;
    }
    proof {
        assert(a@ =~= b@);
    }
    true
}

/// The decimal digit character for `d`.
pub open spec fn spec_digit_char(d: int) -> char {
    if d == 0 {
        '0'
    } else if d == 1 {
        '1'
    } else if d == 2 {
        '2'
    } else if d == 3 {
        '3'
    } else if d == 4 {
        '4'
    } else if d == 5 {
        '5'
    } else if d == 6 {
        '6'
    } else if d == 7 {
        '7'
    } else if d == 8 {
        '8'
    } else {
        '9'
    }
}

/// The decimal rendering of a non-negative number, most significant digit
/// first, no leading zeroes (a single zero for zero).
pub open spec fn spec_u64_chars(n: int) -> Seq<char>
    decreases n,
{
    if n < 10 {
        seq![spec_digit_char(n)]
    } else {
        spec_u64_chars(n / 10).push(spec_digit_char(n % 10))
    }
}

/// The decimal rendering of an integer: a minus sign before the magnitude
/// for negative numbers.
pub open spec fn spec_i64_chars(n: int) -> Seq<char> {
    if n < 0 {
        seq!['-'] + spec_u64_chars(-n)
    } else {
        spec_u64_chars(n)
    }
}

/// One decimal digit as a string slice.
fn digit_str(d: u64) -> (s: &'static str)
    requires
        d < 10,
    ensures
        s@ =~= seq![spec_digit_char(d as int)],
{
    if d == 0 {
        proof {
            reveal_strlit("0");
        }
        "0"
    } else if d == 1 {
        proof {
            reveal_strlit("1");
        }
        "1"
    } else if d == 2 {
        proof {
            reveal_strlit("2");
        }
        "2"
    } else if d == 3 {
        proof {
            reveal_strlit("3");
        }
        "3"
    } else if d == 4 {
        proof {
            reveal_strlit("4");
        }
        "4"
    } else if d == 5 {
        proof {
            reveal_strlit("5");
        }
        "5"
    } else if d == 6 {
        proof {
            reveal_strlit("6");
        }
        "6"
    } else if d == 7 {
        proof {
            reveal_strlit("7");
        }
        "7"
    } else if d == 8 {
        proof {
            reveal_strlit("8");
        }
        "8"
    } else {
        proof {
            reveal_strlit("9");
        }
        "9"
    }
}

/// Render a number in decimal.
pub fn u64_to_string(n: u64) -> (s: String)
    ensures
        s@ == spec_u64_chars(n as int),
    decreases n,
{
    if n < 10 {
        String::from_str(digit_str(n))
    } else {
        let mut s = u64_to_string(n / 10);
        s.append(digit_str(n % 10));
        proof {
            assert(s@ =~= spec_u64_chars(n as int));
        }
        s
    }
}

/// Render a signed number in decimal.
pub fn i64_to_string(n: i64) -> (s: String)
    requires
        n > i64::MIN,
    ensures
        s@ == spec_i64_chars(n as int),
{
    if n < 0 {
        let mut s = String::from_str("-");
        proof {
            reveal_strlit("-");
            assert("-"@ =~= seq!['-']);
        }
        let mag = u64_to_string((-n) as u64);
        s.append(mag.as_str());
        s
    } else {
        u64_to_string(n as u64)
    }
}

/// The JSON rendering of one vision entry: `null` for no hit, a one-field
/// object tagged `Wall` or `Enemy` with the distance for a hit.
pub open spec fn spec_hit_json(h: Option<VisionHit>) -> Seq<char> {
    match h {
        Option::None => "null"@,
        Option::Some(VisionHit::Wall(d)) => "{\"Wall\":"@ + spec_u64_chars(d as int) + "}"@,
        Option::Some(VisionHit::Enemy(d)) => "{\"Enemy\":"@ + spec_u64_chars(d as int) + "}"@,
    }
}

/// Render one vision entry as JSON.
pub fn hit_json(h: &Option<VisionHit>) -> (s: String)
    ensures
        s@ == spec_hit_json(*h),
{
    match h {
        Option::None => String::from_str("null"),
        Option::Some(VisionHit::Wall(d)) => {
            let mut s = String::from_str("{\"Wall\":");
            s.append(u64_to_string(*d).as_str());
            s.append("}");
            s
        },
        Option::Some(VisionHit::Enemy(d)) => {
            let mut s = String::from_str("{\"Enemy\":");
            s.append(u64_to_string(*d).as_str());
            s.append("}");
            s
        },
    }
}

/// The comma-joined JSON items of a vision report.
pub open spec fn spec_hits_items(hs: Seq<Option<VisionHit>>) -> Seq<char>
    decreases hs.len(),
{
    if hs.len() == 0 {
        Seq::empty()
    } else if hs.len() == 1 {
        spec_hit_json(hs[0])
    } else {
        spec_hits_items(hs.drop_last()) + ","@ + spec_hit_json(hs.last())
    }
}

/// The JSON rendering of a vision report: its entries, comma-joined, in
/// brackets.
pub open spec fn spec_hits_json(hs: Seq<Option<VisionHit>>) -> Seq<char> {
    "["@ + spec_hits_items(hs) + "]"@
}

/// Render a vision report as a JSON array.
pub fn hits_json(v: &Vec<Option<VisionHit>>) -> (s: String)
    ensures
        s@ == spec_hits_json(v@),
{
    let mut s = String::from_str("[");
    let n = v.len();
    let mut i: usize = 0;
    while i < n
        invariant
            i <= n,
            n == v@.len(),
            s@ == "["@ + spec_hits_items(v@.subrange(0, i as int)),
        decreases n - i,
    {
        if i > 0 {
            s.append(",");
        }
        let item = hit_json(&v[i]);
        s.append(item.as_str());
        proof {
            let hs = v@;
            assert(hs.subrange(0, i + 1).drop_last() =~= hs.subrange(0, i as int));
            assert(hs.subrange(0, i + 1).last() == hs[i as int]);
            if i == 0 {
                assert(hs.subrange(0, 1).len() == 1);
                assert(hs.subrange(0, 1)[0] == hs[0]);
                assert(s@ =~= "["@ + spec_hits_items(hs.subrange(0, 1)));
            } else {
                assert(s@ =~= "["@ + spec_hits_items(hs.subrange(0, i + 1)));
            }
        }
        i += 1;
    }
    s.append("]");
    proof {
        assert(v@.subrange(0, n as int) =~= v@);
        assert(s@ =~= spec_hits_json(v@));
    }
    s
}

/// Blank space inside a JSON body.
pub open spec fn is_json_ws(c: char) -> bool {
    c == ' ' || c == '\t' || c == '\n' || c == '\r'
}

/// The first position at or after `i` that holds no blank space.
pub open spec fn skip_json_ws(s: Seq<char>, i: int) -> int
    decreases s.len() - i,
{
    if 0 <= i < s.len() && is_json_ws(s[i]) {
        skip_json_ws(s, i + 1)
    } else {
        i
    }
}

/// The first position at or after `i` that holds a quote, or the end.
pub open spec fn find_quote(s: Seq<char>, i: int) -> int
    decreases s.len() - i,
{
    if 0 <= i < s.len() && s[i] != '"' {
        find_quote(s, i + 1)
    } else {
        i
    }
}

/// Scanning never moves backwards nor past the end.
pub proof fn lemma_scan_bounds(s: Seq<char>, i: int)
    requires
        0 <= i <= s.len(),
    ensures
        i <= skip_json_ws(s, i) <= s.len(),
        i <= find_quote(s, i) <= s.len(),
    decreases s.len() - i,
{
    if i < s.len() {
        lemma_scan_bounds(s, i + 1);
    }
}

/// No backslash anywhere: the action strings of the fixed vocabulary
/// never need escapes, so an escaped answer counts as malformed.
pub open spec fn no_backslash(t: Seq<char>) -> bool {
    forall|i: int| 0 <= i < t.len() ==> t[i] != '\\'
}

/// The action field of a decision-endpoint answer: a JSON object with the
/// single field `action` and an unescaped string value, with arbitrary
/// blank space between the tokens. Any other body counts as malformed and
/// yields nothing, which makes the polling loop skip the cycle.
pub open spec fn spec_parse_brain(s: Seq<char>) -> Option<Seq<char>> {
    let i0 = skip_json_ws(s, 0);
    if i0 < s.len() && s[i0] == '{' {
        let i1 = skip_json_ws(s, i0 + 1);
        if i1 + 8 <= s.len() && s.subrange(i1, i1 + 8) == "\"action\""@ {
            let i2 = skip_json_ws(s, i1 + 8);
            if i2 < s.len() && s[i2] == ':' {
                let i3 = skip_json_ws(s, i2 + 1);
                if i3 < s.len() && s[i3] == '"' {
                    let j = find_quote(s, i3 + 1);
                    let mid = s.subrange(i3 + 1, j);
                    if j < s.len() && no_backslash(mid) {
                        let i4 = skip_json_ws(s, j + 1);
                        if i4 < s.len() && s[i4] == '}' && skip_json_ws(s, i4 + 1) == s.len() {
                            Option::Some(mid)
                        } else {
                            Option::None
                        }
                    } else {
                        Option::None
                    }
                } else {
                    Option::None
                }
            } else {
                Option::None
            }
        } else {
            Option::None
        }
    } else {
        Option::None
    }
}

/// Move past blank space.
fn skip_json_ws_x(s: &str, i: usize) -> (r: usize)
    requires
        i <= s@.len(),
    ensures
        r == skip_json_ws(s@, i as int),
        i <= r <= s@.len(),
{
    let n = s.unicode_len();
    let mut j = i;
    loop
        invariant
            i <= j <= n,
            n == s@.len(),
            skip_json_ws(s@, i as int) == skip_json_ws(s@, j as int),
        decreases n - j,
    {
        if j < n {
            let c = s.get_char(j);
            if c == ' ' || c == '\t' || c == '\n' || c == '\r' {
                j += 1;
                continue;
            }
        }
        return j;
    }
}

/// Move to the next quote, or the end.
fn find_quote_x(s: &str, i: usize) -> (r: usize)
    requires
        i <= s@.len(),
    ensures
        r == find_quote(s@, i as int),
        i <= r <= s@.len(),
{
    let n = s.unicode_len();
    let mut j = i;
    loop
        invariant
            i <= j <= n,
            n == s@.len(),
            find_quote(s@, i as int) == find_quote(s@, j as int),
        decreases n - j,
    {
        if j < n {
            let c = s.get_char(j);
            if c != '"' {
                j += 1;
                continue;
            }
        }
        return j;
    }
}

/// Whether the string holds a backslash.
fn has_backslash(s: &str) -> (r: bool)
    ensures
        r == !no_backslash(s@),
{
    let n = s.unicode_len();
    let mut i: usize = 0;
    while i < n
        invariant
            i <= n,
            n == s@.len(),
            forall|j: int| 0 <= j < i ==> s@[j] != '\\',
        decreases n - i,
    {
        if s.get_char(i) == '\\' {
            return true;
        }
        i += 1;
    }
    false
}

/// Extract the action string from a decision-endpoint response body, per
/// [`spec_parse_brain`].
pub fn parse_brain_response(body: &str) -> (r: Option<String>)
    ensures
        r is Some <==> spec_parse_brain(body@) is Some,
        r matches Option::Some(a) ==> spec_parse_brain(body@) == Option::Some(a@),
{
    let len = body.unicode_len();
    let i0 = skip_json_ws_x(body, 0);
    if !(i0 < len && body.get_char(i0) == '{') {
        return Option::None;
    }
    let i1 = skip_json_ws_x(body, i0 + 1);
    if len - i1 < 8 {
        return Option::None;
    }
    let key = body.substring_char(i1, i1 + 8);
    if !str_eq(key, "\"action\"") {
        return Option::None;
    }
    let i2 = skip_json_ws_x(body, i1 + 8);
    if !(i2 < len && body.get_char(i2) == ':') {
        return Option::None;
    }
    let i3 = skip_json_ws_x(body, i2 + 1);
    if !(i3 < len && body.get_char(i3) == '"') {
        return Option::None;
    }
    let j = find_quote_x(body, i3 + 1);
    if j >= len {
        return Option::None;
    }
    let mid = body.substring_char(i3 + 1, j);
    if has_backslash(mid) {
        return Option::None;
    }
    let i4 = skip_json_ws_x(body, j + 1);
    if !(i4 < len && body.get_char(i4) == '}') {
        return Option::None;
    }
    if skip_json_ws_x(body, i4 + 1) != len {
        return Option::None;
    }
    Option::Some(mid.to_owned())
}

} // verus!
