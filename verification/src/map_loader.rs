//! Loading a map description from its RON text.
//!
//! The map asset is a RON document of the shape
//! `(dim: (w, h), walls: [(x, y), ...], spawn_points: [(x, y), ...])`,
//! optionally prefixed by the struct's name, with arbitrary blank space
//! between tokens, optional trailing commas in the lists and after the
//! last field, and the three fields in this order. Cell numbers are plain
//! decimals of at most seven digits, no larger than
//! [`crate::map::MAX_MAP_CELL`]. [`parse_map_spec`] is the exact
//! definition of the accepted texts; anything else is a parsing error.

use vstd::prelude::*;

use crate::map::{GameMap, MAX_MAP_CELL};

verus! {

/// Blank space between tokens: space, tab, line feed, carriage return.
pub open spec fn is_ws_byte(b: u8) -> bool {
    b == 32 || b == 9 || b == 10 || b == 13
}

/// A decimal digit.
pub open spec fn is_digit(b: u8) -> bool {
    48 <= b <= 57
}

/// A letter or underscore, as in a RON struct name.
pub open spec fn is_ident_byte(b: u8) -> bool {
    (65 <= b <= 90) || (97 <= b <= 122) || b == 95
}

/// The first position at or after `i` that holds no blank space.
pub open spec fn skip_ws(s: Seq<u8>, i: int) -> int
    decreases s.len() - i,
{
    if 0 <= i < s.len() && is_ws_byte(s[i]) {
        skip_ws(s, i + 1)
    } else {
        i
    }
}

/// The first position at or after `i` that holds no identifier byte.
pub open spec fn skip_ident(s: Seq<u8>, i: int) -> int
    decreases s.len() - i,
{
    if 0 <= i < s.len() && is_ident_byte(s[i]) {
        skip_ident(s, i + 1)
    } else {
        i
    }
}

/// The first position at or after `i` that holds no digit.
pub open spec fn skip_digits(s: Seq<u8>, i: int) -> int
    decreases s.len() - i,
{
    if 0 <= i < s.len() && is_digit(s[i]) {
        skip_digits(s, i + 1)
    } else {
        i
    }
}

/// Skipping a byte class never moves backwards nor past the end.
pub proof fn lemma_skip_bounds(s: Seq<u8>, i: int)
    requires
        0 <= i <= s.len(),
    ensures
        i <= skip_ws(s, i) <= s.len(),
        i <= skip_ident(s, i) <= s.len(),
        i <= skip_digits(s, i) <= s.len(),
    decreases s.len() - i,
{
    if i < s.len() {
        lemma_skip_bounds(s, i + 1);
    }
}

/// The value of the digit run `s[i..j]`, read in decimal.
pub open spec fn digits_value(s: Seq<u8>, i: int, j: int) -> int
    decreases j - i,
{
    if i >= j {
        0
    } else {
        digits_value(s, i, j - 1) * 10 + (s[j - 1] - 48)
    }
}

/// A cell number at `i`: a run of one to seven digits whose value stays
/// within [`MAX_MAP_CELL`]; yields the value and the position after it.
pub open spec fn parse_num_at(s: Seq<u8>, i: int) -> Option<(usize, int)> {
    let j = skip_digits(s, i);
    if i < j && j - i <= 7 && 0 <= digits_value(s, i, j) <= MAX_MAP_CELL {
        Option::Some((digits_value(s, i, j) as usize, j))
    } else {
        Option::None
    }
}

/// A cell pair at `i`: `(` number `,` number `)` with blank space between
/// tokens; yields the pair and the position after the closing parenthesis.
pub open spec fn parse_pair_at(s: Seq<u8>, i: int) -> Option<((usize, usize), int)> {
    if 0 <= i < s.len() && s[i] == 40 {
        let a = skip_ws(s, i + 1);
        match parse_num_at(s, a) {
            Option::None => Option::None,
            Option::Some((v1, b)) => {
                let c = skip_ws(s, b);
                if c < s.len() && s[c] == 44 {
                    let d = skip_ws(s, c + 1);
                    match parse_num_at(s, d) {
                        Option::None => Option::None,
                        Option::Some((v2, e)) => {
                            let f = skip_ws(s, e);
                            if f < s.len() && s[f] == 41 {
                                Option::Some(((v1, v2), f + 1))
                            } else {
                                Option::None
                            }
                        },
                    }
                } else {
                    Option::None
                }
            },
        }
    } else {
        Option::None
    }
}

/// The cell pairs from `i` to the list's closing bracket: pair, then
/// either the bracket, or a comma followed by another pair or — for a
/// trailing comma — the bracket; yields the pairs and the position after
/// the bracket. The position-bound guards keep the recursion visibly
/// decreasing; a parsed pair always ends after it starts, so they never
/// fire.
pub open spec fn parse_items_at(s: Seq<u8>, i: int) -> Option<(Seq<(usize, usize)>, int)>
    decreases s.len() - i,
{
    match parse_pair_at(s, i) {
        Option::None => Option::None,
        Option::Some((p, j)) => if !(i < j <= s.len()) {
            Option::None
        } else {
            let k = skip_ws(s, j);
            if !(j <= k <= s.len()) {
                Option::None
            } else if k < s.len() && s[k] == 44 {
                let m = skip_ws(s, k + 1);
                if !(k + 1 <= m <= s.len()) {
                    Option::None
                } else if m < s.len() && s[m] == 93 {
                    Option::Some((seq![p], m + 1))
                } else {
                    match parse_items_at(s, m) {
                        Option::None => Option::None,
                        Option::Some((rest, n)) => Option::Some((seq![p] + rest, n)),
                    }
                }
            } else if k < s.len() && s[k] == 93 {
                Option::Some((seq![p], k + 1))
            } else {
                Option::None
            }
        },
    }
}

/// A cell-pair list at `i`: `[` pairs `]`, possibly empty; yields the
/// pairs and the position after the closing bracket.
pub open spec fn parse_list_at(s: Seq<u8>, i: int) -> Option<(Seq<(usize, usize)>, int)> {
    if 0 <= i < s.len() && s[i] == 91 {
        let j = skip_ws(s, i + 1);
        if j < s.len() && s[j] == 93 {
            Option::Some((Seq::empty(), j + 1))
        } else {
            parse_items_at(s, j)
        }
    } else {
        Option::None
    }
}

/// Every cell of every parsed pair stays within [`MAX_MAP_CELL`].
pub proof fn lemma_items_bounded(s: Seq<u8>, i: int)
    requires
        parse_items_at(s, i) is Some,
    ensures
        forall|k: int|
            0 <= k < parse_items_at(s, i).unwrap().0.len() ==> {
                let p = #[trigger] parse_items_at(s, i).unwrap().0[k];
                p.0 <= MAX_MAP_CELL && p.1 <= MAX_MAP_CELL
            },
    decreases s.len() - i,
{
    let r = parse_items_at(s, i).unwrap().0;
    let (p, j) = parse_pair_at(s, i).unwrap();
    assert(p.0 <= MAX_MAP_CELL && p.1 <= MAX_MAP_CELL);
    let k = skip_ws(s, j);
    if k < s.len() && s[k] == 44 {
        let m = skip_ws(s, k + 1);
        if m < s.len() && s[m] == 93 {
            assert(r =~= seq![p]);
        } else {
            lemma_items_bounded(s, m);
            let rest = parse_items_at(s, m).unwrap().0;
            assert(r =~= seq![p] + rest);
            assert forall|q: int|
                0 <= q < r.len() implies (#[trigger] r[q]).0 <= MAX_MAP_CELL && r[q].1
                <= MAX_MAP_CELL by {
                if q > 0 {
                    assert(r[q] == rest[q - 1]);
                }
            }
        }
    } else {
        assert(r =~= seq![p]);
    }
}

/// The position right after the opening parenthesis and its blank space:
/// leading space, an optional struct name, more space, then `(`.
pub open spec fn parse_header(s: Seq<u8>) -> Option<int> {
    let i0 = skip_ws(s, 0);
    let i1 = skip_ident(s, i0);
    let i2 = skip_ws(s, i1);
    if i2 < s.len() && s[i2] == 40 {
        Option::Some(skip_ws(s, i2 + 1))
    } else {
        Option::None
    }
}

/// After a field's value: blank space and a comma, landing on the next
/// field's name.
pub open spec fn parse_field_sep(s: Seq<u8>, i: int) -> Option<int> {
    let k = skip_ws(s, i);
    if k < s.len() && s[k] == 44 {
        Option::Some(skip_ws(s, k + 1))
    } else {
        Option::None
    }
}

/// After a field's name: blank space, a colon, more blank space, landing
/// on the value.
pub open spec fn parse_colon(s: Seq<u8>, i: int) -> Option<int> {
    let k = skip_ws(s, i);
    if k < s.len() && s[k] == 58 {
        Option::Some(skip_ws(s, k + 1))
    } else {
        Option::None
    }
}

/// The document's tail after the last value: an optional trailing comma,
/// the closing parenthesis, and nothing but blank space to the end.
pub open spec fn parse_tail(s: Seq<u8>, i: int) -> bool {
    let k = skip_ws(s, i);
    let e = if k < s.len() && s[k] == 44 {
        skip_ws(s, k + 1)
    } else {
        k
    };
    e < s.len() && s[e] == 41 && skip_ws(s, e + 1) == s.len()
}

/// The name `dim` at `i`, followed by its colon.
pub open spec fn parse_dim_key(s: Seq<u8>, i: int) -> Option<int> {
    if i + 3 <= s.len() && s[i] == 100 && s[i + 1] == 105 && s[i + 2] == 109 {
        parse_colon(s, i + 3)
    } else {
        Option::None
    }
}

/// The name `walls` at `i`, followed by its colon.
pub open spec fn parse_walls_key(s: Seq<u8>, i: int) -> Option<int> {
    if i + 5 <= s.len() && s[i] == 119 && s[i + 1] == 97 && s[i + 2] == 108 && s[i + 3] == 108
        && s[i + 4] == 115 {
        parse_colon(s, i + 5)
    } else {
        Option::None
    }
}

/// The name `spawn_points` at `i`, followed by its colon.
pub open spec fn parse_spawn_key(s: Seq<u8>, i: int) -> Option<int> {
    if i + 12 <= s.len() && s[i] == 115 && s[i + 1] == 112 && s[i + 2] == 97 && s[i + 3] == 119
        && s[i + 4] == 110 && s[i + 5] == 95 && s[i + 6] == 112 && s[i + 7] == 111 && s[i + 8]
        == 105 && s[i + 9] == 110 && s[i + 10] == 116 && s[i + 11] == 115 {
        parse_colon(s, i + 12)
    } else {
        Option::None
    }
}

/// The exact definition of an accepted map document: header, the `dim`
/// pair, the `walls` list, the `spawn_points` list, tail; yields the
/// parsed fields.
pub open spec fn parse_map_spec(s: Seq<u8>) -> Option<
    ((usize, usize), Seq<(usize, usize)>, Seq<(usize, usize)>),
> {
    match parse_header(s) {
        Option::None => Option::None,
        Option::Some(h) => match parse_dim_key(s, h) {
            Option::None => Option::None,
            Option::Some(v1) => match parse_pair_at(s, v1) {
                Option::None => Option::None,
                Option::Some((dim, p1)) => match parse_field_sep(s, p1) {
                    Option::None => Option::None,
                    Option::Some(h2) => match parse_walls_key(s, h2) {
                        Option::None => Option::None,
                        Option::Some(v2) => match parse_list_at(s, v2) {
                            Option::None => Option::None,
                            Option::Some((walls, p2)) => match parse_field_sep(s, p2) {
                                Option::None => Option::None,
                                Option::Some(h3) => match parse_spawn_key(s, h3) {
                                    Option::None => Option::None,
                                    Option::Some(v3) => match parse_list_at(s, v3) {
                                        Option::None => Option::None,
                                        Option::Some((spawns, p3)) => if parse_tail(s, p3) {
                                            Option::Some((dim, walls, spawns))
                                        } else {
                                            Option::None
                                        },
                                    },
                                },
                            },
                        },
                    },
                },
            },
        },
    }
}

/// Loading failed: the text is not an accepted map document, or the file
/// could not be read at all (the latter arises only at the reading edge
/// around the library).
#[derive(Clone, Copy, Debug, PartialEq, Eq, Structural)]
pub enum MapLoaderError {
    ParsingError,
    ReadingError,
}

/// The smallest value too large for `k` decimal digits.
pub open spec fn digit_cap(k: int) -> int {
    if k <= 0 {
        1
    } else if k == 1 {
        10
    } else if k == 2 {
        100
    } else if k == 3 {
        1000
    } else if k == 4 {
        10000
    } else if k == 5 {
        100000
    } else if k == 6 {
        1000000
    } else {
        10000000
    }
}

/// Move past blank space.
fn skip_ws_x(s: &Vec<u8>, i: usize) -> (r: usize)
    requires
        i <= s@.len(),
    ensures
        r == skip_ws(s@, i as int),
        i <= r <= s@.len(),
{
    let mut j = i;
    let n = s.len();
    while j < n && (s[j] == 32 || s[j] == 9 || s[j] == 10 || s[j] == 13)
        invariant
            i <= j <= n,
            n == s@.len(),
            skip_ws(s@, i as int) == skip_ws(s@, j as int),
        decreases n - j,
    {
        j += 1;
    }
    proof {
        lemma_skip_bounds(s@, j as int);
    }
    j
}

/// Move past an identifier (a RON struct name).
fn skip_ident_x(s: &Vec<u8>, i: usize) -> (r: usize)
    requires
        i <= s@.len(),
    ensures
        r == skip_ident(s@, i as int),
        i <= r <= s@.len(),
{
    let mut j = i;
    let n = s.len();
    while j < n && ((65 <= s[j] && s[j] <= 90) || (97 <= s[j] && s[j] <= 122) || s[j] == 95)
        invariant
            i <= j <= n,
            n == s@.len(),
            skip_ident(s@, i as int) == skip_ident(s@, j as int),
        decreases n - j,
    {
        j += 1;
    }
    proof {
        lemma_skip_bounds(s@, j as int);
    }
    j
}

/// Read a cell number, per [`parse_num_at`].
fn parse_num_x(s: &Vec<u8>, i: usize) -> (r: Option<(usize, usize)>)
    requires
        i <= s@.len(),
    ensures
        r is Some <==> parse_num_at(s@, i as int) is Some,
        r matches Option::Some(p) ==> {
            &&& parse_num_at(s@, i as int) == Option::Some((p.0, p.1 as int))
            &&& i < p.1 <= s@.len()
            &&& p.0 <= MAX_MAP_CELL
        },
{
    let n = s.len();
    let mut j = i;
    let mut val: u64 = 0;
    while j < n && 48 <= s[j] && s[j] <= 57
        invariant
            i <= j <= n,
            n == s@.len(),
            j - i <= 7,
            skip_digits(s@, i as int) == skip_digits(s@, j as int),
            val == digits_value(s@, i as int, j as int),
            val < digit_cap(j - i),
        decreases n - j,
    {
        if j - i == 7 {
            // An eighth digit: the run is too long for a cell number.
            proof {
                lemma_skip_bounds(s@, j + 1);
                assert(skip_digits(s@, j as int) == skip_digits(s@, j + 1));
            }
            return Option::None;
        }
        val = val * 10 + (s[j] - 48) as u64;
        j += 1;
    }
    proof {
        lemma_skip_bounds(s@, j as int);
        assert(skip_digits(s@, j as int) == j);
        assert(skip_digits(s@, i as int) == j);
    }
    if j == i {
        return Option::None;
    }
    if val > 1_000_000 {
        return Option::None;
    }
    Option::Some((val as usize, j))
}

/// Read a cell pair, per [`parse_pair_at`].
fn parse_pair_x(s: &Vec<u8>, i: usize) -> (r: Option<((usize, usize), usize)>)
    requires
        i <= s@.len(),
    ensures
        r is Some <==> parse_pair_at(s@, i as int) is Some,
        r matches Option::Some(p) ==> {
            &&& parse_pair_at(s@, i as int) == Option::Some((p.0, p.1 as int))
            &&& i < p.1 <= s@.len()
            &&& p.0.0 <= MAX_MAP_CELL && p.0.1 <= MAX_MAP_CELL
        },
{
    let n = s.len();
    if !(i < n && s[i] == 40) {
        // '('
        return Option::None;
    }
    let a = skip_ws_x(s, i + 1);
    let ((v1, b)) = match parse_num_x(s, a) {
            Option::Some(v) => v,
            Option::None => {
                return Option::None;
            },
    };
    let c = skip_ws_x(s, b);
    if !(c < n && s[c] == 44) {
        // ','
        return Option::None;
    }
    let d = skip_ws_x(s, c + 1);
    let ((v2, e)) = match parse_num_x(s, d) {
            Option::Some(v) => v,
            Option::None => {
                return Option::None;
            },
    };
    let f = skip_ws_x(s, e);
    if !(f < n && s[f] == 41) {
        // ')'
        return Option::None;
    }
    Option::Some(((v1, v2), f + 1))
}

/// Read the pairs up to a list's closing bracket, per [`parse_items_at`].
fn parse_items_x(s: &Vec<u8>, i: usize) -> (r: Option<(Vec<(usize, usize)>, usize)>)
    requires
        i <= s@.len(),
    ensures
        r is Some <==> parse_items_at(s@, i as int) is Some,
        r matches Option::Some(p) ==> {
            &&& parse_items_at(s@, i as int) == Option::Some((p.0@, p.1 as int))
            &&& i < p.1 <= s@.len()
        },
    decreases s@.len() - i,
{
    let n = s.len();
    let ((p, j)) = match parse_pair_x(s, i) {
            Option::Some(v) => v,
            Option::None => {
                return Option::None;
            },
    };
    let k = skip_ws_x(s, j);
    if k < n && s[k] == 44 {
        // ','
        let m = skip_ws_x(s, k + 1);
        if m < n && s[m] == 93 {
            // ']' after a trailing comma
            let mut v: Vec<(usize, usize)> = Vec::new();
            v.push(p);
            proof {
                assert(v@ =~= seq![p]);
            }
            return Option::Some((v, m + 1));
        }
        let ((mut rest, nn)) = match parse_items_x(s, m) {
                Option::Some(v) => v,
                Option::None => {
                    return Option::None;
                },
        };
        let mut v: Vec<(usize, usize)> = Vec::new();
        v.push(p);
        v.append(&mut rest);
        proof {
            assert(v@ =~= seq![p] + parse_items_at(s@, m as int).unwrap().0);
        }
        return Option::Some((v, nn));
    }
    if k < n && s[k] == 93 {
        // ']'
        let mut v: Vec<(usize, usize)> = Vec::new();
        v.push(p);
        proof {
            assert(v@ =~= seq![p]);
        }
        return Option::Some((v, k + 1));
    }
    Option::None
}

/// Read a cell-pair list, per [`parse_list_at`].
fn parse_list_x(s: &Vec<u8>, i: usize) -> (r: Option<(Vec<(usize, usize)>, usize)>)
    requires
        i <= s@.len(),
    ensures
        r is Some <==> parse_list_at(s@, i as int) is Some,
        r matches Option::Some(p) ==> {
            &&& parse_list_at(s@, i as int) == Option::Some((p.0@, p.1 as int))
            &&& i < p.1 <= s@.len()
        },
{
    let n = s.len();
    if !(i < n && s[i] == 91) {
        // '['
        return Option::None;
    }
    let j = skip_ws_x(s, i + 1);
    if j < n && s[j] == 93 {
        // ']': the empty list
        let v: Vec<(usize, usize)> = Vec::new();
        proof {
            assert(v@ =~= Seq::<(usize, usize)>::empty());
        }
        return Option::Some((v, j + 1));
    }
    parse_items_x(s, j)
}

/// Read a colon between blank space, per [`parse_colon`].
fn parse_colon_x(s: &Vec<u8>, i: usize) -> (r: Option<usize>)
    requires
        i <= s@.len(),
    ensures
        r is Some <==> parse_colon(s@, i as int) is Some,
        r matches Option::Some(p) ==> parse_colon(s@, i as int) == Option::Some(p as int) && p
            <= s@.len(),
{
    let n = s.len();
    let k = skip_ws_x(s, i);
    if k < n && s[k] == 58 {
        // ':'
        Option::Some(skip_ws_x(s, k + 1))
    } else {
        Option::None
    }
}

/// Read a comma between blank space, per [`parse_field_sep`].
fn parse_field_sep_x(s: &Vec<u8>, i: usize) -> (r: Option<usize>)
    requires
        i <= s@.len(),
    ensures
        r is Some <==> parse_field_sep(s@, i as int) is Some,
        r matches Option::Some(p) ==> parse_field_sep(s@, i as int) == Option::Some(p as int) && p
            <= s@.len(),
{
    let n = s.len();
    let k = skip_ws_x(s, i);
    if k < n && s[k] == 44 {
        // ','
        Option::Some(skip_ws_x(s, k + 1))
    } else {
        Option::None
    }
}

/// The RON map-asset loader; [`MapLoader::load`] is its whole work.
#[derive(Clone, Copy, Debug, PartialEq, Eq, Structural, Default)]
pub struct MapLoader;

impl MapLoader {
    /// Parse a map document, per [`parse_map_spec`]: the exact text
    /// grammar stated there, and a well-formed [`GameMap`] out.
    pub fn load(&self, bytes: &Vec<u8>) -> (r: Result<GameMap, MapLoaderError>)
        ensures
            r is Ok <==> parse_map_spec(bytes@) is Some,
            r matches Result::Ok(gm) ==> {
                let m = parse_map_spec(bytes@).unwrap();
                &&& gm.dim == m.0
                &&& gm.walls@ == m.1
                &&& gm.spawn_points@ == m.2
                &&& gm.wf()
            },
            r is Err ==> r == Result::<GameMap, MapLoaderError>::Err(MapLoaderError::ParsingError),
    {
        let n = bytes.len();
        let i0 = skip_ws_x(bytes, 0);
        let i1 = skip_ident_x(bytes, i0);
        let i2 = skip_ws_x(bytes, i1);
        if !(i2 < n && bytes[i2] == 40) {
            // '('
            return Result::Err(MapLoaderError::ParsingError);
        }
        let h = skip_ws_x(bytes, i2 + 1);
        // "dim"
        if !(n - h >= 3 && bytes[h] == 100 && bytes[h + 1] == 105 && bytes[h + 2] == 109) {
            return Result::Err(MapLoaderError::ParsingError);
        }
        let (v1) = match parse_colon_x(bytes, h + 3) {
                Option::Some(v) => v,
                Option::None => {
                    return Result::Err(MapLoaderError::ParsingError);
                },
        };
        let ((dim, p1)) = match parse_pair_x(bytes, v1) {
                Option::Some(v) => v,
                Option::None => {
                    return Result::Err(MapLoaderError::ParsingError);
                },
        };
        let (h2) = match parse_field_sep_x(bytes, p1) {
                Option::Some(v) => v,
                Option::None => {
                    return Result::Err(MapLoaderError::ParsingError);
                },
        };
        // "walls"
        if !(n - h2 >= 5 && bytes[h2] == 119 && bytes[h2 + 1] == 97 && bytes[h2 + 2] == 108
            && bytes[h2 + 3] == 108 && bytes[h2 + 4] == 115) {
            return Result::Err(MapLoaderError::ParsingError);
        }
        let (v2) = match parse_colon_x(bytes, h2 + 5) {
                Option::Some(v) => v,
                Option::None => {
                    return Result::Err(MapLoaderError::ParsingError);
                },
        };
        let ((walls, p2)) = match parse_list_x(bytes, v2) {
                Option::Some(v) => v,
                Option::None => {
                    return Result::Err(MapLoaderError::ParsingError);
                },
        };
        let (h3) = match parse_field_sep_x(bytes, p2) {
                Option::Some(v) => v,
                Option::None => {
                    return Result::Err(MapLoaderError::ParsingError);
                },
        };
        // "spawn_points"
        if !(n - h3 >= 12 && bytes[h3] == 115 && bytes[h3 + 1] == 112 && bytes[h3 + 2] == 97
            && bytes[h3 + 3] == 119 && bytes[h3 + 4] == 110 && bytes[h3 + 5] == 95 && bytes[h3
            + 6] == 112 && bytes[h3 + 7] == 111 && bytes[h3 + 8] == 105 && bytes[h3 + 9] == 110
            && bytes[h3 + 10] == 116 && bytes[h3 + 11] == 115) {
            return Result::Err(MapLoaderError::ParsingError);
        }
        let (v3) = match parse_colon_x(bytes, h3 + 12) {
                Option::Some(v) => v,
                Option::None => {
                    return Result::Err(MapLoaderError::ParsingError);
                },
        };
        let ((spawns, p3)) = match parse_list_x(bytes, v3) {
                Option::Some(v) => v,
                Option::None => {
                    return Result::Err(MapLoaderError::ParsingError);
                },
        };
        // Tail: optional trailing comma, ')', blank space, end.
        let k = skip_ws_x(bytes, p3);
        let e = if k < n && bytes[k] == 44 {
            skip_ws_x(bytes, k + 1)
        } else {
            k
        };
        if !(e < n && bytes[e] == 41 && skip_ws_x(bytes, e + 1) == n) {
            return Result::Err(MapLoaderError::ParsingError);
        }
        let gm = GameMap { dim, walls, spawn_points: spawns };
        proof {
            if parse_list_at(bytes@, v2 as int).unwrap().0.len() > 0 {
                lemma_items_bounded(bytes@, skip_ws(bytes@, v2 + 1));
            }
            if parse_list_at(bytes@, v3 as int).unwrap().0.len() > 0 {
                lemma_items_bounded(bytes@, skip_ws(bytes@, v3 + 1));
            }
        }
        Result::Ok(gm)
    }

    /// The asset file extension this loader reads.
    pub fn extensions(&self) -> (r: &'static str)
        ensures
            r@ == "ron"@,
    {
        "ron"
    }
}

} // verus!
