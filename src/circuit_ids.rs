use vstd::prelude::*;

use crate::keys::CircuitIdRoundTuple;

verus! {

/// Why a `(circuit_id, round)` list could not be read.
#[derive(Clone, Copy, Debug, PartialEq, Eq, Structural)]
pub enum CircuitIdsRoundsError {
    /// A tuple does not hold exactly two comma-separated parts.
    InvalidTupleFormat,
    /// A circuit id is not a decimal number that fits in a `u8`.
    InvalidCircuitId,
    /// A round is not a decimal number that fits in a `u8`.
    InvalidRound,
}

/// The circuits that a worker asks for.
#[derive(Clone, Debug)]
pub enum CircuitSelection {
    /// Every circuit of the worker's specialized group.
    AllOfGroup,
    /// Exactly these pairs.
    Listed(Vec<CircuitIdRoundTuple>),
}

pub open spec fn is_paren(c: char) -> bool {
    c == '(' || c == ')'
}

/// Unicode white space, as `char::is_whitespace` and `str::trim` know it.
pub open spec fn is_whitespace(c: char) -> bool {
    let n = c as u32;
    (9 <= n <= 13) || n == 32 || n == 0x85 || n == 0xA0 || n == 0x1680 || (0x2000 <= n <= 0x200A)
        || n == 0x2028 || n == 0x2029 || n == 0x202F || n == 0x205F || n == 0x3000
}

/// The characters that a trim strips: around a tuple (`outer`), parentheses
/// and white space; around a number, white space.
pub open spec fn strips(outer: bool, c: char) -> bool {
    if outer {
        is_paren(c) || is_whitespace(c)
    } else {
        is_whitespace(c)
    }
}

pub open spec fn trim_front(p: Seq<char>, outer: bool) -> Seq<char>
    decreases p.len(),
{
    if p.len() > 0 && strips(outer, p[0]) {
        trim_front(p.drop_first(), outer)
    } else {
        p
    }
}

pub open spec fn trim_back(p: Seq<char>, outer: bool) -> Seq<char>
    decreases p.len(),
{
    if p.len() > 0 && strips(outer, p.last()) {
        trim_back(p.drop_last(), outer)
    } else {
        p
    }
}

/// `p` without the stripped characters at either end.
pub open spec fn trim(p: Seq<char>, outer: bool) -> Seq<char> {
    trim_back(trim_front(p, outer), outer)
}

pub open spec fn is_digit(c: char) -> bool {
    48 <= c as u32 <= 57
}

pub open spec fn all_digits(d: Seq<char>) -> bool {
    forall|i: int| 0 <= i < d.len() ==> is_digit(#[trigger] d[i])
}

/// The value of a string of decimal digits.
pub open spec fn digits_value(d: Seq<char>) -> nat
    decreases d.len(),
{
    if d.len() == 0 {
        0
    } else {
        digits_value(d.drop_last()) * 10 + (d.last() as u32 - 48) as nat
    }
}

/// The `u8` that `x` spells: surrounding white space, an optional `+`, then
/// one or more decimal digits whose value is at most 255.
pub open spec fn parse_component(x: Seq<char>) -> Option<u8> {
    let t = trim(x, false);
    let d = if t.len() > 0 && t[0] == '+' {
        t.drop_first()
    } else {
        t
    };
    if d.len() > 0 && all_digits(d) && digits_value(d) <= 255 {
        Some(digits_value(d) as u8)
    } else {
        None
    }
}

/// `c` holds exactly one comma, at `k`.
pub open spec fn sole_comma(c: Seq<char>, k: int) -> bool {
    &&& 0 <= k < c.len()
    &&& c[k] == ','
    &&& forall|i: int| 0 <= i < c.len() && i != k ==> #[trigger] c[i] != ','
}

/// One tuple: parentheses and white space stripped from both ends, then
/// exactly two comma-separated numbers.
pub open spec fn parse_tuple(p: Seq<char>) -> Result<CircuitIdRoundTuple, CircuitIdsRoundsError> {
    let c = trim(p, true);
    if exists|k: int| sole_comma(c, k) {
        let k = choose|k: int| sole_comma(c, k);
        match (parse_component(c.subrange(0, k)), parse_component(c.subrange(k + 1, c.len() as int))) {
            (None, _) => Err(CircuitIdsRoundsError::InvalidCircuitId),
            (Some(_), None) => Err(CircuitIdsRoundsError::InvalidRound),
            (Some(a), Some(b)) => Ok(CircuitIdRoundTuple { circuit_id: a, aggregation_round: b }),
        }
    } else {
        Err(CircuitIdsRoundsError::InvalidTupleFormat)
    }
}

/// The first position at or after `i` that holds no white space, or `s.len()`.
pub open spec fn skip_ws(s: Seq<char>, i: int) -> int
    decreases s.len() - i,
{
    if 0 <= i < s.len() && is_whitespace(s[i]) {
        skip_ws(s, i + 1)
    } else {
        i
    }
}

/// Where the separator between two tuples that starts at `i` ends: a separator
/// is `)`, optional white space, `,`, optional white space, `(`.
pub open spec fn sep_end(s: Seq<char>, i: int) -> Option<int> {
    if 0 <= i < s.len() && s[i] == ')' {
        let j = skip_ws(s, i + 1);
        if 0 <= j < s.len() && s[j] == ',' {
            let k = skip_ws(s, j + 1);
            if 0 <= k < s.len() && s[k] == '(' {
                Some(k + 1)
            } else {
                None
            }
        } else {
            None
        }
    } else {
        None
    }
}

/// The first separator at or after `from`, or `s.len()` if there is none.
pub open spec fn first_sep(s: Seq<char>, from: int) -> int
    decreases s.len() - from,
{
    if from < 0 || from >= s.len() {
        s.len() as int
    } else if sep_end(s, from) is Some {
        from
    } else {
        first_sep(s, from + 1)
    }
}

/// The tuples of `s` from position `from` on: `s` is cut at each separator
/// (see `sep_end`), left to right, and every piece must be a tuple; the first
/// piece that is not gives the error.
pub open spec fn parse_tuples_from(s: Seq<char>, from: int) -> Result<
    Seq<CircuitIdRoundTuple>,
    CircuitIdsRoundsError,
>
    decreases s.len() - from,
{
    let e = first_sep(s, from);
    let next = match sep_end(s, e) {
        Some(n) => n,
        None => -1,
    };
    let more = from <= e < s.len() && e < next <= s.len();
    let end = if more {
        e
    } else {
        s.len() as int
    };
    match parse_tuple(s.subrange(from, end)) {
        Err(x) => Err(x),
        Ok(t) => if more {
            match parse_tuples_from(s, next) {
                Ok(ts) => Ok(seq![t] + ts),
                Err(x) => Err(x),
            }
        } else {
            Ok(seq![t])
        },
    }
}

/// The pairs that `s` lists, such as `(1,0),(2,0)` or `(1, 0), (2, 1)`.
pub open spec fn parse_tuples(s: Seq<char>) -> Result<Seq<CircuitIdRoundTuple>, CircuitIdsRoundsError> {
    parse_tuples_from(s, 0)
}

proof fn lemma_skip_ws_bounds(s: Seq<char>, i: int)
    requires
        0 <= i <= s.len(),
    ensures
        i <= skip_ws(s, i) <= s.len(),
    decreases s.len() - i,
{
    if i < s.len() && is_whitespace(s[i]) {
        lemma_skip_ws_bounds(s, i + 1);
    }
}

proof fn lemma_sep_end_bounds(s: Seq<char>, i: int)
    requires
        0 <= i < s.len(),
    ensures
        sep_end(s, i) matches Some(n) ==> i < n <= s.len(),
{
    if s[i] == ')' {
        lemma_skip_ws_bounds(s, i + 1);
        let j = skip_ws(s, i + 1);
        if j < s.len() && s[j] == ',' {
            lemma_skip_ws_bounds(s, j + 1);
        }
    }
}

proof fn lemma_first_sep_bounds(s: Seq<char>, from: int)
    requires
        0 <= from <= s.len(),
    ensures
        from <= first_sep(s, from) <= s.len(),
        first_sep(s, from) < s.len() ==> sep_end(s, first_sep(s, from)) is Some,
    decreases s.len() - from,
{
    if from < s.len() && sep_end(s, from) is None {
        lemma_first_sep_bounds(s, from + 1);
    }
}

proof fn lemma_digits_value_grows(d: Seq<char>)
    requires
        d.len() > 0,
    ensures
        digits_value(d) >= digits_value(d.drop_last()),
{
}

fn chars_of(s: &str) -> (r: Vec<char>)
    ensures
        r@ == s@,
{
    let n = s.unicode_len();
    let mut r: Vec<char> = Vec::new();
    let mut i: usize = 0;
    while i < n
        invariant
            n == s@.len(),
            i <= n,
            r@ == s@.subrange(0, i as int),
        decreases n - i,
    {
        r.push(s.get_char(i));
        i += 1;
        assert(r@ =~= s@.subrange(0, i as int));
    }
    assert(r@ =~= s@);
    r
}

fn strips_char(outer: bool, c: char) -> (r: bool)
    ensures
        r == strips(outer, c),
{
    let n = c as u32;
    let space = (9 <= n && n <= 13) || n == 32 || n == 0x85 || n == 0xA0 || n == 0x1680 || (0x2000
        <= n && n <= 0x200A) || n == 0x2028 || n == 0x2029 || n == 0x202F || n == 0x205F || n
        == 0x3000;
    if outer {
        c == '(' || c == ')' || space
    } else {
        space
    }
}

/// The bounds of `cs[a..b]` trimmed of the characters that `outer` selects.
fn trim_range(cs: &Vec<char>, a: usize, b: usize, outer: bool) -> (r: (usize, usize))
    requires
        a <= b <= cs@.len(),
    ensures
        a <= r.0 <= r.1 <= b,
        cs@.subrange(r.0 as int, r.1 as int) == trim(cs@.subrange(a as int, b as int), outer),
{
    let mut lo = a;
    while lo < b && strips_char(outer, cs[lo])
        invariant
            a <= lo <= b <= cs@.len(),
            trim_front(cs@.subrange(a as int, b as int), outer) == trim_front(
                cs@.subrange(lo as int, b as int),
                outer,
            ),
        decreases b - lo,
    {
        assert(cs@.subrange(lo as int, b as int).drop_first() =~= cs@.subrange(lo + 1, b as int));
        lo += 1;
    }
    let mut hi = b;
    while hi > lo && strips_char(outer, cs[hi - 1])
        invariant
            a <= lo <= hi <= b <= cs@.len(),
            trim_front(cs@.subrange(a as int, b as int), outer) == cs@.subrange(lo as int, b as int),
            trim(cs@.subrange(a as int, b as int), outer) == trim_back(
                cs@.subrange(lo as int, hi as int),
                outer,
            ),
        decreases hi - lo,
    {
        assert(cs@.subrange(lo as int, hi as int).drop_last() =~= cs@.subrange(lo as int, hi - 1));
        hi -= 1;
    }
    (lo, hi)
}

/// The component spelled by `cs[a..b]` (see `parse_component`).
fn parse_component_at(cs: &Vec<char>, a: usize, b: usize) -> (r: Option<u8>)
    requires
        a <= b <= cs@.len(),
    ensures
        r == parse_component(cs@.subrange(a as int, b as int)),
{
    let ghost x = cs@.subrange(a as int, b as int);
    let (lo, hi) = trim_range(cs, a, b, false);
    let ghost t = trim(x, false);
    let mut start = lo;
    if lo < hi && cs[lo] == '+' {
        start = lo + 1;
        assert(t.drop_first() =~= cs@.subrange(start as int, hi as int));
    }
    let ghost d = cs@.subrange(start as int, hi as int);
    assert(d == if t.len() > 0 && t[0] == '+' {
        t.drop_first()
    } else {
        t
    });
    if start == hi {
        return None;
    }
    let mut acc: u32 = 0;
    let mut over = false;
    let mut i = start;
    while i < hi
        invariant
            start <= i <= hi <= cs@.len(),
            d == cs@.subrange(start as int, hi as int),
            x == cs@.subrange(a as int, b as int),
            t == trim(x, false),
            d == if t.len() > 0 && t[0] == '+' {
                t.drop_first()
            } else {
                t
            },
            forall|j: int| start <= j < i ==> is_digit(#[trigger] cs@[j]),
            !over ==> acc as nat == digits_value(cs@.subrange(start as int, i as int)) && acc <= 255,
            over ==> digits_value(cs@.subrange(start as int, i as int)) > 255,
        decreases hi - i,
    {
        let c = cs[i];
        let n = c as u32;
        if !(48 <= n && n <= 57) {
            assert(!is_digit(d[i - start]));
            assert(!all_digits(d));
            return None;
        }
        proof {
            let p = cs@.subrange(start as int, i + 1);
            assert(p.drop_last() =~= cs@.subrange(start as int, i as int));
            lemma_digits_value_grows(p);
        }
        if !over {
            acc = acc * 10 + (n - 48);
            if acc > 255 {
                over = true;
            }
        }
        i += 1;
    }
    assert(cs@.subrange(start as int, i as int) =~= d);
    assert(all_digits(d)) by {
        assert forall|j: int| 0 <= j < d.len() implies is_digit(#[trigger] d[j]) by {
            assert(d[j] == cs@[start + j]);
        }
    }
    if over {
        None
    } else {
        Some(acc as u8)
    }
}

/// The tuple spelled by `cs[a..b]` (see `parse_tuple`).
fn parse_tuple_at(cs: &Vec<char>, a: usize, b: usize) -> (r: Result<
    CircuitIdRoundTuple,
    CircuitIdsRoundsError,
>)
    requires
        a <= b <= cs@.len(),
    ensures
        r == parse_tuple(cs@.subrange(a as int, b as int)),
{
    let (lo, hi) = trim_range(cs, a, b, true);
    let ghost c = cs@.subrange(lo as int, hi as int);
    // commas seen so far: 0, 1 (at `k`), or 2 meaning "two or more"
    let mut commas: u8 = 0;
    let mut k = lo;
    let mut other = lo;
    let mut j = lo;
    while j < hi
        invariant
            lo <= j <= hi <= cs@.len(),
            lo <= k < hi || commas == 0,
            commas <= 2,
            commas == 0 ==> forall|i: int| lo <= i < j ==> #[trigger] cs@[i] != ',',
            commas == 1 ==> k < j && cs@[k as int] == ',' && forall|i: int|
                lo <= i < j && i != k ==> #[trigger] cs@[i] != ',',
            commas == 2 ==> lo <= k < hi && lo <= other < hi && k != other && cs@[k as int] == ','
                && cs@[other as int] == ',',
        decreases hi - j,
    {
        if cs[j] == ',' {
            if commas == 0 {
                commas = 1;
                k = j;
            } else if commas == 1 {
                commas = 2;
                other = j;
            }
        }
        j += 1;
    }
    if commas != 1 {
        assert forall|q: int| !sole_comma(c, q) by {
            if sole_comma(c, q) {
                if commas == 0 {
                    assert(c[q] == cs@[lo + q]);
                } else {
                    assert(c[k - lo] == ',' && c[other - lo] == ',');
                }
            }
        }
        return Err(CircuitIdsRoundsError::InvalidTupleFormat);
    }
    let ghost kk = k - lo;
    assert(sole_comma(c, kk)) by {
        assert forall|i: int| 0 <= i < c.len() && i != kk implies #[trigger] c[i] != ',' by {
            assert(c[i] == cs@[lo + i]);
        }
    }
    let ghost chosen = choose|q: int| sole_comma(c, q);
    assert(chosen == kk);
    assert(c.subrange(0, kk) =~= cs@.subrange(lo as int, k as int));
    assert(c.subrange(kk + 1, c.len() as int) =~= cs@.subrange(k + 1, hi as int));
    let first = parse_component_at(cs, lo, k);
    let second = parse_component_at(cs, k + 1, hi);
    match (first, second) {
        (None, _) => Err(CircuitIdsRoundsError::InvalidCircuitId),
        (Some(_), None) => Err(CircuitIdsRoundsError::InvalidRound),
        (Some(x), Some(y)) => Ok(CircuitIdRoundTuple { circuit_id: x, aggregation_round: y }),
    }
}

/// The first position at or after `i` that holds no white space (see `skip_ws`).
fn skip_ws_at(cs: &Vec<char>, i: usize) -> (r: usize)
    requires
        i <= cs@.len(),
    ensures
        r as int == skip_ws(cs@, i as int),
{
    let mut j = i;
    while j < cs.len() && strips_char(false, cs[j])
        invariant
            i <= j <= cs@.len(),
            skip_ws(cs@, i as int) == skip_ws(cs@, j as int),
        decreases cs@.len() - j,
    {
        j += 1;
    }
    j
}

/// Where a separator starting at `i` ends (see `sep_end`).
fn sep_end_at(cs: &Vec<char>, i: usize) -> (r: Option<usize>)
    requires
        i < cs@.len(),
    ensures
        match r {
            Some(n) => sep_end(cs@, i as int) == Some(n as int),
            None => sep_end(cs@, i as int) is None,
        },
{
    let n = cs.len();
    if cs[i] != ')' {
        return None;
    }
    let j = skip_ws_at(cs, i + 1);
    if j >= n || cs[j] != ',' {
        return None;
    }
    let k = skip_ws_at(cs, j + 1);
    if k >= n || cs[k] != '(' {
        return None;
    }
    Some(k + 1)
}

/// The first separator at or after `from` and where it ends (see `first_sep`).
fn find_sep(cs: &Vec<char>, from: usize) -> (r: (usize, Option<usize>))
    requires
        from <= cs@.len(),
    ensures
        r.0 as int == first_sep(cs@, from as int),
        r.0 < cs@.len() ==> (r.1 matches Some(n) && sep_end(cs@, r.0 as int) == Some(n as int)),
{
    let n = cs.len();
    let mut j = from;
    while j < n
        invariant
            from <= j <= n,
            n == cs@.len(),
            first_sep(cs@, from as int) == first_sep(cs@, j as int),
        decreases n - j,
    {
        match sep_end_at(cs, j) {
            Some(end) => {
                return (j, Some(end));
            },
            None => {},
        }
        j += 1;
    }
    (n, None)
}

/// Reads a comma-delimited list of `(circuit_id, round)` pairs such as
/// `(1,0),(2,0)` (see `parse_tuples`).
pub fn parse_circuit_ids_rounds(s: &str) -> (r: Result<Vec<CircuitIdRoundTuple>, CircuitIdsRoundsError>)
    ensures
        match (r, parse_tuples(s@)) {
            (Ok(v), Ok(w)) => v@ == w,
            (Err(a), Err(b)) => a == b,
            _ => false,
        },
{
    let cs = chars_of(s);
    let n = cs.len();
    let mut out: Vec<CircuitIdRoundTuple> = Vec::new();
    let mut from: usize = 0;
    loop
        invariant
            n == cs@.len(),
            cs@ == s@,
            from <= n,
            parse_tuples(s@) == match parse_tuples_from(cs@, from as int) {
                Ok(ts) => Ok(out@ + ts),
                Err(x) => Err::<Seq<CircuitIdRoundTuple>, CircuitIdsRoundsError>(x),
            },
        decreases n - from,
    {
        let (e, next) = find_sep(&cs, from);
        proof {
            lemma_first_sep_bounds(cs@, from as int);
            if e < n {
                lemma_sep_end_bounds(cs@, e as int);
            }
        }
        let more = e < n;
        let end = if more {
            e
        } else {
            n
        };
        match parse_tuple_at(&cs, from, end) {
            Err(x) => {
                return Err(x);
            },
            Ok(t) => {
                let ghost before = out@;
                out.push(t);
                if !more {
                    assert(before + seq![t] =~= out@);
                    return Ok(out);
                }
                let next = match next {
                    Some(k) => k,
                    None => n,
                };
                proof {
                    match parse_tuples_from(cs@, next as int) {
                        Ok(ts) => {
                            assert(before + (seq![t] + ts) =~= out@ + ts);
                        },
                        Err(_) => {},
                    }
                }
                from = next;
            },
        }
    }
}

/// Reads the worker's circuit selection: the literal `all`, or a list of pairs
/// (see `parse_circuit_ids_rounds`).
pub fn resolve_circuit_ids_rounds(s: &str) -> (r: Result<CircuitSelection, CircuitIdsRoundsError>)
    ensures
        s@ == "all"@ ==> r matches Ok(CircuitSelection::AllOfGroup),
        s@ != "all"@ ==> match (r, parse_tuples(s@)) {
            (Ok(CircuitSelection::Listed(v)), Ok(w)) => v@ == w,
            (Err(a), Err(b)) => a == b,
            _ => false,
        },
{
    proof {
        reveal_strlit("all");
    }
    let n = s.unicode_len();
    if n == 3 && s.get_char(0) == 'a' && s.get_char(1) == 'l' && s.get_char(2) == 'l' {
        assert(s@ =~= "all"@);
        return Ok(CircuitSelection::AllOfGroup);
    }
    match parse_circuit_ids_rounds(s) {
        Ok(v) => Ok(CircuitSelection::Listed(v)),
        Err(e) => Err(e),
    }
}

} // verus!
