use vstd::prelude::*;

verus! {

/// A zero-based target cell: column, then row.
#[derive(Clone, Copy, Debug, PartialEq, Eq, Structural)]
pub struct Move(pub i32, pub i32);

/// A line of input that does not name a cell of the board.
#[derive(Clone, Copy, Debug, PartialEq, Eq, Structural)]
pub struct InvalidMoveFormat;

impl Move {
    /// Both coordinates lie on the board.
    pub open spec fn wf(&self) -> bool {
        0 <= self.0 < 3 && 0 <= self.1 < 3
    }
}

/// The characters that separate the numbers of a line: Unicode's
/// White_Space set.
pub open spec fn is_space(c: char) -> bool {
    c == ' ' || ('\t' <= c && c <= '\r') || c == '\u{85}' || c == '\u{A0}' || c == '\u{1680}'
        || ('\u{2000}' <= c && c <= '\u{200A}') || c == '\u{2028}' || c == '\u{2029}'
        || c == '\u{202F}' || c == '\u{205F}' || c == '\u{3000}'
}

/// The maximal runs of non-space characters of `s`, left to right.
pub open spec fn tokens(s: Seq<char>) -> Seq<Seq<char>>
    decreases s.len(),
{
    if s.len() == 0 {
        seq![]
    } else {
        let prev = tokens(s.drop_last());
        if is_space(s.last()) {
            prev
        } else if s.len() > 1 && !is_space(s[s.len() - 2]) {
            prev.update(prev.len() - 1, prev.last().push(s.last()))
        } else {
            prev.push(seq![s.last()])
        }
    }
}

pub open spec fn is_digit(c: char) -> bool {
    '0' <= c <= '9'
}

/// A character that can stand in a decimal numeral: a digit or a sign.
pub open spec fn is_numeral_char(c: char) -> bool {
    is_digit(c) || c == '+' || c == '-'
}

/// The value of a string of decimal digits, most significant first.
pub open spec fn digits_value(d: Seq<char>) -> int
    decreases d.len(),
{
    if d.len() == 0 {
        0
    } else {
        10 * digits_value(d.drop_last()) + (d.last() as int - '0' as int)
    }
}

/// `t` opens with a sign.
pub open spec fn has_sign(t: Seq<char>) -> bool {
    t.len() > 0 && (t[0] == '+' || t[0] == '-')
}

/// `t` without its sign, if it has one.
pub open spec fn unsigned_part(t: Seq<char>) -> Seq<char> {
    if has_sign(t) {
        t.drop_first()
    } else {
        t
    }
}

/// The integer that `t` writes in decimal: an optional `+` or `-`, then one
/// or more digits.
pub open spec fn decimal_value(t: Seq<char>) -> Option<int> {
    let d = unsigned_part(t);
    if d.len() > 0 && forall|i: int| 0 <= i < d.len() ==> is_digit(#[trigger] d[i]) {
        if t[0] == '-' {
            Some(-digits_value(d))
        } else {
            Some(digits_value(d))
        }
    } else {
        None
    }
}

/// The `i32` that `t` writes in decimal, where there is one.
pub open spec fn i32_of_decimal(t: Seq<char>) -> Option<i32> {
    match decimal_value(t) {
        Some(v) => if i32::MIN <= v <= i32::MAX {
            Some(v as i32)
        } else {
            None
        },
        None => None,
    }
}

/// The zero-based coordinate that `t` names: a number from 1 to 3, less one.
pub open spec fn coordinate_of(t: Seq<char>) -> Option<int> {
    match decimal_value(t) {
        Some(v) => if 1 <= v <= 3 {
            Some(v - 1)
        } else {
            None
        },
        None => None,
    }
}

/// The cell that line `s` names: two numbers from 1 to 3, split by spaces,
/// and nothing else on a line that ends with a newline.
pub open spec fn move_of_line(s: Seq<char>) -> Option<(int, int)> {
    let t = tokens(s);
    if s.len() > 0 && s.last() == '\n' && t.len() == 2 && coordinate_of(t[0]) is Some
        && coordinate_of(t[1]) is Some {
        Some((coordinate_of(t[0])->0, coordinate_of(t[1])->0))
    } else {
        None
    }
}

/// Relies on serde_scan::from_str read as an `i32`: a text without
/// whitespace is one field, which `i32`'s `FromStr` reads as an optional
/// sign and decimal digits, failing where the value leaves the range.
#[verifier::external_body]
fn scan_i32(t: &str) -> (r: Option<i32>)
    requires
        t@.len() > 0,
        forall|i: int| 0 <= i < t@.len() ==> is_numeral_char(#[trigger] t@[i]),
    ensures
        r == i32_of_decimal(t@),
{
    serde_scan::from_str::<i32>(t).ok()
}

/// The zero-based coordinate that `t` names, if it names one.
pub fn coordinate(t: &str) -> (r: Option<i32>)
    ensures
        r matches Some(v) ==> coordinate_of(t@) == Some(v as int),
        r is None ==> coordinate_of(t@) is None,
{
    let n = t.unicode_len();
    if n == 0 {
        return None;
    }
    let mut i: usize = 0;
    while i < n
        invariant
            n == t@.len(),
            i <= n,
            forall|j: int| 0 <= j < i ==> is_numeral_char(#[trigger] t@[j]),
        decreases n - i,
    {
        let c = t.get_char(i);
        if !(('0' <= c && c <= '9') || c == '+' || c == '-') {
            proof {
                let s = t@;
                let d = unsigned_part(s);
                let k = if has_sign(s) {
                    i - 1
                } else {
                    i as int
                };
                assert(0 <= k < d.len() && d[k] == c && !is_digit(d[k]));
                assert(decimal_value(s) is None);
            }
            return None;
        }
        i = i + 1;
    }
    match scan_i32(t) {
        Some(v) => if 1 <= v && v <= 3 {
            Some(v - 1)
        } else {
            None
        },
        None => None,
    }
}

fn is_space_char(c: char) -> (r: bool)
    ensures
        r == is_space(c),
{
    c == ' ' || ('\t' <= c && c <= '\r') || c == '\u{85}' || c == '\u{A0}' || c == '\u{1680}'
        || ('\u{2000}' <= c && c <= '\u{200A}') || c == '\u{2028}' || c == '\u{2029}'
        || c == '\u{202F}' || c == '\u{205F}' || c == '\u{3000}'
}

impl Move {
    /// Reads a line that names a cell as two one-based numbers, column then
    /// row, each from 1 to 3, and gives the zero-based move.
    pub fn parse(s: &str) -> (r: Result<Move, InvalidMoveFormat>)
        ensures
            move_of_line(s@) is None ==> r == Err::<Move, InvalidMoveFormat>(InvalidMoveFormat),
            move_of_line(s@) matches Some((x, y)) ==> r == Ok::<Move, InvalidMoveFormat>(
                Move(x as i32, y as i32),
            ),
            r matches Ok(m) ==> m.wf(),
    {
        let n = s.unicode_len();
        let mut i: usize = 0;
        let mut count: usize = 0;
        let mut in_token = false;
        let mut s1: usize = 0;
        let mut e1: usize = 0;
        let mut s2: usize = 0;
        let mut e2: usize = 0;
        while i < n
            invariant
                n == s@.len(),
                i <= n,
                count <= i,
                count == tokens(s@.subrange(0, i as int)).len(),
                in_token == (i > 0 && !is_space(s@[i - 1])),
                in_token ==> count > 0,
                count >= 1 ==> s1 <= e1 <= i && tokens(s@.subrange(0, i as int))[0] == s@.subrange(
                    s1 as int,
                    e1 as int,
                ),
                count >= 2 ==> s2 <= e2 <= i && tokens(s@.subrange(0, i as int))[1] == s@.subrange(
                    s2 as int,
                    e2 as int,
                ),
                in_token && count == 1 ==> e1 == i,
                in_token && count == 2 ==> e2 == i,
            decreases n - i,
        {
            let c = s.get_char(i);
            let ghost p = s@.subrange(0, i as int);
            let ghost q = s@.subrange(0, i + 1);
            assert(q.drop_last() =~= p);
            assert(q.last() == c);
            if is_space_char(c) {
                in_token = false;
            } else if in_token {
                if count == 1 {
                    e1 = i + 1;
                    assert(s@.subrange(s1 as int, e1 as int) =~= s@.subrange(s1 as int, i as int).push(c));
                } else if count == 2 {
                    e2 = i + 1;
                    assert(s@.subrange(s2 as int, e2 as int) =~= s@.subrange(s2 as int, i as int).push(c));
                }
            } else {
                count = count + 1;
                in_token = true;
                if count == 1 {
                    s1 = i;
                    e1 = i + 1;
                    assert(s@.subrange(s1 as int, e1 as int) =~= seq![c]);
                } else if count == 2 {
                    s2 = i;
                    e2 = i + 1;
                    assert(s@.subrange(s2 as int, e2 as int) =~= seq![c]);
                }
            }
            i = i + 1;
        }
        assert(s@.subrange(0, n as int) =~= s@);
        if n == 0 || count != 2 {
            return Err(InvalidMoveFormat);
        }
        if s.get_char(n - 1) != '\n' {
            return Err(InvalidMoveFormat);
        }
        let x = coordinate(s.substring_char(s1, e1));
        let y = coordinate(s.substring_char(s2, e2));
        match (x, y) {
            (Some(x), Some(y)) => Ok(Move(x, y)),
            _ => Err(InvalidMoveFormat),
        }
    }
}

impl std::str::FromStr for Move {
    type Err = InvalidMoveFormat;

    fn from_str(s: &str) -> (r: Result<Move, InvalidMoveFormat>)
        ensures
            move_of_line(s@) is None ==> r == Err::<Move, InvalidMoveFormat>(InvalidMoveFormat),
            move_of_line(s@) matches Some((x, y)) ==> r == Ok::<Move, InvalidMoveFormat>(
                Move(x as i32, y as i32),
            ),
            r matches Ok(m) ==> m.wf(),
    {
        Move::parse(s)
    }
}

} // verus!
