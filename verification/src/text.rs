//! Text utilities shared by the composers: searching, splitting, joining and
//! decimal rendering, each with its mathematical counterpart on `Seq<char>`.

use vstd::prelude::*;

verus! {

/// The position of the first `c` in `s` at or after `start`, if there is one.
pub open spec fn first_index_from(s: Seq<char>, c: char, start: int) -> Option<int>
    decreases s.len() - start,
{
    if start < 0 || start >= s.len() {
        None
    } else if s[start] == c {
        Some(start)
    } else {
        first_index_from(s, c, start + 1)
    }
}

/// The position of the first `c` in `s`, if there is one.
pub open spec fn first_index(s: Seq<char>, c: char) -> Option<int> {
    first_index_from(s, c, 0)
}

/// `first_index_from` finds the smallest matching position and finds none
/// only where none exists.
pub proof fn lemma_first_index_from(s: Seq<char>, c: char, start: int)
    requires
        0 <= start,
    ensures
        match first_index_from(s, c, start) {
            Some(i) => {
                &&& start <= i < s.len()
                &&& s[i] == c
                &&& forall|j: int| start <= j < i ==> s[j] != c
            },
            None => forall|j: int| start <= j < s.len() ==> s[j] != c,
        },
    decreases s.len() - start,
{
    if start < s.len() && s[start] != c {
        lemma_first_index_from(s, c, start + 1);
    }
}

/// All parts laid end to end with `sep` between neighbours.
pub open spec fn join(parts: Seq<Seq<char>>, sep: Seq<char>) -> Seq<char>
    decreases parts.len(),
{
    if parts.len() == 0 {
        Seq::empty()
    } else if parts.len() == 1 {
        parts[0]
    } else {
        join(parts.drop_last(), sep) + sep + parts.last()
    }
}

/// The views of a list of strings.
pub open spec fn views(v: Seq<String>) -> Seq<Seq<char>> {
    Seq::new(v.len(), |i: int| v[i]@)
}

/// The decimal digit for `d`, which is below ten.
pub open spec fn digit(d: nat) -> char {
    if d == 0 {
        '0'
    } else if d == 1 {
        '1'
    } else if d == 2 {
        '2'
    } else if d == 3 {
        '3'
    } else if d == 4 {
        '4'
    } else if d == 5 {
        '5'
    } else if d == 6 {
        '6'
    } else if d == 7 {
        '7'
    } else if d == 8 {
        '8'
    } else {
        '9'
    }
}

/// The decimal numeral of `n`, without sign or leading zeros.
pub open spec fn decimal(n: nat) -> Seq<char>
    decreases n,
{
    if n < 10 {
        seq![digit(n)]
    } else {
        decimal(n / 10).push(digit(n % 10))
    }
}

/// `s` without one trailing carriage return, if it ends in one.
pub open spec fn without_carriage_return(s: Seq<char>) -> Seq<char> {
    if s.len() > 0 && s.last() == '\r' {
        s.drop_last()
    } else {
        s
    }
}

/// The lines of `s`: split after each `\n`, with the line ending (`\n` or
/// `\r\n`) removed. A final line ending adds no empty line.
pub open spec fn lines(s: Seq<char>) -> Seq<Seq<char>>
    decreases s.len(),
{
    if s.len() == 0 {
        Seq::empty()
    } else {
        match first_index(s, '\n') {
            Some(i) => if 0 <= i < s.len() {
                seq![without_carriage_return(s.subrange(0, i))] + lines(
                    s.subrange(i + 1, s.len() as int),
                )
            } else {
                seq![s]
            },
            None => seq![s],
        }
    }
}

/// The part of `s` from character `from` up to, not including, character `to`.
pub fn slice(s: &str, from: usize, to: usize) -> (r: String)
    requires
        from <= to <= s@.len(),
    ensures
        r@ == s@.subrange(from as int, to as int),
{
    String::from_str(s.substring_char(from, to))
}

/// Searches `s` for the first `c` at or after character `start`.
pub fn find_from(s: &str, c: char, start: usize) -> (r: Option<usize>)
    ensures
        match r {
            Some(i) => first_index_from(s@, c, start as int) == Some(i as int),
            None => first_index_from(s@, c, start as int) is None,
        },
{
    let n: usize = s.unicode_len();
    let mut i: usize = start;
    while i < n
        invariant
            n == s@.len(),
            start <= i,
            first_index_from(s@, c, start as int) == first_index_from(s@, c, i as int),
        decreases n - i,
    {
        if s.get_char(i) == c {
            return Some(i);
        }
        i += 1;
    }
    None
}

/// Searches `s` for the first `c`.
pub fn find(s: &str, c: char) -> (r: Option<usize>)
    ensures
        match r {
            Some(i) => first_index(s@, c) == Some(i as int) && i < s@.len(),
            None => first_index(s@, c) is None,
        },
{
    proof {
        lemma_first_index_from(s@, c, 0);
    }
    find_from(s, c, 0)
}

/// Whether `s` begins with `prefix`.
pub fn starts_with(s: &str, prefix: &str) -> (r: bool)
    ensures
        r == prefix@.is_prefix_of(s@),
{
    let n: usize = s.unicode_len();
    let m: usize = prefix.unicode_len();
    if m > n {
        return false;
    }
    let mut i: usize = 0;
    while i < m
        invariant
            n == s@.len(),
            m == prefix@.len(),
            m <= n,
            i <= m,
            forall|j: int| 0 <= j < i ==> s@[j] == prefix@[j],
        decreases m - i,
    {
        if s.get_char(i) != prefix.get_char(i) {
            assert(prefix@[i as int] != s@.subrange(0, prefix@.len() as int)[i as int]);
            return false;
        }
        i += 1;
    }
    assert(prefix@ =~= s@.subrange(0, prefix@.len() as int));
    true
}

/// Whether `a` and `b` are the same text.
pub fn equal(a: &str, b: &str) -> (r: bool)
    ensures
        r == (a@ == b@),
{
    if a.unicode_len() != b.unicode_len() {
        return false;
    }
    let r = starts_with(a, b);
    proof {
        if r {
            assert(a@ =~= b@);
        } else {
            assert(b@.subrange(0, b@.len() as int) =~= b@);
        }
    }
    r
}

/// The one-character text of the digit `d`.
fn digit_text(d: u32) -> (r: &'static str)
    requires
        d < 10,
    ensures
        r@ == seq![digit(d as nat)],
{
    proof {
        reveal_strlit("0");
        reveal_strlit("1");
        reveal_strlit("2");
        reveal_strlit("3");
        reveal_strlit("4");
        reveal_strlit("5");
        reveal_strlit("6");
        reveal_strlit("7");
        reveal_strlit("8");
        reveal_strlit("9");
    }
    let r = if d == 0 {
        "0"
    } else if d == 1 {
        "1"
    } else if d == 2 {
        "2"
    } else if d == 3 {
        "3"
    } else if d == 4 {
        "4"
    } else if d == 5 {
        "5"
    } else if d == 6 {
        "6"
    } else if d == 7 {
        "7"
    } else if d == 8 {
        "8"
    } else {
        "9"
    };
    assert(r@ =~= seq![digit(d as nat)]);
    r
}

/// Renders `n` in decimal.
pub fn decimal_string(n: u32) -> (r: String)
    ensures
        r@ == decimal(n as nat),
    decreases n,
{
    if n < 10 {
        String::from_str(digit_text(n))
    } else {
        let mut s = decimal_string(n / 10);
        s.append(digit_text(n % 10));
        assert(s@ =~= decimal(n as nat));
        s
    }
}

/// Splits `s` into its lines.
pub fn split_lines(s: &str) -> (r: Vec<String>)
    ensures
        views(r@) == lines(s@),
{
    let n: usize = s.unicode_len();
    let mut out: Vec<String> = Vec::new();
    let mut start: usize = 0;
    proof {
        assert(s@.subrange(0, n as int) =~= s@);
        assert(views(out@) + lines(s@) =~= lines(s@));
    }
    while start < n
        invariant
            n == s@.len(),
            start <= n,
            lines(s@) == views(out@) + lines(s@.subrange(start as int, n as int)),
        decreases n - start,
    {
        let ghost rest = s@.subrange(start as int, n as int);
        let found = find_from(s, '\n', start);
        proof {
            lemma_first_index_from(s@, '\n', start as int);
            lemma_first_index_from(rest, '\n', 0);
        }
        match found {
            Some(i) => {
                let mut end: usize = i;
                if end > start && s.get_char(end - 1) == '\r' {
                    end = end - 1;
                }
                let line = slice(s, start, end);
                proof {
                    let k = (i - start) as int;
                    assert(rest[k] == '\n');
                    assert(forall|j: int| 0 <= j < k ==> rest[j] == s@[start + j]);
                    assert(first_index(rest, '\n') == Some(k));
                    assert(rest.subrange(0, k) =~= s@.subrange(start as int, i as int));
                    assert(line@ =~= without_carriage_return(rest.subrange(0, k)));
                    assert(rest.subrange(k + 1, rest.len() as int) =~= s@.subrange(
                        i as int + 1,
                        n as int,
                    ));
                    assert(views(out@.push(line)) =~= views(out@) + seq![line@]);
                }
                out.push(line);
                start = i + 1;
            },
            None => {
                let line = slice(s, start, n);
                proof {
                    assert(first_index(rest, '\n') is None);
                    assert(views(out@.push(line)) =~= views(out@) + seq![line@]);
                    assert(s@.subrange(n as int, n as int) =~= Seq::<char>::empty());
                    assert(lines(s@.subrange(n as int, n as int)) =~= Seq::<Seq<char>>::empty());
                }
                out.push(line);
                start = n;
            },
        }
    }
    proof {
        assert(s@.subrange(start as int, n as int) =~= Seq::<char>::empty());
        assert(views(out@) + Seq::<Seq<char>>::empty() =~= views(out@));
    }
    out
}

} // verus!
