use vstd::prelude::*;

verus! {

/// Unicode `White_Space` (the set of characters `char::is_whitespace` accepts).
pub open spec fn is_white_space_spec(c: char) -> bool {
    let u = c as u32;
    ||| (0x09 <= u && u <= 0x0d)
    ||| u == 0x20
    ||| u == 0x85
    ||| u == 0xa0
    ||| u == 0x1680
    ||| (0x2000 <= u && u <= 0x200a)
    ||| u == 0x2028
    ||| u == 0x2029
    ||| u == 0x202f
    ||| u == 0x205f
    ||| u == 0x3000
}

/// Whether `c` is Unicode white space.
pub fn is_white_space(c: char) -> (b: bool)
    ensures
        b == is_white_space_spec(c),
{
    let u = c as u32;
    (0x09 <= u && u <= 0x0d) || u == 0x20 || u == 0x85 || u == 0xa0 || u == 0x1680 || (0x2000
        <= u && u <= 0x200a) || u == 0x2028 || u == 0x2029 || u == 0x202f || u == 0x205f || u
        == 0x3000
}

/// `s` without its leading white space.
pub open spec fn trim_start_spec(s: Seq<char>) -> Seq<char>
    decreases s.len(),
{
    if s.len() > 0 && is_white_space_spec(s[0]) {
        trim_start_spec(s.drop_first())
    } else {
        s
    }
}

/// `s` without its trailing white space.
pub open spec fn trim_end_spec(s: Seq<char>) -> Seq<char>
    decreases s.len(),
{
    if s.len() > 0 && is_white_space_spec(s.last()) {
        trim_end_spec(s.drop_last())
    } else {
        s
    }
}

/// `s` without leading and trailing white space, as `str::trim` gives it.
pub open spec fn trim_spec(s: Seq<char>) -> Seq<char> {
    trim_end_spec(trim_start_spec(s))
}

proof fn lemma_trim_start_first(s: Seq<char>)
    ensures
        trim_start_spec(s).len() == 0 || !is_white_space_spec(trim_start_spec(s)[0]),
    decreases s.len(),
{
    if s.len() > 0 && is_white_space_spec(s[0]) {
        lemma_trim_start_first(s.drop_first());
    }
}

proof fn lemma_trim_end_prefix(s: Seq<char>)
    ensures
        trim_end_spec(s).len() <= s.len(),
        trim_end_spec(s) == s.subrange(0, trim_end_spec(s).len() as int),
    decreases s.len(),
{
    if s.len() > 0 && is_white_space_spec(s.last()) {
        lemma_trim_end_prefix(s.drop_last());
        assert(s.drop_last().subrange(0, trim_end_spec(s).len() as int) =~= s.subrange(
            0,
            trim_end_spec(s).len() as int,
        ));
    } else {
        assert(s.subrange(0, s.len() as int) =~= s);
    }
}

/// The last character of a text without trailing white space is not white space.
pub proof fn lemma_trim_end_last_char(s: Seq<char>)
    ensures
        trim_end_spec(s).len() == 0 || !is_white_space_spec(trim_end_spec(s).last()),
    decreases s.len(),
{
    if s.len() > 0 && is_white_space_spec(s.last()) {
        lemma_trim_end_last_char(s.drop_last());
    }
}

/// A trimmed text has nothing left to trim: trimming it again gives it back.
pub proof fn lemma_trim_idempotent(s: Seq<char>)
    ensures
        trim_spec(trim_spec(s)) == trim_spec(s),
{
    let a = trim_start_spec(s);
    let b = trim_end_spec(a);
    lemma_trim_start_first(s);
    lemma_trim_end_prefix(a);
    lemma_trim_end_last_char(a);
    if b.len() > 0 {
        assert(b[0] == a[0]);
    }
    assert(trim_start_spec(b) == b);
    assert(trim_end_spec(b) == b);
}

/// The characters of `s`, in order.
pub fn to_chars(s: &str) -> (v: Vec<char>)
    ensures
        v@ == s@,
{
    let mut v: Vec<char> = Vec::new();
    for c in it: s.chars()
        invariant
            v@ == it.seq().take(it.index() as int),
    {
        v.push(c);
    }
    v
}

proof fn lemma_trim_start_skip(s: Seq<char>, i: int)
    requires
        0 <= i <= s.len(),
        forall|k: int| 0 <= k < i ==> is_white_space_spec(#[trigger] s[k]),
    ensures
        trim_start_spec(s) == trim_start_spec(s.subrange(i, s.len() as int)),
    decreases i,
{
    if i > 0 {
        assert(s.drop_first().subrange(i - 1, s.drop_first().len() as int) =~= s.subrange(
            i,
            s.len() as int,
        ));
        lemma_trim_start_skip(s.drop_first(), i - 1);
    } else {
        assert(s.subrange(0, s.len() as int) =~= s);
    }
}

proof fn lemma_trim_end_cut(s: Seq<char>, j: int)
    requires
        0 <= j <= s.len(),
        forall|k: int| j <= k < s.len() ==> is_white_space_spec(#[trigger] s[k]),
    ensures
        trim_end_spec(s) == trim_end_spec(s.subrange(0, j)),
    decreases s.len() - j,
{
    if j < s.len() {
        assert(s.drop_last().subrange(0, j) =~= s.subrange(0, j));
        lemma_trim_end_cut(s.drop_last(), j);
    } else {
        assert(s.subrange(0, j) =~= s);
    }
}

/// `s` with leading and trailing white space removed (`str::trim`).
pub fn trim(s: &str) -> (r: String)
    ensures
        r@ == trim_spec(s@),
{
    let v = to_chars(s);
    let n = v.len();
    let mut i: usize = 0;
    while i < n && is_white_space(v[i])
        invariant
            n == v@.len(),
            v@ == s@,
            i <= n,
            forall|k: int| 0 <= k < i ==> is_white_space_spec(#[trigger] v@[k]),
        decreases n - i,
    {
        i = i + 1;
    }
    let mut j: usize = n;
    while j > i && is_white_space(v[j - 1])
        invariant
            n == v@.len(),
            v@ == s@,
            i <= j <= n,
            forall|k: int| j <= k < n ==> is_white_space_spec(#[trigger] v@[k]),
        decreases j,
    {
        j = j - 1;
    }
    proof {
        lemma_trim_start_skip(s@, i as int);
        let t = s@.subrange(i as int, n as int);
        if i < n {
            assert(!is_white_space_spec(t[0]));
        }
        assert(trim_start_spec(t) == t);
        lemma_trim_end_cut(t, j - i);
        let u = t.subrange(0, j - i);
        if j > i {
            assert(!is_white_space_spec(u.last()));
        }
        assert(trim_end_spec(u) == u);
        assert(u =~= s@.subrange(i as int, j as int));
    }
    String::from_str(s.substring_char(i, j))
}


/// Whether `c` is one of the ASCII digits `0`..`9`.
pub open spec fn is_digit_spec(c: char) -> bool {
    '0' <= c && c <= '9'
}

/// The value of the ASCII digit `c`.
pub open spec fn digit_value(c: char) -> nat {
    (c as u32 - '0' as u32) as nat
}

/// The number that the decimal digits `d` write (0 for no digits).
pub open spec fn decimal_value(d: Seq<char>) -> nat
    decreases d.len(),
{
    if d.len() == 0 {
        0
    } else {
        decimal_value(d.drop_last()) * 10 + digit_value(d.last())
    }
}

/// The `usize` that the ASCII digits `d` write: `None` where `d` is empty, holds a
/// non-digit, or writes a number above `usize::MAX`.
pub open spec fn parse_digits_spec(d: Seq<char>) -> Option<usize> {
    if d.len() > 0 && (forall|k: int| 0 <= k < d.len() ==> is_digit_spec(#[trigger] d[k]))
        && decimal_value(d) <= usize::MAX {
        Some(decimal_value(d) as usize)
    } else {
        None
    }
}

/// What `str::parse::<usize>` gives: an optional `+`, then one or more ASCII digits whose
/// value fits in a `usize`; anything else is an error (`None`).
pub open spec fn parse_usize_spec(s: Seq<char>) -> Option<usize> {
    parse_digits_spec(
        if s.len() > 0 && s[0] == '+' {
            s.drop_first()
        } else {
            s
        },
    )
}

proof fn lemma_decimal_value_grows(d: Seq<char>, i: int)
    requires
        0 <= i <= d.len(),
    ensures
        decimal_value(d.subrange(0, i)) <= decimal_value(d),
    decreases d.len() - i,
{
    if i < d.len() {
        lemma_decimal_value_grows(d.drop_last(), i);
        assert(d.drop_last().subrange(0, i) =~= d.subrange(0, i));
    } else {
        assert(d.subrange(0, i) =~= d);
    }
}

/// `s` read as a decimal `usize`, as `str::parse::<usize>` reads it.
pub fn parse_usize(s: &str) -> (r: Option<usize>)
    ensures
        r == parse_usize_spec(s@),
{
    let v = to_chars(s);
    let n = v.len();
    let start: usize = if n > 0 && v[0] == '+' {
        1
    } else {
        0
    };
    let ghost d = if s@.len() > 0 && s@[0] == '+' {
        s@.drop_first()
    } else {
        s@
    };
    assert(d =~= s@.subrange(start as int, n as int));
    if start == n {
        return None;
    }
    let mut acc: usize = 0;
    let mut i: usize = start;
    while i < n
        invariant
            n == v@.len(),
            v@ == s@,
            start <= i <= n,
            d =~= s@.subrange(start as int, n as int),
            d == (if s@.len() > 0 && s@[0] == '+' {
                s@.drop_first()
            } else {
                s@
            }),
            acc == decimal_value(d.subrange(0, i - start)),
            forall|k: int| 0 <= k < i - start ==> is_digit_spec(#[trigger] d[k]),
        decreases n - i,
    {
        let c = v[i];
        assert(c == d[i - start]);
        if !('0' <= c && c <= '9') {
            assert(!is_digit_spec(d[i - start]));
            return None;
        }
        let dig = (c as u32 - '0' as u32) as usize;
        assert(d.subrange(0, i + 1 - start).drop_last() =~= d.subrange(0, i - start));
        if acc > (usize::MAX - dig) / 10 {
            proof {
                lemma_decimal_value_grows(d, i + 1 - start);
                assert(acc * 10 + dig > usize::MAX) by (nonlinear_arith)
                    requires
                        acc > (usize::MAX - dig) / 10,
                        dig <= 9,
                ;
            }
            return None;
        }
        acc = acc * 10 + dig;
        i = i + 1;
    }
    assert(d.subrange(0, n - start) =~= d);
    Some(acc)
}

/// The decimal digit character for `d < 10`.
pub open spec fn digit_char(d: nat) -> char {
    (('0' as u32) + d) as char
}

/// The decimal writing of `n`, without sign or leading zeros (as `format!("{}", n)`).
pub open spec fn decimal_string(n: nat) -> Seq<char>
    decreases n,
{
    if n < 10 {
        seq![digit_char(n)]
    } else {
        decimal_string(n / 10).push(digit_char(n % 10))
    }
}

/// The decimal writing of `n`, as `format!("{}", n)` gives it.
pub fn usize_to_string(n: usize) -> (r: String)
    ensures
        r@ == decimal_string(n as nat),
    decreases n,
{
    let digits = "0123456789";
    proof {
        reveal_strlit("0123456789");
    }
    let d = n % 10;
    let one = digits.substring_char(d, d + 1);
    assert(one@ =~= seq![digit_char(d as nat)]);
    if n < 10 {
        String::from_str(one)
    } else {
        let mut r = usize_to_string(n / 10);
        r.append(one);
        r
    }
}

/// The index of the first `c` in `s` at or after `from`, if there is one.
pub open spec fn find_char_from(s: Seq<char>, c: char, from: int) -> Option<int>
    decreases s.len() - from,
{
    if from < 0 || from >= s.len() {
        None
    } else if s[from] == c {
        Some(from)
    } else {
        find_char_from(s, c, from + 1)
    }
}

/// The first two of the pieces that splitting `s` on `'\n'` gives (`str::split("\n")`),
/// or `None` where that split gives fewer than two pieces (no `'\n'` in `s`).
pub open spec fn first_two_lines_spec(s: Seq<char>) -> Option<(Seq<char>, Seq<char>)> {
    match find_char_from(s, '\n', 0) {
        None => None,
        Some(i) => {
            let j = match find_char_from(s, '\n', i + 1) {
                Some(j) => j,
                None => s.len() as int,
            };
            Some((s.subrange(0, i), s.subrange(i + 1, j)))
        },
    }
}

proof fn lemma_find_char_from_bounds(s: Seq<char>, c: char, from: int)
    ensures
        find_char_from(s, c, from) matches Some(i) ==> from <= i < s.len() && s[i] == c && (
        forall|k: int| from <= k < i ==> s[k] != c),
        find_char_from(s, c, from) is None ==> forall|k: int|
            from <= k < s.len() && 0 <= from ==> s[k] != c,
    decreases s.len() - from,
{
    if from >= 0 && from < s.len() && s[from] != c {
        lemma_find_char_from_bounds(s, c, from + 1);
    }
}

proof fn lemma_find_char_from_is(s: Seq<char>, c: char, from: int, i: int)
    requires
        0 <= from <= i <= s.len(),
        forall|k: int| from <= k < i ==> s[k] != c,
    ensures
        find_char_from(s, c, from) == (if i < s.len() && s[i] == c {
            Some(i)
        } else {
            find_char_from(s, c, i)
        }),
    decreases i - from,
{
    if from < i {
        lemma_find_char_from_is(s, c, from + 1, i);
    }
}

/// Scans `v` from `from` for `c`; gives its index or `v.len()`.
fn scan_for(v: &Vec<char>, c: char, from: usize) -> (r: usize)
    requires
        from <= v.len(),
    ensures
        from <= r <= v.len(),
        find_char_from(v@, c, from as int) == (if r < v.len() {
            Some(r as int)
        } else {
            None::<int>
        }),
{
    let mut i = from;
    while i < v.len() && v[i] != c
        invariant
            from <= i <= v.len(),
            forall|k: int| from <= k < i ==> v@[k] != c,
        decreases v.len() - i,
    {
        i = i + 1;
    }
    proof {
        lemma_find_char_from_is(v@, c, from as int, i as int);
        if i >= v.len() {
            assert(find_char_from(v@, c, i as int) is None);
        }
    }
    i
}

/// The first two pieces of `s` split on `'\n'`, each trimmed, or `None` where the split
/// gives fewer than two pieces.
pub fn first_two_lines(s: &str) -> (r: Option<(String, String)>)
    ensures
        match first_two_lines_spec(s@) {
            None => r is None,
            Some((a, b)) => r matches Some((x, y)) && x@ == trim_spec(a) && y@ == trim_spec(b),
        },
{
    let v = to_chars(s);
    let i = scan_for(&v, '\n', 0);
    if i == v.len() {
        return None;
    }
    let j = scan_for(&v, '\n', i + 1);
    let a = s.substring_char(0, i);
    let b = s.substring_char(i + 1, j);
    Some((trim(a), trim(b)))
}

/// Whether two strings hold the same characters.
pub fn str_eq(a: &str, b: &str) -> (r: bool)
    ensures
        r == (a@ == b@),
{
    let x = to_chars(a);
    let y = to_chars(b);
    if x.len() != y.len() {
        return false;
    }
    let mut i: usize = 0;
    while i < x.len()
        invariant
            x@ == a@,
            y@ == b@,
            x.len() == y.len(),
            i <= x.len(),
            forall|k: int| 0 <= k < i ==> x@[k] == y@[k],
        decreases x.len() - i,
    {
        if x[i] != y[i] {
            assert(x@[i as int] != y@[i as int]);
            return false;
        }
        i = i + 1;
    }
    assert(x@ =~= y@);
    true
}

} // verus!
