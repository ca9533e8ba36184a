//! Character-level string utilities with exact specifications.
use vstd::prelude::*;

verus! {

/// The characters of `s`, in order.
pub fn chars_of(s: &str) -> (r: Vec<char>)
    ensures
        r@ == s@,
{
    broadcast use vstd::string::group_string_axioms;
    let mut r: Vec<char> = Vec::new();
    for c in it: s.chars()
        invariant
            r@ == it.seq().take(it.index() as int),
            it.seq() == s@,
    {
        r.push(c);
    }
    r
}

/// Appends one character (`String::push`).
#[verifier::external_body]
pub(crate) fn push_char(s: &mut String, c: char)
    ensures
        final(s)@ == old(s)@.push(c),
{
    s.push(c);
}


} // verus!

verus! {

/// Unicode `White_Space`, the property that `char::is_whitespace` tests.
pub open spec fn is_ws(c: char) -> bool {
    let u = c as u32;
    ||| 0x9 <= u <= 0xd
    ||| u == 0x20
    ||| u == 0x85
    ||| u == 0xa0
    ||| u == 0x1680
    ||| 0x2000 <= u <= 0x200a
    ||| u == 0x2028
    ||| u == 0x2029
    ||| u == 0x202f
    ||| u == 0x205f
    ||| u == 0x3000
}

/// Whether `c` is Unicode white space.
pub fn is_whitespace(c: char) -> (r: bool)
    ensures
        r == is_ws(c),
{
    let u: u32 = c as u32;
    (0x9 <= u && u <= 0xd) || u == 0x20 || u == 0x85 || u == 0xa0 || u == 0x1680 || (0x2000 <= u
        && u <= 0x200a) || u == 0x2028 || u == 0x2029 || u == 0x202f || u == 0x205f || u == 0x3000
}

/// `s` without its leading white space.
pub open spec fn trim_start(s: Seq<char>) -> Seq<char>
    decreases s.len(),
{
    if s.len() > 0 && is_ws(s[0]) {
        trim_start(s.drop_first())
    } else {
        s
    }
}

/// `s` without its trailing white space.
pub open spec fn trim_end(s: Seq<char>) -> Seq<char>
    decreases s.len(),
{
    if s.len() > 0 && is_ws(s.last()) {
        trim_end(s.drop_last())
    } else {
        s
    }
}

/// `s` without leading and trailing white space (`str::trim`).
pub open spec fn trimmed(s: Seq<char>) -> Seq<char> {
    trim_end(trim_start(s))
}

/// A string made of `v[from..to]`.
pub fn string_of(v: &Vec<char>, from: usize, to: usize) -> (r: String)
    requires
        from <= to <= v.len(),
    ensures
        r@ == v@.subrange(from as int, to as int),
{
    let mut r = String::new();
    let mut i: usize = from;
    while i < to
        invariant
            from <= i <= to <= v.len(),
            r@ == v@.subrange(from as int, i as int),
        decreases to - i,
    {
        push_char(&mut r, v[i]);
        assert(v@.subrange(from as int, i + 1) == v@.subrange(from as int, i as int).push(v@[i as int]));
        i = i + 1;
    }
    r
}

proof fn lemma_trim_start_at(s: Seq<char>, i: int)
    requires
        0 <= i <= s.len(),
        forall|k: int| 0 <= k < i ==> is_ws(#[trigger] s[k]),
        i == s.len() || !is_ws(s[i]),
    ensures
        trim_start(s) == s.subrange(i, s.len() as int),
    decreases i,
{
    if i == 0 {
        assert(s.subrange(0, s.len() as int) == s);
    } else {
        let t = s.drop_first();
        assert forall|k: int| 0 <= k < i - 1 implies is_ws(#[trigger] t[k]) by {
            assert(t[k] == s[k + 1]);
        }
        if i - 1 < t.len() {
            assert(t[i - 1] == s[i]);
        }
        lemma_trim_start_at(t, i - 1);
        assert(t.subrange(i - 1, t.len() as int) == s.subrange(i, s.len() as int));
    }
}

proof fn lemma_trim_end_at(s: Seq<char>, j: int)
    requires
        0 <= j <= s.len(),
        forall|k: int| j <= k < s.len() ==> is_ws(#[trigger] s[k]),
        j == 0 || !is_ws(s[j - 1]),
    ensures
        trim_end(s) == s.subrange(0, j),
    decreases s.len() - j,
{
    if j == s.len() {
        assert(s.subrange(0, j) == s);
    } else {
        let t = s.drop_last();
        assert forall|k: int| j <= k < t.len() implies is_ws(#[trigger] t[k]) by {
            assert(t[k] == s[k]);
        }
        if j > 0 {
            assert(t[j - 1] == s[j - 1]);
        }
        lemma_trim_end_at(t, j);
        assert(t.subrange(0, j) == s.subrange(0, j));
    }
}

/// `str::trim`: `s` without leading and trailing white space.
pub fn trim(s: &str) -> (r: String)
    ensures
        r@ == trimmed(s@),
{
    let v = chars_of(s);
    let n: usize = v.len();
    let mut i: usize = 0;
    while i < n && is_whitespace(v[i])
        invariant
            i <= n == v.len(),
            forall|k: int| 0 <= k < i ==> is_ws(#[trigger] v@[k]),
        decreases n - i,
    {
        i = i + 1;
    }
    let mut j: usize = n;
    while j > i && is_whitespace(v[j - 1])
        invariant
            i <= j <= n == v.len(),
            forall|k: int| j <= k < n ==> is_ws(#[trigger] v@[k]),
        decreases j,
    {
        j = j - 1;
    }
    proof {
        lemma_trim_start_at(v@, i as int);
        let t = v@.subrange(i as int, n as int);
        assert forall|k: int| j - i <= k < t.len() implies is_ws(#[trigger] t[k]) by {
            assert(t[k] == v@[k + i]);
        }
        if j > i {
            assert(t[j - i - 1] == v@[j - 1]);
        }
        lemma_trim_end_at(t, j - i);
        assert(t.subrange(0, j - i) == v@.subrange(i as int, j as int));
    }
    string_of(&v, i, j)
}

/// Whether every character of `s` is white space (then `trimmed(s)` is empty).
pub proof fn lemma_trimmed_empty(s: Seq<char>)
    ensures
        (trimmed(s).len() == 0) <==> (forall|k: int| 0 <= k < s.len() ==> is_ws(#[trigger] s[k])),
    decreases s.len(),
{
    if s.len() > 0 {
        if is_ws(s[0]) {
            lemma_trimmed_empty(s.drop_first());
            assert forall|k: int| 0 <= k < s.len() - 1 implies (is_ws(#[trigger] s.drop_first()[k]) == is_ws(s[k + 1])) by {}
            if forall|k: int| 0 <= k < s.len() - 1 ==> is_ws(#[trigger] s.drop_first()[k]) {
                assert forall|k: int| 0 <= k < s.len() implies is_ws(#[trigger] s[k]) by {
                    if k > 0 {
                        assert(is_ws(s.drop_first()[k - 1]));
                    }
                }
            }
        } else {
            lemma_trim_end_nonempty(s);
        }
    }
}

proof fn lemma_trim_end_nonempty(s: Seq<char>)
    requires
        s.len() > 0,
        !is_ws(s[0]),
    ensures
        trim_end(s).len() > 0,
    decreases s.len(),
{
    if is_ws(s.last()) {
        assert(s.drop_last()[0] == s[0]);
        lemma_trim_end_nonempty(s.drop_last());
    }
}


} // verus!

verus! {

/// `p` occurs in `s` at position `i`.
pub open spec fn occurs_at(s: Seq<char>, p: Seq<char>, i: int) -> bool {
    0 <= i && i + p.len() <= s.len() && s.subrange(i, i + p.len()) == p
}

/// `p` occurs somewhere in `s` (`str::contains`).
pub open spec fn has_substring(s: Seq<char>, p: Seq<char>) -> bool {
    exists|i: int| occurs_at(s, p, i)
}

/// `s` begins with `p` (`str::starts_with`).
pub open spec fn has_prefix(s: Seq<char>, p: Seq<char>) -> bool {
    occurs_at(s, p, 0)
}

fn matches_at(v: &Vec<char>, p: &Vec<char>, i: usize) -> (r: bool)
    requires
        i + p.len() <= v.len(),
    ensures
        r == occurs_at(v@, p@, i as int),
{
    let mut k: usize = 0;
    while k < p.len()
        invariant
            i + p.len() <= v.len(),
            k <= p.len(),
            forall|m: int| 0 <= m < k ==> v@[i + m] == p@[m],
        decreases p.len() - k,
    {
        if v[i + k] != p[k] {
            assert(v@.subrange(i as int, i + p.len())[k as int] != p@[k as int]);
            return false;
        }
        k = k + 1;
    }
    assert(v@.subrange(i as int, i + p.len()) =~= p@);
    true
}

/// Whether `pat` occurs in `s`.
pub fn contains(s: &str, pat: &str) -> (r: bool)
    ensures
        r == has_substring(s@, pat@),
{
    let v = chars_of(s);
    let p = chars_of(pat);
    if p.len() == 0 {
        assert(s@.subrange(0, 0) =~= pat@);
        assert(occurs_at(s@, pat@, 0));
        return true;
    }
    if p.len() > v.len() {
        return false;
    }
    let last: usize = v.len() - p.len();
    let mut i: usize = 0;
    while i <= last
        invariant
            last + p.len() == v.len(),
            v@ == s@,
            p@ == pat@,
            p.len() > 0,
            i <= last + 1,
            forall|m: int| 0 <= m < i ==> !occurs_at(v@, p@, m),
        decreases last + 1 - i,
    {
        if matches_at(&v, &p, i) {
            assert(occurs_at(s@, pat@, i as int));
            return true;
        }
        i = i + 1;
    }
    assert forall|m: int| !occurs_at(v@, p@, m) by {
        if 0 <= m && m + p.len() <= v.len() {
            assert(m <= last);
        }
    }
    false
}

/// Whether `s` begins with `pat`.
pub fn starts_with(s: &str, pat: &str) -> (r: bool)
    ensures
        r == has_prefix(s@, pat@),
{
    let v = chars_of(s);
    let p = chars_of(pat);
    if p.len() > v.len() {
        return false;
    }
    matches_at(&v, &p, 0)
}

/// The character of a decimal digit.
pub open spec fn digit_char(d: nat) -> char {
    if d == 0 { '0' }
    else if d == 1 { '1' }
    else if d == 2 { '2' }
    else if d == 3 { '3' }
    else if d == 4 { '4' }
    else if d == 5 { '5' }
    else if d == 6 { '6' }
    else if d == 7 { '7' }
    else if d == 8 { '8' }
    else { '9' }
}

/// The value of a decimal digit character, if it is one.
pub open spec fn digit_value(c: char) -> Option<nat> {
    if c == '0' { Some(0) }
    else if c == '1' { Some(1) }
    else if c == '2' { Some(2) }
    else if c == '3' { Some(3) }
    else if c == '4' { Some(4) }
    else if c == '5' { Some(5) }
    else if c == '6' { Some(6) }
    else if c == '7' { Some(7) }
    else if c == '8' { Some(8) }
    else if c == '9' { Some(9) }
    else { None }
}

fn digit_of(c: char) -> (r: Option<u32>)
    ensures
        r matches Some(d) ==> digit_value(c) == Some(d as nat) && d < 10,
        r is None ==> digit_value(c) is None,
{
    if c == '0' { Some(0) }
    else if c == '1' { Some(1) }
    else if c == '2' { Some(2) }
    else if c == '3' { Some(3) }
    else if c == '4' { Some(4) }
    else if c == '5' { Some(5) }
    else if c == '6' { Some(6) }
    else if c == '7' { Some(7) }
    else if c == '8' { Some(8) }
    else if c == '9' { Some(9) }
    else { None }
}

/// `n` written in decimal, without leading zeros.
pub open spec fn decimal(n: nat) -> Seq<char>
    decreases n,
{
    if n < 10 {
        seq![digit_char(n)]
    } else {
        decimal(n / 10).push(digit_char(n % 10))
    }
}

/// `x` written in decimal, with a leading `-` when negative (`Display` of an integer).
pub open spec fn signed_decimal(x: int) -> Seq<char> {
    if x < 0 { seq!['-'] + decimal((-x) as nat) } else { decimal(x as nat) }
}

fn digit(d: u64) -> (c: char)
    requires
        d < 10,
    ensures
        c == digit_char(d as nat),
{
    if d == 0 { '0' }
    else if d == 1 { '1' }
    else if d == 2 { '2' }
    else if d == 3 { '3' }
    else if d == 4 { '4' }
    else if d == 5 { '5' }
    else if d == 6 { '6' }
    else if d == 7 { '7' }
    else if d == 8 { '8' }
    else { '9' }
}

/// Appends `n` in decimal.
pub fn push_decimal(out: &mut String, n: u64)
    ensures
        final(out)@ == old(out)@ + decimal(n as nat),
    decreases n,
{
    if n < 10 {
        push_char(out, digit(n));
    } else {
        push_decimal(out, n / 10);
        push_char(out, digit(n % 10));
    }
}

/// Appends `x` in decimal, signed.
pub fn push_signed(out: &mut String, x: i64)
    ensures
        final(out)@ == old(out)@ + signed_decimal(x as int),
{
    if x < 0 {
        push_char(out, '-');
        let m: u64 = if x == i64::MIN { 9223372036854775808u64 } else { (-x) as u64 };
        push_decimal(out, m);
    } else {
        push_decimal(out, x as u64);
    }
}

/// The value of a string of decimal digits (most significant first).
pub open spec fn digits_value(s: Seq<char>) -> nat
    decreases s.len(),
{
    if s.len() == 0 {
        0
    } else {
        digits_value(s.drop_last()) * 10 + digit_value(s.last()).unwrap_or(0)
    }
}

/// Every character of `s` is a decimal digit.
pub open spec fn all_digits(s: Seq<char>) -> bool {
    forall|k: int| 0 <= k < s.len() ==> (#[trigger] digit_value(s[k])) is Some
}

/// What `s.parse::<u16>()` gives: an optional `+`, then one or more decimal digits whose
/// value fits in a `u16`.
pub open spec fn parse_u16_spec(s: Seq<char>) -> Option<u16> {
    let d = if s.len() > 0 && s[0] == '+' { s.drop_first() } else { s };
    if d.len() > 0 && all_digits(d) && digits_value(d) <= 65535 {
        Some(digits_value(d) as u16)
    } else {
        None
    }
}

proof fn lemma_digits_value_monotone(s: Seq<char>, i: int)
    requires
        0 <= i <= s.len(),
    ensures
        digits_value(s.subrange(0, i)) <= digits_value(s),
    decreases s.len() - i,
{
    if i < s.len() {
        lemma_digits_value_monotone(s, i + 1);
        assert(s.subrange(0, i + 1).drop_last() == s.subrange(0, i));
    } else {
        assert(s.subrange(0, i) == s);
    }
}

/// `str::parse::<u16>`.
pub fn parse_u16(s: &str) -> (r: Option<u16>)
    ensures
        r == parse_u16_spec(s@),
{
    let v = chars_of(s);
    let start: usize = if v.len() > 0 && v[0] == '+' { 1 } else { 0 };
    let ghost d = if s@.len() > 0 && s@[0] == '+' { s@.drop_first() } else { s@ };
    assert(d == v@.subrange(start as int, v.len() as int));
    if start == v.len() {
        return None;
    }
    let mut acc: u32 = 0;
    let mut i: usize = start;
    while i < v.len()
        invariant
            start <= i <= v.len(),
            d == v@.subrange(start as int, v.len() as int),
            d == (if s@.len() > 0 && s@[0] == '+' { s@.drop_first() } else { s@ }),
            all_digits(d.subrange(0, i - start)),
            acc == digits_value(d.subrange(0, i - start)),
            acc <= 65535,
        decreases v.len() - i,
    {
        let c = v[i];
        assert(d.subrange(0, i + 1 - start).drop_last() == d.subrange(0, i - start));
        assert(d[i - start] == c);
        let dv: u32 = match digit_of(c) {
            Some(x) => x,
            None => {
                assert(!all_digits(d)) by {
                    assert(digit_value(d[i - start]) is None);
                }
                return None;
            },
        };
        assert(all_digits(d.subrange(0, i + 1 - start))) by {
            assert forall|k: int| 0 <= k < i + 1 - start implies (#[trigger] digit_value(d.subrange(0, i + 1 - start)[k])) is Some by {
                if k < i - start {
                    assert(d.subrange(0, i + 1 - start)[k] == d.subrange(0, i - start)[k]);
                }
            }
        }
        let next: u32 = acc * 10 + dv;
        if next > 65535 {
            proof {
                lemma_digits_value_monotone(d, i + 1 - start);
            }
            return None;
        }
        acc = next;
        i = i + 1;
    }
    assert(d.subrange(0, d.len() as int) == d);
    Some(acc as u16)
}


} // verus!

verus! {

/// The words of `s` read so far, and the word being read: the state of `split_whitespace`
/// after the characters of `s`.
pub open spec fn split_state(s: Seq<char>) -> (Seq<Seq<char>>, Seq<char>)
    decreases s.len(),
{
    if s.len() == 0 {
        (seq![], seq![])
    } else {
        let (done, cur) = split_state(s.drop_last());
        if is_ws(s.last()) {
            if cur.len() > 0 {
                (done.push(cur), seq![])
            } else {
                (done, seq![])
            }
        } else {
            (done, cur.push(s.last()))
        }
    }
}

/// The maximal runs of non-white-space characters of `s`, in order (`str::split_whitespace`).
pub open spec fn words(s: Seq<char>) -> Seq<Seq<char>> {
    let (done, cur) = split_state(s);
    if cur.len() > 0 {
        done.push(cur)
    } else {
        done
    }
}

/// `str::split_whitespace`, collected.
pub fn split_whitespace(s: &str) -> (r: Vec<String>)
    ensures
        r.len() == words(s@).len(),
        forall|k: int| 0 <= k < r.len() ==> #[trigger] r[k]@ == words(s@)[k],
{
    let v = chars_of(s);
    let mut done: Vec<String> = Vec::new();
    let mut cur: Vec<char> = Vec::new();
    let ghost mut gd: Seq<Seq<char>> = seq![];
    let mut i: usize = 0;
    while i < v.len()
        invariant
            i <= v.len(),
            v@ == s@,
            (gd, cur@) == split_state(v@.subrange(0, i as int)),
            done.len() == gd.len(),
            forall|k: int| 0 <= k < done.len() ==> #[trigger] done[k]@ == gd[k],
        decreases v.len() - i,
    {
        let c = v[i];
        assert(v@.subrange(0, i + 1).drop_last() == v@.subrange(0, i as int));
        if is_whitespace(c) {
            if cur.len() > 0 {
                let w = string_of(&cur, 0, cur.len());
                assert(cur@.subrange(0, cur.len() as int) == cur@);
                done.push(w);
                proof {
                    gd = gd.push(cur@);
                }
                cur = Vec::new();
            }
        } else {
            cur.push(c);
        }
        i = i + 1;
    }
    assert(v@.subrange(0, v.len() as int) == v@);
    if cur.len() > 0 {
        let w = string_of(&cur, 0, cur.len());
        assert(cur@.subrange(0, cur.len() as int) == cur@);
        done.push(w);
        proof {
            gd = gd.push(cur@);
        }
    }
    done
}

/// `line` without one trailing carriage return.
pub open spec fn strip_cr(line: Seq<char>) -> Seq<char> {
    if line.len() > 0 && line.last() == '\r' {
        line.drop_last()
    } else {
        line
    }
}

/// The lines of `s` ended so far, and the line being read: the state of `str::lines` after
/// the characters of `s`.
pub open spec fn line_state(s: Seq<char>) -> (Seq<Seq<char>>, Seq<char>)
    decreases s.len(),
{
    if s.len() == 0 {
        (seq![], seq![])
    } else {
        let (done, cur) = line_state(s.drop_last());
        if s.last() == '\n' {
            (done.push(strip_cr(cur)), seq![])
        } else {
            (done, cur.push(s.last()))
        }
    }
}

/// `str::lines`: the pieces of `s` between line feeds, each without a carriage return that
/// stood just before its line feed; an empty last piece is not a line.
pub open spec fn lines(s: Seq<char>) -> Seq<Seq<char>> {
    let (done, cur) = line_state(s);
    if cur.len() > 0 {
        done.push(cur)
    } else {
        done
    }
}

fn string_strip_cr(cur: &Vec<char>) -> (r: String)
    ensures
        r@ == strip_cr(cur@),
{
    if cur.len() > 0 && cur[cur.len() - 1] == '\r' {
        string_of(cur, 0, cur.len() - 1)
    } else {
        let r = string_of(cur, 0, cur.len());
        assert(cur@.subrange(0, cur.len() as int) == cur@);
        r
    }
}

/// `str::lines`, collected.
pub fn lines_of(s: &str) -> (r: Vec<String>)
    ensures
        r.len() == lines(s@).len(),
        forall|k: int| 0 <= k < r.len() ==> #[trigger] r[k]@ == lines(s@)[k],
{
    let v = chars_of(s);
    let mut done: Vec<String> = Vec::new();
    let mut cur: Vec<char> = Vec::new();
    let ghost mut gd: Seq<Seq<char>> = seq![];
    let mut i: usize = 0;
    while i < v.len()
        invariant
            i <= v.len(),
            v@ == s@,
            (gd, cur@) == line_state(v@.subrange(0, i as int)),
            done.len() == gd.len(),
            forall|k: int| 0 <= k < done.len() ==> #[trigger] done[k]@ == gd[k],
        decreases v.len() - i,
    {
        let c = v[i];
        assert(v@.subrange(0, i + 1).drop_last() == v@.subrange(0, i as int));
        if c == '\n' {
            let w = string_strip_cr(&cur);
            done.push(w);
            proof {
                gd = gd.push(strip_cr(cur@));
            }
            cur = Vec::new();
        } else {
            cur.push(c);
        }
        i = i + 1;
    }
    assert(v@.subrange(0, v.len() as int) == v@);
    if cur.len() > 0 {
        let w = string_of(&cur, 0, cur.len());
        assert(cur@.subrange(0, cur.len() as int) == cur@);
        done.push(w);
        proof {
            gd = gd.push(cur@);
        }
    }
    done
}

/// The lines of `s` that begin with `prefix`, in order.
pub fn lines_with_prefix(s: &str, prefix: &str) -> (r: Vec<String>)
    ensures
        r.len() == lines(s@).filter(|l: Seq<char>| has_prefix(l, prefix@)).len(),
        forall|k: int|
            0 <= k < r.len() ==> #[trigger] r[k]@ == lines(s@).filter(
                |l: Seq<char>| has_prefix(l, prefix@),
            )[k],
{
    let all = lines_of(s);
    let ghost ls = lines(s@);
    let ghost pred = |l: Seq<char>| has_prefix(l, prefix@);
    let mut r: Vec<String> = Vec::new();
    let mut i: usize = 0;
    while i < all.len()
        invariant
            i <= all.len() == ls.len(),
            ls == lines(s@),
            pred == (|l: Seq<char>| has_prefix(l, prefix@)),
            forall|k: int| 0 <= k < all.len() ==> #[trigger] all[k]@ == ls[k],
            r.len() == ls.take(i as int).filter(pred).len(),
            forall|k: int| 0 <= k < r.len() ==> #[trigger] r[k]@ == ls.take(i as int).filter(pred)[k],
        decreases all.len() - i,
    {
        proof {
            reveal(Seq::filter);
            assert(ls.take(i + 1).drop_last() == ls.take(i as int));
            assert(ls.take(i + 1).last() == ls[i as int]);
        }
        let keep = starts_with(all[i].as_str(), prefix);
        if keep {
            let w = all[i].clone();
            r.push(w);
        }
        i = i + 1;
    }
    assert(ls.take(ls.len() as int) == ls);
    r
}


} // verus!

verus! {

/// What stands for `c` between single quotes: a quote closes the quoted text, is written
/// as a backslash-escaped quote, and the quoted text opens again.
pub open spec fn quote_piece(c: char) -> Seq<char> {
    if c == '\'' {
        seq!['\'', '\\', '\'', '\'']
    } else {
        seq![c]
    }
}

/// `a` with each single quote replaced by `'\''`.
pub open spec fn escape_body(a: Seq<char>) -> Seq<char>
    decreases a.len(),
{
    if a.len() == 0 {
        seq![]
    } else {
        quote_piece(a[0]) + escape_body(a.drop_first())
    }
}

/// `a` as one single-quoted shell word.
pub open spec fn single_quoted(a: Seq<char>) -> Seq<char> {
    seq!['\''] + escape_body(a) + seq!['\'']
}

/// Characters that a POSIX shell does not take literally outside quotes: blanks and line
/// feeds split words; the others are operators, expansions, quotes or patterns.
pub open spec fn shell_special(c: char) -> bool {
    ||| c == ' '
    ||| c == '\t'
    ||| c == '\n'
    ||| c == '|'
    ||| c == '&'
    ||| c == ';'
    ||| c == '<'
    ||| c == '>'
    ||| c == '('
    ||| c == ')'
    ||| c == '$'
    ||| c == '`'
    ||| c == '"'
    ||| c == '*'
    ||| c == '?'
    ||| c == '['
    ||| c == '#'
    ||| c == '~'
}

/// The single word that a POSIX shell reads from `s`, if `s` is exactly one word made of
/// plain characters, backslash escapes and single-quoted text; `quoted` says whether the
/// reading starts inside single quotes.
pub open spec fn shell_word(s: Seq<char>, quoted: bool) -> Option<Seq<char>>
    decreases s.len(),
{
    if s.len() == 0 {
        if quoted {
            None
        } else {
            Some(seq![])
        }
    } else if quoted {
        if s[0] == '\'' {
            shell_word(s.drop_first(), false)
        } else {
            match shell_word(s.drop_first(), true) {
                Some(w) => Some(seq![s[0]] + w),
                None => None,
            }
        }
    } else if s[0] == '\'' {
        shell_word(s.drop_first(), true)
    } else if s[0] == '\\' {
        if s.len() < 2 {
            None
        } else if s[1] == '\n' {
            shell_word(s.subrange(2, s.len() as int), false)
        } else {
            match shell_word(s.subrange(2, s.len() as int), false) {
                Some(w) => Some(seq![s[1]] + w),
                None => None,
            }
        }
    } else if shell_special(s[0]) {
        None
    } else {
        match shell_word(s.drop_first(), false) {
            Some(w) => Some(seq![s[0]] + w),
            None => None,
        }
    }
}

proof fn lemma_escape_body_push(a: Seq<char>, c: char)
    ensures
        escape_body(a.push(c)) == escape_body(a) + quote_piece(c),
    decreases a.len(),
{
    if a.len() == 0 {
        assert(a.push(c).drop_first() =~= seq![]);
        assert(escape_body(a.push(c)) =~= quote_piece(c) + escape_body(seq![]));
        assert(escape_body(a) + quote_piece(c) =~= quote_piece(c));
    } else {
        assert(a.push(c).drop_first() =~= a.drop_first().push(c));
        lemma_escape_body_push(a.drop_first(), c);
        assert(escape_body(a.push(c)) =~= quote_piece(a[0]) + (escape_body(a.drop_first())
            + quote_piece(c)));
    }
}

proof fn lemma_read_escaped(a: Seq<char>, t: Seq<char>)
    ensures
        shell_word(escape_body(a) + seq!['\''] + t, true) == match shell_word(t, false) {
            Some(w) => Some(a + w),
            None => None::<Seq<char>>,
        },
    decreases a.len(),
{
    let s = escape_body(a) + seq!['\''] + t;
    if a.len() == 0 {
        assert(s =~= seq!['\''] + t);
        assert(s.drop_first() =~= t);
        match shell_word(t, false) {
            Some(w) => {
                assert(a + w =~= w);
            },
            None => {},
        }
    } else {
        let rest = escape_body(a.drop_first()) + seq!['\''] + t;
        lemma_read_escaped(a.drop_first(), t);
        let c = a[0];
        if c == '\'' {
            assert(s =~= seq!['\'', '\\', '\'', '\''] + rest);
            let s1 = s.drop_first();
            assert(s1 =~= seq!['\\', '\'', '\''] + rest);
            let s2 = s1.subrange(2, s1.len() as int);
            assert(s2 =~= seq!['\''] + rest);
            assert(s2.drop_first() =~= rest);
            assert(shell_word(s, true) == shell_word(s1, false));
            assert(shell_word(s2, false) == shell_word(rest, true));
            assert(shell_word(s1, false) == match shell_word(s2, false) {
                Some(w) => Some(seq![s1[1]] + w),
                None => None::<Seq<char>>,
            });
        } else {
            assert(s =~= seq![c] + rest);
            assert(s.drop_first() =~= rest);
        }
        match shell_word(t, false) {
            Some(w) => {
                assert(seq![c] + (a.drop_first() + w) =~= a + w);
            },
            None => {},
        }
    }
}

/// Law: a shell reads the quoted form of `a` back as the single word `a`, whatever
/// characters `a` holds.
pub proof fn lemma_single_quoted_reads_back(a: Seq<char>)
    ensures
        shell_word(single_quoted(a), false) == Some(a),
{
    let s = single_quoted(a);
    lemma_read_escaped(a, seq![]);
    assert(s.drop_first() =~= escape_body(a) + seq!['\''] + seq![]);
    assert(a + seq![] =~= a);
}

/// `a` quoted for a POSIX shell: each `'` becomes `'\''`, and the whole is put between
/// single quotes.
pub fn shell_quote(a: &str) -> (r: String)
    ensures
        r@ == single_quoted(a@),
{
    let v = chars_of(a);
    let mut r = String::new();
    push_char(&mut r, '\'');
    let mut i: usize = 0;
    while i < v.len()
        invariant
            i <= v.len(),
            v@ == a@,
            r@ == seq!['\''] + escape_body(v@.take(i as int)),
        decreases v.len() - i,
    {
        let c = v[i];
        proof {
            assert(v@.take(i + 1) == v@.take(i as int).push(c));
            lemma_escape_body_push(v@.take(i as int), c);
        }
        if c == '\'' {
            r.append("'\\''");
            proof {
                reveal_strlit("'\\''");
            }
            assert(r@ =~= seq!['\''] + escape_body(v@.take(i + 1)));
        } else {
            push_char(&mut r, c);
            assert(r@ =~= seq!['\''] + escape_body(v@.take(i + 1)));
        }
        i = i + 1;
    }
    push_char(&mut r, '\'');
    assert(v@.take(v.len() as int) == v@);
    r
}


} // verus!

verus! {

/// Whether `a` and `b` hold the same characters.
pub fn same_text(a: &str, b: &str) -> (r: bool)
    ensures
        r == (a@ == b@),
{
    let va = chars_of(a);
    let vb = chars_of(b);
    if va.len() != vb.len() {
        return false;
    }
    let mut i: usize = 0;
    while i < va.len()
        invariant
            i <= va.len() == vb.len(),
            va@ == a@,
            vb@ == b@,
            forall|k: int| 0 <= k < i ==> va@[k] == vb@[k],
        decreases va.len() - i,
    {
        if va[i] != vb[i] {
            return false;
        }
        i = i + 1;
    }
    assert(va@ =~= vb@);
    true
}

/// A copy of `s`.
pub fn to_owned(s: &str) -> (r: String)
    ensures
        r@ == s@,
{
    let mut r = String::new();
    r.append(s);
    r
}


proof fn lemma_digit_char(d: nat)
    requires
        d < 10,
    ensures
        digit_value(digit_char(d)) == Some(d),
        !is_ws(digit_char(d)),
        digit_char(d) != '+',
{
}

/// `decimal(n)` is a non-empty string of digits whose value is `n`.
pub proof fn lemma_decimal_digits(n: nat)
    ensures
        decimal(n).len() > 0,
        all_digits(decimal(n)),
        digits_value(decimal(n)) == n,
    decreases n,
{
    if n < 10 {
        lemma_digit_char(n);
        let e: Seq<char> = seq![];
        assert(decimal(n).drop_last() =~= e);
        assert(digits_value(e) == 0);
        assert(decimal(n).last() == digit_char(n));
        assert(digits_value(decimal(n)) == digits_value(e) * 10 + n);
    } else {
        lemma_decimal_digits(n / 10);
        lemma_digit_char(n % 10);
        let d = decimal(n);
        assert(d.drop_last() == decimal(n / 10));
        assert(d.last() == digit_char(n % 10));
        assert(digits_value(d) == digits_value(decimal(n / 10)) * 10 + (n % 10));
        assert((n / 10) * 10 + n % 10 == n) by (nonlinear_arith);
        assert forall|k: int| 0 <= k < d.len() implies (#[trigger] digit_value(d[k])) is Some by {
            if k < d.len() - 1 {
                assert(d[k] == decimal(n / 10)[k]);
            }
        }
    }
}

/// Law: reading a number back from its decimal form gives the number.
pub proof fn lemma_parse_decimal(n: u16)
    ensures
        parse_u16_spec(decimal(n as nat)) == Some(n),
{
    lemma_decimal_digits(n as nat);
    let d = decimal(n as nat);
    assert(digit_value(d[0]) is Some);
}

/// Reading characters without white space only extends the word being read.
pub proof fn lemma_split_plain(p: Seq<char>, b: Seq<char>)
    requires
        forall|k: int| 0 <= k < b.len() ==> !is_ws(#[trigger] b[k]),
    ensures
        split_state(p + b) == (split_state(p).0, split_state(p).1 + b),
    decreases b.len(),
{
    if b.len() == 0 {
        assert(p + b =~= p);
        assert(split_state(p).1 + b =~= split_state(p).1);
    } else {
        let b0 = b.drop_last();
        assert forall|k: int| 0 <= k < b0.len() implies !is_ws(#[trigger] b0[k]) by {
            assert(b0[k] == b[k]);
        }
        lemma_split_plain(p, b0);
        assert((p + b).drop_last() =~= p + b0);
        assert((p + b).last() == b.last());
        assert(!is_ws(b[b.len() - 1]));
        assert(split_state(p).1 + b0 + seq![b.last()] =~= split_state(p).1 + b);
    }
}

proof fn lemma_digits_plain(s: Seq<char>)
    requires
        all_digits(s),
    ensures
        forall|k: int| 0 <= k < s.len() ==> !is_ws(#[trigger] s[k]),
{
    assert forall|k: int| 0 <= k < s.len() implies !is_ws(#[trigger] s[k]) by {
        assert(digit_value(s[k]) is Some);
    }
}

/// The words of two numbers written with a blank between them and a line feed after them
/// are the two numbers' decimal forms.
pub proof fn lemma_words_of_pair(a: nat, b: nat)
    ensures
        words(decimal(a) + seq![' '] + decimal(b) + seq!['\n']) == seq![decimal(a), decimal(b)],
{
    let da = decimal(a);
    let db = decimal(b);
    lemma_decimal_digits(a);
    lemma_decimal_digits(b);
    lemma_digits_plain(da);
    lemma_digits_plain(db);
    let e: Seq<char> = seq![];
    lemma_split_plain(e, da);
    assert(e + da =~= da);
    assert(split_state(e) == (Seq::<Seq<char>>::empty(), e));
    let s1 = da + seq![' '];
    assert(s1.drop_last() =~= da);
    assert(split_state(s1) == (seq![da], e));
    lemma_split_plain(s1, db);
    let s2 = s1 + db;
    assert(e + db =~= db);
    let s3 = s2 + seq!['\n'];
    assert(s3.drop_last() =~= s2);
    assert(split_state(s3) == (seq![da, db], e));
    assert(s3 =~= decimal(a) + seq![' '] + decimal(b) + seq!['\n']);
}

} // verus!
