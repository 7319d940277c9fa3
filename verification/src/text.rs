//! Character-level text operations with their mathematical meaning.
use vstd::prelude::*;

verus! {

broadcast use vstd::string::group_string_axioms;

/// `pat` occurs in `s` starting at position `i`.
pub open spec fn occurs_at(s: Seq<char>, pat: Seq<char>, i: int) -> bool {
    0 <= i && i + pat.len() <= s.len() && s.subrange(i, i + pat.len()) == pat
}

/// `pat` occurs somewhere in `s`.
pub open spec fn contains_seq(s: Seq<char>, pat: Seq<char>) -> bool {
    exists|i: int| occurs_at(s, pat, i)
}

/// `i` is the leftmost position at which `pat` occurs in `s`.
pub open spec fn is_first_occurrence(s: Seq<char>, pat: Seq<char>, i: int) -> bool {
    &&& occurs_at(s, pat, i)
    &&& forall|k: int| 0 <= k < i ==> !occurs_at(s, pat, k)
}

/// `p` is a prefix of `s`.
pub open spec fn is_prefix(p: Seq<char>, s: Seq<char>) -> bool {
    p.len() <= s.len() && s.subrange(0, p.len() as int) == p
}

/// `p` is a suffix of `s`.
pub open spec fn is_suffix(p: Seq<char>, s: Seq<char>) -> bool {
    p.len() <= s.len() && s.subrange(s.len() - p.len(), s.len() as int) == p
}

/// The characters of `s`, in order.
pub fn chars_of(s: &str) -> (v: Vec<char>)
    ensures
        v@ == s@,
{
    let mut v: Vec<char> = Vec::new();
    for c in it: s.chars()
        invariant
            v@ == it.seq().take(it.index() as int),
            it.seq() == s@,
    {
        v.push(c);
    }
    v
}

/// Whether `pat` occurs in `s` at position `i`.
fn matches_at(s: &Vec<char>, pat: &Vec<char>, i: usize) -> (b: bool)
    requires
        i + pat.len() <= s.len(),
    ensures
        b == occurs_at(s@, pat@, i as int),
{
    let m = pat.len();
    let mut j: usize = 0;
    while j < m
        invariant
            j <= m,
            m == pat.len(),
            i + m <= s.len(),
            forall|k: int| 0 <= k < j ==> s@[i + k] == pat@[k],
        decreases m - j,
    {
        if s[i + j] != pat[j] {
            assert(s@.subrange(i as int, i + m)[j as int] != pat@[j as int]);
            return false;
        }
        j = j + 1;
    }
    assert(s@.subrange(i as int, i + m) =~= pat@);
    true
}

/// The leftmost position at which `pat` occurs in `s`, if any.
fn first_occurrence(s: &Vec<char>, pat: &Vec<char>) -> (r: Option<usize>)
    ensures
        r matches Some(i) ==> is_first_occurrence(s@, pat@, i as int),
        r is None ==> !contains_seq(s@, pat@),
{
    let n = s.len();
    let m = pat.len();
    if m > n {
        return None;
    }
    if m == 0 {
        assert(s@.subrange(0, 0) =~= pat@);
        return Some(0);
    }
    let mut i: usize = 0;
    while i <= n - m
        invariant
            n == s.len(),
            m == pat.len(),
            1 <= m <= n,
            i <= n - m + 1,
            forall|k: int| 0 <= k < i ==> !occurs_at(s@, pat@, k),
        decreases n - i,
    {
        if matches_at(s, pat, i) {
            return Some(i);
        }
        i = i + 1;
    }
    None
}

/// Whether `pat` occurs in `s`.
pub fn contains_text(s: &str, pat: &str) -> (b: bool)
    ensures
        b == contains_seq(s@, pat@),
{
    let cs = chars_of(s);
    let ps = chars_of(pat);
    first_occurrence(&cs, &ps).is_some()
}

/// Whether the character `c` occurs in `s`.
pub fn contains_char(s: &str, c: char) -> (b: bool)
    ensures
        b == s@.contains(c),
{
    let cs = chars_of(s);
    let n = cs.len();
    let mut i: usize = 0;
    while i < n
        invariant
            n == cs.len(),
            cs@ == s@,
            i <= n,
            forall|k: int| 0 <= k < i ==> cs@[k] != c,
        decreases n - i,
    {
        if cs[i] == c {
            return true;
        }
        i = i + 1;
    }
    false
}

/// Whether `a` and `b` hold the same characters.
pub fn same_text(a: &str, b: &str) -> (r: bool)
    ensures
        r == (a@ == b@),
{
    let ca = chars_of(a);
    let cb = chars_of(b);
    if ca.len() != cb.len() {
        return false;
    }
    let n = ca.len();
    let mut i: usize = 0;
    while i < n
        invariant
            n == ca.len(),
            n == cb.len(),
            ca@ == a@,
            cb@ == b@,
            i <= n,
            forall|k: int| 0 <= k < i ==> ca@[k] == cb@[k],
        decreases n - i,
    {
        if ca[i] != cb[i] {
            assert(a@[i as int] != b@[i as int]);
            return false;
        }
        i = i + 1;
    }
    assert(ca@ =~= cb@);
    true
}

/// Whether `prefix` is a prefix of `s`.
pub fn starts_with_text(s: &str, prefix: &str) -> (r: bool)
    ensures
        r == is_prefix(prefix@, s@),
{
    let cs = chars_of(s);
    let ps = chars_of(prefix);
    if ps.len() > cs.len() {
        return false;
    }
    let r = matches_at(&cs, &ps, 0);
    r
}

/// Whether `suffix` is a suffix of `s`.
pub fn ends_with_text(s: &str, suffix: &str) -> (r: bool)
    ensures
        r == is_suffix(suffix@, s@),
{
    let cs = chars_of(s);
    let ps = chars_of(suffix);
    if ps.len() > cs.len() {
        return false;
    }
    let r = matches_at(&cs, &ps, cs.len() - ps.len());
    r
}

/// Unicode `White_Space`, the characters that `str::trim` removes.
pub open spec fn is_white(c: char) -> bool {
    let u = c as u32;
    ||| 0x9 <= u <= 0xd
    ||| u == 0x20
    ||| u == 0x85
    ||| u == 0xa0
    ||| u == 0x1680
    ||| 0x2000 <= u <= 0x200a
    ||| u == 0x2028
    ||| u == 0x2029
    ||| u == 0x202f
    ||| u == 0x205f
    ||| u == 0x3000
}

/// `s` without its leading white space.
pub open spec fn trim_start(s: Seq<char>) -> Seq<char>
    decreases s.len(),
{
    if s.len() > 0 && is_white(s[0]) {
        trim_start(s.subrange(1, s.len() as int))
    } else {
        s
    }
}

/// `s` without its trailing white space.
pub open spec fn trim_end(s: Seq<char>) -> Seq<char>
    decreases s.len(),
{
    if s.len() > 0 && is_white(s[s.len() - 1]) {
        trim_end(s.subrange(0, s.len() - 1))
    } else {
        s
    }
}

/// `s` without leading and trailing white space.
pub open spec fn trim(s: Seq<char>) -> Seq<char> {
    trim_end(trim_start(s))
}

/// `s` with every occurrence of `pat` removed, scanning left to right.
pub open spec fn remove_all(s: Seq<char>, pat: Seq<char>) -> Seq<char>
    decreases s.len(),
{
    if pat.len() == 0 || s.len() < pat.len() {
        s
    } else if s.subrange(0, pat.len() as int) == pat {
        remove_all(s.subrange(pat.len() as int, s.len() as int), pat)
    } else {
        seq![s[0]] + remove_all(s.subrange(1, s.len() as int), pat)
    }
}

/// Where the line holding position `k` of `s` starts.
pub open spec fn line_start(s: Seq<char>, k: int) -> int
    decreases k,
{
    if k <= 0 {
        0
    } else if s[k - 1] == '\n' {
        k
    } else {
        line_start(s, k - 1)
    }
}

/// Where the line holding position `k` of `s` ends (its `'\n'`, or the end of `s`).
pub open spec fn line_end(s: Seq<char>, k: int) -> int
    decreases s.len() - k,
{
    if k >= s.len() {
        s.len() as int
    } else if s[k] == '\n' {
        k
    } else {
        line_end(s, k + 1)
    }
}

/// The decimal digit for `d < 10`.
pub open spec fn digit_char(d: nat) -> char {
    if d == 0 { '0' }
    else if d == 1 { '1' }
    else if d == 2 { '2' }
    else if d == 3 { '3' }
    else if d == 4 { '4' }
    else if d == 5 { '5' }
    else if d == 6 { '6' }
    else if d == 7 { '7' }
    else if d == 8 { '8' }
    else { '9' }
}

/// The decimal notation of `n`, without leading zeros.
pub open spec fn decimal(n: nat) -> Seq<char>
    decreases n,
{
    if n < 10 {
        seq![digit_char(n)]
    } else {
        decimal(n / 10) + seq![digit_char(n % 10)]
    }
}

/// The decimal notation of `n`, with a leading `-` when it is negative.
pub open spec fn signed_decimal(n: int) -> Seq<char> {
    if n < 0 {
        seq!['-'] + decimal((-n) as nat)
    } else {
        decimal(n as nat)
    }
}

/// The items joined by `sep`.
pub open spec fn join_with(items: Seq<Seq<char>>, sep: Seq<char>) -> Seq<char>
    decreases items.len(),
{
    if items.len() == 0 {
        Seq::empty()
    } else if items.len() == 1 {
        items[0]
    } else {
        join_with(items.subrange(0, items.len() - 1), sep) + sep + items[items.len() - 1]
    }
}

/// The items joined by `'\n'`.
pub open spec fn join_lines(items: Seq<Seq<char>>) -> Seq<char> {
    join_with(items, seq!['\n'])
}

/// The position of the last `c` in `s`, or `-1`.
pub open spec fn last_index_of(s: Seq<char>, c: char) -> int
    decreases s.len(),
{
    if s.len() == 0 {
        -1
    } else if s[s.len() - 1] == c {
        s.len() - 1
    } else {
        last_index_of(s.subrange(0, s.len() - 1), c)
    }
}

/// The file name of the path `p`: the text after its last `/`.
pub open spec fn file_name(p: Seq<char>) -> Seq<char> {
    p.subrange(last_index_of(p, '/') + 1, p.len() as int)
}

/// The stem of the file name `n`: the text before its last `.`, unless that `.` starts the
/// name or there is none, in which case the whole name.
pub open spec fn name_stem(n: Seq<char>) -> Seq<char> {
    if last_index_of(n, '.') > 0 {
        n.subrange(0, last_index_of(n, '.'))
    } else {
        n
    }
}

/// The number of bytes of the UTF-8 encoding of `s`.
pub open spec fn byte_len(s: Seq<char>) -> nat {
    vstd::utf8::encode_utf8(s).len()
}

/// `n`, or `cap` when `n` is at least `cap`.
pub open spec fn capped(n: nat, cap: nat) -> nat {
    if n < cap {
        n
    } else {
        cap
    }
}

/// `s` with every character outside ASCII replaced by `?`.
pub open spec fn ascii_only(s: Seq<char>) -> Seq<char> {
    s.map_values(|c: char| if (c as u32) < 128 { c } else { '?' })
}

/// The number of bytes of the UTF-8 encoding of `s`, or `cap` when it is at least `cap`.
pub fn utf8_len_up_to(s: &str, cap: usize) -> (n: usize)
    ensures
        n as nat == capped(byte_len(s@), cap as nat),
{
    let cs = chars_of(s);
    let len = cs.len();
    let mut i: usize = len;
    let mut acc: usize = 0;
    assert(s@.subrange(len as int, len as int) =~= Seq::<char>::empty());
    while i > 0
        invariant
            cs@ == s@,
            len == cs.len(),
            i <= len,
            acc as nat == capped(byte_len(s@.subrange(i as int, len as int)), cap as nat),
        decreases i,
    {
        i = i - 1;
        let c = cs[i];
        let u = c as u32;
        let w: usize = if u <= 0x7F {
            1
        } else if u <= 0x7FF {
            2
        } else if u <= 0xFFFF {
            3
        } else {
            4
        };
        proof {
            let t = s@.subrange(i as int, len as int);
            assert(t[0] == c);
            assert(t.drop_first() =~= s@.subrange(i + 1, len as int));
            vstd::utf8::char_is_scalar(c);
            assert(vstd::utf8::encode_scalar(u).len() == w);
            assert(byte_len(t) == w + byte_len(s@.subrange(i + 1, len as int)));
        }
        if cap - acc <= w {
            acc = cap;
        } else {
            acc = acc + w;
        }
    }
    assert(s@.subrange(0, len as int) =~= s@);
    acc
}

/// Whether `c` is white space.
pub fn is_white_char(c: char) -> (b: bool)
    ensures
        b == is_white(c),
{
    let u = c as u32;
    (0x9 <= u && u <= 0xd) || u == 0x20 || u == 0x85 || u == 0xa0 || u == 0x1680 || (0x2000 <= u
        && u <= 0x200a) || u == 0x2028 || u == 0x2029 || u == 0x202f || u == 0x205f || u == 0x3000
}

/// `s` without leading and trailing white space.
pub fn trim_text(s: &str) -> (r: &str)
    ensures
        r@ == trim(s@),
{
    let cs = chars_of(s);
    let n = cs.len();
    let mut a: usize = 0;
    assert(s@.subrange(0, n as int) =~= s@);
    while a < n && is_white_char(cs[a])
        invariant
            n == cs.len(),
            cs@ == s@,
            a <= n,
            trim_start(s@) == trim_start(s@.subrange(a as int, n as int)),
        decreases n - a,
    {
        assert(s@.subrange(a as int, n as int).subrange(1, n - a) =~= s@.subrange(a + 1, n as int));
        a = a + 1;
    }
    assert(trim_start(s@.subrange(a as int, n as int)) == s@.subrange(a as int, n as int));
    let mut b: usize = n;
    while b > a && is_white_char(cs[b - 1])
        invariant
            n == cs.len(),
            cs@ == s@,
            a <= b <= n,
            trim(s@) == trim_end(s@.subrange(a as int, b as int)),
        decreases b,
    {
        assert(s@.subrange(a as int, b as int).subrange(0, b - a - 1) =~= s@.subrange(
            a as int,
            b - 1,
        ));
        b = b - 1;
    }
    let r = s.substring_char(a, b);
    r
}

/// `s` with every occurrence of `pat` removed, scanning left to right.
pub fn remove_all_text(s: &str, pat: &str) -> (r: String)
    ensures
        r@ == remove_all(s@, pat@),
{
    let cs = chars_of(s);
    let ps = chars_of(pat);
    let n = cs.len();
    let m = ps.len();
    if m == 0 {
        return String::from_str(s);
    }
    let mut out = String::new();
    let mut seg: usize = 0;
    let mut i: usize = 0;
    assert(s@.subrange(0, n as int) =~= s@);
    while i < n
        invariant
            n == cs.len(),
            m == ps.len(),
            m > 0,
            cs@ == s@,
            ps@ == pat@,
            seg <= i <= n,
            remove_all(s@, pat@) == out@ + s@.subrange(seg as int, i as int) + remove_all(
                s@.subrange(i as int, n as int),
                pat@,
            ),
        decreases n - i,
    {
        let rest = Ghost(s@.subrange(i as int, n as int));
        if m <= n - i && matches_at(&cs, &ps, i) {
            assert(rest@.subrange(0, m as int) =~= s@.subrange(i as int, i + m));
            assert(rest@.subrange(m as int, rest@.len() as int) =~= s@.subrange(i + m, n as int));
            let piece = s.substring_char(seg, i);
            out.append(piece);
            i = i + m;
            seg = i;
            assert(s@.subrange(seg as int, i as int) =~= Seq::<char>::empty());
            assert(out@ + Seq::<char>::empty() =~= out@);
        } else {
            assert(rest@.subrange(1, rest@.len() as int) =~= s@.subrange(i + 1, n as int));
            if m <= n - i {
                assert(rest@.subrange(0, m as int) =~= s@.subrange(i as int, i + m));
            } else {
                assert(s@.subrange(i + 1, n as int).len() < m);
            }
            assert(s@.subrange(seg as int, i as int) + seq![s@[i as int]] =~= s@.subrange(
                seg as int,
                i + 1,
            ));
            i = i + 1;
        }
    }
    let piece = s.substring_char(seg, n);
    out.append(piece);
    assert(s@.subrange(n as int, n as int) =~= Seq::<char>::empty());
    out
}

/// The text of the decimal digit `d < 10`.
fn digit_text(d: u64) -> (r: &'static str)
    requires
        d < 10,
    ensures
        r@ == seq![digit_char(d as nat)],
{
    proof {
        reveal_strlit("0");
        reveal_strlit("1");
        reveal_strlit("2");
        reveal_strlit("3");
        reveal_strlit("4");
        reveal_strlit("5");
        reveal_strlit("6");
        reveal_strlit("7");
        reveal_strlit("8");
        reveal_strlit("9");
    }
    if d == 0 {
        "0"
    } else if d == 1 {
        "1"
    } else if d == 2 {
        "2"
    } else if d == 3 {
        "3"
    } else if d == 4 {
        "4"
    } else if d == 5 {
        "5"
    } else if d == 6 {
        "6"
    } else if d == 7 {
        "7"
    } else if d == 8 {
        "8"
    } else {
        "9"
    }
}

/// The decimal notation of `n`.
pub fn decimal_text(n: u64) -> (s: String)
    ensures
        s@ == decimal(n as nat),
    decreases n,
{
    if n < 10 {
        String::from_str(digit_text(n))
    } else {
        let mut s = decimal_text(n / 10);
        s.append(digit_text(n % 10));
        s
    }
}

/// The decimal notation of `n`, with a leading `-` when it is negative.
pub fn signed_decimal_text(n: i64) -> (s: String)
    ensures
        s@ == signed_decimal(n as int),
{
    if n < 0 {
        let magnitude: u64 = (0i128 - n as i128) as u64;
        let mut s = String::from_str("-");
        proof {
            reveal_strlit("-");
        }
        let digits = decimal_text(magnitude);
        s.append(digits.as_str());
        s
    } else {
        decimal_text(n as u64)
    }
}

/// The items joined by `sep`.
pub fn join_text(items: &Vec<String>, sep: &str) -> (s: String)
    ensures
        s@ == join_with(items@.map_values(|t: String| t@), sep@),
{
    let ghost views = items@.map_values(|t: String| t@);
    let mut s = String::new();
    let n = items.len();
    let mut i: usize = 0;
    while i < n
        invariant
            n == items.len(),
            i <= n,
            views == items@.map_values(|t: String| t@),
            s@ == join_with(views.subrange(0, i as int), sep@),
        decreases n - i,
    {
        let ghost before = s@;
        assert(views.subrange(0, i + 1).subrange(0, i as int) =~= views.subrange(0, i as int));
        assert(views[i as int] == items@[i as int]@);
        if i > 0 {
            s.append(sep);
        }
        s.append(items[i].as_str());
        assert(views.subrange(0, i + 1)[i as int] == views[i as int]);
        if i == 0 {
            assert(s@ =~= views.subrange(0, 1)[0]);
        } else {
            assert(s@ =~= before + sep@ + views[i as int]);
        }
        i = i + 1;
    }
    assert(views.subrange(0, n as int) =~= views);
    s
}

/// The items joined by `'\n'`.
pub fn join_lines_text(items: &Vec<String>) -> (s: String)
    ensures
        s@ == join_lines(items@.map_values(|t: String| t@)),
{
    proof {
        reveal_strlit("\n");
        assert("\n"@ =~= seq!['\n']);
    }
    join_text(items, "\n")
}

/// The position of the last `c` in the characters `cs`, if any.
fn last_position(cs: &Vec<char>, c: char) -> (r: Option<usize>)
    ensures
        match r {
            Some(i) => last_index_of(cs@, c) == i as int && i < cs.len(),
            None => last_index_of(cs@, c) == -1,
        },
{
    let mut e: usize = cs.len();
    assert(cs@.subrange(0, e as int) =~= cs@);
    while e > 0
        invariant
            e <= cs.len(),
            last_index_of(cs@, c) == last_index_of(cs@.subrange(0, e as int), c),
        decreases e,
    {
        if cs[e - 1] == c {
            return Some(e - 1);
        }
        assert(cs@.subrange(0, e as int).subrange(0, e - 1) =~= cs@.subrange(0, e - 1));
        e = e - 1;
    }
    None
}

/// The file name of the path `p`: the text after its last `/`.
pub fn file_name_text(p: &str) -> (r: &str)
    ensures
        r@ == file_name(p@),
{
    let cs = chars_of(p);
    let start = match last_position(&cs, '/') {
        Some(i) => i + 1,
        None => 0,
    };
    p.substring_char(start, cs.len())
}

/// The stem of the file name `n`.
pub fn name_stem_text(n: &str) -> (r: &str)
    ensures
        r@ == name_stem(n@),
{
    let cs = chars_of(n);
    match last_position(&cs, '.') {
        Some(i) => if i > 0 {
            n.substring_char(0, i)
        } else {
            n
        },
        None => n,
    }
}

/// `s` with every character outside ASCII replaced by `?`.
pub fn ascii_only_text(s: &str) -> (r: String)
    ensures
        r@ == ascii_only(s@),
{
    let cs = chars_of(s);
    let n = cs.len();
    let mut out = String::new();
    let mut seg: usize = 0;
    let mut i: usize = 0;
    proof {
        reveal_strlit("?");
    }
    while i < n
        invariant
            n == cs.len(),
            cs@ == s@,
            seg <= i <= n,
            "?"@ == seq!['?'],
            out@ + s@.subrange(seg as int, i as int) == ascii_only(s@).subrange(0, i as int),
        decreases n - i,
    {
        if (cs[i] as u32) < 128 {
            assert(s@.subrange(seg as int, i + 1) =~= s@.subrange(seg as int, i as int).push(
                s@[i as int],
            ));
            assert(ascii_only(s@).subrange(0, i + 1) =~= ascii_only(s@).subrange(0, i as int).push(
                ascii_only(s@)[i as int],
            ));
            i = i + 1;
        } else {
            let piece = s.substring_char(seg, i);
            out.append(piece);
            out.append("?");
            assert(ascii_only(s@).subrange(0, i + 1) =~= ascii_only(s@).subrange(0, i as int).push(
                '?',
            ));
            i = i + 1;
            seg = i;
            assert(s@.subrange(seg as int, i as int) =~= Seq::<char>::empty());
            assert(out@ + s@.subrange(seg as int, i as int) =~= out@);
        }
    }
    let piece = s.substring_char(seg, n);
    out.append(piece);
    assert(ascii_only(s@).subrange(0, n as int) =~= ascii_only(s@));
    out
}

/// The line (up to, not including, its `'\n'`) that holds the first occurrence of `pat` in
/// `s`, if `pat` occurs in `s`. When `pat` holds no `'\n'` this is the first line that
/// contains `pat`.
pub open spec fn first_line_with(s: Seq<char>, pat: Seq<char>) -> Option<Seq<char>> {
    if contains_seq(s, pat) {
        let k = choose|k: int| is_first_occurrence(s, pat, k);
        Some(s.subrange(line_start(s, k), line_end(s, k)))
    } else {
        None
    }
}

/// The line of `s` that holds the first occurrence of `pat`, if any.
pub fn find_first_line_with<'a>(s: &'a str, pat: &str) -> (r: Option<&'a str>)
    ensures
        r matches Some(l) ==> first_line_with(s@, pat@) == Some(l@),
        r is None ==> first_line_with(s@, pat@) is None,
{
    let cs = chars_of(s);
    let ps = chars_of(pat);
    let n = cs.len();
    match first_occurrence(&cs, &ps) {
        None => None,
        Some(k) => {
            let mut a: usize = k;
            while a > 0 && cs[a - 1] != '\n'
                invariant
                    n == cs.len(),
                    cs@ == s@,
                    a <= k <= n,
                    line_start(s@, k as int) == line_start(s@, a as int),
                decreases a,
            {
                a = a - 1;
            }
            let mut b: usize = k;
            while b < n && cs[b] != '\n'
                invariant
                    n == cs.len(),
                    cs@ == s@,
                    k <= b <= n,
                    line_end(s@, k as int) == line_end(s@, b as int),
                decreases n - b,
            {
                b = b + 1;
            }
            proof {
                let j = choose|j: int| is_first_occurrence(s@, pat@, j);
                assert(is_first_occurrence(s@, pat@, k as int));
                if j < k {
                    assert(!occurs_at(s@, pat@, j));
                } else if j > k {
                    assert(!occurs_at(s@, pat@, k as int));
                }
                assert(j == k);
            }
            let l = s.substring_char(a, b);
            Some(l)
        },
    }
}

/// A `key=value` line of `s` starts at position `k`.
pub open spec fn is_entry_at(s: Seq<char>, key: Seq<char>, k: int) -> bool {
    &&& (k == 0 || (0 < k && s[k - 1] == '\n'))
    &&& occurs_at(s, key + seq!['='], k)
}

/// The first `key=value` line of `s` starts at position `k`.
pub open spec fn is_first_entry(s: Seq<char>, key: Seq<char>, k: int) -> bool {
    &&& is_entry_at(s, key, k)
    &&& forall|j: int| 0 <= j < k ==> !is_entry_at(s, key, j)
}

/// The value of the first `key=value` line of `s`, without surrounding white space.
pub open spec fn entry_value(s: Seq<char>, key: Seq<char>) -> Option<Seq<char>> {
    if exists|k: int| is_first_entry(s, key, k) {
        let k = choose|k: int| is_first_entry(s, key, k);
        let from = k + key.len() + 1;
        Some(trim(s.subrange(from, line_end(s, from))))
    } else {
        None
    }
}

/// The value of the first `key=value` line of `s`, if any.
pub fn find_entry_value(s: &str, key: &str) -> (r: Option<String>)
    ensures
        match r {
            Some(v) => entry_value(s@, key@) == Some(v@),
            None => entry_value(s@, key@) is None,
        },
{
    let mut pat = String::from_str(key);
    pat.append("=");
    proof {
        reveal_strlit("=");
    }
    assert(pat@ =~= key@ + seq!['=']);
    let cs = chars_of(s);
    let ps = chars_of(pat.as_str());
    let n = cs.len();
    let m = ps.len();
    let mut k: usize = 0;
    while k < n
        invariant
            n == cs.len(),
            m == ps.len(),
            cs@ == s@,
            ps@ == key@ + seq!['='],
            k <= n,
            forall|j: int| 0 <= j < k ==> !is_entry_at(s@, key@, j),
        decreases n - k,
    {
        let at_start = k == 0 || cs[k - 1] == '\n';
        if at_start && m <= n - k && matches_at(&cs, &ps, k) {
            let from = k + m;
            let mut b: usize = from;
            while b < n && cs[b] != '\n'
                invariant
                    n == cs.len(),
                    cs@ == s@,
                    from <= b <= n,
                    line_end(s@, from as int) == line_end(s@, b as int),
                decreases n - b,
            {
                b = b + 1;
            }
            proof {
                assert(is_first_entry(s@, key@, k as int));
                let j = choose|j: int| is_first_entry(s@, key@, j);
                if j < k {
                    assert(!is_entry_at(s@, key@, j));
                } else if j > k {
                    assert(!is_entry_at(s@, key@, k as int));
                }
                assert(j == k);
            }
            let line = s.substring_char(from, b);
            let v = trim_text(line);
            return Some(String::from_str(v));
        }
        proof {
            if is_entry_at(s@, key@, k as int) {
                assert(at_start);
            }
        }
        k = k + 1;
    }
    proof {
        assert forall|j: int| !is_first_entry(s@, key@, j) by {
            if 0 <= j < n {
                assert(!is_entry_at(s@, key@, j));
            } else if j >= n {
                if is_entry_at(s@, key@, j) {
                    assert(occurs_at(s@, key@ + seq!['='], j));
                }
            }
        }
    }
    None
}

} // verus!
