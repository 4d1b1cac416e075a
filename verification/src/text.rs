//! Character-level text operations with mathematical specifications.

use vstd::prelude::*;

verus! {

broadcast use vstd::string::group_string_axioms;

/// Appends one character to a string (std `String::push`).
#[verifier::external_body]
fn string_push(s: &mut String, c: char)
    ensures
        final(s)@ == old(s)@.push(c),
{
    s.push(c);
}

/// The characters of `s`, in order.
pub fn chars_of(s: &str) -> (v: Vec<char>)
    ensures
        v@ == s@,
{
    let mut v: Vec<char> = Vec::new();
    for c in it: s.chars()
        invariant
            it.seq() == s@,
            v@ == it.seq().take(it.index() as int),
    {
        v.push(c);
    }
    v
}

/// A string made of the given characters.
pub fn string_of(cs: &[char]) -> (s: String)
    ensures
        s@ == cs@,
{
    let mut s = String::new();
    let mut i: usize = 0;
    while i < cs.len()
        invariant
            i <= cs@.len(),
            s@ == cs@.take(i as int),
        decreases cs@.len() - i,
    {
        string_push(&mut s, cs[i]);
        assert(cs@.take(i as int).push(cs@[i as int]) == cs@.take(i + 1));
        i = i + 1;
    }
    assert(cs@.take(cs@.len() as int) == cs@);
    s
}

/// Unicode `White_Space`, the set that `char::is_whitespace` tests.
pub open spec fn is_whitespace(c: char) -> bool {
    let u = c as u32;
    ||| 0x09 <= u <= 0x0D
    ||| u == 0x20
    ||| u == 0x85
    ||| u == 0xA0
    ||| u == 0x1680
    ||| 0x2000 <= u <= 0x200A
    ||| u == 0x2028
    ||| u == 0x2029
    ||| u == 0x202F
    ||| u == 0x205F
    ||| u == 0x3000
}

/// `char::is_whitespace`.
pub fn is_ws(c: char) -> (b: bool)
    ensures
        b == is_whitespace(c),
{
    let u = c as u32;
    (0x09 <= u && u <= 0x0D) || u == 0x20 || u == 0x85 || u == 0xA0 || u == 0x1680 || (0x2000
        <= u && u <= 0x200A) || u == 0x2028 || u == 0x2029 || u == 0x202F || u == 0x205F || u
        == 0x3000
}

/// `s` without its leading whitespace.
pub open spec fn trim_start_spec(s: Seq<char>) -> Seq<char>
    decreases s.len(),
{
    if s.len() > 0 && is_whitespace(s[0]) {
        trim_start_spec(s.drop_first())
    } else {
        s
    }
}

/// `s` without its trailing whitespace.
pub open spec fn trim_end_spec(s: Seq<char>) -> Seq<char>
    decreases s.len(),
{
    if s.len() > 0 && is_whitespace(s.last()) {
        trim_end_spec(s.drop_last())
    } else {
        s
    }
}

/// `s` without leading and trailing whitespace (`str::trim`).
pub open spec fn trim_spec(s: Seq<char>) -> Seq<char> {
    trim_end_spec(trim_start_spec(s))
}

/// A copy of `v[i..j]`.
pub fn slice_range(v: &[char], i: usize, j: usize) -> (r: Vec<char>)
    requires
        i <= j <= v@.len(),
    ensures
        r@ == v@.subrange(i as int, j as int),
{
    let mut r: Vec<char> = Vec::new();
    let mut k: usize = i;
    while k < j
        invariant
            i <= k <= j <= v@.len(),
            r@ == v@.subrange(i as int, k as int),
        decreases j - k,
    {
        r.push(v[k]);
        assert(v@.subrange(i as int, k as int).push(v@[k as int]) =~= v@.subrange(i as int, k + 1));
        k = k + 1;
    }
    r
}

/// Bounds `(i, j)` such that `v[i..j]` is `v` trimmed.
pub fn trim_bounds(v: &[char]) -> (r: (usize, usize))
    ensures
        r.0 <= r.1 <= v@.len(),
        v@.subrange(r.0 as int, r.1 as int) == trim_spec(v@),
{
    let n = v.len();
    let mut i: usize = 0;
    assert(v@.skip(0) =~= v@);
    while i < n && is_ws(v[i])
        invariant
            n == v@.len(),
            i <= n,
            trim_start_spec(v@) == trim_start_spec(v@.skip(i as int)),
        decreases n - i,
    {
        assert(v@.skip(i as int).drop_first() =~= v@.skip(i + 1));
        i = i + 1;
    }
    assert(trim_start_spec(v@) == v@.subrange(i as int, n as int)) by {
        assert(v@.skip(i as int) =~= v@.subrange(i as int, n as int));
    }
    let mut j: usize = n;
    while j > i && is_ws(v[j - 1])
        invariant
            n == v@.len(),
            i <= j <= n,
            trim_spec(v@) == trim_end_spec(v@.subrange(i as int, j as int)),
        decreases j,
    {
        assert(v@.subrange(i as int, j as int).drop_last() =~= v@.subrange(i as int, j - 1));
        j = j - 1;
    }
    (i, j)
}

/// `str::trim`.
pub fn trim(s: &str) -> (r: String)
    ensures
        r@ == trim_spec(s@),
{
    let v = chars_of(s);
    let (i, j) = trim_bounds(v.as_slice());
    string_of(slice_range(v.as_slice(), i, j).as_slice())
}

/// What separates the pieces of a split.
pub enum Separator {
    Char(char),
    Whitespace,
}

pub open spec fn is_separator(sep: Separator, c: char) -> bool {
    match sep {
        Separator::Char(d) => c == d,
        Separator::Whitespace => is_whitespace(c),
    }
}

fn separates(sep: &Separator, c: char) -> (b: bool)
    ensures
        b == is_separator(*sep, c),
{
    match sep {
        Separator::Char(d) => c == *d,
        Separator::Whitespace => is_ws(c),
    }
}

/// Index of the first separator in `s`, or -1 when there is none.
pub open spec fn first_separator(s: Seq<char>, sep: Separator) -> int
    decreases s.len(),
{
    if s.len() == 0 {
        -1
    } else if is_separator(sep, s[0]) {
        0
    } else {
        let r = first_separator(s.drop_first(), sep);
        if r < 0 {
            -1
        } else {
            r + 1
        }
    }
}

pub proof fn lemma_first_separator(s: Seq<char>, sep: Separator)
    ensures
        -1 <= first_separator(s, sep) < s.len(),
        first_separator(s, sep) >= 0 ==> is_separator(sep, s[first_separator(s, sep)]),
        forall|k: int|
            0 <= k < s.len() && (first_separator(s, sep) < 0 || k < first_separator(s, sep))
                ==> !is_separator(sep, #[trigger] s[k]),
    decreases s.len(),
{
    if s.len() > 0 && !is_separator(sep, s[0]) {
        lemma_first_separator(s.drop_first(), sep);
        assert forall|k: int|
            0 <= k < s.len() && (first_separator(s, sep) < 0 || k < first_separator(s, sep))
                implies !is_separator(sep, #[trigger] s[k]) by {
            if k > 0 {
                assert(s[k] == s.drop_first()[k - 1]);
            }
        }
    }
}

/// The pieces of `s` between separators, empty pieces included (`str::split`).
pub open spec fn split_spec(s: Seq<char>, sep: Separator) -> Seq<Seq<char>>
    decreases s.len(),
{
    let i = first_separator(s, sep);
    if i < 0 {
        seq![s]
    } else {
        proof {
            lemma_first_separator(s, sep);
        }
        seq![s.take(i)] + split_spec(s.skip(i + 1), sep)
    }
}

/// `str::split` on a separator.
pub fn split(v: &[char], sep: &Separator) -> (r: Vec<String>)
    ensures
        r.deep_view() == split_spec(v@, *sep),
{
    let n = v.len();
    let mut r: Vec<String> = Vec::new();
    let mut start: usize = 0;
    let mut i: usize = 0;
    assert(v@.skip(0) =~= v@);
    assert(r.deep_view() + split_spec(v@, *sep) =~= split_spec(v@, *sep));
    while i < n
        invariant
            n == v@.len(),
            start <= i <= n,
            split_spec(v@, *sep) == r.deep_view() + split_spec(v@.skip(start as int), *sep),
            forall|k: int| start <= k < i ==> !is_separator(*sep, #[trigger] v@[k]),
        decreases n - i,
    {
        if separates(sep, v[i]) {
            let piece = string_of(slice_range(v, start, i).as_slice());
            proof {
                let t = v@.skip(start as int);
                lemma_first_separator(t, *sep);
                let f = first_separator(t, *sep);
                assert(t[i - start] == v@[i as int]);
                if f >= 0 && f < i - start {
                    assert(t[f] == v@[start + f]);
                }
                assert(f == i - start);
                assert(t.take(f) =~= v@.subrange(start as int, i as int));
                assert(t.skip(f + 1) =~= v@.skip(i + 1));
            }
            let ghost old_r = r.deep_view();
            r.push(piece);
            assert(r.deep_view() =~= old_r.push(piece@));
            assert(old_r + (seq![piece@] + split_spec(v@.skip(i + 1), *sep)) =~= old_r.push(piece@)
                + split_spec(v@.skip(i + 1), *sep));
            start = i + 1;
        }
        i = i + 1;
    }
    let last = string_of(slice_range(v, start, n).as_slice());
    proof {
        let t = v@.skip(start as int);
        lemma_first_separator(t, *sep);
        let f = first_separator(t, *sep);
        if f >= 0 {
            assert(t[f] == v@[start + f]);
        }
        assert(f < 0);
        assert(t =~= v@.subrange(start as int, n as int));
    }
    let ghost old_r = r.deep_view();
    r.push(last);
    assert(r.deep_view() =~= old_r.push(last@));
    assert(split_spec(v@, *sep) =~= r.deep_view());
    r
}

pub proof fn lemma_split_nonempty(s: Seq<char>, sep: Separator)
    ensures
        split_spec(s, sep).len() >= 1,
    decreases s.len(),
{
    let i = first_separator(s, sep);
    if i >= 0 {
        lemma_first_separator(s, sep);
        lemma_split_nonempty(s.skip(i + 1), sep);
    }
}

/// `l` without one trailing carriage return.
pub open spec fn strip_cr(l: Seq<char>) -> Seq<char> {
    if l.len() > 0 && l.last() == '\r' {
        l.drop_last()
    } else {
        l
    }
}

/// The lines of `s` (`str::lines`): split at `\n`, each line that ended at a `\n` loses one
/// trailing `\r`, and a final empty piece after the last `\n` is not a line.
pub open spec fn lines_spec(s: Seq<char>) -> Seq<Seq<char>> {
    let p = split_spec(s, Separator::Char('\n'));
    let head = p.drop_last().map_values(|l: Seq<char>| strip_cr(l));
    if p.last().len() == 0 {
        head
    } else {
        head.push(p.last())
    }
}

fn strip_cr_exec(l: &String) -> (r: String)
    ensures
        r@ == strip_cr(l@),
{
    let v = chars_of(l.as_str());
    if v.len() > 0 && v[v.len() - 1] == '\r' {
        string_of(slice_range(v.as_slice(), 0, v.len() - 1).as_slice())
    } else {
        assert(v@.subrange(0, v@.len() as int) =~= v@);
        string_of(slice_range(v.as_slice(), 0, v.len()).as_slice())
    }
}

/// `str::lines`.
pub fn lines(s: &str) -> (r: Vec<String>)
    ensures
        r.deep_view() == lines_spec(s@),
{
    let v = chars_of(s);
    let pieces = split(v.as_slice(), &Separator::Char('\n'));
    let ghost p = split_spec(s@, Separator::Char('\n'));
    proof {
        lemma_split_nonempty(s@, Separator::Char('\n'));
    }
    let n = pieces.len();
    assert(pieces.deep_view().len() == n);
    let mut r: Vec<String> = Vec::new();
    let mut i: usize = 0;
    while i + 1 < n
        invariant
            n == pieces@.len(),
            n >= 1,
            pieces.deep_view() == p,
            i + 1 <= n,
            r.deep_view() == p.take(i as int).map_values(|l: Seq<char>| strip_cr(l)),
        decreases n - i,
    {
        let line = strip_cr_exec(&pieces[i]);
        let ghost old_r = r.deep_view();
        r.push(line);
        assert(r.deep_view() =~= old_r.push(line@));
        assert(pieces.deep_view()[i as int] == pieces@[i as int]@);
        assert(p.take(i + 1).map_values(|l: Seq<char>| strip_cr(l)) =~= p.take(i as int).map_values(
            |l: Seq<char>| strip_cr(l),
        ).push(strip_cr(p[i as int])));
        i = i + 1;
    }
    assert(p.take(i as int) =~= p.drop_last());
    assert(pieces.deep_view()[i as int] == pieces@[i as int]@);
    if pieces[i].as_str().is_empty() {
        r
    } else {
        let ghost old_r = r.deep_view();
        r.push(pieces[i].clone());
        assert(r.deep_view() =~= old_r.push(p.last()));
        r
    }
}

/// The pieces of `p` that are not empty.
pub open spec fn nonempty_pieces(p: Seq<Seq<char>>) -> Seq<Seq<char>>
    decreases p.len(),
{
    if p.len() == 0 {
        seq![]
    } else {
        let r = nonempty_pieces(p.drop_last());
        if p.last().len() == 0 {
            r
        } else {
            r.push(p.last())
        }
    }
}

/// The whitespace-separated words of `s` (`str::split_whitespace`).
pub open spec fn split_whitespace_spec(s: Seq<char>) -> Seq<Seq<char>> {
    nonempty_pieces(split_spec(s, Separator::Whitespace))
}

/// `str::split_whitespace`.
pub fn split_whitespace(s: &str) -> (r: Vec<String>)
    ensures
        r.deep_view() == split_whitespace_spec(s@),
{
    let v = chars_of(s);
    let pieces = split(v.as_slice(), &Separator::Whitespace);
    let ghost p = split_spec(s@, Separator::Whitespace);
    let n = pieces.len();
    assert(pieces.deep_view().len() == n);
    let mut r: Vec<String> = Vec::new();
    let mut i: usize = 0;
    assert(p.take(0) =~= Seq::<Seq<char>>::empty());
    while i < n
        invariant
            n == pieces@.len(),
            pieces.deep_view() == p,
            i <= n,
            r.deep_view() == nonempty_pieces(p.take(i as int)),
        decreases n - i,
    {
        assert(pieces.deep_view()[i as int] == pieces@[i as int]@);
        assert(p.take(i + 1).drop_last() =~= p.take(i as int));
        if !pieces[i].as_str().is_empty() {
            let ghost old_r = r.deep_view();
            r.push(pieces[i].clone());
            assert(r.deep_view() =~= old_r.push(p[i as int]));
        }
        i = i + 1;
    }
    assert(p.take(n as int) =~= p);
    r
}

/// `pat` occurs in `s` as a contiguous piece.
pub open spec fn contains_spec(s: Seq<char>, pat: Seq<char>) -> bool {
    exists|i: int| 0 <= i && i + pat.len() <= s.len() && #[trigger] s.subrange(i, i + pat.len()) == pat
}

/// `s` begins with `pat`.
pub open spec fn starts_with_spec(s: Seq<char>, pat: Seq<char>) -> bool {
    pat.len() <= s.len() && s.take(pat.len() as int) == pat
}

fn matches_at(v: &[char], p: &[char], i: usize) -> (b: bool)
    requires
        i + p@.len() <= v@.len(),
    ensures
        b == (v@.subrange(i as int, i + p@.len()) == p@),
{
    let m = p.len();
    let n = v.len();
    let mut k: usize = 0;
    while k < m
        invariant
            m == p@.len(),
            n == v@.len(),
            i + m <= n,
            k <= m,
            forall|t: int| 0 <= t < k ==> v@[i + t] == p@[t],
        decreases m - k,
    {
        if v[i + k] != p[k] {
            assert(v@.subrange(i as int, i + m)[k as int] != p@[k as int]);
            return false;
        }
        k = k + 1;
    }
    assert(v@.subrange(i as int, i + m) =~= p@);
    true
}

/// `str::contains` with a string pattern.
pub fn contains(s: &str, pat: &str) -> (b: bool)
    ensures
        b == contains_spec(s@, pat@),
{
    let v = chars_of(s);
    let p = chars_of(pat);
    let n = v.len();
    let m = p.len();
    if m > n {
        return false;
    }
    if m == 0 {
        assert(s@.subrange(0, 0int + pat@.len()) =~= pat@);
        return true;
    }
    let mut i: usize = 0;
    while i <= n - m
        invariant
            v@ == s@,
            p@ == pat@,
            n == v@.len(),
            m == p@.len(),
            1 <= m <= n,
            i <= n - m + 1,
            forall|j: int| 0 <= j < i ==> #[trigger] v@.subrange(j, j + m) != p@,
        decreases n - i,
    {
        if matches_at(v.as_slice(), p.as_slice(), i) {
            assert(s@.subrange(i as int, i as int + pat@.len()) == pat@);
            return true;
        }
        i = i + 1;
    }
    false
}

/// `str::starts_with` with a string pattern.
pub fn starts_with(s: &str, pat: &str) -> (b: bool)
    ensures
        b == starts_with_spec(s@, pat@),
{
    let v = chars_of(s);
    let p = chars_of(pat);
    if p.len() > v.len() {
        return false;
    }
    matches_at(v.as_slice(), p.as_slice(), 0)
}

/// `s` without trailing copies of `c` (`str::trim_end_matches` with a char).
pub open spec fn trim_end_char_spec(s: Seq<char>, c: char) -> Seq<char>
    decreases s.len(),
{
    if s.len() > 0 && s.last() == c {
        trim_end_char_spec(s.drop_last(), c)
    } else {
        s
    }
}

/// `s` without leading copies of `c` (`str::trim_start_matches` with a char).
pub open spec fn trim_start_char_spec(s: Seq<char>, c: char) -> Seq<char>
    decreases s.len(),
{
    if s.len() > 0 && s[0] == c {
        trim_start_char_spec(s.drop_first(), c)
    } else {
        s
    }
}

/// `str::trim_end_matches` with a char pattern.
pub fn trim_end_char(s: &str, c: char) -> (r: String)
    ensures
        r@ == trim_end_char_spec(s@, c),
{
    let v = chars_of(s);
    let mut j: usize = v.len();
    assert(v@.subrange(0, j as int) =~= v@);
    while j > 0 && v[j - 1] == c
        invariant
            j <= v@.len(),
            trim_end_char_spec(v@, c) == trim_end_char_spec(v@.subrange(0, j as int), c),
        decreases j,
    {
        assert(v@.subrange(0, j as int).drop_last() =~= v@.subrange(0, j - 1));
        j = j - 1;
    }
    string_of(slice_range(v.as_slice(), 0, j).as_slice())
}

/// `str::trim_start_matches` with a char pattern.
pub fn trim_start_char(s: &str, c: char) -> (r: String)
    ensures
        r@ == trim_start_char_spec(s@, c),
{
    let v = chars_of(s);
    let n = v.len();
    let mut i: usize = 0;
    assert(v@.subrange(0, n as int) =~= v@);
    while i < n && v[i] == c
        invariant
            n == v@.len(),
            i <= n,
            trim_start_char_spec(v@, c) == trim_start_char_spec(v@.subrange(i as int, n as int), c),
        decreases n - i,
    {
        assert(v@.subrange(i as int, n as int).drop_first() =~= v@.subrange(i + 1, n as int));
        i = i + 1;
    }
    string_of(slice_range(v.as_slice(), i, n).as_slice())
}

/// `s` with its prefix `pre` removed, when `s` begins with it (`str::strip_prefix`).
pub open spec fn strip_prefix_spec(s: Seq<char>, pre: Seq<char>) -> Option<Seq<char>> {
    if starts_with_spec(s, pre) {
        Some(s.skip(pre.len() as int))
    } else {
        None
    }
}

/// `str::strip_prefix` with a string pattern.
pub fn strip_prefix(s: &str, pre: &str) -> (r: Option<String>)
    ensures
        r.deep_view() == strip_prefix_spec(s@, pre@),
{
    let v = chars_of(s);
    let p = chars_of(pre);
    if p.len() <= v.len() && matches_at(v.as_slice(), p.as_slice(), 0) {
        assert(v@.subrange(p@.len() as int, v@.len() as int) =~= v@.skip(p@.len() as int));
        Some(string_of(slice_range(v.as_slice(), p.len(), v.len()).as_slice()))
    } else {
        None
    }
}

/// `s` with every `c` removed (`str::replace(c, "")`).
pub open spec fn remove_char_spec(s: Seq<char>, c: char) -> Seq<char>
    decreases s.len(),
{
    if s.len() == 0 {
        seq![]
    } else {
        let r = remove_char_spec(s.drop_last(), c);
        if s.last() == c {
            r
        } else {
            r.push(s.last())
        }
    }
}

/// `str::replace` of one char by nothing.
pub fn remove_char(s: &str, c: char) -> (r: String)
    ensures
        r@ == remove_char_spec(s@, c),
{
    let v = chars_of(s);
    let n = v.len();
    let mut r = String::new();
    let mut i: usize = 0;
    assert(v@.take(0) =~= Seq::<char>::empty());
    while i < n
        invariant
            n == v@.len(),
            i <= n,
            r@ == remove_char_spec(v@.take(i as int), c),
        decreases n - i,
    {
        assert(v@.take(i + 1).drop_last() =~= v@.take(i as int));
        if v[i] != c {
            string_push(&mut r, v[i]);
        }
        i = i + 1;
    }
    assert(v@.take(n as int) =~= v@);
    r
}

/// `s` padded on the right with spaces to at least `width` characters (`{:<width}`).
pub open spec fn pad_right_spec(s: Seq<char>, width: nat) -> Seq<char> {
    if s.len() >= width {
        s
    } else {
        s + Seq::new((width - s.len()) as nat, |_i: int| ' ')
    }
}

/// Left-aligned formatting in a field of `width` characters.
pub fn pad_right(s: &str, width: usize) -> (r: String)
    ensures
        r@ == pad_right_spec(s@, width as nat),
{
    let n = s.unicode_len();
    let mut r = s.to_owned();
    if n >= width {
        return r;
    }
    let mut k: usize = n;
    while k < width
        invariant
            n <= k <= width,
            n == s@.len(),
            r@ == s@ + Seq::new((k - n) as nat, |_i: int| ' '),
        decreases width - k,
    {
        let ghost old_r = r@;
        string_push(&mut r, ' ');
        assert(r@ =~= s@ + Seq::new((k + 1 - n) as nat, |_i: int| ' '));
        k = k + 1;
    }
    r
}

/// The decimal digit for `d < 10`.
pub open spec fn digit_char(d: nat) -> char {
    if d == 0 {
        '0'
    } else if d == 1 {
        '1'
    } else if d == 2 {
        '2'
    } else if d == 3 {
        '3'
    } else if d == 4 {
        '4'
    } else if d == 5 {
        '5'
    } else if d == 6 {
        '6'
    } else if d == 7 {
        '7'
    } else if d == 8 {
        '8'
    } else {
        '9'
    }
}

/// The value of a decimal digit character.
pub open spec fn digit_value(c: char) -> nat {
    (c as u32 - '0' as u32) as nat
}

/// A decimal digit character.
pub open spec fn is_digit(c: char) -> bool {
    '0' as u32 <= c as u32 <= '9' as u32
}

/// The decimal representation of `n`, without leading zeros (`{}` on an unsigned integer).
pub open spec fn decimal_spec(n: nat) -> Seq<char>
    decreases n,
{
    if n < 10 {
        seq![digit_char(n)]
    } else {
        decimal_spec(n / 10).push(digit_char(n % 10))
    }
}

fn digit_exec(d: u64) -> (c: char)
    requires
        d < 10,
    ensures
        c == digit_char(d as nat),
{
    if d == 0 {
        '0'
    } else if d == 1 {
        '1'
    } else if d == 2 {
        '2'
    } else if d == 3 {
        '3'
    } else if d == 4 {
        '4'
    } else if d == 5 {
        '5'
    } else if d == 6 {
        '6'
    } else if d == 7 {
        '7'
    } else if d == 8 {
        '8'
    } else {
        '9'
    }
}

/// Formats `n` in decimal.
pub fn decimal(n: u64) -> (r: String)
    ensures
        r@ == decimal_spec(n as nat),
    decreases n,
{
    if n < 10 {
        let mut r = String::new();
        string_push(&mut r, digit_exec(n));
        assert(r@ =~= seq![digit_char(n as nat)]);
        r
    } else {
        let mut r = decimal(n / 10);
        string_push(&mut r, digit_exec(n % 10));
        r
    }
}

/// The value of a string of decimal digits.
pub open spec fn digits_value(s: Seq<char>) -> nat
    decreases s.len(),
{
    if s.len() == 0 {
        0
    } else {
        digits_value(s.drop_last()) * 10 + digit_value(s.last())
    }
}

/// The digits of an unsigned number: `s` without one leading `+`.
pub open spec fn unsigned_digits(s: Seq<char>) -> Seq<char> {
    if s.len() > 0 && s[0] == '+' {
        s.drop_first()
    } else {
        s
    }
}

/// Every character of `d` is a decimal digit.
pub open spec fn all_digits(d: Seq<char>) -> bool {
    forall|i: int| 0 <= i < d.len() ==> is_digit(#[trigger] d[i])
}

/// `u64::from_str`: an optional `+`, then at least one decimal digit, and a value that fits.
pub open spec fn parse_u64_spec(s: Seq<char>) -> Option<u64> {
    let d = unsigned_digits(s);
    if d.len() > 0 && all_digits(d) && digits_value(d) <= u64::MAX {
        Some(digits_value(d) as u64)
    } else {
        None
    }
}

proof fn lemma_digits_value_grows(s: Seq<char>, k: int)
    requires
        0 <= k <= s.len(),
    ensures
        digits_value(s.take(k)) <= digits_value(s),
    decreases s.len() - k,
{
    if k < s.len() {
        lemma_digits_value_grows(s, k + 1);
        assert(s.take(k + 1).drop_last() =~= s.take(k));
    } else {
        assert(s.take(k) =~= s);
    }
}

/// `str::parse::<u64>`.
pub fn parse_u64(s: &str) -> (r: Option<u64>)
    ensures
        r == parse_u64_spec(s@),
{
    let v = chars_of(s);
    let n = v.len();
    let start: usize = if n > 0 && v[0] == '+' {
        1
    } else {
        0
    };
    let ghost d = unsigned_digits(s@);
    assert(d =~= v@.skip(start as int));
    if start >= n {
        return None;
    }
    let mut value: u64 = 0;
    let mut i: usize = start;
    assert(d.take(0) =~= Seq::<char>::empty());
    while i < n
        invariant
            n == v@.len(),
            v@ == s@,
            d == unsigned_digits(s@),
            start <= i <= n,
            d == v@.skip(start as int),
            value == digits_value(d.take(i - start)),
            forall|k: int| 0 <= k < i - start ==> is_digit(#[trigger] d[k]),
        decreases n - i,
    {
        let c = v[i];
        assert(d[i - start] == c);
        if (c as u32) < ('0' as u32) || (c as u32) > ('9' as u32) {
            assert(!is_digit(d[i - start]));
            return None;
        }
        let dv = (c as u32 - '0' as u32) as u64;
        assert(d.take(i - start + 1).drop_last() =~= d.take(i - start));
        proof {
            lemma_digits_value_grows(d, i - start + 1);
        }
        let m = value.checked_mul(10);
        if m.is_none() {
            return None;
        }
        let a = m.unwrap().checked_add(dv);
        if a.is_none() {
            return None;
        }
        value = a.unwrap();
        i = i + 1;
    }
    assert(d.take(n - start) =~= d);
    Some(value)
}

/// `base` joined with `rel` as `Path::join` does on Unix: an absolute `rel` replaces
/// `base`; otherwise a `/` is put between them unless `base` is empty or already ends in one.
pub open spec fn join_path_spec(base: Seq<char>, rel: Seq<char>) -> Seq<char> {
    if rel.len() > 0 && rel[0] == '/' {
        rel
    } else if base.len() > 0 && base.last() != '/' {
        base + seq!['/'] + rel
    } else {
        base + rel
    }
}

/// `Path::join` on Unix paths held as strings.
pub fn join_path(base: &str, rel: &str) -> (r: String)
    ensures
        r@ == join_path_spec(base@, rel@),
{
    let b = chars_of(base);
    let r = chars_of(rel);
    if r.len() > 0 && r[0] == '/' {
        return rel.to_owned();
    }
    let mut out = base.to_owned();
    if b.len() > 0 && b[b.len() - 1] != '/' {
        string_push(&mut out, '/');
    }
    out.append(rel);
    out
}

/// The last component of a path that names something, skipping empty and `.` components.
pub open spec fn last_named_component(segs: Seq<Seq<char>>) -> Option<Seq<char>>
    decreases segs.len(),
{
    if segs.len() == 0 {
        None
    } else if segs.last().len() == 0 || segs.last() == seq!['.'] {
        last_named_component(segs.drop_last())
    } else {
        Some(segs.last())
    }
}

/// `Path::file_name` on Unix: the last normal component; none when the path ends in `..`
/// or has no normal component.
pub open spec fn file_name_spec(p: Seq<char>) -> Option<Seq<char>> {
    match last_named_component(split_spec(p, Separator::Char('/'))) {
        Some(l) => if l == seq!['.', '.'] {
            None
        } else {
            Some(l)
        },
        None => None,
    }
}

fn is_dot(s: &String) -> (b: bool)
    ensures
        b == (s@ == seq!['.']),
{
    let v = chars_of(s.as_str());
    if v.len() == 1 && v[0] == '.' {
        assert(v@ =~= seq!['.']);
        true
    } else {
        false
    }
}

fn is_dot_dot(s: &String) -> (b: bool)
    ensures
        b == (s@ == seq!['.', '.']),
{
    let v = chars_of(s.as_str());
    if v.len() == 2 && v[0] == '.' && v[1] == '.' {
        assert(v@ =~= seq!['.', '.']);
        true
    } else {
        false
    }
}

/// `Path::file_name` on a path held as a string.
pub fn file_name(p: &str) -> (r: Option<String>)
    ensures
        r.deep_view() == file_name_spec(p@),
{
    let v = chars_of(p);
    let segs = split(v.as_slice(), &Separator::Char('/'));
    let ghost s = split_spec(p@, Separator::Char('/'));
    let mut j: usize = segs.len();
    assert(segs.deep_view().len() == segs@.len());
    assert(s.take(j as int) =~= s);
    loop
        invariant
            j <= segs@.len(),
            segs.deep_view() == s,
            s == split_spec(p@, Separator::Char('/')),
            last_named_component(s) == last_named_component(s.take(j as int)),
        decreases j,
    {
        if j == 0 {
            return None;
        }
        assert(segs.deep_view()[j - 1] == segs@[j - 1]@);
        assert(s.take(j as int).last() == s[j - 1]);
        assert(s.take(j as int).drop_last() =~= s.take(j - 1));
        if segs[j - 1].as_str().is_empty() || is_dot(&segs[j - 1]) {
            j = j - 1;
        } else if is_dot_dot(&segs[j - 1]) {
            return None;
        } else {
            return Some(segs[j - 1].clone());
        }
    }
}

/// Names the result of `str::to_lowercase`: the Unicode lowercase mapping of the string (a
/// capital sigma maps by its position in a word), which depends on the characters alone.
pub uninterp spec fn lowercase(s: Seq<char>) -> Seq<char>;

/// Calls `str::to_lowercase`; the contract claims only that the result is `lowercase` of the
/// argument's characters.
#[verifier::external_body]
pub(crate) fn to_lowercase(s: &str) -> (r: String)
    ensures
        r@ == lowercase(s@),
{
    s.to_lowercase()
}

/// A `Result` holding a string, with the string taken by its view.
pub open spec fn string_result<E>(r: Result<String, E>) -> Result<Seq<char>, E> {
    match r {
        Ok(s) => Ok(s@),
        Err(e) => Err(e),
    }
}

/// A `Result` of strings, with both taken by their views.
pub open spec fn text_result(r: Result<String, String>) -> Result<Seq<char>, Seq<char>> {
    match r {
        Ok(s) => Ok(s@),
        Err(e) => Err(e@),
    }
}

/// A `Result` whose error is a string, with the error taken by its view.
pub open spec fn error_view<T>(r: Result<T, String>) -> Result<T, Seq<char>> {
    match r {
        Ok(v) => Ok(v),
        Err(e) => Err(e@),
    }
}

/// The number of bytes of the UTF-8 encoding of one character.
pub open spec fn utf8_width(c: char) -> nat {
    let u = c as u32;
    if u <= 0x7F {
        1
    } else if u <= 0x7FF {
        2
    } else if u <= 0xFFFF {
        3
    } else {
        4
    }
}

proof fn lemma_encode_utf8_step(s: Seq<char>)
    requires
        s.len() > 0,
    ensures
        vstd::utf8::encode_utf8(s).len() == utf8_width(s[0]) + vstd::utf8::encode_utf8(
            s.drop_first(),
        ).len(),
{
    let u = s[0] as u32;
    vstd::utf8::char_is_scalar(s[0]);
}

/// Whether the UTF-8 encoding of `s` (what `str::len` counts) has at least `k` bytes.
pub fn utf8_len_at_least(s: &str, k: usize) -> (b: bool)
    ensures
        b == (vstd::utf8::encode_utf8(s@).len() >= k),
{
    let v = chars_of(s);
    let mut acc: usize = 0;
    let mut i: usize = 0;
    assert(v@.skip(0) =~= v@);
    while i < v.len()
        invariant
            v@ == s@,
            i <= v@.len(),
            acc <= k,
            vstd::utf8::encode_utf8(s@).len() == acc + vstd::utf8::encode_utf8(v@.skip(i as int)).len(),
        decreases v@.len() - i,
    {
        if acc >= k {
            return true;
        }
        let u = v[i] as u32;
        let w: usize = if u <= 0x7F {
            1
        } else if u <= 0x7FF {
            2
        } else if u <= 0xFFFF {
            3
        } else {
            4
        };
        proof {
            lemma_encode_utf8_step(v@.skip(i as int));
            assert(v@.skip(i as int).drop_first() =~= v@.skip(i + 1));
        }
        if w >= k - acc {
            return true;
        }
        acc = acc + w;
        i = i + 1;
    }
    assert(v@.skip(i as int).len() == 0);
    acc >= k
}

/// Names the result of `Path::parent` on a Unix path: the path without its last component,
/// none for the root or an empty path; a function of the path alone.
pub uninterp spec fn path_parent(p: Seq<char>) -> Option<Seq<char>>;

/// Calls `Path::parent`; the contract claims only that the result is `path_parent` of the
/// argument.
#[verifier::external_body]
pub(crate) fn parent_dir(p: &str) -> (r: Option<String>)
    ensures
        r.deep_view() == path_parent(p@),
{
    std::path::Path::new(p).parent().map(|q| q.to_string_lossy().into_owned())
}

/// Names how `Path`'s `Debug` shows a path: the quoted, escaped text that error messages print.
pub uninterp spec fn path_debug(p: Seq<char>) -> Seq<char>;

/// Formats `Path::new(p)` with `Debug`; the contract claims only that the result is
/// `path_debug` of the argument.
#[verifier::external_body]
pub(crate) fn debug_path(p: &str) -> (r: String)
    ensures
        r@ == path_debug(p@),
{
    format!("{:?}", std::path::Path::new(p))
}

} // verus!
