use vstd::prelude::*;

verus! {

broadcast use vstd::string::group_string_axioms;

// ---------------------------------------------------------------------------
// Character classes
// ---------------------------------------------------------------------------
/// Unicode `White_Space`, the set that `char::is_whitespace` (and so
/// `str::trim`) uses.
pub open spec fn is_white_space(c: char) -> bool {
    let n = c as u32;
    ||| 9 <= n <= 13
    ||| n == 32
    ||| n == 0x85
    ||| n == 0xa0
    ||| n == 0x1680
    ||| 0x2000 <= n <= 0x200a
    ||| n == 0x2028
    ||| n == 0x2029
    ||| n == 0x202f
    ||| n == 0x205f
    ||| n == 0x3000
}

pub fn is_white_space_char(c: char) -> (r: bool)
    ensures
        r == is_white_space(c),
{
    let n = c as u32;
    (9 <= n && n <= 13) || n == 32 || n == 0x85 || n == 0xa0 || n == 0x1680 || (0x2000 <= n && n
        <= 0x200a) || n == 0x2028 || n == 0x2029 || n == 0x202f || n == 0x205f || n == 0x3000
}

pub open spec fn is_ascii_digit(c: char) -> bool {
    48 <= (c as u32) <= 57
}

pub open spec fn digit_value(c: char) -> int {
    (c as u32) - 48
}

/// Lower-case mapping of a string, as `str::to_lowercase` computes it.
pub uninterp spec fn spec_lowercase(s: Seq<char>) -> Seq<char>;

/// Calls `str::to_lowercase`; the result is the Unicode lower-case mapping of
/// `s`, named `spec_lowercase`. Its exact tables are not written out here.
#[verifier::external_body]
pub(crate) fn lowercase(s: &str) -> (r: String)
    ensures
        r@ == spec_lowercase(s@),
{
    s.to_lowercase()
}

/// Whether a character is alphabetic or numeric in Unicode, as
/// `char::is_alphanumeric` decides it.
pub uninterp spec fn spec_is_alphanumeric(c: char) -> bool;

/// Calls `char::is_alphanumeric`; the result is named `spec_is_alphanumeric`.
#[verifier::external_body]
pub(crate) fn is_alphanumeric(c: char) -> (r: bool)
    ensures
        r == spec_is_alphanumeric(c),
{
    c.is_alphanumeric()
}

// ---------------------------------------------------------------------------
// Building strings
// ---------------------------------------------------------------------------
/// The characters of `s`, in order.
pub fn chars_of(s: &str) -> (r: Vec<char>)
    ensures
        r@ == s@,
{
    let mut r: Vec<char> = Vec::new();
    for c in it: s.chars()
        invariant
            it.seq() == s@,
            r@ == it.seq().take(it.index() as int),
    {
        r.push(c);
    }
    r
}

/// Appends one character to a string (`String::push`).
#[verifier::external_body]
pub(crate) fn push_char(s: &mut String, c: char)
    ensures
        final(s)@ == old(s)@.push(c),
{
    s.push(c);
}

/// Builds a string from a sequence of characters.
pub fn string_of(cs: &Vec<char>) -> (r: String)
    ensures
        r@ == cs@,
{
    let mut r = String::new();
    for i in 0..cs.len()
        invariant
            r@ == cs@.take(i as int),
    {
        push_char(&mut r, cs[i]);
        assert(cs@.take(i + 1) =~= cs@.take(i as int).push(cs@[i as int]));
    }
    assert(cs@.take(cs.len() as int) =~= cs@);
    r
}

/// `a` followed by `b`.
pub fn concat2(a: &str, b: &str) -> (r: String)
    ensures
        r@ == a@ + b@,
{
    let mut r = String::from_str(a);
    r.append(b);
    r
}

/// `a`, `b` and `c`, one after the other.
pub fn concat3(a: &str, b: &str, c: &str) -> (r: String)
    ensures
        r@ == a@ + b@ + c@,
{
    let mut r = String::from_str(a);
    r.append(b);
    r.append(c);
    r
}

/// Whether two strings hold the same characters.
pub fn str_eq(a: &str, b: &str) -> (r: bool)
    ensures
        r == (a@ == b@),
{
    let x = String::from_str(a);
    let y = String::from_str(b);
    x == y
}

/// Whether a character sequence equals a string.
pub fn chars_eq(a: &Vec<char>, b: &str) -> (r: bool)
    ensures
        r == (a@ == b@),
{
    let x = string_of(a);
    let y = String::from_str(b);
    x == y
}

// ---------------------------------------------------------------------------
// Lists of names
// ---------------------------------------------------------------------------
/// The texts of a list of names.
pub open spec fn names_view(names: Seq<&str>) -> Seq<Seq<char>> {
    names.map_values(|n: &str| n@)
}

/// `x` is one of `names`.
pub open spec fn listed(names: Seq<&str>, x: Seq<char>) -> bool {
    exists|i: int| 0 <= i < names.len() && #[trigger] names[i]@ == x
}

pub fn list_contains(names: &[&str], x: &str) -> (r: bool)
    ensures
        r == listed(names@, x@),
{
    let mut i: usize = 0;
    while i < names.len()
        invariant
            0 <= i <= names@.len(),
            forall|j: int| 0 <= j < i ==> #[trigger] names@[j]@ != x@,
        decreases names@.len() - i,
    {
        if str_eq(names[i], x) {
            return true;
        }
        i = i + 1;
    }
    false
}

// ---------------------------------------------------------------------------
// Prefixes, suffixes, substrings
// ---------------------------------------------------------------------------
pub open spec fn has_suffix(s: Seq<char>, suf: Seq<char>) -> bool {
    s.len() >= suf.len() && s.subrange(s.len() - suf.len(), s.len() as int) == suf
}

pub open spec fn has_prefix(s: Seq<char>, pre: Seq<char>) -> bool {
    s.len() >= pre.len() && s.subrange(0, pre.len() as int) == pre
}

pub fn ends_with(s: &Vec<char>, suf: &str) -> (r: bool)
    ensures
        r == has_suffix(s@, suf@),
{
    let t = chars_of(suf);
    let sl = s.len();
    if t.len() > sl {
        return false;
    }
    let off = sl - t.len();
    let mut i: usize = 0;
    while i < t.len()
        invariant
            sl == s@.len(),
            t@ == suf@,
            t@.len() <= s@.len(),
            off == s@.len() - t@.len(),
            0 <= i <= t@.len(),
            forall|j: int| 0 <= j < i ==> s@[off + j] == t@[j],
        decreases t@.len() - i,
    {
        if s[off + i] != t[i] {
            assert(s@.subrange(off as int, s@.len() as int)[i as int] != suf@[i as int]);
            return false;
        }
        i = i + 1;
    }
    assert(s@.subrange(off as int, s@.len() as int) =~= suf@);
    true
}

pub fn starts_with(s: &Vec<char>, pre: &str) -> (r: bool)
    ensures
        r == has_prefix(s@, pre@),
{
    let t = chars_of(pre);
    if t.len() > s.len() {
        return false;
    }
    let mut i: usize = 0;
    while i < t.len()
        invariant
            t@ == pre@,
            t@.len() <= s@.len(),
            0 <= i <= t@.len(),
            forall|j: int| 0 <= j < i ==> s@[j] == t@[j],
        decreases t@.len() - i,
    {
        if s[i] != t[i] {
            assert(s@.subrange(0, t@.len() as int)[i as int] != pre@[i as int]);
            return false;
        }
        i = i + 1;
    }
    assert(s@.subrange(0, t@.len() as int) =~= pre@);
    true
}

/// `needle` occurs in `hay` at position `i`.
pub open spec fn occurs_at(hay: Seq<char>, needle: Seq<char>, i: int) -> bool {
    0 <= i && i + needle.len() <= hay.len() && hay.subrange(i, i + needle.len()) == needle
}

/// `needle` occurs somewhere in `hay`.
pub open spec fn contains_seq(hay: Seq<char>, needle: Seq<char>) -> bool {
    exists|i: int| #[trigger] occurs_at(hay, needle, i)
}

fn occurs_at_exec(hay: &Vec<char>, needle: &Vec<char>, i: usize) -> (r: bool)
    requires
        i + needle@.len() <= hay@.len(),
    ensures
        r == occurs_at(hay@, needle@, i as int),
{
    let hl = hay.len();
    let end: usize = i + needle.len();
    let mut j: usize = 0;
    while j < needle.len()
        invariant
            end == i + needle@.len(),
            hl == hay@.len(),
            i + needle@.len() <= hay@.len(),
            0 <= j <= needle@.len(),
            forall|k: int| 0 <= k < j ==> hay@[i + k] == needle@[k],
        decreases needle@.len() - j,
    {
        if hay[i + j] != needle[j] {
            assert(hay@.subrange(i as int, i + needle@.len())[j as int] != needle@[j as int]);
            return false;
        }
        j = j + 1;
    }
    assert(hay@.subrange(i as int, i + needle@.len()) =~= needle@);
    true
}

/// Whether `needle` occurs in `hay` (`str::contains` with a string pattern).
pub fn contains_chars(hay: &Vec<char>, needle: &str) -> (r: bool)
    ensures
        r == contains_seq(hay@, needle@),
{
    let n = chars_of(needle);
    if n.len() > hay.len() {
        return false;
    }
    let last = hay.len() - n.len();
    let mut i: usize = 0;
    loop
        invariant
            n@ == needle@,
            last == hay@.len() - n@.len(),
            0 <= i <= last,
            forall|k: int| 0 <= k < i ==> !#[trigger] occurs_at(hay@, needle@, k),
        decreases last - i,
    {
        if occurs_at_exec(hay, &n, i) {
            return true;
        }
        if i == last {
            assert forall|k: int| !#[trigger] occurs_at(hay@, needle@, k) by {
                if 0 <= k && k < i {
                }
            }
            return false;
        }
        i = i + 1;
    }
}

/// `needle` occurs in `hay` at position `p` and nowhere before.
pub open spec fn first_at(hay: Seq<char>, needle: Seq<char>, p: int) -> bool {
    &&& occurs_at(hay, needle, p)
    &&& forall|q: int| 0 <= q < p ==> !#[trigger] occurs_at(hay, needle, q)
}

/// Where `needle` first occurs in `hay` (`str::find` with a string
/// pattern).
pub fn find_first(hay: &Vec<char>, needle: &str) -> (r: Option<usize>)
    ensures
        match r {
            Some(p) => first_at(hay@, needle@, p as int),
            None => !contains_seq(hay@, needle@),
        },
{
    let n = chars_of(needle);
    if n.len() > hay.len() {
        return None;
    }
    let last = hay.len() - n.len();
    let mut i: usize = 0;
    loop
        invariant
            n@ == needle@,
            last == hay@.len() - n@.len(),
            0 <= i <= last,
            forall|k: int| 0 <= k < i ==> !#[trigger] occurs_at(hay@, needle@, k),
        decreases last - i,
    {
        if occurs_at_exec(hay, &n, i) {
            return Some(i);
        }
        if i == last {
            assert forall|k: int| !#[trigger] occurs_at(hay@, needle@, k) by {
                if 0 <= k && k < i {
                }
            }
            return None;
        }
        i = i + 1;
    }
}

// ---------------------------------------------------------------------------
// Trimming
// ---------------------------------------------------------------------------
pub open spec fn trim_start(s: Seq<char>) -> Seq<char>
    decreases s.len(),
{
    if s.len() > 0 && is_white_space(s[0]) {
        trim_start(s.drop_first())
    } else {
        s
    }
}

pub open spec fn trim_end(s: Seq<char>) -> Seq<char>
    decreases s.len(),
{
    if s.len() > 0 && is_white_space(s.last()) {
        trim_end(s.drop_last())
    } else {
        s
    }
}

/// `s` without leading and trailing white space (`str::trim`).
pub open spec fn trim(s: Seq<char>) -> Seq<char> {
    trim_end(trim_start(s))
}

fn leading_white_space(cs: &Vec<char>) -> (a: usize)
    ensures
        a <= cs@.len(),
        trim_start(cs@) == cs@.subrange(a as int, cs@.len() as int),
{
    let n = cs.len();
    let mut a: usize = 0;
    assert(cs@.subrange(0, n as int) =~= cs@);
    while a < n && is_white_space_char(cs[a])
        invariant
            n == cs@.len(),
            0 <= a <= n,
            trim_start(cs@) == trim_start(cs@.subrange(a as int, n as int)),
        decreases n - a,
    {
        assert(cs@.subrange(a as int, n as int).drop_first() =~= cs@.subrange(a + 1, n as int));
        a = a + 1;
    }
    if a < n {
        assert(cs@.subrange(a as int, n as int)[0] == cs@[a as int]);
    }
    a
}

fn trailing_white_space(cs: &Vec<char>, a: usize) -> (b: usize)
    requires
        a <= cs@.len(),
    ensures
        a <= b <= cs@.len(),
        trim_end(cs@.subrange(a as int, cs@.len() as int)) == cs@.subrange(a as int, b as int),
{
    let n = cs.len();
    let mut b: usize = n;
    while b > a && is_white_space_char(cs[b - 1])
        invariant
            n == cs@.len(),
            0 <= a <= b <= n,
            trim_end(cs@.subrange(a as int, n as int)) == trim_end(cs@.subrange(a as int, b as int)),
        decreases b - a,
    {
        assert(cs@.subrange(a as int, b as int).drop_last() =~= cs@.subrange(a as int, b - 1));
        b = b - 1;
    }
    if b > a {
        assert(cs@.subrange(a as int, b as int).last() == cs@[b - 1]);
    }
    b
}

/// The characters `cs[a..b]`.
pub fn copy_range(cs: &Vec<char>, a: usize, b: usize) -> (r: Vec<char>)
    requires
        a <= b <= cs@.len(),
    ensures
        r@ == cs@.subrange(a as int, b as int),
{
    let mut r: Vec<char> = Vec::new();
    let mut k: usize = a;
    while k < b
        invariant
            a <= k <= b <= cs@.len(),
            r@ == cs@.subrange(a as int, k as int),
        decreases b - k,
    {
        r.push(cs[k]);
        assert(cs@.subrange(a as int, k + 1) =~= cs@.subrange(a as int, k as int).push(
            cs@[k as int],
        ));
        k = k + 1;
    }
    r
}

pub fn trim_chars(cs: &Vec<char>) -> (r: Vec<char>)
    ensures
        r@ == trim(cs@),
{
    let a = leading_white_space(cs);
    let b = trailing_white_space(cs, a);
    copy_range(cs, a, b)
}

// ---------------------------------------------------------------------------
// Splitting
// ---------------------------------------------------------------------------
/// The pieces of `s` between occurrences of `sep` (`str::split` with a
/// character): always at least one piece, empty pieces included.
pub open spec fn split_on(s: Seq<char>, sep: char) -> Seq<Seq<char>>
    decreases s.len(),
{
    if s.len() == 0 {
        seq![Seq::<char>::empty()]
    } else {
        let p = split_on(s.drop_last(), sep);
        if s.last() == sep {
            p.push(Seq::<char>::empty())
        } else {
            p.update(p.len() - 1, p.last().push(s.last()))
        }
    }
}

pub proof fn lemma_split_nonempty(s: Seq<char>, sep: char)
    ensures
        split_on(s, sep).len() >= 1,
    decreases s.len(),
{
    if s.len() > 0 {
        lemma_split_nonempty(s.drop_last(), sep);
    }
}

pub open spec fn views_of(v: Seq<Vec<char>>) -> Seq<Seq<char>> {
    v.map_values(|x: Vec<char>| x@)
}

pub fn split_chars(cs: &Vec<char>, sep: char) -> (r: Vec<Vec<char>>)
    ensures
        views_of(r@) == split_on(cs@, sep),
{
    let mut done: Vec<Vec<char>> = Vec::new();
    let mut cur: Vec<char> = Vec::new();
    for i in 0..cs.len()
        invariant
            views_of(done@).push(cur@) == split_on(cs@.take(i as int), sep),
    {
        let c = cs[i];
        let ghost prev = split_on(cs@.take(i as int), sep);
        proof {
            lemma_split_nonempty(cs@.take(i as int), sep);
            assert(cs@.take(i + 1).drop_last() =~= cs@.take(i as int));
        }
        if c == sep {
            let old_cur = cur;
            done.push(old_cur);
            cur = Vec::new();
            assert(views_of(done@).push(cur@) =~= prev.push(Seq::<char>::empty()));
        } else {
            cur.push(c);
            assert(views_of(done@).push(cur@) =~= prev.update(
                prev.len() - 1,
                prev.last().push(c),
            ));
        }
    }
    assert(cs@.take(cs.len() as int) =~= cs@);
    done.push(cur);
    done
}

// ---------------------------------------------------------------------------
// Unsigned decimal numbers (`str::parse` for the unsigned integer types)
// ---------------------------------------------------------------------------
pub open spec fn all_digits(s: Seq<char>) -> bool {
    forall|i: int| 0 <= i < s.len() ==> is_ascii_digit(#[trigger] s[i])
}

pub open spec fn digits_value(s: Seq<char>) -> int
    decreases s.len(),
{
    if s.len() == 0 {
        0
    } else {
        digits_value(s.drop_last()) * 10 + digit_value(s.last())
    }
}

/// The digits of an unsigned number: one leading `+` is allowed.
pub open spec fn unsigned_digits(s: Seq<char>) -> Seq<char> {
    if s.len() > 0 && s[0] == '+' {
        s.drop_first()
    } else {
        s
    }
}

/// The value of `s` read as an unsigned decimal number no greater than
/// `max`, or `None` where the parse of an unsigned integer type with that
/// maximum fails (empty, a non-digit, or too large).
pub open spec fn parse_unsigned(s: Seq<char>, max: int) -> Option<int> {
    let d = unsigned_digits(s);
    if d.len() > 0 && all_digits(d) && digits_value(d) <= max {
        Some(digits_value(d))
    } else {
        None
    }
}

pub proof fn lemma_digits_value_nonneg(s: Seq<char>)
    requires
        all_digits(s),
    ensures
        digits_value(s) >= 0,
    decreases s.len(),
{
    if s.len() > 0 {
        lemma_digits_value_nonneg(s.drop_last());
    }
}

pub proof fn lemma_digits_value_prefix(s: Seq<char>, k: int)
    requires
        all_digits(s),
        0 <= k <= s.len(),
    ensures
        digits_value(s.take(k)) <= digits_value(s),
    decreases s.len(),
{
    if k < s.len() {
        lemma_digits_value_nonneg(s.drop_last());
        assert(s.drop_last().take(k) =~= s.take(k));
        lemma_digits_value_prefix(s.drop_last(), k);
    } else {
        assert(s.take(k) =~= s);
    }
}

/// Parses an unsigned decimal number whose value is at most `max`.
pub fn parse_unsigned_chars(cs: &Vec<char>, max: u64) -> (r: Option<u64>)
    ensures
        match parse_unsigned(cs@, max as int) {
            Some(v) => r == Some(v as u64),
            None => r is None,
        },
        r matches Some(v) ==> v <= max,
        parse_unsigned(cs@, max as int) matches Some(v) ==> 0 <= v <= max,
{
    let n = cs.len();
    let start: usize = if n > 0 && cs[0] == '+' {
        1
    } else {
        0
    };
    let ghost d = unsigned_digits(cs@);
    assert(d =~= cs@.subrange(start as int, n as int));
    if start == n {
        return None;
    }
    proof {
        if all_digits(d) {
            lemma_digits_value_nonneg(d);
        }
    }
    let mut acc: u64 = 0;
    let mut i: usize = start;
    while i < n
        invariant
            n == cs@.len(),
            start <= i <= n,
            d == unsigned_digits(cs@),
            d == cs@.subrange(start as int, n as int),
            all_digits(d.take(i - start)),
            acc as int == digits_value(d.take(i - start)),
            acc <= max,
        decreases n - i,
    {
        let c = cs[i];
        let k: u32 = c as u32;
        assert(d[i - start] == c);
        if k < 48 || k > 57 {
            assert(!is_ascii_digit(d[i - start]));
            return None;
        }
        let dv: u64 = (k - 48) as u64;
        proof {
            assert(d.take(i - start + 1).drop_last() =~= d.take(i - start));
            assert(all_digits(d.take(i - start + 1)));
        }
        let next: u128 = (acc as u128) * 10 + (dv as u128);
        if next > max as u128 {
            proof {
                lemma_digits_value_prefix(d.take(i - start + 1), i - start + 1);
                assert(digits_value(d.take(i - start + 1)) > max);
                if all_digits(d) {
                    lemma_digits_value_prefix(d, i - start + 1);
                }
            }
            return None;
        }
        acc = next as u64;
        i = i + 1;
    }
    assert(d.take(n - start) =~= d);
    proof {
        lemma_digits_value_nonneg(d);
    }
    Some(acc)
}

} // verus!
