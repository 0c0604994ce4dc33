//! Text as sequences of characters: the operations that the commands need, each
//! stated over `Seq<char>` and proved against that statement.
use vstd::prelude::*;

verus! {

/// `String::push` appends one character.
pub assume_specification[ String::push ](s: &mut String, c: char)
    ensures
        final(s)@ == old(s)@.push(c),
;

/// Wrapper of `==` on `str`: true exactly when both hold the same characters.
#[verifier::external_body]
pub(crate) fn same(a: &str, b: &str) -> (r: bool)
    ensures
        r == (a@ == b@),
{
    a == b
}

// ---------------------------------------------------------------------------
// Views of optional and repeated texts
// ---------------------------------------------------------------------------

/// What an optional text holds.
pub open spec fn opt(o: Option<String>) -> Option<Seq<char>> {
    match o {
        Some(s) => Some(s@),
        None => None,
    }
}

/// What an optional borrowed text holds.
pub open spec fn opt_ref(o: Option<&str>) -> Option<Seq<char>> {
    match o {
        Some(s) => Some(s@),
        None => None,
    }
}

/// What a list of texts holds.
pub open spec fn texts(v: Seq<String>) -> Seq<Seq<char>> {
    Seq::new(v.len(), |i: int| v[i]@)
}

/// The value of an optional text, or a fallback.
pub open spec fn or_else(o: Option<Seq<char>>, fallback: Seq<char>) -> Seq<char> {
    match o {
        Some(s) => s,
        None => fallback,
    }
}

pub proof fn texts_push(v: Seq<String>, s: String)
    ensures
        texts(v.push(s)) == texts(v).push(s@),
{
    assert(texts(v.push(s)) =~= texts(v).push(s@));
}

/// A copy of an optional text.
pub fn copy_opt(o: &Option<String>) -> (r: Option<String>)
    ensures
        opt(r) == opt(*o),
{
    match o {
        Some(s) => Some(s.clone()),
        None => None,
    }
}

/// An owned copy of an optional borrowed text.
pub fn own_opt(o: Option<&str>) -> (r: Option<String>)
    ensures
        opt(r) == opt_ref(o),
{
    match o {
        Some(s) => Some(s.to_string()),
        None => None,
    }
}

/// Borrows an optional text.
pub fn borrow_opt(o: &Option<String>) -> (r: Option<&str>)
    ensures
        opt_ref(r) == opt(*o),
{
    match o {
        Some(s) => Some(s.as_str()),
        None => None,
    }
}

/// A copy of a list of texts.
pub fn copy_texts(v: &Vec<String>) -> (r: Vec<String>)
    ensures
        texts(r@) == texts(v@),
{
    let mut out: Vec<String> = Vec::new();
    let mut i: usize = 0;
    while i < v.len()
        invariant
            i <= v.len(),
            out.len() == i,
            forall|k: int| 0 <= k < i ==> (#[trigger] out@[k])@ == v@[k]@,
        decreases v.len() - i,
    {
        out.push(v[i].clone());
        i = i + 1;
    }
    assert(texts(out@) =~= texts(v@));
    out
}

/// True exactly when both optional texts hold the same.
pub fn same_opt(a: &Option<String>, b: &Option<String>) -> (r: bool)
    ensures
        r == (opt(*a) == opt(*b)),
{
    match (a, b) {
        (Some(x), Some(y)) => same(x.as_str(), y.as_str()),
        (None, None) => true,
        _ => false,
    }
}

/// The text, or the fallback where there is none.
pub fn unwrap_text(o: &Option<String>, fallback: &str) -> (r: String)
    ensures
        r@ == or_else(opt(*o), fallback@),
{
    match o {
        Some(s) => s.clone(),
        None => fallback.to_string(),
    }
}

// ---------------------------------------------------------------------------
// Characters
// ---------------------------------------------------------------------------

/// The characters of a text, in order.
pub fn chars_of(text: &str) -> (r: Vec<char>)
    ensures
        r@ == text@,
{
    broadcast use vstd::string::group_string_axioms;

    let mut out: Vec<char> = Vec::new();
    for c in iter: text.chars()
        invariant
            iter.seq() == text@,
            out@ == text@.take(iter.index()),
    {
        out.push(c);
        assert(out@ =~= text@.take(iter.index() + 1));
    }
    assert(out@ =~= text@);
    out
}

/// The text made of part of a list of characters.
pub fn text_between(chars: &Vec<char>, from: usize, to: usize) -> (r: String)
    requires
        from <= to <= chars.len(),
    ensures
        r@ == chars@.subrange(from as int, to as int),
{
    let mut out = String::new();
    let mut i: usize = from;
    while i < to
        invariant
            from <= i <= to <= chars.len(),
            out@ == chars@.subrange(from as int, i as int),
        decreases to - i,
    {
        out.push(chars[i]);
        i = i + 1;
        assert(out@ =~= chars@.subrange(from as int, i as int));
    }
    out
}

/// The characters that Unicode lists under `White_Space`.
pub open spec fn is_space(c: char) -> bool {
    let n = c as u32;
    ||| 0x9 <= n <= 0xD
    ||| n == 0x20
    ||| n == 0x85
    ||| n == 0xA0
    ||| n == 0x1680
    ||| 0x2000 <= n <= 0x200A
    ||| n == 0x2028
    ||| n == 0x2029
    ||| n == 0x202F
    ||| n == 0x205F
    ||| n == 0x3000
}

pub fn is_space_char(c: char) -> (r: bool)
    ensures
        r == is_space(c),
{
    let n: u32 = c as u32;
    (0x9 <= n && n <= 0xD) || n == 0x20 || n == 0x85 || n == 0xA0 || n == 0x1680 || (0x2000 <= n
        && n <= 0x200A) || n == 0x2028 || n == 0x2029 || n == 0x202F || n == 0x205F || n == 0x3000
}

/// The lower-case form of an ASCII letter; every other character as it is.
pub open spec fn lower_char(c: char) -> char {
    if 'A' <= c && c <= 'Z' {
        (c as u32 + 32) as char
    } else {
        c
    }
}

/// The upper-case form of an ASCII letter; every other character as it is.
pub open spec fn upper_char(c: char) -> char {
    if 'a' <= c && c <= 'z' {
        (c as u32 - 32) as char
    } else {
        c
    }
}

pub open spec fn lower(s: Seq<char>) -> Seq<char> {
    Seq::new(s.len(), |i: int| lower_char(s[i]))
}

pub open spec fn upper(s: Seq<char>) -> Seq<char> {
    Seq::new(s.len(), |i: int| upper_char(s[i]))
}

/// ASCII lower case.
pub fn to_lower(s: &str) -> (r: String)
    ensures
        r@ == lower(s@),
{
    let chars = chars_of(s);
    let mut out = String::new();
    let mut i: usize = 0;
    while i < chars.len()
        invariant
            i <= chars.len(),
            chars@ == s@,
            out@ == lower(s@).take(i as int),
        decreases chars.len() - i,
    {
        let c = chars[i];
        let n: u32 = c as u32;
        if 65 <= n && n <= 90 {
            out.push(((n as u8) + 32) as char);
        } else {
            out.push(c);
        }
        i = i + 1;
        assert(out@ =~= lower(s@).take(i as int));
    }
    assert(out@ =~= lower(s@));
    out
}

/// ASCII upper case.
pub fn to_upper(s: &str) -> (r: String)
    ensures
        r@ == upper(s@),
{
    let chars = chars_of(s);
    let mut out = String::new();
    let mut i: usize = 0;
    while i < chars.len()
        invariant
            i <= chars.len(),
            chars@ == s@,
            out@ == upper(s@).take(i as int),
        decreases chars.len() - i,
    {
        let c = chars[i];
        let n: u32 = c as u32;
        if 97 <= n && n <= 122 {
            out.push(((n as u8) - 32) as char);
        } else {
            out.push(c);
        }
        i = i + 1;
        assert(out@ =~= upper(s@).take(i as int));
    }
    assert(out@ =~= upper(s@));
    out
}

// ---------------------------------------------------------------------------
// Trimming
// ---------------------------------------------------------------------------

pub open spec fn trim_start(s: Seq<char>) -> Seq<char>
    decreases s.len(),
{
    if s.len() > 0 && is_space(s[0]) {
        trim_start(s.drop_first())
    } else {
        s
    }
}

pub open spec fn trim_end(s: Seq<char>) -> Seq<char>
    decreases s.len(),
{
    if s.len() > 0 && is_space(s.last()) {
        trim_end(s.drop_last())
    } else {
        s
    }
}

/// The text without leading and trailing white space.
pub open spec fn trim(s: Seq<char>) -> Seq<char> {
    trim_end(trim_start(s))
}

/// True of a text that holds white space only.
pub open spec fn is_blank(s: Seq<char>) -> bool {
    trim(s).len() == 0
}

/// The trimmed text, where it is not empty.
pub open spec fn non_blank(s: Seq<char>) -> Option<Seq<char>> {
    if is_blank(s) {
        None
    } else {
        Some(trim(s))
    }
}

pub fn trim_text(s: &str) -> (r: String)
    ensures
        r@ == trim(s@),
{
    let chars = chars_of(s);
    let mut lo: usize = 0;
    assert(s@.skip(0) =~= s@);
    while lo < chars.len() && is_space_char(chars[lo])
        invariant
            chars@ == s@,
            lo <= chars.len(),
            trim_start(s@) == trim_start(s@.skip(lo as int)),
        decreases chars.len() - lo,
    {
        assert(s@.skip(lo as int).drop_first() =~= s@.skip(lo as int + 1));
        lo = lo + 1;
    }
    assert(trim_start(s@) == s@.skip(lo as int));
    let mut hi: usize = chars.len();
    assert(s@.subrange(lo as int, hi as int) =~= s@.skip(lo as int));
    while lo < hi && is_space_char(chars[hi - 1])
        invariant
            chars@ == s@,
            lo <= hi <= chars.len(),
            trim(s@) == trim_end(s@.subrange(lo as int, hi as int)),
        decreases hi,
    {
        assert(s@.subrange(lo as int, hi as int).drop_last() =~= s@.subrange(
            lo as int,
            hi as int - 1,
        ));
        hi = hi - 1;
    }
    text_between(&chars, lo, hi)
}

pub fn is_blank_text(s: &str) -> (r: bool)
    ensures
        r == is_blank(s@),
{
    trim_text(s).as_str().is_empty()
}

/// The trimmed text, or nothing where only white space is left.
pub fn non_blank_text(s: &str) -> (r: Option<String>)
    ensures
        opt(r) == non_blank(s@),
{
    let t = trim_text(s);
    if t.as_str().is_empty() {
        None
    } else {
        Some(t)
    }
}

pub open spec fn drop_end(s: Seq<char>, c: char) -> Seq<char>
    decreases s.len(),
{
    if s.len() > 0 && s.last() == c {
        drop_end(s.drop_last(), c)
    } else {
        s
    }
}

pub open spec fn drop_start(s: Seq<char>, c: char) -> Seq<char>
    decreases s.len(),
{
    if s.len() > 0 && s[0] == c {
        drop_start(s.drop_first(), c)
    } else {
        s
    }
}

/// The text without the trailing occurrences of a character.
pub fn drop_end_text(s: &str, c: char) -> (r: String)
    ensures
        r@ == drop_end(s@, c),
{
    let chars = chars_of(s);
    let mut hi: usize = chars.len();
    assert(s@.take(hi as int) =~= s@);
    while 0 < hi && chars[hi - 1] == c
        invariant
            chars@ == s@,
            hi <= chars.len(),
            drop_end(s@, c) == drop_end(s@.take(hi as int), c),
        decreases hi,
    {
        assert(s@.take(hi as int).drop_last() =~= s@.take(hi as int - 1));
        hi = hi - 1;
    }
    assert(s@.subrange(0, hi as int) =~= s@.take(hi as int));
    text_between(&chars, 0, hi)
}

/// The text without the leading and trailing occurrences of a character.
pub fn drop_ends_text(s: &str, c: char) -> (r: String)
    ensures
        r@ == drop_end(drop_start(s@, c), c),
{
    let chars = chars_of(s);
    let mut lo: usize = 0;
    assert(s@.skip(0) =~= s@);
    while lo < chars.len() && chars[lo] == c
        invariant
            chars@ == s@,
            lo <= chars.len(),
            drop_start(s@, c) == drop_start(s@.skip(lo as int), c),
        decreases chars.len() - lo,
    {
        assert(s@.skip(lo as int).drop_first() =~= s@.skip(lo as int + 1));
        lo = lo + 1;
    }
    assert(s@.subrange(lo as int, s@.len() as int) =~= s@.skip(lo as int));
    let rest = text_between(&chars, lo, chars.len());
    drop_end_text(rest.as_str(), c)
}

// ---------------------------------------------------------------------------
// Searching
// ---------------------------------------------------------------------------

/// True where `pattern` stands in `s` from position `i` on.
pub open spec fn occurs_at(s: Seq<char>, pattern: Seq<char>, i: int) -> bool {
    0 <= i && i + pattern.len() <= s.len() && s.subrange(i, i + pattern.len()) == pattern
}

pub open spec fn contains(s: Seq<char>, pattern: Seq<char>) -> bool {
    exists|i: int| occurs_at(s, pattern, i)
}

fn stands_at(chars: &Vec<char>, pattern: &Vec<char>, at: usize) -> (r: bool)
    requires
        at + pattern.len() <= chars.len(),
    ensures
        r == occurs_at(chars@, pattern@, at as int),
{
    let mut k: usize = 0;
    while k < pattern.len()
        invariant
            at + pattern.len() <= chars.len(),
            k <= pattern.len(),
            forall|j: int| 0 <= j < k ==> chars@[at + j] == pattern@[j],
        decreases pattern.len() - k,
    {
        if chars[at + k] != pattern[k] {
            assert(chars@.subrange(at as int, at + pattern@.len())[k as int] != pattern@[k as int]);
            return false;
        }
        k = k + 1;
    }
    assert(chars@.subrange(at as int, at + pattern@.len()) =~= pattern@);
    true
}

pub fn contains_text(s: &str, pattern: &str) -> (r: bool)
    ensures
        r == contains(s@, pattern@),
{
    let chars = chars_of(s);
    let wanted = chars_of(pattern);
    if wanted.len() > chars.len() {
        return false;
    }
    let last: usize = chars.len() - wanted.len();
    let mut i: usize = 0;
    while i <= last
        invariant
            chars@ == s@,
            wanted@ == pattern@,
            last + wanted.len() == chars.len(),
            i <= last + 1,
            forall|j: int| 0 <= j < i ==> !occurs_at(s@, pattern@, j),
        decreases last + 1 - i,
    {
        if stands_at(&chars, &wanted, i) {
            return true;
        }
        if i == last {
            assert forall|j: int| !occurs_at(s@, pattern@, j) by {
                if occurs_at(s@, pattern@, j) {
                    assert(0 <= j <= last);
                }
            }
            return false;
        }
        i = i + 1;
    }
    false
}

pub open spec fn starts_with(s: Seq<char>, prefix: Seq<char>) -> bool {
    occurs_at(s, prefix, 0)
}

/// What follows the prefix, where the text starts with it.
pub open spec fn after_prefix(s: Seq<char>, prefix: Seq<char>) -> Option<Seq<char>> {
    if starts_with(s, prefix) {
        Some(s.skip(prefix.len() as int))
    } else {
        None
    }
}

pub fn after_prefix_text(s: &str, prefix: &str) -> (r: Option<String>)
    ensures
        opt(r) == after_prefix(s@, prefix@),
{
    let chars = chars_of(s);
    let wanted = chars_of(prefix);
    if wanted.len() <= chars.len() && stands_at(&chars, &wanted, 0) {
        assert(s@.subrange(prefix@.len() as int, s@.len() as int) =~= s@.skip(
            prefix@.len() as int,
        ));
        Some(text_between(&chars, wanted.len(), chars.len()))
    } else {
        None
    }
}

/// What stands before the last character, where that is `c`.
pub open spec fn before_last(s: Seq<char>, c: char) -> Option<Seq<char>> {
    if s.len() > 0 && s.last() == c {
        Some(s.drop_last())
    } else {
        None
    }
}

pub fn before_last_text(s: &str, c: char) -> (r: Option<String>)
    ensures
        opt(r) == before_last(s@, c),
{
    let chars = chars_of(s);
    if chars.len() > 0 && chars[chars.len() - 1] == c {
        assert(s@.subrange(0, s@.len() - 1) =~= s@.drop_last());
        Some(text_between(&chars, 0, chars.len() - 1))
    } else {
        None
    }
}

/// How many characters stand before the first `c`; all of them where there is none.
pub open spec fn first_index(s: Seq<char>, c: char) -> int
    decreases s.len(),
{
    if s.len() == 0 || s[0] == c {
        0
    } else {
        1 + first_index(s.drop_first(), c)
    }
}

pub proof fn first_index_bounds(s: Seq<char>, c: char)
    ensures
        0 <= first_index(s, c) <= s.len(),
        first_index(s, c) < s.len() ==> s[first_index(s, c)] == c,
        forall|i: int| 0 <= i < first_index(s, c) ==> s[i] != c,
    decreases s.len(),
{
    if s.len() > 0 && s[0] != c {
        let t = s.drop_first();
        first_index_bounds(t, c);
        assert forall|i: int| 0 <= i < first_index(s, c) implies s[i] != c by {
            if i > 0 {
                assert(t[i - 1] == s[i]);
            }
        }
        if first_index(s, c) < s.len() {
            assert(t[first_index(t, c)] == s[first_index(s, c)]);
        }
    }
}

pub proof fn first_index_unique(s: Seq<char>, c: char, n: int)
    requires
        0 <= n <= s.len(),
        n < s.len() ==> s[n] == c,
        forall|i: int| 0 <= i < n ==> s[i] != c,
    ensures
        first_index(s, c) == n,
{
    first_index_bounds(s, c);
    let m = first_index(s, c);
    if m < n {
        assert(s[m] != c);
    } else if n < m {
        assert(s[n] != c);
    }
}

/// The two sides of the first `c`, where there is one.
pub open spec fn split_once(s: Seq<char>, c: char) -> Option<(Seq<char>, Seq<char>)> {
    let i = first_index(s, c);
    if i < s.len() {
        Some((s.take(i), s.skip(i + 1)))
    } else {
        None
    }
}

fn index_from(chars: &Vec<char>, from: usize, c: char) -> (r: usize)
    requires
        from <= chars.len(),
    ensures
        from <= r <= chars.len(),
        r - from == first_index(chars@.skip(from as int), c),
{
    let mut i: usize = from;
    while i < chars.len() && chars[i] != c
        invariant
            from <= i <= chars.len(),
            forall|j: int| from <= j < i ==> chars@[j] != c,
        decreases chars.len() - i,
    {
        i = i + 1;
    }
    proof {
        let rest = chars@.skip(from as int);
        first_index_unique(rest, c, i - from);
    }
    i
}

pub fn split_once_text(s: &str, c: char) -> (r: Option<(String, String)>)
    ensures
        match r {
            Some((a, b)) => split_once(s@, c) == Some((a@, b@)),
            None => split_once(s@, c) is None,
        },
{
    let chars = chars_of(s);
    assert(s@.skip(0) =~= s@);
    let i: usize = index_from(&chars, 0, c);
    if i < chars.len() {
        assert(s@.subrange(0, i as int) =~= s@.take(i as int));
        assert(s@.subrange(i as int + 1, s@.len() as int) =~= s@.skip(i as int + 1));
        Some((text_between(&chars, 0, i), text_between(&chars, i + 1, chars.len())))
    } else {
        None
    }
}

/// The pieces between the occurrences of `c`; one more than there are of these.
pub open spec fn split(s: Seq<char>, c: char) -> Seq<Seq<char>>
    decreases s.len(),
    via split_decreases
{
    let i = first_index(s, c);
    if i < s.len() {
        seq![s.take(i)] + split(s.skip(i + 1), c)
    } else {
        seq![s]
    }
}

#[via_fn]
proof fn split_decreases(s: Seq<char>, c: char) {
    first_index_bounds(s, c);
}

pub fn split_text(s: &str, c: char) -> (r: Vec<String>)
    ensures
        texts(r@) == split(s@, c),
{
    let chars = chars_of(s);
    let mut out: Vec<String> = Vec::new();
    let mut from: usize = 0;
    assert(s@.skip(0) =~= s@);
    assert(texts(out@) + split(s@, c) =~= split(s@, c));
    loop
        invariant
            chars@ == s@,
            from <= chars.len(),
            texts(out@) + split(s@.skip(from as int), c) == split(s@, c),
        decreases chars.len() - from,
    {
        let i: usize = index_from(&chars, from, c);
        let ghost rest = s@.skip(from as int);
        let ghost before = out@;
        if i == chars.len() {
            let piece = text_between(&chars, from, i);
            assert(piece@ =~= rest);
            out.push(piece);
            proof {
                texts_push(before, piece);
                assert(texts(out@) =~= texts(before) + seq![rest]);
            }
            return out;
        }
        let piece = text_between(&chars, from, i);
        assert(piece@ =~= rest.take(i - from));
        out.push(piece);
        proof {
            texts_push(before, piece);
            assert(s@.skip(i as int + 1) =~= rest.skip(i - from + 1));
            assert(texts(out@) + split(s@.skip(i as int + 1), c) =~= texts(before) + (seq![
                rest.take(i - from),
            ] + split(rest.skip(i - from + 1), c)));
        }
        from = i + 1;
    }
}

// ---------------------------------------------------------------------------
// Words
// ---------------------------------------------------------------------------

/// How many characters stand before the first white space.
pub open spec fn word_len(s: Seq<char>) -> int
    decreases s.len(),
{
    if s.len() == 0 || is_space(s[0]) {
        0
    } else {
        1 + word_len(s.drop_first())
    }
}

pub proof fn word_len_bounds(s: Seq<char>)
    ensures
        0 <= word_len(s) <= s.len(),
        word_len(s) < s.len() ==> is_space(s[word_len(s)]),
        forall|i: int| 0 <= i < word_len(s) ==> !is_space(s[i]),
        s.len() > 0 && !is_space(s[0]) ==> word_len(s) > 0,
    decreases s.len(),
{
    if s.len() > 0 && !is_space(s[0]) {
        let t = s.drop_first();
        word_len_bounds(t);
        assert forall|i: int| 0 <= i < word_len(s) implies !is_space(s[i]) by {
            if i > 0 {
                assert(t[i - 1] == s[i]);
            }
        }
        if word_len(s) < s.len() {
            assert(t[word_len(t)] == s[word_len(s)]);
        }
    }
}

pub proof fn trim_start_shrinks(s: Seq<char>)
    ensures
        trim_start(s).len() <= s.len(),
        trim_start(s).len() > 0 ==> !is_space(trim_start(s)[0]),
    decreases s.len(),
{
    if s.len() > 0 && is_space(s[0]) {
        trim_start_shrinks(s.drop_first());
    }
}

/// The runs of characters between white space.
pub open spec fn words(s: Seq<char>) -> Seq<Seq<char>>
    decreases s.len(),
    via words_decreases
{
    let t = trim_start(s);
    if t.len() == 0 {
        Seq::empty()
    } else {
        seq![t.take(word_len(t))] + words(t.skip(word_len(t)))
    }
}

#[via_fn]
proof fn words_decreases(s: Seq<char>) {
    trim_start_shrinks(s);
    word_len_bounds(trim_start(s));
}

/// The white-space separated words of a text.
pub fn words_text(s: &str) -> (r: Vec<String>)
    ensures
        texts(r@) == words(s@),
{
    let chars = chars_of(s);
    let mut out: Vec<String> = Vec::new();
    let mut from: usize = 0;
    assert(s@.skip(0) =~= s@);
    assert(texts(out@) + words(s@) =~= words(s@));
    loop
        invariant
            chars@ == s@,
            from <= chars.len(),
            texts(out@) + words(s@.skip(from as int)) == words(s@),
        decreases chars.len() - from,
    {
        let ghost rest = s@.skip(from as int);
        let mut lo: usize = from;
        assert(s@.skip(lo as int) == rest);
        while lo < chars.len() && is_space_char(chars[lo])
            invariant
                chars@ == s@,
                from <= lo <= chars.len(),
                trim_start(rest) == trim_start(s@.skip(lo as int)),
            decreases chars.len() - lo,
        {
            assert(s@.skip(lo as int).drop_first() =~= s@.skip(lo as int + 1));
            lo = lo + 1;
        }
        let ghost t = s@.skip(lo as int);
        assert(trim_start(rest) == t);
        if lo == chars.len() {
            assert(words(rest) =~= Seq::<Seq<char>>::empty());
            assert(texts(out@) =~= words(s@));
            return out;
        }
        let mut hi: usize = lo;
        assert(t.skip(0) =~= t);
        while hi < chars.len() && !is_space_char(chars[hi])
            invariant
                chars@ == s@,
                lo <= hi <= chars.len(),
                t == s@.skip(lo as int),
                word_len(t) == hi - lo + word_len(t.skip(hi - lo)),
            decreases chars.len() - hi,
        {
            assert(t.skip(hi - lo).drop_first() =~= t.skip(hi + 1 - lo));
            hi = hi + 1;
        }
        assert(word_len(t) == hi - lo);
        proof {
            word_len_bounds(t);
        }
        let ghost before = out@;
        let word = text_between(&chars, lo, hi);
        assert(word@ =~= t.take(hi - lo));
        out.push(word);
        proof {
            texts_push(before, word);
            assert(s@.skip(hi as int) =~= t.skip(hi - lo));
            assert(texts(out@) + words(s@.skip(hi as int)) =~= texts(before) + (seq![
                t.take(hi - lo),
            ] + words(t.skip(hi - lo))));
        }
        from = hi;
    }
}

// ---------------------------------------------------------------------------
// Joining
// ---------------------------------------------------------------------------

/// The parts with the separator between each two neighbours.
pub open spec fn join(parts: Seq<Seq<char>>, sep: Seq<char>) -> Seq<char>
    decreases parts.len(),
{
    if parts.len() == 0 {
        Seq::empty()
    } else if parts.len() == 1 {
        parts[0]
    } else {
        join(parts.drop_last(), sep) + sep + parts.last()
    }
}

proof fn split_after(a: Seq<char>, c: char, b: Seq<char>)
    requires
        !b.contains(c),
    ensures
        split(a + seq![c] + b, c) == split(a, c).push(b),
    decreases a.len(),
{
    let s = a + seq![c] + b;
    let i = first_index(a, c);
    first_index_bounds(a, c);
    if i < a.len() {
        first_index_unique(s, c, i);
        split_after(a.skip(i + 1), c, b);
        assert(s.take(i) =~= a.take(i));
        assert(s.skip(i + 1) =~= a.skip(i + 1) + seq![c] + b);
        assert(split(s, c) =~= split(a, c).push(b));
    } else {
        first_index_unique(s, c, a.len() as int);
        first_index_unique(b, c, b.len() as int);
        assert(s.take(a.len() as int) =~= a);
        assert(s.skip(a.len() as int + 1) =~= b);
        assert(split(b, c) =~= seq![b]);
        assert(split(s, c) =~= seq![a].push(b));
    }
}

/// Splitting gives back what was joined, where no part holds the separator.
pub proof fn split_undoes_join(parts: Seq<Seq<char>>, c: char)
    requires
        parts.len() > 0,
        forall|i: int| 0 <= i < parts.len() ==> !(#[trigger] parts[i]).contains(c),
    ensures
        split(join(parts, seq![c]), c) == parts,
    decreases parts.len(),
{
    if parts.len() == 1 {
        let s = parts[0];
        assert forall|i: int| 0 <= i < s.len() implies s[i] != c by {
            assert(s.contains(s[i]));
        }
        first_index_unique(s, c, s.len() as int);
        assert(split(s, c) =~= parts);
    } else {
        let front = parts.drop_last();
        assert forall|i: int| 0 <= i < front.len() implies !(#[trigger] front[i]).contains(c) by {
            assert(front[i] == parts[i]);
        }
        split_undoes_join(front, c);
        assert(!parts[parts.len() - 1].contains(c));
        split_after(join(front, seq![c]), c, parts.last());
        assert(front.push(parts.last()) =~= parts);
    }
}

pub fn join_texts(parts: &Vec<String>, sep: &str) -> (r: String)
    ensures
        r@ == join(texts(parts@), sep@),
{
    let mut out = String::new();
    let mut i: usize = 0;
    let ghost all = texts(parts@);
    while i < parts.len()
        invariant
            i <= parts.len(),
            all == texts(parts@),
            out@ == join(all.take(i as int), sep@),
        decreases parts.len() - i,
    {
        if i > 0 {
            out.append(sep);
        }
        out.append(parts[i].as_str());
        proof {
            let next = all.take(i as int + 1);
            assert(next.drop_last() =~= all.take(i as int));
            if i == 0 {
                assert(out@ =~= next[0]);
            }
        }
        i = i + 1;
    }
    assert(all.take(i as int) =~= all);
    out
}

// ---------------------------------------------------------------------------
// Numbers
// ---------------------------------------------------------------------------

pub open spec fn digit(n: nat) -> char {
    (48 + n) as char
}

/// The decimal numeral of a number, without leading zeros.
pub open spec fn decimal(n: nat) -> Seq<char>
    decreases n,
{
    if n < 10 {
        seq![digit(n)]
    } else {
        decimal(n / 10).push(digit(n % 10))
    }
}

/// The decimal numeral of an integer, with a minus sign where it is negative.
pub open spec fn decimal_int(i: int) -> Seq<char> {
    if i < 0 {
        seq!['-'] + decimal((-i) as nat)
    } else {
        decimal(i as nat)
    }
}

pub fn number_text(n: u64) -> (r: String)
    ensures
        r@ == decimal(n as nat),
    decreases n,
{
    let unit: u8 = (n % 10) as u8;
    let c = (48 + unit) as char;
    if n < 10 {
        let mut out = String::new();
        out.push(c);
        assert(out@ =~= decimal(n as nat));
        out
    } else {
        let mut out = number_text(n / 10);
        out.push(c);
        out
    }
}

pub fn integer_text(i: i64) -> (r: String)
    ensures
        r@ == decimal_int(i as int),
{
    if i >= 0 {
        number_text(i as u64)
    } else {
        let magnitude: u64 = (-(i + 1)) as u64 + 1;
        let mut out = String::new();
        out.push('-');
        let digits = number_text(magnitude);
        out.append(digits.as_str());
        assert(out@ =~= seq!['-'] + decimal((-i) as nat));
        out
    }
}

pub open spec fn is_digit(c: char) -> bool {
    '0' <= c && c <= '9'
}

/// The number that a run of decimal digits stands for.
pub open spec fn digits_value(s: Seq<char>) -> Option<nat>
    decreases s.len(),
{
    if s.len() == 0 || !is_digit(s.last()) {
        None
    } else if s.len() == 1 {
        Some((s[0] as u32 - 48) as nat)
    } else {
        match digits_value(s.drop_last()) {
            Some(n) => Some((n * 10 + (s.last() as u32 - 48)) as nat),
            None => None,
        }
    }
}

/// An unsigned number: an optional plus sign and decimal digits.
pub open spec fn parse_number(s: Seq<char>) -> Option<nat> {
    if s.len() > 0 && s[0] == '+' {
        digits_value(s.drop_first())
    } else {
        digits_value(s)
    }
}

/// An integer: an optional sign and decimal digits.
pub open spec fn parse_integer(s: Seq<char>) -> Option<int> {
    if s.len() > 0 && s[0] == '-' {
        match digits_value(s.drop_first()) {
            Some(n) => Some(-(n as int)),
            None => None,
        }
    } else {
        match parse_number(s) {
            Some(n) => Some(n as int),
            None => None,
        }
    }
}

/// A number kept only where it is at most `max`.
pub open spec fn at_most(n: Option<nat>, max: nat) -> Option<nat> {
    match n {
        Some(k) => if k <= max {
            Some(k)
        } else {
            None
        },
        None => None,
    }
}

proof fn digits_value_grows(s: Seq<char>, i: int)
    requires
        0 < i <= s.len(),
        digits_value(s) is Some,
    ensures
        digits_value(s.take(i)) is Some,
        digits_value(s.take(i))->0 <= digits_value(s)->0,
    decreases s.len() - i,
{
    if i == s.len() {
        assert(s.take(i) =~= s);
    } else {
        digits_value_grows(s, i + 1);
        assert(s.take(i + 1).drop_last() =~= s.take(i));
    }
}

/// Reads decimal digits from `from` on as a number up to `max`.
fn digits_number(chars: &Vec<char>, from: usize, max: u64) -> (r: Option<u64>)
    requires
        from <= chars.len(),
    ensures
        match r {
            Some(n) => at_most(digits_value(chars@.skip(from as int)), max as nat) == Some(n as nat),
            None => at_most(digits_value(chars@.skip(from as int)), max as nat) is None,
        },
{
    let ghost s = chars@.skip(from as int);
    if from == chars.len() {
        return None;
    }
    let mut value: u64 = 0;
    let mut i: usize = from;
    while i < chars.len()
        invariant
            from <= i <= chars.len(),
            from < chars.len(),
            s == chars@.skip(from as int),
            value <= max,
            i == from ==> value == 0,
            i > from ==> digits_value(s.take(i - from)) == Some(value as nat),
        decreases chars.len() - i,
    {
        let c = chars[i];
        let ghost upto = s.take(i + 1 - from);
        assert(upto.last() == c);
        assert(upto.drop_last() =~= s.take(i - from));
        if !('0' <= c && c <= '9') {
            proof {
                if digits_value(s) is Some {
                    digits_value_grows(s, i + 1 - from);
                }
            }
            return None;
        }
        let unit: u64 = (c as u32 - 48) as u64;
        let ghost exact = value * 10 + unit;
        assert(digits_value(upto) == Some(exact as nat));
        if value > u64::MAX / 10 || value * 10 > u64::MAX - unit || value * 10 + unit > max {
            proof {
                assert(exact > max);
                if digits_value(s) is Some {
                    digits_value_grows(s, i + 1 - from);
                }
            }
            return None;
        }
        value = value * 10 + unit;
        i = i + 1;
    }
    assert(s.take(i - from) =~= s);
    Some(value)
}

/// Reads an unsigned number up to `max`.
pub fn parse_number_text(s: &str, max: u64) -> (r: Option<u64>)
    ensures
        match r {
            Some(n) => at_most(parse_number(s@), max as nat) == Some(n as nat),
            None => at_most(parse_number(s@), max as nat) is None,
        },
{
    let chars = chars_of(s);
    if chars.len() > 0 && chars[0] == '+' {
        assert(s@.drop_first() =~= s@.skip(1));
        digits_number(&chars, 1, max)
    } else {
        assert(s@ =~= s@.skip(0));
        digits_number(&chars, 0, max)
    }
}

/// Reads an integer of 64 bits.
pub fn parse_integer_text(s: &str) -> (r: Option<i64>)
    ensures
        match r {
            Some(n) => parse_integer(s@) == Some(n as int),
            None => match parse_integer(s@) {
                Some(n) => n < i64::MIN || i64::MAX < n,
                None => true,
            },
        },
{
    let chars = chars_of(s);
    if chars.len() > 0 && chars[0] == '-' {
        assert(s@.drop_first() =~= s@.skip(1));
        match digits_number(&chars, 1, 0x8000_0000_0000_0000) {
            Some(n) => if n == 0x8000_0000_0000_0000 {
                Some(i64::MIN)
            } else {
                Some(-(n as i64))
            },
            None => None,
        }
    } else {
        match parse_number_text(s, 0x7fff_ffff_ffff_ffff) {
            Some(n) => Some(n as i64),
            None => None,
        }
    }
}

// ---------------------------------------------------------------------------
// Order
// ---------------------------------------------------------------------------

/// The order of texts: by the first character in which they differ, a text before
/// those that it is a prefix of.
pub open spec fn before(a: Seq<char>, b: Seq<char>) -> bool
    decreases a.len(),
{
    if b.len() == 0 {
        false
    } else if a.len() == 0 {
        true
    } else {
        a[0] < b[0] || (a[0] == b[0] && before(a.drop_first(), b.drop_first()))
    }
}

pub proof fn before_irreflexive(a: Seq<char>)
    ensures
        !before(a, a),
    decreases a.len(),
{
    if a.len() > 0 {
        before_irreflexive(a.drop_first());
    }
}

pub proof fn before_transitive(a: Seq<char>, b: Seq<char>, c: Seq<char>)
    requires
        before(a, b),
        before(b, c),
    ensures
        before(a, c),
    decreases a.len(),
{
    if a.len() > 0 && a[0] == b[0] && b[0] == c[0] {
        before_transitive(a.drop_first(), b.drop_first(), c.drop_first());
    }
}

pub proof fn before_total(a: Seq<char>, b: Seq<char>)
    ensures
        before(a, b) || before(b, a) || a == b,
    decreases a.len(),
{
    if a.len() > 0 && b.len() > 0 && a[0] == b[0] {
        before_total(a.drop_first(), b.drop_first());
        if a.drop_first() == b.drop_first() {
            assert(a =~= seq![a[0]] + a.drop_first());
            assert(b =~= seq![b[0]] + b.drop_first());
        }
    } else if a.len() == 0 && b.len() == 0 {
        assert(a =~= b);
    }
}

pub fn before_text(a: &str, b: &str) -> (r: bool)
    ensures
        r == before(a@, b@),
{
    let x = chars_of(a);
    let y = chars_of(b);
    let mut i: usize = 0;
    assert(a@.skip(0) =~= a@);
    assert(b@.skip(0) =~= b@);
    while i < x.len() && i < y.len() && x[i] == y[i]
        invariant
            x@ == a@,
            y@ == b@,
            i <= x.len(),
            i <= y.len(),
            before(a@, b@) == before(a@.skip(i as int), b@.skip(i as int)),
        decreases x.len() - i,
    {
        assert(a@.skip(i as int).drop_first() =~= a@.skip(i as int + 1));
        assert(b@.skip(i as int).drop_first() =~= b@.skip(i as int + 1));
        i = i + 1;
    }
    if i == y.len() {
        false
    } else if i == x.len() {
        true
    } else {
        x[i] < y[i]
    }
}

// ---------------------------------------------------------------------------
// Widths
// ---------------------------------------------------------------------------

/// So many blanks.
pub open spec fn blanks(n: nat) -> Seq<char> {
    Seq::new(n, |i: int| ' ')
}

/// The text with blanks after it, up to a width.
pub open spec fn padded(s: Seq<char>, width: nat) -> Seq<char> {
    if s.len() < width {
        s + blanks((width - s.len()) as nat)
    } else {
        s
    }
}

pub fn pad_text(s: &str, width: usize) -> (r: String)
    ensures
        r@ == padded(s@, width as nat),
{
    let chars = chars_of(s);
    let mut out = s.to_string();
    let mut n: usize = chars.len();
    while n < width
        invariant
            chars@ == s@,
            chars.len() <= n,
            n <= width || n == chars.len(),
            out@ == s@ + blanks((n - chars.len()) as nat),
        decreases width - n,
    {
        out.push(' ');
        n = n + 1;
        assert(out@ =~= s@ + blanks((n - chars.len()) as nat));
    }
    assert(out@ =~= padded(s@, width as nat));
    out
}

/// How many bytes the UTF-8 form of a text has.
pub open spec fn byte_len(s: Seq<char>) -> nat {
    vstd::utf8::encode_utf8(s).len()
}

pub proof fn byte_len_concat(a: Seq<char>, b: Seq<char>)
    ensures
        byte_len(a + b) == byte_len(a) + byte_len(b),
    decreases a.len(),
{
    if a.len() == 0 {
        assert(a + b =~= b);
    } else {
        byte_len_concat(a.drop_first(), b);
        assert((a + b).drop_first() =~= a.drop_first() + b);
    }
}

pub fn byte_len_text(s: &str) -> (r: usize)
    ensures
        r == byte_len(s@),
{
    s.as_bytes().len()
}

/// The first of two optional texts that there is.
pub open spec fn first_of(a: Option<Seq<char>>, b: Option<Seq<char>>) -> Option<Seq<char>> {
    match a {
        Some(_) => a,
        None => b,
    }
}

pub fn first_text(a: &Option<String>, b: &Option<String>) -> (r: Option<String>)
    ensures
        opt(r) == first_of(opt(*a), opt(*b)),
{
    match a {
        Some(a) => Some(a.clone()),
        None => copy_opt(b),
    }
}

/// The trimmed value of an optional text, if anything is left.
pub open spec fn filled(value: Option<Seq<char>>) -> Option<Seq<char>> {
    match value {
        Some(v) => non_blank(v),
        None => None,
    }
}

pub fn filled_text(value: Option<&str>) -> (r: Option<String>)
    ensures
        opt(r) == filled(opt_ref(value)),
{
    match value {
        Some(value) => non_blank_text(value),
        None => None,
    }
}

/// What `String::from_utf8_lossy` reads bytes as.
pub uninterp spec fn lossy_utf8(bytes: Seq<u8>) -> Seq<char>;

/// Wrapper of `String::from_utf8_lossy`. Bytes that are valid UTF-8 are read as the
/// characters that they encode; what becomes of other bytes is named, not stated.
#[verifier::external_body]
pub(crate) fn from_utf8_lossy(bytes: &[u8]) -> (r: String)
    ensures
        r@ == lossy_utf8(bytes@),
        vstd::utf8::valid_utf8(bytes@) ==> r@ == vstd::utf8::decode_utf8(bytes@),
{
    String::from_utf8_lossy(bytes).into_owned()
}

// ---------------------------------------------------------------------------
// Lines of a report
// ---------------------------------------------------------------------------

/// A label and its value on one line; no line without a value.
pub open spec fn labelled(label: Seq<char>, value: Option<Seq<char>>) -> Seq<Seq<char>> {
    match value {
        Some(v) => seq![label + v],
        None => Seq::empty(),
    }
}

pub fn push_line(lines: &mut Vec<String>, line: String)
    ensures
        texts(final(lines)@) == texts(old(lines)@).push(line@),
        texts(final(lines)@) == texts(old(lines)@) + seq![line@],
{
    proof {
        texts_push(lines@, line);
    }
    lines.push(line);
    assert(texts(lines@) =~= texts(old(lines)@) + seq![line@]);
}

pub fn push_labelled(lines: &mut Vec<String>, label: &str, value: Option<&str>)
    ensures
        texts(final(lines)@) == texts(old(lines)@) + labelled(label@, opt_ref(value)),
{
    match value {
        Some(value) => {
            let mut line = label.to_string();
            line.append(value);
            push_line(lines, line);
        },
        None => {
            assert(texts(lines@) + Seq::<Seq<char>>::empty() =~= texts(lines@));
        },
    }
}

/// Two texts, one behind the other.
pub fn concat(a: &str, b: &str) -> (r: String)
    ensures
        r@ == a@ + b@,
{
    let mut out = a.to_string();
    out.append(b);
    out
}

// ---------------------------------------------------------------------------
// Laws
// ---------------------------------------------------------------------------

proof fn trim_start_bounds(s: Seq<char>) -> (a: int)
    ensures
        0 <= a <= s.len(),
        trim_start(s) == s.skip(a),
        forall|i: int| 0 <= i < a ==> is_space(s[i]),
        a < s.len() ==> !is_space(s[a]),
    decreases s.len(),
{
    if s.len() > 0 && is_space(s[0]) {
        let t = s.drop_first();
        let b = trim_start_bounds(t);
        assert(t.skip(b) =~= s.skip(b + 1));
        assert forall|i: int| 0 <= i < b + 1 implies is_space(s[i]) by {
            if i > 0 {
                assert(t[i - 1] == s[i]);
            }
        }
        if b < t.len() {
            assert(t[b] == s[b + 1]);
        }
        b + 1
    } else {
        assert(s.skip(0) =~= s);
        0
    }
}

proof fn trim_end_bounds(s: Seq<char>) -> (b: int)
    ensures
        0 <= b <= s.len(),
        trim_end(s) == s.take(b),
        forall|i: int| b <= i < s.len() ==> is_space(s[i]),
        0 < b ==> !is_space(s[b - 1]),
    decreases s.len(),
{
    if s.len() > 0 && is_space(s.last()) {
        let t = s.drop_last();
        let b = trim_end_bounds(t);
        assert(t.take(b) =~= s.take(b));
        assert forall|i: int| b <= i < s.len() implies is_space(s[i]) by {
            if i < t.len() {
                assert(t[i] == s[i]);
            }
        }
        if 0 < b {
            assert(t[b - 1] == s[b - 1]);
        }
        b
    } else {
        assert(s.take(s.len() as int) =~= s);
        s.len() as int
    }
}

/// Trimming takes white space away at the two ends and nothing else, and all of it:
/// what is left stands between the two positions, which bound no white space.
pub proof fn trim_takes_the_outer_space(s: Seq<char>) -> (bounds: (int, int))
    ensures
        0 <= bounds.0 <= bounds.1 <= s.len(),
        trim(s) == s.subrange(bounds.0, bounds.1),
        forall|i: int| 0 <= i < bounds.0 ==> is_space(s[i]),
        forall|i: int| bounds.1 <= i < s.len() ==> is_space(s[i]),
        bounds.0 < bounds.1 ==> !is_space(s[bounds.0]) && !is_space(s[bounds.1 - 1]),
{
    let a = trim_start_bounds(s);
    let t = s.skip(a);
    let b = trim_end_bounds(t);
    assert(t.take(b) =~= s.subrange(a, a + b));
    assert forall|i: int| a + b <= i < s.len() implies is_space(s[i]) by {
        assert(t[i - a] == s[i]);
    }
    if 0 < b {
        assert(t[b - 1] == s[a + b - 1]);
    }
    (a, a + b)
}

/// A text is blank exactly where all of it is white space.
pub proof fn blank_means_all_space(s: Seq<char>)
    ensures
        is_blank(s) <==> forall|i: int| 0 <= i < s.len() ==> is_space(#[trigger] s[i]),
        non_blank(s) is None <==> forall|i: int| 0 <= i < s.len() ==> is_space(#[trigger] s[i]),
        non_blank(s) matches Some(t) ==> t == trim(s),
{
    let bounds = trim_takes_the_outer_space(s);
}

/// Blanks, tabs and line ends are white space; no visible ASCII character is.
pub proof fn visible_ascii_is_no_space(c: char)
    ensures
        '!' <= c && c <= '~' ==> !is_space(c),
        c == ' ' || c == '\t' || c == '\n' || c == '\r' ==> is_space(c),
{
}

/// A text that neither starts nor ends with white space is its own trimmed form, and
/// white space around it does not matter.
pub proof fn trim_finds_the_core(left: Seq<char>, core: Seq<char>, right: Seq<char>)
    requires
        forall|i: int| 0 <= i < left.len() ==> is_space(left[i]),
        forall|i: int| 0 <= i < right.len() ==> is_space(right[i]),
        core.len() > 0,
        !is_space(core[0]),
        !is_space(core.last()),
    ensures
        trim(left + core + right) == core,
{
    let s = left + core + right;
    let bounds = trim_takes_the_outer_space(s);
    let (a, b) = bounds;
    assert(s[left.len() as int] == core[0]);
    assert(s[left.len() + core.len() - 1] == core.last());
    if a < left.len() {
        assert(s[a] == left[a]);
    }
    if b > left.len() + core.len() {
        assert(s[b - 1] == right[b - 1 - left.len() - core.len()]);
    }
    assert(s.subrange(a, b) =~= core);
}

/// The parts of a joined text stand in it in order, with the separator between each
/// two of them.
pub proof fn join_adds_at_the_end(parts: Seq<Seq<char>>, part: Seq<char>, sep: Seq<char>)
    ensures
        join(Seq::empty(), sep) == Seq::<char>::empty(),
        join(seq![part], sep) == part,
        parts.len() > 0 ==> join(parts.push(part), sep) == join(parts, sep) + sep + part,
{
    assert(parts.push(part).drop_last() =~= parts);
}

/// A numeral reads back as its number; it has digits alone, and no zero in front
/// unless it is zero itself.
pub proof fn decimal_reads_back(n: nat)
    ensures
        digits_value(decimal(n)) == Some(n),
        forall|i: int| 0 <= i < decimal(n).len() ==> is_digit(#[trigger] decimal(n)[i]),
        n > 0 ==> decimal(n)[0] != '0',
        n == 0 ==> decimal(n) == seq!['0'],
    decreases n,
{
    if n >= 10 {
        decimal_reads_back(n / 10);
        let front = decimal(n / 10);
        let whole = decimal(n);
        assert(whole.drop_last() =~= front);
        assert forall|i: int| 0 <= i < whole.len() implies is_digit(#[trigger] whole[i]) by {
            if i < front.len() {
                assert(whole[i] == front[i]);
            }
        }
        assert(whole[0] == front[0]);
    }
}

/// Padding reaches the width, keeps the text in front and adds blanks alone.
pub proof fn padding_fills_the_width(s: Seq<char>, width: nat)
    ensures
        padded(s, width).len() == if s.len() < width {
            width
        } else {
            s.len()
        },
        padded(s, width).take(s.len() as int) == s,
        forall|i: int| s.len() <= i < padded(s, width).len() ==> padded(s, width)[i] == ' ',
{
    assert(padded(s, width).take(s.len() as int) =~= s);
}

/// The order of texts is that of the first character in which they differ.
pub proof fn before_looks_at_the_first_difference(
    common: Seq<char>,
    a: Seq<char>,
    b: Seq<char>,
)
    requires
        a.len() == 0 || b.len() == 0 || a[0] != b[0],
    ensures
        before(common + a, common + b) <==> b.len() > 0 && (a.len() == 0 || a[0] < b[0]),
    decreases common.len(),
{
    if common.len() == 0 {
        assert(common + a =~= a);
        assert(common + b =~= b);
    } else {
        before_looks_at_the_first_difference(common.drop_first(), a, b);
        assert((common + a).drop_first() =~= common.drop_first() + a);
        assert((common + b).drop_first() =~= common.drop_first() + b);
    }
}

proof fn words_of_a_word(w: Seq<char>)
    requires
        w.len() > 0,
        forall|i: int| 0 <= i < w.len() ==> !is_space(w[i]),
    ensures
        words(w) == seq![w],
{
    word_len_bounds(w);
    assert(trim_start(w) == w);
    assert(word_len(w) == w.len());
    assert(w.take(w.len() as int) =~= w);
    assert(words(w.skip(w.len() as int)) =~= Seq::empty());
    assert(words(w) =~= seq![w]);
}

/// White space is not counted, and each run of other characters is one word: a word
/// after white space adds itself at the end.
pub proof fn words_grow_by_one(s: Seq<char>, gap: char, w: Seq<char>)
    requires
        is_space(gap),
        w.len() > 0,
        forall|i: int| 0 <= i < w.len() ==> !is_space(w[i]),
    ensures
        words(s + seq![gap] + w) == words(s).push(w),
        words(s + seq![gap]) == words(s),
        words(w) == seq![w],
        words(Seq::empty()) == Seq::<Seq<char>>::empty(),
    decreases s.len(),
{
    words_of_a_word(w);
    let t = trim_start(s);
    let a = trim_start_bounds(s);
    let whole = s + seq![gap] + w;
    let half = s + seq![gap];
    let b = trim_start_bounds(whole);
    let c = trim_start_bounds(half);
    if a == s.len() {
        assert forall|i: int| 0 <= i < s.len() + 1 implies is_space(whole[i]) && is_space(half[i]) by {
            if i < s.len() {
                assert(whole[i] == s[i] && half[i] == s[i]);
            }
        }
        assert(whole[s.len() as int + 1] == w[0]);
        if b < s.len() + 1 {
            assert(!is_space(whole[b]));
        }
        if b > s.len() + 1 {
            assert(is_space(whole[s.len() as int + 1]));
        }
        assert(whole.skip(b) =~= w);
        if c < half.len() {
            assert(!is_space(half[c]));
        }
        assert(trim_start(half).len() == 0);
        assert(words(s) =~= Seq::empty());
        assert(words(half) =~= Seq::empty());
        assert(trim_start(w) == w);
        assert(words(whole) == words(w));
        assert(words(whole) =~= words(s).push(w));
    } else {
        assert(whole[a] == s[a] && half[a] == s[a]);
        if b < a {
            assert(whole[b] == s[b]);
        }
        if c < a {
            assert(half[c] == s[c]);
        }
        assert(b == a && c == a);
        let n = word_len(t);
        word_len_bounds(t);
        let u = whole.skip(a);
        let v = half.skip(a);
        word_len_bounds(u);
        word_len_bounds(v);
        assert(forall|i: int| 0 <= i < t.len() ==> u[i] == t[i] && v[i] == t[i]);
        assert(u[t.len() as int] == gap && v[t.len() as int] == gap);
        assert(word_len(u) == n) by {
            if word_len(u) < n {
                assert(is_space(u[word_len(u)]));
            }
            if word_len(u) > n {
                assert(!is_space(u[n]));
            }
        }
        assert(word_len(v) == n) by {
            if word_len(v) < n {
                assert(is_space(v[word_len(v)]));
            }
            if word_len(v) > n {
                assert(!is_space(v[n]));
            }
        }
        let rest = t.skip(n);
        assert(u.take(n) =~= t.take(n));
        assert(v.take(n) =~= t.take(n));
        assert(u.skip(n) =~= rest + seq![gap] + w);
        assert(v.skip(n) =~= rest + seq![gap]);
        words_grow_by_one(rest, gap, w);
        assert(words(whole) =~= words(s).push(w));
        assert(words(half) =~= words(s));
    }
}

/// A piece that holds no separator adds itself at the end of what was split, and a
/// text without any separator is one piece.
pub proof fn split_grows_by_one(s: Seq<char>, c: char, piece: Seq<char>)
    requires
        !piece.contains(c),
    ensures
        split(s + seq![c] + piece, c) == split(s, c).push(piece),
        split(piece, c) == seq![piece],
{
    split_after(s, c, piece);
    assert forall|i: int| 0 <= i < piece.len() implies piece[i] != c by {
        assert(piece.contains(piece[i]));
    }
    first_index_unique(piece, c, piece.len() as int);
    assert(split(piece, c) =~= seq![piece]);
}

/// Splitting once parts a text at its first separator.
pub proof fn split_once_parts_at_the_first(left: Seq<char>, c: char, right: Seq<char>)
    requires
        !left.contains(c),
    ensures
        split_once(left + seq![c] + right, c) == Some((left, right)),
        split_once(left, c) is None,
{
    let s = left + seq![c] + right;
    assert forall|i: int| 0 <= i < left.len() implies s[i] != c && left[i] != c by {
        assert(left.contains(left[i]));
    }
    first_index_unique(s, c, left.len() as int);
    first_index_unique(left, c, left.len() as int);
    assert(s.take(left.len() as int) =~= left);
    assert(s.skip(left.len() as int + 1) =~= right);
}

/// What is dropped at an end is that character alone, and all of it.
pub proof fn dropped_ends_are_that_character(s: Seq<char>, c: char, n: nat)
    requires
        s.len() > 0,
        s[0] != c,
        s.last() != c,
    ensures
        drop_end(s + Seq::new(n, |i: int| c), c) == s,
        drop_start(Seq::new(n, |i: int| c) + s, c) == s,
    decreases n,
{
    let tail = Seq::new(n, |i: int| c);
    if n == 0 {
        assert(s + tail =~= s);
        assert(tail + s =~= s);
    } else {
        let less = (n - 1) as nat;
        let rest = Seq::new(less, |i: int| c);
        dropped_ends_are_that_character(s, c, less);
        assert((s + tail).drop_last() =~= s + rest);
        assert((s + tail).last() == c);
        assert((tail + s).drop_first() =~= rest + s);
        assert((tail + s)[0] == c);
    }
}

/// Lower case changes the capital letters alone, and upper case undoes it for letters.
pub proof fn lower_case_is_of_letters(c: char)
    ensures
        'A' <= c && c <= 'Z' ==> 'a' <= lower_char(c) && lower_char(c) <= 'z' && upper_char(
            lower_char(c),
        ) == c,
        !('A' <= c && c <= 'Z') ==> lower_char(c) == c,
        !('a' <= c && c <= 'z') ==> upper_char(c) == c,
        'a' <= c && c <= 'z' ==> lower_char(upper_char(c)) == c,
{
}

/// What follows a prefix is the rest, and only where the prefix is there.
pub proof fn rest_follows_the_prefix(prefix: Seq<char>, rest: Seq<char>, s: Seq<char>)
    ensures
        after_prefix(prefix + rest, prefix) == Some(rest),
        after_prefix(s, prefix) matches Some(r) ==> s == prefix + r,
{
    assert((prefix + rest).subrange(0, prefix.len() as int) =~= prefix);
    assert((prefix + rest).skip(prefix.len() as int) =~= rest);
    if starts_with(s, prefix) {
        assert(s.subrange(0, prefix.len() as int) == prefix);
        assert(s =~= prefix + s.skip(prefix.len() as int));
    }
}

/// The first of two optional texts counts, and a blank one counts as none where blanks
/// do not.
pub proof fn first_given_counts(a: Option<Seq<char>>, b: Option<Seq<char>>)
    ensures
        a is Some ==> first_of(a, b) == a,
        a is None ==> first_of(a, b) == b,
        filled(a) is Some <==> (a matches Some(v) && exists|i: int|
            0 <= i < v.len() && !is_space(#[trigger] v[i])),
        filled(a) matches Some(v) ==> v == trim(a->0),
{
    if a is Some {
        blank_means_all_space(a->0);
    }
}

} // verus!
