//! Character sequences: the executable helpers the rest of the library
//! builds its text handling on, each stated over `Seq<char>`.

use vstd::prelude::*;

verus! {

/// `String::push` appends the given character to the end of the string.
pub assume_specification[ String::push ](s: &mut String, c: char)
    ensures
        final(s)@ == old(s)@.push(c),
;

/// `String::from_utf8`: the text that `bytes` encode, where they are
/// well-formed UTF-8, and nothing where they are not.
#[verifier::external_body]
pub(crate) fn decode(bytes: &Vec<u8>) -> (text: Option<String>)
    ensures
        match text {
            Some(s) => vstd::utf8::valid_utf8(bytes@) && s@ == vstd::utf8::decode_utf8(bytes@),
            None => !vstd::utf8::valid_utf8(bytes@),
        },
{
    String::from_utf8(bytes.clone()).ok()
}

/// The characters with the Unicode `White_Space` property.
pub open spec fn is_space(c: char) -> bool {
    let n = c as u32;
    ||| 0x09 <= n <= 0x0D
    ||| n == 0x20
    ||| n == 0x85
    ||| n == 0xA0
    ||| n == 0x1680
    ||| 0x2000 <= n <= 0x200A
    ||| n == 0x2028
    ||| n == 0x2029
    ||| n == 0x202F
    ||| n == 0x205F
    ||| n == 0x3000
}

/// The characters of an optional string.
pub open spec fn optional_text(text: Option<String>) -> Option<Seq<char>> {
    match text {
        Some(s) => Some(s@),
        None => None,
    }
}

/// `s` without its leading white space.
pub open spec fn trim_start(s: Seq<char>) -> Seq<char>
    decreases s.len(),
{
    if s.len() > 0 && is_space(s[0]) {
        trim_start(s.subrange(1, s.len() as int))
    } else {
        s
    }
}

/// `s` without its trailing white space.
pub open spec fn trim_end(s: Seq<char>) -> Seq<char>
    decreases s.len(),
{
    if s.len() > 0 && is_space(s[s.len() - 1]) {
        trim_end(s.subrange(0, s.len() - 1))
    } else {
        s
    }
}

/// `s` without leading and trailing white space.
pub open spec fn trim(s: Seq<char>) -> Seq<char> {
    trim_end(trim_start(s))
}

/// `pat` stands in `s` at index `i`.
pub open spec fn occurs_at(s: Seq<char>, pat: Seq<char>, i: int) -> bool {
    0 <= i && i + pat.len() <= s.len() && s.subrange(i, i + pat.len()) =~= pat
}

/// `n` copies of `c`.
pub open spec fn repeat(c: char, n: nat) -> Seq<char> {
    Seq::new(n, |i: int| c)
}

/// The decimal digit for `d`, where `d` is below ten.
pub open spec fn digit(d: nat) -> char {
    if d == 0 {
        '0'
    } else if d == 1 {
        '1'
    } else if d == 2 {
        '2'
    } else if d == 3 {
        '3'
    } else if d == 4 {
        '4'
    } else if d == 5 {
        '5'
    } else if d == 6 {
        '6'
    } else if d == 7 {
        '7'
    } else if d == 8 {
        '8'
    } else {
        '9'
    }
}

/// `n` in decimal, without leading zeros.
pub open spec fn decimal(n: nat) -> Seq<char>
    decreases n,
{
    if n < 10 {
        seq![digit(n)]
    } else {
        decimal(n / 10).push(digit(n % 10))
    }
}

/// `s` without its last character, where it has one.
pub open spec fn drop_last_char(s: Seq<char>) -> Seq<char> {
    if s.len() > 0 {
        s.drop_last()
    } else {
        s
    }
}

/// `s` without its last character, where that is a space.
pub open spec fn drop_space(s: Seq<char>) -> Seq<char> {
    if s.len() > 0 && s.last() == ' ' {
        s.drop_last()
    } else {
        s
    }
}

/// `s` without its last character, where it ends with two spaces.
pub open spec fn drop_double_space(s: Seq<char>) -> Seq<char> {
    if s.len() > 1 && s[s.len() - 1] == ' ' && s[s.len() - 2] == ' ' {
        s.drop_last()
    } else {
        s
    }
}

/// The index of the first line break at or after `from`, or the length
/// of `s` where none follows.
pub open spec fn line_end(s: Seq<char>, from: int) -> int
    decreases s.len() - from,
{
    if from < 0 || from >= s.len() {
        s.len() as int
    } else if s[from] == '\n' {
        from
    } else {
        line_end(s, from + 1)
    }
}

/// A line ends at index `k` of `s`: the text ends there, or a line break
/// (`\n`, or `\r` before `\n` or before the end) begins there.
pub open spec fn line_ends(s: Seq<char>, k: int) -> bool {
    ||| k == s.len()
    ||| 0 <= k < s.len() && s[k] == '\n'
    ||| 0 <= k < s.len() && s[k] == '\r' && (k + 1 == s.len() || s[k + 1] == '\n')
}

/// The index just behind the line break that begins at `k`, where
/// `line_ends(s, k)` holds.
pub open spec fn after_break(s: Seq<char>, k: int) -> int {
    if k >= s.len() {
        s.len() as int
    } else if s[k] == '\n' || k + 1 == s.len() {
        k + 1
    } else {
        k + 2
    }
}

/// A line of `s` that consists of `pat` and nothing else begins at `i`.
pub open spec fn line_at(s: Seq<char>, pat: Seq<char>, i: int) -> bool {
    &&& occurs_at(s, pat, i)
    &&& (i == 0 || s[i - 1] == '\n')
    &&& line_ends(s, i + pat.len())
}

/// The least index at or after `from` where a line of `s` consists of
/// `pat` alone.
pub open spec fn first_line(s: Seq<char>, pat: Seq<char>, from: int) -> Option<int>
    decreases s.len() - from + 1,
{
    if from < 0 || from + pat.len() > s.len() {
        None
    } else if line_at(s, pat, from) {
        Some(from)
    } else {
        first_line(s, pat, from + 1)
    }
}

/// `pat` stands nowhere in `s`.
pub open spec fn absent(s: Seq<char>, pat: Seq<char>) -> bool {
    forall|i: int| !occurs_at(s, pat, i)
}

/// What stands in a part of a text stands in the text.
pub proof fn lemma_occurs_in_part(s: Seq<char>, lo: int, hi: int, pat: Seq<char>, i: int)
    requires
        0 <= lo <= hi <= s.len(),
        occurs_at(s.subrange(lo, hi), pat, i),
    ensures
        occurs_at(s, pat, lo + i),
{
    let part = s.subrange(lo, hi);
    assert(s.subrange(lo + i, lo + i + pat.len()) =~= part.subrange(i, i + pat.len()));
}

/// What is absent from a text is absent from each part of it.
pub proof fn lemma_absent_in_part(s: Seq<char>, lo: int, hi: int, pat: Seq<char>)
    requires
        0 <= lo <= hi <= s.len(),
        absent(s, pat),
    ensures
        absent(s.subrange(lo, hi), pat),
{
    assert forall|i: int| !occurs_at(s.subrange(lo, hi), pat, i) by {
        if occurs_at(s.subrange(lo, hi), pat, i) {
            lemma_occurs_in_part(s, lo, hi, pat, i);
        }
    }
}

/// Trimming at the start leaves the end of the text: what is left
/// neither is longer than the text nor begins with white space, and
/// what was taken off is white space.
pub proof fn lemma_trim_start(s: Seq<char>)
    ensures
        trim_start(s).len() <= s.len(),
        trim_start(s) == s.subrange(s.len() - trim_start(s).len(), s.len() as int),
        trim_start(s).len() > 0 ==> !is_space(trim_start(s)[0]),
        forall|m: int| 0 <= m < s.len() - trim_start(s).len() ==> is_space(#[trigger] s[m]),
    decreases s.len(),
{
    if s.len() > 0 && is_space(s[0]) {
        let rest = s.subrange(1, s.len() as int);
        lemma_trim_start(rest);
        assert(rest.subrange(rest.len() - trim_start(rest).len(), rest.len() as int) =~= s.subrange(
            s.len() - trim_start(s).len(),
            s.len() as int,
        ));
        assert forall|m: int| 0 <= m < s.len() - trim_start(s).len() implies is_space(
            #[trigger] s[m],
        ) by {
            if m > 0 {
                assert(s[m] == rest[m - 1]);
            }
        }
    } else {
        assert(s.subrange(0, s.len() as int) =~= s);
    }
}

/// Trimming at the end leaves the start of the text: what is left
/// neither is longer than the text nor ends with white space.
pub proof fn lemma_trim_end(s: Seq<char>)
    ensures
        trim_end(s).len() <= s.len(),
        trim_end(s) == s.subrange(0, trim_end(s).len() as int),
        trim_end(s).len() > 0 ==> !is_space(trim_end(s).last()),
    decreases s.len(),
{
    if s.len() > 0 && is_space(s[s.len() - 1]) {
        let rest = s.subrange(0, s.len() - 1);
        lemma_trim_end(rest);
        assert(rest.subrange(0, trim_end(rest).len() as int) =~= s.subrange(
            0,
            trim_end(s).len() as int,
        ));
    } else {
        assert(s.subrange(0, s.len() as int) =~= s);
    }
}

/// A trimmed text is a part of the text, and neither begins nor ends
/// with white space.
pub proof fn lemma_trim(s: Seq<char>)
    ensures
        trim(s).len() <= trim_start(s).len() <= s.len(),
        trim(s) == s.subrange(
            s.len() - trim_start(s).len(),
            s.len() - trim_start(s).len() + trim(s).len(),
        ),
        trim(s).len() > 0 ==> !is_space(trim(s)[0]) && !is_space(trim(s).last()),
{
    let start = trim_start(s);
    lemma_trim_start(s);
    lemma_trim_end(start);
    let lo = s.len() - start.len();
    assert(start.subrange(0, trim(s).len() as int) =~= s.subrange(lo, lo + trim(s).len()));
}

/// Trimming twice is trimming once.
pub proof fn lemma_trim_twice(s: Seq<char>)
    ensures
        trim(trim(s)) == trim(s),
{
    lemma_trim(s);
}

/// What is absent from a text is absent from the trimmed text.
pub proof fn lemma_absent_in_trim(s: Seq<char>, pat: Seq<char>)
    requires
        absent(s, pat),
    ensures
        absent(trim_start(s), pat),
        absent(trim(s), pat),
{
    lemma_trim_start(s);
    lemma_trim(s);
    lemma_absent_in_part(s, s.len() - trim_start(s).len(), s.len() as int, pat);
    lemma_absent_in_part(
        s,
        s.len() - trim_start(s).len(),
        s.len() - trim_start(s).len() + trim(s).len(),
        pat,
    );
}

/// The first line that consists of `pat` is a line that consists of
/// `pat`, and none stands between `from` and it; where there is none,
/// no such line stands at or after `from`.
pub proof fn lemma_first_line(s: Seq<char>, pat: Seq<char>, from: int)
    requires
        0 <= from,
    ensures
        match first_line(s, pat, from) {
            Some(j) => from <= j && line_at(s, pat, j) && forall|k: int|
                from <= k < j ==> !line_at(s, pat, k),
            None => forall|k: int| from <= k ==> !line_at(s, pat, k),
        },
    decreases s.len() - from + 1,
{
    if from + pat.len() <= s.len() && !line_at(s, pat, from) {
        lemma_first_line(s, pat, from + 1);
    }
}

/// The index of the first line break at or after `from` lies within the
/// text.
pub proof fn lemma_line_end(s: Seq<char>, from: int)
    requires
        0 <= from <= s.len(),
    ensures
        from <= line_end(s, from) <= s.len(),
    decreases s.len() - from,
{
    if from < s.len() && s[from] != '\n' {
        lemma_line_end(s, from + 1);
    }
}

/// Tells whether `c` is a white-space character.
pub fn is_space_char(c: char) -> (space: bool)
    ensures
        space == is_space(c),
{
    let n: u32 = c as u32;
    (0x09 <= n && n <= 0x0D) || n == 0x20 || n == 0x85 || n == 0xA0 || n == 0x1680 || (0x2000 <= n
        && n <= 0x200A) || n == 0x2028 || n == 0x2029 || n == 0x202F || n == 0x205F || n == 0x3000
}

/// The characters of `s`, in order.
pub fn chars_of(s: &str) -> (chars: Vec<char>)
    ensures
        chars@ == s@,
{
    let mut chars: Vec<char> = Vec::new();
    for c in iter: s.chars()
        invariant
            iter.seq() == s@,
            chars@.len() == iter.index(),
            forall|i: int| 0 <= i < chars@.len() ==> chars@[i] == iter.seq()[i],
    {
        chars.push(c);
    }
    assert(chars@ =~= s@);
    chars
}

/// The string made of `chars`, in order.
pub fn string_of(chars: &Vec<char>) -> (s: String)
    ensures
        s@ == chars@,
{
    let mut s = String::new();
    let mut i: usize = 0;
    while i < chars.len()
        invariant
            i <= chars.len(),
            s@ == chars@.subrange(0, i as int),
        decreases chars.len() - i,
    {
        s.push(chars[i]);
        i += 1;
        assert(s@ =~= chars@.subrange(0, i as int));
    }
    assert(s@ =~= chars@);
    s
}

/// Appends the characters of `s` to `buf`.
pub fn push_str(buf: &mut Vec<char>, s: &str)
    ensures
        final(buf)@ == old(buf)@ + s@,
{
    let mut chars = chars_of(s);
    buf.append(&mut chars);
}

/// Appends a copy of `s` to `buf`.
pub fn push_chars(buf: &mut Vec<char>, s: &Vec<char>)
    ensures
        final(buf)@ == old(buf)@ + s@,
{
    let mut i: usize = 0;
    while i < s.len()
        invariant
            i <= s.len(),
            buf@ == old(buf)@ + s@.subrange(0, i as int),
        decreases s.len() - i,
    {
        buf.push(s[i]);
        i += 1;
        assert(buf@ =~= old(buf)@ + s@.subrange(0, i as int));
    }
    assert(s@.subrange(0, s@.len() as int) =~= s@);
}

/// Appends `n` copies of `c` to `buf`.
pub fn push_repeat(buf: &mut Vec<char>, c: char, n: usize)
    ensures
        final(buf)@ == old(buf)@ + repeat(c, n as nat),
{
    let mut i: usize = 0;
    assert(buf@ =~= old(buf)@ + repeat(c, 0));
    while i < n
        invariant
            i <= n,
            buf@ == old(buf)@ + repeat(c, i as nat),
        decreases n - i,
    {
        buf.push(c);
        i += 1;
        assert(buf@ =~= old(buf)@ + repeat(c, i as nat));
    }
}

/// The decimal digit for `d`.
pub fn digit_char(d: u64) -> (c: char)
    requires
        d < 10,
    ensures
        c == digit(d as nat),
{
    if d == 0 {
        '0'
    } else if d == 1 {
        '1'
    } else if d == 2 {
        '2'
    } else if d == 3 {
        '3'
    } else if d == 4 {
        '4'
    } else if d == 5 {
        '5'
    } else if d == 6 {
        '6'
    } else if d == 7 {
        '7'
    } else if d == 8 {
        '8'
    } else {
        '9'
    }
}

/// Appends `n` in decimal to `buf`.
pub fn push_decimal(buf: &mut Vec<char>, n: u64)
    ensures
        final(buf)@ == old(buf)@ + decimal(n as nat),
    decreases n,
{
    if n >= 10 {
        push_decimal(buf, n / 10);
    }
    buf.push(digit_char(n % 10));
    assert(buf@ =~= old(buf)@ + decimal(n as nat));
}

/// Removes the last character of `buf`, where it has one.
pub fn pop_char(buf: &mut Vec<char>)
    ensures
        final(buf)@ == drop_last_char(old(buf)@),
{
    let _ = buf.pop();
}

/// Removes the last character of `buf`, where that is a space.
pub fn pop_space(buf: &mut Vec<char>)
    ensures
        final(buf)@ == drop_space(old(buf)@),
{
    let n = buf.len();
    if n > 0 && buf[n - 1] == ' ' {
        let _ = buf.pop();
    }
}

/// Removes the last character of `buf`, where it ends with two spaces.
pub fn pop_double_space(buf: &mut Vec<char>)
    ensures
        final(buf)@ == drop_double_space(old(buf)@),
{
    let n = buf.len();
    if n > 1 && buf[n - 1] == ' ' && buf[n - 2] == ' ' {
        let _ = buf.pop();
    }
}

/// The characters of `s` from index `lo` up to, not including, `hi`.
pub fn subrange(s: &Vec<char>, lo: usize, hi: usize) -> (part: Vec<char>)
    requires
        lo <= hi <= s@.len(),
    ensures
        part@ == s@.subrange(lo as int, hi as int),
{
    let mut part: Vec<char> = Vec::new();
    let mut i: usize = lo;
    while i < hi
        invariant
            lo <= i <= hi <= s@.len(),
            part@ == s@.subrange(lo as int, i as int),
        decreases hi - i,
    {
        part.push(s[i]);
        i += 1;
        assert(part@ =~= s@.subrange(lo as int, i as int));
    }
    part
}

/// `s` without its leading white space.
pub fn trim_start_of(s: &Vec<char>) -> (t: Vec<char>)
    ensures
        t@ == trim_start(s@),
{
    let mut i: usize = 0;
    assert(s@.subrange(0, s@.len() as int) =~= s@);
    while i < s.len() && is_space_char(s[i])
        invariant
            i <= s@.len(),
            trim_start(s@) == trim_start(s@.subrange(i as int, s@.len() as int)),
        decreases s.len() - i,
    {
        proof {
            let t = s@.subrange(i as int, s@.len() as int);
            assert(t.subrange(1, t.len() as int) =~= s@.subrange(i + 1, s@.len() as int));
        }
        i += 1;
    }
    subrange(s, i, s.len())
}

/// `s` without its trailing white space.
pub fn trim_end_of(s: &Vec<char>) -> (t: Vec<char>)
    ensures
        t@ == trim_end(s@),
{
    let mut n: usize = s.len();
    assert(s@.subrange(0, s@.len() as int) =~= s@);
    while n > 0 && is_space_char(s[n - 1])
        invariant
            n <= s@.len(),
            trim_end(s@) == trim_end(s@.subrange(0, n as int)),
        decreases n,
    {
        proof {
            let t = s@.subrange(0, n as int);
            assert(t.subrange(0, t.len() - 1) =~= s@.subrange(0, n - 1));
        }
        n -= 1;
    }
    subrange(s, 0, n)
}

/// `s` without leading and trailing white space.
pub fn trim_of(s: &Vec<char>) -> (t: Vec<char>)
    ensures
        t@ == trim(s@),
{
    let start = trim_start_of(s);
    trim_end_of(&start)
}

/// Tells whether `pat` stands in `s` at index `i`.
pub fn has_at(s: &Vec<char>, pat: &Vec<char>, i: usize) -> (found: bool)
    ensures
        found == occurs_at(s@, pat@, i as int),
{
    if pat.len() > s.len() || i > s.len() - pat.len() {
        return false;
    }
    let mut k: usize = 0;
    while k < pat.len()
        invariant
            k <= pat@.len(),
            i + pat@.len() <= s@.len() <= usize::MAX,
            forall|j: int| 0 <= j < k ==> s@[i + j] == pat@[j],
        decreases pat.len() - k,
    {
        if s[i + k] != pat[k] {
            assert(s@.subrange(i as int, i + pat@.len())[k as int] != pat@[k as int]);
            return false;
        }
        k += 1;
    }
    assert(s@.subrange(i as int, i + pat@.len()) =~= pat@);
    true
}

/// Tells whether `s` and `t` hold the same characters.
pub fn same_text(s: &str, t: &str) -> (same: bool)
    ensures
        same == (s@ == t@),
{
    let a = chars_of(s);
    let b = chars_of(t);
    if a.len() != b.len() {
        return false;
    }
    let same = has_at(&a, &b, 0);
    assert(a@.subrange(0, a@.len() as int) =~= a@);
    same
}

/// The index of the first line break of `s` at or after `from`.
pub fn line_end_of(s: &Vec<char>, from: usize) -> (end: usize)
    ensures
        end == line_end(s@, from as int),
        from <= s@.len() ==> from <= end <= s@.len(),
{
    if from >= s.len() {
        return s.len();
    }
    let mut i: usize = from;
    while i < s.len() && s[i] != '\n'
        invariant
            from <= i <= s@.len(),
            line_end(s@, from as int) == line_end(s@, i as int),
        decreases s.len() - i,
    {
        i += 1;
    }
    i
}

/// Tells whether a line of `s` ends at index `k`.
pub fn line_ends_at(s: &Vec<char>, k: usize) -> (ends: bool)
    ensures
        ends == line_ends(s@, k as int),
{
    if k >= s.len() {
        return k == s.len();
    }
    s[k] == '\n' || (s[k] == '\r' && (k + 1 == s.len() || s[k + 1] == '\n'))
}

/// The index just behind the line break that begins at `k`.
pub fn skip_break(s: &Vec<char>, k: usize) -> (next: usize)
    requires
        line_ends(s@, k as int),
    ensures
        next == after_break(s@, k as int),
        k <= next <= s@.len(),
{
    if k >= s.len() {
        s.len()
    } else if s[k] == '\n' || k + 1 == s.len() {
        k + 1
    } else {
        k + 2
    }
}

/// Tells whether a line of `s` that consists of `pat` alone begins at `i`.
pub fn has_line_at(s: &Vec<char>, pat: &Vec<char>, i: usize) -> (found: bool)
    ensures
        found == line_at(s@, pat@, i as int),
{
    if !has_at(s, pat, i) {
        return false;
    }
    if i > 0 && s[i - 1] != '\n' {
        return false;
    }
    assert(i + pat@.len() <= s.len());
    line_ends_at(s, i + pat.len())
}

/// The least index at or after `from` where a line of `s` consists of
/// `pat` alone.
pub fn find_line(s: &Vec<char>, pat: &Vec<char>, from: usize) -> (found: Option<usize>)
    ensures
        match found {
            Some(i) => first_line(s@, pat@, from as int) == Some(i as int) && from <= i && line_at(
                s@,
                pat@,
                i as int,
            ),
            None => first_line(s@, pat@, from as int) is None,
        },
{
    if pat.len() > s.len() || from > s.len() - pat.len() {
        return None;
    }
    let last: usize = s.len() - pat.len();
    let mut i: usize = from;
    loop
        invariant
            from <= i <= last,
            last + pat@.len() == s@.len(),
            first_line(s@, pat@, from as int) == first_line(s@, pat@, i as int),
        decreases last - i,
    {
        if has_line_at(s, pat, i) {
            return Some(i);
        }
        if i == last {
            assert(first_line(s@, pat@, i + 1) is None);
            return None;
        }
        i += 1;
    }
}

} // verus!
