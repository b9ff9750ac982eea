//! Text as sequences of characters: searching, splitting, trimming and
//! decimal rendering, each with a mathematical model over `Seq<char>`.

use vstd::prelude::*;

verus! {

/// The views of a sequence of string slices.
pub open spec fn texts(parts: Seq<&str>) -> Seq<Seq<char>> {
    Seq::new(parts.len(), |i: int| parts[i]@)
}

/// The views of a sequence of owned strings.
pub open spec fn strings(parts: Seq<String>) -> Seq<Seq<char>> {
    Seq::new(parts.len(), |i: int| parts[i]@)
}

/// The view of an optional string.
pub open spec fn optional(text: Option<String>) -> Option<Seq<char>> {
    match text {
        Some(t) => Some(t@),
        None => None,
    }
}

/// `pat` occurs in `s` at index `i`.
pub open spec fn occurs_at(s: Seq<char>, pat: Seq<char>, i: int) -> bool {
    0 <= i && i + pat.len() <= s.len() && s.subrange(i, i + pat.len()) == pat
}

/// The index of the leftmost occurrence of `pat` in `s` that starts at or
/// after `from`.
pub open spec fn first_occurrence(s: Seq<char>, pat: Seq<char>, from: int) -> Option<int>
    decreases s.len() - from + 1,
{
    if from < 0 || from + pat.len() > s.len() {
        None
    } else if occurs_at(s, pat, from) {
        Some(from)
    } else {
        first_occurrence(s, pat, from + 1)
    }
}

/// The pieces of `s` between the occurrences of `pat`, taken from left to
/// right without overlap. A text without an occurrence is a single piece.
pub open spec fn split(s: Seq<char>, pat: Seq<char>) -> Seq<Seq<char>>
    decreases s.len(),
{
    match first_occurrence(s, pat, 0) {
        Some(i) => if pat.len() > 0 && 0 <= i && i + pat.len() <= s.len() {
            seq![s.subrange(0, i)] + split(s.subrange(i + pat.len(), s.len() as int), pat)
        } else {
            seq![s]
        },
        None => seq![s],
    }
}

/// The parts joined into one text, with `sep` between neighbours.
pub open spec fn join(parts: Seq<Seq<char>>, sep: Seq<char>) -> Seq<char>
    decreases parts.len(),
{
    if parts.len() == 0 {
        Seq::empty()
    } else if parts.len() == 1 {
        parts[0]
    } else {
        join(parts.drop_last(), sep) + sep + parts.last()
    }
}

/// The characters with the Unicode property `White_Space`.
pub open spec fn is_space(c: char) -> bool {
    let u = c as u32;
    ||| 0x09 <= u <= 0x0D
    ||| u == 0x20
    ||| u == 0x85
    ||| u == 0xA0
    ||| u == 0x1680
    ||| 0x2000 <= u <= 0x200A
    ||| u == 0x2028
    ||| u == 0x2029
    ||| u == 0x202F
    ||| u == 0x205F
    ||| u == 0x3000
}

/// `s` without its leading white space.
pub open spec fn trim_start(s: Seq<char>) -> Seq<char>
    decreases s.len(),
{
    if s.len() > 0 && is_space(s[0]) {
        trim_start(s.drop_first())
    } else {
        s
    }
}

/// `s` without its trailing white space.
pub open spec fn trim_end(s: Seq<char>) -> Seq<char>
    decreases s.len(),
{
    if s.len() > 0 && is_space(s.last()) {
        trim_end(s.drop_last())
    } else {
        s
    }
}

/// `s` without leading and trailing white space.
pub open spec fn trim(s: Seq<char>) -> Seq<char> {
    trim_end(trim_start(s))
}

/// The character of the decimal digit `d`.
pub open spec fn digit(d: int) -> char {
    if d == 0 {
        '0'
    } else if d == 1 {
        '1'
    } else if d == 2 {
        '2'
    } else if d == 3 {
        '3'
    } else if d == 4 {
        '4'
    } else if d == 5 {
        '5'
    } else if d == 6 {
        '6'
    } else if d == 7 {
        '7'
    } else if d == 8 {
        '8'
    } else {
        '9'
    }
}

/// The decimal numeral of `n`, without leading zeros.
pub open spec fn decimal(n: nat) -> Seq<char>
    decreases n,
{
    if n < 10 {
        seq![digit(n as int)]
    } else {
        decimal(n / 10) + seq![digit((n % 10) as int)]
    }
}

/// The decimal numeral of `i`, with a minus sign where it is negative.
pub open spec fn signed_decimal(i: int) -> Seq<char> {
    if i < 0 {
        seq!['-'] + decimal((-i) as nat)
    } else {
        decimal(i as nat)
    }
}

/// What `first_occurrence` finds is an occurrence, nothing occurs before
/// it, and where it finds nothing, nothing occurs.
pub proof fn lemma_first_occurrence(s: Seq<char>, pat: Seq<char>, from: int)
    requires
        0 <= from,
    ensures
        match first_occurrence(s, pat, from) {
            Some(i) => from <= i && occurs_at(s, pat, i) && forall|j: int|
                from <= j < i ==> !occurs_at(s, pat, j),
            None => forall|j: int| from <= j ==> !occurs_at(s, pat, j),
        },
    decreases s.len() - from + 1,
{
    if from + pat.len() > s.len() {
    } else if occurs_at(s, pat, from) {
    } else {
        lemma_first_occurrence(s, pat, from + 1);
    }
}

/// An occurrence that nothing precedes is the one `first_occurrence` finds.
pub proof fn lemma_first_occurrence_is(s: Seq<char>, pat: Seq<char>, from: int, i: int)
    requires
        0 <= from <= i,
        occurs_at(s, pat, i),
        forall|j: int| from <= j < i ==> !occurs_at(s, pat, j),
    ensures
        first_occurrence(s, pat, from) == Some(i),
{
    lemma_first_occurrence(s, pat, from);
}

/// Where nothing occurs, `first_occurrence` finds nothing.
pub proof fn lemma_first_occurrence_none(s: Seq<char>, pat: Seq<char>, from: int)
    requires
        0 <= from,
        forall|j: int| from <= j ==> !occurs_at(s, pat, j),
    ensures
        first_occurrence(s, pat, from) is None,
{
    lemma_first_occurrence(s, pat, from);
}

/// An occurrence in the tail of `s` from `start` is an occurrence in `s`,
/// shifted by `start`.
pub proof fn lemma_occurs_in_tail(s: Seq<char>, pat: Seq<char>, start: int, j: int)
    requires
        0 <= start <= s.len(),
        0 <= j,
    ensures
        occurs_at(s.subrange(start, s.len() as int), pat, j) == occurs_at(s, pat, start + j),
{
    let tail = s.subrange(start, s.len() as int);
    if j + pat.len() <= tail.len() {
        assert(tail.subrange(j, j + pat.len()) =~= s.subrange(start + j, start + j + pat.len()));
    }
}

/// Splitting at the leftmost occurrence: the piece before it, then the
/// pieces of what follows it.
pub proof fn lemma_split_at(s: Seq<char>, pat: Seq<char>, start: int, i: int)
    requires
        pat.len() > 0,
        0 <= start <= i,
        occurs_at(s, pat, i),
        forall|j: int| start <= j < i ==> !occurs_at(s, pat, j),
    ensures
        split(s.subrange(start, s.len() as int), pat) == seq![s.subrange(start, i)] + split(
            s.subrange(i + pat.len(), s.len() as int),
            pat,
        ),
{
    let n = s.len() as int;
    let tail = s.subrange(start, n);
    assert forall|j: int| 0 <= j < i - start implies !occurs_at(tail, pat, j) by {
        lemma_occurs_in_tail(s, pat, start, j);
    }
    lemma_occurs_in_tail(s, pat, start, i - start);
    lemma_first_occurrence_is(tail, pat, 0, i - start);
    assert(tail.subrange(0, i - start) =~= s.subrange(start, i));
    assert(tail.subrange(i - start + pat.len(), tail.len() as int) =~= s.subrange(
        i + pat.len(),
        n,
    ));
}

/// A text in which the pattern does not occur is a single piece.
pub proof fn lemma_split_none(s: Seq<char>, pat: Seq<char>, start: int)
    requires
        0 <= start <= s.len(),
        forall|j: int| start <= j ==> !occurs_at(s, pat, j),
    ensures
        split(s.subrange(start, s.len() as int), pat) == seq![s.subrange(start, s.len() as int)],
{
    let tail = s.subrange(start, s.len() as int);
    assert forall|j: int| 0 <= j implies !occurs_at(tail, pat, j) by {
        lemma_occurs_in_tail(s, pat, start, j);
    }
    lemma_first_occurrence_none(tail, pat, 0);
}

/// Leading white space up to the first other character is what
/// `trim_start` removes.
pub proof fn lemma_trim_start(s: Seq<char>, a: int)
    requires
        0 <= a <= s.len(),
        forall|j: int| 0 <= j < a ==> is_space(s[j]),
        a < s.len() ==> !is_space(s[a]),
    ensures
        trim_start(s) == s.subrange(a, s.len() as int),
    decreases a,
{
    if a == 0 {
        assert(s.subrange(0, s.len() as int) =~= s);
    } else {
        let rest = s.drop_first();
        lemma_trim_start(rest, a - 1);
        assert(rest.subrange(a - 1, rest.len() as int) =~= s.subrange(a, s.len() as int));
    }
}

/// Trailing white space back to the last other character is what
/// `trim_end` removes.
pub proof fn lemma_trim_end(s: Seq<char>, b: int)
    requires
        0 <= b <= s.len(),
        forall|j: int| b <= j < s.len() ==> is_space(s[j]),
        0 < b ==> !is_space(s[b - 1]),
    ensures
        trim_end(s) == s.subrange(0, b),
    decreases s.len() - b,
{
    if b == s.len() {
        assert(s.subrange(0, b) =~= s);
    } else {
        let rest = s.drop_last();
        lemma_trim_end(rest, b);
        assert(rest.subrange(0, b) =~= s.subrange(0, b));
    }
}

/// The characters of `s`, in order.
pub fn chars_of(s: &str) -> (chars: Vec<char>)
    ensures
        chars@ == s@,
{
    let mut chars: Vec<char> = Vec::new();
    for c in it: s.chars()
        invariant
            it.seq() == s@,
            chars@ == s@.subrange(0, it.index()),
    {
        chars.push(c);
    }
    chars
}

/// Tells whether `pat` occurs in `chars` at index `i`.
fn occurs(chars: &Vec<char>, pat: &Vec<char>, i: usize) -> (found: bool)
    requires
        i + pat.len() <= chars.len(),
    ensures
        found == occurs_at(chars@, pat@, i as int),
{
    let m: usize = pat.len();
    let mut k: usize = 0;
    while k < m
        invariant
            m == pat.len(),
            i + m <= chars.len(),
            k <= m,
            forall|j: int| 0 <= j < k ==> chars@[i + j] == pat@[j],
        decreases m - k,
    {
        if chars[i + k] != pat[k] {
            return false;
        }
        k += 1;
    }
    assert(chars@.subrange(i as int, i + m) =~= pat@);
    true
}

/// Tells whether `s` begins with `prefix`.
pub fn starts_with(s: &str, prefix: &str) -> (found: bool)
    ensures
        found == prefix@.is_prefix_of(s@),
{
    let chars = chars_of(s);
    let pat = chars_of(prefix);
    if pat.len() > chars.len() {
        false
    } else {
        occurs(&chars, &pat, 0)
    }
}

/// Tells whether two texts hold the same characters.
pub fn same_text(a: &str, b: &str) -> (same: bool)
    ensures
        same == (a@ == b@),
{
    let left = chars_of(a);
    let right = chars_of(b);
    if left.len() != right.len() {
        false
    } else {
        let found = occurs(&left, &right, 0);
        assert(left@.subrange(0, left@.len() as int) =~= left@);
        found
    }
}

/// Splits `s` at each occurrence of `pat`, from left to right. With an
/// empty pattern the text stays whole.
pub fn split_str<'a>(s: &'a str, pat: &str) -> (parts: Vec<&'a str>)
    ensures
        texts(parts@) == split(s@, pat@),
{
    let chars = chars_of(s);
    let p = chars_of(pat);
    let n: usize = chars.len();
    let m: usize = p.len();
    let mut parts: Vec<&'a str> = Vec::new();
    if m == 0 {
        parts.push(s);
        return parts;
    }
    let mut start: usize = 0;
    let mut i: usize = 0;
    assert(s@.subrange(0, n as int) =~= s@);
    while m <= n - i
        invariant
            chars@ == s@,
            p@ == pat@,
            n == chars.len(),
            m == p.len(),
            m > 0,
            start <= i <= n,
            forall|j: int| start <= j < i ==> !occurs_at(s@, pat@, j),
            split(s@, pat@) == texts(parts@) + split(s@.subrange(start as int, n as int), pat@),
        decreases n - i,
    {
        if occurs(&chars, &p, i) {
            let piece = s.substring_char(start, i);
            proof {
                lemma_split_at(s@, pat@, start as int, i as int);
            }
            parts.push(piece);
            i += m;
            start = i;
        } else {
            i += 1;
        }
    }
    let piece = s.substring_char(start, n);
    proof {
        lemma_split_none(s@, pat@, start as int);
    }
    parts.push(piece);
    parts
}

/// Tells whether `c` is white space.
pub fn is_white_space(c: char) -> (space: bool)
    ensures
        space == is_space(c),
{
    let u: u32 = c as u32;
    (0x09 <= u && u <= 0x0D) || u == 0x20 || u == 0x85 || u == 0xA0 || u == 0x1680 || (0x2000
        <= u && u <= 0x200A) || u == 0x2028 || u == 0x2029 || u == 0x202F || u == 0x205F || u
        == 0x3000
}

/// `s` without leading and trailing white space.
pub fn trimmed<'a>(s: &'a str) -> (t: &'a str)
    ensures
        t@ == trim(s@),
{
    let chars = chars_of(s);
    let n: usize = chars.len();
    let mut a: usize = 0;
    while a < n && is_white_space(chars[a])
        invariant
            n == chars.len(),
            a <= n,
            forall|j: int| 0 <= j < a ==> is_space(chars@[j]),
        decreases n - a,
    {
        a += 1;
    }
    let mut b: usize = n;
    while b > a && is_white_space(chars[b - 1])
        invariant
            n == chars.len(),
            a <= b <= n,
            forall|j: int| b <= j < n ==> is_space(chars@[j]),
        decreases b,
    {
        b -= 1;
    }
    proof {
        lemma_trim_start(s@, a as int);
        let rest = s@.subrange(a as int, n as int);
        lemma_trim_end(rest, b - a);
    }
    s.substring_char(a, b)
}

/// The numeral of one decimal digit.
fn digit_str(d: u64) -> (s: &'static str)
    requires
        d < 10,
    ensures
        s@ == seq![digit(d as int)],
{
    proof {
        reveal_strlit("0");
        reveal_strlit("1");
        reveal_strlit("2");
        reveal_strlit("3");
        reveal_strlit("4");
        reveal_strlit("5");
        reveal_strlit("6");
        reveal_strlit("7");
        reveal_strlit("8");
        reveal_strlit("9");
    }
    let s = if d == 0 {
        "0"
    } else if d == 1 {
        "1"
    } else if d == 2 {
        "2"
    } else if d == 3 {
        "3"
    } else if d == 4 {
        "4"
    } else if d == 5 {
        "5"
    } else if d == 6 {
        "6"
    } else if d == 7 {
        "7"
    } else if d == 8 {
        "8"
    } else {
        "9"
    };
    s
}

/// The decimal numeral of `n`.
pub fn decimal_string(n: u64) -> (s: String)
    ensures
        s@ == decimal(n as nat),
    decreases n,
{
    if n < 10 {
        String::from_str(digit_str(n))
    } else {
        let mut s = decimal_string(n / 10);
        s.append(digit_str(n % 10));
        s
    }
}

/// The decimal numeral of `i`, with its sign.
pub fn signed_string(i: i64) -> (s: String)
    ensures
        s@ == signed_decimal(i as int),
{
    if i < 0 {
        proof {
            reveal_strlit("-");
        }
        let magnitude: u64 = if i == i64::MIN {
            9223372036854775808u64
        } else {
            (-i) as u64
        };
        let mut s = String::from_str("-");
        let digits = decimal_string(magnitude);
        s.append(digits.as_str());
        s
    } else {
        decimal_string(i as u64)
    }
}

} // verus!
