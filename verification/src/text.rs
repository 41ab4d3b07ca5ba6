//! Character-level string helpers: ASCII case folding, substring search,
//! lexicographic order and number formatting.
use vstd::prelude::*;

verus! {

/// The characters of `s`, collected into a vector.
pub fn chars_of(s: &str) -> (res: Vec<char>)
    ensures
        res@ == s@,
{
    let mut res: Vec<char> = Vec::new();
    for c in it: s.chars()
        invariant
            res@ == it.seq().subrange(0, it.index() as int),
    {
        res.push(c);
    }
    res
}

/// The ASCII upper-case form of `c`; other characters are unchanged.
pub open spec fn upper_char(c: char) -> char {
    if 'a' <= c && c <= 'z' {
        ((c as u32) - 32) as char
    } else {
        c
    }
}

/// The ASCII lower-case form of `c`; other characters are unchanged.
pub open spec fn lower_char(c: char) -> char {
    if 'A' <= c && c <= 'Z' {
        ((c as u32) + 32) as char
    } else {
        c
    }
}

pub open spec fn upper_seq(s: Seq<char>) -> Seq<char> {
    s.map_values(|c: char| upper_char(c))
}

pub open spec fn lower_seq(s: Seq<char>) -> Seq<char> {
    s.map_values(|c: char| lower_char(c))
}

/// The ASCII upper-case form of the byte `b`.
pub open spec fn upper_byte(b: u8) -> u8 {
    if 97 <= b && b <= 122 {
        (b - 32) as u8
    } else {
        b
    }
}

/// The ASCII lower-case form of the byte `b`.
pub open spec fn lower_byte(b: u8) -> u8 {
    if 65 <= b && b <= 90 {
        (b + 32) as u8
    } else {
        b
    }
}

/// `needle` occurs in `hay` at position `i`.
pub open spec fn occurs_at<T>(hay: Seq<T>, needle: Seq<T>, i: int) -> bool {
    0 <= i && i + needle.len() <= hay.len() && hay.subrange(i, i + needle.len()) == needle
}

/// `needle` occurs somewhere in `hay`.
pub open spec fn seq_contains<T>(hay: Seq<T>, needle: Seq<T>) -> bool {
    exists|i: int| occurs_at(hay, needle, i)
}

/// `prefix` is a prefix of `s`.
pub open spec fn seq_starts_with<T>(s: Seq<T>, prefix: Seq<T>) -> bool {
    occurs_at(s, prefix, 0)
}

/// Lexicographic order on characters by code point (the order of their UTF-8
/// encodings).
pub open spec fn seq_less(a: Seq<char>, b: Seq<char>) -> bool
    decreases a.len(),
{
    if a.len() == 0 {
        b.len() > 0
    } else if b.len() == 0 {
        false
    } else if a[0] != b[0] {
        (a[0] as u32) < (b[0] as u32)
    } else {
        seq_less(a.drop_first(), b.drop_first())
    }
}

/// No sequence comes before itself.
pub proof fn lemma_seq_less_irreflexive(a: Seq<char>)
    ensures
        !seq_less(a, a),
    decreases a.len(),
{
    if a.len() > 0 {
        lemma_seq_less_irreflexive(a.drop_first());
    }
}

/// The lexicographic order is transitive.
pub proof fn lemma_seq_less_transitive(a: Seq<char>, b: Seq<char>, c: Seq<char>)
    requires
        seq_less(a, b),
        seq_less(b, c),
    ensures
        seq_less(a, c),
    decreases a.len(),
{
    if a.len() > 0 && b.len() > 0 && c.len() > 0 && a[0] == b[0] && b[0] == c[0] {
        lemma_seq_less_transitive(a.drop_first(), b.drop_first(), c.drop_first());
    }
}

fn upper_char_exec(c: char) -> (r: char)
    ensures
        r == upper_char(c),
{
    if 'a' <= c && c <= 'z' {
        let v: u32 = (c as u32) - 32;
        assert(v < 0xD800);
        char_from_u32_small(v)
    } else {
        c
    }
}

fn lower_char_exec(c: char) -> (r: char)
    ensures
        r == lower_char(c),
{
    if 'A' <= c && c <= 'Z' {
        let v: u32 = (c as u32) + 32;
        char_from_u32_small(v)
    } else {
        c
    }
}

/// The character of an ASCII code point.
fn char_from_u32_small(v: u32) -> (r: char)
    requires
        v < 128,
    ensures
        r == v as char,
{
    let b: u8 = v as u8;
    b as char
}

/// Whether `needle` occurs in `hay` at position `i`, comparing after mapping
/// both sides' characters through `fold` (identity, upper or lower case).
fn occurs_at_exec(hay: &Vec<char>, needle: &Vec<char>, i: usize) -> (r: bool)
    requires
        i + needle@.len() <= hay@.len(),
    ensures
        r == occurs_at(hay@, needle@, i as int),
{
    let n = hay.len();
    let mut k: usize = 0;
    while k < needle.len()
        invariant
            n == hay@.len(),
            i + needle@.len() <= hay@.len(),
            k <= needle@.len(),
            forall|j: int| 0 <= j < k ==> hay@[i + j] == needle@[j],
        decreases needle@.len() - k,
    {
        assert(i + k < hay@.len());
        if hay[i + k] != needle[k] {
            assert(hay@.subrange(i as int, i + needle@.len())[k as int] != needle@[k as int]);
            return false;
        }
        k = k + 1;
    }
    assert(hay@.subrange(i as int, i + needle@.len()) =~= needle@);
    true
}

/// Whether `needle` occurs in `hay`.
pub fn vec_contains(hay: &Vec<char>, needle: &Vec<char>) -> (r: bool)
    ensures
        r == seq_contains(hay@, needle@),
{
    if needle.len() > hay.len() {
        assert forall|i: int| !occurs_at(hay@, needle@, i) by {}
        return false;
    }
    let last = hay.len() - needle.len();
    let mut i: usize = 0;
    loop
        invariant
            last == hay@.len() - needle@.len(),
            i <= last,
            forall|j: int| 0 <= j < i ==> !occurs_at(hay@, needle@, j),
        ensures
            forall|j: int| 0 <= j <= last ==> !occurs_at(hay@, needle@, j),
        decreases last - i,
    {
        if occurs_at_exec(hay, needle, i) {
            assert(occurs_at(hay@, needle@, i as int));
            return true;
        }
        if i == last {
            break;
        }
        i = i + 1;
    }
    assert forall|j: int| !occurs_at(hay@, needle@, j) by {
        if 0 <= j <= last {
        }
    }
    false
}

/// Whether `needle` occurs in `hay`.
pub fn str_contains(hay: &str, needle: &str) -> (r: bool)
    ensures
        r == seq_contains(hay@, needle@),
{
    vec_contains(&chars_of(hay), &chars_of(needle))
}

/// The characters of `s` in ASCII upper case.
pub fn upper_chars(s: &str) -> (res: Vec<char>)
    ensures
        res@ == upper_seq(s@),
{
    let chars = chars_of(s);
    let mut res: Vec<char> = Vec::new();
    let mut i: usize = 0;
    while i < chars.len()
        invariant
            chars@ == s@,
            i <= chars@.len(),
            res@ == upper_seq(chars@.subrange(0, i as int)),
        decreases chars@.len() - i,
    {
        res.push(upper_char_exec(chars[i]));
        assert(upper_seq(chars@.subrange(0, i + 1)) =~= upper_seq(chars@.subrange(0, i as int)).push(
            upper_char(chars@[i as int]),
        ));
        i = i + 1;
    }
    assert(chars@.subrange(0, i as int) =~= chars@);
    res
}

/// The characters of `s` in ASCII lower case.
pub fn lower_chars(s: &str) -> (res: Vec<char>)
    ensures
        res@ == lower_seq(s@),
{
    let chars = chars_of(s);
    let mut res: Vec<char> = Vec::new();
    let mut i: usize = 0;
    while i < chars.len()
        invariant
            chars@ == s@,
            i <= chars@.len(),
            res@ == lower_seq(chars@.subrange(0, i as int)),
        decreases chars@.len() - i,
    {
        res.push(lower_char_exec(chars[i]));
        assert(lower_seq(chars@.subrange(0, i + 1)) =~= lower_seq(chars@.subrange(0, i as int)).push(
            lower_char(chars@[i as int]),
        ));
        i = i + 1;
    }
    assert(chars@.subrange(0, i as int) =~= chars@);
    res
}

/// Whether `needle` occurs in the ASCII upper-case form of `hay`.
pub fn upper_contains(hay: &str, needle: &str) -> (r: bool)
    ensures
        r == seq_contains(upper_seq(hay@), needle@),
{
    vec_contains(&upper_chars(hay), &chars_of(needle))
}

/// Whether `s` starts with `prefix`.
pub fn str_starts_with(s: &str, prefix: &str) -> (r: bool)
    ensures
        r == seq_starts_with(s@, prefix@),
{
    let a = chars_of(s);
    let b = chars_of(prefix);
    if b.len() > a.len() {
        false
    } else {
        occurs_at_exec(&a, &b, 0)
    }
}

/// Whether `a` and `b` hold the same characters.
pub fn str_eq(a: &str, b: &str) -> (r: bool)
    ensures
        r == (a@ == b@),
{
    let x = chars_of(a);
    let y = chars_of(b);
    if x.len() != y.len() {
        return false;
    }
    let r = occurs_at_exec(&x, &y, 0);
    proof {
        if r {
            assert(x@ =~= x@.subrange(0, y@.len() as int));
        } else {
            assert(x@.subrange(0, y@.len() as int) =~= x@);
        }
    }
    r
}

/// Whether `a` comes strictly before `b` in code-point order.
pub fn str_less(a: &str, b: &str) -> (r: bool)
    ensures
        r == seq_less(a@, b@),
{
    let x = chars_of(a);
    let y = chars_of(b);
    let mut i: usize = 0;
    assert(x@.subrange(0, x@.len() as int) =~= x@);
    assert(y@.subrange(0, y@.len() as int) =~= y@);
    while i < x.len() && i < y.len()
        invariant
            x@ == a@,
            y@ == b@,
            i <= x@.len(),
            i <= y@.len(),
            x@.subrange(0, i as int) == y@.subrange(0, i as int),
            seq_less(x@, y@) == seq_less(x@.subrange(i as int, x@.len() as int), y@.subrange(i as int, y@.len() as int)),
        decreases x@.len() - i,
    {
        if x[i] != y[i] {
            let ghost xs = x@.subrange(i as int, x@.len() as int);
            let ghost ys = y@.subrange(i as int, y@.len() as int);
            assert(xs[0] == x@[i as int]);
            assert(ys[0] == y@[i as int]);
            assert(xs.len() > 0 && ys.len() > 0);
            assert(seq_less(xs, ys) == ((xs[0] as u32) < (ys[0] as u32)));
            return (x[i] as u32) < (y[i] as u32);
        }
        proof {
            let xs = x@.subrange(i as int, x@.len() as int);
            let ys = y@.subrange(i as int, y@.len() as int);
            assert(xs.drop_first() =~= x@.subrange(i + 1, x@.len() as int));
            assert(ys.drop_first() =~= y@.subrange(i + 1, y@.len() as int));
            assert(x@.subrange(0, i + 1) =~= x@.subrange(0, i as int).push(x@[i as int]));
            assert(y@.subrange(0, i + 1) =~= y@.subrange(0, i as int).push(y@[i as int]));
        }
        i = i + 1;
    }
    y.len() > i
}

/// Whether the byte string `needle` occurs in the ASCII upper-case form of
/// `hay`.
pub fn bytes_upper_contains(hay: &[u8], needle: &[u8]) -> (r: bool)
    ensures
        r == seq_contains(hay@.map_values(|b: u8| upper_byte(b)), needle@),
{
    let mut folded: Vec<u8> = Vec::new();
    let mut i: usize = 0;
    while i < hay.len()
        invariant
            i <= hay@.len(),
            folded@ == hay@.subrange(0, i as int).map_values(|b: u8| upper_byte(b)),
        decreases hay@.len() - i,
    {
        let b = hay[i];
        let u: u8 = if 97 <= b && b <= 122 { b - 32 } else { b };
        folded.push(u);
        assert(hay@.subrange(0, i + 1).map_values(|b: u8| upper_byte(b)) =~= hay@.subrange(0, i as int).map_values(|b: u8| upper_byte(b)).push(upper_byte(b)));
        i = i + 1;
    }
    assert(hay@.subrange(0, i as int) =~= hay@);
    bytes_contains(&folded, needle)
}

/// Whether the byte string `needle` occurs in the ASCII lower-case form of
/// `hay`.
pub fn bytes_lower_contains(hay: &[u8], needle: &[u8]) -> (r: bool)
    ensures
        r == seq_contains(hay@.map_values(|b: u8| lower_byte(b)), needle@),
{
    let mut folded: Vec<u8> = Vec::new();
    let mut i: usize = 0;
    while i < hay.len()
        invariant
            i <= hay@.len(),
            folded@ == hay@.subrange(0, i as int).map_values(|b: u8| lower_byte(b)),
        decreases hay@.len() - i,
    {
        let b = hay[i];
        let l: u8 = if 65 <= b && b <= 90 { b + 32 } else { b };
        folded.push(l);
        assert(hay@.subrange(0, i + 1).map_values(|b: u8| lower_byte(b)) =~= hay@.subrange(0, i as int).map_values(|b: u8| lower_byte(b)).push(lower_byte(b)));
        i = i + 1;
    }
    assert(hay@.subrange(0, i as int) =~= hay@);
    bytes_contains(&folded, needle)
}

/// The bytes of `s`, in ASCII lower case.
pub fn lower_bytes(s: &[u8]) -> (r: Vec<u8>)
    ensures
        r@ == s@.map_values(|b: u8| lower_byte(b)),
{
    let mut folded: Vec<u8> = Vec::new();
    let mut i: usize = 0;
    while i < s.len()
        invariant
            i <= s@.len(),
            folded@ == s@.subrange(0, i as int).map_values(|b: u8| lower_byte(b)),
        decreases s@.len() - i,
    {
        let b = s[i];
        let l: u8 = if 65 <= b && b <= 90 { b + 32 } else { b };
        folded.push(l);
        assert(s@.subrange(0, i + 1).map_values(|b: u8| lower_byte(b)) =~= s@.subrange(0, i as int).map_values(|b: u8| lower_byte(b)).push(lower_byte(b)));
        i = i + 1;
    }
    assert(s@.subrange(0, i as int) =~= s@);
    folded
}

/// Whether the byte string `needle` occurs in `hay`.
pub fn bytes_contains(hay: &[u8], needle: &[u8]) -> (r: bool)
    ensures
        r == seq_contains(hay@, needle@),
{
    if needle.len() > hay.len() {
        assert forall|i: int| !occurs_at(hay@, needle@, i) by {}
        return false;
    }
    let n = hay.len();
    let last = hay.len() - needle.len();
    let mut i: usize = 0;
    loop
        invariant
            n == hay@.len(),
            last == hay@.len() - needle@.len(),
            i <= last,
            forall|j: int| 0 <= j < i ==> !occurs_at(hay@, needle@, j),
        ensures
            forall|j: int| 0 <= j <= last ==> !occurs_at(hay@, needle@, j),
        decreases last - i,
    {
        let mut k: usize = 0;
        let mut matched = true;
        while k < needle.len()
            invariant
                n == hay@.len(),
                i <= last,
                last == hay@.len() - needle@.len(),
                k <= needle@.len(),
                matched ==> forall|j: int| 0 <= j < k ==> hay@[i + j] == needle@[j],
                !matched ==> !occurs_at(hay@, needle@, i as int),
            decreases needle@.len() - k,
        {
            assert(i + k < hay@.len());
            if hay[i + k] != needle[k] {
                assert(hay@.subrange(i as int, i + needle@.len())[k as int] != needle@[k as int]);
                matched = false;
            }
            k = k + 1;
        }
        if matched {
            assert(hay@.subrange(i as int, i + needle@.len()) =~= needle@);
            assert(occurs_at(hay@, needle@, i as int));
            return true;
        }
        if i == last {
            break;
        }
        i = i + 1;
    }
    assert forall|j: int| !occurs_at(hay@, needle@, j) by {
        if 0 <= j <= last {
        }
    }
    false
}

/// Decimal digits of a natural number, most significant first.
pub open spec fn decimal_digits(n: nat) -> Seq<char>
    decreases n,
{
    if n < 10 {
        seq![digit_char(n)]
    } else {
        decimal_digits(n / 10) + seq![digit_char(n % 10)]
    }
}

/// The decimal text of an integer, with a leading `-` when negative.
pub open spec fn decimal_text(v: int) -> Seq<char> {
    if v < 0 {
        seq!['-'] + decimal_digits((-v) as nat)
    } else {
        decimal_digits(v as nat)
    }
}

/// The lower-case hexadecimal digit of `d` (for `d < 16`).
pub open spec fn digit_char(d: nat) -> char {
    if d < 10 {
        ((48 + d) as u32) as char
    } else {
        ((87 + d) as u32) as char
    }
}

/// Four lower-case hexadecimal digits of `v`, zero-padded.
pub open spec fn hex4_text(v: u16) -> Seq<char> {
    seq![
        digit_char((v / 4096) as nat),
        digit_char(((v / 256) % 16) as nat),
        digit_char(((v / 16) % 16) as nat),
        digit_char((v % 16) as nat),
    ]
}

/// The one-character text of a hexadecimal digit.
fn digit_str(d: u32) -> (r: &'static str)
    requires
        d < 16,
    ensures
        r@ == seq![digit_char(d as nat)],
{
    proof {
        reveal_strlit("0");
        reveal_strlit("1");
        reveal_strlit("2");
        reveal_strlit("3");
        reveal_strlit("4");
        reveal_strlit("5");
        reveal_strlit("6");
        reveal_strlit("7");
        reveal_strlit("8");
        reveal_strlit("9");
        reveal_strlit("a");
        reveal_strlit("b");
        reveal_strlit("c");
        reveal_strlit("d");
        reveal_strlit("e");
        reveal_strlit("f");
    }
    let r = if d == 0 {
        "0"
    } else if d == 1 {
        "1"
    } else if d == 2 {
        "2"
    } else if d == 3 {
        "3"
    } else if d == 4 {
        "4"
    } else if d == 5 {
        "5"
    } else if d == 6 {
        "6"
    } else if d == 7 {
        "7"
    } else if d == 8 {
        "8"
    } else if d == 9 {
        "9"
    } else if d == 10 {
        "a"
    } else if d == 11 {
        "b"
    } else if d == 12 {
        "c"
    } else if d == 13 {
        "d"
    } else if d == 14 {
        "e"
    } else {
        "f"
    };
    assert(r@ =~= seq![digit_char(d as nat)]);
    r
}

/// Appends the decimal digits of `n`.
fn append_decimal_digits(s: &mut String, n: u64)
    ensures
        final(s)@ == old(s)@ + decimal_digits(n as nat),
    decreases n,
{
    if n >= 10 {
        append_decimal_digits(s, n / 10);
    }
    s.append(digit_str((n % 10) as u32));
    proof {
        if n >= 10 {
            assert(old(s)@ + decimal_digits((n / 10) as nat) + seq![digit_char((n % 10) as nat)]
                =~= old(s)@ + decimal_digits(n as nat));
        }
    }
}

/// Appends the decimal text of a natural number.
pub fn append_decimal_u64(s: &mut String, n: u64)
    ensures
        final(s)@ == old(s)@ + decimal_text(n as int),
{
    append_decimal_digits(s, n);
}

/// Appends the decimal text of `v`.
pub fn append_decimal(s: &mut String, v: i32)
    ensures
        final(s)@ == old(s)@ + decimal_text(v as int),
{
    if v < 0 {
        proof {
            reveal_strlit("-");
        }
        s.append("-");
        let magnitude: u64 = (0i64 - v as i64) as u64;
        append_decimal_digits(s, magnitude);
        assert(final(s)@ =~= old(s)@ + decimal_text(v as int)) by {
            assert(old(s)@ + seq!['-'] + decimal_digits(magnitude as nat) =~= old(s)@ + (seq!['-']
                + decimal_digits(magnitude as nat)));
        }
    } else {
        append_decimal_digits(s, v as u64);
    }
}

/// Appends four lower-case hexadecimal digits of `v`.
pub fn append_hex4(s: &mut String, v: u16)
    ensures
        final(s)@ == old(s)@ + hex4_text(v),
{
    s.append(digit_str((v / 4096) as u32));
    s.append(digit_str(((v / 256) % 16) as u32));
    s.append(digit_str(((v / 16) % 16) as u32));
    s.append(digit_str((v % 16) as u32));
    assert(final(s)@ =~= old(s)@ + hex4_text(v));
}

} // verus!
