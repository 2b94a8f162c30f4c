use vstd::prelude::*;

verus! {

// Character-level utilities shared by the prompt parser, the configuration
// codec and the message builders. All contracts are stated over `Seq<char>`,
// the view of `String` and `&str`.

/// ASCII lower-casing of one character; everything outside 'A'..'Z' is kept.
pub open spec fn lower_char(c: char) -> char {
    if 'A' <= c && c <= 'Z' {
        ((c as u8) + 32) as char
    } else {
        c
    }
}

/// ASCII lower-casing of a whole sequence.
pub open spec fn lower_seq(s: Seq<char>) -> Seq<char> {
    s.map_values(|c: char| lower_char(c))
}

/// `p` is a prefix of `s`.
pub open spec fn has_prefix(s: Seq<char>, p: Seq<char>) -> bool {
    s.len() >= p.len() && s.subrange(0, p.len() as int) == p
}

/// `p` is a suffix of `s`.
pub open spec fn has_suffix(s: Seq<char>, p: Seq<char>) -> bool {
    s.len() >= p.len() && s.subrange(s.len() - p.len(), s.len() as int) == p
}

/// `n` occurs somewhere inside `s`.
pub open spec fn contains_seq(s: Seq<char>, n: Seq<char>) -> bool {
    exists|i: int| 0 <= i && i + n.len() <= s.len() && #[trigger] s.subrange(i, i + n.len()) == n
}

/// A decimal digit.
pub open spec fn is_digit(c: char) -> bool {
    '0' <= c && c <= '9'
}

/// The character for the digit `d` (meaningful for `d < 10`).
pub open spec fn digit_char(d: nat) -> char {
    ((48 + d) as u8) as char
}

/// The decimal representation of `n`, most significant digit first, no sign,
/// no leading zeros (a single '0' for zero).
pub open spec fn dec_rep(n: nat) -> Seq<char>
    decreases n,
{
    if n < 10 {
        seq![digit_char(n)]
    } else {
        dec_rep(n / 10) + seq![digit_char(n % 10)]
    }
}

/// The numeric value of a digit string, by Horner's rule.
pub open spec fn dec_val(s: Seq<char>) -> nat
    decreases s.len(),
{
    if s.len() == 0 {
        0
    } else {
        dec_val(s.drop_last()) * 10 + (if is_digit(s.last()) {
            (s.last() as nat - 48) as nat
        } else {
            0
        })
    }
}

/// All characters are decimal digits.
pub open spec fn all_digits(s: Seq<char>) -> bool {
    forall|i: int| 0 <= i < s.len() ==> is_digit(#[trigger] s[i])
}

/// Whitespace, as this library trims and tokenizes it: the Unicode
/// white-space set.
pub open spec fn is_ws(c: char) -> bool {
    ||| (c == ' ' || ('\u{0009}' <= c && c <= '\u{000D}'))
    ||| (c == '\u{0085}' || c == '\u{00A0}' || c == '\u{1680}')
    ||| ('\u{2000}' <= c && c <= '\u{200A}')
    ||| (c == '\u{2028}' || c == '\u{2029}')
    ||| (c == '\u{202F}' || c == '\u{205F}' || c == '\u{3000}')
}

/// The whitespace test, for the loops that trim and tokenize.
pub fn is_ws_char(c: char) -> (r: bool)
    ensures
        r == is_ws(c),
{
    (c == ' ' || ('\u{0009}' <= c && c <= '\u{000D}')) || (c == '\u{0085}' || c == '\u{00A0}'
        || c == '\u{1680}') || ('\u{2000}' <= c && c <= '\u{200A}') || (c == '\u{2028}' || c
        == '\u{2029}') || (c == '\u{202F}' || c == '\u{205F}' || c == '\u{3000}')
}

/// `s` with leading whitespace removed.
pub open spec fn trim_front(s: Seq<char>) -> Seq<char>
    decreases s.len(),
{
    if s.len() > 0 && is_ws(s[0]) {
        trim_front(s.drop_first())
    } else {
        s
    }
}

/// `s` with trailing whitespace removed.
pub open spec fn trim_back(s: Seq<char>) -> Seq<char>
    decreases s.len(),
{
    if s.len() > 0 && is_ws(s.last()) {
        trim_back(s.drop_last())
    } else {
        s
    }
}

/// `s` with whitespace removed on both sides.
pub open spec fn spec_trim(s: Seq<char>) -> Seq<char> {
    trim_back(trim_front(s))
}

/// Folding a text into lines: the lines completed so far and the one being
/// read. A '\n' closes the current line and is kept in neither.
pub open spec fn lines_state(s: Seq<char>) -> (Seq<Seq<char>>, Seq<char>)
    decreases s.len(),
{
    if s.len() == 0 {
        (Seq::empty(), Seq::empty())
    } else {
        let (done, cur) = lines_state(s.drop_last());
        if s.last() == '\n' {
            (done.push(cur), Seq::empty())
        } else {
            (done, cur.push(s.last()))
        }
    }
}

/// The lines of `s`: text before/between/after the newlines, in order. A text
/// without a final newline still contributes its last (possibly empty) line.
pub open spec fn spec_lines(s: Seq<char>) -> Seq<Seq<char>> {
    lines_state(s).0.push(lines_state(s).1)
}

/// Splits into lines at '\n'; the separators are kept in no line.
pub fn split_lines(v: &Vec<char>) -> (r: Vec<Vec<char>>)
    ensures
        r@.len() == spec_lines(v@).len(),
        forall|j: int| 0 <= j < r@.len() ==> #[trigger] r@[j]@ == spec_lines(v@)[j],
{
    let vlen = v.len();
    let mut done: Vec<Vec<char>> = Vec::new();
    let mut cur: Vec<char> = Vec::new();
    let mut i: usize = 0;
    proof {
        assert(v@.subrange(0, 0) =~= Seq::<char>::empty());
    }
    while i < vlen
        invariant
            i <= vlen,
            vlen == v@.len(),
            done@.len() == lines_state(v@.subrange(0, i as int)).0.len(),
            forall|j: int|
                0 <= j < done@.len() ==> #[trigger] done@[j]@ == lines_state(
                    v@.subrange(0, i as int),
                ).0[j],
            cur@ == lines_state(v@.subrange(0, i as int)).1,
        decreases vlen - i,
    {
        proof {
            lemma_subrange_step(v@, i as int);
        }
        if v[i] == '\n' {
            done.push(cur);
            cur = Vec::new();
        } else {
            cur.push(v[i]);
        }
        i = i + 1;
    }
    proof {
        assert(v@.subrange(0, vlen as int) =~= v@);
    }
    let mut r = done;
    r.push(cur);
    r
}

/// Folding a text into whitespace-separated tokens: the tokens completed so
/// far and the one being read.
pub open spec fn tokens_state(s: Seq<char>) -> (Seq<Seq<char>>, Seq<char>)
    decreases s.len(),
{
    if s.len() == 0 {
        (Seq::empty(), Seq::empty())
    } else {
        let (done, cur) = tokens_state(s.drop_last());
        if is_ws(s.last()) {
            if cur.len() > 0 {
                (done.push(cur), Seq::empty())
            } else {
                (done, Seq::empty())
            }
        } else {
            (done, cur.push(s.last()))
        }
    }
}

/// The whitespace-separated tokens of `s`, in order, none of them empty.
pub open spec fn spec_tokens(s: Seq<char>) -> Seq<Seq<char>> {
    if tokens_state(s).1.len() > 0 {
        tokens_state(s).0.push(tokens_state(s).1)
    } else {
        tokens_state(s).0
    }
}

/// The second whitespace-separated token, when there is one.
pub open spec fn second_token(s: Seq<char>) -> Option<Seq<char>> {
    if spec_tokens(s).len() >= 2 {
        Some(spec_tokens(s)[1])
    } else {
        None
    }
}

/// Splits at whitespace; empty tokens are dropped.
pub fn split_tokens(v: &Vec<char>) -> (r: Vec<Vec<char>>)
    ensures
        r@.len() == spec_tokens(v@).len(),
        forall|j: int| 0 <= j < r@.len() ==> #[trigger] r@[j]@ == spec_tokens(v@)[j],
{
    let vlen = v.len();
    let mut done: Vec<Vec<char>> = Vec::new();
    let mut cur: Vec<char> = Vec::new();
    let mut i: usize = 0;
    proof {
        assert(v@.subrange(0, 0) =~= Seq::<char>::empty());
    }
    while i < vlen
        invariant
            i <= vlen,
            vlen == v@.len(),
            done@.len() == tokens_state(v@.subrange(0, i as int)).0.len(),
            forall|j: int|
                0 <= j < done@.len() ==> #[trigger] done@[j]@ == tokens_state(
                    v@.subrange(0, i as int),
                ).0[j],
            cur@ == tokens_state(v@.subrange(0, i as int)).1,
        decreases vlen - i,
    {
        proof {
            lemma_subrange_step(v@, i as int);
        }
        let c = v[i];
        if is_ws_char(c) {
            if cur.len() > 0 {
                done.push(cur);
                cur = Vec::new();
            }
        } else {
            cur.push(c);
        }
        i = i + 1;
    }
    proof {
        assert(v@.subrange(0, vlen as int) =~= v@);
    }
    if cur.len() > 0 {
        let mut r = done;
        r.push(cur);
        r
    } else {
        done
    }
}

/// Do two character vectors hold the same characters?
pub fn chars_eq(a: &Vec<char>, b: &Vec<char>) -> (r: bool)
    ensures
        r == (a@ == b@),
{
    if a.len() != b.len() {
        proof {
            assert(a@ != b@);
        }
        return false;
    }
    let n = a.len();
    let mut i: usize = 0;
    while i < n
        invariant
            i <= n,
            n == a@.len() && n == b@.len(),
            forall|j: int| 0 <= j < i ==> a@[j] == b@[j],
        decreases n - i,
    {
        if a[i] != b[i] {
            return false;
        }
        i = i + 1;
    }
    proof {
        assert(a@ =~= b@);
    }
    true
}

/// A copy of `v[from..to]`.
pub fn subvec(v: &Vec<char>, from: usize, to: usize) -> (r: Vec<char>)
    requires
        from <= to <= v@.len(),
    ensures
        r@ == v@.subrange(from as int, to as int),
{
    let mut r: Vec<char> = Vec::new();
    let mut i = from;
    proof {
        assert(r@ =~= v@.subrange(from as int, from as int));
    }
    while i < to
        invariant
            from <= i <= to <= v@.len(),
            r@ == v@.subrange(from as int, i as int),
        decreases to - i,
    {
        r.push(v[i]);
        i = i + 1;
        proof {
            assert(r@ =~= v@.subrange(from as int, i as int));
        }
    }
    r
}

/// Stepping a prefix by one character, for loops that fold over a sequence.
pub proof fn lemma_subrange_step(s: Seq<char>, i: int)
    requires
        0 <= i < s.len(),
    ensures
        s.subrange(0, i + 1).drop_last() == s.subrange(0, i),
        s.subrange(0, i + 1).last() == s[i],
{
    assert(s.subrange(0, i + 1).drop_last() =~= s.subrange(0, i));
}

/// The characters of `s`, in order, as a vector.
pub fn str_to_chars(s: &str) -> (r: Vec<char>)
    ensures
        r@ == s@,
{
    let len = s.unicode_len();
    let mut r: Vec<char> = Vec::new();
    let mut i: usize = 0;
    while i < len
        invariant
            i <= len,
            len == s@.len(),
            r@ == s@.subrange(0, i as int),
        decreases len - i,
    {
        r.push(s.get_char(i));
        i = i + 1;
        proof {
            assert(r@ =~= s@.subrange(0, i as int));
        }
    }
    proof {
        assert(r@ =~= s@);
    }
    r
}

/// Do a string and an (ASCII) literal hold the same characters?
pub fn string_eq_lit(s: &String, p: &str) -> (r: bool)
    ensures
        r == (s@ == p@),
{
    let chars = str_to_chars(s.as_str());
    let plen = p.unicode_len();
    if chars.len() != plen {
        proof {
            assert(s@ != p@);
        }
        return false;
    }
    if starts_with_lit(&chars, p) {
        proof {
            assert(s@ =~= p@);
        }
        true
    } else {
        proof {
            assert(s@ != p@) by {
                if s@ == p@ {
                    assert(s@.subrange(0, p@.len() as int) =~= p@);
                }
            }
        }
        false
    }
}

/// Do two (ASCII) string slices hold the same characters?
pub fn str_eq_lit(s: &str, p: &str) -> (r: bool)
    ensures
        r == (s@ == p@),
{
    let chars = str_to_chars(s);
    let plen = p.unicode_len();
    if chars.len() != plen {
        proof {
            assert(s@ != p@);
        }
        return false;
    }
    if starts_with_lit(&chars, p) {
        proof {
            assert(s@ =~= p@);
        }
        true
    } else {
        proof {
            assert(s@ != p@) by {
                if s@ == p@ {
                    assert(s@.subrange(0, p@.len() as int) =~= p@);
                }
            }
        }
        false
    }
}

/// Relies on `String`'s `FromIterator<char>` impl from std: collecting the
/// characters of a vector yields the string of exactly those characters.
#[verifier::external_body]
pub fn chars_to_string(v: &Vec<char>) -> (r: String)
    ensures
        r@ == v@,
{
    v.iter().collect()
}

/// ASCII lower-casing, one character.
pub fn to_lower_char(c: char) -> (r: char)
    ensures
        r == lower_char(c),
{
    if 'A' <= c && c <= 'Z' {
        ((c as u8) + 32) as char
    } else {
        c
    }
}

/// ASCII lower-casing of a character vector.
pub fn to_lower_chars(v: &Vec<char>) -> (r: Vec<char>)
    ensures
        r@ == lower_seq(v@),
{
    let mut r: Vec<char> = Vec::new();
    let mut i: usize = 0;
    while i < v.len()
        invariant
            i <= v@.len(),
            r@ == lower_seq(v@.subrange(0, i as int)),
        decreases v@.len() - i,
    {
        r.push(to_lower_char(v[i]));
        i = i + 1;
        proof {
            assert(r@ =~= lower_seq(v@.subrange(0, i as int)));
        }
    }
    proof {
        assert(v@.subrange(0, v@.len() as int) =~= v@);
    }
    r
}

/// Does the character vector start with the (ASCII) pattern `p`?
pub fn starts_with_lit(v: &Vec<char>, p: &str) -> (r: bool)
    ensures
        r == has_prefix(v@, p@),
{
    let plen = p.unicode_len();
    if v.len() < plen {
        proof {
            assert(!has_prefix(v@, p@));
        }
        return false;
    }
    let mut i: usize = 0;
    while i < plen
        invariant
            i <= plen,
            plen == p@.len(),
            v@.len() >= plen,
            forall|j: int| 0 <= j < i ==> v@[j] == p@[j],
        decreases plen - i,
    {
        if v[i] != p.get_char(i) {
            proof {
                assert(v@.subrange(0, p@.len() as int)[i as int] != p@[i as int]);
            }
            return false;
        }
        i = i + 1;
    }
    proof {
        assert(v@.subrange(0, p@.len() as int) =~= p@);
    }
    true
}

/// Does the character vector end with the (ASCII) pattern `p`?
pub fn ends_with_lit(v: &Vec<char>, p: &str) -> (r: bool)
    ensures
        r == has_suffix(v@, p@),
{
    let plen = p.unicode_len();
    if v.len() < plen {
        proof {
            assert(!has_suffix(v@, p@));
        }
        return false;
    }
    let vlen = v.len();
    let off = vlen - plen;
    let mut i: usize = 0;
    while i < plen
        invariant
            i <= plen,
            plen == p@.len(),
            vlen == v@.len(),
            vlen >= plen,
            off == vlen - plen,
            forall|j: int| 0 <= j < i ==> v@[off + j] == p@[j],
        decreases plen - i,
    {
        if v[off + i] != p.get_char(i) {
            proof {
                assert(v@.subrange(v@.len() - p@.len(), v@.len() as int)[i as int] != p@[i as int]);
            }
            return false;
        }
        i = i + 1;
    }
    proof {
        assert(v@.subrange(v@.len() - p@.len(), v@.len() as int) =~= p@);
    }
    true
}

/// The decimal representation of `n` as characters.
pub fn u64_to_dec_chars(n: u64) -> (r: Vec<char>)
    ensures
        r@ == dec_rep(n as nat),
{
    let mut digits: Vec<char> = Vec::new();
    let mut m = n;
    proof {
        assert(dec_rep(n as nat) =~= dec_rep(m as nat) + digits@);
    }
    while m >= 10
        invariant
            dec_rep(n as nat) == dec_rep(m as nat) + digits@,
        decreases m,
    {
        let d = (m % 10) as u8;
        digits.insert(0, (48 + d) as char);
        m = m / 10;
        proof {
            assert(dec_rep(n as nat) =~= dec_rep(m as nat) + digits@);
        }
    }
    let d = m as u8;
    digits.insert(0, (48 + d) as char);
    proof {
        assert(dec_rep(n as nat) =~= digits@);
    }
    digits
}

/// The decimal representation of `n` as a string.
pub fn u64_to_string(n: u64) -> (r: String)
    ensures
        r@ == dec_rep(n as nat),
{
    let digits = u64_to_dec_chars(n);
    chars_to_string(&digits)
}

/// The value of a digit string never shrinks when more digits follow.
proof fn lemma_dec_val_prefix(s: Seq<char>, i: int)
    requires
        0 <= i <= s.len(),
    ensures
        dec_val(s) >= dec_val(s.subrange(0, i)),
    decreases s.len() - i,
{
    if i == s.len() {
        assert(s.subrange(0, i) =~= s);
    } else {
        lemma_dec_val_prefix(s, i + 1);
        lemma_subrange_step(s, i);
        assert(dec_val(s.subrange(0, i + 1)) >= dec_val(s.subrange(0, i)))
            by (nonlinear_arith)
            requires
                dec_val(s.subrange(0, i + 1)) == dec_val(s.subrange(0, i)) * 10 + (
                if is_digit(s[i]) {
                    (s[i] as nat - 48) as nat
                } else {
                    0
                }),
        ;
    }
}

/// Parses a decimal `u32`. Returns the value exactly when the text is a
/// non-empty, all-digit string whose value fits in a `u32`.
pub fn parse_u32_chars(v: &Vec<char>) -> (r: Option<u32>)
    ensures
        r is Some <==> v@.len() > 0 && all_digits(v@) && dec_val(v@) <= u32::MAX,
        r is Some ==> r == Some((dec_val(v@) as u32)),
{
    match parse_u64_bounded(v, 0xffff_ffff) {
        Some(x) => Some(x as u32),
        None => None,
    }
}

/// The decimal representation really is all digits and evaluates back to its
/// number.
pub proof fn lemma_dec_rep_val(n: nat)
    ensures
        all_digits(dec_rep(n)),
        dec_val(dec_rep(n)) == n,
        dec_rep(n).len() >= 1,
    decreases n,
{
    if n < 10 {
        let s = seq![digit_char(n)];
        assert(is_digit(digit_char(n)));
        assert(dec_rep(n) == s);
        assert(s.drop_last() =~= Seq::<char>::empty());
        assert(digit_char(n) as nat == 48 + n);
        assert(dec_val(Seq::<char>::empty()) == 0);
        assert(dec_val(s) == n);
    } else {
        lemma_dec_rep_val(n / 10);
        let s = dec_rep(n / 10);
        let d = digit_char(n % 10);
        assert((s + seq![d]).drop_last() =~= s);
        assert((s + seq![d]).last() == d);
        assert(is_digit(d));
        assert(dec_val(s + seq![d]) == dec_val(s) * 10 + n % 10);
        assert(n / 10 * 10 + n % 10 == n);
        assert(all_digits(s + seq![d]));
    }
}

/// The signed decimal representation of `n`.
pub open spec fn enc_i64_spec(n: int) -> Seq<char> {
    if n < 0 {
        seq!['-'] + dec_rep((-n) as nat)
    } else {
        dec_rep(n as nat)
    }
}

/// The signed decimal representation of `n` as a string.
pub fn i64_to_string(n: i64) -> (r: String)
    ensures
        r@ == enc_i64_spec(n as int),
{
    if n >= 0 {
        u64_to_string(n as u64)
    } else {
        let m: u64 = ((-(n + 1)) as u64) + 1;
        let mut digits = u64_to_dec_chars(m);
        digits.insert(0, '-');
        proof {
            assert(digits@ =~= enc_i64_spec(n as int));
        }
        chars_to_string(&digits)
    }
}

/// The value of a signed decimal string, if it is one and fits in an `i64`:
/// an optional '-', then at least one digit.
pub open spec fn spec_parse_i64(s: Seq<char>) -> Option<int> {
    if s.len() > 0 && s[0] == '-' {
        let rest = s.subrange(1, s.len() as int);
        if rest.len() > 0 && all_digits(rest) && dec_val(rest) <= 0x8000_0000_0000_0000 {
            Some(-(dec_val(rest) as int))
        } else {
            None
        }
    } else if s.len() > 0 && all_digits(s) && dec_val(s) <= 0x7fff_ffff_ffff_ffff {
        Some(dec_val(s) as int)
    } else {
        None
    }
}

/// Parses digits with a given cap on the value.
fn parse_u64_bounded(v: &Vec<char>, max: u64) -> (r: Option<u64>)
    ensures
        r is Some <==> v@.len() > 0 && all_digits(v@) && dec_val(v@) <= max,
        r is Some ==> r == Some((dec_val(v@) as u64)),
{
    if v.len() == 0 {
        return None;
    }
    let mut acc: u64 = 0;
    let mut i: usize = 0;
    let vlen = v.len();
    while i < vlen
        invariant
            0 < vlen == v@.len(),
            i <= vlen,
            all_digits(v@.subrange(0, i as int)),
            acc == dec_val(v@.subrange(0, i as int)),
            acc <= max,
        decreases vlen - i,
    {
        let c = v[i];
        if c < '0' || c > '9' {
            proof {
                assert(!is_digit(v@[i as int]));
            }
            return None;
        }
        let d = (c as u8) - 48;
        proof {
            lemma_subrange_step(v@, i as int);
        }
        if acc > max / 10 || (acc == max / 10 && (d as u64) > max % 10) {
            proof {
                assert(all_digits(v@.subrange(0, i + 1)));
                assert(dec_val(v@.subrange(0, i + 1)) > max) by (nonlinear_arith)
                    requires
                        dec_val(v@.subrange(0, i + 1)) == acc * 10 + d,
                        acc > max / 10 || (acc == max / 10 && d > max % 10),
                        max == max / 10 * 10 + max % 10,
                        0 <= d,
                        0 <= acc,
                ;
                if all_digits(v@) && dec_val(v@) <= max {
                    lemma_dec_val_prefix(v@, i + 1);
                }
            }
            return None;
        }
        acc = acc * 10 + (d as u64);
        i = i + 1;
    }
    proof {
        assert(v@.subrange(0, vlen as int) =~= v@);
    }
    Some(acc)
}

/// Parses a signed decimal `i64`. Returns the value exactly when the text is
/// an optional '-' followed by a non-empty, all-digit string whose value fits.
pub fn parse_i64_chars(v: &Vec<char>) -> (r: Option<i64>)
    ensures
        match spec_parse_i64(v@) {
            Some(x) => r matches Some(y) && y as int == x,
            None => r is None,
        },
{
    if v.len() == 0 {
        return None;
    }
    if v[0] == '-' {
        let rest = subvec(v, 1, v.len());
        match parse_u64_bounded(&rest, 0x8000_0000_0000_0000) {
            Some(m) => {
                if m == 0x8000_0000_0000_0000 {
                    Some(i64::MIN)
                } else {
                    Some(-(m as i64))
                }
            },
            None => None,
        }
    } else {
        match parse_u64_bounded(v, 0x7fff_ffff_ffff_ffff) {
            Some(m) => Some(m as i64),
            None => None,
        }
    }
}

/// `v` with surrounding whitespace removed.
pub fn trim_chars(v: &Vec<char>) -> (r: Vec<char>)
    ensures
        r@ == spec_trim(v@),
{
    let vlen = v.len();
    let mut lo: usize = 0;
    proof {
        assert(v@.subrange(0, vlen as int) =~= v@);
    }
    while lo < vlen && is_ws_char(v[lo])
        invariant
            vlen == v@.len(),
            lo <= vlen,
            trim_front(v@) == trim_front(v@.subrange(lo as int, vlen as int)),
        decreases vlen - lo,
    {
        proof {
            assert(v@.subrange(lo as int, vlen as int).drop_first() =~= v@.subrange(
                lo + 1,
                vlen as int,
            ));
        }
        lo = lo + 1;
    }
    let mut hi: usize = vlen;
    proof {
        if lo == vlen {
            assert(trim_front(v@) =~= v@.subrange(lo as int, vlen as int));
        } else {
            assert(trim_front(v@) =~= v@.subrange(lo as int, vlen as int));
        }
    }
    while hi > lo && is_ws_char(v[hi - 1])
        invariant
            vlen == v@.len(),
            lo <= hi <= vlen,
            trim_front(v@) == v@.subrange(lo as int, vlen as int),
            spec_trim(v@) == trim_back(v@.subrange(lo as int, hi as int)),
        decreases hi,
    {
        proof {
            assert(v@.subrange(lo as int, hi as int).drop_last() =~= v@.subrange(
                lo as int,
                hi - 1,
            ));
        }
        hi = hi - 1;
    }
    let mut r: Vec<char> = Vec::new();
    let mut i: usize = lo;
    while i < hi
        invariant
            lo <= i <= hi <= v@.len(),
            r@ == v@.subrange(lo as int, i as int),
        decreases hi - i,
    {
        r.push(v[i]);
        i = i + 1;
        proof {
            assert(r@ =~= v@.subrange(lo as int, i as int));
        }
    }
    proof {
        if hi == lo {
            assert(trim_back(v@.subrange(lo as int, hi as int)) =~= v@.subrange(
                lo as int,
                hi as int,
            ));
        } else {
            assert(trim_back(v@.subrange(lo as int, hi as int)) =~= v@.subrange(
                lo as int,
                hi as int,
            ));
        }
    }
    r
}

/// Does the (ASCII) pattern `p` occur anywhere in the character vector?
pub fn contains_lit(v: &Vec<char>, p: &str) -> (r: bool)
    ensures
        r == contains_seq(v@, p@),
{
    let plen = p.unicode_len();
    if plen > v.len() {
        proof {
            assert(!contains_seq(v@, p@));
        }
        return false;
    }
    if plen == 0 {
        proof {
            assert(v@.subrange(0, 0 + p@.len() as int) =~= p@);
            assert(contains_seq(v@, p@));
        }
        return true;
    }
    let vlen = v.len();
    let last = vlen - plen;
    let mut start: usize = 0;
    while start <= last
        invariant
            vlen == v@.len(),
            plen == p@.len(),
            0 < plen <= vlen,
            last == vlen - plen,
            start <= last + 1,
            forall|i: int| 0 <= i < start ==> #[trigger] v@.subrange(i, i + p@.len()) != p@,
        decreases last + 1 - start,
    {
        let mut i: usize = 0;
        let mut matched = true;
        while i < plen && matched
            invariant
                i <= plen,
                plen == p@.len(),
                vlen == v@.len(),
                start + plen <= vlen,
                matched ==> forall|j: int| 0 <= j < i ==> v@[start + j] == p@[j],
                !matched ==> v@.subrange(start as int, start + p@.len()) != p@,
            decreases plen - i,
        {
            if v[start + i] != p.get_char(i) {
                matched = false;
                proof {
                    assert(v@.subrange(start as int, start + p@.len())[i as int] != p@[i as int]);
                }
            }
            i = i + 1;
        }
        if matched {
            proof {
                assert(v@.subrange(start as int, start + p@.len()) =~= p@);
                assert(contains_seq(v@, p@));
            }
            return true;
        }
        start = start + 1;
    }
    proof {
        assert forall|i: int| 0 <= i && i + p@.len() <= v@.len() implies #[trigger] v@.subrange(
            i,
            i + p@.len(),
        ) != p@ by {
            assert(i < start);
        }
    }
    false
}

} // verus!
