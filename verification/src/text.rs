//! The command grammar, over plain character sequences: whitespace trimming,
//! ASCII lowercasing, splitting into tokens, and the two numeric literals
//! the commands use — a fixed-point decimal carried in thousandths, and a
//! small whole number.

use vstd::prelude::*;

verus! {

/// The whitespace the command grammar knows.
pub open spec fn is_space_char(c: char) -> bool {
    c == ' ' || c == '\t' || c == '\n' || c == '\r'
}

/// One character, ASCII-lowercased.
pub open spec fn lower_char(c: char) -> char {
    if 'A' <= c && c <= 'Z' {
        ((c as u8) + 32) as char
    } else {
        c
    }
}

/// A whole sequence, ASCII-lowercased.
pub open spec fn lowered(s: Seq<char>) -> Seq<char> {
    s.map_values(|c: char| lower_char(c))
}

/// The sequence without its leading whitespace.
pub open spec fn trimmed_start(s: Seq<char>) -> Seq<char>
    decreases s.len(),
{
    if s.len() > 0 && is_space_char(s[0]) {
        trimmed_start(s.drop_first())
    } else {
        s
    }
}

/// The sequence without its trailing whitespace.
pub open spec fn trimmed_end(s: Seq<char>) -> Seq<char>
    decreases s.len(),
{
    if s.len() > 0 && is_space_char(s.last()) {
        trimmed_end(s.drop_last())
    } else {
        s
    }
}

/// The sequence without leading and trailing whitespace.
pub open spec fn trimmed(s: Seq<char>) -> Seq<char> {
    trimmed_end(trimmed_start(s))
}

/// A left-to-right scan for tokens: the tokens finished so far and the run
/// of non-space characters still open.
pub open spec fn token_scan(s: Seq<char>) -> (Seq<Seq<char>>, Seq<char>)
    decreases s.len(),
{
    if s.len() == 0 {
        (Seq::<Seq<char>>::empty(), Seq::<char>::empty())
    } else {
        let (done, cur) = token_scan(s.drop_last());
        if is_space_char(s.last()) {
            if cur.len() == 0 {
                (done, cur)
            } else {
                (done.push(cur), Seq::<char>::empty())
            }
        } else {
            (done, cur.push(s.last()))
        }
    }
}

/// The tokens of a command: its maximal runs of non-space characters, in
/// order.
pub open spec fn tokens_of(s: Seq<char>) -> Seq<Seq<char>> {
    let (done, cur) = token_scan(s);
    if cur.len() == 0 {
        done
    } else {
        done.push(cur)
    }
}

/// The views of a vector of character vectors.
pub open spec fn views_of(toks: Seq<Vec<char>>) -> Seq<Seq<char>> {
    toks.map_values(|t: Vec<char>| t@)
}

/// Whether the character is one of the grammar's whitespace characters.
pub fn is_space(c: char) -> (b: bool)
    ensures
        b == is_space_char(c),
{
    c == ' ' || c == '\t' || c == '\n' || c == '\r'
}

/// ASCII-lowercase one character.
pub fn to_lower(c: char) -> (r: char)
    ensures
        r == lower_char(c),
{
    if 'A' <= c && c <= 'Z' {
        ((c as u8) + 32) as char
    } else {
        c
    }
}

/// ASCII-lowercase a whole buffer.
pub fn lowercase(s: &Vec<char>) -> (r: Vec<char>)
    ensures
        r@ == lowered(s@),
{
    let mut r: Vec<char> = Vec::new();
    let mut i: usize = 0;
    while i < s.len()
        invariant
            i <= s@.len(),
            r@ =~= lowered(s@.take(i as int)),
        decreases s@.len() - i,
    {
        r.push(to_lower(s[i]));
        i = i + 1;
        proof {
            assert(s@.take(i as int).drop_last() =~= s@.take(i - 1));
            assert(r@ =~= lowered(s@.take(i as int)));
        }
    }
    proof {
        assert(s@.take(s@.len() as int) =~= s@);
    }
    r
}

/// Copy out the buffer without its leading and trailing whitespace.
pub fn trim(s: &Vec<char>) -> (r: Vec<char>)
    ensures
        r@ == trimmed(s@),
{
    let mut a: usize = 0;
    proof {
        assert(s@.skip(0) =~= s@);
    }
    while a < s.len() && is_space(s[a])
        invariant
            a <= s@.len(),
            trimmed_start(s@) == trimmed_start(s@.skip(a as int)),
        decreases s@.len() - a,
    {
        proof {
            assert(s@.skip(a as int).drop_first() =~= s@.skip(a as int + 1));
        }
        a = a + 1;
    }
    proof {
        if a < s@.len() {
            assert(!is_space_char(s@.skip(a as int)[0]));
        }
        assert(trimmed_start(s@) == s@.skip(a as int));
    }
    let mut b: usize = s.len();
    while b > a && is_space(s[b - 1])
        invariant
            a <= b <= s@.len(),
            trimmed_start(s@) == s@.skip(a as int),
            trimmed_end(s@.skip(a as int)) == trimmed_end(s@.subrange(a as int, b as int)),
        decreases b,
    {
        proof {
            let part = s@.subrange(a as int, b as int);
            assert(part.last() == s@[b - 1]);
            assert(part.drop_last() =~= s@.subrange(a as int, b as int - 1));
        }
        b = b - 1;
    }
    proof {
        assert(s@.subrange(a as int, s@.len() as int) =~= s@.skip(a as int));
        let part = s@.subrange(a as int, b as int);
        if b > a {
            assert(!is_space_char(part.last()));
        }
        assert(trimmed_end(part) == part);
    }
    let mut r: Vec<char> = Vec::new();
    let mut i: usize = a;
    while i < b
        invariant
            a <= i <= b <= s@.len(),
            r@ =~= s@.subrange(a as int, i as int),
        decreases b - i,
    {
        r.push(s[i]);
        i = i + 1;
    }
    proof {
        assert(r@ =~= s@.subrange(a as int, b as int));
    }
    r
}

/// Split the buffer into its tokens.
pub fn tokenize(s: &Vec<char>) -> (toks: Vec<Vec<char>>)
    ensures
        views_of(toks@) == tokens_of(s@),
{
    let mut done: Vec<Vec<char>> = Vec::new();
    let mut cur: Vec<char> = Vec::new();
    let mut i: usize = 0;
    while i < s.len()
        invariant
            i <= s@.len(),
            views_of(done@) =~= token_scan(s@.take(i as int)).0,
            cur@ =~= token_scan(s@.take(i as int)).1,
        decreases s@.len() - i,
    {
        let ghost pre = s@.take(i as int);
        let c = s[i];
        if is_space(c) {
            if cur.len() > 0 {
                done.push(cur);
                cur = Vec::new();
            }
        } else {
            cur.push(c);
        }
        i = i + 1;
        proof {
            assert(s@.take(i as int).drop_last() =~= pre);
            assert(s@.take(i as int).last() == c);
            assert(views_of(done@) =~= token_scan(s@.take(i as int)).0);
            assert(cur@ =~= token_scan(s@.take(i as int)).1);
        }
    }
    proof {
        assert(s@.take(s@.len() as int) =~= s@);
    }
    if cur.len() > 0 {
        done.push(cur);
    }
    proof {
        assert(views_of(done@) =~= tokens_of(s@));
    }
    done
}

/// What `char::is_alphanumeric` returns: a fixed classification of the
/// character.
pub uninterp spec fn char_is_alphanumeric(c: char) -> bool;

/// Relies on char::is_alphanumeric: whether the character is a letter or a
/// digit under Unicode's classification — a pure function of the character,
/// with the ASCII letters and digits always inside it.
pub assume_specification[ char::is_alphanumeric ](c: char) -> (r: bool)
    ensures
        r == char_is_alphanumeric(c),
        ('a' <= c && c <= 'z') || ('A' <= c && c <= 'Z') || ('0' <= c && c <= '9') ==> r,
;

/// Whether two character buffers hold the same characters.
pub fn token_eq(t: &Vec<char>, kw: &Vec<char>) -> (b: bool)
    ensures
        b == (t@ == kw@),
{
    if t.len() != kw.len() {
        proof {
            assert(t@ != kw@) by {
                if t@ == kw@ {
                    assert(t@.len() == kw@.len());
                }
            }
        }
        return false;
    }
    let mut i: usize = 0;
    while i < t.len()
        invariant
            i <= t@.len(),
            t@.len() == kw@.len(),
            forall|k: int| 0 <= k < i ==> t@[k] == kw@[k],
        decreases t@.len() - i,
    {
        if t[i] != kw[i] {
            return false;
        }
        i = i + 1;
    }
    proof {
        assert(t@ =~= kw@);
    }
    true
}

/// All characters are decimal digits.
pub open spec fn all_digits(s: Seq<char>) -> bool {
    forall|i: int| 0 <= i < s.len() ==> '0' <= #[trigger] s[i] && s[i] <= '9'
}

/// The value of a digit run, most significant digit first.
pub open spec fn digits_value(s: Seq<char>) -> int
    decreases s.len(),
{
    if s.len() == 0 {
        0
    } else {
        digits_value(s.drop_last()) * 10 + (s.last() as int - '0' as int)
    }
}

/// The index of the first dot, or the length if there is none.
pub open spec fn first_dot(s: Seq<char>) -> int
    decreases s.len(),
{
    if s.len() == 0 {
        0
    } else if s[0] == '.' {
        0
    } else {
        1 + first_dot(s.drop_first())
    }
}

/// Thousandths contributed by the fraction's digits: the first three weigh
/// 100, 10 and 1; anything finer is cut.
pub open spec fn frac_milli(s: Seq<char>) -> int {
    let d0 = if s.len() > 0 { s[0] as int - '0' as int } else { 0 };
    let d1 = if s.len() > 1 { s[1] as int - '0' as int } else { 0 };
    let d2 = if s.len() > 2 { s[2] as int - '0' as int } else { 0 };
    d0 * 100 + d1 * 10 + d2
}

/// The value, in thousandths, of a decimal literal: an optional sign, then
/// digits, optionally a dot and further digits; at least one digit in all,
/// at most fifteen before the dot. `None` when the literal has another
/// shape.
pub open spec fn milli_of(s: Seq<char>) -> Option<int> {
    let neg = s.len() > 0 && s[0] == '-';
    let body = if s.len() > 0 && (s[0] == '-' || s[0] == '+') {
        s.drop_first()
    } else {
        s
    };
    let d = first_dot(body);
    let ip = body.take(d);
    let fp = if d < body.len() {
        body.skip(d + 1)
    } else {
        Seq::<char>::empty()
    };
    if all_digits(ip) && all_digits(fp) && ip.len() <= 15 && ip.len() + fp.len() >= 1 {
        let magnitude = digits_value(ip) * 1000 + frac_milli(fp);
        Some(
            if neg {
                -magnitude
            } else {
                magnitude
            },
        )
    } else {
        None
    }
}

/// The value of a small whole-number literal: an optional plus sign, then
/// digits, value at most 255.
pub open spec fn whole_byte_of(s: Seq<char>) -> Option<int> {
    let body = if s.len() > 0 && s[0] == '+' {
        s.drop_first()
    } else {
        s
    };
    if body.len() >= 1 && all_digits(body) && digits_value(body) <= 255 {
        Some(digits_value(body))
    } else {
        None
    }
}

/// Powers of ten.
pub open spec fn ten_pow(n: nat) -> int
    decreases n,
{
    if n == 0 {
        1
    } else {
        10 * ten_pow((n - 1) as nat)
    }
}

/// A run of `n` digits is worth less than the `n`-th power of ten.
proof fn lemma_digits_value_bound(s: Seq<char>)
    requires
        all_digits(s),
    ensures
        0 <= digits_value(s) < ten_pow(s.len()),
    decreases s.len(),
{
    if s.len() > 0 {
        assert(all_digits(s.drop_last()));
        lemma_digits_value_bound(s.drop_last());
    }
}

/// One power of ten divides into a later one.
proof fn lemma_ten_pow_le(a: nat, b: nat)
    requires
        a <= b,
    ensures
        0 < ten_pow(a) <= ten_pow(b),
    decreases b,
{
    if a < b {
        lemma_ten_pow_le(a, (b - 1) as nat);
    } else if b > 0 {
        lemma_ten_pow_le((a - 1) as nat, (b - 1) as nat);
    }
}

/// Where the first dot is, from what stands before it: if the first `j`
/// characters are no dots and a dot (or the end) follows, the first dot is
/// at `j`.
proof fn lemma_first_dot_at(s: Seq<char>, j: int)
    requires
        0 <= j <= s.len(),
        forall|i: int| 0 <= i < j ==> s[i] != '.',
        j < s.len() ==> s[j] == '.',
    ensures
        first_dot(s) == j,
    decreases j,
{
    if j == 0 {
    } else {
        assert(s[0] != '.');
        lemma_first_dot_at(s.drop_first(), j - 1);
    }
}

/// The first dot lies no earlier than any dot-free prefix.
proof fn lemma_first_dot_ge(s: Seq<char>, j: int)
    requires
        0 <= j <= s.len(),
        forall|i: int| 0 <= i < j ==> s[i] != '.',
    ensures
        first_dot(s) >= j,
    decreases j,
{
    lemma_first_dot_le_len(s);
    if j > 0 {
        assert(s[0] != '.');
        lemma_first_dot_ge(s.drop_first(), j - 1);
    }
}

/// The first dot never lies past the end.
proof fn lemma_first_dot_le_len(s: Seq<char>)
    ensures
        0 <= first_dot(s) <= s.len(),
    decreases s.len(),
{
    if s.len() > 0 && s[0] != '.' {
        lemma_first_dot_le_len(s.drop_first());
    }
}

/// Parse a decimal literal into thousandths.
#[verifier::rlimit(50)]
#[verifier::loop_isolation(false)]
pub fn parse_milli(s: &Vec<char>) -> (r: Option<i64>)
    ensures
        match r {
            Some(v) => milli_of(s@) == Some(v as int),
            None => milli_of(s@) is None,
        },
{
    let mut i: usize = 0;
    let mut neg = false;
    if s.len() > 0 && (s[0] == '-' || s[0] == '+') {
        neg = s[0] == '-';
        i = 1;
    }
    let ghost body = s@.skip(i as int);
    proof {
        reveal_with_fuel(ten_pow, 17);
        assert(ten_pow(15) == 1000000000000000);
        assert(s@.skip(0) =~= s@);
        if s@.len() > 0 {
            assert(s@.skip(1) =~= s@.drop_first());
        }
    }
    let mut acc: u64 = 0;
    let mut count: usize = 0;
    let mut j: usize = i;
    while j < s.len() && s[j] != '.'
        invariant
            i <= j <= s@.len(),
            body == s@.skip(i as int),
            count == j - i,
            count <= 15,
            forall|k: int| 0 <= k < count ==> body[k] != '.',
            all_digits(body.take(count as int)),
            acc == digits_value(body.take(count as int)),
            acc < ten_pow(15 as nat),
            ten_pow(15 as nat) == 1000000000000000,
        decreases s@.len() - j,
    {
        let c = s[j];
        let ghost pre = body.take(count as int);
        if c < '0' || c > '9' {
            proof {
                lemma_first_dot_ge(body, count as int + 1);
                lemma_first_dot_le_len(body);
                let ip = body.take(first_dot(body));
                assert(ip[count as int] == c);
                assert(!all_digits(ip));
            }
            return None;
        }
        if count == 15 {
            proof {
                lemma_first_dot_ge(body, count as int + 1);
                lemma_first_dot_le_len(body);
                assert(body.take(first_dot(body)).len() > 15);
            }
            return None;
        }
        proof {
            assert(all_digits(pre));
            lemma_digits_value_bound(pre);
            assert(ten_pow((count + 1) as nat) == 10 * ten_pow(count as nat));
            assert(ten_pow(14 as nat) * 10 == ten_pow(15 as nat));
            lemma_ten_pow_le(count as nat, 14 as nat);
        }
        let d: u64 = ((c as u8) - 48) as u64;
        acc = acc * 10 + d;
        count = count + 1;
        j = j + 1;
        proof {
            let cur = body.take(count as int);
            assert(cur.drop_last() =~= pre);
            assert(cur.last() == c);
            assert(all_digits(cur));
            lemma_digits_value_bound(cur);
        }
    }
    proof {
        lemma_first_dot_at(body, count as int);
    }
    if j == s.len() {
        if count == 0 {
            return None;
        }
        proof {
            assert(body.take(count as int) =~= body);
        }
        let v: u64 = acc * 1000;
        let sv: i64 = v as i64;
        return if neg {
            Some(-sv)
        } else {
            Some(sv)
        };
    }
    // The character at `j` is the first dot; the fraction follows it.
    let ghost fp = body.skip(count as int + 1);
    let mut f0: u64 = 0;
    let mut f1: u64 = 0;
    let mut f2: u64 = 0;
    let mut fcount: usize = 0;
    let mut k: usize = j + 1;
    while k < s.len()
        invariant
            i <= j < k <= s@.len(),
            j == i + count,
            k == j + 1 + fcount,
            body == s@.skip(i as int),
            fp == body.skip(count as int + 1),
            fp.len() == s@.len() - j - 1,
            all_digits(fp.take(fcount as int)),
            f0 == if fcount > 0 {
                fp[0] as int - '0' as int
            } else {
                0
            },
            f1 == if fcount > 1 {
                fp[1] as int - '0' as int
            } else {
                0
            },
            f2 == if fcount > 2 {
                fp[2] as int - '0' as int
            } else {
                0
            },
        decreases s@.len() - k,
    {
        let c = s[k];
        let ghost pre = fp.take(fcount as int);
        if c < '0' || c > '9' {
            proof {
                assert(fp[fcount as int] == c);
                assert(!all_digits(fp));
            }
            return None;
        }
        let d: u64 = ((c as u8) - 48) as u64;
        if fcount == 0 {
            f0 = d;
        } else if fcount == 1 {
            f1 = d;
        } else if fcount == 2 {
            f2 = d;
        }
        fcount = fcount + 1;
        k = k + 1;
        proof {
            let cur = fp.take(fcount as int);
            assert(cur.drop_last() =~= pre);
            assert(cur.last() == c);
            assert(all_digits(cur));
        }
    }
    proof {
        assert(fp.take(fcount as int) =~= fp);
        assert(body.take(count as int) =~= body.take(first_dot(body)));
    }
    if count == 0 && fcount == 0 {
        return None;
    }
    let v: u64 = acc * 1000 + f0 * 100 + f1 * 10 + f2;
    let sv: i64 = v as i64;
    if neg {
        Some(-sv)
    } else {
        Some(sv)
    }
}


/// Parse a small whole-number literal.
#[verifier::loop_isolation(false)]
pub fn parse_byte(s: &Vec<char>) -> (r: Option<u8>)
    ensures
        match r {
            Some(v) => whole_byte_of(s@) == Some(v as int),
            None => whole_byte_of(s@) is None,
        },
{
    let mut i: usize = 0;
    if s.len() > 0 && s[0] == '+' {
        i = 1;
    }
    let ghost body = s@.skip(i as int);
    proof {
        assert(s@.skip(0) =~= s@);
        if s@.len() > 0 {
            assert(s@.skip(1) =~= s@.drop_first());
        }
    }
    let mut acc: u16 = 0;
    let mut j: usize = i;
    while j < s.len()
        invariant
            i <= j <= s@.len(),
            body == s@.skip(i as int),
            all_digits(body.take((j - i) as int)),
            acc == if digits_value(body.take((j - i) as int)) <= 255 {
                digits_value(body.take((j - i) as int))
            } else {
                256
            },
        decreases s@.len() - j,
    {
        let c = s[j];
        let ghost pre = body.take((j - i) as int);
        if c < '0' || c > '9' {
            proof {
                assert(body[(j - i) as int] == c);
                assert(!all_digits(body));
            }
            return None;
        }
        proof {
            lemma_digits_value_bound(pre);
        }
        let d: u16 = ((c as u8) - 48) as u16;
        let t: u16 = acc * 10 + d;
        acc = if t > 255 {
            256
        } else {
            t
        };
        j = j + 1;
        proof {
            let cur = body.take((j - i) as int);
            assert(cur.drop_last() =~= pre);
            assert(cur.last() == c);
            assert(all_digits(cur));
            lemma_digits_value_bound(pre);
        }
    }
    proof {
        assert(body.take((s@.len() - i) as int) =~= body);
    }
    if j == i {
        return None;
    }
    if acc > 255 {
        return None;
    }
    Some(acc as u8)
}

} // verus!
