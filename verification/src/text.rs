//! Character-level primitives: reading a string slice into characters,
//! splitting on a delimiter, and reading decimal numbers.

use vstd::prelude::*;
use vstd::std_specs::iter::IteratorSpec;
use vstd::string::StrSliceExecFns;

verus! {

broadcast use vstd::string::group_string_axioms;

/// Whether the delimiter `d` stands in `s` at position `pos`.
pub open spec fn occurs_at(s: Seq<char>, d: Seq<char>, pos: int) -> bool {
    &&& 0 <= pos
    &&& pos + d.len() <= s.len()
    &&& s.subrange(pos, pos + d.len()) == d
}

/// The tokens of `s` from `start` on, given that no delimiter begins in
/// `start..pos`: the scan takes the leftmost delimiter each time, and
/// delimiters do not overlap.
pub open spec fn split_from(s: Seq<char>, d: Seq<char>, start: int, pos: int) -> Seq<Seq<char>>
    decreases s.len() - pos,
{
    if d.len() == 0 || pos + d.len() > s.len() {
        seq![s.subrange(start, s.len() as int)]
    } else if occurs_at(s, d, pos) {
        seq![s.subrange(start, pos)] + split_from(s, d, pos + d.len(), pos + d.len())
    } else {
        split_from(s, d, start, pos + 1)
    }
}

/// The tokens that splitting `s` on the delimiter `d` gives: always at
/// least one, and `s` itself alone where `d` is empty or does not occur.
pub open spec fn split_spec(s: Seq<char>, d: Seq<char>) -> Seq<Seq<char>> {
    split_from(s, d, 0, 0)
}

/// The character sequences that a list of string slices stands for.
pub open spec fn views(tokens: Seq<&str>) -> Seq<Seq<char>> {
    Seq::new(tokens.len(), |i: int| tokens[i]@)
}

/// Collects the characters of `s`, in order.
pub fn chars_of(s: &str) -> (v: Vec<char>)
    ensures
        v@ == s@,
{
    let mut v: Vec<char> = Vec::new();
    let it = s.chars();
    for c in iter: it
        invariant
            iter.seq() == s@,
            v@ == s@.take(iter.index()),
    {
        v.push(c);
    }
    assert(v@ =~= s@);
    v
}

fn delimiter_at(s: &Vec<char>, d: &Vec<char>, pos: usize) -> (b: bool)
    requires
        pos + d.len() <= s.len(),
    ensures
        b == occurs_at(s@, d@, pos as int),
{
    let mut k: usize = 0;
    while k < d.len()
        invariant
            k <= d.len(),
            pos + d.len() <= s.len(),
            forall|j: int| 0 <= j < k ==> s@[pos + j] == d@[j],
        decreases d.len() - k,
    {
        if s[pos + k] != d[k] {
            assert(s@.subrange(pos as int, pos + d.len())[k as int] == s@[pos + k]);
            return false;
        }
        k += 1;
    }
    assert(s@.subrange(pos as int, pos + d.len()) =~= d@);
    true
}

/// Splits `text` on `delim`. Every token borrows from `text`.
pub fn split<'a>(text: &'a str, delim: &str) -> (tokens: Vec<&'a str>)
    ensures
        views(tokens@) == split_spec(text@, delim@),
        tokens@.len() == split_spec(text@, delim@).len(),
        tokens@.len() >= 1,
{
    let s = chars_of(text);
    let d = chars_of(delim);
    let n: usize = s.len();
    let m: usize = d.len();
    let mut tokens: Vec<&'a str> = Vec::new();
    if m == 0 {
        tokens.push(text);
        assert(text@.subrange(0, n as int) =~= text@);
        assert(views(tokens@) =~= split_spec(text@, delim@));
        return tokens;
    }
    let mut start: usize = 0;
    let mut pos: usize = 0;
    assert(views(tokens@) =~= Seq::<Seq<char>>::empty());
    while m <= n - pos
        invariant
            s@ == text@,
            d@ == delim@,
            m == d.len(),
            n == s.len(),
            m > 0,
            start <= pos <= n,
            split_spec(s@, d@) == views(tokens@) + split_from(s@, d@, start as int, pos as int),
        decreases n - pos,
    {
        if delimiter_at(&s, &d, pos) {
            let ghost before = tokens@;
            let token = text.substring_char(start, pos);
            tokens.push(token);
            pos = pos + m;
            start = pos;
            assert(views(tokens@) =~= views(before) + seq![token@]);
            assert(views(tokens@) + split_from(s@, d@, start as int, pos as int) =~= views(before)
                + (seq![token@] + split_from(s@, d@, start as int, pos as int)));
        } else {
            pos = pos + 1;
        }
    }
    let ghost before = tokens@;
    let token = text.substring_char(start, n);
    tokens.push(token);
    assert(views(tokens@) =~= views(before) + seq![token@]);
    tokens
}

/// Whether `c` is one of the ten ASCII digits.
pub open spec fn is_digit(c: char) -> bool {
    '0' <= c && c <= '9'
}

/// The value of the digit `c`.
pub open spec fn digit_value(c: char) -> nat {
    if is_digit(c) {
        (c as u32 - '0' as u32) as nat
    } else {
        0
    }
}

/// Whether `s` holds digits only.
pub open spec fn all_digits(s: Seq<char>) -> bool {
    forall|i: int| 0 <= i < s.len() ==> is_digit(#[trigger] s[i])
}

/// The number that the digits of `s` write in base ten.
pub open spec fn decimal_value(s: Seq<char>) -> nat
    decreases s.len(),
{
    if s.len() == 0 {
        0
    } else {
        decimal_value(s.drop_last()) * 10 + digit_value(s.last())
    }
}

/// What a token reads as a number: one digit or more, nothing else, and a
/// value that a `u64` holds.
pub open spec fn number_spec(s: Seq<char>) -> Option<u64> {
    if s.len() > 0 && all_digits(s) && decimal_value(s) <= u64::MAX {
        Some(decimal_value(s) as u64)
    } else {
        None
    }
}

/// What a token reads as a flag: `1` is true, `0` is false.
pub open spec fn flag_spec(s: Seq<char>) -> Option<bool> {
    if s == seq!['1'] {
        Some(true)
    } else if s == seq!['0'] {
        Some(false)
    } else {
        None
    }
}

/// A prefix of a digit string is worth no more than the whole.
pub proof fn lemma_prefix_value(s: Seq<char>, i: int)
    requires
        0 <= i <= s.len(),
    ensures
        decimal_value(s.take(i)) <= decimal_value(s),
    decreases s.len() - i,
{
    if i < s.len() {
        lemma_prefix_value(s, i + 1);
        assert(s.take(i + 1).drop_last() =~= s.take(i));
    } else {
        assert(s.take(i) =~= s);
    }
}

/// Reads `token` as a decimal number.
pub fn parse_number(token: &str) -> (r: Option<u64>)
    ensures
        r == number_spec(token@),
{
    let s = chars_of(token);
    let n: usize = s.len();
    if n == 0 {
        return None;
    }
    let mut acc: u64 = 0;
    let mut i: usize = 0;
    assert(s@.take(0) =~= Seq::<char>::empty());
    while i < n
        invariant
            s@ == token@,
            n == s.len(),
            i <= n,
            all_digits(s@.take(i as int)),
            acc == decimal_value(s@.take(i as int)),
        decreases n - i,
    {
        let c = s[i];
        if !(c >= '0' && c <= '9') {
            return None;
        }
        let digit: u64 = (c as u32 - '0' as u32) as u64;
        proof {
            assert(s@.take(i + 1).drop_last() =~= s@.take(i as int));
            assert(s@.take(i + 1).last() == c);
            lemma_prefix_value(s@, i + 1);
        }
        if acc > (u64::MAX - digit) / 10 {
            return None;
        }
        acc = acc * 10 + digit;
        i = i + 1;
    }
    assert(s@.take(n as int) =~= s@);
    Some(acc)
}

/// Reads `token` as a flag.
pub fn parse_flag(token: &str) -> (r: Option<bool>)
    ensures
        r == flag_spec(token@),
{
    let s = chars_of(token);
    if s.len() != 1 {
        return None;
    }
    let c = s[0];
    if c == '1' {
        assert(s@ =~= seq!['1']);
        Some(true)
    } else if c == '0' {
        assert(s@ =~= seq!['0']);
        Some(false)
    } else {
        assert(seq!['1'][0] == '1' && seq!['0'][0] == '0');
        None
    }
}

/// Splitting gives at least one token.
pub proof fn lemma_split_nonempty(s: Seq<char>, d: Seq<char>, start: int, pos: int)
    ensures
        split_from(s, d, start, pos).len() >= 1,
    decreases s.len() - pos,
{
    if d.len() == 0 || pos + d.len() > s.len() {
    } else if occurs_at(s, d, pos) {
    } else {
        lemma_split_nonempty(s, d, start, pos + 1);
    }
}

/// The digit that writes `d`, for `d` below ten.
pub open spec fn digit_char(d: nat) -> char {
    ((d + 48) as u8) as char
}

/// The decimal writing of `n`, without leading zeros.
pub open spec fn digits_of(n: nat) -> Seq<char>
    decreases n,
{
    if n < 10 {
        seq![digit_char(n)]
    } else {
        digits_of(n / 10).push(digit_char(n % 10))
    }
}

/// Whether a digit string is written without leading zeros.
pub open spec fn canonical(s: Seq<char>) -> bool {
    s.len() == 1 || (s.len() > 1 && s[0] != '0')
}

/// The decimal writing of a number is a canonical digit string that reads
/// as that number.
pub proof fn lemma_digits_value(n: nat)
    ensures
        digits_of(n).len() > 0,
        all_digits(digits_of(n)),
        canonical(digits_of(n)),
        decimal_value(digits_of(n)) == n,
    decreases n,
{
    if n < 10 {
        let s = digits_of(n);
        assert(s.drop_last() =~= Seq::<char>::empty());
        assert(decimal_value(s.drop_last()) == 0);
        assert(digit_value(digit_char(n)) == n);
    } else {
        lemma_digits_value(n / 10);
        let c = digit_char(n % 10);
        let s = digits_of(n / 10);
        assert(s.push(c).drop_last() =~= s);
        assert(digit_value(c) == n % 10);
        assert(digits_of(n) == s.push(c));
        assert(s.push(c)[0] == s[0]);
        if s.len() == 1 {
            assert(s.drop_last() =~= Seq::<char>::empty());
            assert(decimal_value(s) == decimal_value(s.drop_last()) * 10 + digit_value(s[0]));
            assert(digit_value('0') == 0);
        }
    }
}

/// Writing a number and reading it back gives the number.
pub proof fn lemma_number_round_trip(n: u64)
    ensures
        number_spec(digits_of(n as nat)) == Some(n),
{
    lemma_digits_value(n as nat);
}

/// Reading a canonical digit string and writing the number back gives the
/// string.
pub proof fn lemma_token_round_trip(s: Seq<char>)
    requires
        s.len() > 0,
        all_digits(s),
        canonical(s),
    ensures
        digits_of(decimal_value(s)) == s,
    decreases s.len(),
{
    let c = s.last();
    let head = s.drop_last();
    assert(is_digit(c));
    assert(digit_char(digit_value(c)) == c);
    if s.len() == 1 {
        assert(head =~= Seq::<char>::empty());
        assert(decimal_value(head) == 0);
        assert(seq![c] =~= s);
    } else {
        assert(head[0] == s[0]);
        assert(all_digits(head));
        lemma_token_round_trip(head);
        assert(decimal_value(head) >= 1) by {
            lemma_prefix_value(head, 1);
            assert(head.take(1).drop_last() =~= Seq::<char>::empty());
            assert(decimal_value(head.take(1)) == decimal_value(Seq::<char>::empty()) * 10
                + digit_value(head[0]));
            assert(is_digit(head[0]));
        }
        let n = decimal_value(s);
        assert(n == decimal_value(head) * 10 + digit_value(c));
        assert(n / 10 == decimal_value(head) && n % 10 == digit_value(c));
        assert(head.push(c) =~= s);
    }
}

/// Writes `n` in decimal digits.
pub fn encode_number(n: u64) -> (v: Vec<char>)
    ensures
        v@ == digits_of(n as nat),
    decreases n,
{
    if n < 10 {
        let mut v: Vec<char> = Vec::new();
        v.push(((n + 48) as u8) as char);
        assert(v@ =~= digits_of(n as nat));
        v
    } else {
        let mut v = encode_number(n / 10);
        v.push(((n % 10 + 48) as u8) as char);
        v
    }
}

/// The tokens put together again, with the delimiter between each two.
pub open spec fn join_spec(tokens: Seq<Seq<char>>, d: Seq<char>) -> Seq<char>
    decreases tokens.len(),
{
    if tokens.len() == 0 {
        Seq::empty()
    } else if tokens.len() == 1 {
        tokens[0]
    } else {
        tokens[0] + d + join_spec(tokens.drop_first(), d)
    }
}

proof fn lemma_join_split_from(s: Seq<char>, d: Seq<char>, start: int, pos: int)
    requires
        0 <= start <= pos <= s.len(),
    ensures
        join_spec(split_from(s, d, start, pos), d) == s.subrange(start, s.len() as int),
    decreases s.len() - pos,
{
    if d.len() == 0 || pos + d.len() > s.len() {
    } else if occurs_at(s, d, pos) {
        let next = pos + d.len();
        let rest = split_from(s, d, next, next);
        let head = seq![s.subrange(start, pos)];
        lemma_join_split_from(s, d, next, next);
        lemma_split_nonempty(s, d, next, next);
        assert((head + rest).drop_first() =~= rest);
        assert((head + rest)[0] == s.subrange(start, pos));
        assert(s.subrange(start, pos) + s.subrange(pos, next) + s.subrange(next, s.len() as int)
            =~= s.subrange(start, s.len() as int));
    } else {
        lemma_join_split_from(s, d, start, pos + 1);
    }
}

/// Splitting loses nothing: the tokens, joined with the delimiter, are the
/// text.
pub proof fn lemma_join_split(s: Seq<char>, d: Seq<char>)
    ensures
        join_spec(split_spec(s, d), d) == s,
{
    lemma_join_split_from(s, d, 0, 0);
    assert(s.subrange(0, s.len() as int) =~= s);
}

} // verus!
