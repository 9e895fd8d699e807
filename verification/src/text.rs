//! Work on text as a sequence of characters.

use vstd::prelude::*;

verus! {

/// Whether two texts are the same.
pub(crate) fn same(a: &str, b: &str) -> (r: bool)
    ensures
        r == (a@ == b@),
{
    let n: usize = a.unicode_len();
    if n != b.unicode_len() {
        return false;
    }
    let mut i: usize = 0;
    while i < n
        invariant
            i <= n,
            n == a@.len(),
            n == b@.len(),
            forall|j: int| 0 <= j < i ==> a@[j] == b@[j],
        decreases n - i,
    {
        if a.get_char(i) != b.get_char(i) {
            return false;
        }
        i = i + 1;
    }
    assert(a@ =~= b@);
    true
}

/// The characters of a text.
pub fn chars_of(s: &str) -> (r: Vec<char>)
    ensures
        r@ == s@,
{
    let mut r: Vec<char> = Vec::new();
    for c in it: s.chars()
        invariant
            it.seq() == s@,
            r@ == s@.take(it.index()),
    {
        r.push(c);
        assert(r@ =~= s@.take(it.index() + 1));
    }
    assert(r@ =~= s@);
    r
}

/// Whether `part` stands in `s` from place `at` on.
pub open spec fn stands_at(s: Seq<char>, part: Seq<char>, at: int) -> bool {
    0 <= at && at + part.len() <= s.len() && s.subrange(at, at + part.len()) == part
}

/// Whether `part` stands in `s` from place `at` on.
pub fn part_at(s: &Vec<char>, part: &Vec<char>, at: usize) -> (r: bool)
    ensures
        r == stands_at(s@, part@, at as int),
{
    if part.len() > s.len() || at > s.len() - part.len() {
        return false;
    }
    let mut i: usize = 0;
    while i < part.len()
        invariant
            i <= part.len(),
            at + part.len() <= s.len(),
            forall|j: int| 0 <= j < i ==> s@[at + j] == part@[j],
        decreases part.len() - i,
    {
        if s[at + i] != part[i] {
            assert(s@.subrange(at as int, at + part@.len())[i as int] != part@[i as int]);
            return false;
        }
        i = i + 1;
    }
    assert(s@.subrange(at as int, at + part@.len()) =~= part@);
    true
}

/// Whether a text begins with another.
pub fn starts_with(s: &str, part: &str) -> (r: bool)
    ensures
        r == part@.is_prefix_of(s@),
{
    let s = chars_of(s);
    let part = chars_of(part);
    assert(part@.is_prefix_of(s@) == stands_at(s@, part@, 0));
    part_at(&s, &part, 0)
}

/// Whether a text ends with another.
pub fn ends_with(s: &str, part: &str) -> (r: bool)
    ensures
        r == part@.is_suffix_of(s@),
{
    let s = chars_of(s);
    let part = chars_of(part);
    if part.len() > s.len() {
        return false;
    }
    let at: usize = s.len() - part.len();
    assert(part@.is_suffix_of(s@) == stands_at(s@, part@, at as int));
    part_at(&s, &part, at)
}

/// Appends a character. This is `String::push` of the standard library, which
/// is taken to put the character at the end and to leave the rest.
#[verifier::external_body]
pub(crate) fn push_char(s: &mut String, c: char)
    ensures
        final(s)@ == old(s)@.push(c),
{
    s.push(c)
}

/// The characters from `from` up to `to` as a text.
pub fn text_of(s: &Vec<char>, from: usize, to: usize) -> (r: String)
    requires
        from <= to <= s@.len(),
    ensures
        r@ == s@.subrange(from as int, to as int),
{
    let mut r: String = String::new();
    let mut i: usize = from;
    assert(r@ =~= s@.subrange(from as int, from as int));
    while i < to
        invariant
            from <= i <= to <= s@.len(),
            r@ == s@.subrange(from as int, i as int),
        decreases to - i,
    {
        push_char(&mut r, s[i]);
        i = i + 1;
        assert(r@ =~= s@.subrange(from as int, i as int));
    }
    r
}

/// Whether one text occurs in another.
pub open spec fn occurs(s: Seq<char>, part: Seq<char>) -> bool {
    exists|at: int| #[trigger] stands_at(s, part, at)
}

/// Whether one text occurs in another.
pub fn contains_text(s: &str, part: &str) -> (r: bool)
    ensures
        r == occurs(s@, part@),
{
    let chars = chars_of(s);
    let sought = chars_of(part);
    if sought.len() > chars.len() {
        return false;
    }
    let last: usize = chars.len() - sought.len();
    let mut at: usize = 0;
    while at < last
        invariant
            at <= last,
            chars@ == s@,
            sought@ == part@,
            last == chars@.len() - sought@.len(),
            forall|j: int| 0 <= j < at ==> !#[trigger] stands_at(s@, part@, j),
        decreases last - at,
    {
        if part_at(&chars, &sought, at) {
            return true;
        }
        at = at + 1;
    }
    part_at(&chars, &sought, last)
}

/// White space, as Unicode has it.
pub open spec fn is_white(c: char) -> bool {
    let u = c as u32;
    ||| 0x09 <= u <= 0x0d
    ||| u == 0x20
    ||| u == 0x85
    ||| u == 0xa0
    ||| u == 0x1680
    ||| 0x2000 <= u <= 0x200a
    ||| u == 0x2028
    ||| u == 0x2029
    ||| u == 0x202f
    ||| u == 0x205f
    ||| u == 0x3000
}

fn white(c: char) -> (r: bool)
    ensures
        r == is_white(c),
{
    let u: u32 = c as u32;
    (0x09 <= u && u <= 0x0d) || u == 0x20 || u == 0x85 || u == 0xa0 || u == 0x1680 || (0x2000 <= u
        && u <= 0x200a) || u == 0x2028 || u == 0x2029 || u == 0x202f || u == 0x205f || u == 0x3000
}

/// What is cut off the ends of a text.
#[derive(Clone, Copy, Debug, PartialEq, Eq, Structural)]
pub enum Cut {
    White,
    Quotes,
}

impl Cut {
    pub open spec fn takes(self, c: char) -> bool {
        match self {
            Cut::White => is_white(c),
            Cut::Quotes => c == '"',
        }
    }

    fn cuts(self, c: char) -> (r: bool)
        ensures
            r == self.takes(c),
    {
        match self {
            Cut::White => white(c),
            Cut::Quotes => c == '"',
        }
    }
}

/// The text without what is cut off its beginning.
pub open spec fn cut_start(s: Seq<char>, cut: Cut) -> Seq<char>
    decreases s.len(),
{
    if s.len() > 0 && cut.takes(s[0]) {
        cut_start(s.skip(1), cut)
    } else {
        s
    }
}

/// The text without what is cut off its end.
pub open spec fn cut_end(s: Seq<char>, cut: Cut) -> Seq<char>
    decreases s.len(),
{
    if s.len() > 0 && cut.takes(s.last()) {
        cut_end(s.drop_last(), cut)
    } else {
        s
    }
}

/// The text without what is cut off both its ends.
pub open spec fn trimmed(s: Seq<char>, cut: Cut) -> Seq<char> {
    cut_end(cut_start(s, cut), cut)
}

/// Where a part of a text begins and ends once both its ends were cut.
pub fn trim(s: &Vec<char>, from: usize, to: usize, cut: Cut) -> (r: (usize, usize))
    requires
        from <= to <= s@.len(),
    ensures
        from <= r.0 <= r.1 <= to,
        s@.subrange(r.0 as int, r.1 as int) == trimmed(s@.subrange(from as int, to as int), cut),
{
    let ghost whole = s@.subrange(from as int, to as int);
    let mut a: usize = from;
    while a < to && cut.cuts(s[a])
        invariant
            from <= a <= to <= s@.len(),
            whole == s@.subrange(from as int, to as int),
            cut_start(whole, cut) == cut_start(s@.subrange(a as int, to as int), cut),
        decreases to - a,
    {
        proof {
            let rest = s@.subrange(a as int, to as int);
            assert(rest[0] == s@[a as int]);
            assert(rest.skip(1) =~= s@.subrange(a + 1, to as int));
        }
        a = a + 1;
    }
    let ghost front = s@.subrange(a as int, to as int);
    proof {
        if a < to {
            assert(front[0] == s@[a as int]);
        }
        assert(cut_start(whole, cut) == front);
    }
    let mut b: usize = to;
    while a < b && cut.cuts(s[b - 1])
        invariant
            from <= a <= b <= to <= s@.len(),
            front == s@.subrange(a as int, to as int),
            cut_end(front, cut) == cut_end(s@.subrange(a as int, b as int), cut),
        decreases b - a,
    {
        proof {
            let rest = s@.subrange(a as int, b as int);
            assert(rest.last() == s@[b - 1]);
            assert(rest.drop_last() =~= s@.subrange(a as int, b - 1));
        }
        b = b - 1;
    }
    proof {
        if a < b {
            assert(s@.subrange(a as int, b as int).last() == s@[b - 1]);
        }
    }
    (a, b)
}

/// The first place of a character.
pub open spec fn first_place(s: Seq<char>, c: char) -> Option<int>
    decreases s.len(),
{
    if s.len() == 0 {
        None
    } else if s[0] == c {
        Some(0)
    } else {
        match first_place(s.skip(1), c) {
            Some(i) => Some(i + 1),
            None => None,
        }
    }
}

/// The last place of a character.
pub open spec fn last_place(s: Seq<char>, c: char) -> Option<int>
    decreases s.len(),
{
    if s.len() == 0 {
        None
    } else if s.last() == c {
        Some(s.len() - 1)
    } else {
        last_place(s.drop_last(), c)
    }
}

/// The first place of a character in a part of a text, counted from the
/// beginning of the whole text.
pub fn find_first(s: &Vec<char>, from: usize, to: usize, c: char) -> (r: Option<usize>)
    requires
        from <= to <= s@.len(),
    ensures
        match r {
            Some(i) => from <= i < to && first_place(s@.subrange(from as int, to as int), c) == Some(
                i - from,
            ),
            None => first_place(s@.subrange(from as int, to as int), c) is None,
        },
{
    let ghost whole = s@.subrange(from as int, to as int);
    let mut i: usize = from;
    while i < to
        invariant
            from <= i <= to <= s@.len(),
            whole == s@.subrange(from as int, to as int),
            match first_place(s@.subrange(i as int, to as int), c) {
                Some(j) => first_place(whole, c) == Some(i - from + j),
                None => first_place(whole, c) is None,
            },
        decreases to - i,
    {
        proof {
            let rest = s@.subrange(i as int, to as int);
            assert(rest[0] == s@[i as int]);
            assert(rest.skip(1) =~= s@.subrange(i + 1, to as int));
        }
        if s[i] == c {
            return Some(i);
        }
        i = i + 1;
    }
    None
}

/// The last place of a character in a part of a text, counted from the
/// beginning of the whole text.
pub fn find_last(s: &Vec<char>, from: usize, to: usize, c: char) -> (r: Option<usize>)
    requires
        from <= to <= s@.len(),
    ensures
        match r {
            Some(i) => from <= i < to && last_place(s@.subrange(from as int, to as int), c) == Some(
                i - from,
            ),
            None => last_place(s@.subrange(from as int, to as int), c) is None,
        },
{
    let ghost whole = s@.subrange(from as int, to as int);
    let mut i: usize = to;
    while i > from
        invariant
            from <= i <= to <= s@.len(),
            whole == s@.subrange(from as int, to as int),
            last_place(whole, c) == last_place(s@.subrange(from as int, i as int), c),
        decreases i - from,
    {
        proof {
            let rest = s@.subrange(from as int, i as int);
            assert(rest.last() == s@[i - 1]);
            assert(rest.drop_last() =~= s@.subrange(from as int, i - 1));
        }
        if s[i - 1] == c {
            return Some(i - 1);
        }
        i = i - 1;
    }
    None
}

// ---- numbers ----

/// Whether a character is a decimal digit.
pub open spec fn is_digit(c: char) -> bool {
    '0' <= c && c <= '9'
}

/// Whether a text is made of digits, one at least.
pub open spec fn all_digits(s: Seq<char>) -> bool {
    s.len() > 0 && forall|i: int| 0 <= i < s.len() ==> is_digit(#[trigger] s[i])
}

/// The number that digits stand for.
pub open spec fn digits_value(s: Seq<char>) -> int
    decreases s.len(),
{
    if s.len() == 0 {
        0
    } else {
        digits_value(s.drop_last()) * 10 + (s.last() as int - '0' as int)
    }
}

/// The number that a text stands for: digits, after a plus or, where it may be
/// negative, a minus sign. Nothing for any other text, or a number beyond the
/// bounds.
pub open spec fn number_of(s: Seq<char>, low: int, high: int) -> Option<int> {
    let minus = s.len() > 0 && s[0] == '-' && low < 0;
    let plus = s.len() > 0 && s[0] == '+';
    let d = if minus || plus {
        s.skip(1)
    } else {
        s
    };
    let v = if minus {
        -digits_value(d)
    } else {
        digits_value(d)
    };
    if all_digits(d) && low <= v <= high {
        Some(v)
    } else {
        None
    }
}

proof fn lemma_digits_monotone(s: Seq<char>, n: int)
    requires
        0 <= n <= s.len(),
        forall|i: int| 0 <= i < s.len() ==> is_digit(#[trigger] s[i]),
    ensures
        0 <= digits_value(s.take(n)) <= digits_value(s),
    decreases s.len(),
{
    if n < s.len() {
        let t = s.drop_last();
        assert forall|i: int| 0 <= i < t.len() implies is_digit(#[trigger] t[i]) by {
            assert(t[i] == s[i]);
        }
        lemma_digits_monotone(t, n);
        assert(t.take(n) =~= s.take(n));
        assert(is_digit(s[s.len() - 1]));
    } else {
        assert(s.take(n) =~= s);
        if s.len() > 0 {
            let t = s.drop_last();
            assert forall|i: int| 0 <= i < t.len() implies is_digit(#[trigger] t[i]) by {
                assert(t[i] == s[i]);
            }
            lemma_digits_monotone(t, t.len() as int);
            assert(t.take(t.len() as int) =~= t);
            assert(is_digit(s[s.len() - 1]));
        }
    }
}

/// The number that a part of a text stands for, between `low` and `high`.
pub fn parse_number(s: &Vec<char>, from: usize, to: usize, low: i64, high: i64) -> (r: Option<i64>)
    requires
        from <= to <= s@.len(),
        -0x1_0000_0000 <= low <= 0 <= high <= 0x1_0000_0000,
    ensures
        match r {
            Some(v) => number_of(s@.subrange(from as int, to as int), low as int, high as int)
                == Some(v as int),
            None => number_of(
                s@.subrange(from as int, to as int),
                low as int,
                high as int,
            ) is None,
        },
{
    let ghost whole = s@.subrange(from as int, to as int);
    let mut at: usize = from;
    let mut minus = false;
    if from < to {
        assert(whole[0] == s@[from as int]);
        if s[from] == '-' && low < 0 {
            minus = true;
            at = from + 1;
        } else if s[from] == '+' {
            at = from + 1;
        }
    }
    let ghost d = s@.subrange(at as int, to as int);
    proof {
        if at > from {
            assert(whole.skip(1) =~= d);
        } else {
            assert(whole =~= d);
        }
    }
    if at == to {
        return None;
    }
    let limit: i64 = 0x1_0000_0000;
    let mut v: i64 = 0;
    let mut i: usize = at;
    let start: usize = at;
    proof {
        assert(d.take(0) =~= Seq::empty());
    }
    while i < to
        invariant
            from <= start <= i <= to <= s@.len(),
            start < to,
            d == s@.subrange(start as int, to as int),
            limit == 0x1_0000_0000,
            0 <= v <= limit,
            v == digits_value(d.take(i - start)),
            forall|j: int| 0 <= j < i - start ==> is_digit(#[trigger] d[j]),
            -limit <= low <= 0 <= high <= limit,
            whole == s@.subrange(from as int, to as int),
            d == (if start > from { whole.skip(1) } else { whole }),
            minus == (whole.len() > 0 && whole[0] == '-' && low < 0),
            (start > from) == (whole.len() > 0 && ((whole[0] == '-' && low < 0) || whole[0] == '+')),
        decreases to - i,
    {
        let c = s[i];
        assert(d[i - start] == c);
        if !(c >= '0' && c <= '9') {
            assert(!is_digit(d[i - start]));
            return None;
        }
        let digit: i64 = (c as u32 - '0' as u32) as i64;
        v = v * 10 + digit;
        i = i + 1;
        proof {
            assert(d.take(i - start).drop_last() =~= d.take(i - start - 1));
            assert(d.take(i - start).last() == c);
        }
        if v > limit {
            proof {
                if all_digits(d) {
                    lemma_digits_monotone(d, i - start);
                }
            }
            return None;
        }
    }
    proof {
        assert(d.take(to - start) =~= d);
    }
    let signed: i64 = if minus { -v } else { v };
    if low <= signed && signed <= high {
        Some(signed)
    } else {
        None
    }
}

/// The digit for a number below ten.
pub open spec fn digit(n: int) -> char {
    if n == 0 {
        '0'
    } else if n == 1 {
        '1'
    } else if n == 2 {
        '2'
    } else if n == 3 {
        '3'
    } else if n == 4 {
        '4'
    } else if n == 5 {
        '5'
    } else if n == 6 {
        '6'
    } else if n == 7 {
        '7'
    } else if n == 8 {
        '8'
    } else {
        '9'
    }
}

/// A number in decimal digits.
pub open spec fn decimal(n: nat) -> Seq<char>
    decreases n,
{
    if n < 10 {
        seq![digit(n as int)]
    } else {
        decimal(n / 10).push(digit((n % 10) as int))
    }
}

/// A number in decimal digits, with a minus sign where it is negative.
pub open spec fn signed_decimal(n: int) -> Seq<char> {
    if n < 0 {
        seq!['-'] + decimal((-n) as nat)
    } else {
        decimal(n as nat)
    }
}

fn digit_char(n: u64) -> (r: char)
    requires
        n < 10,
    ensures
        r == digit(n as int),
{
    match n {
        0 => '0',
        1 => '1',
        2 => '2',
        3 => '3',
        4 => '4',
        5 => '5',
        6 => '6',
        7 => '7',
        8 => '8',
        _ => '9',
    }
}

/// Appends a number in decimal digits.
pub fn push_decimal(s: &mut String, n: u64)
    ensures
        final(s)@ == old(s)@ + decimal(n as nat),
    decreases n,
{
    let ghost before = s@;
    if n >= 10 {
        push_decimal(s, n / 10);
    }
    push_char(s, digit_char(n % 10));
    assert(s@ =~= before + decimal(n as nat));
}

/// Appends a number in decimal digits, with its sign where it is negative.
pub fn push_signed(s: &mut String, n: i64)
    ensures
        final(s)@ == old(s)@ + signed_decimal(n as int),
{
    let ghost before = s@;
    if n < 0 {
        push_char(s, '-');
        let size: u64 = (-(n as i128)) as u64;
        push_decimal(s, size);
        assert(s@ =~= before + signed_decimal(n as int));
    } else {
        push_decimal(s, n as u64);
    }
}

/// Appends a text.
pub fn push_text(s: &mut String, t: &str)
    ensures
        final(s)@ == old(s)@ + t@,
{
    s.append(t);
}

/// Reading a number that was written gives it back.
pub proof fn law_numbers_read_back(n: nat, high: int)
    requires
        n <= high,
    ensures
        number_of(decimal(n), 0, high) == Some(n as int),
{
    lemma_decimal_digits(n);
}

proof fn lemma_decimal_digits(n: nat)
    ensures
        all_digits(decimal(n)),
        digits_value(decimal(n)) == n,
        decimal(n)[0] != '+',
        decimal(n)[0] != '-',
    decreases n,
{
    let d = decimal(n);
    if n >= 10 {
        lemma_decimal_digits(n / 10);
        let h = decimal(n / 10);
        assert(d.drop_last() =~= h);
        assert(d.last() == digit((n % 10) as int));
        lemma_digit((n % 10) as int);
        assert(d[0] == h[0]);
        assert forall|i: int| 0 <= i < d.len() implies is_digit(#[trigger] d[i]) by {
            if i < h.len() {
                assert(d[i] == h[i]);
            }
        }
    } else {
        assert(d.drop_last() =~= Seq::empty());
        assert(d.last() == digit(n as int));
        lemma_digit(n as int);
        assert(digits_value(d.drop_last()) == 0);
    }
}

proof fn lemma_digit(n: int)
    requires
        0 <= n < 10,
    ensures
        digit(n) as int - '0' as int == n,
        is_digit(digit(n)),
{
}

proof fn lemma_cut_start(s: Seq<char>, cut: Cut)
    ensures
        ({
            let t = cut_start(s, cut);
            let n = s.len() - t.len();
            &&& 0 <= n && t == s.skip(n)
            &&& forall|i: int| 0 <= i < n ==> cut.takes(#[trigger] s[i])
            &&& t.len() > 0 ==> !cut.takes(t[0])
        }),
    decreases s.len(),
{
    if s.len() > 0 && cut.takes(s[0]) {
        let r = s.skip(1);
        lemma_cut_start(r, cut);
        let t = cut_start(s, cut);
        let n = s.len() - t.len();
        assert(t =~= s.skip(n));
        assert forall|i: int| 0 <= i < n implies cut.takes(#[trigger] s[i]) by {
            if i > 0 {
                assert(r[i - 1] == s[i]);
            }
        }
    } else {
        assert(s.skip(0) =~= s);
    }
}

proof fn lemma_cut_end(s: Seq<char>, cut: Cut)
    ensures
        ({
            let t = cut_end(s, cut);
            &&& t.len() <= s.len() && t == s.take(t.len() as int)
            &&& forall|i: int| t.len() <= i < s.len() ==> cut.takes(#[trigger] s[i])
            &&& t.len() > 0 ==> !cut.takes(t.last())
        }),
    decreases s.len(),
{
    if s.len() > 0 && cut.takes(s.last()) {
        let r = s.drop_last();
        lemma_cut_end(r, cut);
        let t = cut_end(s, cut);
        assert(t =~= s.take(t.len() as int));
        assert forall|i: int| t.len() <= i < s.len() implies cut.takes(#[trigger] s[i]) by {
            if i < r.len() {
                assert(r[i] == s[i]);
            }
        }
    } else {
        assert(s.take(s.len() as int) =~= s);
    }
}

/// Cutting takes off both ends exactly what is to be cut: what is left begins
/// and ends with something else, and stands in the text between nothing but
/// what was cut. For white space that is spaces, tabs and line ends among
/// others, and no letter, digit or sign; for quotes, only they.
pub proof fn law_trimming(s: Seq<char>, cut: Cut)
    ensures
        ({
            let t = trimmed(s, cut);
            exists|a: int|
                0 <= a && a + t.len() <= s.len() && #[trigger] s.subrange(a, a + t.len()) == t && (
                forall|i: int|
                    0 <= i < s.len() && (i < a || i >= a + t.len()) && t.len() > 0 ==> cut.takes(
                        #[trigger] s[i],
                    ))
        }),
        trimmed(s, cut).len() > 0 ==> !cut.takes(trimmed(s, cut)[0]) && !cut.takes(
            trimmed(s, cut).last(),
        ),
        trimmed(s, cut).len() == 0 ==> forall|i: int|
            0 <= i < s.len() ==> cut.takes(#[trigger] s[i]),
        s.len() > 0 && !cut.takes(s[0]) && !cut.takes(s.last()) ==> trimmed(s, cut) == s,
        forall|c: char| #[trigger] Cut::Quotes.takes(c) <==> c == '"',
        Cut::White.takes(' ') && Cut::White.takes('\t') && Cut::White.takes('\n')
            && Cut::White.takes('\r'),
        forall|c: char| '!' <= c && c <= '~' ==> !#[trigger] Cut::White.takes(c),
{
    let f = cut_start(s, cut);
    let t = trimmed(s, cut);
    lemma_cut_start(s, cut);
    lemma_cut_end(f, cut);
    let a = s.len() - f.len();
    assert(s.subrange(a, a + t.len()) =~= t);
    assert forall|i: int| 0 <= i < s.len() && (i < a || i >= a + t.len()) implies cut.takes(
        #[trigger] s[i],
    ) by {
        if i >= a {
            assert(f[i - a] == s[i]);
        }
    }
    if s.len() > 0 && !cut.takes(s[0]) && !cut.takes(s.last()) {
        if a > 0 {
            assert(cut.takes(s[0]));
        }
        if t.len() < f.len() {
            assert(f.last() == s.last());
            assert(cut.takes(f[f.len() - 1]));
        }
        assert(t =~= s);
    }
}

/// The first and the last place of a character are places of it, and none lies
/// before or after.
pub proof fn law_places(s: Seq<char>, c: char)
    ensures
        match first_place(s, c) {
            Some(i) => 0 <= i < s.len() && s[i] == c && forall|j: int|
                0 <= j < i ==> #[trigger] s[j] != c,
            None => forall|j: int| 0 <= j < s.len() ==> #[trigger] s[j] != c,
        },
        match last_place(s, c) {
            Some(i) => 0 <= i < s.len() && s[i] == c && forall|j: int|
                i < j < s.len() ==> #[trigger] s[j] != c,
            None => forall|j: int| 0 <= j < s.len() ==> #[trigger] s[j] != c,
        },
    decreases s.len(),
{
    if s.len() > 0 {
        let t = s.skip(1);
        law_places(t, c);
        assert forall|j: int| 0 < j < s.len() implies #[trigger] s[j] == t[j - 1] by {}
        let u = s.drop_last();
        law_places(u, c);
        assert forall|j: int| 0 <= j < u.len() implies u[j] == #[trigger] s[j] by {}
        assert(s.last() == s[s.len() - 1]);
    }
}

/// A number is written in decimal: its last digit is what is left after tens
/// are taken away, and the digits before it are the number of tens.
pub proof fn law_decimals(n: nat, d: nat)
    requires
        d < 10,
    ensures
        decimal(d).len() == 1 && decimal(d)[0] as int == '0' as int + d,
        n > 0 ==> decimal(10 * n + d) == decimal(n) + decimal(d),
        signed_decimal(-(n as int)) == if n == 0 {
            decimal(0)
        } else {
            seq!['-'] + decimal(n)
        },
        signed_decimal(n as int) == decimal(n),
        forall|i: int| 0 <= i < decimal(n).len() ==> '0' <= #[trigger] decimal(n)[i] && decimal(n)[i]
            <= '9',
{
    lemma_decimal_digits(n);
    lemma_digit(d as int);
    if n > 0 {
        let m = 10 * n + d;
        assert(m / 10 == n && m % 10 == d);
        assert(decimal(m) =~= decimal(n) + decimal(d));
    }
    assert forall|i: int| 0 <= i < decimal(n).len() implies '0' <= #[trigger] decimal(n)[i]
        && decimal(n)[i] <= '9' by {
        assert(is_digit(decimal(n)[i]));
    }
}

/// Reading: signs are read too, a minus only where negative numbers are
/// allowed; a text with anything but digits behind the sign, or without one, is
/// no number, nor is one beyond the bounds.
pub proof fn law_numbers(n: nat, low: int, high: int, s: Seq<char>, i: int)
    requires
        low <= 0 <= high,
    ensures
        n <= high ==> number_of(decimal(n), low, high) == Some(n as int),
        n <= high ==> number_of(seq!['+'] + decimal(n), low, high) == Some(n as int),
        n > 0 && -(n as int) >= low ==> number_of(seq!['-'] + decimal(n), low, high) == Some(
            -(n as int),
        ),
        n > high ==> number_of(decimal(n), low, high) is None,
        low == 0 ==> number_of(seq!['-'] + decimal(n), low, high) is None,
        s.len() == 0 ==> number_of(s, low, high) is None,
        0 < i < s.len() && !('0' <= s[i] && s[i] <= '9') ==> number_of(s, low, high) is None,
        number_of(s, low, high) is Some ==> low <= number_of(s, low, high)->0 <= high,
{
    lemma_decimal_digits(n);
    let d = decimal(n);
    let p = seq!['+'] + d;
    let m = seq!['-'] + d;
    assert(p.skip(1) =~= d);
    assert(m.skip(1) =~= d);
    assert(p[0] == '+' && m[0] == '-');
    if low == 0 {
        assert(!is_digit(m[0]));
        assert(!all_digits(m));
    }
    if 0 < i < s.len() && !('0' <= s[i] && s[i] <= '9') {
        assert(s.skip(1)[i - 1] == s[i]);
        assert(!is_digit(s[i]));
        assert(!all_digits(s) && !all_digits(s.skip(1)));
    }
}

/// A text that begins and ends with something else is not cut.
pub proof fn lemma_nothing_to_cut(s: Seq<char>, cut: Cut)
    requires
        s.len() > 0,
        !cut.takes(s[0]),
        !cut.takes(s.last()),
    ensures
        trimmed(s, cut) == s,
{
    law_trimming(s, cut);
}

/// No sign, letter or digit is white space.
pub proof fn lemma_not_white(c: char)
    requires
        '!' <= c && c <= '~',
    ensures
        !Cut::White.takes(c),
{
}

/// A text occurs in another exactly if that is made of something, the text, and
/// something.
pub proof fn law_occurring(a: Seq<char>, part: Seq<char>, b: Seq<char>, s: Seq<char>)
    ensures
        occurs(a + part + b, part),
        occurs(s, part) ==> exists|at: int|
            0 <= at && at + part.len() <= s.len() && #[trigger] s.subrange(at, at + part.len())
                == part,
        part.len() > s.len() ==> !occurs(s, part),
{
    let t = a + part + b;
    assert(t.subrange(a.len() as int, a.len() as int + part.len()) =~= part);
    assert(stands_at(t, part, a.len() as int));
    if occurs(s, part) {
        let at = choose|at: int| #[trigger] stands_at(s, part, at);
        assert(s.subrange(at, at + part.len()) == part);
    }
}

} // verus!
