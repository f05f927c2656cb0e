//! Text encodings used by pseudo-files: decimal numbers, a trailing newline,
//! space-separated lists.

use vstd::prelude::*;
use vstd::string::*;

verus! {

/// The character that stands for the digit `d`, for `0 <= d <= 9`.
pub open spec fn digit(d: int) -> char {
    if d == 0 {
        '0'
    } else if d == 1 {
        '1'
    } else if d == 2 {
        '2'
    } else if d == 3 {
        '3'
    } else if d == 4 {
        '4'
    } else if d == 5 {
        '5'
    } else if d == 6 {
        '6'
    } else if d == 7 {
        '7'
    } else if d == 8 {
        '8'
    } else {
        '9'
    }
}

/// Whether `c` is one of `'0'` to `'9'`.
pub open spec fn is_digit(c: char) -> bool {
    c == '0' || c == '1' || c == '2' || c == '3' || c == '4' || c == '5' || c == '6' || c == '7'
        || c == '8' || c == '9'
}

/// The number that the digit `c` stands for; 0 for any other character.
pub open spec fn digit_value(c: char) -> int {
    if c == '1' {
        1
    } else if c == '2' {
        2
    } else if c == '3' {
        3
    } else if c == '4' {
        4
    } else if c == '5' {
        5
    } else if c == '6' {
        6
    } else if c == '7' {
        7
    } else if c == '8' {
        8
    } else if c == '9' {
        9
    } else {
        0
    }
}

/// The decimal digits of `n`, most significant first, without leading zeros.
pub open spec fn decimal(n: nat) -> Seq<char>
    decreases n,
{
    if n < 10 {
        seq![digit(n as int)]
    } else {
        decimal(n / 10).push(digit((n % 10) as int))
    }
}

/// Whether every character of `s` is a digit.
pub open spec fn all_digits(s: Seq<char>) -> bool {
    forall|i: int| 0 <= i < s.len() ==> is_digit(#[trigger] s[i])
}

/// The number that a string of digits stands for, read in base ten.
pub open spec fn digits_value(s: Seq<char>) -> nat
    decreases s.len(),
{
    if s.len() == 0 {
        0
    } else {
        (digits_value(s.drop_last()) * 10 + digit_value(s.last())) as nat
    }
}

/// `s` without one leading plus sign.
pub open spec fn unsigned_part(s: Seq<char>) -> Seq<char> {
    if s.len() > 0 && s[0] == '+' {
        s.skip(1)
    } else {
        s
    }
}

/// The number that `s` stands for as an unsigned 64-bit decimal: an optional
/// plus sign, then one or more digits whose value fits. Anything else, the
/// empty string and surrounding blanks included, stands for no number.
pub open spec fn parse_decimal(s: Seq<char>) -> Option<u64> {
    let body = unsigned_part(s);
    if body.len() > 0 && all_digits(body) && digits_value(body) <= u64::MAX {
        Some(digits_value(body) as u64)
    } else {
        None
    }
}

/// `s` without one trailing line feed.
pub open spec fn strip_newline(s: Seq<char>) -> Seq<char> {
    if s.len() > 0 && s.last() == '\n' {
        s.drop_last()
    } else {
        s
    }
}

/// The pieces of `s` between occurrences of `sep`, in order. A string
/// without a separator is one piece, the empty string too; two separators in
/// a row enclose an empty piece.
pub open spec fn split(s: Seq<char>, sep: char) -> Seq<Seq<char>>
    decreases s.len(),
{
    if s.len() == 0 {
        seq![Seq::<char>::empty()]
    } else {
        let before = split(s.drop_last(), sep);
        if s.last() == sep {
            before.push(Seq::<char>::empty())
        } else {
            before.drop_last().push(before.last().push(s.last()))
        }
    }
}

/// Splitting gives at least one piece.
pub proof fn lemma_split_nonempty(s: Seq<char>, sep: char)
    ensures
        split(s, sep).len() >= 1,
    decreases s.len(),
{
    if s.len() > 0 {
        lemma_split_nonempty(s.drop_last(), sep);
    }
}

/// The value of a prefix extended by one character.
pub proof fn lemma_digits_value_step(s: Seq<char>, from: int, to: int)
    requires
        0 <= from <= to < s.len(),
    ensures
        digits_value(s.subrange(from, to + 1)) == digits_value(s.subrange(from, to)) * 10
            + digit_value(s[to]),
{
    let t = s.subrange(from, to + 1);
    assert(t.drop_last() =~= s.subrange(from, to));
    assert(t.last() == s[to]);
}

/// Appending digits never lowers the value.
pub proof fn lemma_digits_value_grows(s: Seq<char>, k: int)
    requires
        0 <= k <= s.len(),
    ensures
        digits_value(s.take(k)) <= digits_value(s),
    decreases s.len() - k,
{
    if k == s.len() {
        assert(s.take(k) =~= s);
    } else {
        lemma_digits_value_grows(s.drop_last(), k);
        assert(s.drop_last().take(k) =~= s.take(k));
    }
}

/// The digits of a number are digits, and stand for that number.
pub proof fn lemma_decimal_value(n: nat)
    ensures
        decimal(n).len() >= 1,
        all_digits(decimal(n)),
        digits_value(decimal(n)) == n,
        decimal(n)[0] != '+',
    decreases n,
{
    if n < 10 {
        let s = decimal(n);
        assert(s.drop_last() =~= Seq::<char>::empty());
        assert(digits_value(s.drop_last()) == 0);
    } else {
        lemma_decimal_value(n / 10);
        let p = decimal(n / 10);
        let s = decimal(n);
        assert(s.drop_last() =~= p);
        assert(s.last() == digit((n % 10) as int));
        assert(s[0] == p[0]);
    }
}

/// Reading back the digits of a number gives the number.
pub proof fn lemma_parse_decimal_of_decimal(n: u64)
    ensures
        parse_decimal(decimal(n as nat)) == Some(n),
{
    lemma_decimal_value(n as nat);
}

/// The number that the digit `c` stands for, if it is a digit.
pub fn digit_of(c: char) -> (r: Option<u64>)
    ensures
        r is Some <==> is_digit(c),
        r is Some ==> r->Some_0 == digit_value(c),
{
    match c {
        '0' => Some(0),
        '1' => Some(1),
        '2' => Some(2),
        '3' => Some(3),
        '4' => Some(4),
        '5' => Some(5),
        '6' => Some(6),
        '7' => Some(7),
        '8' => Some(8),
        '9' => Some(9),
        _ => None,
    }
}

/// Reads an unsigned 64-bit decimal.
pub fn parse_u64(s: &str) -> (r: Option<u64>)
    ensures
        r == parse_decimal(s@),
{
    let n = s.unicode_len();
    let mut i: usize = 0;
    if n > 0 && s.get_char(0) == '+' {
        i = 1;
    }
    let start = i;
    if i == n {
        return None;
    }
    let ghost body = unsigned_part(s@);
    assert(body =~= s@.subrange(start as int, n as int));
    let mut acc: u64 = 0;
    assert(s@.subrange(start as int, start as int) =~= Seq::<char>::empty());
    while i < n
        invariant
            start <= i <= n,
            n == s@.len(),
            body == unsigned_part(s@),
            body == s@.subrange(start as int, n as int),
            all_digits(s@.subrange(start as int, i as int)),
            acc == digits_value(s@.subrange(start as int, i as int)),
        decreases n - i,
    {
        let c = s.get_char(i);
        proof {
            lemma_digits_value_step(s@, start as int, i as int);
            lemma_digits_value_grows(body, i + 1 - start);
            assert(body.take(i + 1 - start) =~= s@.subrange(start as int, i + 1));
        }
        let d = match digit_of(c) {
            Some(d) => d,
            None => {
                assert(body[i - start] == c);
                return None;
            },
        };
        let ghost longer = digits_value(s@.subrange(start as int, i + 1));
        assert(longer == acc * 10 + d);
        assert(longer <= digits_value(body));
        let tens = match acc.checked_mul(10) {
            Some(t) => t,
            None => {
                assert(longer > u64::MAX);
                return None;
            },
        };
        acc = match tens.checked_add(d) {
            Some(v) => v,
            None => {
                assert(longer > u64::MAX);
                return None;
            },
        };
        assert forall|j: int| 0 <= j < i + 1 - start implies is_digit(
            #[trigger] s@.subrange(start as int, i + 1)[j],
        ) by {
            if j < i - start {
                assert(s@.subrange(start as int, i as int)[j] == s@[start + j]);
            }
        }
        i += 1;
    }
    Some(acc)
}

/// The one-character string of the digit `d`.
fn digit_str(d: u64) -> (r: &'static str)
    requires
        d < 10,
    ensures
        r@ == seq![digit(d as int)],
{
    let r = match d {
        0 => "0",
        1 => "1",
        2 => "2",
        3 => "3",
        4 => "4",
        5 => "5",
        6 => "6",
        7 => "7",
        8 => "8",
        _ => "9",
    };
    proof {
        reveal_strlit("0");
        reveal_strlit("1");
        reveal_strlit("2");
        reveal_strlit("3");
        reveal_strlit("4");
        reveal_strlit("5");
        reveal_strlit("6");
        reveal_strlit("7");
        reveal_strlit("8");
        reveal_strlit("9");
        assert(r@ =~= seq![digit(d as int)]);
    }
    r
}

/// Writes `n` in decimal.
pub fn decimal_string(n: u64) -> (r: String)
    ensures
        r@ == decimal(n as nat),
    decreases n,
{
    if n < 10 {
        String::from_str(digit_str(n))
    } else {
        let mut s = decimal_string(n / 10);
        s.append(digit_str(n % 10));
        assert(s@ =~= decimal((n / 10) as nat).push(digit((n % 10) as int)));
        s
    }
}

/// Drops one trailing line feed.
pub fn without_newline<'a>(s: &'a str) -> (r: &'a str)
    ensures
        r@ == strip_newline(s@),
{
    let n = s.unicode_len();
    if n > 0 && s.get_char(n - 1) == '\n' {
        let r = s.substring_char(0, n - 1);
        assert(r@ =~= s@.drop_last());
        r
    } else {
        s
    }
}

/// Splits at every occurrence of `sep`.
pub fn split_on(s: &str, sep: char) -> (r: Vec<String>)
    ensures
        r.deep_view() == split(s@, sep),
{
    let n = s.unicode_len();
    let mut done: Vec<String> = Vec::new();
    let mut start: usize = 0;
    let mut i: usize = 0;
    assert(s@.take(0) =~= Seq::<char>::empty());
    assert(s@.subrange(0, 0) =~= Seq::<char>::empty());
    assert(done.deep_view() =~= split(s@.take(0), sep).drop_last());
    while i < n
        invariant
            start <= i <= n,
            n == s@.len(),
            split(s@.take(i as int), sep).len() >= 1,
            done.deep_view() == split(s@.take(i as int), sep).drop_last(),
            split(s@.take(i as int), sep).last() == s@.subrange(start as int, i as int),
        decreases n - i,
    {
        let c = s.get_char(i);
        let ghost before = split(s@.take(i as int), sep);
        let ghost longer = s@.take(i + 1);
        proof {
            assert(longer.drop_last() =~= s@.take(i as int));
            assert(longer.last() == c);
            lemma_split_nonempty(longer, sep);
        }
        if c == sep {
            let piece = String::from_str(s.substring_char(start, i));
            let ghost old_done = done.deep_view();
            done.push(piece);
            start = i + 1;
            proof {
                assert(split(longer, sep) == before.push(Seq::<char>::empty()));
                assert(split(longer, sep).drop_last() =~= before);
                assert(before =~= before.drop_last().push(before.last()));
                assert(done.deep_view() =~= old_done.push(piece@));
                assert(s@.subrange(start as int, i + 1) =~= Seq::<char>::empty());
            }
        } else {
            proof {
                assert(split(longer, sep) == before.drop_last().push(before.last().push(c)));
                assert(split(longer, sep).drop_last() =~= before.drop_last());
                assert(s@.subrange(start as int, i + 1) =~= before.last().push(c));
            }
        }
        i += 1;
    }
    let ghost all = split(s@, sep);
    let piece = String::from_str(s.substring_char(start, n));
    let ghost old_done = done.deep_view();
    done.push(piece);
    proof {
        assert(s@.take(n as int) =~= s@);
        assert(done.deep_view() =~= old_done.push(piece@));
        assert(all =~= all.drop_last().push(all.last()));
    }
    done
}

/// The items in a row, with `sep` between each two.
pub open spec fn joined(items: Seq<Seq<char>>, sep: Seq<char>) -> Seq<char>
    decreases items.len(),
{
    if items.len() == 0 {
        Seq::empty()
    } else if items.len() == 1 {
        items[0]
    } else {
        joined(items.drop_last(), sep) + sep + items.last()
    }
}

/// Whether `c` is white space, as Unicode has it.
pub open spec fn is_blank(c: char) -> bool {
    ('\u{9}' <= c && c <= '\u{d}') || c == ' ' || c == '\u{85}' || c == '\u{a0}' || c
        == '\u{1680}' || ('\u{2000}' <= c && c <= '\u{200a}') || c == '\u{2028}' || c
        == '\u{2029}' || c == '\u{202f}' || c == '\u{205f}' || c == '\u{3000}'
}

/// `s` without the white space at its end.
pub open spec fn trimmed_end(s: Seq<char>) -> Seq<char>
    decreases s.len(),
{
    if s.len() > 0 && is_blank(s.last()) {
        trimmed_end(s.drop_last())
    } else {
        s
    }
}

/// Each line with `margin` before it; the lines are what stands between
/// line feeds.
pub open spec fn indented(s: Seq<char>, margin: Seq<char>) -> Seq<char> {
    let lines = split(s, '\n');
    joined(Seq::new(lines.len(), |k: int| margin + lines[k]), seq!['\n'])
}

/// `count` blanks.
pub open spec fn blanks(count: nat) -> Seq<char> {
    Seq::new(count, |k: int| ' ')
}

/// Puts the items in a row, with `sep` between each two.
pub fn join(items: &Vec<String>, sep: &str) -> (r: String)
    ensures
        r@ == joined(items.deep_view(), sep@),
{
    let n = items.len();
    let mut out = String::new();
    let mut k: usize = 0;
    let ghost all = items.deep_view();
    assert(all.take(0) =~= Seq::<Seq<char>>::empty());
    while k < n
        invariant
            k <= n,
            n == items@.len(),
            all == items.deep_view(),
            out@ == joined(all.take(k as int), sep@),
        decreases n - k,
    {
        let ghost longer = all.take(k + 1);
        proof {
            assert(longer.drop_last() =~= all.take(k as int));
            assert(longer.last() == items@[k as int]@);
        }
        if k > 0 {
            out.append(sep);
        }
        out.append(items[k].as_str());
        proof {
            if k == 0 {
                assert(out@ =~= longer[0]);
            }
        }
        k += 1;
    }
    assert(all.take(n as int) =~= all);
    out
}

/// Whether `c` is white space.
pub fn blank(c: char) -> (r: bool)
    ensures
        r == is_blank(c),
{
    ('\u{9}' <= c && c <= '\u{d}') || c == ' ' || c == '\u{85}' || c == '\u{a0}' || c
        == '\u{1680}' || ('\u{2000}' <= c && c <= '\u{200a}') || c == '\u{2028}' || c
        == '\u{2029}' || c == '\u{202f}' || c == '\u{205f}' || c == '\u{3000}'
}

/// Drops the white space at the end.
pub fn trim_end<'a>(s: &'a str) -> (r: &'a str)
    ensures
        r@ == trimmed_end(s@),
{
    let mut n = s.unicode_len();
    assert(s@.take(n as int) =~= s@);
    while n > 0 && blank(s.get_char(n - 1))
        invariant
            n <= s@.len(),
            trimmed_end(s@) == trimmed_end(s@.take(n as int)),
        decreases n,
    {
        assert(s@.take(n as int).drop_last() =~= s@.take(n - 1));
        n -= 1;
    }
    let r = s.substring_char(0, n);
    assert(r@ =~= s@.take(n as int));
    r
}

/// Puts `level` blanks before each line.
pub fn indent(text: &str, level: usize) -> (r: String)
    ensures
        r@ == indented(text@, blanks(level as nat)),
{
    let mut margin = String::new();
    let mut i: usize = 0;
    assert(margin@ =~= blanks(0));
    while i < level
        invariant
            i <= level,
            margin@ == blanks(i as nat),
        decreases level - i,
    {
        proof {
            reveal_strlit(" ");
        }
        margin.append(" ");
        i += 1;
        assert(margin@ =~= blanks(i as nat));
    }
    let lines = split_on(text, '\n');
    let n = lines.len();
    let ghost wanted = Seq::new(
        lines.deep_view().len(),
        |k: int| blanks(level as nat) + lines.deep_view()[k],
    );
    let mut out = String::new();
    let mut k: usize = 0;
    assert(wanted.take(0) =~= Seq::<Seq<char>>::empty());
    while k < n
        invariant
            k <= n,
            n == lines@.len(),
            margin@ == blanks(level as nat),
            wanted == Seq::new(
                lines.deep_view().len(),
                |k: int| blanks(level as nat) + lines.deep_view()[k],
            ),
            out@ == joined(wanted.take(k as int), seq!['\n']),
        decreases n - k,
    {
        let ghost longer = wanted.take(k + 1);
        proof {
            reveal_strlit("\n");
            assert(longer.drop_last() =~= wanted.take(k as int));
            assert(longer.last() == margin@ + lines@[k as int]@);
            assert("\n"@ =~= seq!['\n']);
        }
        if k > 0 {
            out.append("\n");
        }
        out.append(margin.as_str());
        out.append(lines[k].as_str());
        proof {
            if k == 0 {
                assert(out@ =~= longer[0]);
            } else {
                assert(out@ =~= joined(longer.drop_last(), seq!['\n']) + seq!['\n']
                    + longer.last());
            }
        }
        k += 1;
    }
    assert(wanted.take(n as int) =~= wanted);
    out
}

} // verus!
