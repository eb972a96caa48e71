//! Text primitives with exact contracts over `Seq<char>`.
use vstd::prelude::*;

verus! {

/// `pat` stands in `s` at index `i`.
pub open spec fn occurs_at(s: Seq<char>, pat: Seq<char>, i: int) -> bool {
    &&& 0 <= i
    &&& i + pat.len() <= s.len()
    &&& s.subrange(i, i + pat.len()) == pat
}

/// The least index of `s`, not below `from`, at which `pat` stands.
pub open spec fn find_from(s: Seq<char>, pat: Seq<char>, from: int) -> Option<int>
    decreases s.len() + 1 - from,
{
    if from < 0 || from + pat.len() > s.len() {
        None
    } else if occurs_at(s, pat, from) {
        Some(from)
    } else {
        find_from(s, pat, from + 1)
    }
}

/// The least index at which `pat` stands in `s`.
pub open spec fn find_sub(s: Seq<char>, pat: Seq<char>) -> Option<int> {
    find_from(s, pat, 0)
}

/// `find_from` is the least occurrence, and it is `None` only where there is none.
pub proof fn lemma_find_from(s: Seq<char>, pat: Seq<char>, from: int)
    requires
        0 <= from,
    ensures
        find_from(s, pat, from) matches Some(i) ==> from <= i && occurs_at(s, pat, i) && (forall|j: int|
            from <= j < i ==> !occurs_at(s, pat, j)),
        find_from(s, pat, from) is None ==> (forall|j: int| from <= j ==> !occurs_at(s, pat, j)),
    decreases s.len() + 1 - from,
{
    if from + pat.len() <= s.len() && !occurs_at(s, pat, from) {
        lemma_find_from(s, pat, from + 1);
    }
}

/// `s` holds `pat` somewhere.
pub open spec fn holds(s: Seq<char>, pat: Seq<char>) -> bool {
    exists|i: int| occurs_at(s, pat, i)
}

/// Characters with the Unicode property `White_Space`.
pub open spec fn is_white(c: char) -> bool {
    ||| '\u{9}' <= c <= '\u{d}'
    ||| c == ' '
    ||| c == '\u{85}'
    ||| c == '\u{a0}'
    ||| c == '\u{1680}'
    ||| '\u{2000}' <= c <= '\u{200a}'
    ||| c == '\u{2028}'
    ||| c == '\u{2029}'
    ||| c == '\u{202f}'
    ||| c == '\u{205f}'
    ||| c == '\u{3000}'
}

/// Nothing but white space, or nothing at all.
pub open spec fn is_blank(s: Seq<char>) -> bool {
    forall|i: int| 0 <= i < s.len() ==> is_white(#[trigger] s[i])
}

/// `s` without the run of `c` at its end.
pub open spec fn without_trailing(s: Seq<char>, c: char) -> Seq<char>
    decreases s.len(),
{
    if s.len() > 0 && s.last() == c {
        without_trailing(s.drop_last(), c)
    } else {
        s
    }
}

/// `s` without any copies of `prefix` at its front, however many there are.
pub open spec fn without_leading(s: Seq<char>, prefix: Seq<char>) -> Seq<char>
    decreases s.len(),
{
    if prefix.len() > 0 && prefix.is_prefix_of(s) {
        without_leading(s.skip(prefix.len() as int), prefix)
    } else {
        s
    }
}

/// The decimal digit of a number below ten.
pub open spec fn digit(n: nat) -> char {
    if n == 0 {
        '0'
    } else if n == 1 {
        '1'
    } else if n == 2 {
        '2'
    } else if n == 3 {
        '3'
    } else if n == 4 {
        '4'
    } else if n == 5 {
        '5'
    } else if n == 6 {
        '6'
    } else if n == 7 {
        '7'
    } else if n == 8 {
        '8'
    } else {
        '9'
    }
}

/// The decimal numeral of `n`, without leading zeros.
pub open spec fn numeral(n: nat) -> Seq<char>
    decreases n,
{
    if n < 10 {
        seq![digit(n)]
    } else {
        numeral(n / 10).push(digit(n % 10))
    }
}

/// The number of characters at the front of `s` that are not white space.
pub open spec fn word_end(s: Seq<char>) -> nat
    decreases s.len(),
{
    if s.len() == 0 || is_white(s[0]) {
        0
    } else {
        1 + word_end(s.skip(1))
    }
}

/// A word does not reach beyond the text; it holds no white space and white space or the end
/// follows it.
pub proof fn lemma_word_end(s: Seq<char>)
    ensures
        word_end(s) <= s.len(),
        forall|i: int| 0 <= i < word_end(s) ==> !is_white(#[trigger] s[i]),
        word_end(s) < s.len() ==> is_white(s[word_end(s) as int]),
    decreases s.len(),
{
    if s.len() > 0 && !is_white(s[0]) {
        lemma_word_end(s.skip(1));
        assert forall|i: int| 0 <= i < word_end(s) implies !is_white(#[trigger] s[i]) by {
            if i > 0 {
                assert(s[i] == s.skip(1)[i - 1]);
            }
        }
    }
}

/// The words of `s`: its maximal runs of characters that are not white space, in order.
pub open spec fn words(s: Seq<char>) -> Seq<Seq<char>>
    decreases s.len(),
{
    if s.len() == 0 {
        Seq::empty()
    } else if is_white(s[0]) {
        words(s.skip(1))
    } else {
        let end = 1 + word_end(s.skip(1));
        proof {
            lemma_word_end(s.skip(1));
        }
        seq![s.take(end as int)] + words(s.skip(end as int))
    }
}

/// The lines of `s`: split after each line feed, without that line feed and without a carriage
/// return just before it. A text that ends in a line feed has no further, empty line.
pub open spec fn lines(s: Seq<char>) -> Seq<Seq<char>>
    decreases s.len(),
{
    if s.len() == 0 {
        Seq::empty()
    } else {
        match find_sub(s, seq!['\n']) {
            Some(i) => if 0 <= i < s.len() {
                seq![without_carriage_return(s.take(i))] + lines(s.skip(i + 1))
            } else {
                seq![s]
            },
            None => seq![s],
        }
    }
}

/// `line` without one carriage return at its end.
pub open spec fn without_carriage_return(line: Seq<char>) -> Seq<char> {
    if line.len() > 0 && line.last() == '\r' {
        line.drop_last()
    } else {
        line
    }
}

/// The parts in order, with `sep` between neighbours.
pub open spec fn joined(parts: Seq<Seq<char>>, sep: Seq<char>) -> Seq<char>
    decreases parts.len(),
{
    if parts.len() == 0 {
        Seq::empty()
    } else if parts.len() == 1 {
        parts[0]
    } else {
        joined(parts.drop_last(), sep) + sep + parts.last()
    }
}

/// The views of a sequence of strings.
pub open spec fn views(strings: Seq<String>) -> Seq<Seq<char>> {
    strings.map_values(|s: String| s@)
}

/// Equality of two texts.
pub fn same(a: &str, b: &str) -> (res: bool)
    ensures
        res == (a@ == b@),
{
    a.to_owned() == b.to_owned()
}

/// The characters of a text.
pub fn chars_of(s: &str) -> (res: Vec<char>)
    ensures
        res@ == s@,
{
    let mut res: Vec<char> = Vec::new();
    for c in it: s.chars()
        invariant
            res@ =~= s@.take(it.index() as int),
            it.seq() == s@,
    {
        res.push(c);
    }
    res
}

/// Whether `s` begins with `prefix`.
pub fn starts_with(s: &str, prefix: &str) -> (res: bool)
    ensures
        res == prefix@.is_prefix_of(s@),
{
    let n: usize = prefix.unicode_len();
    if n > s.unicode_len() {
        return false;
    }
    same(s.substring_char(0, n), prefix)
}

/// Whether `pat` stands in `chars` at index `i`.
fn stands_at(chars: &Vec<char>, pat: &Vec<char>, i: usize) -> (res: bool)
    requires
        i + pat@.len() <= chars@.len(),
    ensures
        res == occurs_at(chars@, pat@, i as int),
{
    let total: usize = chars.len();
    let mut k: usize = 0;
    while k < pat.len()
        invariant
            k <= pat@.len(),
            total == chars@.len(),
            i + pat@.len() <= chars@.len(),
            forall|m: int| 0 <= m < k ==> chars@[i + m] == pat@[m],
        decreases pat@.len() - k,
    {
        if chars[i + k] != pat[k] {
            assert(chars@.subrange(i as int, i + pat@.len())[k as int] != pat@[k as int]);
            return false;
        }
        k = k + 1;
    }
    assert(chars@.subrange(i as int, i + pat@.len()) =~= pat@);
    true
}

/// The least index at which `pat` stands in `s`.
pub fn find(s: &str, pat: &str) -> (res: Option<usize>)
    ensures
        res matches Some(i) ==> find_sub(s@, pat@) == Some(i as int),
        res is None ==> find_sub(s@, pat@) is None,
{
    let chars = chars_of(s);
    let wanted = chars_of(pat);
    if wanted.len() > chars.len() {
        return None;
    }
    let last: usize = chars.len() - wanted.len();
    let mut i: usize = 0;
    loop
        invariant
            i <= last,
            last == chars@.len() - wanted@.len(),
            chars@ == s@,
            wanted@ == pat@,
            find_sub(s@, pat@) == find_from(s@, pat@, i as int),
        decreases last - i,
    {
        if stands_at(&chars, &wanted, i) {
            return Some(i);
        }
        if i == last {
            assert(find_from(s@, pat@, i + 1) is None);
            return None;
        }
        i = i + 1;
    }
}

/// Whether `pat` stands anywhere in `s`.
pub fn contains(s: &str, pat: &str) -> (res: bool)
    ensures
        res == holds(s@, pat@),
{
    proof {
        lemma_find_from(s@, pat@, 0);
    }
    find(s, pat).is_some()
}

/// Whether `c` is white space.
pub fn white(c: char) -> (res: bool)
    ensures
        res == is_white(c),
{
    ('\u{9}' <= c && c <= '\u{d}') || c == ' ' || c == '\u{85}' || c == '\u{a0}' || c == '\u{1680}'
        || ('\u{2000}' <= c && c <= '\u{200a}') || c == '\u{2028}' || c == '\u{2029}' || c
        == '\u{202f}' || c == '\u{205f}' || c == '\u{3000}'
}

/// Whether `s` holds nothing but white space.
pub fn blank(s: &str) -> (res: bool)
    ensures
        res == is_blank(s@),
{
    let chars = chars_of(s);
    let mut i: usize = 0;
    while i < chars.len()
        invariant
            i <= chars@.len(),
            chars@ == s@,
            forall|k: int| 0 <= k < i ==> is_white(#[trigger] s@[k]),
        decreases chars@.len() - i,
    {
        if !white(chars[i]) {
            assert(!is_white(s@[i as int]));
            return false;
        }
        i = i + 1;
    }
    true
}

/// `s` without the run of `c` at its end.
pub fn trim_end(s: &str, c: char) -> (res: String)
    ensures
        res@ == without_trailing(s@, c),
{
    let chars = chars_of(s);
    let mut n: usize = chars.len();
    assert(s@.take(n as int) =~= s@);
    while n > 0 && chars[n - 1] == c
        invariant
            n <= chars@.len(),
            chars@ == s@,
            without_trailing(s@, c) == without_trailing(s@.take(n as int), c),
        decreases n,
    {
        assert(s@.take(n as int).drop_last() =~= s@.take(n - 1));
        assert(s@.take(n as int).last() == s@[n - 1]);
        n = n - 1;
    }
    if n > 0 {
        assert(s@.take(n as int).last() == s@[n - 1]);
    }
    assert(s@.subrange(0, n as int) =~= s@.take(n as int));
    s.substring_char(0, n).to_owned()
}

/// `s` without any copies of `prefix` at its front.
pub fn trim_start(s: &str, prefix: &str) -> (res: String)
    ensures
        res@ == without_leading(s@, prefix@),
{
    let n: usize = prefix.unicode_len();
    let total: usize = s.unicode_len();
    if n == 0 {
        return s.to_owned();
    }
    let mut at: usize = 0;
    assert(s@.skip(0) =~= s@);
    while n <= total - at && starts_with(s.substring_char(at, total), prefix)
        invariant
            n == prefix@.len(),
            n > 0,
            total == s@.len(),
            at <= total,
            without_leading(s@, prefix@) == without_leading(s@.skip(at as int), prefix@),
        decreases total - at,
    {
        assert(s@.subrange(at as int, total as int) =~= s@.skip(at as int));
        assert(s@.skip(at as int).skip(n as int) =~= s@.skip(at + n));
        at = at + n;
    }
    assert(s@.subrange(at as int, total as int) =~= s@.skip(at as int));
    s.substring_char(at, total).to_owned()
}

/// The numeral of a digit.
fn digit_text(n: u64) -> (res: &'static str)
    requires
        n < 10,
    ensures
        res@ == seq![digit(n as nat)],
{
    proof {
        reveal_strlit("0");
        reveal_strlit("1");
        reveal_strlit("2");
        reveal_strlit("3");
        reveal_strlit("4");
        reveal_strlit("5");
        reveal_strlit("6");
        reveal_strlit("7");
        reveal_strlit("8");
        reveal_strlit("9");
    }
    let res: &'static str = match n {
        0 => "0",
        1 => "1",
        2 => "2",
        3 => "3",
        4 => "4",
        5 => "5",
        6 => "6",
        7 => "7",
        8 => "8",
        _ => "9",
    };
    assert(res@ =~= seq![digit(n as nat)]);
    res
}

/// The decimal numeral of `n`.
pub fn decimal(n: u64) -> (res: String)
    ensures
        res@ == numeral(n as nat),
    decreases n,
{
    if n < 10 {
        digit_text(n).to_owned()
    } else {
        let mut res = decimal(n / 10);
        res.append(digit_text(n % 10));
        assert(res@ =~= numeral(n as nat / 10).push(digit(n as nat % 10)));
        res
    }
}

/// Appending a string to a list appends its view to the views.
proof fn lemma_views_push(strings: Seq<String>, s: String)
    ensures
        views(strings.push(s)) =~= views(strings).push(s@),
{
}

/// The words of a text.
pub fn split_words(s: &str) -> (res: Vec<String>)
    ensures
        views(res@) == words(s@),
{
    let chars = chars_of(s);
    let total: usize = chars.len();
    let mut res: Vec<String> = Vec::new();
    let mut at: usize = 0;
    assert(s@.skip(0) =~= s@);
    assert(views(res@) =~= Seq::empty());
    assert(views(res@) + words(s@.skip(0)) =~= words(s@));
    while at < total
        invariant
            at <= total,
            total == chars@.len(),
            chars@ == s@,
            views(res@) + words(s@.skip(at as int)) == words(s@),
        decreases total - at,
    {
        let ghost rest = s@.skip(at as int);
        if white(chars[at]) {
            assert(rest.skip(1) =~= s@.skip(at + 1));
            at = at + 1;
        } else {
            let mut end: usize = at + 1;
            assert(rest.skip(1) =~= s@.skip(at + 1));
            while end < total && !white(chars[end])
                invariant
                    at < end <= total,
                    total == chars@.len(),
                    chars@ == s@,
                    word_end(s@.skip(at + 1)) == (end - at - 1) + word_end(s@.skip(end as int)),
                decreases total - end,
            {
                assert(s@.skip(end as int)[0] == s@[end as int]);
                assert(s@.skip(end as int).skip(1) =~= s@.skip(end + 1));
                end = end + 1;
            }
            if end < total {
                assert(s@.skip(end as int)[0] == s@[end as int]);
            }
            assert(word_end(s@.skip(end as int)) == 0);
            let word = s.substring_char(at, end).to_owned();
            proof {
                lemma_views_push(res@, word);
                assert(rest.take(end - at) =~= s@.subrange(at as int, end as int));
                assert(rest.skip(end - at) =~= s@.skip(end as int));
                assert(rest[0] == s@[at as int]);
                assert(views(res@) + (seq![word@] + words(s@.skip(end as int))) =~= views(res@).push(
                    word@,
                ) + words(s@.skip(end as int)));
            }
            res.push(word);
            at = end;
        }
    }
    assert(s@.skip(at as int).len() == 0);
    assert(views(res@) + words(s@.skip(at as int)) =~= views(res@));
    res
}

/// `line` without one carriage return at its end.
fn strip_carriage_return(line: &str) -> (res: &str)
    ensures
        res@ == without_carriage_return(line@),
{
    let n: usize = line.unicode_len();
    if n > 0 && line.get_char(n - 1) == '\r' {
        line.substring_char(0, n - 1)
    } else {
        line
    }
}

/// The lines of a text.
pub fn split_lines(s: &str) -> (res: Vec<String>)
    ensures
        views(res@) == lines(s@),
{
    let total: usize = s.unicode_len();
    let mut res: Vec<String> = Vec::new();
    let mut at: usize = 0;
    assert(s@.skip(0) =~= s@);
    assert(views(res@) + lines(s@.skip(0)) =~= lines(s@));
    proof {
        reveal_strlit("\n");
        assert("\n"@ =~= seq!['\n']);
    }
    while at < total
        invariant
            at <= total,
            total == s@.len(),
            "\n"@ == seq!['\n'],
            views(res@) + lines(s@.skip(at as int)) == lines(s@),
        decreases total - at,
    {
        let ghost rest = s@.skip(at as int);
        let tail = s.substring_char(at, total);
        assert(tail@ =~= rest);
        proof {
            lemma_find_from(rest, seq!['\n'], 0);
        }
        match find(tail, "\n") {
            Some(i) => {
                let line = strip_carriage_return(tail.substring_char(0, i)).to_owned();
                proof {
                    lemma_views_push(res@, line);
                    assert(rest.subrange(0, i as int) =~= rest.take(i as int));
                    assert(rest.skip(i + 1) =~= s@.skip(at + i + 1));
                    assert(views(res@) + (seq![line@] + lines(s@.skip(at + i + 1))) =~= views(
                        res@,
                    ).push(line@) + lines(s@.skip(at + i + 1)));
                }
                res.push(line);
                at = at + i + 1;
            },
            None => {
                let line = tail.to_owned();
                proof {
                    lemma_views_push(res@, line);
                    assert(lines(rest) =~= seq![rest]);
                    assert(views(res@) + seq![rest] =~= views(res@).push(line@));
                    assert(lines(s@.skip(total as int)) =~= Seq::empty());
                    assert(views(res@).push(line@) + lines(s@.skip(total as int)) =~= views(res@).push(
                        line@,
                    ));
                }
                res.push(line);
                at = total;
            },
        }
    }
    assert(s@.skip(at as int).len() == 0);
    assert(views(res@) + lines(s@.skip(at as int)) =~= views(res@));
    res
}

/// The parts in order, with `sep` between neighbours.
pub fn join(parts: &Vec<String>, sep: &str) -> (res: String)
    ensures
        res@ == joined(views(parts@), sep@),
{
    let mut res = String::new();
    let mut i: usize = 0;
    assert(views(parts@).take(0) =~= Seq::empty());
    while i < parts.len()
        invariant
            i <= parts@.len(),
            res@ == joined(views(parts@).take(i as int), sep@),
        decreases parts@.len() - i,
    {
        proof {
            assert(views(parts@).take(i + 1).drop_last() =~= views(parts@).take(i as int));
            assert(views(parts@).take(i + 1).last() == parts@[i as int]@);
        }
        if i > 0 {
            res.append(sep);
            res.append(parts[i].as_str());
        } else {
            res = parts[i].clone();
            assert(views(parts@).take(1)[0] == parts@[0]@);
        }
        i = i + 1;
    }
    assert(views(parts@).take(i as int) =~= views(parts@));
    res
}

} // verus!
