//! What holds of texts and numerals, stated of the calls that make and read them.
use crate::endpoints;
use crate::oidc::{self, RedirectReading};
use crate::seeding;
use crate::text;
use crate::urls;
use vstd::prelude::*;

verus! {

/// All characters are decimal digits.
pub open spec fn all_digits(s: Seq<char>) -> bool {
    forall|i: int| 0 <= i < s.len() ==> '0' <= #[trigger] s[i] <= '9'
}

/// The number that a row of decimal digits stands for, by the values of its characters.
pub open spec fn number_read(s: Seq<char>) -> int
    decreases s.len(),
{
    if s.len() == 0 {
        0
    } else {
        number_read(s.drop_last()) * 10 + (s.last() as int - '0' as int)
    }
}

/// The text is how the number is written: in decimal digits that stand for it, without leading zeros.
pub open spec fn writes(s: Seq<char>, n: int) -> bool {
    &&& s.len() > 0
    &&& all_digits(s)
    &&& number_read(s) == n
    &&& s.len() > 1 ==> s[0] != '0'
}

/// The numeral of a number reads as that number.
pub(crate) proof fn lemma_numeral_writes(n: nat)
    ensures
        writes(text::numeral(n), n as int),
        n > 0 ==> text::numeral(n)[0] != '0',
    decreases n,
{
    if n < 10 {
        let s = text::numeral(n);
        assert(s == seq![text::digit(n)]);
        assert(s.drop_last().len() == 0);
        assert(number_read(s.drop_last()) == 0);
    } else {
        lemma_numeral_writes(n / 10);
        let high = text::numeral(n / 10);
        let s = text::numeral(n);
        assert(s == high.push(text::digit(n % 10)));
        assert(s.drop_last() =~= high);
        assert forall|i: int| 0 <= i < s.len() implies '0' <= #[trigger] s[i] <= '9' by {
            if i < high.len() {
                assert(s[i] == high[i]);
            }
        }
        assert(s[0] == high[0]);
    }
}

/// A row of digits stands for a number that is not negative, and longer rows for no smaller ones.
proof fn lemma_number_read(s: Seq<char>)
    requires
        all_digits(s),
    ensures
        number_read(s) >= 0,
    decreases s.len(),
{
    if s.len() > 0 {
        assert(forall|i: int| 0 <= i < s.drop_last().len() ==> s.drop_last()[i] == s[i]);
        lemma_number_read(s.drop_last());
        assert('0' <= s[s.len() - 1] <= '9');
    }
}

/// A numeral, read by its characters, is the number that was written.
pub proof fn law_numerals_are_read_back(n: u64, res: String)
    requires
        call_ensures(text::decimal, (n,), res),
    ensures
        writes(res@, n as int),
{
    lemma_numeral_writes(n as nat);
}

/// The value of a row of digits is the number that it stands for.
proof fn lemma_digits_value(s: Seq<char>)
    ensures
        seeding::digits_value(s) == if all_digits(s) {
            Some(number_read(s) as nat)
        } else {
            None
        },
        all_digits(s) ==> number_read(s) >= 0,
    decreases s.len(),
{
    if s.len() > 0 {
        let high = s.drop_last();
        lemma_digits_value(high);
        if all_digits(s) {
            assert(forall|i: int| 0 <= i < high.len() ==> high[i] == s[i]);
            assert('0' <= s[s.len() - 1] <= '9');
            lemma_number_read(s);
        } else if all_digits(high) && '0' <= s.last() <= '9' {
            assert forall|i: int| 0 <= i < s.len() implies '0' <= #[trigger] s[i] <= '9' by {
                if i < high.len() {
                    assert(high[i] == s[i]);
                }
            }
        }
    }
}

/// A text is read as a number exactly where it is a row of decimal digits, with or without a plus sign
/// in front, whose number fits; and it is read as that number.
pub proof fn law_only_numbers_are_read(s: &str, res: Option<usize>)
    requires
        call_ensures(seeding::parse_usize, (s,), res),
    ensures
        ({
            let digits = if s@.len() > 0 && s@[0] == '+' {
                s@.subrange(1, s@.len() as int)
            } else {
                s@
            };
            match res {
                Some(n) => digits.len() > 0 && all_digits(digits) && number_read(digits) == n,
                None => digits.len() == 0 || !all_digits(digits) || number_read(digits)
                    > usize::MAX,
            }
        }),
{
    let digits = if s@.len() > 0 && s@[0] == '+' {
        s@.subrange(1, s@.len() as int)
    } else {
        s@
    };
    assert(digits =~= seeding::unsigned_text(s@));
    lemma_digits_value(digits);
}

/// What was written as a numeral is read as the same number.
pub proof fn law_a_numeral_is_parsed_back(n: u64, written: String, s: &str, res: Option<usize>)
    requires
        n <= usize::MAX,
        call_ensures(text::decimal, (n,), written),
        s@ == written@,
        call_ensures(seeding::parse_usize, (s,), res),
    ensures
        res == Some(n as usize),
{
    law_numerals_are_read_back(n, written);
    assert('0' <= written@[0] <= '9');
    law_only_numbers_are_read(s, res);
}

/// The redirect address leads to the port that the listener is bound to on the loopback host.
pub proof fn law_the_redirect_leads_to_the_listener(port: u16, res: String)
    requires
        call_ensures(oidc::redirect_uri_for, (port,), res),
    ensures
        exists|numeral: Seq<char>| #[trigger]
            writes(numeral, port as int) && res@ == "http://127.0.0.1:"@ + numeral + "/"@,
{
    lemma_numeral_writes(port as nat);
}

/// Different ports have different redirect addresses.
pub proof fn law_redirect_addresses_differ(one: u16, other: u16, first: String, second: String)
    requires
        call_ensures(oidc::redirect_uri_for, (one,), first),
        call_ensures(oidc::redirect_uri_for, (other,), second),
        first@ == second@,
    ensures
        one == other,
{
    law_the_redirect_leads_to_the_listener(one, first);
    law_the_redirect_leads_to_the_listener(other, second);
    let a = choose|numeral: Seq<char>| #[trigger]
        writes(numeral, one as int) && first@ == "http://127.0.0.1:"@ + numeral + "/"@;
    let b = choose|numeral: Seq<char>| #[trigger]
        writes(numeral, other as int) && second@ == "http://127.0.0.1:"@ + numeral + "/"@;
    let n = "http://127.0.0.1:"@.len() as int;
    assert(first@.len() == n + a.len() + "/"@.len());
    assert(second@.len() == n + b.len() + "/"@.len());
    assert(first@.subrange(n, n + a.len()) =~= a);
    assert(second@.subrange(n, n + b.len()) =~= b);
}

/// An address to listen on is the host and, behind a colon, the port.
pub proof fn law_listen_addresses_name_host_and_port(host: &str, port: u16, res: String)
    requires
        call_ensures(endpoints::listen_address, (host, port), res),
    ensures
        exists|numeral: Seq<char>| #[trigger]
            writes(numeral, port as int) && res@ == host@ + ":"@ + numeral,
{
    lemma_numeral_writes(port as nat);
}

/// The response to the browser says whether the login went through, and its declared length is the
/// number of bytes of its page.
pub proof fn law_the_browser_is_answered(reading: RedirectReading, res: String)
    requires
        call_ensures(oidc::redirect_response, (&reading,), res),
    ensures
        exists|numeral: Seq<char>, page: Seq<char>| #[trigger]
            writes(numeral, vstd::utf8::encode_utf8(page).len() as int) && res@
                == "HTTP/1.1 200 OK\r\nContent-Type: text/html\r\nContent-Length: "@ + numeral
                + "\r\nConnection: close\r\n\r\n"@ + page && page == match reading {
                RedirectReading::Code(_) =>
                    "<html><body><h2>Sign-in complete</h2>You may close this tab and return to the terminal.</body></html>"@,
                RedirectReading::StateMismatch =>
                    "<html><body><h2>Sign-in failed</h2>State mismatch; please try again.</body></html>"@,
                RedirectReading::Nothing => "<html><body>Waiting for sign-in...</body></html>"@,
            },
{
    let page = oidc::page_of(reading);
    lemma_numeral_writes(vstd::utf8::encode_utf8(page).len());
    assert(writes(
        text::numeral(vstd::utf8::encode_utf8(page).len()),
        vstd::utf8::encode_utf8(page).len() as int,
    ));
}

/// `pat` stands in `s` at `i`.
pub open spec fn stands(s: Seq<char>, pat: Seq<char>, i: int) -> bool {
    0 <= i && i + pat.len() <= s.len() && s.subrange(i, i + pat.len()) == pat
}

/// A search finds the first place at which the text stands, and nothing only where it stands nowhere.
pub proof fn law_a_search_finds_the_first_place(s: &str, pat: &str, res: Option<usize>)
    requires
        call_ensures(text::find, (s, pat), res),
    ensures
        match res {
            Some(i) => stands(s@, pat@, i as int) && forall|j: int|
                0 <= j < i ==> !#[trigger] stands(s@, pat@, j),
            None => forall|j: int| !#[trigger] stands(s@, pat@, j),
        },
{
    text::lemma_find_from(s@, pat@, 0);
    assert forall|j: int| stands(s@, pat@, j) == text::occurs_at(s@, pat@, j) by {}
}

/// A text is contained where it stands somewhere, and begins another where it stands at its front.
pub proof fn law_containment(s: &str, pat: &str, contained: bool, begins: bool)
    requires
        call_ensures(text::contains, (s, pat), contained),
        call_ensures(text::starts_with, (s, pat), begins),
    ensures
        contained <==> exists|j: int| #[trigger] stands(s@, pat@, j),
        begins <==> stands(s@, pat@, 0),
{
    assert forall|j: int| stands(s@, pat@, j) == text::occurs_at(s@, pat@, j) by {}
    if contained {
        let j = choose|j: int| text::occurs_at(s@, pat@, j);
        assert(stands(s@, pat@, j));
    }
    if exists|j: int| #[trigger] stands(s@, pat@, j) {
        let j = choose|j: int| #[trigger] stands(s@, pat@, j);
        assert(text::occurs_at(s@, pat@, j));
    }
}

/// Two texts are the same where they have the same characters.
pub proof fn law_same_texts(a: &str, b: &str, res: bool)
    requires
        call_ensures(text::same, (a, b), res),
    ensures
        res <==> a@.len() == b@.len() && forall|i: int| 0 <= i < a@.len() ==> a@[i] == b@[i],
{
    if a@.len() == b@.len() && forall|i: int| 0 <= i < a@.len() ==> a@[i] == b@[i] {
        assert(a@ =~= b@);
    }
}

pub(crate) proof fn lemma_without_trailing(s: Seq<char>, c: char)
    ensures
        ({
            let kept = text::without_trailing(s, c);
            &&& kept.len() <= s.len()
            &&& kept == s.take(kept.len() as int)
            &&& forall|i: int| kept.len() <= i < s.len() ==> s[i] == c
            &&& kept.len() > 0 ==> kept.last() != c
        }),
    decreases s.len(),
{
    if s.len() > 0 && s.last() == c {
        lemma_without_trailing(s.drop_last(), c);
        let kept = text::without_trailing(s, c);
        assert(s.drop_last().take(kept.len() as int) =~= s.take(kept.len() as int));
        assert forall|i: int| kept.len() <= i < s.len() implies s[i] == c by {
            if i < s.len() - 1 {
                assert(s.drop_last()[i] == s[i]);
            }
        }
    } else {
        assert(s.take(s.len() as int) =~= s);
    }
}

/// Trimming the end of a text takes away all copies of the character there, and nothing else.
pub proof fn law_the_end_is_trimmed(s: &str, c: char, res: String)
    requires
        call_ensures(text::trim_end, (s, c), res),
    ensures
        res@.len() <= s@.len(),
        res@ == s@.subrange(0, res@.len() as int),
        forall|i: int| res@.len() <= i < s@.len() ==> s@[i] == c,
        res@.len() > 0 ==> res@.last() != c,
{
    lemma_without_trailing(s@, c);
    assert(s@.take(res@.len() as int) =~= s@.subrange(0, res@.len() as int));
}

pub(crate) proof fn lemma_without_leading(s: Seq<char>, prefix: Seq<char>)
    requires
        prefix.len() > 0,
    ensures
        ({
            let kept = text::without_leading(s, prefix);
            let dropped = s.len() - kept.len();
            &&& dropped >= 0
            &&& dropped % (prefix.len() as int) == 0
            &&& kept == s.subrange(dropped, s.len() as int)
            &&& forall|i: int|
                0 <= i < dropped ==> #[trigger] s[i] == prefix[i % (prefix.len() as int)]
            &&& !stands(kept, prefix, 0)
        }),
    decreases s.len(),
{
    let n = prefix.len() as int;
    if prefix.is_prefix_of(s) {
        let rest = s.skip(n);
        lemma_without_leading(rest, prefix);
        let kept = text::without_leading(s, prefix);
        let dropped = s.len() - kept.len();
        assert(kept =~= s.subrange(dropped, s.len() as int));
        assert(dropped == n + (rest.len() - kept.len()));
        vstd::arithmetic::div_mod::lemma_mod_add_multiples_vanish(dropped - n, n);
        assert forall|i: int| 0 <= i < dropped implies #[trigger] s[i] == prefix[i % n] by {
            if i < n {
                vstd::arithmetic::div_mod::lemma_small_mod(i as nat, n as nat);
                assert(s.subrange(0, n)[i] == s[i]);
            } else {
                assert(rest[i - n] == s[i]);
                vstd::arithmetic::div_mod::lemma_mod_add_multiples_vanish(i - n, n);
            }
        }
    } else {
        assert(s.subrange(0, s.len() as int) =~= s);
        if stands(s, prefix, 0) {
            assert(s.subrange(0, n) == prefix);
        }
    }
}

/// Trimming the front of a text takes away all whole copies of the prefix there, and nothing else.
pub proof fn law_the_front_is_trimmed(s: &str, prefix: &str, res: String)
    requires
        call_ensures(text::trim_start, (s, prefix), res),
        prefix@.len() > 0,
    ensures
        res@.len() <= s@.len(),
        (s@.len() - res@.len()) % (prefix@.len() as int) == 0,
        res@ == s@.subrange(s@.len() - res@.len(), s@.len() as int),
        forall|i: int|
            0 <= i < s@.len() - res@.len() ==> #[trigger] s@[i] == prefix@[i % (
            prefix@.len() as int)],
        !stands(res@, prefix@, 0),
{
    lemma_without_leading(s@, prefix@);
}

/// White space by the numbers of its characters.
pub open spec fn is_space(c: char) -> bool {
    let n = c as int;
    ||| 9 <= n <= 13
    ||| n == 32
    ||| n == 0x85
    ||| n == 0xa0
    ||| n == 0x1680
    ||| 0x2000 <= n <= 0x200a
    ||| 0x2028 <= n <= 0x2029
    ||| n == 0x202f
    ||| n == 0x205f
    ||| n == 0x3000
}

/// White space is what Unicode takes for it, and a text is blank where it holds nothing else.
pub proof fn law_blank_texts(c: char, white: bool, s: &str, blank: bool)
    requires
        call_ensures(text::white, (c,), white),
        call_ensures(text::blank, (s,), blank),
    ensures
        white <==> is_space(c),
        blank <==> forall|i: int| 0 <= i < s@.len() ==> is_space(#[trigger] s@[i]),
{
    assert forall|d: char| #[trigger] is_space(d) == text::is_white(d) by {}
    if blank {
        assert forall|i: int| 0 <= i < s@.len() implies is_space(#[trigger] s@[i]) by {
            assert(text::is_white(s@[i]));
        }
    } else {
        let i = choose|i: int| 0 <= i < s@.len() && !text::is_white(#[trigger] s@[i]);
        assert(!is_space(s@[i]));
    }
}

/// A text without white space.
pub open spec fn is_word(s: Seq<char>) -> bool {
    s.len() > 0 && forall|i: int| 0 <= i < s.len() ==> !is_space(#[trigger] s[i])
}

proof fn lemma_word_end(s: Seq<char>, n: int)
    requires
        0 <= n <= s.len(),
        forall|i: int| 0 <= i < n ==> !is_space(#[trigger] s[i]),
        n == s.len() || is_space(s[n]),
    ensures
        text::word_end(s) == n,
    decreases s.len(),
{
    assert forall|d: char| #[trigger] is_space(d) == text::is_white(d) by {}
    if n > 0 {
        assert(!is_space(s[0]));
        let rest = s.skip(1);
        assert forall|i: int| 0 <= i < n - 1 implies !is_space(#[trigger] rest[i]) by {
            assert(rest[i] == s[i + 1]);
        }
        lemma_word_end(rest, n - 1);
    }
}

proof fn lemma_words(word: Seq<char>, behind: Seq<char>)
    requires
        is_word(word),
        behind.len() == 0 || is_space(behind[0]),
    ensures
        text::words(word + behind) == seq![word] + text::words(behind),
{
    assert forall|d: char| #[trigger] is_space(d) == text::is_white(d) by {}
    let s = word + behind;
    assert(!is_space(word[0]));
    assert(s[0] == word[0]);
    let n = word.len() as int;
    let rest = s.skip(1);
    assert forall|i: int| 0 <= i < n - 1 implies !is_space(#[trigger] rest[i]) by {
        assert(rest[i] == word[i + 1]);
    }
    lemma_word_end(rest, n - 1);
    assert(s.take(n) =~= word);
    assert(s.skip(n) =~= behind);
}

/// The words of a text are what stands between its white space: a word at the front is the first one,
/// and the words of what follows it are the others.
pub proof fn law_words_are_split_at_white_space(
    word: Seq<char>,
    behind: &str,
    whole: &str,
    words: Vec<String>,
    others: Vec<String>,
)
    requires
        is_word(word),
        behind@.len() == 0 || is_space(behind@[0]),
        whole@ == word + behind@,
        call_ensures(text::split_words, (whole,), words),
        call_ensures(text::split_words, (behind,), others),
    ensures
        words@.len() == 1 + others@.len(),
        words@[0]@ == word,
        forall|i: int| 0 <= i < others@.len() ==> (#[trigger] others@[i])@ == words@[i + 1]@,
{
    lemma_words(word, behind@);
    lemma_same_views(seq![word] + text::words(behind@), words@);
    lemma_same_views(text::words(behind@), others@);
    assert(text::words(whole@)[0] == word);
    assert forall|i: int| 0 <= i < others@.len() implies (#[trigger] others@[i])@ == words@[i
        + 1]@ by {
        assert(text::words(whole@)[i + 1] == text::words(behind@)[i]);
    }
}

/// White space in front of a text adds no word, and a text without any characters has none.
pub proof fn law_white_space_holds_no_words(
    c: char,
    behind: &str,
    whole: &str,
    words: Vec<String>,
    others: Vec<String>,
)
    requires
        is_space(c),
        whole@ == seq![c] + behind@,
        call_ensures(text::split_words, (whole,), words),
        call_ensures(text::split_words, (behind,), others),
    ensures
        words@.len() == others@.len(),
        forall|i: int| 0 <= i < others@.len() ==> (#[trigger] others@[i])@ == words@[i]@,
        behind@.len() == 0 ==> words@.len() == 0,
{
    assert(text::is_white(c));
    assert(whole@.skip(1) =~= behind@);
    lemma_same_views(text::words(behind@), words@);
    lemma_same_views(text::words(behind@), others@);
}

pub(crate) proof fn lemma_same_views(parts: Seq<Seq<char>>, strings: Seq<String>)
    requires
        text::views(strings) == parts,
    ensures
        strings.len() == parts.len(),
        forall|i: int| 0 <= i < parts.len() ==> (#[trigger] strings[i])@ == parts[i],
{
    assert forall|i: int| 0 <= i < parts.len() implies (#[trigger] strings[i])@ == parts[i] by {
        assert(text::views(strings)[i] == strings[i]@);
    }
}

/// The lines of a text end at its line feeds, without them and without a carriage return before them:
/// what stands before the first is the first line, and the lines of what follows are the others.
pub proof fn law_lines_end_at_line_feeds(
    line: Seq<char>,
    behind: &str,
    whole: &str,
    lines: Vec<String>,
    others: Vec<String>,
)
    requires
        !line.contains('\n'),
        whole@ == line + seq!['\n'] + behind@,
        call_ensures(text::split_lines, (whole,), lines),
        call_ensures(text::split_lines, (behind,), others),
    ensures
        lines@.len() == 1 + others@.len(),
        lines@[0]@ == if line.len() > 0 && line.last() == '\r' {
            line.subrange(0, line.len() - 1)
        } else {
            line
        },
        forall|i: int| 0 <= i < others@.len() ==> (#[trigger] others@[i])@ == lines@[i + 1]@,
{
    let s = whole@;
    let feed = seq!['\n'];
    let n = line.len() as int;
    text::lemma_find_from(s, feed, 0);
    assert(s.subrange(n, n + 1) =~= feed);
    assert(text::occurs_at(s, feed, n));
    assert forall|j: int| 0 <= j < n implies !text::occurs_at(s, feed, j) by {
        assert(s[j] == line[j]);
        assert(line.contains(line[j]));
        assert(s.subrange(j, j + 1)[0] == s[j]);
    }
    assert(text::find_sub(s, feed) == Some(n));
    assert(s.take(n) =~= line);
    assert(s.skip(n + 1) =~= behind@);
    let first = text::without_carriage_return(line);
    assert(line.len() > 0 ==> line.drop_last() =~= line.subrange(0, line.len() - 1));
    assert(text::lines(s) == seq![first] + text::lines(behind@));
    lemma_same_views(text::lines(s), lines@);
    lemma_same_views(text::lines(behind@), others@);
    assert(text::lines(s)[0] == first);
    assert forall|i: int| 0 <= i < others@.len() implies (#[trigger] others@[i])@ == lines@[i
        + 1]@ by {
        assert(text::lines(s)[i + 1] == text::lines(behind@)[i]);
    }
}

/// A text without line feeds is its only line, unless it has no characters at all.
pub proof fn law_a_text_without_line_feeds_is_a_line(s: &str, lines: Vec<String>)
    requires
        !s@.contains('\n'),
        call_ensures(text::split_lines, (s,), lines),
    ensures
        s@.len() == 0 ==> lines@.len() == 0,
        s@.len() > 0 ==> lines@.len() == 1 && lines@[0]@ == s@,
{
    let feed = seq!['\n'];
    text::lemma_find_from(s@, feed, 0);
    assert forall|j: int| !text::occurs_at(s@, feed, j) by {
        if text::occurs_at(s@, feed, j) {
            assert(s@.subrange(j, j + 1)[0] == s@[j]);
            assert(s@.contains(s@[j]));
        }
    }
    lemma_same_views(text::lines(s@), lines@);
}

/// Joined texts are the texts in their order with the separator between neighbours: adding a text adds
/// the separator, where there is one before it, and the text.
pub proof fn law_texts_are_joined(
    parts: Vec<String>,
    more: Vec<String>,
    sep: &str,
    joined: String,
    longer: String,
)
    requires
        more@.len() == parts@.len() + 1,
        forall|i: int| 0 <= i < parts@.len() ==> (#[trigger] more@[i])@ == parts@[i]@,
        call_ensures(text::join, (&parts, sep), joined),
        call_ensures(text::join, (&more, sep), longer),
    ensures
        parts@.len() == 0 ==> joined@.len() == 0,
        longer@ == if parts@.len() == 0 {
            more@.last()@
        } else {
            joined@ + sep@ + more@.last()@
        },
{
    let all = text::views(more@);
    assert(all.drop_last() =~= text::views(parts@));
    assert(all.last() == more@.last()@);
    if parts@.len() == 0 {
        assert(all[0] == more@.last()@);
    }
}

/// A parameter that is read is the last one with its name, and none is read only where there is none.
pub proof fn law_the_last_parameter_counts(
    pairs: Vec<(String, String)>,
    name: &str,
    res: Option<String>,
)
    requires
        call_ensures(urls::query_value, (&pairs, name), res),
    ensures
        match res {
            Some(value) => exists|i: int|
                0 <= i < pairs@.len() && #[trigger] pairs@[i].0@ == name@ && pairs@[i].1@ == value@
                    && forall|j: int| i < j < pairs@.len() ==> #[trigger] pairs@[j].0@ != name@,
            None => forall|i: int| 0 <= i < pairs@.len() ==> #[trigger] pairs@[i].0@ != name@,
        },
{
    lemma_last_value(urls::pair_views(pairs@), name@);
    let views = urls::pair_views(pairs@);
    assert forall|i: int| 0 <= i < pairs@.len() implies #[trigger] views[i] == (
        pairs@[i].0@,
        pairs@[i].1@,
    ) by {}
    match res {
        Some(value) => {
            let i = choose|i: int|
                0 <= i < views.len() && (#[trigger] views[i]).0 == name@ && views[i].1 == value@
                    && forall|j: int| i < j < views.len() ==> (#[trigger] views[j]).0 != name@;
            assert(pairs@[i].0@ == name@);
            assert forall|j: int| i < j < pairs@.len() implies #[trigger] pairs@[j].0@ != name@ by {
                assert(views[j].0 != name@);
            }
        },
        None => {
            assert forall|i: int| 0 <= i < pairs@.len() implies #[trigger] pairs@[i].0@ != name@ by {
                assert(views[i].0 != name@);
            }
        },
    }
}

/// What is found under a name is the value of the last pair with it.
pub(crate) proof fn lemma_last_value(pairs: Seq<(Seq<char>, Seq<char>)>, name: Seq<char>)
    ensures
        match urls::last_value(pairs, name) {
            Some(value) => exists|i: int|
                0 <= i < pairs.len() && (#[trigger] pairs[i]).0 == name && pairs[i].1 == value
                    && forall|j: int| i < j < pairs.len() ==> (#[trigger] pairs[j]).0 != name,
            None => forall|i: int| 0 <= i < pairs.len() ==> (#[trigger] pairs[i]).0 != name,
        },
    decreases pairs.len(),
{
    if pairs.len() > 0 {
        let n = pairs.len() - 1;
        if pairs.last().0 == name {
            assert(pairs[n].0 == name);
        } else {
            let before = pairs.drop_last();
            lemma_last_value(before, name);
            assert(forall|i: int| 0 <= i < n ==> before[i] == pairs[i]);
            match urls::last_value(pairs, name) {
                Some(value) => {
                    let i = choose|i: int|
                        0 <= i < before.len() && (#[trigger] before[i]).0 == name && before[i].1
                            == value && forall|j: int|
                            i < j < before.len() ==> (#[trigger] before[j]).0 != name;
                    assert(pairs[i].0 == name);
                    assert forall|j: int| i < j < pairs.len() implies (#[trigger] pairs[j]).0
                        != name by {
                        if j < n {
                            assert(before[j].0 != name);
                        }
                    }
                },
                None => {
                    assert forall|i: int| 0 <= i < pairs.len() implies (#[trigger] pairs[i]).0
                        != name by {
                        if i < n {
                            assert(before[i].0 != name);
                        }
                    }
                },
            }
        }
    }
}

/// Where there is nothing to trim away, nothing is; and a text is taken apart into all its characters,
/// in their order.
pub proof fn law_nothing_is_lost(
    s: &str,
    nothing: &str,
    res: String,
    chars: Vec<char>,
)
    requires
        nothing@.len() == 0,
        call_ensures(text::trim_start, (s, nothing), res),
        call_ensures(text::chars_of, (s,), chars),
    ensures
        res@ == s@,
        chars@.len() == s@.len(),
        forall|i: int| 0 <= i < s@.len() ==> #[trigger] chars@[i] == s@[i],
{
}

} // verus!
