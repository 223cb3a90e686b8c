//! Text helpers shared by the classifier and the handlers: whitespace tokens,
//! ASCII case folding, and decimal numbers.

use vstd::prelude::*;
use vstd::utf8::{decode_utf8, valid_utf8};

verus! {

/// Whether `c` separates tokens: the code points with the Unicode property
/// `White_Space`.
pub open spec fn is_space(c: char) -> bool {
    let n = c as u32;
    ||| 0x09 <= n <= 0x0D
    ||| n == 0x20
    ||| n == 0x85
    ||| n == 0xA0
    ||| n == 0x1680
    ||| 0x2000 <= n <= 0x200A
    ||| n == 0x2028
    ||| n == 0x2029
    ||| n == 0x202F
    ||| n == 0x205F
    ||| n == 0x3000
}

/// Tells whether a character separates tokens.
pub fn is_space_char(c: char) -> (r: bool)
    ensures
        r == is_space(c),
{
    let n: u32 = c as u32;
    (0x09 <= n && n <= 0x0D) || n == 0x20 || n == 0x85 || n == 0xA0 || n == 0x1680 || (0x2000 <= n
        && n <= 0x200A) || n == 0x2028 || n == 0x2029 || n == 0x202F || n == 0x205F || n == 0x3000
}

/// The word `cur`, if it has any character, as a one-element list.
pub open spec fn flush(cur: Seq<char>) -> Seq<Seq<char>> {
    if cur.len() > 0 {
        seq![cur]
    } else {
        Seq::empty()
    }
}

/// The tokens of `cur` followed by `s`, where `cur` is the word read so far
/// and holds no whitespace.
pub open spec fn split_from(s: Seq<char>, cur: Seq<char>) -> Seq<Seq<char>>
    decreases s.len(),
{
    if s.len() == 0 {
        flush(cur)
    } else if is_space(s[0]) {
        flush(cur) + split_from(s.skip(1), Seq::empty())
    } else {
        split_from(s.skip(1), cur.push(s[0]))
    }
}

/// The tokens of a text: its maximal runs of characters that are not
/// whitespace, in order. Leading, trailing and repeated whitespace yields
/// no empty token.
pub open spec fn tokens(s: Seq<char>) -> Seq<Seq<char>> {
    split_from(s, Seq::empty())
}

/// Whether a text is a word: it has a character, and none that is
/// whitespace.
pub open spec fn is_word(w: Seq<char>) -> bool {
    w.len() > 0 && forall|j: int| 0 <= j < w.len() ==> !is_space(#[trigger] w[j])
}

/// Splitting yields words, given that the word read so far holds no
/// whitespace.
pub proof fn lemma_split_yields_words(s: Seq<char>, cur: Seq<char>)
    requires
        forall|j: int| 0 <= j < cur.len() ==> !is_space(#[trigger] cur[j]),
    ensures
        forall|i: int| 0 <= i < split_from(s, cur).len() ==> is_word(#[trigger] split_from(s, cur)[i]),
    decreases s.len(),
{
    if s.len() == 0 {
        assert forall|i: int| 0 <= i < split_from(s, cur).len() implies is_word(
            #[trigger] split_from(s, cur)[i],
        ) by {
            assert(split_from(s, cur)[i] == cur);
        }
    } else if is_space(s[0]) {
        let rest = split_from(s.skip(1), Seq::empty());
        lemma_split_yields_words(s.skip(1), Seq::empty());
        assert forall|i: int| 0 <= i < split_from(s, cur).len() implies is_word(
            #[trigger] split_from(s, cur)[i],
        ) by {
            if i < flush(cur).len() {
                assert(split_from(s, cur)[i] == cur);
            } else {
                assert(split_from(s, cur)[i] == rest[i - flush(cur).len()]);
            }
        }
    } else {
        let next = cur.push(s[0]);
        assert forall|j: int| 0 <= j < next.len() implies !is_space(#[trigger] next[j]) by {
            if j < cur.len() {
                assert(next[j] == cur[j]);
            }
        }
        lemma_split_yields_words(s.skip(1), next);
        assert(split_from(s, cur) == split_from(s.skip(1), next));
    }
}

/// Every token has a character, and none that is whitespace: so a text of
/// whitespace alone, and the empty text, have no token.
pub proof fn lemma_tokens_are_words(s: Seq<char>)
    ensures
        forall|i: int| 0 <= i < tokens(s).len() ==> is_word(#[trigger] tokens(s)[i]),
{
    lemma_split_yields_words(s, Seq::empty());
}

/// The view of a text that may be missing.
pub open spec fn optional(o: Option<String>) -> Option<Seq<char>> {
    match o {
        Some(s) => Some(s@),
        None => None,
    }
}

/// The views of a list of owned strings.
pub open spec fn views(v: Seq<String>) -> Seq<Seq<char>> {
    Seq::new(v.len(), |i: int| v[i]@)
}

/// The views of a list with one more string are the views of the list with
/// one more view.
pub proof fn lemma_views_push(v: Seq<String>, s: String)
    ensures
        views(v.push(s)) == views(v).push(s@),
{
    assert(views(v.push(s)) =~= views(v).push(s@));
}

/// Splits a text into its tokens.
pub fn split_words(s: &str) -> (out: Vec<String>)
    ensures
        views(out@) == tokens(s@),
{
    let n: usize = s.unicode_len();
    let mut out: Vec<String> = Vec::new();
    let mut start: usize = 0;
    let mut i: usize = 0;
    assert(s@.skip(0) =~= s@);
    assert(s@.subrange(0, 0) =~= Seq::<char>::empty());
    assert(views(out@) =~= Seq::<Seq<char>>::empty());
    while i < n
        invariant
            n == s@.len(),
            start <= i <= n,
            tokens(s@) == views(out@) + split_from(s@.skip(i as int), s@.subrange(start as int, i as int)),
        decreases n - i,
    {
        let c = s.get_char(i);
        let ghost rest = s@.skip(i as int);
        let ghost cur = s@.subrange(start as int, i as int);
        assert(rest[0] == c);
        assert(rest.skip(1) =~= s@.skip(i + 1));
        if is_space_char(c) {
            if start < i {
                let word = s.substring_char(start, i);
                let owned = String::from_str(word);
                proof {
                    lemma_views_push(out@, owned);
                    assert(flush(cur) =~= seq![cur]);
                    assert(views(out@.push(owned)) =~= views(out@) + flush(cur));
                }
                out.push(owned);
            } else {
                assert(cur =~= Seq::<char>::empty());
                assert(views(out@) + flush(cur) =~= views(out@));
            }
            start = i + 1;
            assert(s@.subrange(start as int, i + 1) =~= Seq::<char>::empty());
            assert(views(out@) + split_from(rest.skip(1), Seq::empty()) =~= tokens(s@)) by {
                assert(split_from(rest, cur) == flush(cur) + split_from(rest.skip(1), Seq::empty()));
            }
        } else {
            assert(s@.subrange(start as int, i + 1) =~= cur.push(c));
        }
        i = i + 1;
    }
    assert(s@.skip(n as int) =~= Seq::<char>::empty());
    if start < n {
        let word = s.substring_char(start, n);
        let owned = String::from_str(word);
        proof {
            lemma_views_push(out@, owned);
            assert(views(out@.push(owned)) =~= views(out@) + flush(s@.subrange(start as int, n as int)));
        }
        out.push(owned);
    } else {
        assert(s@.subrange(start as int, n as int) =~= Seq::<char>::empty());
        assert(views(out@) + flush(Seq::<char>::empty()) =~= views(out@));
    }
    out
}

/// The lower-case form of an ASCII capital; any other character unchanged.
pub open spec fn fold_char(c: char) -> char {
    if 'A' <= c <= 'Z' {
        ((c as u8) + 32) as char
    } else {
        c
    }
}

/// Folds the case of one character.
pub fn fold(c: char) -> (r: char)
    ensures
        r == fold_char(c),
{
    if 'A' <= c && c <= 'Z' {
        ((c as u8) + 32) as char
    } else {
        c
    }
}

/// A text with its ASCII capitals in lower case.
pub open spec fn folded(s: Seq<char>) -> Seq<char> {
    Seq::new(s.len(), |i: int| fold_char(s[i]))
}

/// Whether two texts are equal once ASCII case is set aside.
pub open spec fn same_word(a: Seq<char>, b: Seq<char>) -> bool {
    folded(a) == folded(b)
}

/// Tells whether two texts are equal once ASCII case is set aside.
pub fn eq_ignore_case(a: &str, b: &str) -> (r: bool)
    ensures
        r == same_word(a@, b@),
{
    let n: usize = a.unicode_len();
    if b.unicode_len() != n {
        assert(folded(a@).len() != folded(b@).len());
        return false;
    }
    let mut i: usize = 0;
    while i < n
        invariant
            n == a@.len(),
            n == b@.len(),
            i <= n,
            forall|k: int| 0 <= k < i ==> fold_char(a@[k]) == fold_char(b@[k]),
        decreases n - i,
    {
        if fold(a.get_char(i)) != fold(b.get_char(i)) {
            assert(folded(a@)[i as int] != folded(b@)[i as int]);
            return false;
        }
        i = i + 1;
    }
    assert(folded(a@) =~= folded(b@));
    true
}

/// Whether two texts hold the same characters.
pub fn same_text(a: &str, b: &str) -> (r: bool)
    ensures
        r == (a@ == b@),
{
    let n: usize = a.unicode_len();
    if b.unicode_len() != n {
        return false;
    }
    let mut i: usize = 0;
    while i < n
        invariant
            n == a@.len(),
            n == b@.len(),
            i <= n,
            forall|k: int| 0 <= k < i ==> a@[k] == b@[k],
        decreases n - i,
    {
        if a.get_char(i) != b.get_char(i) {
            return false;
        }
        i = i + 1;
    }
    assert(a@ =~= b@);
    true
}

/// Whether `c` is one of the ten decimal digits.
pub open spec fn is_digit(c: char) -> bool {
    '0' <= c <= '9'
}

/// The number that the digit `c` stands for.
pub open spec fn digit_value(c: char) -> nat
    recommends
        is_digit(c),
{
    (c as u32 - '0' as u32) as nat
}

/// Whether a text holds decimal digits and nothing else.
pub open spec fn all_digits(s: Seq<char>) -> bool {
    forall|i: int| 0 <= i < s.len() ==> is_digit(#[trigger] s[i])
}

/// The number that a run of decimal digits denotes; 0 for the empty run.
pub open spec fn decimal_value(s: Seq<char>) -> nat
    decreases s.len(),
{
    if s.len() == 0 {
        0
    } else {
        decimal_value(s.drop_last()) * 10 + digit_value(s.last())
    }
}

/// The digits of a numeric argument: the text without one leading `+`.
pub open spec fn unsigned_part(s: Seq<char>) -> Seq<char> {
    if s.len() > 0 && s[0] == '+' {
        s.skip(1)
    } else {
        s
    }
}

/// The number that a numeric argument denotes: an optional `+`, then one or
/// more decimal digits and nothing else, of a value that fits 32 bits.
pub open spec fn parsed_u32(s: Seq<char>) -> Option<u32> {
    let d = unsigned_part(s);
    if d.len() > 0 && all_digits(d) && decimal_value(d) <= u32::MAX {
        Some(decimal_value(d) as u32)
    } else {
        None
    }
}

/// A run of digits denotes at least what any of its prefixes denotes.
pub proof fn lemma_decimal_value_prefix(s: Seq<char>, k: int)
    requires
        0 <= k <= s.len(),
    ensures
        decimal_value(s.take(k)) <= decimal_value(s),
    decreases s.len() - k,
{
    if k == s.len() {
        assert(s.take(k) =~= s);
    } else {
        lemma_decimal_value_prefix(s, k + 1);
        assert(s.take(k + 1).drop_last() =~= s.take(k));
    }
}

/// Reads a numeric argument.
pub fn parse_u32(s: &str) -> (r: Option<u32>)
    ensures
        r == parsed_u32(s@),
{
    let n: usize = s.unicode_len();
    let first: usize = if n > 0 && s.get_char(0) == '+' {
        1
    } else {
        0
    };
    let ghost d = unsigned_part(s@);
    assert(d =~= s@.skip(first as int));
    if first == n {
        return None;
    }
    let mut acc: u64 = 0;
    let mut i: usize = first;
    assert(d.take(0) =~= Seq::<char>::empty());
    while i < n
        invariant
            n == s@.len(),
            first <= i <= n,
            d == unsigned_part(s@),
            d == s@.skip(first as int),
            all_digits(d.take(i - first)),
            acc == decimal_value(d.take(i - first)),
            acc <= u32::MAX,
        decreases n - i,
    {
        let c = s.get_char(i);
        let ghost k = i - first;
        assert(d[k] == c);
        assert(d.take(k + 1).drop_last() =~= d.take(k));
        assert(d.take(k + 1).last() == c);
        if !('0' <= c && c <= '9') {
            assert(!is_digit(d[k]));
            return None;
        }
        let v: u64 = (c as u32 - '0' as u32) as u64;
        acc = acc * 10 + v;
        assert(acc == decimal_value(d.take(k + 1)));
        assert(all_digits(d.take(k + 1))) by {
            assert forall|j: int| 0 <= j < k + 1 implies is_digit(#[trigger] d.take(k + 1)[j]) by {
                if j < k {
                    assert(d.take(k + 1)[j] == d.take(k)[j]);
                }
            }
        }
        if acc > 0xFFFF_FFFF {
            proof {
                lemma_decimal_value_prefix(d, k + 1);
            }
            return None;
        }
        i = i + 1;
    }
    assert(d.take(n - first) =~= d);
    Some(acc as u32)
}

/// The character for a number below ten.
pub open spec fn digit_char(d: nat) -> char
    recommends
        d < 10,
{
    ((d + 48) as u8) as char
}

/// A number written in decimal digits, with no sign and no leading zero.
pub open spec fn decimal(n: nat) -> Seq<char>
    decreases n,
{
    if n < 10 {
        seq![digit_char(n)]
    } else {
        decimal(n / 10).push(digit_char(n % 10))
    }
}

fn digit_text(d: u32) -> (r: &'static str)
    requires
        d < 10,
    ensures
        r@ == seq![digit_char(d as nat)],
{
    proof {
        reveal_strlit("0");
        reveal_strlit("1");
        reveal_strlit("2");
        reveal_strlit("3");
        reveal_strlit("4");
        reveal_strlit("5");
        reveal_strlit("6");
        reveal_strlit("7");
        reveal_strlit("8");
        reveal_strlit("9");
    }
    let r = if d == 0 {
        "0"
    } else if d == 1 {
        "1"
    } else if d == 2 {
        "2"
    } else if d == 3 {
        "3"
    } else if d == 4 {
        "4"
    } else if d == 5 {
        "5"
    } else if d == 6 {
        "6"
    } else if d == 7 {
        "7"
    } else if d == 8 {
        "8"
    } else {
        "9"
    };
    assert(r@ =~= seq![digit_char(d as nat)]);
    r
}

/// Writes a number in decimal digits.
pub fn decimal_text(n: u32) -> (r: String)
    ensures
        r@ == decimal(n as nat),
{
    let mut rest: u32 = n;
    let mut low: String = String::new();
    assert(decimal(n as nat) + low@ =~= decimal(n as nat));
    while rest >= 10
        invariant
            decimal(n as nat) == decimal(rest as nat) + low@,
        decreases rest,
    {
        let mut next = String::from_str(digit_text(rest % 10));
        next.append(low.as_str());
        assert(decimal(rest as nat) + low@ =~= decimal((rest / 10) as nat) + next@);
        low = next;
        rest = rest / 10;
    }
    let mut out = String::from_str(digit_text(rest));
    out.append(low.as_str());
    out
}

/// The digits of a written number are digits, start with no sign, and
/// denote the number.
pub proof fn lemma_decimal_denotes(n: nat)
    ensures
        decimal(n).len() > 0,
        all_digits(decimal(n)),
        decimal_value(decimal(n)) == n,
    decreases n,
{
    if n < 10 {
        let s = seq![digit_char(n)];
        assert(s.drop_last() =~= Seq::<char>::empty());
        assert(decimal_value(s) == decimal_value(s.drop_last()) * 10 + digit_value(s.last()));
    } else {
        lemma_decimal_denotes(n / 10);
        let head = decimal(n / 10);
        let s = head.push(digit_char(n % 10));
        assert(s.drop_last() =~= head);
        assert(s.last() == digit_char(n % 10));
        assert forall|i: int| 0 <= i < s.len() implies is_digit(#[trigger] s[i]) by {
            if i < head.len() {
                assert(s[i] == head[i]);
            }
        }
    }
}

/// A number that was written reads back as itself.
pub proof fn lemma_written_reads_back(n: u32)
    ensures
        parsed_u32(decimal(n as nat)) == Some(n),
{
    lemma_decimal_denotes(n as nat);
    let s = decimal(n as nat);
    assert(is_digit(s[0]));
}

/// The words of a list set one after another with a single space between
/// two neighbours.
pub open spec fn joined(words: Seq<Seq<char>>) -> Seq<char>
    decreases words.len(),
{
    if words.len() == 0 {
        Seq::empty()
    } else if words.len() == 1 {
        words[0]
    } else {
        joined(words.drop_last()) + seq![' '] + words.last()
    }
}

/// The words of a list from position `from` on; none where the list ends
/// before.
pub open spec fn words_from(words: Seq<Seq<char>>, from: int) -> Seq<Seq<char>> {
    if 0 <= from <= words.len() {
        words.skip(from)
    } else {
        Seq::empty()
    }
}

/// Joins the words from position `from` on with single spaces.
pub fn join_from(words: &Vec<String>, from: usize) -> (r: String)
    ensures
        r@ == joined(words_from(views(words@), from as int)),
{
    let ghost tail = words_from(views(words@), from as int);
    let mut out = String::new();
    if from > words.len() {
        return out;
    }
    let mut i: usize = from;
    assert(tail.take(0) =~= Seq::<Seq<char>>::empty());
    while i < words.len()
        invariant
            from <= i <= words.len(),
            tail == views(words@).skip(from as int),
            out@ == joined(tail.take(i - from)),
        decreases words.len() - i,
    {
        proof {
            reveal_strlit(" ");
            assert(tail.take(i - from + 1).drop_last() =~= tail.take(i - from));
            assert(tail.take(i - from + 1).last() == words@[i as int]@);
        }
        if i > from {
            out.append(" ");
            assert(out@ =~= joined(tail.take(i - from)) + seq![' ']);
        } else {
            assert(out@ =~= Seq::<char>::empty());
        }
        out.append(words[i].as_str());
        assert(out@ =~= joined(tail.take(i - from + 1)));
        i = i + 1;
    }
    assert(tail.take(words.len() - from) =~= tail);
    out
}

/// What std has against bytes that are not UTF-8, in its own words.
pub uninterp spec fn utf8_complaint(bytes: Seq<u8>) -> Seq<char>;

/// The text that bytes encode in UTF-8, or std's complaint where they
/// encode none.
pub open spec fn decoded_text(bytes: Seq<u8>) -> Result<Seq<char>, Seq<char>> {
    if valid_utf8(bytes) {
        Ok(decode_utf8(bytes))
    } else {
        Err(utf8_complaint(bytes))
    }
}

/// Calls std's `String::from_utf8` and keeps the error's `Display`. The
/// contract claims what std documents: valid UTF-8 gives the text that the
/// bytes encode, anything else an error; and that the error's wording is a
/// function of the bytes.
#[verifier::external_body]
pub(crate) fn read_utf8(bytes: Vec<u8>) -> (r: Result<String, String>)
    ensures
        match r {
            Ok(text) => valid_utf8(bytes@) && text@ == decode_utf8(bytes@),
            Err(why) => !valid_utf8(bytes@) && why@ == utf8_complaint(bytes@),
        },
{
    match String::from_utf8(bytes) {
        Ok(text) => Ok(text),
        Err(e) => Err(e.to_string()),
    }
}

} // verus!
