//! Decimal integers as text, and the few other operations on text that the library needs.
use std::num::ParseIntError;
use vstd::prelude::*;
use vstd::string::*;

verus! {

/// The character of a decimal digit.
pub open spec fn digit(d: nat) -> char {
    (48 + d) as char
}

/// A natural number in decimal, without leading zeros.
pub open spec fn digits(n: nat) -> Seq<char>
    decreases n,
{
    if n < 10 {
        seq![digit(n)]
    } else {
        digits(n / 10).push(digit(n % 10))
    }
}

/// An integer in decimal: a minus sign where it is negative, then its digits.
pub open spec fn decimal(i: int) -> Seq<char> {
    if i < 0 {
        seq!['-'] + digits((-i) as nat)
    } else {
        digits(i as nat)
    }
}

fn digit_text(d: u32) -> (res: &'static str)
    requires
        d < 10,
    ensures
        res@ == seq![digit(d as nat)],
{
    proof {
        reveal_strlit("0");
        reveal_strlit("1");
        reveal_strlit("2");
        reveal_strlit("3");
        reveal_strlit("4");
        reveal_strlit("5");
        reveal_strlit("6");
        reveal_strlit("7");
        reveal_strlit("8");
        reveal_strlit("9");
    }
    match d {
        0 => "0",
        1 => "1",
        2 => "2",
        3 => "3",
        4 => "4",
        5 => "5",
        6 => "6",
        7 => "7",
        8 => "8",
        _ => "9",
    }
}

fn digits_text(n: u32) -> (res: String)
    ensures
        res@ == digits(n as nat),
    decreases n,
{
    if n < 10 {
        digit_text(n).to_owned()
    } else {
        let mut res = digits_text(n / 10);
        res.append(digit_text(n % 10));
        res
    }
}

/// Writes an integer in decimal.
pub fn decimal_text(i: i32) -> (res: String)
    ensures
        res@ == decimal(i as int),
{
    if i < 0 {
        proof {
            reveal_strlit("-");
        }
        let magnitude: u32 = (-(i as i64)) as u32;
        let mut res = "-".to_owned();
        res.append(digits_text(magnitude).as_str());
        res
    } else {
        digits_text(i as u32)
    }
}

/// Whether a character is a decimal digit.
pub open spec fn is_digit(c: char) -> bool {
    '0' <= c <= '9'
}

/// The number that a sequence of digits stands for.
pub open spec fn value(text: Seq<char>) -> nat
    decreases text.len(),
{
    if text.len() == 0 {
        0
    } else {
        (10 * value(text.drop_last()) + (text.last() as nat - 48)) as nat
    }
}

/// The natural number that a text stands for: one digit or more, and nothing else.
pub open spec fn natural(text: Seq<char>) -> Option<nat> {
    if text.len() > 0 && (forall|k: int| 0 <= k < text.len() ==> is_digit(#[trigger] text[k])) {
        Some(value(text))
    } else {
        None
    }
}

/// The integer that a text stands for: digits, behind a sign or not.
pub open spec fn integer(text: Seq<char>) -> Option<int> {
    if text.len() > 0 && text[0] == '-' {
        match natural(text.drop_first()) {
            Some(n) => Some(-n),
            None => None,
        }
    } else if text.len() > 0 && text[0] == '+' {
        match natural(text.drop_first()) {
            Some(n) => Some(n as int),
            None => None,
        }
    } else {
        match natural(text) {
            Some(n) => Some(n as int),
            None => None,
        }
    }
}

/// The `i32` that a text stands for, if it is an integer in range.
pub open spec fn parsed(text: Seq<char>) -> Option<i32> {
    match integer(text) {
        Some(i) => if i32::MIN <= i <= i32::MAX {
            Some(i as i32)
        } else {
            None
        },
        None => None,
    }
}

/// `str::parse::<i32>`: an optional sign and decimal digits, within the range of `i32`, are read
/// as the integer that they stand for; any other text is an error. What the error holds is left
/// unsaid.
#[verifier::external_body]
pub(crate) fn parse_i32(text: &str) -> (res: Result<i32, ParseIntError>)
    ensures
        match res {
            Ok(i) => parsed(text@) == Some(i),
            Err(_) => parsed(text@) is None,
        },
{
    text.parse()
}

/// Whether an error is what the attempt to read a text as an `i32` comes to.
pub closed spec fn refused_text(text: Seq<char>, e: ParseIntError) -> bool {
    exists|read: &str| #![trigger read@]
        read@ == text && call_ensures(parse_i32, (read,), Err::<i32, ParseIntError>(e))
}

/// The first text of a list that stands for no `i32`, by its index.
pub open spec fn first_unparsed(texts: Seq<Seq<char>>) -> Option<int> {
    if exists|k: int| is_first_unparsed(texts, k) {
        Some(choose|k: int| is_first_unparsed(texts, k))
    } else {
        None
    }
}

/// Whether the text at an index stands for no `i32`, and every one before it does.
pub open spec fn is_first_unparsed(texts: Seq<Seq<char>>, k: int) -> bool {
    &&& 0 <= k < texts.len()
    &&& parsed(texts[k]) is None
    &&& forall|j: int| 0 <= j < k ==> parsed(#[trigger] texts[j]) is Some
}

/// The integers that a list of texts stands for: all of them, in order, or else the first text
/// that stands for none.
pub open spec fn parsed_all(texts: Seq<Seq<char>>) -> Result<Seq<i32>, Seq<char>> {
    match first_unparsed(texts) {
        Some(k) => Err(texts[k]),
        None => Ok(Seq::new(texts.len(), |k: int| parsed(texts[k])->Some_0)),
    }
}

/// A text that was to be an integer and is none, with the error of the attempt to read it.
#[derive(Debug)]
pub struct Unparsed {
    pub source: ParseIntError,
    pub input: String,
}

/// The contents of a list of strings.
pub open spec fn texts(list: Seq<String>) -> Seq<Seq<char>> {
    list.map_values(|s: String| s@)
}

/// Reads every text of a list as an integer, up to the first that is none.
pub fn parse_all(list: Vec<String>) -> (res: Result<Vec<i32>, Unparsed>)
    ensures
        match res {
            Ok(ids) => parsed_all(texts(list@)) == Ok::<Seq<i32>, Seq<char>>(ids@),
            Err(e) => {
                &&& parsed_all(texts(list@)) == Err::<Seq<i32>, Seq<char>>(e.input@)
                &&& refused_text(e.input@, e.source)
            },
        },
{
    let mut ids: Vec<i32> = Vec::new();
    let mut k: usize = 0;
    while k < list.len()
        invariant
            k <= list.len(),
            ids.len() == k,
            forall|j: int| 0 <= j < k ==> parsed(#[trigger] texts(list@)[j]) == Some(ids[j]),
        decreases list.len() - k,
    {
        assert(texts(list@)[k as int] == list@[k as int]@);
        match parse_i32(list[k].as_str()) {
            Ok(id) => {
                ids.push(id);
            },
            Err(source) => {
                proof {
                    lemma_first_unparsed(texts(list@), k as int);
                }
                return Err(Unparsed { source, input: list[k].clone() });
            },
        }
        k = k + 1;
    }
    assert(parsed_all(texts(list@)) == Ok::<Seq<i32>, Seq<char>>(ids@)) by {
        assert(first_unparsed(texts(list@)) is None);
        assert(Seq::new(texts(list@).len(), |j: int| parsed(texts(list@)[j])->Some_0) =~= ids@);
    }
    Ok(ids)
}

proof fn lemma_first_unparsed(texts: Seq<Seq<char>>, k: int)
    requires
        is_first_unparsed(texts, k),
    ensures
        first_unparsed(texts) == Some(k),
{
    let j = choose|j: int| is_first_unparsed(texts, j);
    assert(is_first_unparsed(texts, j));
    if j < k {
        assert(parsed(texts[j]) is Some);
    }
    if k < j {
        assert(parsed(texts[k]) is Some);
    }
}

/// Tells whether a text begins with a prefix.
pub fn starts_with(text: &str, prefix: &str) -> (res: bool)
    ensures
        res == prefix@.is_prefix_of(text@),
{
    let len: usize = prefix.unicode_len();
    if text.unicode_len() < len {
        return false;
    }
    let mut k: usize = 0;
    while k < len
        invariant
            k <= len,
            len == prefix@.len(),
            len <= text@.len(),
            forall|j: int| 0 <= j < k ==> prefix@[j] == text@[j],
        decreases len - k,
    {
        if prefix.get_char(k) != text.get_char(k) {
            return false;
        }
        k = k + 1;
    }
    assert(prefix@ =~= text@.subrange(0, prefix@.len() as int));
    true
}

proof fn lemma_digits(n: nat)
    ensures
        digits(n).len() > 0,
        is_digit(digits(n)[0]),
        natural(digits(n)) == Some(n),
    decreases n,
{
    let d = n % 10;
    assert(digit(d) as nat == 48 + d);
    if n < 10 {
        assert(digits(n).drop_last() =~= Seq::<char>::empty());
        assert(value(digits(n).drop_last()) == 0);
    } else {
        lemma_digits(n / 10);
        assert(digits(n).drop_last() =~= digits(n / 10));
        assert forall|k: int| 0 <= k < digits(n).len() implies is_digit(#[trigger] digits(n)[k]) by {
            if k < digits(n / 10).len() {
                assert(is_digit(digits(n / 10)[k]));
            }
        }
    }
}

/// An integer written in decimal is read back as itself.
pub proof fn law_decimal_parses_back(i: i32)
    ensures
        parsed(decimal(i as int)) == Some(i),
{
    if i < 0 {
        lemma_digits((-i) as nat);
        assert(decimal(i as int).drop_first() =~= digits((-i) as nat));
    } else {
        lemma_digits(i as nat);
    }
}

/// Different integers are written differently.
pub proof fn law_decimal_is_injective(i: i32, j: i32)
    requires
        decimal(i as int) == decimal(j as int),
    ensures
        i == j,
{
    law_decimal_parses_back(i);
    law_decimal_parses_back(j);
}

proof fn lemma_digits_are_plain(n: nat)
    ensures
        digits(n).len() > 0,
        forall|k: int| 0 <= k < digits(n).len() ==> '0' <= #[trigger] digits(n)[k] <= '9',
        n > 0 ==> digits(n)[0] != '0',
        n < 10 ==> digits(n).len() == 1,
    decreases n,
{
    assert(digit(n % 10) as nat == 48 + n % 10);
    if n >= 10 {
        lemma_digits_are_plain(n / 10);
        assert forall|k: int| 0 <= k < digits(n).len() implies '0' <= #[trigger] digits(n)[k] <= '9' by {
            if k < digits(n / 10).len() {
                assert('0' <= digits(n / 10)[k] <= '9');
            }
        }
    }
}

/// The decimal form of a natural number is made of digits alone, and does not begin with a zero unless
/// it is that one digit. A negative number has a minus sign before the form of its magnitude.
pub proof fn law_decimal_is_plain(i: int)
    ensures
        i < 0 ==> decimal(i) == seq!['-'] + decimal(-i),
        i >= 0 ==> {
            &&& decimal(i).len() > 0
            &&& forall|k: int| 0 <= k < decimal(i).len() ==> '0' <= #[trigger] decimal(i)[k] <= '9'
            &&& decimal(i).len() > 1 ==> decimal(i)[0] != '0'
        },
{
    if i >= 0 {
        lemma_digits_are_plain(i as nat);
    }
}

/// A digit is read as itself.
pub proof fn law_digit_is_read(c: char)
    requires
        '0' <= c <= '9',
    ensures
        parsed(seq![c]) == Some((c as int - '0' as int) as i32),
{
    assert(seq![c].drop_last() =~= Seq::<char>::empty());
    assert(value(seq![c].drop_last()) == 0);
}

proof fn lemma_natural_grows(text: Seq<char>, c: char)
    requires
        text.len() > 0,
    ensures
        natural(text.push(c)) == (if is_digit(c) && natural(text) is Some {
            Some((10 * natural(text)->Some_0 + (c as nat - 48)) as nat)
        } else {
            None::<nat>
        }),
{
    assert(text.push(c).drop_last() =~= text);
    assert(text.push(c)[text.len() as int] == c);
    assert(forall|k: int| 0 <= k < text.len() ==> #[trigger] text[k] == text.push(c)[k]);
}

/// A digit behind an integer that can be read makes it ten times as large, and adds itself, away from
/// zero on the side that the sign tells; where the outcome is out of range, nothing is read.
pub proof fn law_digit_behind_an_integer_is_read(text: Seq<char>, c: char)
    requires
        parsed(text) is Some,
        '0' <= c <= '9',
    ensures
        ({
            let d = c as int - '0' as int;
            let grown = if text[0] == '-' {
                10 * parsed(text)->Some_0 - d
            } else {
                10 * parsed(text)->Some_0 + d
            };
            parsed(text.push(c)) == (if i32::MIN <= grown <= i32::MAX {
                Some(grown as i32)
            } else {
                None::<i32>
            })
        }),
{
    if text[0] == '-' || text[0] == '+' {
        assert(text.push(c).drop_first() =~= text.drop_first().push(c));
        lemma_natural_grows(text.drop_first(), c);
    } else {
        lemma_natural_grows(text, c);
    }
}

/// A text is an integer only if it has a digit, and nothing but digits behind its first character,
/// which is a digit or a sign.
pub proof fn law_only_digits_behind_a_sign_are_read(text: Seq<char>)
    requires
        parsed(text) is Some,
    ensures
        text.len() > 0,
        text[0] == '-' || text[0] == '+' || '0' <= text[0] <= '9',
        text[0] == '-' || text[0] == '+' ==> text.len() > 1,
        forall|k: int| 1 <= k < text.len() ==> '0' <= #[trigger] text[k] <= '9',
{
    assert forall|k: int| 1 <= k < text.len() implies '0' <= #[trigger] text[k] <= '9' by {
        if text[0] == '-' || text[0] == '+' {
            assert(is_digit(text.drop_first()[k - 1]));
        } else {
            assert(is_digit(text[k]));
        }
    }
}

/// A plus sign before digits changes nothing; a minus sign makes the integer negative.
pub proof fn law_sign_is_read(text: Seq<char>)
    requires
        parsed(text) is Some,
        '0' <= text[0] <= '9',
    ensures
        parsed(seq!['+'] + text) == parsed(text),
        parsed(seq!['-'] + text) == Some((-(parsed(text)->Some_0)) as i32),
{
    assert((seq!['+'] + text).drop_first() =~= text);
    assert((seq!['-'] + text).drop_first() =~= text);
}

/// The contents of a list of strings are those of each string, in order.
pub proof fn law_texts_are_those_of_the_list(list: Seq<String>)
    ensures
        texts(list).len() == list.len(),
        forall|k: int| 0 <= k < list.len() ==> #[trigger] texts(list)[k] == list[k]@,
{
}

/// Either every text of a list is read, each as the integer it stands for, in order; or the first text
/// that stands for none is told.
pub proof fn law_all_texts_are_read(list: Vec<String>, res: Result<Vec<i32>, Unparsed>)
    requires
        call_ensures(parse_all, (list,), res),
    ensures
        match res {
            Ok(ids) => {
                &&& ids@.len() == list@.len()
                &&& forall|k: int| 0 <= k < list@.len() ==> parsed((#[trigger] list@[k])@) == Some(ids@[k])
            },
            Err(e) => exists|k: int|
                {
                    &&& 0 <= k < list@.len()
                    &&& (#[trigger] list@[k])@ == e.input@
                    &&& parsed(e.input@) is None
                    &&& refused_text(e.input@, e.source)
                    &&& forall|j: int| 0 <= j < k ==> parsed((#[trigger] list@[j])@) is Some
                },
        },
{
    lemma_parsed_all(texts(list@));
    assert(forall|k: int| 0 <= k < list@.len() ==> texts(list@)[k] == (#[trigger] list@[k])@);
    match res {
        Ok(ids) => {},
        Err(e) => {
            let k = first_unparsed(texts(list@))->Some_0;
            assert(list@[k]@ == e.input@);
        },
    }
}

/// What the integers of a list of texts are, one by one.
pub proof fn lemma_parsed_all(texts: Seq<Seq<char>>)
    ensures
        match parsed_all(texts) {
            Ok(ids) => {
                &&& ids.len() == texts.len()
                &&& forall|k: int| 0 <= k < texts.len() ==> parsed(#[trigger] texts[k]) == Some(ids[k])
            },
            Err(input) => {
                &&& first_unparsed(texts) is Some
                &&& is_first_unparsed(texts, first_unparsed(texts)->Some_0)
                &&& input == texts[first_unparsed(texts)->Some_0]
            },
        },
{
    if first_unparsed(texts) is None {
        assert forall|k: int| 0 <= k < texts.len() implies parsed(#[trigger] texts[k]) is Some by {
            lemma_all_before_parsed(texts, k + 1);
        }
    }
}

proof fn lemma_all_before_parsed(texts: Seq<Seq<char>>, n: int)
    requires
        first_unparsed(texts) is None,
        0 <= n <= texts.len(),
    ensures
        forall|k: int| 0 <= k < n ==> parsed(#[trigger] texts[k]) is Some,
    decreases n,
{
    if n > 0 {
        lemma_all_before_parsed(texts, n - 1);
        if parsed(texts[n - 1]) is None {
            assert(is_first_unparsed(texts, n - 1));
        }
    }
}

/// Whether some items of a list are those at the given indices, in the order of the list.
pub open spec fn picked<A>(list: Seq<A>, items: Seq<A>, at: Seq<int>) -> bool {
    &&& at.len() == items.len()
    &&& forall|k: int| 0 <= k < at.len() ==> 0 <= #[trigger] at[k] < list.len() && items[k] == list[at[k]]
    &&& forall|j: int, k: int| 0 <= j < k < at.len() ==> #[trigger] at[j] < #[trigger] at[k]
}

/// The items that a filter keeps are at indices of the list, and no other items satisfy the condition.
pub(crate) proof fn lemma_filter_picks<A>(list: Seq<A>, keeps: spec_fn(A) -> bool) -> (at: Seq<int>)
    ensures
        picked(list, list.filter(keeps), at),
        forall|i: int| 0 <= i < list.len() ==> (at.contains(i) <==> keeps(#[trigger] list[i])),
    decreases list.len(),
{
    reveal(Seq::filter);
    if list.len() == 0 {
        assert(list.filter(keeps).len() == 0);
        Seq::empty()
    } else {
        let last = list.len() - 1;
        let rest = list.drop_last();
        let before = lemma_filter_picks(rest, keeps);
        assert(forall|i: int| 0 <= i < last ==> #[trigger] list[i] == rest[i]);
        let at = if keeps(list.last()) {
            before.push(last)
        } else {
            before
        };
        assert forall|i: int| 0 <= i < list.len() implies (at.contains(i) <==> keeps(#[trigger] list[i])) by {
            if before.contains(i) {
                let k = choose|k: int| 0 <= k < before.len() && before[k] == i;
                assert(at[k] == i);
            }
            if at.contains(i) {
                let k = choose|k: int| 0 <= k < at.len() && at[k] == i;
                if k < before.len() {
                    assert(before[k] == i);
                }
            }
            if i == last && keeps(list.last()) {
                assert(at[before.len() as int] == i);
            }
            if i < last {
                assert(rest[i] == list[i]);
            }
        }
        assert(picked(list, list.filter(keeps), at)) by {
            assert forall|k: int| 0 <= k < at.len() implies 0 <= #[trigger] at[k] < list.len() && list.filter(keeps)[k]
                == list[at[k]] by {
                if k < before.len() {
                    assert(before[k] == at[k]);
                    assert(rest.filter(keeps)[k] == rest[before[k]]);
                }
            }
            assert forall|j: int, k: int| 0 <= j < k < at.len() implies #[trigger] at[j] < #[trigger] at[k] by {
                assert(before[j] == at[j]);
                if k < before.len() {
                    assert(before[k] == at[k]);
                }
            }
        }
        at
    }
}

/// The error of a text that stands for no integer is one that the very attempt to read that text gives.
pub(crate) proof fn law_refusal_is_that_of_the_text(text: Seq<char>, e: ParseIntError)
    ensures
        refused_text(text, e) <==> exists|read: &str| #![trigger read@]
            read@ == text && call_ensures(parse_i32, (read,), Err::<i32, ParseIntError>(e)),
{
}

} // verus!
