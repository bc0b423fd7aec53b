//! Parsing the comma- or whitespace-separated lists typed into the setup form.
use vstd::prelude::*;
use vstd::std_specs::iter::IteratorSpec;

use crate::text::{decimal, digit_char};

verus! {

broadcast use vstd::string::group_string_axioms;

/// The characters of `text`, in order.
pub fn chars_of(text: &str) -> (out: Vec<char>)
    ensures
        out@ == text@,
{
    let mut out: Vec<char> = Vec::new();
    for c in it: text.chars()
        invariant
            out@ == it.seq().take(it.index()),
    {
        out.push(c);
    }
    assert(out@ =~= text@);
    out
}

} // verus!

verus! {

/// Characters that separate list entries: a comma or ASCII whitespace.
pub open spec fn is_separator(c: char) -> bool {
    c == ',' || c == ' ' || c == '\t' || c == '\n' || c == '\x0C' || c == '\r'
}

/// Scans `s` from the left: the entries completed so far and the entry in progress.
pub open spec fn scan(s: Seq<char>) -> (Seq<Seq<char>>, Seq<char>)
    decreases s.len(),
{
    if s.len() == 0 {
        (seq![], seq![])
    } else {
        let (done, current) = scan(s.drop_last());
        let c = s.last();
        if is_separator(c) {
            if current.len() > 0 {
                (done.push(current), seq![])
            } else {
                (done, seq![])
            }
        } else {
            (done, current.push(c))
        }
    }
}

/// The entries of `s`: its maximal runs of non-separator characters, in order.
pub open spec fn entries(s: Seq<char>) -> Seq<Seq<char>> {
    let (done, current) = scan(s);
    if current.len() > 0 {
        done.push(current)
    } else {
        done
    }
}

pub open spec fn is_digit(c: char) -> bool {
    '0' <= c && c <= '9'
}

/// The number that a string of decimal digits denotes.
pub open spec fn digits_value(d: Seq<char>) -> nat
    decreases d.len(),
{
    if d.len() == 0 {
        0
    } else {
        digits_value(d.drop_last()) * 10 + (d.last() as nat - '0' as nat) as nat
    }
}

/// `t` without a leading `+`.
pub open spec fn unsigned_digits(t: Seq<char>) -> Seq<char> {
    if t.len() > 0 && t[0] == '+' { t.drop_first() } else { t }
}

/// What `str::parse` gives for an unsigned integer type whose largest value
/// is `max`: an optional `+`, then at least one ASCII digit, denoting a
/// value of at most `max`.
pub open spec fn parse_bounded(t: Seq<char>, max: usize) -> Option<usize> {
    let d = unsigned_digits(t);
    if d.len() > 0 && (forall|i: int| 0 <= i < d.len() ==> is_digit(#[trigger] d[i]))
        && digits_value(d) <= max {
        Some(digits_value(d) as usize)
    } else {
        None
    }
}

/// What `str::parse::<usize>` gives.
pub open spec fn parse_usize(t: Seq<char>) -> Option<usize> {
    parse_bounded(t, usize::MAX)
}

/// The message for an entry that does not parse.
pub open spec fn invalid_entry_message(label: Seq<char>, entry: Seq<char>) -> Seq<char> {
    "invalid "@ + label + " value: "@ + entry
}

proof fn lemma_digits_value_monotone(d: Seq<char>, k: int, j: int)
    requires
        0 <= k <= j <= d.len(),
        forall|i: int| 0 <= i < d.len() ==> is_digit(#[trigger] d[i]),
    ensures
        digits_value(d.take(k)) <= digits_value(d.take(j)),
    decreases j - k,
{
    if k < j {
        lemma_digits_value_monotone(d, k, j - 1);
        assert(d.take(j).drop_last() =~= d.take(j - 1));
        assert(is_digit(d[j - 1]));
    }
}

/// Parses `chars[start..end]` as `str::parse` does for an unsigned type
/// whose largest value is `max`.
fn parse_bounded_range(chars: &Vec<char>, start: usize, end: usize, max: usize) -> (r: Option<usize>)
    requires
        start <= end <= chars@.len(),
    ensures
        r == parse_bounded(chars@.subrange(start as int, end as int), max),
{
    let ghost t = chars@.subrange(start as int, end as int);
    let first = if start < end && chars[start] == '+' {
        start + 1
    } else {
        start
    };
    let ghost d = chars@.subrange(first as int, end as int);
    assert(d =~= unsigned_digits(t));
    if first == end {
        return None;
    }
    let mut value: usize = 0;
    let mut i: usize = first;
    while i < end
        invariant
            first <= i <= end <= chars@.len(),
            d == chars@.subrange(first as int, end as int),
            d == unsigned_digits(t),
            t == chars@.subrange(start as int, end as int),
            forall|k: int| 0 <= k < i - first ==> is_digit(#[trigger] d[k]),
            value == digits_value(d.take(i - first)),
            value <= max,
        decreases end - i,
    {
        let c = chars[i];
        if !('0' <= c && c <= '9') {
            assert(!is_digit(d[i - first]));
            return None;
        }
        let digit = (c as u32 - '0' as u32) as usize;
        assert(d.take(i - first + 1).drop_last() =~= d.take(i - first));
        if digit > max || value > (max - digit) / 10 {
            proof {
                assert(digits_value(d.take(i - first + 1)) > max) by (nonlinear_arith)
                    requires
                        digits_value(d.take(i - first + 1)) == value * 10 + digit,
                        digit > max || value > (max - digit) / 10,
                        digit <= 9,
                        value >= 0,
                ;
                if forall|k: int| 0 <= k < d.len() ==> is_digit(#[trigger] d[k]) {
                    lemma_digits_value_monotone(d, i - first + 1, d.len() as int);
                    assert(d.take(d.len() as int) =~= d);
                }
            }
            return None;
        }
        assert(value * 10 + digit <= max) by (nonlinear_arith)
            requires
                digit <= max,
                value <= (max - digit) / 10,
                digit <= 9,
        ;
        value = value * 10 + digit;
        i = i + 1;
    }
    assert(d.take(d.len() as int) =~= d);
    Some(value)
}

/// Whether every entry parses.
pub open spec fn all_entries_parse(entries: Seq<Seq<char>>) -> bool {
    forall|k: int| 0 <= k < entries.len() ==> (#[trigger] parse_usize(entries[k])) is Some
}

/// Splits `text` at commas and ASCII whitespace, drops empty entries, and
/// parses each entry as a `usize`. The first entry that does not parse is named
/// in the error, with `label` saying which field it came from.
pub fn parse_list(text: &str, label: &str) -> (r: Result<Vec<usize>, String>)
    ensures
        match r {
            Ok(values) => {
                &&& all_entries_parse(entries(text@))
                &&& values@.len() == entries(text@).len()
                &&& forall|k: int|
                    0 <= k < values@.len() ==> Some(#[trigger] values@[k]) == parse_usize(
                        entries(text@)[k],
                    )
            },
            Err(message) => exists|k: int|
                {
                    &&& 0 <= k < entries(text@).len()
                    &&& parse_usize(#[trigger] entries(text@)[k]) is None
                    &&& forall|j: int| 0 <= j < k ==> (#[trigger] parse_usize(entries(text@)[j])) is Some
                    &&& message@ == invalid_entry_message(label@, entries(text@)[k])
                },
        },
{
    let chars = chars_of(text);
    let mut ranges: Vec<(usize, usize)> = Vec::new();
    let mut start: usize = 0;
    let mut i: usize = 0;
    while i < chars.len()
        invariant
            i <= chars@.len(),
            chars@ == text@,
            start <= i,
            scan(chars@.take(i as int)).1 == chars@.subrange(start as int, i as int),
            ranges@.len() == scan(chars@.take(i as int)).0.len(),
            forall|k: int|
                0 <= k < ranges@.len() ==> {
                    &&& (#[trigger] ranges@[k]).0 <= ranges@[k].1 <= i
                    &&& chars@.subrange(ranges@[k].0 as int, ranges@[k].1 as int) == scan(
                        chars@.take(i as int),
                    ).0[k]
                },
        decreases chars@.len() - i,
    {
        let ghost before = scan(chars@.take(i as int));
        assert(chars@.take(i + 1).drop_last() =~= chars@.take(i as int));
        let c = chars[i];
        if c == ',' || c == ' ' || c == '\t' || c == '\n' || c == '\x0C' || c == '\r' {
            if start < i {
                ranges.push((start, i));
            }
            start = i + 1;
            assert(chars@.subrange(start as int, i + 1) =~= seq![]);
        } else {
            assert(chars@.subrange(start as int, i + 1) =~= chars@.subrange(
                start as int,
                i as int,
            ).push(c));
        }
        i = i + 1;
    }
    assert(chars@.take(i as int) =~= chars@);
    if start < i {
        ranges.push((start, i));
    }
    let ghost all = entries(text@);
    assert(ranges@.len() == all.len());
    assert(forall|k: int|
        0 <= k < ranges@.len() ==> chars@.subrange(
            (#[trigger] ranges@[k]).0 as int,
            ranges@[k].1 as int,
        ) == all[k]);

    let mut values: Vec<usize> = Vec::new();
    let mut k: usize = 0;
    while k < ranges.len()
        invariant
            k <= ranges@.len(),
            chars@ == text@,
            all == entries(text@),
            ranges@.len() == all.len(),
            forall|m: int|
                0 <= m < ranges@.len() ==> {
                    &&& (#[trigger] ranges@[m]).0 <= ranges@[m].1 <= chars@.len()
                    &&& chars@.subrange(ranges@[m].0 as int, ranges@[m].1 as int) == all[m]
                },
            values@.len() == k,
            forall|m: int| 0 <= m < k ==> Some(#[trigger] values@[m]) == parse_usize(all[m]),
        decreases ranges@.len() - k,
    {
        let (s, e) = ranges[k];
        assert(chars@.subrange(s as int, e as int) == all[k as int]);
        match parse_bounded_range(&chars, s, e, usize::MAX) {
            Some(v) => {
                values.push(v);
            },
            None => {
                let entry = text.substring_char(s, e);
                let mut message = String::from_str("invalid ");
                message.append(label);
                message.append(" value: ");
                message.append(entry);
                assert(parse_usize(all[k as int]) is None);
                assert(forall|j: int| 0 <= j < k ==> (#[trigger] parse_usize(all[j])) is Some) by {
                    assert forall|j: int| 0 <= j < k implies (#[trigger] parse_usize(all[j])) is Some by {
                        assert(Some(values@[j]) == parse_usize(all[j]));
                    }
                }
                return Err(message);
            },
        }
        k = k + 1;
    }
    assert(all_entries_parse(all)) by {
        assert forall|m: int| 0 <= m < all.len() implies (#[trigger] parse_usize(all[m])) is Some by {
            assert(Some(values@[m]) == parse_usize(all[m]));
        }
    }
    Ok(values)
}

proof fn lemma_scan_shape(s: Seq<char>)
    ensures
        forall|k: int|
            0 <= k < scan(s).0.len() ==> (#[trigger] scan(s).0[k]).len() > 0 && forall|i: int|
                0 <= i < scan(s).0[k].len() ==> !is_separator(#[trigger] scan(s).0[k][i]),
        forall|i: int| 0 <= i < scan(s).1.len() ==> !is_separator(#[trigger] scan(s).1[i]),
    decreases s.len(),
{
    if s.len() > 0 {
        lemma_scan_shape(s.drop_last());
        let (done, current) = scan(s.drop_last());
        let c = s.last();
        if is_separator(c) {
            if current.len() > 0 {
                assert(scan(s).0 == done.push(current));
                assert forall|k: int| 0 <= k < scan(s).0.len() implies (#[trigger] scan(s).0[k]).len()
                    > 0 && forall|i: int|
                    0 <= i < scan(s).0[k].len() ==> !is_separator(#[trigger] scan(s).0[k][i]) by {
                    if k < done.len() {
                        assert(scan(s).0[k] == done[k]);
                    } else {
                        assert(scan(s).0[k] == current);
                    }
                }
            }
        } else {
            assert(scan(s).1 == current.push(c));
            assert forall|i: int| 0 <= i < scan(s).1.len() implies !is_separator(
                #[trigger] scan(s).1[i],
            ) by {
                if i < current.len() {
                    assert(scan(s).1[i] == current[i]);
                }
            }
        }
    }
}

/// Every entry of a list is non-empty and holds no separator.
pub proof fn lemma_entries_shape(s: Seq<char>)
    ensures
        forall|k: int|
            0 <= k < entries(s).len() ==> (#[trigger] entries(s)[k]).len() > 0 && forall|i: int|
                0 <= i < entries(s)[k].len() ==> !is_separator(#[trigger] entries(s)[k][i]),
{
    lemma_scan_shape(s);
}

proof fn lemma_digit_char(k: nat)
    requires
        k < 10,
    ensures
        is_digit(digit_char(k)),
        digit_char(k) as nat - '0' as nat == k,
{
}

proof fn lemma_decimal_digits(n: nat)
    ensures
        decimal(n).len() > 0,
        forall|i: int| 0 <= i < decimal(n).len() ==> is_digit(#[trigger] decimal(n)[i]),
        digits_value(decimal(n)) == n,
        decimal(n)[0] != '+',
    decreases n,
{
    lemma_digit_char(n % 10);
    if n >= 10 {
        lemma_decimal_digits(n / 10);
        let d = decimal(n);
        assert(d.drop_last() =~= decimal(n / 10));
        assert(d.last() == digit_char(n % 10));
        assert(digits_value(d) == digits_value(decimal(n / 10)) * 10 + n % 10);
    } else {
        let d = decimal(n);
        assert(d.drop_last() =~= seq![]);
        assert(digits_value(d.drop_last()) == 0);
    }
}

/// A count written in decimal parses back to itself.
pub proof fn lemma_parse_decimal_round_trip(n: usize)
    ensures
        parse_usize(decimal(n as nat)) == Some(n),
{
    lemma_decimal_digits(n as nat);
    assert(unsigned_digits(decimal(n as nat)) == decimal(n as nat));
}

/// Parses all of `text` as an unsigned value of at most `max`; the error
/// names the field.
fn parse_value_bounded(text: &str, label: &str, max: usize) -> (r: Result<usize, String>)
    ensures
        match parse_bounded(text@, max) {
            Some(v) => r == Ok::<usize, String>(v),
            None => r matches Err(e) && e@ == "invalid "@ + label@,
        },
{
    let chars = chars_of(text);
    assert(chars@.subrange(0, chars@.len() as int) =~= text@);
    match parse_bounded_range(&chars, 0, chars.len(), max) {
        Some(v) => Ok(v),
        None => {
            let mut message = String::from_str("invalid ");
            message.append(label);
            Err(message)
        },
    }
}

/// Parses a form field as a `usize`, as `str::parse` does.
pub fn parse_value_usize(text: &str, label: &str) -> (r: Result<usize, String>)
    ensures
        match parse_usize(text@) {
            Some(v) => r == Ok::<usize, String>(v),
            None => r matches Err(e) && e@ == "invalid "@ + label@,
        },
{
    parse_value_bounded(text, label, usize::MAX)
}

/// Parses a form field as a `u16`, as `str::parse` does.
pub fn parse_value_u16(text: &str, label: &str) -> (r: Result<u16, String>)
    ensures
        match parse_bounded(text@, 65535) {
            Some(v) => r == Ok::<u16, String>(v as u16),
            None => r matches Err(e) && e@ == "invalid "@ + label@,
        },
{
    match parse_value_bounded(text, label, 65535) {
        Ok(v) => Ok(v as u16),
        Err(e) => Err(e),
    }
}

} // verus!
