//! The time column of a directory listing: `Nov  5  2020` for a day of
//! another year, `Nov  5 13:46` for a day of the running one.

use vstd::prelude::*;
use crate::utils::text::{
    all_digits, ascii_lower, chars_of, decimal_value, is_digit, is_whitespace, lower, slice_of,
    whitespace,
};

verus! {

/// The length of the run of white space that `s` begins with.
pub open spec fn blank_len(s: Seq<char>) -> nat
    decreases s.len(),
{
    if s.len() > 0 && is_whitespace(s[0]) {
        1 + blank_len(s.drop_first())
    } else {
        0
    }
}

/// The length of the run of other characters that `s` begins with.
pub open spec fn word_len(s: Seq<char>) -> nat
    decreases s.len(),
{
    if s.len() > 0 && !is_whitespace(s[0]) {
        1 + word_len(s.drop_first())
    } else {
        0
    }
}

/// A run of `i` blanks that ends at a word or at the end is what `blank_len` counts.
proof fn lemma_blank_len(s: Seq<char>, i: int)
    requires
        0 <= i <= s.len(),
        forall|k: int| 0 <= k < i ==> is_whitespace(s[k]),
        i < s.len() ==> !is_whitespace(s[i]),
    ensures
        blank_len(s) == i,
    decreases s.len(),
{
    if s.len() > 0 && is_whitespace(s[0]) {
        let rest = s.drop_first();
        assert forall|k: int| 0 <= k < i - 1 implies is_whitespace(rest[k]) by {
            assert(rest[k] == s[k + 1]);
        }
        lemma_blank_len(rest, i - 1);
    }
}

/// A run of `i` other characters that ends at a blank or at the end is what
/// `word_len` counts.
proof fn lemma_word_len(s: Seq<char>, i: int)
    requires
        0 <= i <= s.len(),
        forall|k: int| 0 <= k < i ==> !is_whitespace(s[k]),
        i < s.len() ==> is_whitespace(s[i]),
    ensures
        word_len(s) == i,
    decreases s.len(),
{
    if s.len() > 0 && !is_whitespace(s[0]) {
        let rest = s.drop_first();
        assert forall|k: int| 0 <= k < i - 1 implies !is_whitespace(rest[k]) by {
            assert(rest[k] == s[k + 1]);
        }
        lemma_word_len(rest, i - 1);
    }
}

/// The three words of a time column: the text must be three words with
/// white space between them and none around them.
pub open spec fn time_words(s: Seq<char>) -> Option<(Seq<char>, Seq<char>, Seq<char>)> {
    let a = word_len(s);
    let r1 = s.skip(a as int);
    let w1 = blank_len(r1);
    let r2 = r1.skip(w1 as int);
    let b = word_len(r2);
    let r3 = r2.skip(b as int);
    let w2 = blank_len(r3);
    let r4 = r3.skip(w2 as int);
    if a > 0 && w1 > 0 && b > 0 && w2 > 0 && r4.len() > 0 && word_len(r4) == r4.len() {
        Some((s.take(a as int), r2.take(b as int), r4))
    } else {
        None
    }
}

/// Whether `w` is the three letters `a`, `b`, `c`, in either case.
pub open spec fn is_name(w: Seq<char>, a: char, b: char, c: char) -> bool {
    w.len() == 3 && ascii_lower(w[0]) == a && ascii_lower(w[1]) == b && ascii_lower(w[2]) == c
}

/// The number of the month that `w` names by its first three English
/// letters, 1 for January.
pub open spec fn month_number(w: Seq<char>) -> Option<int> {
    if is_name(w, 'j', 'a', 'n') {
        Some(1)
    } else if is_name(w, 'f', 'e', 'b') {
        Some(2)
    } else if is_name(w, 'm', 'a', 'r') {
        Some(3)
    } else if is_name(w, 'a', 'p', 'r') {
        Some(4)
    } else if is_name(w, 'm', 'a', 'y') {
        Some(5)
    } else if is_name(w, 'j', 'u', 'n') {
        Some(6)
    } else if is_name(w, 'j', 'u', 'l') {
        Some(7)
    } else if is_name(w, 'a', 'u', 'g') {
        Some(8)
    } else if is_name(w, 's', 'e', 'p') {
        Some(9)
    } else if is_name(w, 'o', 'c', 't') {
        Some(10)
    } else if is_name(w, 'n', 'o', 'v') {
        Some(11)
    } else if is_name(w, 'd', 'e', 'c') {
        Some(12)
    } else {
        None
    }
}

/// What one or two digits denote.
pub open spec fn short_number(w: Seq<char>) -> Option<int> {
    if 1 <= w.len() <= 2 && all_digits(w) {
        Some(decimal_value(w))
    } else {
        None
    }
}

/// What four digits denote.
pub open spec fn year_number(w: Seq<char>) -> Option<int> {
    if w.len() == 4 && all_digits(w) {
        Some(decimal_value(w))
    } else {
        None
    }
}

/// Hour and minute of a word such as `13:46`: one or two digits on either
/// side of its first colon, the hour below 24 and the minute below 60.
pub open spec fn clock(w: Seq<char>) -> Option<(int, int)> {
    let colon = crate::utils::text::first_index(w, ':');
    if colon >= w.len() {
        None
    } else {
        match (short_number(w.take(colon as int)), short_number(w.skip(colon as int + 1))) {
            (Some(h), Some(m)) => if h < 24 && m < 60 {
                Some((h, m))
            } else {
                None
            },
            _ => None,
        }
    }
}

/// Leap years are those divisible by 4, but of the centuries only every fourth.
pub open spec fn is_leap(y: int) -> bool {
    y % 4 == 0 && (y % 100 != 0 || y % 400 == 0)
}

/// The number of days of year `y`.
pub open spec fn year_days(y: int) -> int {
    if is_leap(y) {
        366
    } else {
        365
    }
}

/// The number of days of month `m` in year `y`.
pub open spec fn month_days(y: int, m: int) -> int {
    if m == 2 {
        if is_leap(y) {
            29
        } else {
            28
        }
    } else if m == 4 || m == 6 || m == 9 || m == 11 {
        30
    } else {
        31
    }
}

/// The days of year `y` that lie before its month `m`.
pub open spec fn days_before_month(y: int, m: int) -> int
    decreases m,
{
    if m <= 1 {
        0
    } else {
        days_before_month(y, m - 1) + month_days(y, m - 1)
    }
}

/// The days from the first of January 1970 to the first of January of `y`.
pub open spec fn days_before_year(y: int) -> int
    decreases y,
{
    if y <= 1970 {
        0
    } else {
        days_before_year(y - 1) + year_days(y - 1)
    }
}

/// The seconds from the start of 1970 to the given minute of the given day;
/// 0 for a day before 1970.
pub open spec fn epoch_seconds(y: int, m: int, d: int, hour: int, minute: int) -> int {
    if y < 1970 {
        0
    } else {
        (days_before_year(y) + days_before_month(y, m) + d - 1) * 86400 + hour * 3600 + minute
            * 60
    }
}

/// The time that a listing's time column denotes, in seconds since the start
/// of 1970. With a year the time is midnight of that day; with a clock the
/// day is one of `this_year`. The day must exist in its month.
pub open spec fn lstime(s: Seq<char>, this_year: int) -> Option<int> {
    match time_words(s) {
        None => None,
        Some((month, day, last)) => match (month_number(month), short_number(day)) {
            (Some(m), Some(d)) => match year_number(last) {
                Some(y) => if 1 <= d <= month_days(y, m) {
                    Some(epoch_seconds(y, m, d, 0, 0))
                } else {
                    None
                },
                None => match clock(last) {
                    Some((hour, minute)) => if 1 <= d <= month_days(this_year, m) {
                        Some(epoch_seconds(this_year, m, d, hour, minute))
                    } else {
                        None
                    },
                    None => None,
                },
            },
            _ => None,
        },
    }
}

/// The number of leap years before year `y` of our era.
pub open spec fn leaps_before(y: int) -> int {
    (y - 1) / 4 - (y - 1) / 100 + (y - 1) / 400
}

/// From 1970 on, the days before a year are 365 for each year since 1970 and
/// one more for each leap year among them.
pub proof fn lemma_days_before_year(y: int)
    requires
        y >= 1970,
    ensures
        days_before_year(y) == 365 * (y - 1970) + leaps_before(y) - 477,
    decreases y,
{
    if y > 1970 {
        lemma_days_before_year(y - 1);
    }
}

/// The end of the run of white space that starts at `from`.
fn blank_end(v: &Vec<char>, from: usize) -> (r: usize)
    requires
        from <= v.len(),
    ensures
        from <= r <= v.len(),
        r - from == blank_len(v@.skip(from as int)),
{
    let mut i: usize = from;
    while i < v.len() && whitespace(v[i])
        invariant
            from <= i <= v.len(),
            forall|k: int| from <= k < i ==> is_whitespace(v@[k]),
        decreases v.len() - i,
    {
        i += 1;
    }
    proof {
        lemma_blank_len(v@.skip(from as int), i - from);
    }
    i
}

/// The end of the word that starts at `from`.
fn word_end(v: &Vec<char>, from: usize) -> (r: usize)
    requires
        from <= v.len(),
    ensures
        from <= r <= v.len(),
        r - from == word_len(v@.skip(from as int)),
{
    let mut i: usize = from;
    while i < v.len() && !whitespace(v[i])
        invariant
            from <= i <= v.len(),
            forall|k: int| from <= k < i ==> !is_whitespace(v@[k]),
        decreases v.len() - i,
    {
        i += 1;
    }
    proof {
        lemma_word_len(v@.skip(from as int), i - from);
    }
    i
}

/// Splits a time column into its three words.
fn split_time_words(v: &Vec<char>) -> (r: Option<(Vec<char>, Vec<char>, Vec<char>)>)
    ensures
        r is Some == time_words(v@) is Some,
        r matches Some((month, day, last)) ==> (month@, day@, last@) == time_words(v@)->0,
{
    assert(v@.skip(0) =~= v@);
    let a: usize = word_end(v, 0);
    let b0: usize = blank_end(v, a);
    let b: usize = word_end(v, b0);
    let c0: usize = blank_end(v, b);
    let c: usize = word_end(v, c0);
    proof {
        let r1 = v@.skip(a as int);
        let r2 = r1.skip(b0 - a);
        let r3 = r2.skip(b - b0);
        let r4 = r3.skip(c0 - b);
        assert(r2 =~= v@.skip(b0 as int));
        assert(r3 =~= v@.skip(b as int));
        assert(r4 =~= v@.skip(c0 as int));
        assert(v@.take(a as int) =~= v@.subrange(0, a as int));
        assert(r2.take(b - b0) =~= v@.subrange(b0 as int, b as int));
        assert(r4 =~= v@.subrange(c0 as int, v@.len() as int));
    }
    if a > 0 && b0 > a && b > b0 && c0 > b && c0 < v.len() && c == v.len() {
        Some((slice_of(v, 0, a), slice_of(v, b0, b), slice_of(v, c0, v.len())))
    } else {
        None
    }
}

/// Whether `w` is the three letters `a`, `b`, `c`, in either case.
fn names(w: &Vec<char>, a: char, b: char, c: char) -> (r: bool)
    ensures
        r == is_name(w@, a, b, c),
{
    w.len() == 3 && lower(w[0]) == a && lower(w[1]) == b && lower(w[2]) == c
}

/// The number of the month that `w` names.
fn month_of(w: &Vec<char>) -> (r: Option<u64>)
    ensures
        r is Some == month_number(w@) is Some,
        r is Some ==> r->0 as int == month_number(w@)->0,
        r is Some ==> 1 <= r->0 <= 12,
{
    if names(w, 'j', 'a', 'n') {
        Some(1)
    } else if names(w, 'f', 'e', 'b') {
        Some(2)
    } else if names(w, 'm', 'a', 'r') {
        Some(3)
    } else if names(w, 'a', 'p', 'r') {
        Some(4)
    } else if names(w, 'm', 'a', 'y') {
        Some(5)
    } else if names(w, 'j', 'u', 'n') {
        Some(6)
    } else if names(w, 'j', 'u', 'l') {
        Some(7)
    } else if names(w, 'a', 'u', 'g') {
        Some(8)
    } else if names(w, 's', 'e', 'p') {
        Some(9)
    } else if names(w, 'o', 'c', 't') {
        Some(10)
    } else if names(w, 'n', 'o', 'v') {
        Some(11)
    } else if names(w, 'd', 'e', 'c') {
        Some(12)
    } else {
        None
    }
}

/// What the digits `v[from..to]` denote, where they are digits and at most
/// four of them.
fn digits_of(v: &Vec<char>, from: usize, to: usize) -> (r: Option<u64>)
    requires
        from <= to <= v.len(),
        to - from <= 4,
    ensures
        r is Some == all_digits(v@.subrange(from as int, to as int)),
        r is Some ==> r->0 as int == decimal_value(v@.subrange(from as int, to as int)),
        r is Some ==> r->0 < 10000,
        r is Some && to - from <= 2 ==> r->0 < 100,
{
    let ghost word = v@.subrange(from as int, to as int);
    let mut acc: u64 = 0;
    let mut bound: u64 = 1;
    let mut i: usize = from;
    assert(word.take(0).len() == 0);
    while i < to
        invariant
            from <= i <= to <= v.len(),
            to - from <= 4,
            word == v@.subrange(from as int, to as int),
            all_digits(word.take(i - from)),
            acc as int == decimal_value(word.take(i - from)),
            acc < bound,
            i - from == 0 ==> bound == 1,
            i - from == 1 ==> bound == 10,
            i - from == 2 ==> bound == 100,
            i - from == 3 ==> bound == 1000,
            i - from == 4 ==> bound == 10000,
        decreases to - i,
    {
        let c: char = v[i];
        let ghost prefix = word.take(i - from);
        let ghost next = word.take(i - from + 1);
        assert(next.drop_last() =~= prefix);
        assert(next.last() == c);
        if !(c >= '0' && c <= '9') {
            assert(!is_digit(word[i - from]));
            return None;
        }
        assert(all_digits(next)) by {
            assert forall|k: int| 0 <= k < next.len() implies is_digit(#[trigger] next[k]) by {
                if k < prefix.len() {
                    assert(next[k] == prefix[k]);
                }
            }
        }
        let d: u64 = (c as u32 - '0' as u32) as u64;
        acc = acc * 10 + d;
        bound = bound * 10;
        i += 1;
    }
    assert(word.take(i - from) =~= word);
    Some(acc)
}

/// What one or two digits denote.
fn short_of(v: &Vec<char>, from: usize, to: usize) -> (r: Option<u64>)
    requires
        from <= to <= v.len(),
    ensures
        r is Some == short_number(v@.subrange(from as int, to as int)) is Some,
        r is Some ==> r->0 as int == short_number(v@.subrange(from as int, to as int))->0,
        r is Some ==> r->0 < 100,
{
    if to - from < 1 || to - from > 2 {
        return None;
    }
    digits_of(v, from, to)
}

/// Hour and minute of a word such as `13:46`.
fn clock_of(w: &Vec<char>) -> (r: Option<(u64, u64)>)
    ensures
        r is Some == clock(w@) is Some,
        r matches Some((hour, minute)) ==> (hour as int, minute as int) == clock(w@)->0,
        r matches Some((hour, minute)) ==> hour < 24 && minute < 60,
{
    assert(w@.skip(0) =~= w@);
    let colon: usize = crate::utils::text::find_char(w, 0, ':');
    if colon >= w.len() {
        return None;
    }
    assert(w@.take(colon as int) =~= w@.subrange(0, colon as int));
    assert(w@.skip(colon + 1) =~= w@.subrange(colon + 1, w@.len() as int));
    match (short_of(w, 0, colon), short_of(w, colon + 1, w.len())) {
        (Some(h), Some(m)) => if h < 24 && m < 60 {
            Some((h, m))
        } else {
            None
        },
        _ => None,
    }
}

/// The minute of a day that exists lies in the year of that day: not
/// before its first second, and before the first second of the next year.
pub proof fn lemma_time_lies_in_its_year(y: int, m: int, d: int, hour: int, minute: int)
    requires
        y >= 1970,
        1 <= m <= 12,
        1 <= d <= month_days(y, m),
        0 <= hour < 24,
        0 <= minute < 60,
    ensures
        days_before_year(y) * 86400 <= epoch_seconds(y, m, d, hour, minute) < days_before_year(
            y + 1,
        ) * 86400,
{
    reveal_with_fuel(days_before_month, 13);
    assert(days_before_month(y, m) + month_days(y, m) <= year_days(y));
    assert(days_before_year(y + 1) == days_before_year(y) + year_days(y));
}

/// No year has more than 366 days.
proof fn lemma_days_before_year_bound(y: int)
    requires
        y >= 1970,
    ensures
        365 * (y - 1970) <= days_before_year(y) <= 366 * (y - 1970),
    decreases y,
{
    if y > 1970 {
        lemma_days_before_year_bound(y - 1);
    }
}

/// The year that a time lies in, given in seconds since the start of 1970.
/// Years beyond what 32 bits hold count as the last of them.
pub fn year_of(secs: u64) -> (y: u32)
    ensures
        y >= 1970,
        days_before_year(y as int) * 86400 <= secs,
        y < u32::MAX ==> secs < days_before_year(y + 1) * 86400,
{
    let day: u64 = secs / 86400;
    let guess: u64 = 1970 + day / 366;
    let mut y: u64 = if guess > u32::MAX as u64 {
        u32::MAX as u64
    } else {
        guess
    };
    proof {
        lemma_days_before_year(y as int);
        lemma_days_before_year_bound(y as int);
    }
    let leaps: u64 = (y - 1) / 4 - (y - 1) / 100 + (y - 1) / 400;
    let mut days: u64 = 365 * (y - 1970) + leaps - 477;
    while y < u32::MAX as u64 && days + days_of_year(y) <= day
        invariant
            1970 <= y <= u32::MAX,
            days as int == days_before_year(y as int),
            days <= day,
            day == secs / 86400,
        decreases u32::MAX - y,
    {
        days = days + days_of_year(y);
        y += 1;
    }
    y as u32
}

/// Tells whether `y` is a leap year.
fn leap(y: u64) -> (r: bool)
    ensures
        r == is_leap(y as int),
{
    y % 4 == 0 && (y % 100 != 0 || y % 400 == 0)
}

/// The number of days of year `y`.
fn days_of_year(y: u64) -> (r: u64)
    ensures
        r as int == year_days(y as int),
        365 <= r <= 366,
{
    if leap(y) {
        366
    } else {
        365
    }
}

/// The number of days of month `m` in year `y`.
fn days_of_month(y: u64, m: u64) -> (r: u64)
    ensures
        r as int == month_days(y as int, m as int),
        28 <= r <= 31,
{
    if m == 2 {
        if leap(y) {
            29
        } else {
            28
        }
    } else if m == 4 || m == 6 || m == 9 || m == 11 {
        30
    } else {
        31
    }
}

/// The seconds from the start of 1970 to the given minute of the given day.
fn seconds_of(y: u64, m: u64, d: u64, hour: u64, minute: u64) -> (r: u64)
    requires
        y <= u32::MAX,
        1 <= m <= 12,
        1 <= d <= 31,
        hour < 24,
        minute < 60,
    ensures
        r as int == epoch_seconds(y as int, m as int, d as int, hour as int, minute as int),
{
    if y < 1970 {
        return 0;
    }
    proof {
        lemma_days_before_year(y as int);
    }
    let leaps: u64 = (y - 1) / 4 - (y - 1) / 100 + (y - 1) / 400;
    let mut days: u64 = 365 * (y - 1970) + leaps - 477;
    let mut i: u64 = 1;
    let ghost base = days;
    while i < m
        invariant
            1 <= i <= m <= 12,
            days as int == base + days_before_month(y as int, i as int),
            days <= base + 31 * (i - 1),
            base < 0x2_0000_0000_0000,
        decreases m - i,
    {
        let n: u64 = days_of_month(y, i);
        days = days + n;
        i += 1;
    }
    (days + d - 1) * 86400 + hour * 3600 + minute * 60
}

/// Reads the time column of a listing, given as characters.
pub fn lstime_of(v: &Vec<char>, this_year: u32) -> (r: Option<u64>)
    ensures
        r is Some == lstime(v@, this_year as int) is Some,
        r is Some ==> r->0 as int == lstime(v@, this_year as int)->0,
{
    let words = split_time_words(v);
    let (month, day, last) = match words {
        None => {
            return None;
        },
        Some(w) => w,
    };
    assert(day@.subrange(0, day@.len() as int) =~= day@);
    assert(last@.subrange(0, last@.len() as int) =~= last@);
    let (m, d) = match (month_of(&month), short_of(&day, 0, day.len())) {
        (Some(m), Some(d)) => (m, d),
        _ => {
            return None;
        },
    };
    let year: Option<u64> = if last.len() == 4 {
        digits_of(&last, 0, 4)
    } else {
        None
    };
    match year {
        Some(y) => {
            if 1 <= d && d <= days_of_month(y, m) {
                Some(seconds_of(y, m, d, 0, 0))
            } else {
                None
            }
        },
        None => match clock_of(&last) {
            Some((hour, minute)) => {
                let y: u64 = this_year as u64;
                if 1 <= d && d <= days_of_month(y, m) {
                    Some(seconds_of(y, m, d, hour, minute))
                } else {
                    None
                }
            },
            None => None,
        },
    }
}

/// Reads the time column of a listing: the seconds since the start of 1970
/// that it denotes, if it denotes a time.
pub fn parse_lstime(tm: &str, this_year: u32) -> (r: Option<u64>)
    ensures
        r is Some == lstime(tm@, this_year as int) is Some,
        r is Some ==> r->0 as int == lstime(tm@, this_year as int)->0,
{
    let v = chars_of(tm);
    lstime_of(&v, this_year)
}

} // verus!
