//! Helper functions for the application: turning a number of seconds into
//! the clock text that the player shows next to its seek bar.
use vstd::prelude::*;
use vstd::string::{StrSliceExecFns, StringExecFns};

verus! {

/// The character of a decimal digit.
pub open spec fn digit_char(d: nat) -> char {
    if d == 0 { '0' }
    else if d == 1 { '1' }
    else if d == 2 { '2' }
    else if d == 3 { '3' }
    else if d == 4 { '4' }
    else if d == 5 { '5' }
    else if d == 6 { '6' }
    else if d == 7 { '7' }
    else if d == 8 { '8' }
    else { '9' }
}

/// The value of a decimal digit character (`'0'..='9'`).
pub open spec fn char_value(c: char) -> nat {
    if c == '0' { 0 }
    else if c == '1' { 1 }
    else if c == '2' { 2 }
    else if c == '3' { 3 }
    else if c == '4' { 4 }
    else if c == '5' { 5 }
    else if c == '6' { 6 }
    else if c == '7' { 7 }
    else if c == '8' { 8 }
    else { 9 }
}

/// `c` is one of `'0'..='9'`.
pub open spec fn is_digit(c: char) -> bool {
    '0' <= c && c <= '9'
}

/// Every character of `s` is a decimal digit.
pub open spec fn all_digits(s: Seq<char>) -> bool {
    forall|i: int| 0 <= i < s.len() ==> #[trigger] is_digit(s[i])
}

/// The decimal text of `n`, without leading zeros (`0` is `"0"`).
pub open spec fn decimal(n: nat) -> Seq<char>
    decreases n,
{
    if n < 10 {
        seq![digit_char(n)]
    } else {
        decimal(n / 10).push(digit_char(n % 10))
    }
}

/// The two-digit, zero-padded decimal text of `n` (`n < 100`).
pub open spec fn two_digits(n: nat) -> Seq<char> {
    seq![digit_char(n / 10), digit_char(n % 10)]
}

/// The number that a string of decimal digits reads as.
pub open spec fn decimal_value(s: Seq<char>) -> nat
    decreases s.len(),
{
    if s.len() == 0 {
        0
    } else {
        decimal_value(s.drop_last()) * 10 + char_value(s.last())
    }
}

/// The clock text of a number of seconds: `h:mm:ss` when there is at least one
/// hour, `m:ss` otherwise.
pub open spec fn clock_text(seconds: nat) -> Seq<char> {
    let hours = seconds / 3600;
    let rest = seconds % 3600;
    let minutes = rest / 60;
    let secs = rest % 60;
    if hours > 0 {
        decimal(hours) + seq![':'] + two_digits(minutes) + seq![':'] + two_digits(secs)
    } else {
        decimal(minutes) + seq![':'] + two_digits(secs)
    }
}

proof fn lemma_digit_char(d: nat)
    requires
        d < 10,
    ensures
        is_digit(digit_char(d)),
        char_value(digit_char(d)) == d,
{
}

proof fn lemma_decimal(n: nat)
    ensures
        all_digits(decimal(n)),
        decimal(n).len() >= 1,
        decimal_value(decimal(n)) == n,
    decreases n,
{
    if n < 10 {
        lemma_digit_char(n);
        assert(decimal(n).drop_last() =~= Seq::<char>::empty());
        assert(decimal_value(Seq::<char>::empty()) == 0);
        assert(decimal_value(decimal(n)) == decimal_value(decimal(n).drop_last()) * 10 + char_value(decimal(n).last()));
    } else {
        lemma_decimal(n / 10);
        lemma_digit_char(n % 10);
        let s = decimal(n);
        assert(s.drop_last() =~= decimal(n / 10));
        assert(s.last() == digit_char(n % 10));
        assert(decimal_value(s) == decimal_value(s.drop_last()) * 10 + char_value(s.last()));
        assert(decimal_value(s) == (n / 10) * 10 + n % 10);
        assert forall|i: int| 0 <= i < s.len() implies #[trigger] is_digit(s[i]) by {
            if i < s.len() - 1 {
                assert(s[i] == decimal(n / 10)[i]);
            }
        }
    }
}

proof fn lemma_two_digits(n: nat)
    requires
        n < 100,
    ensures
        all_digits(two_digits(n)),
        two_digits(n).len() == 2,
        decimal_value(two_digits(n)) == n,
{
    lemma_digit_char(n / 10);
    lemma_digit_char(n % 10);
    let s = two_digits(n);
    assert(s.drop_last() =~= seq![digit_char(n / 10)]);
    assert(s.drop_last().drop_last() =~= Seq::<char>::empty());
    assert(decimal_value(Seq::<char>::empty()) == 0);
    assert(decimal_value(s.drop_last()) == decimal_value(s.drop_last().drop_last()) * 10 + char_value(s.drop_last().last()));
    assert(decimal_value(s) == decimal_value(s.drop_last()) * 10 + char_value(s.last()));
}

/// What `secs_to_hhmmss` shows reads back as the number of seconds it was given:
/// the text is made of decimal fields joined by `':'`, the minute and second fields
/// have two digits each and are below 60, and the fields, read as hours, minutes and
/// seconds (or minutes and seconds), add up to the given number of seconds.
pub proof fn lemma_clock_text_reads_back(seconds: nat)
    ensures
        seconds >= 3600 ==> exists|h: Seq<char>, m: Seq<char>, s: Seq<char>|
            #![trigger decimal_value(h), decimal_value(m), decimal_value(s)]
            {
                &&& clock_text(seconds) == h + seq![':'] + m + seq![':'] + s
                &&& all_digits(h) && all_digits(m) && all_digits(s)
                &&& h.len() >= 1 && m.len() == 2 && s.len() == 2
                &&& decimal_value(m) < 60 && decimal_value(s) < 60
                &&& decimal_value(h) * 3600 + decimal_value(m) * 60 + decimal_value(s) == seconds
            },
        seconds < 3600 ==> exists|m: Seq<char>, s: Seq<char>|
            #![trigger decimal_value(m), decimal_value(s)]
            {
                &&& clock_text(seconds) == m + seq![':'] + s
                &&& all_digits(m) && all_digits(s)
                &&& m.len() >= 1 && s.len() == 2
                &&& decimal_value(m) < 60 && decimal_value(s) < 60
                &&& decimal_value(m) * 60 + decimal_value(s) == seconds
            },
{
    let hours = seconds / 3600;
    let rest = seconds % 3600;
    let minutes = rest / 60;
    let secs = rest % 60;
    lemma_two_digits(secs);
    lemma_two_digits(minutes);
    if hours > 0 {
        lemma_decimal(hours);
        let h = decimal(hours);
        let m = two_digits(minutes);
        let s = two_digits(secs);
        assert(decimal_value(h) * 3600 + decimal_value(m) * 60 + decimal_value(s) == seconds);
    } else {
        lemma_decimal(minutes);
        let m = decimal(minutes);
        let s = two_digits(secs);
        assert(decimal_value(m) * 60 + decimal_value(s) == seconds);
    }
}

/// The one-character text of the digit `d`.
fn digit_str(d: u64) -> (s: &'static str)
    requires
        d < 10,
    ensures
        s@ == seq![digit_char(d as nat)],
{
    if d == 0 {
        proof { reveal_strlit("0"); }
        "0"
    } else if d == 1 {
        proof { reveal_strlit("1"); }
        "1"
    } else if d == 2 {
        proof { reveal_strlit("2"); }
        "2"
    } else if d == 3 {
        proof { reveal_strlit("3"); }
        "3"
    } else if d == 4 {
        proof { reveal_strlit("4"); }
        "4"
    } else if d == 5 {
        proof { reveal_strlit("5"); }
        "5"
    } else if d == 6 {
        proof { reveal_strlit("6"); }
        "6"
    } else if d == 7 {
        proof { reveal_strlit("7"); }
        "7"
    } else if d == 8 {
        proof { reveal_strlit("8"); }
        "8"
    } else {
        proof { reveal_strlit("9"); }
        "9"
    }
}

/// Appends the decimal text of `n` to `out`.
fn push_decimal(out: &mut String, n: u64)
    ensures
        final(out)@ == old(out)@ + decimal(n as nat),
    decreases n,
{
    if n >= 10 {
        push_decimal(out, n / 10);
    }
    out.append(digit_str(n % 10));
    proof {
        if n >= 10 {
            assert(decimal(n as nat) == decimal((n / 10) as nat).push(digit_char((n % 10) as nat)));
        }
    }
}

/// Appends the two-digit text of `n` (`n < 100`) to `out`.
fn push_two_digits(out: &mut String, n: u64)
    requires
        n < 100,
    ensures
        final(out)@ == old(out)@ + two_digits(n as nat),
{
    out.append(digit_str(n / 10));
    out.append(digit_str(n % 10));
}

/// convert seconds to hh:mm:ss
///
/// At least one hour gives `h:mm:ss` (`3725` is `"1:02:05"`), less than an hour
/// gives `m:ss` (`90` is `"1:30"`, `5` is `"0:05"`).
pub fn secs_to_hhmmss(seconds: u64) -> (text: String)
    ensures
        text@ == clock_text(seconds as nat),
{
    let hours = seconds / 3600;
    let rest = seconds % 3600;
    let minutes = rest / 60;
    let secs = rest % 60;
    let mut text = String::new();
    proof { reveal_strlit(":"); }
    if hours > 0 {
        push_decimal(&mut text, hours);
        text.append(":");
        push_two_digits(&mut text, minutes);
        text.append(":");
        push_two_digits(&mut text, secs);
    } else {
        push_decimal(&mut text, minutes);
        text.append(":");
        push_two_digits(&mut text, secs);
    }
    text
}

/// The part of `s` after its last backslash: all of `s` when it has none.
pub open spec fn after_last_backslash(s: Seq<char>) -> Seq<char>
    decreases s.len(),
{
    if s.len() == 0 {
        s
    } else if s.last() == '\\' {
        Seq::empty()
    } else {
        after_last_backslash(s.drop_last()).push(s.last())
    }
}

/// The window title: `"<file> - <title>"` for a player whose source is `uri`,
/// where `<file>` is the part of the uri after its last backslash; `title`
/// alone without a source.
pub open spec fn spec_window_title(uri: Option<Seq<char>>, title: Seq<char>) -> Seq<char> {
    match uri {
        Some(u) => after_last_backslash(u) + " - "@ + title,
        None => title,
    }
}

/// The index just after the last backslash of `s`, `0` when it has none.
fn start_of_last_part(s: &str) -> (start: usize)
    ensures
        start <= s@.len(),
        s@.subrange(start as int, s@.len() as int) == after_last_backslash(s@),
{
    let n = s.unicode_len();
    let mut start: usize = 0;
    let mut i: usize = 0;
    while i < n
        invariant
            n == s@.len(),
            start <= i <= n,
            s@.take(i as int).subrange(start as int, i as int) == after_last_backslash(s@.take(i as int)),
        decreases n - i,
    {
        let c = s.get_char(i);
        let ghost prefix = s@.take(i as int);
        assert(s@.take(i + 1).drop_last() =~= prefix);
        assert(s@.take(i + 1).last() == c);
        if c == '\\' {
            start = i + 1;
            assert(s@.take(i + 1).subrange(start as int, i + 1) =~= Seq::<char>::empty());
        } else {
            assert(s@.take(i + 1).subrange(start as int, i + 1) =~= prefix.subrange(start as int, i as int).push(c));
        }
        i = i + 1;
    }
    assert(s@.take(n as int) =~= s@);
    start
}

/// The title of the window: the name of the file that the player shows, after
/// its last backslash, then `" - "` and `title`; `title` alone when the player
/// has no source.
pub fn window_title(uri: Option<&str>, title: &str) -> (text: String)
    ensures
        text@ == spec_window_title(
            match uri {
                Some(u) => Some(u@),
                None => None,
            },
            title@,
        ),
{
    match uri {
        Some(u) => {
            let start = start_of_last_part(u);
            let n = u.unicode_len();
            let file = u.substring_char(start, n);
            let mut text = file.to_owned();
            text.append(" - ");
            text.append(title);
            text
        },
        None => title.to_owned(),
    }
}

/// The file part of a window title never holds a backslash, and ends the uri.
pub proof fn lemma_title_file_part(uri: Seq<char>)
    ensures
        forall|i: int| 0 <= i < after_last_backslash(uri).len() ==> after_last_backslash(uri)[i] != '\\',
        after_last_backslash(uri).len() <= uri.len(),
        after_last_backslash(uri) == uri.subrange(uri.len() - after_last_backslash(uri).len(), uri.len() as int),
    decreases uri.len(),
{
    if uri.len() > 0 && uri.last() != '\\' {
        lemma_title_file_part(uri.drop_last());
        let rest = after_last_backslash(uri.drop_last());
        assert(uri.subrange(uri.len() - rest.len() - 1, uri.len() as int)
            =~= uri.drop_last().subrange(uri.drop_last().len() - rest.len(), uri.drop_last().len() as int).push(uri.last()));
    } else if uri.len() > 0 {
        assert(uri.subrange(uri.len() as int, uri.len() as int) =~= Seq::<char>::empty());
    } else {
        assert(uri.subrange(0, 0) =~= uri);
    }
}

/// The window title of a player with a source is the uri's file part, then
/// `" - "` and the title; the file part is the longest end of the uri without a
/// backslash: it holds none, it ends the uri, and it is either the whole uri or
/// preceded by a backslash.
pub proof fn lemma_window_title_file_part(uri: Seq<char>, title: Seq<char>)
    ensures
        ({
            let part = after_last_backslash(uri);
            &&& spec_window_title(Some(uri), title) == part + " - "@ + title
            &&& spec_window_title(None, title) == title
            &&& part.len() <= uri.len()
            &&& part == uri.subrange(uri.len() - part.len(), uri.len() as int)
            &&& forall|i: int| 0 <= i < part.len() ==> part[i] != '\\'
            &&& (part.len() == uri.len() || uri[uri.len() - part.len() - 1] == '\\')
        }),
    decreases uri.len(),
{
    lemma_title_file_part(uri);
    if uri.len() > 0 && uri.last() != '\\' {
        lemma_window_title_file_part(uri.drop_last(), title);
        let rest = after_last_backslash(uri.drop_last());
        if rest.len() < uri.drop_last().len() {
            assert(uri[uri.len() - (rest.len() + 1) - 1] == uri.drop_last()[uri.drop_last().len() - rest.len() - 1]);
        }
    }
}

} // verus!
