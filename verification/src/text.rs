//! Character-level helpers shared by the rest of the library.
//!
//! Text is modelled as `Seq<char>`. Executable code that has to look inside a
//! string first turns it into a `Vec<char>`, works on that, and turns the
//! result back into a `String`.
use vstd::prelude::*;

verus! {

/// Trusted: `str::eq` from the standard library. The contract says that two
/// string slices compare equal exactly when they hold the same characters.
#[verifier::external_body]
pub(crate) fn text_eq(a: &str, b: &str) -> (same: bool)
    ensures
        same == (a@ == b@),
{
    a == b
}

/// Trusted: `String::from_iter` from the standard library. The contract says
/// that the string built from a list of characters holds exactly those
/// characters, in order.
#[verifier::external_body]
pub(crate) fn string_of(chars: &Vec<char>) -> (text: String)
    ensures
        text@ == chars@,
{
    String::from_iter(chars.iter())
}

/// The characters of `s`, in order.
pub(crate) fn chars_of(s: &str) -> (chars: Vec<char>)
    ensures
        chars@ == s@,
{
    let mut chars: Vec<char> = Vec::new();
    for c in it: s.chars()
        invariant
            chars@ == s@.take(it.index() as int),
            it.seq() == s@,
    {
        chars.push(c);
    }
    chars
}

/// The character that stands for the decimal digit `d`.
pub open spec fn digit_char(d: nat) -> char
    recommends
        d < 10,
{
    if d == 0 {
        '0'
    } else if d == 1 {
        '1'
    } else if d == 2 {
        '2'
    } else if d == 3 {
        '3'
    } else if d == 4 {
        '4'
    } else if d == 5 {
        '5'
    } else if d == 6 {
        '6'
    } else if d == 7 {
        '7'
    } else if d == 8 {
        '8'
    } else {
        '9'
    }
}

/// The decimal numeral of `n`: no sign, no leading zeros, `"0"` for zero.
pub open spec fn decimal_text(n: nat) -> Seq<char>
    decreases n,
{
    if n < 10 {
        seq![digit_char(n)]
    } else {
        decimal_text(n / 10).push(digit_char(n % 10))
    }
}

/// The character that stands for the decimal digit `d`.
pub(crate) fn digit_of(d: u8) -> (c: char)
    requires
        d < 10,
    ensures
        c == digit_char(d as nat),
{
    if d == 0 {
        '0'
    } else if d == 1 {
        '1'
    } else if d == 2 {
        '2'
    } else if d == 3 {
        '3'
    } else if d == 4 {
        '4'
    } else if d == 5 {
        '5'
    } else if d == 6 {
        '6'
    } else if d == 7 {
        '7'
    } else if d == 8 {
        '8'
    } else {
        '9'
    }
}

/// Appends the decimal numeral of `n` to `out`.
pub(crate) fn push_decimal(out: &mut Vec<char>, n: u128)
    ensures
        final(out)@ == old(out)@ + decimal_text(n as nat),
    decreases n,
{
    if n < 10 {
        out.push(digit_of(n as u8));
    } else {
        push_decimal(out, n / 10);
        out.push(digit_of((n % 10) as u8));
    }
}

/// Appends the characters of `s` to `out`.
pub(crate) fn push_text(out: &mut Vec<char>, s: &str)
    ensures
        final(out)@ == old(out)@ + s@,
{
    let ghost before = out@;
    for c in it: s.chars()
        invariant
            out@ == before + s@.take(it.index() as int),
            it.seq() == s@,
    {
        out.push(c);
    }
}

/// The decimal numeral of `n` as a string.
pub fn decimal_string(n: u64) -> (text: String)
    ensures
        text@ == decimal_text(n as nat),
{
    let mut chars: Vec<char> = Vec::new();
    push_decimal(&mut chars, n as u128);
    string_of(&chars)
}

/// The text of an optional string.
pub open spec fn optional_text(text: Option<String>) -> Option<Seq<char>> {
    match text {
        Some(t) => Some(t@),
        None => None,
    }
}

/// The texts of a list of strings, in order.
pub open spec fn texts(items: Seq<String>) -> Seq<Seq<char>> {
    items.map_values(|s: String| s@)
}

/// Whether one of `items` holds the text `wanted`.
pub fn contains_text(items: &Vec<String>, wanted: &str) -> (found: bool)
    ensures
        found == texts(items@).contains(wanted@),
{
    let mut i: usize = 0;
    while i < items.len()
        invariant
            i <= items.len(),
            forall|j: int| 0 <= j < i ==> texts(items@)[j] != wanted@,
        decreases items.len() - i,
    {
        if text_eq(items[i].as_str(), wanted) {
            assert(texts(items@)[i as int] == wanted@);
            return true;
        }
        i += 1;
    }
    false
}

/// The text that `str::to_lowercase` gives for a text.
pub uninterp spec fn lowercase_of(text: Seq<char>) -> Seq<char>;

/// Trusted: `str::to_lowercase` from the standard library. The contract names
/// the result: it depends on the text alone.
#[verifier::external_body]
pub(crate) fn lowercase(text: &str) -> (lower: String)
    ensures
        lower@ == lowercase_of(text@),
{
    text.to_lowercase()
}

/// Whether `char::is_whitespace` holds of a character.
pub uninterp spec fn is_whitespace(c: char) -> bool;

/// Whether `char::is_numeric` holds of a character.
pub uninterp spec fn is_numeric(c: char) -> bool;

/// Trusted: `char::is_whitespace` from the standard library. The contract
/// names the result: it depends on the character alone.
#[verifier::external_body]
pub(crate) fn whitespace(c: char) -> (yes: bool)
    ensures
        yes == is_whitespace(c),
{
    c.is_whitespace()
}

/// Trusted: `char::is_numeric` from the standard library. The contract names
/// the result: it depends on the character alone.
#[verifier::external_body]
pub(crate) fn numeric(c: char) -> (yes: bool)
    ensures
        yes == is_numeric(c),
{
    c.is_numeric()
}

/// The text without the whitespace at its start.
pub open spec fn trim_start(text: Seq<char>) -> Seq<char>
    decreases text.len(),
{
    if text.len() > 0 && is_whitespace(text.first()) {
        trim_start(text.drop_first())
    } else {
        text
    }
}

/// The text without the whitespace at its end.
pub open spec fn trim_end(text: Seq<char>) -> Seq<char>
    decreases text.len(),
{
    if text.len() > 0 && is_whitespace(text.last()) {
        trim_end(text.drop_last())
    } else {
        text
    }
}

/// The text without the whitespace at its start and at its end.
pub open spec fn trim(text: Seq<char>) -> Seq<char> {
    trim_end(trim_start(text))
}

/// The text without the numeric characters at its start.
pub open spec fn skip_numeric(text: Seq<char>) -> Seq<char>
    decreases text.len(),
{
    if text.len() > 0 && is_numeric(text.first()) {
        skip_numeric(text.drop_first())
    } else {
        text
    }
}

/// The lines of a text: the runs between line feeds. A text without a line
/// feed is one line.
pub open spec fn lines_of(text: Seq<char>) -> Seq<Seq<char>>
    decreases text.len(),
{
    match text.index_of_first('\n') {
        Some(i) => if 0 <= i < text.len() {
            seq![text.take(i)] + lines_of(text.skip(i + 1))
        } else {
            seq![text]
        },
        None => seq![text],
    }
}

/// The place where the text from `from` up to `to` starts once the whitespace
/// at its start is gone.
pub(crate) fn trim_start_at(chars: &Vec<char>, from: usize, to: usize) -> (start: usize)
    requires
        from <= to <= chars.len(),
    ensures
        from <= start <= to,
        chars@.subrange(start as int, to as int) == trim_start(
            chars@.subrange(from as int, to as int),
        ),
{
    let mut start: usize = from;
    while start < to && whitespace(chars[start])
        invariant
            from <= start <= to <= chars.len(),
            trim_start(chars@.subrange(start as int, to as int)) == trim_start(
                chars@.subrange(from as int, to as int),
            ),
        decreases to - start,
    {
        assert(chars@.subrange(start as int, to as int).drop_first() =~= chars@.subrange(
            start + 1,
            to as int,
        ));
        start += 1;
    }
    start
}

/// The place where the text from `from` up to `to` ends once the whitespace
/// at its end is gone.
pub(crate) fn trim_end_at(chars: &Vec<char>, from: usize, to: usize) -> (end: usize)
    requires
        from <= to <= chars.len(),
    ensures
        from <= end <= to,
        chars@.subrange(from as int, end as int) == trim_end(
            chars@.subrange(from as int, to as int),
        ),
{
    let mut end: usize = to;
    while end > from && whitespace(chars[end - 1])
        invariant
            from <= end <= to <= chars.len(),
            trim_end(chars@.subrange(from as int, end as int)) == trim_end(
                chars@.subrange(from as int, to as int),
            ),
        decreases end - from,
    {
        assert(chars@.subrange(from as int, end as int).drop_last() =~= chars@.subrange(
            from as int,
            end - 1,
        ));
        end -= 1;
    }
    end
}

/// The place where the text from `from` up to `to` starts once the numeric
/// characters at its start are gone.
pub(crate) fn skip_numeric_at(chars: &Vec<char>, from: usize, to: usize) -> (start: usize)
    requires
        from <= to <= chars.len(),
    ensures
        from <= start <= to,
        chars@.subrange(start as int, to as int) == skip_numeric(
            chars@.subrange(from as int, to as int),
        ),
{
    let mut start: usize = from;
    while start < to && numeric(chars[start])
        invariant
            from <= start <= to <= chars.len(),
            skip_numeric(chars@.subrange(start as int, to as int)) == skip_numeric(
                chars@.subrange(from as int, to as int),
            ),
        decreases to - start,
    {
        assert(chars@.subrange(start as int, to as int).drop_first() =~= chars@.subrange(
            start + 1,
            to as int,
        ));
        start += 1;
    }
    start
}

/// The place of the first `wanted` in the text from `from` up to `to`,
/// counted from `from`.
pub(crate) fn find_first(chars: &Vec<char>, from: usize, to: usize, wanted: char) -> (place:
    Option<usize>)
    requires
        from <= to <= chars.len(),
    ensures
        match place {
            Some(i) => from + i < to && chars@[from + i] == wanted && chars@.subrange(
                from as int,
                to as int,
            ).index_of_first(wanted) == Some(i as int),
            None => chars@.subrange(from as int, to as int).index_of_first(wanted) is None,
        },
{
    let ghost part = chars@.subrange(from as int, to as int);
    let mut i: usize = from;
    while i < to
        invariant
            from <= i <= to <= chars.len(),
            part == chars@.subrange(from as int, to as int),
            forall|j: int| 0 <= j < i - from ==> part[j] != wanted,
        decreases to - i,
    {
        if chars[i] == wanted {
            proof {
                part.index_of_first_ensures(wanted);
                assert(part[i - from] == wanted);
            }
            return Some(i - from);
        }
        assert(part[i - from] == chars@[i as int]);
        i += 1;
    }
    proof {
        part.index_of_first_ensures(wanted);
    }
    None
}

/// The place of the last `wanted` in the text from `from` up to `to`,
/// counted from `from`.
pub(crate) fn find_last(chars: &Vec<char>, from: usize, to: usize, wanted: char) -> (place:
    Option<usize>)
    requires
        from <= to <= chars.len(),
    ensures
        match place {
            Some(i) => from + i < to && chars@[from + i] == wanted && chars@.subrange(
                from as int,
                to as int,
            ).index_of_last(wanted) == Some(i as int),
            None => chars@.subrange(from as int, to as int).index_of_last(wanted) is None,
        },
{
    let ghost part = chars@.subrange(from as int, to as int);
    let mut i: usize = to;
    while i > from
        invariant
            from <= i <= to <= chars.len(),
            part == chars@.subrange(from as int, to as int),
            forall|j: int| i - from <= j < part.len() ==> part[j] != wanted,
        decreases i - from,
    {
        if chars[i - 1] == wanted {
            proof {
                part.index_of_last_ensures(wanted);
                assert(part[i - 1 - from] == wanted);
            }
            return Some(i - 1 - from);
        }
        assert(part[i - 1 - from] == chars@[i - 1]);
        i -= 1;
    }
    proof {
        part.index_of_last_ensures(wanted);
    }
    None
}

/// The text from `from` up to `to` as a string.
pub(crate) fn slice_string(chars: &Vec<char>, from: usize, to: usize) -> (text: String)
    requires
        from <= to <= chars.len(),
    ensures
        text@ == chars@.subrange(from as int, to as int),
{
    let mut part: Vec<char> = Vec::new();
    let mut i: usize = from;
    while i < to
        invariant
            from <= i <= to <= chars.len(),
            part@ == chars@.subrange(from as int, i as int),
        decreases to - i,
    {
        part.push(chars[i]);
        assert(part@ =~= chars@.subrange(from as int, i + 1));
        i += 1;
    }
    string_of(&part)
}

/// The bounds of the lines of a text, in order.
pub(crate) fn line_bounds(chars: &Vec<char>) -> (bounds: Vec<(usize, usize)>)
    ensures
        bounds@.len() == lines_of(chars@).len(),
        forall|i: int|
            0 <= i < bounds@.len() ==> (#[trigger] bounds@[i]).0 <= bounds@[i].1 <= chars@.len()
                && chars@.subrange(bounds@[i].0 as int, bounds@[i].1 as int) == lines_of(
                chars@,
            )[i],
{
    let mut bounds: Vec<(usize, usize)> = Vec::new();
    let mut start: usize = 0;
    let mut finished = false;
    let ghost mut done: Seq<Seq<char>> = Seq::empty();
    assert(chars@.skip(0) =~= chars@);
    assert(done + lines_of(chars@.skip(0)) =~= lines_of(chars@));
    while !finished
        invariant
            start <= chars.len(),
            bounds@.len() == done.len(),
            !finished ==> lines_of(chars@) == done + lines_of(chars@.skip(start as int)),
            finished ==> lines_of(chars@) == done,
            forall|i: int|
                0 <= i < bounds@.len() ==> (#[trigger] bounds@[i]).0 <= bounds@[i].1
                    <= chars@.len() && chars@.subrange(
                    bounds@[i].0 as int,
                    bounds@[i].1 as int,
                ) == done[i],
        decreases chars.len() - start + if finished { 0int } else { 1int },
    {
        let ghost rest = chars@.skip(start as int);
        assert(rest =~= chars@.subrange(start as int, chars@.len() as int));
        let end = match find_first(chars, start, chars.len(), '\n') {
            Some(feed) => start + feed,
            None => chars.len(),
        };
        let ghost line = chars@.subrange(start as int, end as int);
        proof {
            done = done.push(line);
            match rest.index_of_first('\n') {
                Some(feed) => {
                    assert(rest.take(feed) =~= line);
                    assert(rest.skip(feed + 1) =~= chars@.skip(end + 1));
                    assert(lines_of(chars@) =~= done + lines_of(chars@.skip(end + 1)));
                },
                None => {
                    assert(rest =~= line);
                    assert(lines_of(chars@) =~= done);
                },
            }
        }
        bounds.push((start, end));
        if end < chars.len() {
            start = end + 1;
        } else {
            finished = true;
        }
    }
    bounds
}

/// The number of bytes that a character takes in UTF-8.
pub open spec fn utf8_width(c: char) -> nat {
    if (c as u32) < 0x80 {
        1
    } else if (c as u32) < 0x800 {
        2
    } else if (c as u32) < 0x10000 {
        3
    } else {
        4
    }
}

/// The number of bytes that a text takes in UTF-8.
pub open spec fn utf8_len(text: Seq<char>) -> nat
    decreases text.len(),
{
    if text.len() == 0 {
        0
    } else {
        utf8_len(text.drop_last()) + utf8_width(text.last())
    }
}

/// A longer text takes no fewer bytes.
pub proof fn lemma_utf8_len_grows(text: Seq<char>, n: int)
    requires
        0 <= n <= text.len(),
    ensures
        utf8_len(text.take(n)) <= utf8_len(text),
    decreases text.len() - n,
{
    if n == text.len() {
        assert(text.take(n) =~= text);
    } else {
        lemma_utf8_len_grows(text, n + 1);
        assert(text.take(n + 1).drop_last() =~= text.take(n));
    }
}

/// The number of bytes that `c` takes in UTF-8.
pub(crate) fn utf8_width_of(c: char) -> (width: usize)
    ensures
        width == utf8_width(c),
{
    let code = c as u32;
    if code < 0x80 {
        1
    } else if code < 0x800 {
        2
    } else if code < 0x10000 {
        3
    } else {
        4
    }
}

/// The text before its first `mark`; the whole text where it holds none.
pub open spec fn before_first(text: Seq<char>, mark: char) -> Seq<char> {
    match text.index_of_first(mark) {
        Some(i) => if 0 <= i <= text.len() {
            text.take(i)
        } else {
            text
        },
        None => text,
    }
}

/// The characters that `char::to_uppercase` gives for a character.
pub uninterp spec fn uppercase_of(c: char) -> Seq<char>;

/// Trusted: `char::to_uppercase` from the standard library. The contract
/// names the characters that come out: they depend on the character alone.
#[verifier::external_body]
pub(crate) fn uppercase(c: char) -> (upper: Vec<char>)
    ensures
        upper@ == uppercase_of(c),
{
    c.to_uppercase().collect()
}

/// Appends the characters of `part` to `out`.
pub(crate) fn push_chars(out: &mut Vec<char>, part: &Vec<char>)
    ensures
        final(out)@ == old(out)@ + part@,
{
    let ghost before = out@;
    let mut i: usize = 0;
    while i < part.len()
        invariant
            i <= part.len(),
            out@ == before + part@.take(i as int),
        decreases part.len() - i,
    {
        out.push(part[i]);
        assert(out@ =~= before + part@.take(i + 1));
        i += 1;
    }
    assert(part@.take(i as int) =~= part@);
}

/// The decimal numeral of `n` as characters.
pub(crate) fn decimal_chars(n: u128) -> (chars: Vec<char>)
    ensures
        chars@ == decimal_text(n as nat),
{
    let mut chars: Vec<char> = Vec::new();
    push_decimal(&mut chars, n);
    chars
}

/// The text of an optional text, empty where there is none.
pub open spec fn text_or_empty(text: Option<Seq<char>>) -> Seq<char> {
    match text {
        Some(t) => t,
        None => Seq::empty(),
    }
}

/// The models of a list of files, each a name and its content.
pub open spec fn view_files(files: Seq<(String, Vec<u8>)>) -> Seq<(Seq<char>, Seq<u8>)> {
    files.map_values(|f: (String, Vec<u8>)| (f.0@, f.1@))
}

/// The contents of a list of files, in order.
pub open spec fn view_contents(files: Seq<Vec<u8>>) -> Seq<Seq<u8>> {
    files.map_values(|f: Vec<u8>| f@)
}

} // verus!
