//! Character sequences: the vocabulary in which version strings, package
//! names and manifest fragments are described.

use vstd::prelude::*;
use vstd::string::StringSliceAdditionalSpecFns;
use vstd::utf8::encode_utf8_decode_utf8;

verus! {

/// `needle` stands in `haystack` at position `at`.
pub open spec fn occurs_at(haystack: Seq<char>, needle: Seq<char>, at: int) -> bool {
    &&& 0 <= at
    &&& at + needle.len() <= haystack.len()
    &&& haystack.subrange(at, at + needle.len()) == needle
}

/// `needle` stands somewhere in `haystack`.
pub open spec fn occurs_in(haystack: Seq<char>, needle: Seq<char>) -> bool {
    exists|at: int| occurs_at(haystack, needle, at)
}

/// How often `sep` stands in `s`.
pub open spec fn count_of(s: Seq<char>, sep: char) -> nat
    decreases s.len(),
{
    if s.len() == 0 {
        0
    } else {
        count_of(s.drop_last(), sep) + if s.last() == sep {
            1nat
        } else {
            0nat
        }
    }
}

/// The pieces of `s` between occurrences of `sep`, in order. There is always
/// at least one piece; a separator at either end, or two in a row, leave an
/// empty piece.
pub open spec fn split(s: Seq<char>, sep: char) -> Seq<Seq<char>>
    decreases s.len(),
{
    if s.len() == 0 {
        seq![Seq::<char>::empty()]
    } else {
        let before = split(s.drop_last(), sep);
        if s.last() == sep {
            before.push(Seq::<char>::empty())
        } else {
            before.drop_last().push(before.last().push(s.last()))
        }
    }
}

/// The pieces put together again, with `sep` between each two.
pub open spec fn join(pieces: Seq<Seq<char>>, sep: char) -> Seq<char>
    decreases pieces.len(),
{
    if pieces.len() == 0 {
        Seq::<char>::empty()
    } else if pieces.len() == 1 {
        pieces[0]
    } else {
        join(pieces.drop_last(), sep).push(sep) + pieces.last()
    }
}

/// The character sequences that a vector of pieces stands for.
pub open spec fn pieces_of(pieces: Seq<Vec<char>>) -> Seq<Seq<char>> {
    pieces.map_values(|piece: Vec<char>| piece@)
}

/// `c` is one of the ten decimal digits.
pub open spec fn is_digit(c: char) -> bool {
    '0' <= c && c <= '9'
}

/// The number that a decimal digit stands for; 0 for any other character.
pub open spec fn digit_value(c: char) -> nat {
    if is_digit(c) {
        (c as int - '0' as int) as nat
    } else {
        0
    }
}

/// The number that a sequence of decimal digits denotes.
pub open spec fn decimal_value(digits: Seq<char>) -> nat
    decreases digits.len(),
{
    if digits.len() == 0 {
        0
    } else {
        10 * decimal_value(digits.drop_last()) + digit_value(digits.last())
    }
}

/// `digits` is a non-empty sequence of decimal digits.
pub open spec fn is_decimal(digits: Seq<char>) -> bool {
    &&& digits.len() > 0
    &&& forall|i: int| 0 <= i < digits.len() ==> is_digit(#[trigger] digits[i])
}

/// `s` without a leading plus sign.
pub open spec fn without_plus(s: Seq<char>) -> Seq<char> {
    if s.len() > 0 && s[0] == '+' {
        s.skip(1)
    } else {
        s
    }
}

/// The 32-bit number that `s` denotes: decimal digits, optionally after a
/// plus sign, whose value fits. Anything else denotes no number.
pub open spec fn parsed_number(s: Seq<char>) -> Option<u32> {
    let digits = without_plus(s);
    if is_decimal(digits) && decimal_value(digits) <= u32::MAX {
        Some(decimal_value(digits) as u32)
    } else {
        None
    }
}

/// There is at least one piece, however short the text.
pub proof fn lemma_split_nonempty(s: Seq<char>, sep: char)
    ensures
        split(s, sep).len() >= 1,
    decreases s.len(),
{
    if s.len() > 0 {
        lemma_split_nonempty(s.drop_last(), sep);
    }
}

/// Two separators stand side by side at position `at` of `s`.
pub open spec fn doubled_at(s: Seq<char>, sep: char, at: int) -> bool {
    0 <= at < s.len() - 1 && s[at] == sep && s[at + 1] == sep
}

/// Nowhere in `s` do two separators stand side by side.
pub open spec fn never_doubled(s: Seq<char>, sep: char) -> bool {
    forall|at: int| !#[trigger] doubled_at(s, sep, at)
}

/// Every character of `s` is the separator or one that `accepted` holds of.
pub open spec fn chars_accepted(s: Seq<char>, sep: char, accepted: spec_fn(char) -> bool) -> bool {
    forall|i: int| 0 <= i < s.len() ==> #[trigger] s[i] == sep || accepted(s[i])
}

/// `accepted` holds of every character of every piece.
pub open spec fn pieces_accepted(pieces: Seq<Seq<char>>, accepted: spec_fn(char) -> bool) -> bool {
    forall|j: int, k: int|
        0 <= j < pieces.len() && 0 <= k < pieces[j].len() ==> accepted(#[trigger] pieces[j][k])
}

/// Every piece but the last holds at least one character.
pub open spec fn inner_pieces_filled(pieces: Seq<Seq<char>>) -> bool {
    forall|j: int| 0 <= j < pieces.len() - 1 ==> (#[trigger] pieces[j]).len() > 0
}

/// There is one piece more than there are separators.
pub proof fn lemma_split_count(s: Seq<char>, sep: char)
    ensures
        split(s, sep).len() == count_of(s, sep) + 1,
    decreases s.len(),
{
    if s.len() > 0 {
        lemma_split_count(s.drop_last(), sep);
    }
}

/// The first piece is the text before the first separator, and the whole
/// text where there is none.
pub proof fn lemma_split_first(s: Seq<char>, sep: char, first: int)
    requires
        0 <= first <= s.len(),
        forall|i: int| 0 <= i < first ==> s[i] != sep,
        first < s.len() ==> s[first] == sep,
    ensures
        split(s, sep)[0] == s.take(first),
        first == s.len() ==> split(s, sep) == seq![s],
        first < s.len() ==> split(s, sep).len() >= 2,
    decreases s.len(),
{
    if s.len() == 0 {
        assert(s =~= Seq::<char>::empty());
        assert(s.take(first) =~= s);
    } else {
        let front = s.drop_last();
        lemma_split_nonempty(front, sep);
        if first == s.len() {
            lemma_split_first(front, sep, first - 1);
            assert(s.take(first) =~= s);
            assert(front.push(s.last()) =~= s);
            assert(split(s, sep) =~= seq![s]);
        } else {
            lemma_split_first(front, sep, first);
            assert(front.take(first) =~= s.take(first));
        }
    }
}

/// The last piece is empty exactly when the text is empty or ends in a
/// separator.
pub proof fn lemma_split_last(s: Seq<char>, sep: char)
    ensures
        split(s, sep).last().len() == 0 <==> s.len() == 0 || s.last() == sep,
{
    if s.len() > 0 {
        lemma_split_nonempty(s.drop_last(), sep);
    }
}

/// The pieces before the last are all filled exactly when the text does not
/// begin with a separator and never holds two in a row.
pub proof fn lemma_split_inner(s: Seq<char>, sep: char)
    ensures
        inner_pieces_filled(split(s, sep)) <==> (s.len() == 0 || s[0] != sep) && never_doubled(
            s,
            sep,
        ),
    decreases s.len(),
{
    if s.len() > 0 {
        let front = s.drop_last();
        let before = split(front, sep);
        let pieces = split(s, sep);
        lemma_split_inner(front, sep);
        lemma_split_nonempty(front, sep);
        lemma_split_last(front, sep);
        assert(forall|i: int| 0 <= i < front.len() ==> front[i] == s[i]);
        if s.last() == sep {
            // The former last piece has become an inner piece.
            if inner_pieces_filled(pieces) {
                assert(pieces[before.len() - 1].len() > 0);
                assert forall|j: int| 0 <= j < before.len() - 1 implies (#[trigger] before[j]).len()
                    > 0 by {
                    assert(pieces[j] == before[j]);
                }
                assert forall|at: int| !#[trigger] doubled_at(s, sep, at) by {
                    if doubled_at(s, sep, at) {
                        if at < front.len() - 1 {
                            assert(doubled_at(front, sep, at));
                        }
                    }
                }
            }
            if (s[0] != sep) && never_doubled(s, sep) {
                if front.len() > 0 {
                    assert(!doubled_at(s, sep, front.len() - 1));
                }
                assert forall|at: int| !#[trigger] doubled_at(front, sep, at) by {
                    if doubled_at(front, sep, at) {
                        assert(doubled_at(s, sep, at));
                    }
                }
                assert forall|j: int| 0 <= j < pieces.len() - 1 implies (#[trigger] pieces[j]).len()
                    > 0 by {
                    if j < before.len() - 1 {
                        assert(before[j].len() > 0);
                    }
                }
            }
        } else {
            // The pieces before the last are the same as before.
            assert(pieces.len() == before.len());
            if inner_pieces_filled(pieces) {
                assert forall|j: int| 0 <= j < before.len() - 1 implies (#[trigger] before[j]).len()
                    > 0 by {
                    assert(pieces[j] == before[j]);
                }
                assert forall|at: int| !#[trigger] doubled_at(s, sep, at) by {
                    if doubled_at(s, sep, at) {
                        assert(doubled_at(front, sep, at));
                    }
                }
            }
            if (s[0] != sep) && never_doubled(s, sep) {
                assert forall|at: int| !#[trigger] doubled_at(front, sep, at) by {
                    if doubled_at(front, sep, at) {
                        assert(doubled_at(s, sep, at));
                    }
                }
                assert forall|j: int| 0 <= j < pieces.len() - 1 implies (#[trigger] pieces[j]).len()
                    > 0 by {
                    assert(before[j].len() > 0);
                }
            }
        }
    } else {
        assert(forall|at: int| !#[trigger] doubled_at(s, sep, at));
    }
}

/// The pieces hold the characters of the text that are no separators, and no
/// others: what holds of all of these holds of every piece, and the reverse.
pub proof fn lemma_split_chars(s: Seq<char>, sep: char, accepted: spec_fn(char) -> bool)
    ensures
        pieces_accepted(split(s, sep), |c: char| c != sep && accepted(c)) <==> chars_accepted(
            s,
            sep,
            accepted,
        ),
    decreases s.len(),
{
    let strict = |c: char| c != sep && accepted(c);
    if s.len() > 0 {
        let front = s.drop_last();
        let before = split(front, sep);
        let pieces = split(s, sep);
        let c = s.last();
        let last = before.len() - 1;
        lemma_split_chars(front, sep, accepted);
        lemma_split_nonempty(front, sep);
        assert(forall|i: int| 0 <= i < front.len() ==> front[i] == s[i]);
        if pieces_accepted(pieces, strict) {
            assert forall|j: int, k: int|
                0 <= j < before.len() && 0 <= k < before[j].len() implies strict(
                #[trigger] before[j][k],
            ) by {
                assert(pieces[j][k] == before[j][k]);
            }
            if c != sep {
                assert(pieces[last][before[last].len() as int] == c);
            }
            assert forall|i: int| 0 <= i < s.len() implies #[trigger] s[i] == sep || accepted(
                s[i],
            ) by {
                if i < front.len() {
                    assert(front[i] == sep || accepted(front[i]));
                }
            }
        }
        if chars_accepted(s, sep, accepted) {
            assert forall|i: int| 0 <= i < front.len() implies #[trigger] front[i] == sep
                || accepted(front[i]) by {
                assert(s[i] == sep || accepted(s[i]));
            }
            assert(s[s.len() - 1] == sep || accepted(s[s.len() - 1]));
            assert forall|j: int, k: int|
                0 <= j < pieces.len() && 0 <= k < pieces[j].len() implies strict(
                #[trigger] pieces[j][k],
            ) by {
                if j < before.len() && k < before[j].len() {
                    assert(strict(before[j][k]));
                }
            }
        }
    }
}

/// Splitting loses nothing and leaves no separator behind: the pieces,
/// joined by the separator, are the text again, and no piece holds one.
pub proof fn lemma_split_join(s: Seq<char>, sep: char)
    ensures
        join(split(s, sep), sep) == s,
        pieces_accepted(split(s, sep), |c: char| c != sep),
    decreases s.len(),
{
    let free = |c: char| c != sep;
    if s.len() > 0 {
        let front = s.drop_last();
        let before = split(front, sep);
        let pieces = split(s, sep);
        lemma_split_join(front, sep);
        lemma_split_nonempty(front, sep);
        assert(front.push(s.last()) =~= s);
        if s.last() == sep {
            assert(pieces.drop_last() =~= before);
            assert(join(pieces, sep) =~= front.push(sep));
        } else if before.len() == 1 {
            assert(join(pieces, sep) =~= front.push(s.last()));
        } else {
            assert(pieces.drop_last() =~= before.drop_last());
            assert(join(pieces, sep) =~= join(before, sep).push(s.last()));
        }
        assert forall|j: int, k: int|
            0 <= j < pieces.len() && 0 <= k < pieces[j].len() implies free(
            #[trigger] pieces[j][k],
        ) by {
            if j < before.len() && k < before[j].len() {
                assert(free(before[j][k]));
            }
        }
    }
}

/// Reading more digits never makes the number smaller.
pub proof fn lemma_decimal_value_grows(digits: Seq<char>, k: int)
    requires
        0 <= k <= digits.len(),
    ensures
        decimal_value(digits.take(k)) <= decimal_value(digits),
    decreases digits.len(),
{
    if k == digits.len() {
        assert(digits.take(k) =~= digits);
    } else {
        assert(digits.take(k) =~= digits.drop_last().take(k));
        lemma_decimal_value_grows(digits.drop_last(), k);
    }
}

/// The characters of `s`, in order.
pub fn chars_of(s: &str) -> (chars: Vec<char>)
    ensures
        chars@ == s@,
{
    let mut chars: Vec<char> = Vec::new();
    for c in it: s.chars()
        invariant
            it.seq() == s@,
            chars@ == it.seq().take(it.index() as int),
    {
        chars.push(c);
    }
    chars
}

/// Whether two strings hold the same characters.
pub fn same_text(a: &str, b: &str) -> (same: bool)
    ensures
        same == (a@ == b@),
{
    let x = a.as_bytes();
    let y = b.as_bytes();
    proof {
        encode_utf8_decode_utf8(a@);
        encode_utf8_decode_utf8(b@);
    }
    if x.len() != y.len() {
        return false;
    }
    let mut i: usize = 0;
    while i < x.len()
        invariant
            x@.len() == y@.len(),
            i <= x@.len(),
            forall|k: int| 0 <= k < i ==> x@[k] == y@[k],
            (a@ == b@) <==> (x@ == y@),
        decreases x@.len() - i,
    {
        if x[i] != y[i] {
            return false;
        }
        i += 1;
    }
    assert(x@ =~= y@);
    true
}

/// Whether `needle` stands in `haystack` at position `at`.
pub fn matches_at(haystack: &Vec<char>, needle: &Vec<char>, at: usize) -> (found: bool)
    requires
        at + needle.len() <= haystack.len(),
    ensures
        found == occurs_at(haystack@, needle@, at as int),
{
    let mut k: usize = 0;
    while k < needle.len()
        invariant
            at + needle.len() <= haystack.len(),
            k <= needle.len(),
            forall|j: int| 0 <= j < k ==> haystack@[at + j] == needle@[j],
        decreases needle.len() - k,
    {
        if haystack[at + k] != needle[k] {
            assert(haystack@.subrange(at as int, at + needle@.len())[k as int] != needle@[k as int]);
            return false;
        }
        k += 1;
    }
    assert(haystack@.subrange(at as int, at + needle@.len()) =~= needle@);
    true
}

/// Whether `needle` stands somewhere in `haystack`.
pub fn contains(haystack: &Vec<char>, needle: &Vec<char>) -> (found: bool)
    ensures
        found == occurs_in(haystack@, needle@),
{
    if needle.len() > haystack.len() {
        return false;
    }
    let last: usize = haystack.len() - needle.len();
    let mut at: usize = 0;
    loop
        invariant
            last + needle.len() == haystack.len(),
            at <= last,
            forall|k: int| 0 <= k < at ==> !occurs_at(haystack@, needle@, k),
        decreases last - at,
    {
        if matches_at(haystack, needle, at) {
            return true;
        }
        if at == last {
            return false;
        }
        at += 1;
    }
}

/// Whether `needle` stands somewhere in `haystack`.
pub fn text_contains(haystack: &str, needle: &str) -> (found: bool)
    ensures
        found == occurs_in(haystack@, needle@),
{
    let h = chars_of(haystack);
    let n = chars_of(needle);
    contains(&h, &n)
}

/// Cuts `s` at every occurrence of `sep`.
pub fn split_chars(s: &Vec<char>, sep: char) -> (pieces: Vec<Vec<char>>)
    ensures
        pieces_of(pieces@) == split(s@, sep),
{
    let mut done: Vec<Vec<char>> = Vec::new();
    let mut current: Vec<char> = Vec::new();
    let mut i: usize = 0;
    assert(s@.take(0) =~= Seq::<char>::empty());
    assert(pieces_of(done@).push(current@) =~= split(s@.take(0), sep));
    while i < s.len()
        invariant
            i <= s@.len(),
            pieces_of(done@).push(current@) == split(s@.take(i as int), sep),
        decreases s@.len() - i,
    {
        let c = s[i];
        let ghost before = s@.take(i as int);
        let ghost upto = s@.take(i + 1);
        let ghost old_done = pieces_of(done@);
        let ghost old_current = current@;
        assert(upto.drop_last() =~= before);
        assert(upto.last() == c);
        assert(old_done.push(old_current).drop_last() =~= old_done);
        if c == sep {
            done.push(current);
            current = Vec::new();
            assert(pieces_of(done@) =~= old_done.push(old_current));
        } else {
            current.push(c);
        }
        assert(pieces_of(done@).push(current@) =~= split(upto, sep));
        i += 1;
    }
    assert(s@.take(i as int) =~= s@);
    done.push(current);
    assert(pieces_of(done@) =~= split(s@, sep));
    done
}

/// Reads `s` as a 32-bit decimal number.
pub fn parse_number(s: &Vec<char>) -> (number: Option<u32>)
    ensures
        number == parsed_number(s@),
{
    let n = s.len();
    let start: usize = if n > 0 && s[0] == '+' {
        1
    } else {
        0
    };
    let ghost digits = without_plus(s@);
    assert(digits =~= s@.skip(start as int));
    if start == n {
        return None;
    }
    let mut value: u64 = 0;
    let mut i: usize = start;
    assert(digits.take(0) =~= Seq::<char>::empty());
    while i < n
        invariant
            n == s@.len(),
            start <= i <= n,
            digits == s@.skip(start as int),
            digits == without_plus(s@),
            forall|k: int| 0 <= k < i - start ==> is_digit(#[trigger] digits[k]),
            value == decimal_value(digits.take(i - start)),
            value <= u32::MAX,
        decreases n - i,
    {
        let c = s[i];
        if !('0' <= c && c <= '9') {
            assert(!is_digit(digits[i - start]));
            return None;
        }
        let d: u64 = (c as u32 - '0' as u32) as u64;
        assert(digits.take(i - start + 1).drop_last() =~= digits.take(i - start));
        assert(digits.take(i - start + 1).last() == c);
        value = value * 10 + d;
        if value > u32::MAX as u64 {
            proof {
                lemma_decimal_value_grows(digits, i - start + 1);
            }
            return None;
        }
        i += 1;
    }
    assert(digits.take(i - start) =~= digits);
    Some(value as u32)
}

} // verus!
