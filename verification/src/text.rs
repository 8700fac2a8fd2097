//! Sequences of characters: decimal numerals, substring search and splitting.

use vstd::prelude::*;
use vstd::utf8::encode_utf8;
use vstd::utf8::encode_utf8_decode_utf8;

verus! {

/// The character that writes the digit `d`.
pub open spec fn digit_char(d: nat) -> char
    recommends
        d < 10,
{
    if d == 0 {
        '0'
    } else if d == 1 {
        '1'
    } else if d == 2 {
        '2'
    } else if d == 3 {
        '3'
    } else if d == 4 {
        '4'
    } else if d == 5 {
        '5'
    } else if d == 6 {
        '6'
    } else if d == 7 {
        '7'
    } else if d == 8 {
        '8'
    } else {
        '9'
    }
}

/// The decimal numeral of `n`, most significant digit first, without leading zeros.
pub open spec fn decimal_text(n: nat) -> Seq<char>
    decreases n,
{
    if n < 10 {
        seq![digit_char(n)]
    } else {
        decimal_text(n / 10).push(digit_char(n % 10))
    }
}

/// The digit that `c` writes; meant for `'0'` to `'9'`.
pub open spec fn digit_value(c: char) -> nat {
    (c as int - '0' as int) as nat
}

/// The number that a run of digits writes in base ten.
pub open spec fn decimal_value(digits: Seq<char>) -> nat
    decreases digits.len(),
{
    if digits.len() == 0 {
        0
    } else {
        decimal_value(digits.drop_last()) * 10 + digit_value(digits.last())
    }
}

/// A numeral writes the number it was made from.
pub proof fn lemma_decimal_value_of_text(n: nat)
    ensures
        decimal_value(decimal_text(n)) == n,
    decreases n,
{
    if n < 10 {
        assert(decimal_text(n).drop_last() =~= Seq::<char>::empty());
        assert(decimal_value(decimal_text(n).drop_last()) == 0);
    } else {
        lemma_decimal_value_of_text(n / 10);
        assert(decimal_text(n).drop_last() =~= decimal_text(n / 10));
    }
}

/// The one-character string that writes the digit `d`.
fn digit_str(d: usize) -> (s: &'static str)
    requires
        d < 10,
    ensures
        s@ == seq![digit_char(d as nat)],
{
    proof {
        reveal_strlit("0");
        reveal_strlit("1");
        reveal_strlit("2");
        reveal_strlit("3");
        reveal_strlit("4");
        reveal_strlit("5");
        reveal_strlit("6");
        reveal_strlit("7");
        reveal_strlit("8");
        reveal_strlit("9");
    }
    let s = match d {
        0 => "0",
        1 => "1",
        2 => "2",
        3 => "3",
        4 => "4",
        5 => "5",
        6 => "6",
        7 => "7",
        8 => "8",
        _ => "9",
    };
    assert(s@ =~= seq![digit_char(d as nat)]);
    s
}

/// Appends the decimal numeral of `n` to `out`.
pub fn push_decimal(out: &mut String, n: usize)
    ensures
        final(out)@ == old(out)@ + decimal_text(n as nat),
    decreases n,
{
    if n >= 10 {
        push_decimal(out, n / 10);
    }
    out.append(digit_str(n % 10));
    assert(out@ =~= old(out)@ + decimal_text(n as nat));
}

/// The characters of `s`, in order.
pub fn chars_of(s: &str) -> (v: Vec<char>)
    ensures
        v@ == s@,
{
    let mut v: Vec<char> = Vec::new();
    for c in it: s.chars()
        invariant
            it.seq() == s@,
            v@ == s@.take(it.index() as int),
    {
        v.push(c);
    }
    v
}

/// Whether two strings hold the same characters.
pub fn str_eq(a: &str, b: &str) -> (same: bool)
    ensures
        same == (a@ == b@),
{
    let x = a.as_bytes();
    let y = b.as_bytes();
    proof {
        // Equal encodings decode to equal texts.
        encode_utf8_decode_utf8(a@);
        encode_utf8_decode_utf8(b@);
    }
    if x.len() != y.len() {
        return false;
    }
    let mut i: usize = 0;
    while i < x.len()
        invariant
            i <= x.len(),
            x.len() == y.len(),
            x@ == encode_utf8(a@),
            y@ == encode_utf8(b@),
            forall|k: int| 0 <= k < i ==> x@[k] == y@[k],
        decreases x.len() - i,
    {
        if x[i] != y[i] {
            assert(x@[i as int] != y@[i as int]);
            return false;
        }
        i += 1;
    }
    assert(x@ =~= y@);
    true
}

/// `needle` stands in `hay` at position `at`.
pub open spec fn occurs_at(hay: Seq<char>, needle: Seq<char>, at: int) -> bool {
    &&& 0 <= at
    &&& at + needle.len() <= hay.len()
    &&& hay.subrange(at, at + needle.len()) == needle
}

/// `needle` stands somewhere in `hay` as a contiguous run. The empty text
/// stands in every text.
pub open spec fn contains_text(hay: Seq<char>, needle: Seq<char>) -> bool {
    exists|at: int| occurs_at(hay, needle, at)
}

/// Whether `needle` stands in `hay` at position `at`.
pub fn has_text_at(hay: &[char], needle: &[char], at: usize) -> (found: bool)
    ensures
        found == occurs_at(hay@, needle@, at as int),
{
    if at > hay.len() || needle.len() > hay.len() - at {
        return false;
    }
    let mut i: usize = 0;
    while i < needle.len()
        invariant
            i <= needle.len(),
            at + needle.len() <= hay.len(),
            forall|k: int| 0 <= k < i ==> hay@[at + k] == needle@[k],
        decreases needle.len() - i,
    {
        if hay[at + i] != needle[i] {
            assert(hay@.subrange(at as int, at + needle@.len())[i as int] != needle@[i as int]);
            return false;
        }
        i += 1;
    }
    assert(hay@.subrange(at as int, at + needle@.len()) =~= needle@);
    true
}

/// Whether `needle` stands somewhere in `hay`.
pub fn has_text(hay: &[char], needle: &[char]) -> (found: bool)
    ensures
        found == contains_text(hay@, needle@),
{
    if needle.len() > hay.len() {
        return false;
    }
    let last: usize = hay.len() - needle.len();
    let mut at: usize = 0;
    loop
        invariant
            at <= last,
            last + needle@.len() == hay@.len(),
            forall|k: int| 0 <= k < at ==> !occurs_at(hay@, needle@, k),
        decreases last - at,
    {
        if has_text_at(hay, needle, at) {
            return true;
        }
        if at == last {
            return false;
        }
        at += 1;
    }
}

/// The fields of `s` between occurrences of `sep`, read left to right: a
/// separator closes the current field and opens a new, empty one; any other
/// character extends the current field. Fields may be empty.
pub open spec fn split_on(s: Seq<char>, sep: char) -> Seq<Seq<char>>
    decreases s.len(),
{
    if s.len() == 0 {
        seq![Seq::<char>::empty()]
    } else {
        let before = split_on(s.drop_last(), sep);
        if s.last() == sep {
            before.push(Seq::<char>::empty())
        } else {
            before.update(before.len() - 1, before.last().push(s.last()))
        }
    }
}

/// A text has one field more than it has separators: at least one.
pub proof fn lemma_split_count(s: Seq<char>, sep: char)
    ensures
        split_on(s, sep).len() == s.to_multiset().count(sep) + 1,
    decreases s.len(),
{
    if s.len() == 0 {
        s.to_multiset_ensures();
    } else {
        lemma_split_count(s.drop_last(), sep);
        s.drop_last().to_multiset_ensures();
        assert(s.drop_last().push(s.last()) =~= s);
    }
}

/// The fields written one after another with `sep` between neighbours.
pub open spec fn join_with(fields: Seq<Seq<char>>, sep: char) -> Seq<char>
    decreases fields.len(),
{
    if fields.len() == 0 {
        Seq::empty()
    } else if fields.len() == 1 {
        fields[0]
    } else {
        join_with(fields.drop_last(), sep).push(sep) + fields.last()
    }
}

/// No field of a split holds the separator.
pub proof fn lemma_split_fields_lack_separator(s: Seq<char>, sep: char)
    ensures
        forall|k: int| 0 <= k < split_on(s, sep).len() ==> !(#[trigger] split_on(s, sep)[k]).contains(sep),
    decreases s.len(),
{
    if s.len() > 0 {
        lemma_split_fields_lack_separator(s.drop_last(), sep);
        lemma_split_count(s.drop_last(), sep);
    }
}

/// Joining the fields of a split with the separator gives the text back.
pub proof fn lemma_split_joins_back(s: Seq<char>, sep: char)
    ensures
        join_with(split_on(s, sep), sep) == s,
    decreases s.len(),
{
    if s.len() > 0 {
        let before = split_on(s.drop_last(), sep);
        let fields = split_on(s, sep);
        lemma_split_count(s.drop_last(), sep);
        lemma_split_joins_back(s.drop_last(), sep);
        if s.last() == sep {
            assert(fields.drop_last() =~= before);
            assert(join_with(fields, sep) =~= s.drop_last().push(sep));
        } else if before.len() == 1 {
            assert(join_with(fields, sep) =~= s.drop_last().push(s.last()));
        } else {
            assert(fields.drop_last() =~= before.drop_last());
            assert(join_with(fields, sep) =~= join_with(before, sep).push(s.last()));
        }
        assert(s.drop_last().push(s.last()) =~= s);
    }
}

/// The split is the only way to cut a text into fields that lack the
/// separator and join back to the text.
pub proof fn lemma_split_is_unique(s: Seq<char>, sep: char, fields: Seq<Seq<char>>)
    requires
        fields.len() >= 1,
        forall|k: int| 0 <= k < fields.len() ==> !(#[trigger] fields[k]).contains(sep),
        join_with(fields, sep) == s,
    ensures
        fields == split_on(s, sep),
    decreases s.len(),
{
    let last = fields.last();
    if s.len() == 0 {
        assert(fields.len() == 1);
        assert(fields =~~= seq![Seq::<char>::empty()]);
    } else if last.len() == 0 {
        assert(fields.len() >= 2);
        let joined = join_with(fields.drop_last(), sep);
        assert(s =~= joined.push(sep));
        assert(s.drop_last() =~= joined);
        lemma_split_is_unique(s.drop_last(), sep, fields.drop_last());
        assert(fields =~~= fields.drop_last().push(Seq::<char>::empty()));
    } else {
        let shorter = fields.update(fields.len() - 1, last.drop_last());
        assert(last.contains(last.last()));
        assert(s.last() == last.last());
        assert forall|k: int| 0 <= k < shorter.len() implies !(#[trigger] shorter[k]).contains(
            sep,
        ) by {
            if k == shorter.len() - 1 {
                if shorter[k].contains(sep) {
                    let i = choose|i: int| 0 <= i < shorter[k].len() && shorter[k][i] == sep;
                    assert(last[i] == sep);
                }
            } else {
                assert(shorter[k] == fields[k]);
            }
        }
        if fields.len() == 1 {
            assert(join_with(shorter, sep) =~= s.drop_last());
        } else {
            assert(shorter.drop_last() =~= fields.drop_last());
            assert(join_with(shorter, sep) =~= s.drop_last());
        }
        lemma_split_is_unique(s.drop_last(), sep, shorter);
        assert(last.drop_last().push(last.last()) =~= last);
        assert(fields =~= shorter.update(shorter.len() - 1, shorter.last().push(s.last())));
    }
}

/// `bounds` gives, field by field, the half-open range of `line` that holds it.
pub open spec fn bounds_mark(
    line: Seq<char>,
    bounds: Seq<(usize, usize)>,
    fields: Seq<Seq<char>>,
) -> bool {
    &&& bounds.len() == fields.len()
    &&& forall|k: int|
        0 <= k < bounds.len() ==> {
            &&& (#[trigger] bounds[k]).0 <= bounds[k].1 <= line.len()
            &&& line.subrange(bounds[k].0 as int, bounds[k].1 as int) == fields[k]
        }
}

/// Where each field of `line` between occurrences of `sep` begins and ends,
/// counted in characters.
pub fn field_bounds(line: &[char], sep: char) -> (bounds: Vec<(usize, usize)>)
    ensures
        bounds_mark(line@, bounds@, split_on(line@, sep)),
{
    let mut bounds: Vec<(usize, usize)> = Vec::new();
    let mut start: usize = 0;
    let mut i: usize = 0;
    while i < line.len()
        invariant
            start <= i <= line.len(),
            bounds.len() + 1 == split_on(line@.take(i as int), sep).len(),
            split_on(line@.take(i as int), sep).last() == line@.subrange(start as int, i as int),
            forall|k: int|
                0 <= k < bounds.len() ==> {
                    &&& (#[trigger] bounds@[k]).0 <= bounds@[k].1 <= i
                    &&& line@.subrange(bounds@[k].0 as int, bounds@[k].1 as int) == split_on(
                        line@.take(i as int),
                        sep,
                    )[k]
                },
        decreases line.len() - i,
    {
        proof {
            assert(line@.take(i + 1).drop_last() =~= line@.take(i as int));
            assert(line@.subrange(start as int, i as int).push(line@[i as int])
                =~= line@.subrange(start as int, i + 1));
            assert(line@.subrange(i + 1, i + 1) =~= Seq::<char>::empty());
        }
        if line[i] == sep {
            bounds.push((start, i));
            start = i + 1;
        }
        i += 1;
    }
    bounds.push((start, i));
    proof {
        assert(line@.take(i as int) =~= line@);
    }
    bounds
}

} // verus!
