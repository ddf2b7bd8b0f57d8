//! Character-level helpers on which the rest of the crate builds.

use vstd::prelude::*;
use vstd::std_specs::iter::IteratorSpec;

verus! {

/// `String::push` appends one character to the end of the string.
pub assume_specification[ String::push ](s: &mut String, ch: char)
    ensures
        final(s)@ == old(s)@.push(ch),
;

/// The characters of `s`, in order.
pub fn to_chars(s: &str) -> (out: Vec<char>)
    ensures
        out@ == s@,
{
    let mut out: Vec<char> = Vec::new();
    let mut it = s.chars();
    proof {
        broadcast use vstd::string::group_string_axioms;
    }
    let ghost total = s@;
    loop
        invariant
            it.obeys_prophetic_iter_laws(),
            it.decrease() is Some,
            out@ + it.remaining() == total,
        ensures
            out@ == total,
        decreases it.decrease()->0,
    {
        let next = it.next();
        proof {
            broadcast use vstd::string::group_string_axioms;
        }
        match next {
            Some(c) => {
                out.push(c);
                assert(out@ + it.remaining() =~= total);
            },
            None => {
                assert(out@ =~= total);
                break;
            },
        }
    }
    out
}

/// The string whose characters are `chars`, in order.
pub fn from_chars(chars: &Vec<char>) -> (out: String)
    ensures
        out@ == chars@,
{
    let mut out = String::new();
    let mut i: usize = 0;
    while i < chars.len()
        invariant
            i <= chars.len(),
            out@ == chars@.take(i as int),
        decreases chars.len() - i,
    {
        out.push(chars[i]);
        i += 1;
        assert(out@ =~= chars@.take(i as int));
    }
    assert(chars@.take(chars.len() as int) =~= chars@);
    out
}

/// `needle` stands in `hay` at position `at`.
pub open spec fn occurs_at(hay: Seq<char>, needle: Seq<char>, at: int) -> bool {
    &&& 0 <= at
    &&& at + needle.len() <= hay.len()
    &&& hay.subrange(at, at + needle.len()) == needle
}

/// The first position at or after `from` where `needle` stands in `hay`.
pub open spec fn find_from(hay: Seq<char>, needle: Seq<char>, from: int) -> Option<int>
    decreases hay.len() + 1 - from,
{
    if from < 0 || from + needle.len() > hay.len() {
        None
    } else if occurs_at(hay, needle, from) {
        Some(from)
    } else {
        find_from(hay, needle, from + 1)
    }
}

/// What `find_from` finds is an occurrence, and the first one from `from` on.
pub proof fn lemma_find_from(hay: Seq<char>, needle: Seq<char>, from: int)
    requires
        0 <= from,
    ensures
        match find_from(hay, needle, from) {
            Some(at) => from <= at && occurs_at(hay, needle, at) && forall|k: int|
                from <= k < at ==> !occurs_at(hay, needle, k),
            None => forall|k: int| from <= k ==> !occurs_at(hay, needle, k),
        },
    decreases hay.len() + 1 - from,
{
    if from + needle.len() > hay.len() {
    } else if occurs_at(hay, needle, from) {
    } else {
        lemma_find_from(hay, needle, from + 1);
    }
}

/// Whether `needle` stands in `hay` at position `at`.
pub fn matches_at(hay: &Vec<char>, needle: &Vec<char>, at: usize) -> (found: bool)
    ensures
        found == occurs_at(hay@, needle@, at as int),
{
    if needle.len() > hay.len() || at > hay.len() - needle.len() {
        return false;
    }
    let mut k: usize = 0;
    while k < needle.len()
        invariant
            k <= needle.len(),
            at + needle.len() <= hay.len(),
            forall|j: int| 0 <= j < k ==> hay@[at + j] == needle@[j],
        decreases needle.len() - k,
    {
        if hay[at + k] != needle[k] {
            proof {
                let part = hay@.subrange(at as int, at + needle.len());
                assert(part[k as int] == hay@[at + k]);
            }
            return false;
        }
        k += 1;
    }
    assert(hay@.subrange(at as int, at + needle.len()) =~= needle@);
    true
}

/// The first position at or after `from` where `needle` stands in `hay`.
pub fn find(hay: &Vec<char>, needle: &Vec<char>, from: usize) -> (found: Option<usize>)
    ensures
        match found {
            Some(at) => find_from(hay@, needle@, from as int) == Some(at as int),
            None => find_from(hay@, needle@, from as int) is None,
        },
{
    if needle.len() > hay.len() || from > hay.len() - needle.len() {
        return None;
    }
    let last: usize = hay.len() - needle.len();
    let mut at: usize = from;
    loop
        invariant
            from <= at <= last,
            last == hay.len() - needle.len(),
            find_from(hay@, needle@, from as int) == find_from(hay@, needle@, at as int),
        decreases last - at,
    {
        if matches_at(hay, needle, at) {
            return Some(at);
        }
        if at == last {
            assert(find_from(hay@, needle@, at + 1) is None);
            return None;
        }
        at += 1;
    }
}

/// The decimal digit for `d`, which is below ten.
pub open spec fn digit(d: nat) -> char {
    ((48 + d) as u8) as char
}

/// `n` written in decimal, without leading zeros.
pub open spec fn decimal(n: nat) -> Seq<char>
    decreases n,
{
    if n < 10 {
        seq![digit(n)]
    } else {
        decimal(n / 10).push(digit(n % 10))
    }
}

/// Appends `n` in decimal to `out`.
pub fn push_decimal(out: &mut Vec<char>, n: u64)
    ensures
        final(out)@ == old(out)@ + decimal(n as nat),
    decreases n,
{
    if n >= 10 {
        push_decimal(out, n / 10);
    }
    let low: u8 = (n % 10) as u8;
    out.push((48u8 + low) as char);
    assert(final(out)@ =~= old(out)@ + decimal(n as nat));
}

/// `n` written in decimal with zeros before it, as many as it takes to
/// reach `width` characters; as it is where it has that many.
pub open spec fn padded(n: nat, width: nat) -> Seq<char> {
    if decimal(n).len() >= width {
        decimal(n)
    } else {
        Seq::new((width - decimal(n).len()) as nat, |i: int| '0') + decimal(n)
    }
}

/// Appends `n` in decimal to `out`, with zeros before it up to `width`
/// characters.
pub fn push_padded(out: &mut Vec<char>, n: u64, width: usize)
    ensures
        final(out)@ == old(out)@ + padded(n as nat, width as nat),
{
    let mut digits: Vec<char> = Vec::new();
    push_decimal(&mut digits, n);
    assert(digits@ =~= decimal(n as nat));
    let mut written: usize = digits.len();
    let ghost zeros: Seq<char> = Seq::empty();
    while written < width
        invariant
            digits.len() <= written,
            written <= width || written == digits.len(),
            zeros == Seq::new((written - digits.len()) as nat, |i: int| '0'),
            out@ == old(out)@ + zeros,
        decreases width - written,
    {
        out.push('0');
        written += 1;
        proof {
            let more = Seq::new((written - digits.len()) as nat, |i: int| '0');
            assert(more =~= zeros.push('0'));
            zeros = more;
            assert(out@ =~= old(out)@ + zeros);
        }
    }
    out.append(&mut digits);
    assert(out@ =~= old(out)@ + padded(n as nat, width as nat));
}

/// Appends the characters of `more` to `out`.
pub fn push_str(out: &mut Vec<char>, more: &str)
    ensures
        final(out)@ == old(out)@ + more@,
{
    let mut chars = to_chars(more);
    out.append(&mut chars);
}

/// `c` with an upper-case ASCII letter turned into its lower-case form.
pub open spec fn lower_char(c: char) -> char {
    if 'A' <= c <= 'Z' {
        ((c as u8) + 32) as char
    } else {
        c
    }
}

/// `s` with its upper-case ASCII letters turned into lower case.
pub open spec fn ascii_lower(s: Seq<char>) -> Seq<char> {
    Seq::new(s.len(), |i: int| lower_char(s[i]))
}

/// `chars` with its upper-case ASCII letters turned into lower case.
pub fn to_ascii_lower(chars: &Vec<char>) -> (out: Vec<char>)
    ensures
        out@ == ascii_lower(chars@),
{
    let mut out: Vec<char> = Vec::new();
    let mut i: usize = 0;
    while i < chars.len()
        invariant
            i <= chars.len(),
            out@ == ascii_lower(chars@).take(i as int),
        decreases chars.len() - i,
    {
        let c = chars[i];
        let low = if 'A' <= c && c <= 'Z' {
            ((c as u8) + 32u8) as char
        } else {
            c
        };
        out.push(low);
        i += 1;
        assert(out@ =~= ascii_lower(chars@).take(i as int));
    }
    assert(ascii_lower(chars@).take(chars.len() as int) =~= ascii_lower(chars@));
    out
}

/// Whether `chars` spells `word`.
pub fn spells(chars: &Vec<char>, word: &str) -> (same: bool)
    ensures
        same == (chars@ == word@),
{
    let other = to_chars(word);
    if other.len() != chars.len() {
        return false;
    }
    let found = matches_at(chars, &other, 0);
    proof {
        assert(chars@.subrange(0, chars@.len() as int) =~= chars@);
    }
    found
}

/// `hay` starts with `head`.
pub open spec fn starts_with(hay: Seq<char>, head: Seq<char>) -> bool {
    occurs_at(hay, head, 0)
}

/// Whether `hay` starts with `head`.
pub fn has_prefix(hay: &Vec<char>, head: &str) -> (found: bool)
    ensures
        found == starts_with(hay@, head@),
{
    let head_chars = to_chars(head);
    matches_at(hay, &head_chars, 0)
}

/// `hay` ends with `tail`.
pub open spec fn ends_with(hay: Seq<char>, tail: Seq<char>) -> bool {
    occurs_at(hay, tail, hay.len() - tail.len())
}

/// Whether `hay` ends with `tail`.
pub fn has_suffix(hay: &Vec<char>, tail: &str) -> (found: bool)
    ensures
        found == ends_with(hay@, tail@),
{
    let tail_chars = to_chars(tail);
    if tail_chars.len() > hay.len() {
        return false;
    }
    matches_at(hay, &tail_chars, hay.len() - tail_chars.len())
}

/// `from` is where the extension of `name` starts: directly behind its
/// last dot.
pub open spec fn is_extension_start(name: Seq<char>, from: int) -> bool {
    &&& 0 < from <= name.len()
    &&& name[from - 1] == '.'
    &&& forall|j: int| from <= j < name.len() ==> name[j] != '.'
}

/// The extension of `name`: the part behind its last dot. A name without
/// a dot has no extension.
pub open spec fn extension(name: Seq<char>) -> Option<Seq<char>> {
    if exists|from: int| is_extension_start(name, from) {
        let from = choose|from: int| is_extension_start(name, from);
        Some(name.subrange(from, name.len() as int))
    } else {
        None
    }
}

/// The extension of `name`: the part behind its last dot, or nothing
/// where the name has no dot.
pub fn extension_of(name: &Vec<char>) -> (out: Option<Vec<char>>)
    ensures
        match extension(name@) {
            Some(ext) => out is Some && out->Some_0@ == ext,
            None => out is None,
        },
{
    let mut from: usize = name.len();
    while from > 0 && name[from - 1] != '.'
        invariant
            from <= name.len(),
            forall|j: int| from <= j < name.len() ==> name@[j] != '.',
        decreases from,
    {
        from -= 1;
    }
    if from == 0 {
        proof {
            assert forall|k: int| !is_extension_start(name@, k) by {
                if is_extension_start(name@, k) {
                    assert(name@[k - 1] == '.');
                }
            }
        }
        return None;
    }
    proof {
        assert(is_extension_start(name@, from as int));
        let chosen = choose|k: int| is_extension_start(name@, k);
        if chosen < from {
            assert(name@[from - 1] == '.');
        }
        if chosen > from {
            assert(name@[chosen - 1] == '.');
        }
        assert(chosen == from);
    }
    Some(slice(name, from, name.len()))
}

/// The pieces into which the occurrences of `sep` cut the part of `hay`
/// from `from` on. Occurrences are taken from the left and do not
/// overlap; a text without occurrence is one piece.
pub open spec fn split_from(hay: Seq<char>, sep: Seq<char>, from: int) -> Seq<Seq<char>>
    decreases hay.len() - from,
    when sep.len() > 0 && 0 <= from
    via split_from_decreases
{
    match find_from(hay, sep, from) {
        Some(at) => seq![hay.subrange(from, at)] + split_from(hay, sep, at + sep.len()),
        None => seq![hay.subrange(from, hay.len() as int)],
    }
}

#[via_fn]
proof fn split_from_decreases(hay: Seq<char>, sep: Seq<char>, from: int) {
    lemma_find_from(hay, sep, from);
}

/// The pieces into which the occurrences of `sep` cut `hay`.
pub open spec fn split(hay: Seq<char>, sep: Seq<char>) -> Seq<Seq<char>> {
    split_from(hay, sep, 0)
}

/// The characters of `hay` from `from` up to `to`.
pub(crate) fn slice(hay: &Vec<char>, from: usize, to: usize) -> (out: Vec<char>)
    requires
        from <= to <= hay.len(),
    ensures
        out@ == hay@.subrange(from as int, to as int),
{
    let mut out: Vec<char> = Vec::new();
    let mut i: usize = from;
    while i < to
        invariant
            from <= i <= to <= hay.len(),
            out@ == hay@.subrange(from as int, i as int),
        decreases to - i,
    {
        out.push(hay[i]);
        i += 1;
        assert(out@ =~= hay@.subrange(from as int, i as int));
    }
    out
}

/// Cuts `hay` at the occurrences of `sep`, which is not empty.
pub(crate) fn split_text(hay: &Vec<char>, sep: &Vec<char>) -> (out: Vec<Vec<char>>)
    requires
        sep.len() > 0,
    ensures
        out@.len() == split(hay@, sep@).len(),
        forall|i: int| 0 <= i < out@.len() ==> out@[i]@ == #[trigger] split(hay@, sep@)[i],
{
    let mut out: Vec<Vec<char>> = Vec::new();
    let mut from: usize = 0;
    let ghost done: Seq<Seq<char>> = Seq::empty();
    loop
        invariant
            sep.len() > 0,
            from <= hay.len(),
            out@.len() == done.len(),
            forall|i: int| 0 <= i < out@.len() ==> out@[i]@ == #[trigger] done[i],
            split(hay@, sep@) == done + split_from(hay@, sep@, from as int),
        decreases hay.len() - from,
    {
        proof {
            lemma_find_from(hay@, sep@, from as int);
        }
        match find(hay, sep, from) {
            Some(at) => {
                out.push(slice(hay, from, at));
                proof {
                    let piece = hay@.subrange(from as int, at as int);
                    assert(done + (seq![piece] + split_from(hay@, sep@, at + sep.len())) =~= done.push(
                        piece,
                    ) + split_from(hay@, sep@, at + sep.len()));
                    done = done.push(piece);
                }
                from = at + sep.len();
            },
            None => {
                out.push(slice(hay, from, hay.len()));
                proof {
                    let piece = hay@.subrange(from as int, hay.len() as int);
                    assert(done + seq![piece] =~= done.push(piece));
                    done = done.push(piece);
                }
                return out;
            },
        }
    }
}

/// `c` is white space as Unicode defines it.
pub open spec fn is_space(c: char) -> bool {
    let n = c as u32;
    ||| 0x09 <= n <= 0x0D
    ||| n == 0x20
    ||| n == 0x85
    ||| n == 0xA0
    ||| n == 0x1680
    ||| 0x2000 <= n <= 0x200A
    ||| n == 0x2028
    ||| n == 0x2029
    ||| n == 0x202F
    ||| n == 0x205F
    ||| n == 0x3000
}

/// Whether `c` is white space.
pub fn space(c: char) -> (out: bool)
    ensures
        out == is_space(c),
{
    let n: u32 = c as u32;
    (0x09 <= n && n <= 0x0D) || n == 0x20 || n == 0x85 || n == 0xA0 || n == 0x1680 || (0x2000 <= n
        && n <= 0x200A) || n == 0x2028 || n == 0x2029 || n == 0x202F || n == 0x205F || n == 0x3000
}

/// The number of bytes that `c` takes in UTF-8.
pub open spec fn utf8_len(c: char) -> nat {
    let n = c as u32;
    if n < 0x80 {
        1
    } else if n < 0x800 {
        2
    } else if n < 0x10000 {
        3
    } else {
        4
    }
}

/// The number of bytes that `s` takes in UTF-8.
pub open spec fn byte_len(s: Seq<char>) -> nat
    decreases s.len(),
{
    if s.len() == 0 {
        0
    } else {
        byte_len(s.drop_last()) + utf8_len(s.last())
    }
}

/// `from` is where `s` starts once its leading white space is gone.
pub open spec fn is_trim_start(s: Seq<char>, from: int) -> bool {
    &&& 0 <= from <= s.len()
    &&& forall|j: int| 0 <= j < from ==> is_space(s[j])
    &&& (from == s.len() || !is_space(s[from]))
}

/// `to` is where `s`, which starts at `from`, ends once its trailing
/// white space is gone.
pub open spec fn is_trim_end(s: Seq<char>, from: int, to: int) -> bool {
    &&& from <= to <= s.len()
    &&& forall|j: int| to <= j < s.len() ==> is_space(s[j])
    &&& (to == from || !is_space(s[to - 1]))
}

/// `s` without the white space at its start and at its end.
pub open spec fn trimmed(s: Seq<char>) -> Seq<char> {
    let from = choose|from: int| is_trim_start(s, from);
    let to = choose|to: int| is_trim_end(s, from, to);
    s.subrange(from, to)
}

/// Whether `chars`, without the white space at its start and at its end,
/// takes more than `limit` bytes in UTF-8.
pub fn trimmed_exceeds(chars: &Vec<char>, limit: usize) -> (out: bool)
    ensures
        out == (byte_len(trimmed(chars@)) > limit),
{
    let mut from: usize = 0;
    while from < chars.len() && space(chars[from])
        invariant
            from <= chars.len(),
            forall|j: int| 0 <= j < from ==> is_space(chars@[j]),
        decreases chars.len() - from,
    {
        from += 1;
    }
    let mut to: usize = chars.len();
    while to > from && space(chars[to - 1])
        invariant
            from <= to <= chars.len(),
            forall|j: int| to <= j < chars.len() ==> is_space(chars@[j]),
        decreases to,
    {
        to -= 1;
    }
    proof {
        assert(is_trim_start(chars@, from as int));
        let f = choose|f: int| is_trim_start(chars@, f);
        if f < from {
            assert(is_space(chars@[f]));
        }
        if f > from {
            assert(is_space(chars@[from as int]));
        }
        assert(f == from);
        assert(is_trim_end(chars@, from as int, to as int));
        let t = choose|t: int| is_trim_end(chars@, from as int, t);
        if t < to {
            assert(is_space(chars@[to - 1]));
        }
        if t > to {
            assert(is_space(chars@[t - 1]));
        }
        assert(t == to);
        assert(trimmed(chars@) == chars@.subrange(from as int, to as int));
    }
    let mut total: usize = 0;
    let mut i: usize = from;
    while i < to
        invariant
            from <= i <= to <= chars.len(),
            total == byte_len(chars@.subrange(from as int, i as int)),
            total <= limit,
            trimmed(chars@) == chars@.subrange(from as int, to as int),
        decreases to - i,
    {
        let n: u32 = chars[i] as u32;
        let width: usize = if n < 0x80 {
            1
        } else if n < 0x800 {
            2
        } else if n < 0x10000 {
            3
        } else {
            4
        };
        proof {
            let next = chars@.subrange(from as int, i + 1);
            assert(next.drop_last() =~= chars@.subrange(from as int, i as int));
            assert(next.last() == chars@[i as int]);
            lemma_byte_len_grows(chars@, from as int, i + 1, to as int);
        }
        if width > limit - total {
            return true;
        }
        total = total + width;
        i += 1;
    }
    false
}

/// A longer part of a text takes at least as many bytes.
pub proof fn lemma_byte_len_grows(s: Seq<char>, from: int, mid: int, to: int)
    requires
        0 <= from <= mid <= to <= s.len(),
    ensures
        byte_len(s.subrange(from, mid)) <= byte_len(s.subrange(from, to)),
    decreases to - mid,
{
    if mid < to {
        lemma_byte_len_grows(s, from, mid, to - 1);
        assert(s.subrange(from, to).drop_last() =~= s.subrange(from, to - 1));
    }
}

} // verus!
