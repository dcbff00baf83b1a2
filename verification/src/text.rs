//! Plain-text helpers: keystroke editing of a text buffer, blank checks,
//! line splitting, and number formatting.

use vstd::prelude::*;

verus! {

/// Backspace as sent by most terminals (DEL).
pub const DELETE: u8 = 0x7f;

/// Backspace as sent by some terminals (BS).
pub const BACKSPACE: u8 = 0x08;

/// A byte that deletes the last character of the buffer.
pub open spec fn is_erase(b: u8) -> bool {
    b == DELETE || b == BACKSPACE
}

/// A byte that is printable ASCII (space through tilde).
pub open spec fn is_printable(b: u8) -> bool {
    0x20 <= b <= 0x7e
}

/// Escape: starts an escape sequence.
pub const ESC: u8 = 0x1b;

/// The second byte of a control sequence (`ESC [`), as arrow keys send in
/// normal cursor mode.
pub const CSI: u8 = 0x5b;

/// The second byte of a single-shift sequence (`ESC O`), as arrow keys send
/// in application cursor mode.
pub const SS3: u8 = 0x4f;

/// A parameter or intermediate byte of a control sequence (`0x20`-`0x3f`).
pub open spec fn is_param(b: u8) -> bool {
    0x20 <= b <= 0x3f
}

/// How many parameter bytes `d` starts with.
pub open spec fn params_len(d: Seq<u8>) -> nat
    decreases d.len(),
{
    if d.len() > 0 && is_param(d[0]) {
        1 + params_len(d.drop_first())
    } else {
        0
    }
}

/// The length of the escape sequence at the front of `d` (whose first byte
/// is ESC): `ESC [`, any parameter bytes and one final byte; `ESC O` and one
/// final byte; or ESC with any one other byte (Alt and a key). A sequence cut
/// short by the end of `d` takes the rest of `d`.
pub open spec fn escape_len(d: Seq<u8>) -> nat {
    if d.len() < 2 {
        d.len()
    } else if d[1] == CSI {
        let p = params_len(d.skip(2));
        if 2 + p < d.len() { 3 + p } else { d.len() }
    } else if d[1] == SS3 {
        if d.len() >= 3 { 3 } else { d.len() }
    } else {
        2
    }
}

/// The bytes of `d` that are keystrokes of their own: `d` with every escape
/// sequence taken out.
pub open spec fn keys_of(d: Seq<u8>) -> Seq<u8>
    decreases d.len(),
{
    if d.len() == 0 {
        Seq::empty()
    } else if d[0] == ESC {
        if escape_len(d) >= 1 { keys_of(d.skip(escape_len(d) as int)) } else { Seq::empty() }
    } else {
        seq![d[0]] + keys_of(d.drop_first())
    }
}

/// The buffer after the single-byte keys `keys` were applied to it, one at a
/// time: an erase byte removes the last character (if any), a printable byte
/// is appended, every other byte (a control code) is ignored.
pub open spec fn apply_keys(buf: Seq<char>, keys: Seq<u8>) -> Seq<char>
    decreases keys.len(),
{
    if keys.len() == 0 {
        buf
    } else {
        let before = apply_keys(buf, keys.drop_last());
        let b = keys.last();
        if is_erase(b) {
            if before.len() > 0 { before.drop_last() } else { before }
        } else if is_printable(b) {
            before.push(b as char)
        } else {
            before
        }
    }
}

/// The buffer after the bytes `data` were typed into it: escape sequences
/// (arrow keys and the like) add nothing, and the other bytes apply as keys.
pub open spec fn typed(buf: Seq<char>, data: Seq<u8>) -> Seq<char> {
    apply_keys(buf, keys_of(data))
}

/// Applying keys in two runs is applying them all at once.
pub proof fn lemma_apply_composes(buf: Seq<char>, a: Seq<u8>, b: Seq<u8>)
    ensures
        apply_keys(apply_keys(buf, a), b) == apply_keys(buf, a + b),
    decreases b.len(),
{
    if b.len() == 0 {
        assert(a + b =~= a);
    } else {
        lemma_apply_composes(buf, a, b.drop_last());
        assert((a + b).drop_last() =~= a + b.drop_last());
        assert((a + b).last() == b.last());
    }
}

/// What typing one byte that does not start an escape sequence does.
pub proof fn lemma_typed_one(buf: Seq<char>, b: u8)
    requires
        b != ESC,
    ensures
        typed(buf, seq![b]) == (if is_erase(b) {
            if buf.len() > 0 { buf.drop_last() } else { buf }
        } else if is_printable(b) {
            buf.push(b as char)
        } else {
            buf
        }),
{
    assert(seq![b].drop_first() =~= Seq::<u8>::empty());
    assert(keys_of(seq![b]) =~= seq![b] + keys_of(Seq::<u8>::empty()));
    assert(keys_of(seq![b]) =~= seq![b]);
    assert(seq![b].drop_last() =~= Seq::<u8>::empty());
    assert(apply_keys(buf, Seq::<u8>::empty()) == buf);
}

/// An escape sequence is never longer than what is left, and never empty.
proof fn lemma_escape_len_bounds(d: Seq<u8>)
    requires
        d.len() >= 1,
    ensures
        1 <= escape_len(d) <= d.len(),
{
}

/// `params_len` counts a run: after `k` parameter bytes, the rest counts on.
proof fn lemma_params_step(d: Seq<u8>, j: int)
    requires
        0 <= j < d.len(),
        is_param(d[j]),
    ensures
        params_len(d.skip(j)) == 1 + params_len(d.skip(j + 1)),
{
    assert(d.skip(j).drop_first() =~= d.skip(j + 1));
}

/// The length of the escape sequence starting at `data[i]` (an ESC).
fn escape_len_at(data: &[u8], i: usize) -> (n: usize)
    requires
        i < data@.len(),
        data@[i as int] == ESC,
    ensures
        n == escape_len(data@.skip(i as int)),
{
    let len = data.len();
    let ghost d = data@.skip(i as int);
    if len - i < 2 {
        return len - i;
    }
    if data[i + 1] == CSI {
        let mut j: usize = i + 2;
        proof {
            assert(d.skip(2) =~= data@.skip(i + 2));
        }
        while j < len && 0x20 <= data[j] && data[j] <= 0x3f
            invariant
                i + 2 <= j <= len,
                len == data@.len(),
                d == data@.skip(i as int),
                params_len(d.skip(2)) == (j - (i + 2)) + params_len(data@.skip(j as int)),
            decreases len - j,
        {
            proof {
                lemma_params_step(data@, j as int);
            }
            j = j + 1;
        }
        proof {
            assert(d.skip(2) =~= data@.skip(i + 2));
            if j == len {
                assert(data@.skip(j as int).len() == 0);
            }
        }
        if j < len { j + 1 - i } else { len - i }
    } else if data[i + 1] == SS3 {
        if len - i >= 3 { 3 } else { len - i }
    } else {
        2
    }
}

/// Appends `c` to `s` with `String::push`.
///
/// Claimed of it: the characters afterwards are those before with `c` added
/// at the end, as std documents.
#[verifier::external_body]
pub(crate) fn string_push(s: &mut String, c: char)
    ensures
        final(s)@ == old(s)@.push(c),
{
    s.push(c);
}

/// Removes the last character of `s`, if there is one, with `String::pop`.
///
/// Claimed of it: the last character is dropped when there is one, and an
/// empty string stays empty, as std documents. The character returned is
/// not used.
#[verifier::external_body]
fn string_pop(s: &mut String)
    ensures
        old(s)@.len() > 0 ==> final(s)@ == old(s)@.drop_last(),
        old(s)@.len() == 0 ==> final(s)@ == old(s)@,
{
    s.pop();
}

/// Apply typed bytes to a text buffer: printable ASCII is appended,
/// Backspace (0x7f or 0x08) deletes the last character, escape sequences
/// (arrow keys and the like) and other control codes are ignored.
pub fn push_printable(buf: &mut String, data: &[u8])
    ensures
        final(buf)@ == typed(old(buf)@, data@),
{
    let mut i: usize = 0;
    proof {
        assert(data@.skip(0) =~= data@);
    }
    while i < data.len()
        invariant
            i <= data@.len(),
            apply_keys(buf@, keys_of(data@.skip(i as int))) == typed(old(buf)@, data@),
        decreases data@.len() - i,
    {
        let b = data[i];
        let ghost rest = data@.skip(i as int);
        if b == ESC {
            let n = escape_len_at(data, i);
            proof {
                lemma_escape_len_bounds(rest);
                assert(rest.skip(n as int) =~= data@.skip(i + n));
            }
            i = i + n;
        } else {
            let ghost before = buf@;
            proof {
                assert(rest.drop_first() =~= data@.skip(i + 1));
                assert(keys_of(rest) == seq![b] + keys_of(data@.skip(i + 1)));
                lemma_apply_composes(before, seq![b], keys_of(data@.skip(i + 1)));
                assert(seq![b].drop_last() =~= Seq::<u8>::empty());
                assert(seq![b].last() == b);
                assert(apply_keys(before, Seq::<u8>::empty()) == before);
            }
            if b == DELETE || b == BACKSPACE {
                string_pop(buf);
            } else if 0x20 <= b && b <= 0x7e {
                string_push(buf, b as char);
            }
            assert(buf@ == apply_keys(before, seq![b]));
            i = i + 1;
        }
    }
    proof {
        assert(data@.skip(data@.len() as int).len() == 0);
        assert(keys_of(data@.skip(data@.len() as int)) == Seq::<u8>::empty());
    }
}


/// A character that `char::is_whitespace` accepts: the Unicode
/// `White_Space` property.
pub open spec fn is_space(c: char) -> bool {
    ||| '\u{9}' <= c <= '\u{d}'
    ||| c == ' '
    ||| c == '\u{85}'
    ||| c == '\u{a0}'
    ||| c == '\u{1680}'
    ||| '\u{2000}' <= c <= '\u{200a}'
    ||| c == '\u{2028}'
    ||| c == '\u{2029}'
    ||| c == '\u{202f}'
    ||| c == '\u{205f}'
    ||| c == '\u{3000}'
}

/// A text that holds nothing but whitespace (what `s.trim().is_empty()` tells).
pub open spec fn blank(s: Seq<char>) -> bool {
    forall|i: int| 0 <= i < s.len() ==> is_space(#[trigger] s[i])
}

/// Whether `c` is whitespace in the sense of `is_space`.
pub fn char_is_space(c: char) -> (r: bool)
    ensures
        r == is_space(c),
{
    ('\u{9}' <= c && c <= '\u{d}') || c == ' ' || c == '\u{85}' || c == '\u{a0}'
        || c == '\u{1680}' || ('\u{2000}' <= c && c <= '\u{200a}') || c == '\u{2028}'
        || c == '\u{2029}' || c == '\u{202f}' || c == '\u{205f}' || c == '\u{3000}'
}

/// Whether `s` is empty once surrounding whitespace is trimmed away.
pub fn is_blank(s: &str) -> (r: bool)
    ensures
        r == blank(s@),
{
    let mut all_space = true;
    for c in it: s.chars()
        invariant
            it.seq() == s@,
            all_space == (forall|j: int| 0 <= j < it.index() ==> is_space(#[trigger] s@[j])),
    {
        if !char_is_space(c) {
            all_space = false;
        }
    }
    all_space
}


/// The lines of `s`, as `str::split('\n')` gives them: pieces between
/// newlines, one more than there are newlines, empty pieces included.
pub open spec fn lines_of(s: Seq<char>) -> Seq<Seq<char>>
    decreases s.len(),
{
    if s.len() == 0 {
        seq![Seq::<char>::empty()]
    } else {
        let before = lines_of(s.drop_last());
        if s.last() == '\n' {
            before.push(Seq::<char>::empty())
        } else {
            before.update(before.len() - 1, before.last().push(s.last()))
        }
    }
}

/// There is always at least one line.
pub proof fn lemma_lines_nonempty(s: Seq<char>)
    ensures
        lines_of(s).len() >= 1,
    decreases s.len(),
{
    if s.len() > 0 {
        lemma_lines_nonempty(s.drop_last());
    }
}

/// The characters of each string of a list.
pub open spec fn strings_view(v: Seq<String>) -> Seq<Seq<char>> {
    v.map_values(|x: String| x@)
}

/// Splits `s` at its newlines.
pub fn split_lines(s: &str) -> (lines: Vec<String>)
    ensures
        strings_view(lines@) == lines_of(s@),
{
    let mut done: Vec<String> = Vec::new();
    let mut cur = String::new();
    proof {
        assert(s@.take(0) =~= Seq::<char>::empty());
        assert(strings_view(done@).push(cur@) =~= lines_of(s@.take(0)));
    }
    for c in it: s.chars()
        invariant
            it.seq() == s@,
            strings_view(done@).push(cur@) == lines_of(s@.take(it.index() as int)),
    {
        let ghost i = it.index() as int;
        proof {
            assert(s@.take(i + 1).drop_last() =~= s@.take(i));
            assert(s@.take(i + 1).last() == c);
            lemma_lines_nonempty(s@.take(i));
        }
        if c == '\n' {
            let finished = cur;
            done.push(finished);
            cur = String::new();
            proof {
                assert(strings_view(done@).push(cur@) =~= lines_of(s@.take(i)).push(Seq::<char>::empty()));
            }
        } else {
            let ghost before = cur@;
            string_push(&mut cur, c);
            proof {
                let prev = lines_of(s@.take(i));
                assert(prev.last() == before);
                assert(strings_view(done@).push(cur@) =~= prev.update(prev.len() - 1, prev.last().push(c)));
            }
        }
    }
    proof {
        assert(s@.take(s@.len() as int) =~= s@);
    }
    done.push(cur);
    done
}

/// The decimal digits of `n`, most significant first, without leading zeros
/// (`"0"` for zero).
pub open spec fn decimal(n: nat) -> Seq<char>
    decreases n,
{
    if n < 10 {
        seq![digit(n)]
    } else {
        decimal(n / 10).push(digit(n % 10))
    }
}

/// The character of a single decimal digit.
pub open spec fn digit(d: nat) -> char {
    if d == 0 { '0' }
    else if d == 1 { '1' }
    else if d == 2 { '2' }
    else if d == 3 { '3' }
    else if d == 4 { '4' }
    else if d == 5 { '5' }
    else if d == 6 { '6' }
    else if d == 7 { '7' }
    else if d == 8 { '8' }
    else { '9' }
}

fn digit_char(d: usize) -> (c: char)
    requires
        d < 10,
    ensures
        c == digit(d as nat),
{
    if d == 0 { '0' }
    else if d == 1 { '1' }
    else if d == 2 { '2' }
    else if d == 3 { '3' }
    else if d == 4 { '4' }
    else if d == 5 { '5' }
    else if d == 6 { '6' }
    else if d == 7 { '7' }
    else if d == 8 { '8' }
    else { '9' }
}

/// Appends the decimal digits of `n` to `s`.
pub fn push_decimal(s: &mut String, n: usize)
    ensures
        final(s)@ == old(s)@ + decimal(n as nat),
    decreases n,
{
    if n < 10 {
        string_push(s, digit_char(n));
        assert(decimal(n as nat) =~= seq![digit(n as nat)]);
    } else {
        push_decimal(s, n / 10);
        string_push(s, digit_char(n % 10));
        proof {
            let a = old(s)@;
            assert((a + decimal((n / 10) as nat)).push(digit((n % 10) as nat))
                =~= a + decimal((n / 10) as nat).push(digit((n % 10) as nat)));
        }
    }
}

/// `s` right-aligned in a field `width` characters wide: spaces in front
/// when it is shorter, unchanged otherwise (as `format!("{s:>width$}")`).
pub open spec fn pad_left(s: Seq<char>, width: nat) -> Seq<char> {
    if s.len() < width {
        Seq::new((width - s.len()) as nat, |i: int| ' ') + s
    } else {
        s
    }
}

/// `s` right-aligned in a field `width` characters wide.
pub fn padded_left(s: &str, width: usize) -> (r: String)
    ensures
        r@ == pad_left(s@, width as nat),
{
    let n = s.unicode_len();
    let mut r = String::new();
    let mut k: usize = n;
    while k < width
        invariant
            n == s@.len(),
            n <= k <= width || (k == n && n >= width),
            r@ == Seq::new((k - n) as nat, |i: int| ' '),
        decreases width - k,
    {
        string_push(&mut r, ' ');
        k = k + 1;
        assert(r@ =~= Seq::new((k - n) as nat, |i: int| ' '));
    }
    r.append(s);
    proof {
        if n >= width {
            assert(r@ =~= s@);
        }
    }
    r
}

} // verus!
