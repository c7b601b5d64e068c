//! The text that the host prints for a string a mod hands it: the bytes are cut
//! into lines at each newline, and every byte outside printable ASCII is shown as
//! a `\xHH` escape with two upper-case hex digits.
use vstd::prelude::*;

verus! {

/// The newline byte, at which the text is cut into lines.
pub const NEWLINE: u8 = 0x0a;

/// A byte that is printed as it is: `' '` up to `'~'`.
pub open spec fn is_printable_ascii(b: u8) -> bool {
    0x20 <= b <= 0x7e
}

/// The upper-case hex digit of `d`, for `d` in `0..16`.
pub open spec fn hex_digit_upper(d: int) -> u8 {
    if d < 10 {
        (0x30 + d) as u8
    } else {
        (0x41 + d - 10) as u8
    }
}

/// What one byte of a line turns into: itself when printable, else `\x` and its
/// two hex digits.
pub open spec fn escape_byte(b: u8) -> Seq<u8> {
    if is_printable_ascii(b) {
        seq![b]
    } else {
        seq![0x5cu8, 0x78u8, hex_digit_upper(b as int / 16), hex_digit_upper(b as int % 16)]
    }
}

/// A line with every byte escaped.
pub open spec fn escape_bytes(s: Seq<u8>) -> Seq<u8>
    decreases s.len(),
{
    if s.len() == 0 {
        seq![]
    } else {
        escape_bytes(s.drop_last()) + escape_byte(s.last())
    }
}

/// The pieces of `s` between newlines: one more piece than `s` has newlines.
pub open spec fn split_lines(s: Seq<u8>) -> Seq<Seq<u8>>
    decreases s.len(),
{
    if s.len() == 0 {
        seq![seq![]]
    } else {
        let prev = split_lines(s.drop_last());
        if s.last() == NEWLINE {
            prev.push(seq![])
        } else {
            prev.drop_last().push(prev.last().push(s.last()))
        }
    }
}

/// The lines joined again, with a newline between each two.
pub open spec fn join_lines(lines: Seq<Seq<u8>>) -> Seq<u8>
    decreases lines.len(),
{
    if lines.len() <= 1 {
        if lines.len() == 0 {
            seq![]
        } else {
            lines[0]
        }
    } else {
        join_lines(lines.drop_last()) + seq![NEWLINE] + lines.last()
    }
}

/// The lines that the host prints for `data`.
pub open spec fn printed_lines(data: Seq<u8>) -> Seq<Seq<u8>> {
    split_lines(data).map_values(|line: Seq<u8>| escape_bytes(line))
}

/// The number of newlines in `s`.
pub open spec fn count_newlines(s: Seq<u8>) -> nat
    decreases s.len(),
{
    if s.len() == 0 {
        0
    } else {
        count_newlines(s.drop_last()) + if s.last() == NEWLINE {
            1nat
        } else {
            0nat
        }
    }
}

proof fn lemma_split_lines_len(s: Seq<u8>)
    ensures
        split_lines(s).len() == count_newlines(s) + 1,
    decreases s.len(),
{
    if s.len() > 0 {
        lemma_split_lines_len(s.drop_last());
    }
}

/// Cutting at newlines loses nothing and keeps no newline: the pieces, joined with
/// newlines, give the input back; no piece holds a newline; and there is one piece
/// more than there are newlines.
pub proof fn law_split_lines(s: Seq<u8>)
    ensures
        join_lines(split_lines(s)) == s,
        split_lines(s).len() == count_newlines(s) + 1,
        forall|i: int, j: int|
            0 <= i < split_lines(s).len() && 0 <= j < split_lines(s)[i].len()
                ==> split_lines(s)[i][j] != NEWLINE,
    decreases s.len(),
{
    lemma_split_lines_len(s);
    if s.len() > 0 {
        let t = s.drop_last();
        law_split_lines(t);
        let prev = split_lines(t);
        let cur = split_lines(s);
        if s.last() == NEWLINE {
            assert(cur.drop_last() == prev);
            assert(join_lines(cur) == join_lines(prev) + seq![NEWLINE] + Seq::<u8>::empty());
            assert(s == t + seq![NEWLINE]);
        } else {
            lemma_split_lines_len(t);
            let last = prev.last().push(s.last());
            assert(cur.last() == last);
            assert(cur.drop_last() == prev.drop_last());
            if prev.len() == 1 {
                assert(prev[0] == t) by {
                    assert(join_lines(prev) == prev[0]);
                }
                assert(s == t.push(s.last()));
            } else {
                assert(join_lines(prev) == join_lines(prev.drop_last()) + seq![NEWLINE]
                    + prev.last());
                assert(join_lines(cur) == join_lines(prev.drop_last()) + seq![NEWLINE] + last);
                assert(s == t.push(s.last()));
            }
            assert forall|i: int, j: int|
                0 <= i < cur.len() && 0 <= j < cur[i].len() implies cur[i][j] != NEWLINE by {
                if i < cur.len() - 1 {
                    assert(cur[i] == prev[i]);
                } else if j < prev.last().len() {
                    assert(cur[i][j] == prev[prev.len() - 1][j]);
                }
            }
        }
    }
}

proof fn lemma_escape_byte_printable(b: u8)
    ensures
        forall|k: int| 0 <= k < escape_byte(b).len() ==> is_printable_ascii(#[trigger] escape_byte(b)[k]),
        1 <= escape_byte(b).len() <= 4,
{
}

/// Escaping leaves only printable ASCII, and makes each byte at least one and at
/// most four bytes long.
pub proof fn law_escape_printable(s: Seq<u8>)
    ensures
        forall|k: int| 0 <= k < escape_bytes(s).len() ==> is_printable_ascii(#[trigger] escape_bytes(s)[k]),
        s.len() <= escape_bytes(s).len() <= 4 * s.len(),
    decreases s.len(),
{
    if s.len() > 0 {
        law_escape_printable(s.drop_last());
        lemma_escape_byte_printable(s.last());
        let p = escape_bytes(s.drop_last());
        let e = escape_byte(s.last());
        assert forall|k: int| 0 <= k < escape_bytes(s).len() implies is_printable_ascii(
            #[trigger] escape_bytes(s)[k],
        ) by {
            if k < p.len() {
                assert(escape_bytes(s)[k] == p[k]);
            } else {
                assert(escape_bytes(s)[k] == e[k - p.len()]);
            }
        }
    }
}

/// The characters `0`-`9` and `A`-`F`.
pub open spec fn is_hex_digit_upper(c: u8) -> bool {
    (0x30 <= c <= 0x39) || (0x41 <= c <= 0x46)
}

/// The value of an upper-case hex digit character.
pub open spec fn hex_value(c: u8) -> int {
    if c <= 0x39 {
        c - 0x30
    } else {
        c - 0x41 + 10
    }
}

/// Reads escaped text back: `\x` and two upper-case hex digits stand for the byte
/// they spell, any other byte for itself.
pub open spec fn unescape(e: Seq<u8>) -> Seq<u8>
    decreases e.len(),
{
    if e.len() >= 4 && e[0] == 0x5c && e[1] == 0x78 && is_hex_digit_upper(e[2])
        && is_hex_digit_upper(e[3]) {
        seq![(hex_value(e[2]) * 16 + hex_value(e[3])) as u8] + unescape(e.skip(4))
    } else if e.len() > 0 {
        seq![e[0]] + unescape(e.skip(1))
    } else {
        seq![]
    }
}

/// Each byte is printed as itself when it lies in `0x20..=0x7e`; any other byte
/// as `\x` and two upper-case hex digits that spell its high and its low half.
pub proof fn law_escape_byte_spells_byte(b: u8)
    ensures
        0x20 <= b <= 0x7e ==> escape_byte(b) == seq![b],
        !(0x20 <= b <= 0x7e) ==> {
            &&& escape_byte(b).len() == 4
            &&& escape_byte(b)[0] == 0x5c
            &&& escape_byte(b)[1] == 0x78
            &&& is_hex_digit_upper(escape_byte(b)[2])
            &&& is_hex_digit_upper(escape_byte(b)[3])
            &&& hex_value(escape_byte(b)[2]) == b / 16
            &&& hex_value(escape_byte(b)[3]) == b % 16
        },
{
}

proof fn lemma_escape_bytes_front(b: u8, s: Seq<u8>)
    ensures
        escape_bytes(seq![b] + s) == escape_byte(b) + escape_bytes(s),
    decreases s.len(),
{
    let t = seq![b] + s;
    if s.len() == 0 {
        assert(t == seq![b]);
        assert(t.drop_last() == Seq::<u8>::empty());
        assert(escape_bytes(t) == escape_bytes(Seq::<u8>::empty()) + escape_byte(b));
    } else {
        assert(t.drop_last() == seq![b] + s.drop_last());
        assert(t.last() == s.last());
        lemma_escape_bytes_front(b, s.drop_last());
        assert(escape_bytes(s) == escape_bytes(s.drop_last()) + escape_byte(s.last()));
        assert(escape_bytes(t) == escape_bytes(seq![b] + s.drop_last()) + escape_byte(s.last()));
    }
}

/// A line without backslashes is read back from its escaped form: every byte
/// comes back, in order, including those shown as `\xHH`.
pub proof fn law_unescape_escape(s: Seq<u8>)
    requires
        forall|i: int| 0 <= i < s.len() ==> s[i] != 0x5c,
    ensures
        unescape(escape_bytes(s)) == s,
    decreases s.len(),
{
    if s.len() > 0 {
        let b = s[0];
        let rest = s.drop_first();
        assert(s == seq![b] + rest);
        lemma_escape_bytes_front(b, rest);
        law_unescape_escape(rest);
        law_escape_byte_spells_byte(b);
        let e = escape_byte(b) + escape_bytes(rest);
        assert(escape_bytes(s) == e);
        if 0x20 <= b <= 0x7e {
            assert(e[0] == b);
            assert(e.skip(1) == escape_bytes(rest));
            assert(unescape(e) == seq![b] + unescape(e.skip(1)));
        } else {
            assert(e[0] == 0x5c && e[1] == 0x78);
            assert(e[2] == escape_byte(b)[2] && e[3] == escape_byte(b)[3]);
            assert(e.skip(4) == escape_bytes(rest));
            assert(hex_value(e[2]) * 16 + hex_value(e[3]) == b);
            assert(unescape(e) == seq![b] + unescape(e.skip(4)));
        }
    } else {
        assert(escape_bytes(s) == Seq::<u8>::empty());
    }
}

proof fn lemma_split_lines_avoid(s: Seq<u8>, x: u8)
    requires
        forall|k: int| 0 <= k < s.len() ==> s[k] != x,
    ensures
        split_lines(s).len() >= 1,
        forall|i: int, j: int|
            0 <= i < split_lines(s).len() && 0 <= j < split_lines(s)[i].len()
                ==> split_lines(s)[i][j] != x,
    decreases s.len(),
{
    lemma_split_lines_len(s);
    if s.len() > 0 {
        let t = s.drop_last();
        lemma_split_lines_avoid(t, x);
        let prev = split_lines(t);
        let cur = split_lines(s);
        if s.last() != NEWLINE {
            assert forall|i: int, j: int|
                0 <= i < cur.len() && 0 <= j < cur[i].len() implies cur[i][j] != x by {
                if i < cur.len() - 1 {
                    assert(cur[i] == prev[i]);
                } else if j < prev.last().len() {
                    assert(cur[i][j] == prev[prev.len() - 1][j]);
                } else {
                    assert(cur[i][j] == s.last());
                }
            }
        } else {
            assert forall|i: int, j: int|
                0 <= i < cur.len() && 0 <= j < cur[i].len() implies cur[i][j] != x by {
                assert(cur[i] == prev[i]);
            }
        }
    }
}

/// What the host prints for bytes without backslashes reads back to them: each
/// printed line, read back, is the piece of the input between two newlines, and
/// those pieces joined with newlines are the input.
pub proof fn law_print_reads_back(data: Seq<u8>)
    requires
        forall|i: int| 0 <= i < data.len() ==> data[i] != 0x5c,
    ensures
        printed_lines(data).len() == count_newlines(data) + 1,
        forall|i: int|
            0 <= i < printed_lines(data).len() ==> unescape(#[trigger] printed_lines(data)[i])
                == split_lines(data)[i],
        join_lines(printed_lines(data).map_values(|l: Seq<u8>| unescape(l))) == data,
{
    law_split_lines(data);
    lemma_split_lines_avoid(data, 0x5c);
    let pieces = split_lines(data);
    assert forall|i: int| 0 <= i < printed_lines(data).len() implies unescape(
        #[trigger] printed_lines(data)[i],
    ) == split_lines(data)[i] by {
        law_unescape_escape(pieces[i]);
    }
    assert(printed_lines(data).map_values(|l: Seq<u8>| unescape(l)) =~= pieces);
}

fn hex_digit(d: u8) -> (r: u8)
    requires
        d < 16,
    ensures
        r == hex_digit_upper(d as int),
{
    if d < 10 {
        0x30 + d
    } else {
        0x41 + (d - 10)
    }
}

fn push_escaped(line: &mut Vec<u8>, b: u8)
    ensures
        final(line)@ == old(line)@ + escape_byte(b),
{
    if 0x20 <= b && b <= 0x7e {
        line.push(b);
    } else {
        line.push(0x5c);
        line.push(0x78);
        line.push(hex_digit(b / 16));
        line.push(hex_digit(b % 16));
    }
}

/// The lines to print for the bytes `data` that a mod passed: `data` cut at each
/// newline (the last line is printed even when empty), each line escaped.
pub fn print(data: &[u8]) -> (lines: Vec<Vec<u8>>)
    ensures
        lines.deep_view() == printed_lines(data@),
{
    let mut lines: Vec<Vec<u8>> = Vec::new();
    let mut cur: Vec<u8> = Vec::new();
    let n = data.len();
    for i in 0..n
        invariant
            n == data@.len(),
            split_lines(data@.take(i as int)).len() >= 1,
            lines.deep_view() == split_lines(data@.take(i as int)).drop_last().map_values(
                |line: Seq<u8>| escape_bytes(line),
            ),
            cur@ == escape_bytes(split_lines(data@.take(i as int)).last()),
    {
        let ghost pre = data@.take(i as int);
        let ghost post = data@.take(i + 1);
        assert(post.drop_last() == pre);
        let b = data[i];
        let ghost prev = split_lines(pre);
        if b == NEWLINE {
            let ghost before = lines.deep_view();
            let ghost last = cur@;
            assert(cur.deep_view() =~= cur@);
            lines.push(cur);
            assert(lines.deep_view() =~= before.push(last));
            assert(prev.map_values(|line: Seq<u8>| escape_bytes(line)) =~= prev.drop_last().map_values(
                |line: Seq<u8>| escape_bytes(line),
            ).push(escape_bytes(prev.last())));
            cur = Vec::new();
            assert(split_lines(post) == prev.push(seq![]));
            assert(split_lines(post).drop_last() == prev);
            assert(lines.deep_view() == prev.map_values(|line: Seq<u8>| escape_bytes(line)));
            assert(escape_bytes(Seq::<u8>::empty()) == Seq::<u8>::empty());
        } else {
            push_escaped(&mut cur, b);
            assert(split_lines(post) == prev.drop_last().push(prev.last().push(b)));
            assert(split_lines(post).drop_last() == prev.drop_last());
            assert(prev.last().push(b).drop_last() == prev.last());
        }
    }
    assert(data@.take(n as int) == data@);
    let ghost all = split_lines(data@);
    let ghost before = lines.deep_view();
    let ghost last = cur@;
    assert(cur.deep_view() =~= cur@);
    lines.push(cur);
    assert(lines.deep_view() =~= before.push(last));
    assert(all.map_values(|line: Seq<u8>| escape_bytes(line)) =~= all.drop_last().map_values(
        |line: Seq<u8>| escape_bytes(line),
    ).push(escape_bytes(all.last())));
    assert(lines.deep_view() == printed_lines(data@));
    lines
}

} // verus!
