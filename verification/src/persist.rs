//! The saved-file representation: what a buffer writes out (only `Normal`
//! cells, lines joined by newlines) and how a text file is split back into
//! lines on loading — together with the law that saving and reloading a
//! document without cross-outs reproduces its text exactly.

use vstd::prelude::*;
use crate::types::{Character, CharacterState};

verus! {

/// The symbols of a line's cells, in order, regardless of state.
pub open spec fn spec_symbols(line: Seq<Character>) -> Seq<char> {
    line.map_values(|c: Character| c.value)
}

/// The text a line contributes to the saved file: the symbols of its
/// `Normal` cells, in order; crossed-out cells are excluded for good.
pub open spec fn spec_line_text(line: Seq<Character>) -> Seq<char>
    decreases line.len(),
{
    if line.len() == 0 {
        Seq::empty()
    } else if line.last().state == CharacterState::Normal {
        spec_line_text(line.drop_last()).push(line.last().value)
    } else {
        spec_line_text(line.drop_last())
    }
}

/// Joins line texts with a single newline between consecutive lines; no
/// trailing newline is emitted.
pub open spec fn spec_join_lines(texts: Seq<Seq<char>>) -> Seq<char>
    decreases texts.len(),
{
    if texts.len() == 0 {
        Seq::empty()
    } else if texts.len() == 1 {
        texts[0]
    } else {
        spec_join_lines(texts.drop_last()) + seq!['\n'] + texts.last()
    }
}

/// The whole document's saved text.
pub open spec fn spec_doc_text(lines: Seq<Seq<Character>>) -> Seq<char> {
    spec_join_lines(lines.map_values(|l: Seq<Character>| spec_line_text(l)))
}

/// One pass of the hydration scan over the remaining text `s`, with `cur`
/// the partial current line and `acc` the finished lines: a newline
/// finishes the current line, stripping one carriage return immediately
/// before it; when the text ends, a nonempty partial line is kept and an
/// empty one is not (a trailing line ending is optional).
pub open spec fn spec_parse_lines(s: Seq<char>, cur: Seq<char>, acc: Seq<Seq<char>>) -> Seq<
    Seq<char>,
>
    decreases s.len(),
{
    if s.len() == 0 {
        if cur.len() > 0 {
            acc.push(cur)
        } else {
            acc
        }
    } else if s[0] == '\n' {
        let cur2 = if cur.len() > 0 && cur.last() == '\r' {
            cur.drop_last()
        } else {
            cur
        };
        spec_parse_lines(s.skip(1), Seq::empty(), acc.push(cur2))
    } else {
        spec_parse_lines(s.skip(1), cur.push(s[0]), acc)
    }
}

/// The line texts that splitting the text `s` produces.
pub open spec fn spec_split_lines(s: Seq<char>) -> Seq<Seq<char>> {
    spec_parse_lines(s, Seq::empty(), Seq::empty())
}

/// The lines a buffer hydrated from the text `s` holds: the split of `s`,
/// except that an empty document still gets one empty line.
pub open spec fn spec_load_lines(s: Seq<char>) -> Seq<Seq<char>> {
    if spec_split_lines(s).len() == 0 {
        seq![Seq::<char>::empty()]
    } else {
        spec_split_lines(s)
    }
}

/// The scan consumes a newline-free prefix into the current line.
proof fn lemma_parse_consumes_plain(a: Seq<char>, b: Seq<char>, cur: Seq<char>, acc: Seq<Seq<char>>)
    requires
        forall|i: int| 0 <= i < a.len() ==> a[i] != '\n',
    ensures
        spec_parse_lines(a + b, cur, acc) == spec_parse_lines(b, cur + a, acc),
    decreases a.len(),
{
    if a.len() == 0 {
        assert(a + b =~= b);
        assert(cur + a =~= cur);
    } else {
        let s = a + b;
        assert(s[0] == a[0]);
        assert(s.skip(1) =~= a.skip(1) + b);
        lemma_parse_consumes_plain(a.skip(1), b, cur.push(a[0]), acc);
        assert(cur.push(a[0]) + a.skip(1) =~= cur + a);
    }
}

/// Front decomposition of the join: with at least two lines, the joined
/// text is the first line's text, a newline, then the join of the rest.
proof fn lemma_join_front(texts: Seq<Seq<char>>)
    requires
        texts.len() >= 2,
    ensures
        spec_join_lines(texts) == texts[0] + seq!['\n'] + spec_join_lines(texts.skip(1)),
    decreases texts.len(),
{
    if texts.len() == 2 {
        assert(texts.drop_last() =~= seq![texts[0]]);
        assert(texts.skip(1) =~= seq![texts[1]]);
        assert(spec_join_lines(seq![texts[0]]) == texts[0]);
        assert(spec_join_lines(seq![texts[1]]) == texts[1]);
        assert(texts[0] + seq!['\n'] + texts[1] =~= texts[0] + seq!['\n'] + spec_join_lines(
            texts.skip(1),
        ));
    } else {
        let dl = texts.drop_last();
        lemma_join_front(dl);
        assert(dl[0] == texts[0]);
        assert(texts.skip(1).drop_last() =~= dl.skip(1));
        assert(texts.skip(1).last() == texts.last());
        assert(texts.skip(1).len() >= 2);
        assert(spec_join_lines(texts.skip(1)) == spec_join_lines(dl.skip(1)) + seq!['\n']
            + texts.last());
        assert((texts[0] + seq!['\n'] + spec_join_lines(dl.skip(1))) + seq!['\n'] + texts.last()
            =~= texts[0] + seq!['\n'] + (spec_join_lines(dl.skip(1)) + seq!['\n'] + texts.last()));
    }
}

/// Splitting the join of line texts recovers exactly those texts, provided
/// no text holds a newline, none ends with a carriage return, and the last
/// one is nonempty.
proof fn lemma_split_joined(texts: Seq<Seq<char>>, acc: Seq<Seq<char>>)
    requires
        texts.len() >= 1,
        forall|i: int, j: int| 0 <= i < texts.len() && 0 <= j < texts[i].len()
            ==> texts[i][j] != '\n',
        forall|i: int| 0 <= i < texts.len() && texts[i].len() > 0
            ==> (#[trigger] texts[i]).last() != '\r',
        texts.last().len() > 0,
    ensures
        spec_parse_lines(spec_join_lines(texts), Seq::empty(), acc) == acc + texts,
    decreases texts.len(),
{
    if texts.len() == 1 {
        let t0 = texts[0];
        assert(t0 =~= t0 + Seq::<char>::empty());
        lemma_parse_consumes_plain(t0, Seq::empty(), Seq::empty(), acc);
        assert(Seq::<char>::empty() + t0 =~= t0);
        assert(t0.len() > 0);
        assert(spec_parse_lines(Seq::empty(), t0, acc) == acc.push(t0));
        assert(acc.push(t0) =~= acc + texts);
    } else {
        let t0 = texts[0];
        let rest = texts.skip(1);
        lemma_join_front(texts);
        let tail = seq!['\n'] + spec_join_lines(rest);
        assert(spec_join_lines(texts) =~= t0 + tail);
        lemma_parse_consumes_plain(t0, tail, Seq::empty(), acc);
        assert(Seq::<char>::empty() + t0 =~= t0);
        // one newline step: the finished first line is kept unstripped
        assert(tail[0] == '\n');
        assert(!(t0.len() > 0 && t0.last() == '\r'));
        assert(tail.skip(1) =~= spec_join_lines(rest));
        assert(spec_parse_lines(tail, t0, acc) == spec_parse_lines(
            spec_join_lines(rest),
            Seq::empty(),
            acc.push(t0),
        ));
        assert(rest.last() == texts.last());
        lemma_split_joined(rest, acc.push(t0));
        assert(acc.push(t0) + rest =~= acc + texts);
    }
}

/// With every cell `Normal`, a line's saved text is exactly its symbols.
pub proof fn lemma_line_text_all_normal(line: Seq<Character>)
    requires
        forall|j: int| 0 <= j < line.len()
            ==> (#[trigger] line[j]).state == CharacterState::Normal,
    ensures
        spec_line_text(line) == spec_symbols(line),
    decreases line.len(),
{
    if line.len() == 0 {
        assert(spec_symbols(line) =~= Seq::<char>::empty());
    } else {
        lemma_line_text_all_normal(line.drop_last());
        assert(spec_symbols(line.drop_last()).push(line.last().value) =~= spec_symbols(line));
    }
}

/// Law: a document without cross-outs survives saving and reloading
/// unchanged. If no cell is crossed out, no symbol is a newline, no line
/// ends with a carriage return, and the last line is nonempty (or the
/// document is a single line), then splitting the saved text yields exactly
/// the lines' texts, line for line.
pub proof fn lemma_save_then_load(lines: Seq<Seq<Character>>)
    requires
        lines.len() >= 1,
        forall|i: int, j: int| 0 <= i < lines.len() && 0 <= j < lines[i].len()
            ==> lines[i][j].state == CharacterState::Normal,
        forall|i: int, j: int| 0 <= i < lines.len() && 0 <= j < lines[i].len()
            ==> lines[i][j].value != '\n',
        forall|i: int| 0 <= i < lines.len() && lines[i].len() > 0
            ==> (#[trigger] lines[i]).last().value != '\r',
        lines.last().len() > 0 || lines.len() == 1,
    ensures
        spec_load_lines(spec_doc_text(lines)) == lines.map_values(
            |l: Seq<Character>| spec_line_text(l),
        ),
{
    let texts = lines.map_values(|l: Seq<Character>| spec_line_text(l));
    assert forall|i: int| 0 <= i < lines.len() implies #[trigger] texts[i] == spec_symbols(
        lines[i],
    ) by {
        lemma_line_text_all_normal(lines[i]);
    }
    if lines.len() == 1 && lines[0].len() == 0 {
        assert(texts[0] =~= Seq::<char>::empty());
        assert(texts =~= seq![Seq::<char>::empty()]);
        assert(spec_join_lines(texts) == texts[0]);
        assert(spec_split_lines(Seq::<char>::empty()) =~= Seq::<Seq<char>>::empty());
        assert(spec_load_lines(spec_doc_text(lines)) =~= texts);
    } else {
        assert forall|i: int, j: int| 0 <= i < texts.len() && 0 <= j < texts[i].len()
            implies texts[i][j] != '\n' by {
            assert(texts[i][j] == lines[i][j].value);
        }
        assert forall|i: int| 0 <= i < texts.len() && texts[i].len() > 0
            implies (#[trigger] texts[i]).last() != '\r' by {
            assert(texts[i].last() == lines[i].last().value);
        }
        assert(texts.last().len() > 0);
        lemma_split_joined(texts, Seq::empty());
        assert(Seq::<Seq<char>>::empty() + texts =~= texts);
        assert(spec_split_lines(spec_doc_text(lines)) == texts);
    }
}

/// Law: saving a document without cross-outs and hydrating a new buffer
/// from that text gives a buffer whose saved text is byte-identical to the
/// original's — the typed `Normal`-character sequence — and whose lines
/// carry the same symbols.
pub proof fn lemma_round_trip_text(lines: Seq<Seq<Character>>, reloaded: Seq<Seq<Character>>)
    requires
        lines.len() >= 1,
        forall|i: int, j: int| 0 <= i < lines.len() && 0 <= j < lines[i].len()
            ==> lines[i][j].state == CharacterState::Normal,
        forall|i: int, j: int| 0 <= i < lines.len() && 0 <= j < lines[i].len()
            ==> lines[i][j].value != '\n',
        forall|i: int| 0 <= i < lines.len() && lines[i].len() > 0
            ==> (#[trigger] lines[i]).last().value != '\r',
        lines.last().len() > 0 || lines.len() == 1,
        reloaded.len() == spec_load_lines(spec_doc_text(lines)).len(),
        forall|i: int| 0 <= i < reloaded.len() ==> spec_symbols(#[trigger] reloaded[i])
            == spec_load_lines(spec_doc_text(lines))[i],
        forall|i: int, j: int| 0 <= i < reloaded.len() && 0 <= j < reloaded[i].len()
            ==> reloaded[i][j].state == CharacterState::Normal,
    ensures
        spec_doc_text(reloaded) == spec_doc_text(lines),
        reloaded.map_values(|l: Seq<Character>| spec_symbols(l)) == lines.map_values(
            |l: Seq<Character>| spec_line_text(l),
        ),
{
    lemma_save_then_load(lines);
    let texts = lines.map_values(|l: Seq<Character>| spec_line_text(l));
    assert forall|i: int| 0 <= i < reloaded.len() implies #[trigger] spec_line_text(reloaded[i])
        == texts[i] by {
        lemma_line_text_all_normal(reloaded[i]);
    }
    assert(reloaded.map_values(|l: Seq<Character>| spec_line_text(l)) =~= texts);
    assert(reloaded.map_values(|l: Seq<Character>| spec_symbols(l)) =~= texts);
}

} // verus!
