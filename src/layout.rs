use vstd::prelude::*;

use crate::document::{
    Document, LineKind, doc_size, has_forced_break, lemma_forced_break_split,
    lemma_parts_odd_fills_index, lemma_parts_size_split, lemma_parts_size_whole, odd_fills,
    parts_have_forced_break, parts_of, parts_odd_fills, parts_size,
};

verus! {

/// Whether the lines of a group print flat or broken.
#[derive(Clone, Copy, Debug, PartialEq, Eq, Structural)]
pub enum Mode {
    Flat,
    Break,
}

/// Pending work: the parts of `doc` from index `from` on (the whole of a
/// leaf while `from` is 0), at an indentation level, in a mode.
pub struct Frame {
    pub doc: Document,
    pub from: nat,
    pub indent: usize,
    pub mode: Mode,
}

pub open spec fn frame_measure(f: Frame) -> nat {
    let p = parts_of(f.doc);
    let k = if f.from <= p.len() {
        f.from as int
    } else {
        p.len() as int
    };
    1 + parts_size(p.subrange(k, p.len() as int))
}

pub open spec fn stack_measure(s: Seq<Frame>) -> nat
    decreases s.len(),
{
    if s.len() == 0 {
        0
    } else {
        stack_measure(s.drop_last()) + frame_measure(s.last())
    }
}

/// The stack after handing the next part of `f` to the printer: `f` stays
/// (with its mode set to `m`) for the parts after it, and the part itself
/// goes on top, at indentation `ind`.
pub open spec fn advance(rest: Seq<Frame>, f: Frame, m: Mode, ind: usize) -> Seq<Frame> {
    let p = parts_of(f.doc);
    if f.from < p.len() {
        rest.push(Frame { doc: f.doc, from: f.from + 1, indent: f.indent, mode: m }).push(
            Frame { doc: p[f.from as int], from: 0, indent: ind, mode: m },
        )
    } else {
        rest
    }
}

pub proof fn lemma_doc_size_parts(d: Document)
    ensures
        doc_size(d) == 1 + parts_size(parts_of(d)),
        frame_measure(Frame { doc: d, from: 0, indent: 0, mode: Mode::Flat }) == doc_size(d),
{
    lemma_parts_size_whole(parts_of(d));
}

pub proof fn lemma_frame_measure_fresh(d: Document, ind: usize, m: Mode)
    ensures
        frame_measure(Frame { doc: d, from: 0, indent: ind, mode: m }) == doc_size(d),
{
    lemma_doc_size_parts(d);
}

pub proof fn lemma_advance_measure(rest: Seq<Frame>, f: Frame, m: Mode, ind: usize)
    ensures
        stack_measure(advance(rest, f, m, ind)) < stack_measure(rest) + frame_measure(f),
{
    let p = parts_of(f.doc);
    if f.from < p.len() {
        lemma_parts_size_split(p, f.from as int);
        lemma_frame_measure_fresh(p[f.from as int], ind, m);
        let a = Frame { doc: f.doc, from: f.from + 1, indent: f.indent, mode: m };
        let b = Frame { doc: p[f.from as int], from: 0, indent: ind, mode: m };
        assert(rest.push(a).push(b).drop_last() == rest.push(a));
        assert(rest.push(a).drop_last() == rest);
        assert(stack_measure(rest.push(a)) == stack_measure(rest) + frame_measure(a));
        assert(stack_measure(rest.push(a).push(b)) == stack_measure(rest.push(a)) + frame_measure(b));
    }
}

/// Whether the frames, taken from the top of the stack, reach the end of the
/// current line within `rem` columns: flat lines count their width, a line in
/// broken mode ends the test with success, and a hard or literal line, a
/// `BreakParent` or a group forced to break met in flat mode ends it with
/// failure. With `must_be_flat` a forced group fails in either mode.
pub open spec fn fits(s: Seq<Frame>, rem: int, must_be_flat: bool) -> bool
    decreases stack_measure(s),
{
    if rem < 0 {
        false
    } else if s.len() == 0 {
        true
    } else {
        let f = s.last();
        let rest = s.drop_last();
        match f.doc {
            Document::Text(t) => fits(rest, rem - t@.len(), must_be_flat),
            Document::Line(k) => {
                if f.mode == Mode::Break {
                    true
                } else if k == LineKind::Soft {
                    fits(rest, rem, must_be_flat)
                } else if k == LineKind::Default {
                    fits(rest, rem - 1, must_be_flat)
                } else {
                    false
                }
            },
            Document::BreakParent => {
                if f.mode == Mode::Flat {
                    false
                } else {
                    fits(rest, rem, must_be_flat)
                }
            },
            Document::Group(_, b, _) => {
                if f.from == 0 && b && (must_be_flat || f.mode == Mode::Flat) {
                    false
                } else {
                    let m = if f.from == 0 && b {
                        Mode::Break
                    } else {
                        f.mode
                    };
                    proof {
                        lemma_advance_measure(rest, f, m, f.indent);
                    }
                    fits(advance(rest, f, m, f.indent), rem, must_be_flat)
                }
            },
            _ => {
                proof {
                    lemma_advance_measure(rest, f, f.mode, f.indent);
                }
                fits(advance(rest, f, f.mode, f.indent), rem, must_be_flat)
            },
        }
    }
}

/// Drops the spaces and tabs at the end of the output.
pub open spec fn trim_end(s: Seq<char>) -> Seq<char>
    decreases s.len(),
{
    if s.len() > 0 && (s.last() == ' ' || s.last() == '\t') {
        trim_end(s.drop_last())
    } else {
        s
    }
}

pub open spec fn spaces(n: nat) -> Seq<char> {
    Seq::new(n, |i: int| ' ')
}

/// The leading whitespace of a line at indentation level `levels`.
pub open spec fn indentation(levels: nat, unit: nat) -> Seq<char>
    decreases levels,
{
    if levels == 0 {
        Seq::empty()
    } else {
        indentation((levels - 1) as nat, unit) + spaces(unit)
    }
}

/// The mode recorded last for the group with this id; flat when none is.
pub open spec fn recorded_mode(groups: Seq<(u32, Mode)>, id: u32) -> Mode
    decreases groups.len(),
{
    if groups.len() == 0 {
        Mode::Flat
    } else if groups.last().0 == id {
        groups.last().1
    } else {
        recorded_mode(groups.drop_last(), id)
    }
}

/// The mode in which a group that starts at column `col` prints: as its frame
/// says inside a flat group (broken if forced), otherwise broken when forced or
/// when it does not fit flat, together with what follows it, in the columns
/// left on the line.
pub open spec fn group_mode(f: Frame, rest: Seq<Frame>, col: int, width: int) -> Mode {
    let forced = f.doc matches Document::Group(_, b, _) && b;
    if forced {
        Mode::Break
    } else if f.mode == Mode::Flat {
        Mode::Flat
    } else if fits(
        rest.push(Frame { doc: f.doc, from: 0, indent: f.indent, mode: Mode::Flat }),
        width - col,
        false,
    ) {
        Mode::Flat
    } else {
        Mode::Break
    }
}

/// A frame for part `i` of the document of `f`, at the indentation of `f`.
pub open spec fn part_frame(f: Frame, i: int, m: Mode) -> Frame {
    Frame { doc: parts_of(f.doc)[i], from: 0, indent: f.indent, mode: m }
}

/// Whether the content at index `k` of a fill fits flat in `rem` columns.
pub open spec fn fill_content_fits(f: Frame, k: int, rem: int) -> bool {
    fits(seq![part_frame(f, k, Mode::Flat)], rem, true)
}

/// Whether the content at `k`, the separator after it and the next content
/// fit flat together in `rem` columns.
pub open spec fn fill_pair_fits(f: Frame, k: int, rem: int) -> bool {
    fits(
        seq![part_frame(f, k + 2, Mode::Flat), part_frame(f, k + 1, Mode::Flat), part_frame(f, k, Mode::Flat)],
        rem,
        true,
    )
}

/// One indentation level deeper, saturating at the largest level.
pub open spec fn deeper(i: usize) -> usize {
    if i < usize::MAX {
        (i + 1) as usize
    } else {
        i
    }
}

pub open spec fn mode_if(b: bool) -> Mode {
    if b {
        Mode::Flat
    } else {
        Mode::Break
    }
}

/// The stack after one step of a fill at index `k`: the content is flat when
/// it fits alone; the separator after it is flat when the content, the
/// separator and the next content fit together; the rest of the fill waits.
pub open spec fn fill_step(rest: Seq<Frame>, f: Frame, rem: int) -> Seq<Frame> {
    let p = parts_of(f.doc);
    let k = f.from as int;
    if k >= p.len() {
        rest
    } else {
        let content = part_frame(f, k, mode_if(fill_content_fits(f, k, rem)));
        if k + 1 == p.len() {
            rest.push(content)
        } else if k + 2 == p.len() {
            rest.push(part_frame(f, k + 1, mode_if(fill_content_fits(f, k, rem)))).push(content)
        } else {
            rest.push(Frame { doc: f.doc, from: (k + 2) as nat, indent: f.indent, mode: f.mode }).push(
                part_frame(f, k + 1, mode_if(fill_pair_fits(f, k, rem))),
            ).push(content)
        }
    }
}

pub proof fn lemma_fill_step_measure(rest: Seq<Frame>, f: Frame, rem: int)
    requires
        f.doc is Fill,
    ensures
        stack_measure(fill_step(rest, f, rem)) < stack_measure(rest) + frame_measure(f),
{
    let p = parts_of(f.doc);
    let k = f.from as int;
    if k < p.len() {
        lemma_parts_size_split(p, k);
        let content = part_frame(f, k, mode_if(fill_content_fits(f, k, rem)));
        lemma_frame_measure_fresh(p[k], f.indent, content.mode);
        if k + 1 == p.len() {
            assert(rest.push(content).drop_last() == rest);
            assert(stack_measure(rest.push(content)) == stack_measure(rest) + frame_measure(content));
        } else {
            lemma_parts_size_split(p, k + 1);
            let sm = if k + 2 == p.len() {
                mode_if(fill_content_fits(f, k, rem))
            } else {
                mode_if(fill_pair_fits(f, k, rem))
            };
            let sep = part_frame(f, k + 1, sm);
            lemma_frame_measure_fresh(p[k + 1], f.indent, sm);
            if k + 2 == p.len() {
                assert(rest.push(sep).push(content).drop_last() == rest.push(sep));
                assert(rest.push(sep).drop_last() == rest);
                assert(stack_measure(rest.push(sep)) == stack_measure(rest) + frame_measure(sep));
                assert(stack_measure(rest.push(sep).push(content)) == stack_measure(rest.push(sep))
                    + frame_measure(content));
            } else {
                let more = Frame { doc: f.doc, from: (k + 2) as nat, indent: f.indent, mode: f.mode };
                assert(rest.push(more).push(sep).push(content).drop_last() == rest.push(more).push(sep));
                assert(rest.push(more).push(sep).drop_last() == rest.push(more));
                assert(rest.push(more).drop_last() == rest);
                assert(stack_measure(rest.push(more)) == stack_measure(rest) + frame_measure(more));
                assert(stack_measure(rest.push(more).push(sep)) == stack_measure(rest.push(more))
                    + frame_measure(sep));
                assert(stack_measure(rest.push(more).push(sep).push(content)) == stack_measure(
                    rest.push(more).push(sep),
                ) + frame_measure(content));
            }
        }
    }
}

/// One step of the printer on a non-empty stack: the top frame is taken
/// off and handled; the result is the next stack, output, column and
/// record of group modes.
pub open spec fn step(
    s: Seq<Frame>,
    out: Seq<char>,
    col: int,
    groups: Seq<(u32, Mode)>,
    width: int,
    unit: nat,
) -> (Seq<Frame>, Seq<char>, int, Seq<(u32, Mode)>) {
    let f = s.last();
    let rest = s.drop_last();
    match f.doc {
        Document::Text(t) => (rest, out + t@, col + t@.len(), groups),
        Document::Line(k) => {
            if f.mode == Mode::Flat && k == LineKind::Soft {
                (rest, out, col, groups)
            } else if f.mode == Mode::Flat && k == LineKind::Default {
                (rest, out.push(' '), col + 1, groups)
            } else if k == LineKind::Literal {
                (rest, trim_end(out).push('\n'), 0, groups)
            } else {
                let ind = indentation(f.indent as nat, unit);
                (rest, trim_end(out).push('\n') + ind, ind.len() as int, groups)
            }
        },
        Document::BreakParent => (rest, out, col, groups),
        Document::Group(_, _, id) => {
            let m = if f.from == 0 {
                group_mode(f, rest, col, width)
            } else {
                f.mode
            };
            let g = if f.from == 0 && id is Some {
                groups.push((id->0, m))
            } else {
                groups
            };
            (advance(rest, f, m, f.indent), out, col, g)
        },
        Document::Indent(_) => (advance(rest, f, f.mode, deeper(f.indent)), out, col, groups),
        Document::IndentIfBreak(_, id) => {
            let m = match id {
                Some(g) => recorded_mode(groups, g),
                None => f.mode,
            };
            let ind = if m == Mode::Break {
                deeper(f.indent)
            } else {
                f.indent
            };
            (advance(rest, f, f.mode, ind), out, col, groups)
        },
        Document::Concat(_) => (advance(rest, f, f.mode, f.indent), out, col, groups),
        Document::Fill(_) => (fill_step(rest, f, width - col), out, col, groups),
    }
}

pub proof fn lemma_step_measure(
    s: Seq<Frame>,
    out: Seq<char>,
    col: int,
    groups: Seq<(u32, Mode)>,
    width: int,
    unit: nat,
)
    requires
        s.len() > 0,
    ensures
        stack_measure(step(s, out, col, groups, width, unit).0) < stack_measure(s),
{
    let f = s.last();
    let rest = s.drop_last();
    assert(stack_measure(s) == stack_measure(rest) + frame_measure(f));
    match f.doc {
        Document::Group(_, _, _) => {
            let m = if f.from == 0 {
                group_mode(f, rest, col, width)
            } else {
                f.mode
            };
            lemma_advance_measure(rest, f, m, f.indent);
        },
        Document::Indent(_) => lemma_advance_measure(rest, f, f.mode, deeper(f.indent)),
        Document::IndentIfBreak(_, id) => {
            let m = match id {
                Some(g) => recorded_mode(groups, g),
                None => f.mode,
            };
            let ind = if m == Mode::Break {
                deeper(f.indent)
            } else {
                f.indent
            };
            lemma_advance_measure(rest, f, f.mode, ind);
        },
        Document::Concat(_) => lemma_advance_measure(rest, f, f.mode, f.indent),
        Document::Fill(_) => lemma_fill_step_measure(rest, f, width - col),
        _ => {},
    }
}

/// The text printed for the frames of the stack, taken from the top, after
/// `out`, with the cursor at column `col` and the group modes recorded so far.
pub open spec fn render(
    s: Seq<Frame>,
    out: Seq<char>,
    col: int,
    groups: Seq<(u32, Mode)>,
    width: int,
    unit: nat,
) -> Seq<char>
    decreases stack_measure(s),
{
    if s.len() == 0 {
        out
    } else {
        let n = step(s, out, col, groups, width, unit);
        proof {
            lemma_step_measure(s, out, col, groups, width, unit);
        }
        render(n.0, n.1, n.2, n.3, width, unit)
    }
}

/// The text of a document printed within `width` columns, indenting by
/// `unit` spaces per level.
pub open spec fn layout(doc: Document, width: int, unit: nat) -> Seq<char> {
    render(
        seq![Frame { doc: doc, from: 0, indent: 0, mode: Mode::Break }],
        Seq::empty(),
        0,
        Seq::empty(),
        width,
        unit,
    )
}

/// Whether the parts of a frame still to print hold a forced break.
pub open spec fn frame_forced(f: Frame) -> bool {
    let p = parts_of(f.doc);
    if f.from == 0 {
        has_forced_break(f.doc)
    } else {
        f.from <= p.len() && parts_have_forced_break(p.subrange(f.from as int, p.len() as int))
    }
}

/// A group frame, not yet started, that is forced to break.
pub open spec fn forced_group(f: Frame) -> bool {
    f.from == 0 && (f.doc matches Document::Group(_, b, _) && b)
}

proof fn lemma_forced_parts(d: Document)
    ensures
        !(d matches Document::Group(_, b, _) && b) ==> !(d is Line) ==> !(d is BreakParent) ==> (
        has_forced_break(d) == parts_have_forced_break(parts_of(d))),
{
}

/// A forced break still ahead in a frame lies in its next part or after it.
proof fn lemma_advance_forced(rest: Seq<Frame>, f: Frame, m: Mode, ind: usize)
    requires
        frame_forced(f),
        !forced_group(f),
        !(f.doc is Line),
        !(f.doc is BreakParent),
    ensures
        parts_of(f.doc).len() > f.from,
        frame_forced(advance(rest, f, m, ind).last()) || frame_forced(
            advance(rest, f, m, ind).drop_last().last(),
        ),
{
    let p = parts_of(f.doc);
    if f.from == 0 {
        lemma_forced_parts(f.doc);
        assert(p.subrange(0, p.len() as int) =~= p);
        if p.len() == 0 {
            assert(!parts_have_forced_break(p));
        }
    } else if f.from >= p.len() {
        assert(p.subrange(f.from as int, p.len() as int) =~= Seq::<Document>::empty());
    }
    lemma_forced_break_split(p, f.from as int);
    let a = Frame { doc: f.doc, from: f.from + 1, indent: f.indent, mode: m };
    let b = Frame { doc: p[f.from as int], from: 0, indent: ind, mode: m };
    assert(advance(rest, f, m, ind) == rest.push(a).push(b));
    assert(rest.push(a).push(b).drop_last() == rest.push(a));
}

/// Frames in flat mode from index `j` on, one of which holds a forced
/// break, never fit.
pub proof fn lemma_flat_forced_never_fits(s: Seq<Frame>, j: int, rem: int, must_be_flat: bool)
    requires
        0 <= j <= s.len(),
        forall|i: int| j <= i < s.len() ==> (#[trigger] s[i]).mode == Mode::Flat,
        exists|i: int| j <= i < s.len() && frame_forced(#[trigger] s[i]),
    ensures
        !fits(s, rem, must_be_flat),
    decreases stack_measure(s),
{
    if rem >= 0 {
        let w = choose|i: int| j <= i < s.len() && frame_forced(#[trigger] s[i]);
        let f = s.last();
        let rest = s.drop_last();
        assert(s[s.len() - 1] == f);
        assert(f.mode == Mode::Flat);
        assert(stack_measure(s) == stack_measure(rest) + frame_measure(f));
        let in_rest = w < s.len() - 1;
        if in_rest {
            assert(rest[w] == s[w]);
            assert forall|i: int| j <= i < rest.len() implies (#[trigger] rest[i]).mode == Mode::Flat by {
                assert(rest[i] == s[i]);
            }
        }
        match f.doc {
            Document::Text(t) => {
                assert(in_rest);
                lemma_flat_forced_never_fits(rest, j, rem - t@.len(), must_be_flat);
            },
            Document::Line(k) => {
                if k == LineKind::Soft {
                    assert(in_rest);
                    lemma_flat_forced_never_fits(rest, j, rem, must_be_flat);
                } else if k == LineKind::Default {
                    assert(in_rest);
                    lemma_flat_forced_never_fits(rest, j, rem - 1, must_be_flat);
                }
            },
            Document::BreakParent => {},
            _ => {
                if !forced_group(f) {
                    let n = advance(rest, f, Mode::Flat, f.indent);
                    lemma_advance_measure(rest, f, Mode::Flat, f.indent);
                    let p = parts_of(f.doc);
                    if f.from < p.len() {
                        assert(n.len() == s.len() + 1);
                        assert forall|i: int| j <= i < n.len() implies (#[trigger] n[i]).mode == Mode::Flat by {
                            if i < rest.len() {
                                assert(n[i] == rest[i]);
                                assert(rest[i] == s[i]);
                            }
                        }
                        if in_rest {
                            assert(n[w] == rest[w]);
                        } else {
                            lemma_advance_forced(rest, f, Mode::Flat, f.indent);
                            assert(n.last() == n[n.len() - 1]);
                            assert(n.drop_last().last() == n[n.len() - 2]);
                        }
                        lemma_flat_forced_never_fits(n, j, rem, must_be_flat);
                    } else {
                        if !in_rest {
                            assert(p.subrange(f.from as int, p.len() as int) =~= Seq::<Document>::empty());
                            if f.from == 0 {
                                lemma_forced_parts(f.doc);
                                assert(p =~= Seq::<Document>::empty());
                            }
                        }
                        assert(in_rest);
                        lemma_flat_forced_never_fits(rest, j, rem, must_be_flat);
                    }
                }
            },
        }
    }
}

/// A group met in broken context that holds a forced break anywhere inside
/// it, at any depth of nested groups, prints broken whatever the width.
pub proof fn lemma_forced_break_breaks_group(f: Frame, rest: Seq<Frame>, col: int, width: int)
    requires
        f.doc is Group,
        f.mode == Mode::Break,
        has_forced_break(f.doc),
    ensures
        group_mode(f, rest, col, width) == Mode::Break,
{
    let probe = Frame { doc: f.doc, from: 0, indent: f.indent, mode: Mode::Flat };
    let s = rest.push(probe);
    assert(s[s.len() - 1] == probe);
    lemma_flat_forced_never_fits(s, rest.len() as int, width - col, false);
}

/// A fill breaks only at the boundaries that overflow: at content `k`
/// (with two more parts after it) the separator that follows prints broken
/// exactly when the content, that separator and the next content do not fit
/// flat together in the columns left; the content prints broken only when it
/// does not fit alone; the rest of the fill waits, in the fill's own mode.
pub proof fn lemma_fill_breaks_only_at_overflow(rest: Seq<Frame>, f: Frame, rem: int)
    requires
        f.doc is Fill,
        f.from + 2 < parts_of(f.doc).len(),
    ensures
        ({
            let s = fill_step(rest, f, rem);
            &&& s.len() == rest.len() + 3
            &&& s.subrange(0, rest.len() as int) == rest
            &&& s[rest.len() as int] == Frame { doc: f.doc, from: f.from + 2, indent: f.indent, mode: f.mode }
            &&& s[rest.len() as int + 1].doc == parts_of(f.doc)[f.from as int + 1]
            &&& (s[rest.len() as int + 1].mode == Mode::Break <==> !fill_pair_fits(f, f.from as int, rem))
            &&& s[rest.len() as int + 2].doc == parts_of(f.doc)[f.from as int]
            &&& (s[rest.len() as int + 2].mode == Mode::Break <==> !fill_content_fits(f, f.from as int, rem))
        }),
{
    let s = fill_step(rest, f, rem);
    assert(s.subrange(0, rest.len() as int) =~= rest);
}

/// Whether, from this state of the printer on, every group that holds a
/// forced break is printed broken.
pub open spec fn forced_groups_break(
    s: Seq<Frame>,
    out: Seq<char>,
    col: int,
    groups: Seq<(u32, Mode)>,
    width: int,
    unit: nat,
) -> bool
    decreases stack_measure(s),
{
    if s.len() == 0 {
        true
    } else {
        let f = s.last();
        let n = step(s, out, col, groups, width, unit);
        proof {
            lemma_step_measure(s, out, col, groups, width, unit);
        }
        &&& (f.doc is Group && f.from == 0 && has_forced_break(f.doc) ==> group_mode(
            f,
            s.drop_last(),
            col,
            width,
        ) == Mode::Break)
        &&& forced_groups_break(n.0, n.1, n.2, n.3, width, unit)
    }
}

/// Whether the parts of a frame still to print hold a forced break, the
/// frame's own group flag aside.
pub open spec fn parts_forced(f: Frame) -> bool {
    let p = parts_of(f.doc);
    let k = if f.from <= p.len() {
        f.from as int
    } else {
        p.len() as int
    };
    parts_have_forced_break(p.subrange(k, p.len() as int))
}

/// What holds of every pending frame while a document whose fills have an
/// odd number of parts prints: a fill resumes at content, and nothing in flat
/// mode holds a forced break.
pub open spec fn frame_ok(f: Frame) -> bool {
    &&& odd_fills(f.doc)
    &&& (f.doc is Fill ==> f.from % 2 == 0)
    &&& (f.mode == Mode::Flat ==> !frame_forced(f))
}

pub open spec fn stack_ok(s: Seq<Frame>) -> bool {
    forall|i: int| 0 <= i < s.len() ==> frame_ok(#[trigger] s[i])
}

proof fn lemma_stack_ok_push(s: Seq<Frame>, f: Frame)
    requires
        stack_ok(s),
        frame_ok(f),
    ensures
        stack_ok(s.push(f)),
{
    assert forall|i: int| 0 <= i < s.push(f).len() implies frame_ok(#[trigger] s.push(f)[i]) by {
        if i < s.len() {
            assert(s.push(f)[i] == s[i]);
        }
    }
}

proof fn lemma_stack_ok_drop(s: Seq<Frame>)
    requires
        stack_ok(s),
        s.len() > 0,
    ensures
        stack_ok(s.drop_last()),
        frame_ok(s.last()),
{
    assert(s.last() == s[s.len() - 1]);
    assert forall|i: int| 0 <= i < s.drop_last().len() implies frame_ok(#[trigger] s.drop_last()[i]) by {
        assert(s.drop_last()[i] == s[i]);
    }
}

/// Without a forced break in the document, none is left in what remains of
/// its parts.
proof fn lemma_no_forced_parts(f: Frame)
    requires
        !has_forced_break(f.doc) || (f.from > 0 && !frame_forced(f)),
    ensures
        !parts_forced(f),
{
    let p = parts_of(f.doc);
    if f.from > p.len() {
        assert(p.subrange(p.len() as int, p.len() as int) =~= Seq::<Document>::empty());
    } else if f.from == 0 || !has_forced_break(f.doc) {
        assert(p.subrange(0, p.len() as int) =~= p);
        if f.from > 0 && f.from <= p.len() {
            lemma_suffix_no_forced(p, 0, f.from as int);
        }
    }
}

proof fn lemma_suffix_no_forced(p: Seq<Document>, a: int, b: int)
    requires
        0 <= a <= b <= p.len(),
        !parts_have_forced_break(p.subrange(a, p.len() as int)),
    ensures
        !parts_have_forced_break(p.subrange(b, p.len() as int)),
    decreases b - a,
{
    if a < b {
        lemma_forced_break_split(p, a);
        lemma_suffix_no_forced(p, a + 1, b);
    }
}

/// Handing on the next part of a frame keeps the stack in order, provided
/// that a flat mode comes with no forced break ahead.
proof fn lemma_advance_ok(rest: Seq<Frame>, f: Frame, m: Mode, ind: usize)
    requires
        stack_ok(rest),
        odd_fills(f.doc),
        !(f.doc is Fill),
        m == Mode::Flat ==> !parts_forced(f),
    ensures
        stack_ok(advance(rest, f, m, ind)),
{
    let p = parts_of(f.doc);
    if f.from < p.len() {
        let a = Frame { doc: f.doc, from: f.from + 1, indent: f.indent, mode: m };
        let b = Frame { doc: p[f.from as int], from: 0, indent: ind, mode: m };
        lemma_parts_odd_fills_index(p, f.from as int);
        lemma_forced_break_split(p, f.from as int);
        lemma_stack_ok_push(rest, a);
        lemma_stack_ok_push(rest.push(a), b);
    }
}

proof fn lemma_odd_fills_parts(d: Document)
    requires
        odd_fills(d),
    ensures
        parts_odd_fills(parts_of(d)),
{
}

proof fn lemma_forced_means_parts(d: Document)
    requires
        !(d is Group),
        !(d is Line),
        !(d is BreakParent),
        !(d is Text),
    ensures
        has_forced_break(d) == parts_have_forced_break(parts_of(d)),
{
}

/// One step of the printer keeps the stack in order.
proof fn lemma_step_ok(
    s: Seq<Frame>,
    out: Seq<char>,
    col: int,
    groups: Seq<(u32, Mode)>,
    width: int,
    unit: nat,
)
    requires
        s.len() > 0,
        stack_ok(s),
    ensures
        stack_ok(step(s, out, col, groups, width, unit).0),
{
    let f = s.last();
    let rest = s.drop_last();
    lemma_stack_ok_drop(s);
    let p = parts_of(f.doc);
    lemma_odd_fills_parts(f.doc);
    assert(p.subrange(0, p.len() as int) =~= p);
    match f.doc {
        Document::Group(_, b, _) => {
            let m = if f.from == 0 {
                group_mode(f, rest, col, width)
            } else {
                f.mode
            };
            if m == Mode::Flat {
                if f.from == 0 {
                    if f.mode == Mode::Break {
                        let probe = Frame { doc: f.doc, from: 0, indent: f.indent, mode: Mode::Flat };
                        let t = rest.push(probe);
                        assert(t[t.len() - 1] == probe);
                        if has_forced_break(f.doc) {
                            lemma_flat_forced_never_fits(t, rest.len() as int, width - col, false);
                        }
                    }
                }
                lemma_no_forced_parts(f);
            }
            lemma_advance_ok(rest, f, m, f.indent);
        },
        Document::Indent(_) => {
            if f.mode == Mode::Flat {
                lemma_forced_means_parts(f.doc);
                lemma_no_forced_parts(f);
            }
            lemma_advance_ok(rest, f, f.mode, deeper(f.indent));
        },
        Document::IndentIfBreak(_, id) => {
            let m = match id {
                Some(g) => recorded_mode(groups, g),
                None => f.mode,
            };
            let ind = if m == Mode::Break {
                deeper(f.indent)
            } else {
                f.indent
            };
            if f.mode == Mode::Flat {
                lemma_forced_means_parts(f.doc);
                lemma_no_forced_parts(f);
            }
            lemma_advance_ok(rest, f, f.mode, ind);
        },
        Document::Concat(_) => {
            if f.mode == Mode::Flat {
                lemma_forced_means_parts(f.doc);
                lemma_no_forced_parts(f);
            }
            lemma_advance_ok(rest, f, f.mode, f.indent);
        },
        Document::Fill(_) => {
            let k = f.from as int;
            let rem = width - col;
            if k < p.len() {
                let cm = mode_if(fill_content_fits(f, k, rem));
                let content = part_frame(f, k, cm);
                lemma_parts_odd_fills_index(p, k);
                if cm == Mode::Flat && has_forced_break(p[k]) {
                    let t = seq![part_frame(f, k, Mode::Flat)];
                    assert(t[0] == part_frame(f, k, Mode::Flat));
                    lemma_flat_forced_never_fits(t, 0, rem, true);
                }
                assert(frame_ok(content));
                if k + 1 == p.len() {
                    lemma_stack_ok_push(rest, content);
                } else {
                    assert(k + 2 < p.len());
                    let sm = mode_if(fill_pair_fits(f, k, rem));
                    let sep = part_frame(f, k + 1, sm);
                    lemma_parts_odd_fills_index(p, k + 1);
                    if sm == Mode::Flat && has_forced_break(p[k + 1]) {
                        let t = seq![
                            part_frame(f, k + 2, Mode::Flat),
                            part_frame(f, k + 1, Mode::Flat),
                            part_frame(f, k, Mode::Flat),
                        ];
                        assert(t[1] == part_frame(f, k + 1, Mode::Flat));
                        lemma_flat_forced_never_fits(t, 0, rem, true);
                    }
                    assert(frame_ok(sep));
                    let more = Frame { doc: f.doc, from: (k + 2) as nat, indent: f.indent, mode: f.mode };
                    if f.mode == Mode::Flat {
                        lemma_forced_means_parts(f.doc);
                        lemma_no_forced_parts(f);
                        lemma_suffix_no_forced(p, k, k + 2);
                    }
                    assert(frame_ok(more));
                    lemma_stack_ok_push(rest, more);
                    lemma_stack_ok_push(rest.push(more), sep);
                    lemma_stack_ok_push(rest.push(more).push(sep), content);
                }
            }
        },
        _ => {},
    }
}

proof fn lemma_forced_groups_break_from(
    s: Seq<Frame>,
    out: Seq<char>,
    col: int,
    groups: Seq<(u32, Mode)>,
    width: int,
    unit: nat,
)
    requires
        stack_ok(s),
    ensures
        forced_groups_break(s, out, col, groups, width, unit),
    decreases stack_measure(s),
{
    if s.len() > 0 {
        let f = s.last();
        lemma_stack_ok_drop(s);
        if f.doc is Group && f.from == 0 && has_forced_break(f.doc) && f.mode == Mode::Break {
            lemma_forced_break_breaks_group(f, s.drop_last(), col, width);
        }
        let n = step(s, out, col, groups, width, unit);
        lemma_step_measure(s, out, col, groups, width, unit);
        lemma_step_ok(s, out, col, groups, width, unit);
        lemma_forced_groups_break_from(n.0, n.1, n.2, n.3, width, unit);
    }
}

/// In the layout of a document whose fills start and end with content,
/// every group holding a forced break (a hard or literal line, a
/// `BreakParent`, or a group forced to break), at any depth of nesting,
/// prints broken, whatever the width.
pub proof fn lemma_layout_breaks_forced_groups(doc: Document, width: int, unit: nat)
    requires
        odd_fills(doc),
    ensures
        forced_groups_break(
            seq![Frame { doc: doc, from: 0, indent: 0, mode: Mode::Break }],
            Seq::empty(),
            0,
            Seq::empty(),
            width,
            unit,
        ),
{
    let s = seq![Frame { doc: doc, from: 0, indent: 0, mode: Mode::Break }];
    assert(s[0] == Frame { doc: doc, from: 0, indent: 0, mode: Mode::Break });
    lemma_forced_groups_break_from(s, Seq::empty(), 0, Seq::empty(), width, unit);
}

} // verus!
