use vstd::prelude::*;

use crate::document::{Document, LineKind, parts_of};
use crate::layout::{
    Frame, Mode, advance, fill_content_fits, fill_pair_fits, fill_step, fits, frame_measure, indentation,
    layout, lemma_advance_measure, lemma_fill_step_measure, part_frame, recorded_mode, render,
    spaces, stack_measure, trim_end,
};

verus! {

/// Pending work of the printer, borrowing its document.
struct Cmd<'a> {
    doc: &'a Document,
    from: usize,
    indent: usize,
    mode: Mode,
}

impl<'a> Cmd<'a> {
    spec fn frame(&self) -> Frame {
        Frame { doc: *self.doc, from: self.from as nat, indent: self.indent, mode: self.mode }
    }
}

spec fn frames<'a>(s: Seq<Cmd<'a>>) -> Seq<Frame> {
    s.map_values(|c: Cmd<'a>| c.frame())
}

proof fn lemma_frames_push<'a>(s: Seq<Cmd<'a>>, c: Cmd<'a>)
    ensures
        frames(s.push(c)) == frames(s).push(c.frame()),
{
    assert(frames(s.push(c)) =~= frames(s).push(c.frame()));
}

proof fn lemma_advance_append(a: Seq<Frame>, b: Seq<Frame>, f: Frame, m: Mode, ind: usize)
    ensures
        a + advance(b, f, m, ind) == advance(a + b, f, m, ind),
{
    let p = parts_of(f.doc);
    if f.from < p.len() {
        let x = Frame { doc: f.doc, from: f.from + 1, indent: f.indent, mode: m };
        let y = Frame { doc: p[f.from as int], from: 0, indent: ind, mode: m };
        assert(a + b.push(x).push(y) =~= (a + b).push(x).push(y));
    }
}

fn parts<'a>(d: &'a Document) -> (r: Option<&'a Vec<Document>>)
    ensures
        r matches Some(v) ==> v@ == parts_of(*d),
        r is None ==> parts_of(*d).len() == 0,
{
    match d {
        Document::Concat(v) => Some(v),
        Document::Indent(v) => Some(v),
        Document::IndentIfBreak(v, _) => Some(v),
        Document::Group(v, _, _) => Some(v),
        Document::Fill(v) => Some(v),
        _ => None,
    }
}

fn push_advance<'a>(stack: &mut Vec<Cmd<'a>>, c: &Cmd<'a>, m: Mode, ind: usize)
    ensures
        frames(final(stack)@) == advance(frames(old(stack)@), c.frame(), m, ind),
{
    if let Some(v) = parts(c.doc) {
        if c.from < v.len() {
            let ghost s0 = stack@;
            let a = Cmd { doc: c.doc, from: c.from + 1, indent: c.indent, mode: m };
            stack.push(a);
            let b = Cmd { doc: &v[c.from], from: 0, indent: ind, mode: m };
            stack.push(b);
            proof {
                lemma_frames_push(s0, a);
                lemma_frames_push(s0.push(a), b);
            }
        }
    }
}

fn width_of(t: &String) -> (r: usize)
    ensures
        r == t@.len(),
{
    t.as_str().unicode_len()
}

/// Exactly `fits` on the frames `rest[..rest_len]` followed by `next`.
fn fits_exec<'a>(
    next: Vec<Cmd<'a>>,
    rest: &Vec<Cmd<'a>>,
    rest_len: usize,
    room: usize,
    must_be_flat: bool,
) -> (r: bool)
    requires
        rest_len <= rest@.len(),
    ensures
        r == fits(frames(rest@.subrange(0, rest_len as int)) + frames(next@), room as int, must_be_flat),
{
    let ghost target = fits(
        frames(rest@.subrange(0, rest_len as int)) + frames(next@),
        room as int,
        must_be_flat,
    );
    let mut cmds = next;
    let mut idx = rest_len;
    let mut rem = room;
    loop
        invariant
            idx <= rest@.len(),
            rest_len <= rest@.len(),
            target == fits(
                frames(rest@.subrange(0, rest_len as int)) + frames(next@),
                room as int,
                must_be_flat,
            ),
            fits(frames(rest@.subrange(0, idx as int)) + frames(cmds@), rem as int, must_be_flat)
                == target,
        decreases stack_measure(frames(rest@.subrange(0, idx as int)) + frames(cmds@)),
            if cmds@.len() == 0 {
                1nat
            } else {
                0nat
            },
    {
        let ghost a = frames(rest@.subrange(0, idx as int));
        if cmds.len() == 0 {
            if idx == 0 {
                proof {
                    assert(a + frames(cmds@) =~= Seq::<Frame>::empty());
                    assert(fits(Seq::<Frame>::empty(), rem as int, must_be_flat));
                }
                return true;
            }
            idx = idx - 1;
            let t = &rest[idx];
            let c = Cmd { doc: t.doc, from: t.from, indent: t.indent, mode: t.mode };
            let ghost c0 = cmds@;
            cmds.push(c);
            proof {
                assert(frames(rest@.subrange(0, idx as int)) + frames(cmds@) =~= a);
            }
        } else {
            let ghost before = cmds@;
            let c = cmds.pop().unwrap();
            proof {
                assert(before == cmds@.push(c));
                lemma_frames_push(cmds@, c);
                assert(a + frames(before) =~= (a + frames(cmds@)).push(c.frame()));
                let x = a + frames(cmds@);
                assert(x.push(c.frame()).drop_last() == x);
                assert(x.push(c.frame()).last() == c.frame());
                assert(stack_measure(x.push(c.frame())) == stack_measure(x) + frame_measure(c.frame()));
            }
            match c.doc {
                Document::Text(t) => {
                    let n = width_of(t);
                    if n > rem {
                        proof {
                            assert(!fits(a + frames(cmds@), rem - n, must_be_flat));
                        }
                        return false;
                    }
                    rem = rem - n;
                },
                Document::Line(k) => {
                    if c.mode == Mode::Break {
                        return true;
                    }
                    match k {
                        LineKind::Soft => {},
                        LineKind::Default => {
                            if rem < 1 {
                                proof {
                                    assert(!fits(a + frames(cmds@), rem - 1, must_be_flat));
                                }
                                return false;
                            }
                            rem = rem - 1;
                        },
                        _ => {
                            return false;
                        },
                    }
                },
                Document::BreakParent => {
                    if c.mode == Mode::Flat {
                        return false;
                    }
                },
                Document::Group(_, b, _) => {
                    if c.from == 0 && *b && (must_be_flat || c.mode == Mode::Flat) {
                        return false;
                    }
                    let m = if c.from == 0 && *b {
                        Mode::Break
                    } else {
                        c.mode
                    };
                    let ghost mid = cmds@;
                    push_advance(&mut cmds, &c, m, c.indent);
                    proof {
                        lemma_advance_append(a, frames(mid), c.frame(), m, c.indent);
                        lemma_advance_measure(a + frames(mid), c.frame(), m, c.indent);
                    }
                },
                _ => {
                    let ghost mid = cmds@;
                    push_advance(&mut cmds, &c, c.mode, c.indent);
                    proof {
                        lemma_advance_append(a, frames(mid), c.frame(), c.mode, c.indent);
                        lemma_advance_measure(a + frames(mid), c.frame(), c.mode, c.indent);
                    }
                },
            }
        }
    }
}

fn recorded_mode_exec(groups: &Vec<(u32, Mode)>, id: u32) -> (r: Mode)
    ensures
        r == recorded_mode(groups@, id),
{
    let mut i = groups.len();
    proof {
        assert(groups@.subrange(0, i as int) =~= groups@);
    }
    while i > 0
        invariant
            i <= groups@.len(),
            recorded_mode(groups@.subrange(0, i as int), id) == recorded_mode(groups@, id),
        decreases i,
    {
        proof {
            assert(groups@.subrange(0, i as int).drop_last() =~= groups@.subrange(0, i - 1));
        }
        let (g, m) = groups[i - 1];
        if g == id {
            return m;
        }
        i = i - 1;
    }
    proof {
        assert(groups@.subrange(0, 0) =~= Seq::<(u32, Mode)>::empty());
    }
    Mode::Flat
}

/// Appends the characters of `t`, advancing the column by as many.
fn emit_text(out: &mut Vec<char>, col: &mut usize, t: &String)
    requires
        *old(col) <= old(out)@.len(),
    ensures
        final(out)@ == old(out)@ + t@,
        *final(col) == *old(col) + t@.len(),
        *final(col) <= final(out)@.len(),
{
    let n = width_of(t);
    let mut i: usize = 0;
    while i < n
        invariant
            n == t@.len(),
            i <= n,
            out@ == old(out)@ + t@.subrange(0, i as int),
            *col == *old(col) + i,
            *col <= out@.len(),
        decreases n - i,
    {
        let ch = t.as_str().get_char(i);
        out.push(ch);
        let _len = out.len();
        *col = *col + 1;
        i = i + 1;
        proof {
            assert(out@ =~= old(out)@ + t@.subrange(0, i as int));
        }
    }
    proof {
        assert(t@.subrange(0, n as int) =~= t@);
    }
}

/// Appends one character that is not a newline, advancing the column.
fn emit_char(out: &mut Vec<char>, col: &mut usize, ch: char)
    requires
        *old(col) <= old(out)@.len(),
    ensures
        final(out)@ == old(out)@.push(ch),
        *final(col) == *old(col) + 1,
        *final(col) <= final(out)@.len(),
{
    out.push(ch);
    let _len = out.len();
    *col = *col + 1;
}

/// Drops trailing spaces and tabs, ends the line and indents the next one.
fn emit_newline(out: &mut Vec<char>, col: &mut usize, levels: usize, unit: usize)
    ensures
        final(out)@ == trim_end(old(out)@).push('\n') + indentation(levels as nat, unit as nat),
        *final(col) == indentation(levels as nat, unit as nat).len(),
        *final(col) <= final(out)@.len(),
{
    let mut done = false;
    while !done && out.len() > 0
        invariant
            trim_end(out@) == trim_end(old(out)@),
            done ==> trim_end(out@) == out@,
        decreases out@.len(), if done { 0nat } else { 1nat },
    {
        let last = out[out.len() - 1];
        if last == ' ' || last == '\t' {
            out.pop();
        } else {
            done = true;
        }
    }
    proof {
        if out@.len() == 0 {
            assert(trim_end(out@) == out@);
        }
    }
    out.push('\n');
    let ghost base = out@;
    *col = 0;
    let mut i: usize = 0;
    while i < levels
        invariant
            base == trim_end(old(out)@).push('\n'),
            i <= levels,
            out@ == base + indentation(i as nat, unit as nat),
            *col == indentation(i as nat, unit as nat).len(),
            *col <= out@.len(),
        decreases levels - i,
    {
        let ghost row = out@;
        let mut j: usize = 0;
        while j < unit
            invariant
                row == base + indentation(i as nat, unit as nat),
                i < levels,
                j <= unit,
                out@ == row + spaces(j as nat),
                *col == indentation(i as nat, unit as nat).len() + j,
                *col <= out@.len(),
            decreases unit - j,
        {
            out.push(' ');
            let _len = out.len();
            *col = *col + 1;
            j = j + 1;
            proof {
                assert(out@ =~= row + spaces(j as nat));
            }
        }
        i = i + 1;
        proof {
            assert(out@ =~= base + indentation(i as nat, unit as nat));
        }
    }
}

/// Relies on std's `FromIterator<&char>` for `String`: the characters in order.
#[verifier::external_body]
pub(crate) fn collect_string(chars: &Vec<char>) -> (r: String)
    ensures
        r@ == chars@,
{
    chars.iter().collect()
}

/// Prints a document within `width` columns, indenting by `unit` spaces per
/// level, with an explicit work stack.
pub fn print_document(doc: &Document, width: usize, unit: usize) -> (r: String)
    ensures
        r@ == layout(*doc, width as int, unit as nat),
{
    let ghost goal = layout(*doc, width as int, unit as nat);
    let mut stack: Vec<Cmd> = Vec::new();
    let top = Cmd { doc: doc, from: 0, indent: 0, mode: Mode::Break };
    stack.push(top);
    let mut out: Vec<char> = Vec::new();
    let mut col: usize = 0;
    let mut groups: Vec<(u32, Mode)> = Vec::new();
    let empty: Vec<Cmd> = Vec::new();
    proof {
        assert(frames(stack@) =~= seq![Frame { doc: *doc, from: 0, indent: 0, mode: Mode::Break }]);
    }
    while stack.len() > 0
        invariant
            goal == layout(*doc, width as int, unit as nat),
            render(frames(stack@), out@, col as int, groups@, width as int, unit as nat) == goal,
            col <= out@.len(),
            empty@.len() == 0,
        decreases stack_measure(frames(stack@)),
    {
        let ghost before = stack@;
        let c = stack.pop().unwrap();
        let ghost x = frames(stack@);
        let ghost f = c.frame();
        proof {
            assert(before == stack@.push(c));
            lemma_frames_push(stack@, c);
            assert(x.push(f).drop_last() == x);
            assert(x.push(f).last() == f);
            assert(stack_measure(x.push(f)) == stack_measure(x) + frame_measure(f));
        }
        match c.doc {
            Document::Text(t) => {
                emit_text(&mut out, &mut col, t);
            },
            Document::Line(k) => {
                if c.mode == Mode::Flat && *k == LineKind::Soft {
                } else if c.mode == Mode::Flat && *k == LineKind::Default {
                    emit_char(&mut out, &mut col, ' ');
                } else if *k == LineKind::Literal {
                    let ghost before_out = out@;
                    emit_newline(&mut out, &mut col, 0, unit);
                    proof {
                        assert(indentation(0, unit as nat) =~= Seq::<char>::empty());
                        assert(out@ =~= trim_end(before_out).push('\n'));
                    }
                } else {
                    emit_newline(&mut out, &mut col, c.indent, unit);
                }
            },
            Document::BreakParent => {},
            Document::Group(_, b, id) => {
                let m = if c.from != 0 {
                    c.mode
                } else if *b {
                    Mode::Break
                } else if c.mode == Mode::Flat {
                    Mode::Flat
                } else {
                    let probe = Cmd { doc: c.doc, from: 0, indent: c.indent, mode: Mode::Flat };
                    let ghost pf = probe.frame();
                    let mut one: Vec<Cmd> = Vec::new();
                    one.push(probe);
                    let ok = col <= width && fits_exec(one, &stack, stack.len(), width - col, false);
                    proof {
                        assert(frames(stack@.subrange(0, stack@.len() as int)) + frames(seq![probe])
                            =~= x.push(pf));
                    }
                    proof {
                        if col > width {
                            assert(!fits(x.push(pf), width - col, false));
                        }
                    }
                    if ok {
                        Mode::Flat
                    } else {
                        Mode::Break
                    }
                };
                if c.from == 0 {
                    if let Some(g) = id {
                        groups.push((*g, m));
                    }
                }
                push_advance(&mut stack, &c, m, c.indent);
                proof {
                    lemma_advance_measure(x, f, m, c.indent);
                }
            },
            Document::Indent(_) => {
                let ind = c.indent.saturating_add(1);
                push_advance(&mut stack, &c, c.mode, ind);
                proof {
                    lemma_advance_measure(x, f, c.mode, ind);
                }
            },
            Document::IndentIfBreak(_, id) => {
                let m = match id {
                    Some(g) => recorded_mode_exec(&groups, *g),
                    None => c.mode,
                };
                let ind = if m == Mode::Break {
                    c.indent.saturating_add(1)
                } else {
                    c.indent
                };
                push_advance(&mut stack, &c, c.mode, ind);
                proof {
                    lemma_advance_measure(x, f, c.mode, ind);
                }
            },
            Document::Concat(_) => {
                push_advance(&mut stack, &c, c.mode, c.indent);
                proof {
                    lemma_advance_measure(x, f, c.mode, c.indent);
                }
            },
            Document::Fill(v) => {
                fill_exec(&mut stack, &c, v, &empty, col, width);
                proof {
                    lemma_fill_step_measure(x, f, width - col);
                }
            },
        }
    }
    collect_string(&out)
}

fn fill_exec<'a>(
    stack: &mut Vec<Cmd<'a>>,
    c: &Cmd<'a>,
    v: &'a Vec<Document>,
    empty: &Vec<Cmd<'a>>,
    col: usize,
    width: usize,
)
    requires
        *c.doc == Document::Fill(*v),
        empty@.len() == 0,
    ensures
        frames(final(stack)@) == fill_step(frames(old(stack)@), c.frame(), width - col),
{
    let ghost f = c.frame();
    let ghost rem = width - col;
    let ghost s0 = stack@;
    let k = c.from;
    if k < v.len() {
        let probe = Cmd { doc: &v[k], from: 0, indent: c.indent, mode: Mode::Flat };
        let mut one: Vec<Cmd> = Vec::new();
        one.push(probe);
        let content_fits = col <= width && fits_exec(one, empty, 0, width - col, true);
        proof {
            assert(frames(empty@.subrange(0, 0)) + frames(seq![probe]) =~= seq![part_frame(f, k as int, Mode::Flat)]);
            if col > width {
                assert(!fits(seq![part_frame(f, k as int, Mode::Flat)], rem, true));
            }
            assert(content_fits == fill_content_fits(f, k as int, rem));
        }
        let cm = if content_fits {
            Mode::Flat
        } else {
            Mode::Break
        };
        let content = Cmd { doc: &v[k], from: 0, indent: c.indent, mode: cm };
        if k + 1 == v.len() {
            stack.push(content);
            proof {
                lemma_frames_push(s0, content);
            }
        } else if k + 2 == v.len() {
            let sep = Cmd { doc: &v[k + 1], from: 0, indent: c.indent, mode: cm };
            stack.push(sep);
            stack.push(content);
            proof {
                lemma_frames_push(s0, sep);
                lemma_frames_push(s0.push(sep), content);
            }
        } else {
            let after_probe = Cmd { doc: &v[k + 2], from: 0, indent: c.indent, mode: Mode::Flat };
            let separator_probe = Cmd { doc: &v[k + 1], from: 0, indent: c.indent, mode: Mode::Flat };
            let content_probe = Cmd { doc: &v[k], from: 0, indent: c.indent, mode: Mode::Flat };
            let mut three: Vec<Cmd> = Vec::new();
            three.push(after_probe);
            three.push(separator_probe);
            three.push(content_probe);
            let ghost t3 = three@;
            let pair_fits = col <= width && fits_exec(three, empty, 0, width - col, true);
            proof {
                assert(t3 =~= seq![after_probe, separator_probe, content_probe]);
                assert(frames(empty@.subrange(0, 0)) + frames(seq![after_probe, separator_probe, content_probe]) =~= seq![
                    part_frame(f, k + 2, Mode::Flat),
                    part_frame(f, k + 1, Mode::Flat),
                    part_frame(f, k as int, Mode::Flat),
                ]);
                if col > width {
                    assert(!fill_pair_fits(f, k as int, rem));
                }
                assert(pair_fits == fill_pair_fits(f, k as int, rem));
            }
            let sm = if pair_fits {
                Mode::Flat
            } else {
                Mode::Break
            };
            let more = Cmd { doc: c.doc, from: k + 2, indent: c.indent, mode: c.mode };
            let sep = Cmd { doc: &v[k + 1], from: 0, indent: c.indent, mode: sm };
            stack.push(more);
            stack.push(sep);
            stack.push(content);
            proof {
                lemma_frames_push(s0, more);
                lemma_frames_push(s0.push(more), sep);
                lemma_frames_push(s0.push(more).push(sep), content);
            }
        }
    }
}

} // verus!
