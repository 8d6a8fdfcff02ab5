use vstd::prelude::*;

verus! {

/// How a line break behaves in each of the two printing modes.
#[derive(Clone, Copy, Debug, PartialEq, Eq, Structural)]
pub enum LineKind {
    /// Nothing when flat, a newline when broken.
    Soft,
    /// Always a newline; forces every enclosing group to break.
    Hard,
    /// Always a newline, without indentation.
    Literal,
    /// A single space when flat, a newline when broken.
    Default,
}

/// The intermediate representation between a syntax tree and text.
#[derive(Debug)]
pub enum Document {
    /// An unbreakable run of characters on one line.
    Text(String),
    /// Children printed one after the other.
    Concat(Vec<Document>),
    /// Children printed one indentation level deeper.
    Indent(Vec<Document>),
    /// Like `Indent` when the referenced group (the enclosing one for `None`)
    /// is broken, like `Concat` otherwise.
    IndentIfBreak(Vec<Document>, Option<u32>),
    /// Children printed all flat or all broken; the flag forces broken mode.
    Group(Vec<Document>, bool, Option<u32>),
    Line(LineKind),
    /// No output; forces every enclosing group to break.
    BreakParent,
    /// Alternating content and separator documents, wrapped pair by pair.
    Fill(Vec<Document>),
}

/// The children of a composite document; a leaf has none.
pub open spec fn parts_of(d: Document) -> Seq<Document> {
    match d {
        Document::Concat(v) => v@,
        Document::Indent(v) => v@,
        Document::IndentIfBreak(v, _) => v@,
        Document::Group(v, _, _) => v@,
        Document::Fill(v) => v@,
        _ => Seq::empty(),
    }
}

/// Number of nodes of a document, plus one per child edge.
pub open spec fn doc_size(d: Document) -> nat
    decreases d,
{
    match d {
        Document::Concat(v) => 1 + parts_size(v@),
        Document::Indent(v) => 1 + parts_size(v@),
        Document::IndentIfBreak(v, _) => 1 + parts_size(v@),
        Document::Group(v, _, _) => 1 + parts_size(v@),
        Document::Fill(v) => 1 + parts_size(v@),
        _ => 1,
    }
}

pub open spec fn parts_size(s: Seq<Document>) -> nat
    decreases s,
{
    if s.len() == 0 {
        0
    } else {
        doc_size(s[0]) + 1 + parts_size(s.drop_first())
    }
}

/// Whether the document holds a hard or literal line, a `BreakParent`, or a
/// group that is forced to break, at any depth.
pub open spec fn has_forced_break(d: Document) -> bool
    decreases d,
{
    match d {
        Document::Line(k) => k == LineKind::Hard || k == LineKind::Literal,
        Document::BreakParent => true,
        Document::Text(_) => false,
        Document::Group(v, b, _) => b || parts_have_forced_break(v@),
        Document::Concat(v) => parts_have_forced_break(v@),
        Document::Indent(v) => parts_have_forced_break(v@),
        Document::IndentIfBreak(v, _) => parts_have_forced_break(v@),
        Document::Fill(v) => parts_have_forced_break(v@),
    }
}

pub open spec fn parts_have_forced_break(s: Seq<Document>) -> bool
    decreases s,
{
    if s.len() == 0 {
        false
    } else {
        has_forced_break(s[0]) || parts_have_forced_break(s.drop_first())
    }
}

/// Every fill in the document starts and ends with content: it has an odd
/// number of parts.
pub open spec fn odd_fills(d: Document) -> bool
    decreases d,
{
    match d {
        Document::Fill(v) => v@.len() % 2 == 1 && parts_odd_fills(v@),
        Document::Concat(v) => parts_odd_fills(v@),
        Document::Indent(v) => parts_odd_fills(v@),
        Document::IndentIfBreak(v, _) => parts_odd_fills(v@),
        Document::Group(v, _, _) => parts_odd_fills(v@),
        _ => true,
    }
}

pub open spec fn parts_odd_fills(s: Seq<Document>) -> bool
    decreases s,
{
    if s.len() == 0 {
        true
    } else {
        odd_fills(s[0]) && parts_odd_fills(s.drop_first())
    }
}

pub proof fn lemma_parts_odd_fills_index(s: Seq<Document>, i: int)
    requires
        parts_odd_fills(s),
        0 <= i < s.len(),
    ensures
        odd_fills(s[i]),
    decreases i,
{
    if i > 0 {
        lemma_parts_odd_fills_index(s.drop_first(), i - 1);
    }
}

pub proof fn lemma_parts_size_split(s: Seq<Document>, k: int)
    requires
        0 <= k < s.len(),
    ensures
        parts_size(s.subrange(k, s.len() as int)) == doc_size(s[k]) + 1 + parts_size(
            s.subrange(k + 1, s.len() as int),
        ),
{
    assert(s.subrange(k, s.len() as int).drop_first() =~= s.subrange(k + 1, s.len() as int));
}

pub proof fn lemma_parts_size_whole(s: Seq<Document>)
    ensures
        parts_size(s.subrange(0, s.len() as int)) == parts_size(s),
{
    assert(s.subrange(0, s.len() as int) =~= s);
}

/// A forced break among the parts from index `k` on lies either in part `k`
/// or among the parts after it.
pub proof fn lemma_forced_break_split(s: Seq<Document>, k: int)
    requires
        0 <= k < s.len(),
    ensures
        parts_have_forced_break(s.subrange(k, s.len() as int)) == (has_forced_break(s[k])
            || parts_have_forced_break(s.subrange(k + 1, s.len() as int))),
{
    assert(s.subrange(k, s.len() as int).drop_first() =~= s.subrange(k + 1, s.len() as int));
}

/// A text leaf holding one space.
pub open spec fn is_space(d: Document) -> bool {
    d matches Document::Text(t) && t@ == seq![' ']
}

impl Document {
    pub fn text(s: &str) -> (r: Document)
        ensures
            r matches Document::Text(t) && t@ == s@,
    {
        Document::Text(String::from_str(s))
    }

    pub fn space() -> (r: Document)
        ensures
            is_space(r),
    {
        let r = Document::text(" ");
        proof {
            reveal_strlit(" ");
            assert(" "@ =~= seq![' ']);
        }
        r
    }

    pub fn empty() -> (r: Document)
        ensures
            r matches Document::Text(t) && t@.len() == 0,
    {
        let r = Document::text("");
        proof {
            reveal_strlit("");
        }
        r
    }

    /// The parts with a single space between each two of them.
    pub fn join_spaced(parts: Vec<Document>) -> (r: Vec<Document>)
        ensures
            parts@.len() == 0 ==> r@.len() == 0,
            parts@.len() > 0 ==> r@.len() == 2 * parts@.len() - 1,
            forall|i: int| 0 <= i < parts@.len() ==> r@[2 * i] == parts@[i],
            forall|i: int| 0 <= i < parts@.len() - 1 ==> is_space(#[trigger] r@[2 * i + 1]),
    {
        let ghost all = parts@;
        let mut rest = parts;
        let mut r: Vec<Document> = Vec::new();
        let n = rest.len();
        let mut i: usize = 0;
        while i < n
            invariant
                n == all.len(),
                i <= n,
                rest@ == all.subrange(i as int, n as int),
                i == 0 ==> r@.len() == 0,
                i > 0 ==> r@.len() == 2 * i - 1,
                forall|j: int| 0 <= j < i ==> r@[2 * j] == all[j],
                forall|j: int| 0 <= j < i - 1 ==> is_space(#[trigger] r@[2 * j + 1]),
            decreases n - i,
        {
            if i > 0 {
                r.push(Document::space());
            }
            let d = rest.remove(0);
            r.push(d);
            i = i + 1;
            proof {
                assert(rest@ =~= all.subrange(i as int, n as int));
            }
        }
        r
    }
}

/// The documents in a vector, in order.
pub fn list2(a: Document, b: Document) -> (r: Vec<Document>)
    ensures
        r@ == seq![a, b],
{
    let mut v: Vec<Document> = Vec::new();
    v.push(a);
    v.push(b);
    proof {
        assert(v@ =~= seq![a, b]);
    }
    v
}

/// The documents in a vector, in order.
pub fn list3(a: Document, b: Document, c: Document) -> (r: Vec<Document>)
    ensures
        r@ == seq![a, b, c],
{
    let mut v = list2(a, b);
    v.push(c);
    proof {
        assert(v@ =~= seq![a, b, c]);
    }
    v
}

/// The documents in a vector, in order.
pub fn list4(a: Document, b: Document, c: Document, d: Document) -> (r: Vec<Document>)
    ensures
        r@ == seq![a, b, c, d],
{
    let mut v = list3(a, b, c);
    v.push(d);
    proof {
        assert(v@ =~= seq![a, b, c, d]);
    }
    v
}

/// The documents in a vector, in order.
pub fn list5(a: Document, b: Document, c: Document, d: Document, e: Document) -> (r: Vec<Document>)
    ensures
        r@ == seq![a, b, c, d, e],
{
    let mut v = list4(a, b, c, d);
    v.push(e);
    proof {
        assert(v@ =~= seq![a, b, c, d, e]);
    }
    v
}

} // verus!
