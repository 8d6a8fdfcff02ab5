use vstd::prelude::*;

use crate::ast::{Argument, Expression, Statement};
use crate::document::{Document, LineKind, is_space};
use crate::call_node::{CallLikeNode, print_call_like_node};
use crate::format::{expression_shape, format_expression, print_statement_sequence};
use crate::parens::text_is;
use crate::state::{BraceStyle, FormatterState, Position, Settings};

verus! {

/// Where the body of a control statement stands.
#[derive(Clone, Copy, Debug, PartialEq, Eq, Structural)]
pub enum ClauseContext {
    /// The body of an `if`; the flag tells whether an `else` or `elseif` follows.
    IfBody(bool),
    /// The body of an `else`.
    ElseClause,
    /// The body of an `elseif`; the flag tells whether an `else` or a later
    /// `elseif` follows.
    ElseIfClause(bool),
    /// The body of a `do ... while`.
    DoWhile,
    Other,
}

/// Whether another segment of the statement follows the body on its line.
pub open spec fn trailing_segment(ctx: ClauseContext) -> bool {
    match ctx {
        ClauseContext::IfBody(more) => more,
        ClauseContext::ElseIfClause(more) => more,
        ClauseContext::DoWhile => true,
        _ => false,
    }
}

/// `r` is `clause` after a separator: a block after a space (same-line
/// braces, or an empty block with inline empty braces) or after a line (next-line
/// braces); another statement after a space when forced, else on its own
/// indented line; `;` as it is.
pub open spec fn clause_body(
    r: Document,
    settings: Settings,
    node: Statement,
    clause: Document,
    space: bool,
) -> bool {
    match node {
        Statement::Noop => r == clause,
        Statement::Block(b) => r matches Document::Concat(v) && v@.len() == 2 && v@[1] == clause && if settings.control_brace_style
            == BraceStyle::SameLine || (settings.inline_empty_control_braces && b@.len() == 0) {
            is_space(v@[0])
        } else {
            v@[0] == Document::Line(LineKind::Default)
        },
        _ => if space {
            r matches Document::Concat(v) && v@.len() == 2 && is_space(v@[0]) && v@[1] == clause
        } else {
            r matches Document::Indent(v) && v@.len() == 3 && v@[0] == Document::BreakParent && v@[1]
                == Document::Line(LineKind::Hard) && v@[2] == clause
        },
    }
}

fn two(a: Document, b: Document) -> (r: Vec<Document>)
    ensures
        r@ == seq![a, b],
{
    let mut v: Vec<Document> = Vec::new();
    v.push(a);
    v.push(b);
    proof {
        assert(v@ =~= seq![a, b]);
    }
    v
}

fn three(a: Document, b: Document, c: Document) -> (r: Vec<Document>)
    ensures
        r@ == seq![a, b, c],
{
    let mut v: Vec<Document> = Vec::new();
    v.push(a);
    v.push(b);
    v.push(c);
    proof {
        assert(v@ =~= seq![a, b, c]);
    }
    v
}

/// `r` is `clause` placed as a body in `context`: see `clause_body`; when
/// another segment follows (`else`, `elseif`, the `while` of a `do`), a
/// block is followed by a space and another statement by a hard line. The
/// body after `else` that is itself an `if` stays on the line.
pub open spec fn adjusted_clause(
    r: Document,
    settings: Settings,
    context: ClauseContext,
    node: Statement,
    clause: Document,
    force_space: bool,
) -> bool {
    let space = force_space || (context == ClauseContext::ElseClause && node is If);
    if trailing_segment(context) {
        if node is Block {
            r matches Document::Concat(v) && v@.len() == 2 && clause_body(
                v@[0],
                settings,
                node,
                clause,
                space,
            ) && is_space(v@[1])
        } else {
            r matches Document::Indent(v) && v@.len() == 3 && v@[0] == Document::BreakParent
                && clause_body(v@[1], settings, node, clause, space) && v@[2] == Document::Line(
                LineKind::Hard,
            )
        }
    } else {
        clause_body(r, settings, node, clause, space)
    }
}

/// Places the lowered body `clause` of a control statement.
pub fn adjust_clause(
    settings: &Settings,
    context: ClauseContext,
    node: &Statement,
    clause: Document,
    force_space: bool,
) -> (r: Document)
    ensures
        adjusted_clause(r, *settings, context, *node, clause, force_space),
{
    let mut force_space = force_space;
    let has_trailing_segment = match context {
        ClauseContext::IfBody(more) => more,
        ClauseContext::ElseClause => {
            if let Statement::If(..) = node {
                force_space = true;
            }
            false
        },
        ClauseContext::ElseIfClause(more) => more,
        ClauseContext::DoWhile => true,
        ClauseContext::Other => false,
    };
    let mut is_block = false;
    let clause = match node {
        Statement::Noop => clause,
        Statement::Block(statements) => {
            is_block = true;
            let is_block_empty = statements.len() == 0;
            match settings.control_brace_style {
                BraceStyle::SameLine => Document::Concat(two(Document::space(), clause)),
                BraceStyle::NextLine => {
                    if settings.inline_empty_control_braces && is_block_empty {
                        Document::Concat(two(Document::space(), clause))
                    } else {
                        Document::Concat(two(Document::Line(LineKind::Default), clause))
                    }
                },
            }
        },
        _ => {
            if force_space {
                Document::Concat(two(Document::space(), clause))
            } else {
                Document::Indent(
                    three(Document::BreakParent, Document::Line(LineKind::Hard), clause),
                )
            }
        },
    };
    if has_trailing_segment {
        if is_block {
            Document::Concat(two(clause, Document::space()))
        } else {
            Document::Indent(three(Document::BreakParent, clause, Document::Line(LineKind::Hard)))
        }
    } else {
        clause
    }
}

pub open spec fn condition_line(space_within: bool) -> Document {
    Document::Line(if space_within {
        LineKind::Default
    } else {
        LineKind::Soft
    })
}

/// `r` is the condition in parentheses, in a group: after a space when
/// `space_before`, indented when the group breaks, with a line (a space when
/// flat with `space_within`) inside each parenthesis.
pub open spec fn condition_shape(r: Document, condition: Document, space_before: bool, space_within: bool) -> bool {
    r matches Document::Group(v, b, id) && !b && id is None && v@.len() == 5 && text_is(
        v@[0],
        if space_before {
            seq![' ']
        } else {
            Seq::empty()
        },
    ) && text_is(v@[1], seq!['(']) && (v@[2] matches Document::IndentIfBreak(w, g) && g is None
        && w@ == seq![condition_line(space_within), condition]) && v@[3] == condition_line(
        space_within,
    ) && text_is(v@[4], seq![')'])
}

/// Prints a control statement's condition, lowered while the state is
/// marked as inside a condition.
pub fn print_condition(
    f: &mut FormatterState,
    condition: &Expression,
    space_before: bool,
    space_within: bool,
) -> (r: Document)
    ensures
        final(f).positions@ == old(f).positions@,
        final(f).settings == old(f).settings,
        final(f).php_version == old(f).php_version,
        final(f).in_condition == old(f).in_condition,
        exists|c: Document|
            condition_shape(r, c, space_before, space_within) && #[trigger] expression_shape(
                c,
                *condition,
                old(f).positions@.push(Position::Statement),
                old(f).settings,
                old(f).php_version,
            ),
    decreases condition, 3nat,
{
    let was_in_condition = f.in_condition;
    f.in_condition = true;
    f.enter(Position::Statement);
    let c = format_expression(f, condition);
    f.leave();
    f.in_condition = was_in_condition;
    proof {
        reveal_strlit("(");
        reveal_strlit(")");
        reveal_strlit(" ");
        reveal_strlit("");
        assert("("@ =~= seq!['(']);
        assert(")"@ =~= seq![')']);
        assert(" "@ =~= seq![' ']);
        assert(""@ =~= Seq::<char>::empty());
    }
    let line = if space_within {
        LineKind::Default
    } else {
        LineKind::Soft
    };
    let ghost cg = c;
    let inner = two(Document::Line(line), c);
    let mut parts: Vec<Document> = Vec::new();
    parts.push(if space_before {
        Document::text(" ")
    } else {
        Document::text("")
    });
    parts.push(Document::text("("));
    parts.push(Document::IndentIfBreak(inner, None));
    parts.push(Document::Line(line));
    parts.push(Document::text(")"));
    let r = Document::Group(parts, false, None);
    proof {
        assert(condition_shape(r, cg, space_before, space_within));
        assert(expression_shape(cg, *condition, old(f).positions@.push(Position::Statement), old(f).settings, old(f).php_version));
    }
    r
}

/// Class-member and class modifiers.
#[derive(Clone, Copy, Debug, PartialEq, Eq, Structural)]
pub enum Modifier {
    Public,
    Protected,
    Private,
    PublicSet,
    ProtectedSet,
    PrivateSet,
    Static,
    Readonly,
    Abstract,
    Final,
}

/// The groups of modifiers, of which one each is printed.
#[derive(Clone, Copy, Debug, PartialEq, Eq, Structural)]
pub enum ModifierClass {
    Final,
    Abstract,
    Static,
    Readonly,
    ReadVisibility,
    WriteVisibility,
}

pub open spec fn class_of(m: Modifier) -> ModifierClass {
    match m {
        Modifier::Public | Modifier::Protected | Modifier::Private => ModifierClass::ReadVisibility,
        Modifier::PublicSet | Modifier::ProtectedSet | Modifier::PrivateSet => ModifierClass::WriteVisibility,
        Modifier::Static => ModifierClass::Static,
        Modifier::Readonly => ModifierClass::Readonly,
        Modifier::Abstract => ModifierClass::Abstract,
        Modifier::Final => ModifierClass::Final,
    }
}

pub open spec fn keyword(m: Modifier) -> Seq<char> {
    match m {
        Modifier::Public => "public"@,
        Modifier::Protected => "protected"@,
        Modifier::Private => "private"@,
        Modifier::PublicSet => "public(set)"@,
        Modifier::ProtectedSet => "protected(set)"@,
        Modifier::PrivateSet => "private(set)"@,
        Modifier::Static => "static"@,
        Modifier::Readonly => "readonly"@,
        Modifier::Abstract => "abstract"@,
        Modifier::Final => "final"@,
    }
}

/// The first modifier of the class, as a sequence of none or one.
pub open spec fn first_of(mods: Seq<Modifier>, c: ModifierClass) -> Seq<Modifier>
    decreases mods.len(),
{
    if mods.len() == 0 {
        Seq::empty()
    } else if class_of(mods[0]) == c {
        seq![mods[0]]
    } else {
        first_of(mods.drop_first(), c)
    }
}

/// The modifiers in print order: `final`, `abstract`, then either `static`,
/// `readonly` and the two visibilities, or the visibilities first.
pub open spec fn modifier_order(mods: Seq<Modifier>, static_before_visibility: bool) -> Seq<Modifier> {
    let head = first_of(mods, ModifierClass::Final) + first_of(mods, ModifierClass::Abstract);
    let statics = first_of(mods, ModifierClass::Static) + first_of(mods, ModifierClass::Readonly);
    let visibility = first_of(mods, ModifierClass::ReadVisibility) + first_of(
        mods,
        ModifierClass::WriteVisibility,
    );
    if static_before_visibility {
        head + statics + visibility
    } else {
        head + visibility + statics
    }
}

proof fn lemma_first_of_append(a: Seq<Modifier>, b: Seq<Modifier>, c: ModifierClass)
    ensures
        first_of(a + b, c) == if first_of(a, c).len() > 0 {
            first_of(a, c)
        } else {
            first_of(b, c)
        },
    decreases a.len(),
{
    if a.len() > 0 {
        assert((a + b).drop_first() =~= a.drop_first() + b);
        assert((a + b)[0] == a[0]);
        lemma_first_of_append(a.drop_first(), b, c);
    } else {
        assert(a + b =~= b);
    }
}

proof fn lemma_first_of_class(mods: Seq<Modifier>, c: ModifierClass)
    ensures
        first_of(mods, c).len() <= 1,
        first_of(mods, c).len() == 1 ==> class_of(first_of(mods, c)[0]) == c,
    decreases mods.len(),
{
    if mods.len() > 0 && class_of(mods[0]) != c {
        lemma_first_of_class(mods.drop_first(), c);
    }
}

/// `first_of` on none or one modifier of the class `d`.
proof fn lemma_first_of_single(x: Seq<Modifier>, d: ModifierClass, c: ModifierClass)
    requires
        x.len() <= 1,
        x.len() == 1 ==> class_of(x[0]) == d,
    ensures
        first_of(x, c) == if c == d {
            x
        } else {
            Seq::<Modifier>::empty()
        },
{
    if x.len() == 1 {
        assert(x.drop_first() =~= Seq::<Modifier>::empty());
        assert(first_of(x.drop_first(), c) == Seq::<Modifier>::empty());
        assert(x =~= seq![x[0]]);
    } else {
        assert(x =~= Seq::<Modifier>::empty());
    }
}

/// Each class keeps its first modifier through the ordering.
#[verifier::rlimit(100)]
proof fn lemma_order_keeps_first(mods: Seq<Modifier>, static_before_visibility: bool, c: ModifierClass)
    ensures
        first_of(modifier_order(mods, static_before_visibility), c) == first_of(mods, c),
{
    let fin = first_of(mods, ModifierClass::Final);
    let abs = first_of(mods, ModifierClass::Abstract);
    let sta = first_of(mods, ModifierClass::Static);
    let ro = first_of(mods, ModifierClass::Readonly);
    let rv = first_of(mods, ModifierClass::ReadVisibility);
    let wv = first_of(mods, ModifierClass::WriteVisibility);
    lemma_first_of_class(mods, ModifierClass::Final);
    lemma_first_of_class(mods, ModifierClass::Abstract);
    lemma_first_of_class(mods, ModifierClass::Static);
    lemma_first_of_class(mods, ModifierClass::Readonly);
    lemma_first_of_class(mods, ModifierClass::ReadVisibility);
    lemma_first_of_class(mods, ModifierClass::WriteVisibility);
    lemma_first_of_single(fin, ModifierClass::Final, c);
    lemma_first_of_single(abs, ModifierClass::Abstract, c);
    lemma_first_of_single(sta, ModifierClass::Static, c);
    lemma_first_of_single(ro, ModifierClass::Readonly, c);
    lemma_first_of_single(rv, ModifierClass::ReadVisibility, c);
    lemma_first_of_single(wv, ModifierClass::WriteVisibility, c);
    lemma_first_of_append(fin, abs, c);
    if static_before_visibility {
        lemma_first_of_append(fin + abs, sta, c);
        lemma_first_of_append(fin + abs + sta, ro, c);
        lemma_first_of_append(fin + abs + sta + ro, rv, c);
        lemma_first_of_append(fin + abs + sta + ro + rv, wv, c);
        assert(modifier_order(mods, static_before_visibility) =~= fin + abs + sta + ro + rv + wv);
    } else {
        lemma_first_of_append(fin + abs, rv, c);
        lemma_first_of_append(fin + abs + rv, wv, c);
        lemma_first_of_append(fin + abs + rv + wv, sta, c);
        lemma_first_of_append(fin + abs + rv + wv + sta, ro, c);
        assert(modifier_order(mods, static_before_visibility) =~= fin + abs + rv + wv + sta + ro);
    }
}

/// Printing the modifiers in their order and reading them back gives the
/// same order: the order is a fixed point.
pub proof fn lemma_modifier_order_is_fixed(mods: Seq<Modifier>, static_before_visibility: bool)
    ensures
        modifier_order(modifier_order(mods, static_before_visibility), static_before_visibility)
            == modifier_order(mods, static_before_visibility),
{
    let order = modifier_order(mods, static_before_visibility);
    lemma_order_keeps_first(mods, static_before_visibility, ModifierClass::Final);
    lemma_order_keeps_first(mods, static_before_visibility, ModifierClass::Abstract);
    lemma_order_keeps_first(mods, static_before_visibility, ModifierClass::Static);
    lemma_order_keeps_first(mods, static_before_visibility, ModifierClass::Readonly);
    lemma_order_keeps_first(mods, static_before_visibility, ModifierClass::ReadVisibility);
    lemma_order_keeps_first(mods, static_before_visibility, ModifierClass::WriteVisibility);
}

impl Modifier {
    pub fn class(&self) -> (r: ModifierClass)
        ensures
            r == class_of(*self),
    {
        match self {
            Modifier::Public | Modifier::Protected | Modifier::Private => ModifierClass::ReadVisibility,
            Modifier::PublicSet | Modifier::ProtectedSet | Modifier::PrivateSet => ModifierClass::WriteVisibility,
            Modifier::Static => ModifierClass::Static,
            Modifier::Readonly => ModifierClass::Readonly,
            Modifier::Abstract => ModifierClass::Abstract,
            Modifier::Final => ModifierClass::Final,
        }
    }

    pub fn as_str(&self) -> (r: &'static str)
        ensures
            r@ == keyword(*self),
    {
        match self {
            Modifier::Public => "public",
            Modifier::Protected => "protected",
            Modifier::Private => "private",
            Modifier::PublicSet => "public(set)",
            Modifier::ProtectedSet => "protected(set)",
            Modifier::PrivateSet => "private(set)",
            Modifier::Static => "static",
            Modifier::Readonly => "readonly",
            Modifier::Abstract => "abstract",
            Modifier::Final => "final",
        }
    }
}

fn push_first_of(order: &mut Vec<Modifier>, mods: &Vec<Modifier>, c: ModifierClass)
    ensures
        final(order)@ == old(order)@ + first_of(mods@, c),
{
    let mut i: usize = 0;
    proof {
        assert(mods@.subrange(0, mods@.len() as int) =~= mods@);
    }
    while i < mods.len()
        invariant
            i <= mods@.len(),
            first_of(mods@.subrange(i as int, mods@.len() as int), c) == first_of(mods@, c),
            order@ == old(order)@,
        decreases mods@.len() - i,
    {
        proof {
            assert(mods@.subrange(i as int, mods@.len() as int).drop_first() =~= mods@.subrange(
                i + 1,
                mods@.len() as int,
            ));
        }
        if mods[i].class() == c {
            order.push(mods[i]);
            proof {
                assert(order@ =~= old(order)@ + first_of(mods@, c));
            }
            return;
        }
        i = i + 1;
    }
    proof {
        assert(first_of(mods@.subrange(i as int, mods@.len() as int), c) =~= Seq::<Modifier>::empty());
        assert(order@ =~= old(order)@ + first_of(mods@, c));
    }
}

/// The modifiers in their fixed order, one of each class, with a space
/// between each two.
pub fn print_modifiers(f: &FormatterState, modifiers: &Vec<Modifier>) -> (r: Vec<Document>)
    ensures
        ({
            let order = modifier_order(modifiers@, f.settings.static_before_visibility);
            &&& order.len() == 0 ==> r@.len() == 0
            &&& order.len() > 0 ==> r@.len() == 2 * order.len() - 1
            &&& forall|i: int| 0 <= i < order.len() ==> text_is(#[trigger] r@[2 * i], keyword(order[i]))
            &&& forall|i: int| 0 <= i < order.len() - 1 ==> is_space(#[trigger] r@[2 * i + 1])
        }),
{
    let mut order: Vec<Modifier> = Vec::new();
    push_first_of(&mut order, modifiers, ModifierClass::Final);
    push_first_of(&mut order, modifiers, ModifierClass::Abstract);
    if f.settings.static_before_visibility {
        push_first_of(&mut order, modifiers, ModifierClass::Static);
        push_first_of(&mut order, modifiers, ModifierClass::Readonly);
        push_first_of(&mut order, modifiers, ModifierClass::ReadVisibility);
        push_first_of(&mut order, modifiers, ModifierClass::WriteVisibility);
    } else {
        push_first_of(&mut order, modifiers, ModifierClass::ReadVisibility);
        push_first_of(&mut order, modifiers, ModifierClass::WriteVisibility);
        push_first_of(&mut order, modifiers, ModifierClass::Static);
        push_first_of(&mut order, modifiers, ModifierClass::Readonly);
    }
    proof {
        assert(order@ =~= modifier_order(modifiers@, f.settings.static_before_visibility));
    }
    let ghost wanted = modifier_order(modifiers@, f.settings.static_before_visibility);
    let mut printed: Vec<Document> = Vec::new();
    let mut i: usize = 0;
    while i < order.len()
        invariant
            order@ == wanted,
            wanted == modifier_order(modifiers@, f.settings.static_before_visibility),
            i <= order@.len(),
            printed@.len() == i,
            forall|j: int| 0 <= j < i ==> text_is(#[trigger] printed@[j], keyword(order@[j])),
        decreases order@.len() - i,
    {
        printed.push(Document::text(order[i].as_str()));
        i = i + 1;
    }
    let ghost listed = printed@;
    let r = Document::join_spaced(printed);
    proof {
        assert forall|i: int| 0 <= i < wanted.len() implies text_is(#[trigger] r@[2 * i], keyword(wanted[i])) by {
            assert(r@[2 * i] == listed[i]);
        }
    }
    r
}

pub struct Attribute {
    pub name: String,
    pub arguments: Option<Vec<Argument>>,
}

/// `#[First, Second(arguments)]`, and whether it spans several lines of
/// the source.
pub struct AttributeList {
    pub attributes: Vec<Attribute>,
    pub multiline: bool,
}

/// Whether one of the lists spans several source lines.
pub open spec fn any_multiline(lists: Seq<AttributeList>) -> bool {
    exists|i: int| 0 <= i < lists.len() && (#[trigger] lists[i]).multiline
}

/// `d` is an attribute list: `#[`, the attributes with `, ` between each
/// two, each a group ending in its argument list, and `]`.
pub open spec fn attribute_list_shape(d: Document, list: AttributeList) -> bool {
    let n = list.attributes@.len();
    d matches Document::Concat(w) && w@.len() == (if n == 0 {
        2
    } else {
        2 * n + 1
    }) && text_is(w@[0], "#["@) && text_is(w@.last(), "]"@) && (forall|i: int|
        0 <= i < n ==> (#[trigger] w@[2 * i + 1] matches Document::Group(v, _, _) && text_is(
            v@[0],
            list.attributes@[i].name@,
        ))) && (forall|i: int| 0 < i < n ==> text_is(#[trigger] w@[2 * i], ", "@))
}

fn format_attribute_list(f: &mut FormatterState, list: &AttributeList) -> (r: Document)
    ensures
        final(f).positions@ == old(f).positions@,
        final(f).settings == old(f).settings,
        final(f).php_version == old(f).php_version,
        attribute_list_shape(r, *list),
{
    let mut parts: Vec<Document> = Vec::new();
    parts.push(Document::text("#["));
    let mut i: usize = 0;
    while i < list.attributes.len()
        invariant
            i <= list.attributes@.len(),
            f.positions@ == old(f).positions@,
            f.settings == old(f).settings,
            f.php_version == old(f).php_version,
            parts@.len() == if i == 0 {
                1
            } else {
                2 * i
            },
            text_is(parts@[0], "#["@),
            forall|j: int|
                0 <= j < i ==> (#[trigger] parts@[2 * j + 1] matches Document::Group(v, _, _)
                    && text_is(v@[0], list.attributes@[j].name@)),
            forall|j: int| 0 < j < i ==> text_is(#[trigger] parts@[2 * j], ", "@),
        decreases list.attributes@.len() - i,
    {
        if i > 0 {
            parts.push(Document::text(", "));
        }
        let printed = print_call_like_node(f, CallLikeNode::Attribute(&list.attributes[i]));
        parts.push(printed);
        i = i + 1;
    }
    parts.push(Document::text("]"));
    Document::Concat(parts)
}

/// The attribute lists in a group, each on its own line when one of them
/// spans several source lines, else with a line (a space when flat) between
/// each two; none for no lists.
pub fn print_attribute_list_sequence(f: &mut FormatterState, attribute_lists: &Vec<AttributeList>) -> (r:
    Option<Document>)
    ensures
        final(f).positions@ == old(f).positions@,
        final(f).settings == old(f).settings,
        final(f).php_version == old(f).php_version,
        attribute_lists@.len() == 0 <==> r is None,
        r matches Some(d) ==> (d matches Document::Group(v, b, id) && forall|i: int|
            0 <= i < attribute_lists@.len() ==> attribute_list_shape(
                #[trigger] v@[2 * i],
                attribute_lists@[i],
            )),
        r matches Some(d) ==> (d matches Document::Group(v, b, id) && !b && id is None && v@.len() == 2
            * attribute_lists@.len() - 1 && forall|i: int|
            0 <= i < attribute_lists@.len() - 1 ==> #[trigger] v@[2 * i + 1] == Document::Line(
                if any_multiline(attribute_lists@) {
                    LineKind::Hard
                } else {
                    LineKind::Default
                },
            )),
{
    if attribute_lists.len() == 0 {
        return None;
    }
    let mut multiline = false;
    let mut k: usize = 0;
    while k < attribute_lists.len()
        invariant
            k <= attribute_lists@.len(),
            multiline <==> exists|j: int| 0 <= j < k && (#[trigger] attribute_lists@[j]).multiline,
        decreases attribute_lists@.len() - k,
    {
        if attribute_lists[k].multiline {
            multiline = true;
        }
        k = k + 1;
    }
    let separator = if multiline {
        LineKind::Hard
    } else {
        LineKind::Default
    };
    let mut contents: Vec<Document> = Vec::new();
    let mut i: usize = 0;
    while i < attribute_lists.len()
        invariant
            i <= attribute_lists@.len(),
            f.positions@ == old(f).positions@,
            f.settings == old(f).settings,
            f.php_version == old(f).php_version,
            i == 0 ==> contents@.len() == 0,
            i > 0 ==> contents@.len() == 2 * i - 1,
            forall|j: int| 0 <= j < i - 1 ==> #[trigger] contents@[2 * j + 1] == Document::Line(separator),
            forall|j: int|
                0 <= j < i ==> attribute_list_shape(#[trigger] contents@[2 * j], attribute_lists@[j]),
        decreases attribute_lists@.len() - i,
    {
        if i > 0 {
            contents.push(Document::Line(separator));
        }
        let d = format_attribute_list(f, &attribute_lists[i]);
        contents.push(d);
        i = i + 1;
    }
    Some(Document::Group(contents, false, None))
}

/// Whether the characters of `text` from `start` to `end` hold a newline.
pub fn has_new_line_in_range(text: &str, start: usize, end: usize) -> (r: bool)
    requires
        start <= end <= text@.len(),
    ensures
        r == text@.subrange(start as int, end as int).contains('\n'),
{
    let mut i = start;
    while i < end
        invariant
            start <= i <= end,
            end <= text@.len(),
            forall|j: int| start <= j < i ==> text@[j] != '\n',
        decreases end - i,
    {
        if text.get_char(i) == '\n' {
            proof {
                assert(text@.subrange(start as int, end as int)[i - start] == '\n');
            }
            return true;
        }
        i = i + 1;
    }
    proof {
        if text@.subrange(start as int, end as int).contains('\n') {
            let k = choose|k: int| 0 <= k < end - start && text@.subrange(start as int, end as int)[k] == '\n';
            assert(text@[start + k] == '\n');
        }
    }
    false
}

/// The body of an alternative-syntax statement (`declare (...): ...
/// enddeclare;`): a colon, the statements (indented on their own lines, or
/// after a space when the first closes the PHP tag), then the dangling
/// comments if any, else a hard line (a space after an opening tag), the end
/// keyword and the terminator, in a group forced to break.
pub fn print_colon_delimited_body(
    f: &mut FormatterState,
    statements: &Vec<Statement>,
    end_keyword: &str,
    terminator: &str,
    dangling_comments: Option<Document>,
) -> (r: Document)
    ensures
        final(f).positions@ == old(f).positions@,
        final(f).settings == old(f).settings,
        final(f).php_version == old(f).php_version,
        r matches Document::Group(v, b, id) && b && id is None && v@.len() == if statements@.len()
            == 0 {
            4int
        } else {
            5int
        } && text_is(v@[0], seq![':']) && text_is(v@[v@.len() - 2], end_keyword@) && text_is(
            v@[v@.len() - 1],
            terminator@,
        ) && (statements@.len() > 0 ==> if statements@[0] is ClosingTag {
            v@[1] matches Document::Concat(w) && w@.len() == 2 * statements@.len() && is_space(w@[0])
        } else {
            v@[1] matches Document::Indent(w) && w@.len() == 2 * statements@.len() && w@[0]
                == Document::Line(LineKind::Hard)
        }) && v@[v@.len() - 3] == match dangling_comments {
            Some(d) => d,
            None => if statements@.len() > 0 && statements@.last() is OpeningTag {
                v@[v@.len() - 3]
            } else {
                Document::Line(LineKind::Hard)
            },
        } && (dangling_comments is None && statements@.len() > 0 && statements@.last() is OpeningTag
            ==> is_space(v@[v@.len() - 3])),
{
    proof {
        reveal_strlit(":");
    }
    let mut parts: Vec<Document> = Vec::new();
    parts.push(Document::text(":"));
    proof {
        assert(":"@ =~= seq![':']);
    }
    let printed = print_statement_sequence(f, statements);
    if printed.len() > 0 {
        let mut block: Vec<Document> = Vec::new();
        if let Statement::ClosingTag = &statements[0] {
            block.push(Document::space());
        } else {
            block.push(Document::Line(LineKind::Hard));
        }
        let mut rest = printed;
        block.append(&mut rest);
        if let Statement::ClosingTag = &statements[0] {
            parts.push(Document::Concat(block));
        } else {
            parts.push(Document::Indent(block));
        }
    }
    let n = statements.len();
    match dangling_comments {
        Some(d) => parts.push(d),
        None => {
            if n > 0 && matches!(&statements[n - 1], Statement::OpeningTag) {
                parts.push(Document::space());
            } else {
                parts.push(Document::Line(LineKind::Hard));
            }
        },
    }
    parts.push(Document::text(end_keyword));
    parts.push(Document::text(terminator));
    Document::Group(parts, true, None)
}

} // verus!
