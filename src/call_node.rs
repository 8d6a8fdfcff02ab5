use vstd::prelude::*;

use crate::ast::{Argument, CallKind, DieConstruct, ExitConstruct, Expression};
use crate::document::{Document, is_space};
use crate::format::{
    call_arguments_shape, expression_shape, format_expression, member, member_text, print_call_arguments,
};
use crate::parens::text_is;
use crate::misc::Attribute;
use crate::state::{FormatterState, PhpVersion, Position, Settings};

verus! {

/// The nodes that end in an argument list.
pub enum CallLikeNode<'a> {
    /// A call: its kind, callee, method name and arguments.
    Call(CallKind, &'a Expression, &'a String, &'a Vec<Argument>),
    /// `new`: the class and the arguments, if any.
    Instantiation(&'a Expression, &'a Option<Vec<Argument>>),
    Attribute(&'a Attribute),
    DieConstruct(&'a DieConstruct),
    ExitConstruct(&'a ExitConstruct),
}

impl<'a> CallLikeNode<'a> {
    pub fn is_instantiation(&self) -> (r: bool)
        ensures
            r == (*self is Instantiation),
    {
        matches!(self, CallLikeNode::Instantiation(..))
    }

    pub fn is_exit_or_die_construct(&self) -> (r: bool)
        ensures
            r == (*self is DieConstruct || *self is ExitConstruct),
    {
        matches!(self, CallLikeNode::DieConstruct(_) | CallLikeNode::ExitConstruct(_))
    }

    pub fn is_attribute(&self) -> (r: bool)
        ensures
            r == (*self is Attribute),
    {
        matches!(self, CallLikeNode::Attribute(_))
    }

    /// The argument list; a call always has one.
    pub fn arguments(&self) -> (r: Option<&'a Vec<Argument>>)
        ensures
            match *self {
                CallLikeNode::Call(_, _, _, a) => r == Some(a),
                CallLikeNode::Instantiation(_, a) => r == match *a {
                    Some(v) => Some(&v),
                    None => None,
                },
                CallLikeNode::Attribute(a) => r == match a.arguments {
                    Some(v) => Some(&v),
                    None => None,
                },
                CallLikeNode::DieConstruct(d) => r == match d.arguments {
                    Some(v) => Some(&v),
                    None => None,
                },
                CallLikeNode::ExitConstruct(e) => r == match e.arguments {
                    Some(v) => Some(&v),
                    None => None,
                },
            },
    {
        match self {
            CallLikeNode::Call(_, _, _, a) => Some(*a),
            CallLikeNode::Instantiation(_, a) => a.as_ref(),
            CallLikeNode::Attribute(a) => a.arguments.as_ref(),
            CallLikeNode::DieConstruct(d) => d.arguments.as_ref(),
            CallLikeNode::ExitConstruct(e) => e.arguments.as_ref(),
        }
    }
}

/// `r` ends in the argument list `arguments` as `print_call_arguments`
/// builds it, at index `k`; with no list the group ends at `k`, or holds
/// `()` there for an instantiation when the settings ask for it.
pub open spec fn ends_in_arguments(
    v: Seq<Document>,
    k: int,
    arguments: Option<Vec<Argument>>,
    instantiation: bool,
    settings: Settings,
) -> bool {
    match arguments {
        Some(a) => v.len() == k + 1 && call_arguments_shape(v[k], a@),
        None => if instantiation && settings.parentheses_in_new_expression {
            v.len() == k + 1 && text_is(v[k], "()"@)
        } else {
            v.len() == k
        },
    }
}

/// `r` is the document of a call-like node: a group of what stands before
/// the arguments (the callee lowered at its position, the member and the
/// method name; `new`, a space and the class; the attribute name; `die` or
/// `exit`) followed by the argument list.
pub open spec fn call_like_shape(
    r: Document,
    node: CallLikeNode,
    s: Seq<Position>,
    settings: Settings,
    version: PhpVersion,
) -> bool {
    r matches Document::Group(v, b, id) && !b && id is None && match node {
        CallLikeNode::Call(kind, callee, name, arguments) => expression_shape(
            v@[0],
            *callee,
            s.push(Position::CallCallee(kind)),
            settings,
            version,
        ) && text_is(v@[1], member_text(kind)) && text_is(v@[2], name@) && ends_in_arguments(
            v@,
            3,
            Some(*arguments),
            false,
            settings,
        ),
        CallLikeNode::Instantiation(class, arguments) => text_is(v@[0], "new"@) && is_space(v@[1])
            && expression_shape(v@[2], *class, s.push(Position::InstantiationClass), settings, version)
            && ends_in_arguments(v@, 3, *arguments, true, settings),
        CallLikeNode::Attribute(a) => text_is(v@[0], a.name@) && ends_in_arguments(
            v@,
            1,
            a.arguments,
            false,
            settings,
        ),
        CallLikeNode::DieConstruct(d) => text_is(v@[0], "die"@) && ends_in_arguments(
            v@,
            1,
            d.arguments,
            false,
            settings,
        ),
        CallLikeNode::ExitConstruct(e) => text_is(v@[0], "exit"@) && ends_in_arguments(
            v@,
            1,
            e.arguments,
            false,
            settings,
        ),
    }
}

fn push_arguments(
    f: &mut FormatterState,
    parts: &mut Vec<Document>,
    arguments: &Option<Vec<Argument>>,
    instantiation: bool,
)
    ensures
        final(f).positions@ == old(f).positions@,
        final(f).settings == old(f).settings,
        final(f).php_version == old(f).php_version,
        final(parts)@.subrange(0, old(parts)@.len() as int) == old(parts)@,
        ends_in_arguments(final(parts)@, old(parts)@.len() as int, *arguments, instantiation, old(f).settings),
{
    let ghost before = parts@;
    match arguments {
        Some(a) => {
            let args = print_call_arguments(f, a);
            parts.push(args);
        },
        None => {
            if instantiation && f.settings.parentheses_in_new_expression {
                parts.push(Document::text("()"));
            }
        },
    }
    proof {
        assert(parts@.subrange(0, before.len() as int) =~= before);
    }
}

/// Lowers a call-like node: see `call_like_shape`.
pub fn print_call_like_node(f: &mut FormatterState, node: CallLikeNode) -> (r: Document)
    ensures
        final(f).positions@ == old(f).positions@,
        final(f).settings == old(f).settings,
        final(f).php_version == old(f).php_version,
        call_like_shape(r, node, old(f).positions@, old(f).settings, old(f).php_version),
{
    let ghost s = f.positions@;
    let mut parts: Vec<Document> = Vec::new();
    match node {
        CallLikeNode::Call(kind, callee, name, arguments) => {
            f.enter(Position::CallCallee(kind));
            let d = format_expression(f, callee);
            f.leave();
            parts.push(d);
            parts.push(Document::text(member(kind)));
            parts.push(Document::Text(name.clone()));
            let ghost head = parts@;
            let args = print_call_arguments(f, arguments);
            parts.push(args);
            proof {
                assert(parts@[0] == head[0] && parts@[1] == head[1] && parts@[2] == head[2]);
            }
        },
        CallLikeNode::Instantiation(class, arguments) => {
            parts.push(Document::text("new"));
            parts.push(Document::space());
            f.enter(Position::InstantiationClass);
            let d = format_expression(f, class);
            f.leave();
            parts.push(d);
            push_arguments(f, &mut parts, arguments, true);
            proof {
                assert(parts@[0] == parts@.subrange(0, 3)[0]);
                assert(parts@[1] == parts@.subrange(0, 3)[1]);
                assert(parts@[2] == parts@.subrange(0, 3)[2]);
            }
        },
        CallLikeNode::Attribute(a) => {
            parts.push(Document::Text(a.name.clone()));
            push_arguments(f, &mut parts, &a.arguments, false);
            proof {
                assert(parts@[0] == parts@.subrange(0, 1)[0]);
            }
        },
        CallLikeNode::DieConstruct(d) => {
            parts.push(Document::text("die"));
            push_arguments(f, &mut parts, &d.arguments, false);
            proof {
                assert(parts@[0] == parts@.subrange(0, 1)[0]);
            }
        },
        CallLikeNode::ExitConstruct(e) => {
            parts.push(Document::text("exit"));
            push_arguments(f, &mut parts, &e.arguments, false);
            proof {
                assert(parts@[0] == parts@.subrange(0, 1)[0]);
            }
        },
    }
    Document::Group(parts, false, None)
}

} // verus!
