use vstd::prelude::*;

use crate::ast::{AccessKind, Argument, CallKind, Expression, Literal};
use crate::operator::BinaryOperator;

verus! {

/// Literals, names, variables, `static`/`self`/`parent`, class constants, and
/// prefix or binary operations over such, with any parentheses.
pub open spec fn simple(e: Expression) -> bool
    decreases e,
{
    match e {
        Expression::Parenthesized(inner) => simple(*inner),
        Expression::Commented(inner, _, _) => simple(*inner),
        Expression::UnaryPrefix(_, inner) => simple(*inner),
        Expression::Binary(l, _, r) => simple(*l) && simple(*r),
        Expression::Access(k, _, _) => k == AccessKind::ClassConstant,
        Expression::Static | Expression::Parent | Expression::Self_ | Expression::MagicConstant(_)
        | Expression::Literal(_) | Expression::Identifier(_) | Expression::ConstantAccess(_)
        | Expression::Variable(_) => true,
        _ => false,
    }
}

/// Number of method calls along the chain of objects that ends in `e`.
pub open spec fn chain_calls(e: Expression) -> nat
    decreases e,
{
    match e {
        Expression::Call(k, object, _, _) => if k == CallKind::Method || k == CallKind::NullSafeMethod {
            1 + chain_calls(*object)
        } else {
            0
        },
        Expression::Access(k, object, _) => if k == AccessKind::Property || k
            == AccessKind::NullSafeProperty {
            chain_calls(*object)
        } else {
            0
        },
        _ => 0,
    }
}

/// A chain of member accesses with three method calls or more is printed as
/// a fluent chain, one call per line when it breaks.
pub open spec fn fluent_chain(e: Expression) -> bool {
    chain_calls(e) >= 3
}

pub open spec fn all_named(a: Seq<Argument>) -> bool {
    forall|i: int| 0 <= i < a.len() ==> (#[trigger] a[i]) is Named
}

pub open spec fn all_positional_simple(a: Seq<Argument>) -> bool {
    forall|i: int|
        0 <= i < a.len() ==> (#[trigger] a[i] matches Argument::Positional(_, v) && simple(v))
}

/// Whether an expression can sit right against the brackets around it,
/// without a break of its own; `in_arrow` is set inside the body of an arrow
/// function, whose body cannot hug another arrow function.
pub open spec fn huggable(e: Expression, in_arrow: bool) -> bool
    decreases e,
{
    match e {
        Expression::Parenthesized(inner) => huggable(*inner, in_arrow),
        Expression::UnaryPrefix(_, inner) => huggable(*inner, in_arrow),
        Expression::Commented(inner, leading, trailing) => leading is None && trailing is None
            && huggable(*inner, in_arrow),
        Expression::Call(..) | Expression::Access(..) => !fluent_chain(e),
        Expression::ArrowFunction(_, body) => !in_arrow && huggable(*body, true),
        Expression::Binary(l, op, r) => if simple(*l) && simple(*r) {
            true
        } else if op == BinaryOperator::StringConcat {
            (simple(*l) && huggable(*r, in_arrow)) || (simple(*r) && huggable(*l, in_arrow))
        } else {
            false
        },
        Expression::Instantiation(class, arguments) => *class is Identifier && match arguments {
            None => true,
            Some(a) => if a@.len() == 0 {
                true
            } else {
                ||| all_named(a@)
                ||| (a@.len() < 4 && all_positional_simple(a@))
                ||| (a@.len() == 1 && match a@[0] {
                    Argument::Named(..) => false,
                    Argument::Positional(_, v) => v is Instantiation || huggable(v, in_arrow),
                })
            },
        },
        Expression::Array(_) | Expression::LegacyArray(_) | Expression::List(_)
        | Expression::Closure(..) | Expression::ClosureCreation(..) | Expression::AnonymousClass(_)
        | Expression::Match(..) => true,
        _ => false,
    }
}

/// Words that print as a plain word: `static`, `self`, `parent`, magic
/// constants, unqualified names and constants, and direct variables.
pub open spec fn string_word(e: Expression) -> bool {
    match e {
        Expression::Static | Expression::Parent | Expression::Self_ | Expression::MagicConstant(_)
        | Expression::Variable(_) => true,
        Expression::Identifier(n) => !n@.contains('\\'),
        Expression::ConstantAccess(n) => !n@.contains('\\'),
        _ => false,
    }
}

pub fn is_simple_expression(node: &Expression) -> (r: bool)
    ensures
        r == simple(*node),
    decreases node,
{
    match node {
        Expression::Parenthesized(inner) => is_simple_expression(inner),
        Expression::Commented(inner, _, _) => is_simple_expression(inner),
        Expression::UnaryPrefix(_, inner) => is_simple_expression(inner),
        Expression::Binary(l, _, r) => is_simple_expression(l) && is_simple_expression(r),
        Expression::Access(k, _, _) => *k == AccessKind::ClassConstant,
        _ => matches!(
            node,
            Expression::Static | Expression::Parent | Expression::Self_
                | Expression::MagicConstant(_) | Expression::Literal(_) | Expression::Identifier(_)
                | Expression::ConstantAccess(_) | Expression::Variable(_)
        ),
    }
}

fn chain_call_count(e: &Expression) -> (r: u64)
    ensures
        r == if chain_calls(*e) < 3 {
            chain_calls(*e)
        } else {
            3
        },
    decreases e,
{
    match e {
        Expression::Call(k, object, _, _) => {
            if *k == CallKind::Method || *k == CallKind::NullSafeMethod {
                let n = chain_call_count(object);
                if n < 3 {
                    n + 1
                } else {
                    3
                }
            } else {
                0
            }
        },
        Expression::Access(k, object, _) => {
            if *k == AccessKind::Property || *k == AccessKind::NullSafeProperty {
                chain_call_count(object)
            } else {
                0
            }
        },
        _ => 0,
    }
}

pub fn is_fluent_chain(e: &Expression) -> (r: bool)
    ensures
        r == fluent_chain(*e),
{
    chain_call_count(e) >= 3
}

fn contains_backslash(s: &String) -> (r: bool)
    ensures
        r == s@.contains('\\'),
{
    let n = s.as_str().unicode_len();
    let mut i: usize = 0;
    while i < n
        invariant
            n == s@.len(),
            i <= n,
            forall|j: int| 0 <= j < i ==> s@[j] != '\\',
        decreases n - i,
    {
        if s.as_str().get_char(i) == '\\' {
            return true;
        }
        i = i + 1;
    }
    false
}

pub fn is_string_word_type(node: &Expression) -> (r: bool)
    ensures
        r == string_word(*node),
{
    match node {
        Expression::Static | Expression::Parent | Expression::Self_ | Expression::MagicConstant(_)
        | Expression::Variable(_) => true,
        Expression::Identifier(n) => !contains_backslash(n),
        Expression::ConstantAccess(n) => !contains_backslash(n),
        _ => false,
    }
}

fn arguments_all_named(a: &Vec<Argument>) -> (r: bool)
    ensures
        r == all_named(a@),
{
    let mut i: usize = 0;
    while i < a.len()
        invariant
            i <= a@.len(),
            forall|j: int| 0 <= j < i ==> (#[trigger] a@[j]) is Named,
        decreases a@.len() - i,
    {
        if let Argument::Positional(..) = &a[i] {
            return false;
        }
        i = i + 1;
    }
    true
}

fn arguments_all_positional_simple(a: &Vec<Argument>) -> (r: bool)
    ensures
        r == all_positional_simple(a@),
{
    let mut i: usize = 0;
    while i < a.len()
        invariant
            i <= a@.len(),
            forall|j: int|
                0 <= j < i ==> (#[trigger] a@[j] matches Argument::Positional(_, v) && simple(v)),
        decreases a@.len() - i,
    {
        match &a[i] {
            Argument::Positional(_, v) => {
                if !is_simple_expression(v) {
                    return false;
                }
            },
            Argument::Named(..) => {
                return false;
            },
        }
        i = i + 1;
    }
    true
}

/// Whether `expression` can be printed right against the brackets around
/// it; the comments attached to it are the ones held in the tree.
pub fn should_hug_expression(expression: &Expression, arrow_function_recursion: bool) -> (r: bool)
    ensures
        r == huggable(*expression, arrow_function_recursion),
    decreases expression,
{
    match expression {
        Expression::Parenthesized(inner) => should_hug_expression(inner, arrow_function_recursion),
        Expression::UnaryPrefix(_, inner) => should_hug_expression(inner, arrow_function_recursion),
        Expression::Commented(inner, leading, trailing) => {
            leading.is_none() && trailing.is_none() && should_hug_expression(
                inner,
                arrow_function_recursion,
            )
        },
        Expression::Call(..) | Expression::Access(..) => !is_fluent_chain(expression),
        Expression::ArrowFunction(_, body) => !arrow_function_recursion && should_hug_expression(
            body,
            true,
        ),
        Expression::Binary(l, op, r) => {
            let left_simple = is_simple_expression(l);
            let right_simple = is_simple_expression(r);
            if left_simple && right_simple {
                true
            } else if op.is_concatenation() {
                (left_simple && should_hug_expression(r, arrow_function_recursion)) || (right_simple
                    && should_hug_expression(l, arrow_function_recursion))
            } else {
                false
            }
        },
        Expression::Instantiation(class, arguments) => {
            if !matches!(**class, Expression::Identifier(_)) {
                return false;
            }
            match arguments {
                None => true,
                Some(a) => {
                    let n = a.len();
                    if n == 0 {
                        return true;
                    }
                    if arguments_all_named(a) || (n < 4 && arguments_all_positional_simple(a)) {
                        return true;
                    }
                    if n == 1 {
                        proof {
                            assert(decreases_to!(a => a@[0]));
                        }
                        match &a[0] {
                            Argument::Named(..) => false,
                            Argument::Positional(_, v) => matches!(v, Expression::Instantiation(..))
                                || should_hug_expression(v, arrow_function_recursion),
                        }
                    } else {
                        false
                    }
                },
            }
        },
        _ => matches!(
            expression,
            Expression::Array(_) | Expression::LegacyArray(_) | Expression::List(_)
                | Expression::Closure(..) | Expression::ClosureCreation(..)
                | Expression::AnonymousClass(_) | Expression::Match(..)
        ),
    }
}

} // verus!
