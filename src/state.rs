use vstd::prelude::*;

use crate::ast::CallKind;
use crate::operator::BinaryOperator;

verus! {

#[derive(Clone, Copy, Debug, PartialEq, Eq, Structural)]
pub enum BraceStyle {
    SameLine,
    NextLine,
}

/// Style settings of one formatting run.
#[derive(Clone, Copy, Debug, PartialEq, Eq, Structural)]
pub struct Settings {
    pub print_width: usize,
    pub indent_size: usize,
    pub control_brace_style: BraceStyle,
    pub inline_empty_control_braces: bool,
    pub static_before_visibility: bool,
    pub space_within_grouping_parenthesis: bool,
    pub parentheses_in_new_expression: bool,
    pub parentheses_around_new_in_member_access: bool,
}

/// The PHP version the output targets.
#[derive(Clone, Copy, Debug, PartialEq, Eq, Structural)]
pub struct PhpVersion {
    pub major: u8,
    pub minor: u8,
}

/// `new Foo()->bar()` without parentheses around the instantiation is legal
/// from PHP 8.4 on.
pub open spec fn new_without_parentheses(v: PhpVersion) -> bool {
    v.major > 8 || (v.major == 8 && v.minor >= 4)
}

impl PhpVersion {
    pub fn supports_new_without_parentheses(&self) -> (r: bool)
        ensures
            r == new_without_parentheses(*self),
    {
        self.major > 8 || (self.major == 8 && self.minor >= 4)
    }
}

/// Which operand of a binary operation.
#[derive(Clone, Copy, Debug, PartialEq, Eq, Structural)]
pub enum Side {
    Left,
    Right,
}

/// Where an expression stands in the node that holds it.
#[derive(Clone, Copy, Debug, PartialEq, Eq, Structural)]
pub enum Position {
    /// An operand of a binary operation.
    BinaryOperand(BinaryOperator, Side),
    /// The operand of a prefix or postfix operation.
    UnaryOperand,
    /// A part of a conditional; the flag tells whether it has a `then` part.
    ConditionalOperand(bool),
    AssignmentOperand,
    PipeOperand,
    ArrowFunctionBody,
    /// `...$x` inside an array.
    VariadicElement,
    /// The array of `$array[]`.
    ArrayAppendBase,
    /// The array of `$array[$index]`.
    ArrayAccessBase,
    /// The index of `$array[$index]`.
    ArrayAccessIndex,
    /// The object or class of a property or constant access.
    AccessObject,
    /// What stands before the argument list of a call.
    CallCallee(CallKind),
    /// The class of `new`.
    InstantiationClass,
    /// What stands before `(...)` of a closure creation.
    ClosureCreationTarget(CallKind),
    Argument,
    ArrayElement,
    Parenthesized,
    Statement,
}

/// The state of one formatting run: settings, the target version, and the
/// positions of the ancestors of the node being formatted, innermost last.
pub struct FormatterState {
    pub settings: Settings,
    pub php_version: PhpVersion,
    pub positions: Vec<Position>,
    pub in_condition: bool,
}

/// The position `n` levels up: 0 is where the current node stands, 1 where
/// its parent stands.
pub open spec fn position_at(s: Seq<Position>, n: int) -> Option<Position> {
    if 0 <= n < s.len() {
        Some(s[s.len() - 1 - n])
    } else {
        None
    }
}

impl FormatterState {
    pub fn new(settings: Settings, php_version: PhpVersion) -> (r: FormatterState)
        ensures
            r.settings == settings,
            r.php_version == php_version,
            r.positions@.len() == 0,
            !r.in_condition,
    {
        FormatterState { settings, php_version, positions: Vec::new(), in_condition: false }
    }

    pub fn position(&self, n: usize) -> (r: Option<Position>)
        ensures
            r == position_at(self.positions@, n as int),
    {
        let len = self.positions.len();
        if n < len {
            Some(self.positions[len - 1 - n])
        } else {
            None
        }
    }

    /// Enters a node that stands at `p`.
    pub fn enter(&mut self, p: Position)
        ensures
            final(self).positions@ == old(self).positions@.push(p),
            final(self).settings == old(self).settings,
            final(self).php_version == old(self).php_version,
            final(self).in_condition == old(self).in_condition,
    {
        self.positions.push(p);
    }

    /// Leaves the node entered last; nothing to leave leaves the state as it is.
    pub fn leave(&mut self)
        ensures
            old(self).positions@.len() > 0 ==> final(self).positions@ == old(
                self,
            ).positions@.drop_last(),
            old(self).positions@.len() == 0 ==> final(self).positions@ == old(self).positions@,
            final(self).settings == old(self).settings,
            final(self).php_version == old(self).php_version,
            final(self).in_condition == old(self).in_condition,
    {
        if self.positions.len() > 0 {
            self.positions.pop();
        }
    }
}

} // verus!
