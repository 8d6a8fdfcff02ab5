use mago_formatter::document::{Document, LineKind};
use mago_formatter::printer::print_document;

fn text(s: &str) -> Document {
    Document::Text(s.to_string())
}

#[test]
fn hard_line_three_groups_deep_breaks_all_three() {
    let inner = Document::Group(vec![text("c"), Document::Line(LineKind::Default), text("d"), Document::Line(LineKind::Hard), text("e")], false, None);
    let middle = Document::Group(vec![text("b"), Document::Line(LineKind::Default), inner], false, None);
    let outer = Document::Group(vec![text("a"), Document::Line(LineKind::Default), middle], false, None);
    assert_eq!(print_document(&outer, 80, 4), "a\nb\nc\nd\ne");
}

#[test]
fn group_that_fits_stays_flat() {
    let doc = Document::Group(vec![text("a"), Document::Line(LineKind::Default), text("b")], false, None);
    assert_eq!(print_document(&doc, 80, 4), "a b");
}

#[test]
fn forced_group_breaks_although_it_fits() {
    let doc = Document::Group(vec![text("a"), Document::Line(LineKind::Soft), text("b")], true, None);
    assert_eq!(print_document(&doc, 80, 4), "a\nb");
}

#[test]
fn break_parent_breaks_enclosing_groups() {
    let inner = Document::Group(vec![text("x"), Document::BreakParent], false, None);
    let doc = Document::Group(vec![text("a"), Document::Line(LineKind::Default), inner], false, None);
    assert_eq!(print_document(&doc, 80, 4), "a\nx");
}

#[test]
fn fill_breaks_only_where_it_overflows() {
    let mut parts = Vec::new();
    for (i, w) in ["aaa", "bbb", "ccc", "ddd", "eee"].iter().enumerate() {
        if i > 0 {
            parts.push(Document::Line(LineKind::Default));
        }
        parts.push(text(w));
    }
    let doc = Document::Fill(parts);
    assert_eq!(print_document(&doc, 8, 4), "aaa bbb\nccc ddd\neee");
}

#[test]
fn indentation_follows_levels_and_unit() {
    let doc = Document::Concat(vec![
        text("{"),
        Document::Indent(vec![Document::Line(LineKind::Hard), text("x;")]),
        Document::Line(LineKind::Hard),
        text("}"),
    ]);
    assert_eq!(print_document(&doc, 80, 2), "{\n  x;\n}");
}

#[test]
fn trailing_spaces_are_trimmed_before_a_newline() {
    let doc = Document::Concat(vec![text("a"), text(" "), Document::Line(LineKind::Hard), text("b")]);
    assert_eq!(print_document(&doc, 80, 4), "a\nb");
}

#[test]
fn literal_line_has_no_indentation() {
    let doc = Document::Indent(vec![text("a"), Document::Line(LineKind::Literal), text("b")]);
    assert_eq!(print_document(&doc, 80, 4), "a\nb");
}

#[test]
fn indent_if_break_follows_the_referenced_group() {
    let group = Document::Group(vec![text("aaaa"), Document::Line(LineKind::Soft), text("bbbb")], false, Some(7));
    let tail = Document::IndentIfBreak(vec![Document::Line(LineKind::Hard), text("c")], Some(7));
    let doc = Document::Concat(vec![group, tail]);
    assert_eq!(print_document(&doc, 6, 4), "aaaa\nbbbb\n    c");
    let group = Document::Group(vec![text("aa"), Document::Line(LineKind::Soft), text("bb")], false, Some(7));
    let tail = Document::IndentIfBreak(vec![Document::Line(LineKind::Hard), text("c")], Some(7));
    let doc = Document::Concat(vec![group, tail]);
    assert_eq!(print_document(&doc, 80, 4), "aabb\nc");
}

#[test]
fn text_width_counts_characters() {
    let doc = Document::Group(vec![text("ééé"), Document::Line(LineKind::Default), text("ü")], false, None);
    assert_eq!(print_document(&doc, 5, 4), "ééé ü");
}
