use luadoc::model::ClassDoc;
use luadoc::render::document_lines;
use luadoc::scanner::{scan_lines, Scanner};

fn lines(src: &[&str]) -> Vec<String> {
    src.iter().map(|l| l.to_string()).collect()
}

fn scan(src: &[&str]) -> Vec<ClassDoc> {
    scan_lines(&lines(src))
}

#[test]
fn no_markers_no_blocks() {
    let src = ["local x = 1", "-- an ordinary comment", "", "print(x)"];
    assert!(scan(&src).is_empty());
    assert_eq!(document_lines(&lines(&src)), "");
}

#[test]
fn empty_file_no_blocks() {
    assert!(scan(&[]).is_empty());
    assert_eq!(document_lines(&Vec::new()), "");
}

#[test]
fn doc_and_params_without_class_give_nothing() {
    let src = ["--- Some text", "---@param x number", "---@field a string", "function M.f()"];
    assert!(scan(&src).is_empty());
}

#[test]
fn class_marker_closes_previous_class() {
    let src = ["---@class A", "---@field x number", "---@class B", "---@class C", "---@field y string"];
    let cs = scan(&src);
    let names: Vec<&str> = cs.iter().map(|c| c.name.as_str()).collect();
    assert_eq!(names, vec!["A", "B", "C"]);
    assert_eq!(cs[0].fields.len(), 1);
    assert_eq!(cs[0].fields[0].name, "x");
    assert!(cs[1].fields.is_empty());
    assert_eq!(cs[2].fields[0].name, "y");
}

#[test]
fn blank_line_severs_doc_from_field() {
    let src = ["---@class Foo", "--- Does X", "", "@field a? string"];
    let cs = scan(&src);
    assert_eq!(cs.len(), 1);
    let f = &cs[0].fields[0];
    assert_eq!(f.name, "a");
    assert!(f.optional);
    assert_eq!(f.ty, "string");
    assert!(f.doc.is_empty());
}

#[test]
fn contiguous_doc_lines_attach_to_field() {
    let src = ["---@class Foo", "--- Does X", "---", "---   and Y  ", "---@field a string"];
    let cs = scan(&src);
    assert_eq!(cs[0].fields[0].doc, vec!["Does X".to_string(), "and Y".to_string()]);
}

#[test]
fn params_and_returns_attach_to_next_signature_only() {
    let src = ["---@class Foo", "@param x number", "@return boolean", "function Foo.bar", "function Foo.baz"];
    let cs = scan(&src);
    let ms = &cs[0].methods;
    assert_eq!(ms.len(), 2);
    assert_eq!(ms[0].name, "bar");
    assert_eq!(ms[0].params.len(), 1);
    assert_eq!(ms[0].params[0].name, "x");
    assert_eq!(ms[0].params[0].ty, "number");
    assert_eq!(ms[0].returns, vec!["boolean".to_string()]);
    assert_eq!(ms[1].name, "baz");
    assert!(ms[1].params.is_empty());
    assert!(ms[1].returns.is_empty());
}

#[test]
fn code_line_clears_pending_params() {
    let src = ["---@class Foo", "---@param x number", "local y = 2", "function Foo.bar()"];
    let cs = scan(&src);
    assert!(cs[0].methods[0].params.is_empty());
}

#[test]
fn pending_params_survive_class_marker() {
    let src = ["---@param x number", "---@class Foo", "function Foo.bar()"];
    let cs = scan(&src);
    assert_eq!(cs[0].methods[0].params.len(), 1);
    assert_eq!(cs[0].methods[0].params[0].name, "x");
}

#[test]
fn field_optionality() {
    let src = ["---@class P", "@field x? string", "@field y string"];
    let cs = scan(&src);
    let fs = &cs[0].fields;
    assert_eq!(fs[0].name, "x");
    assert!(fs[0].optional);
    assert_eq!(fs[0].ty, "string");
    assert_eq!(fs[1].name, "y");
    assert!(!fs[1].optional);
    assert_eq!(fs[1].ty, "string");
}

#[test]
fn instance_and_static_methods() {
    let src = ["---@class Timer", "function Timer:remaining()", "function Timer.new()"];
    let cs = scan(&src);
    assert!(cs[0].methods[0].is_instance);
    assert_eq!(cs[0].methods[0].name, "remaining");
    assert!(!cs[0].methods[1].is_instance);
    assert_eq!(cs[0].methods[1].name, "new");
    let text = cs[0].render();
    assert!(text.contains("| :remaining |"));
    assert!(text.contains("| .new |"));
}

#[test]
fn same_lines_same_output() {
    let src = lines(&["---@class A", "--- doc", "---@field x number", "function A:f()"]);
    let first = document_lines(&src);
    let second = document_lines(&src);
    assert_eq!(first, second);
    assert!(!first.is_empty());
}

#[test]
fn fields_and_methods_keep_source_order() {
    let src = [
        "---@class Q",
        "---@field zeta number",
        "function Q.push()",
        "---@field alpha string",
        "function Q:pop()",
        "---@field mid boolean",
        "function Q.clear()",
    ];
    let cs = scan(&src);
    let fields: Vec<&str> = cs[0].fields.iter().map(|f| f.name.as_str()).collect();
    let methods: Vec<&str> = cs[0].methods.iter().map(|m| m.name.as_str()).collect();
    assert_eq!(fields, vec!["zeta", "alpha", "mid"]);
    assert_eq!(methods, vec!["push", "pop", "clear"]);
}

#[test]
fn scanner_fed_by_hand() {
    let mut sc = Scanner::new();
    for l in ["---@class S", "--- Size.", "---@field n integer"] {
        sc = sc.feed(l);
    }
    let cs = sc.finish();
    assert_eq!(cs.len(), 1);
    assert_eq!(cs[0].fields[0].doc, vec!["Size.".to_string()]);
}
