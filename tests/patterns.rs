use luadoc::pattern::{classify_line, Marker};

#[test]
fn class_marker_with_namespace() {
    match classify_line("  ---@class ui.Button : Widget") {
        Marker::Class { name } => assert_eq!(name, "ui.Button"),
        m => panic!("unexpected {:?}", m),
    }
}

#[test]
fn class_keyword_needs_space() {
    assert!(matches!(classify_line("---@classy Foo"), Marker::Doc { .. }));
    assert!(matches!(classify_line("@classy Foo"), Marker::Other));
}

#[test]
fn field_marker_free_text_type() {
    match classify_line("---@field cb? fun(x: integer): boolean  ") {
        Marker::Field { name, optional, ty } => {
            assert_eq!(name, "cb");
            assert!(optional);
            assert_eq!(ty, "fun(x: integer): boolean");
        }
        m => panic!("unexpected {:?}", m),
    }
}

#[test]
fn field_without_type_is_no_marker() {
    assert!(matches!(classify_line("@field x"), Marker::Other));
}

#[test]
fn param_drops_question_mark() {
    match classify_line("--- @param count? integer") {
        Marker::Param { name, ty } => {
            assert_eq!(name, "count");
            assert_eq!(ty, "integer");
        }
        m => panic!("unexpected {:?}", m),
    }
}

#[test]
fn return_marker() {
    match classify_line("---@return string|nil") {
        Marker::Return { ty } => assert_eq!(ty, "string|nil"),
        m => panic!("unexpected {:?}", m),
    }
}

#[test]
fn signature_markers() {
    match classify_line("function Timer:remaining(self)") {
        Marker::Signature { name, is_instance } => {
            assert_eq!(name, "remaining");
            assert!(is_instance);
        }
        m => panic!("unexpected {:?}", m),
    }
    match classify_line("\tfunction a.b.new()") {
        Marker::Signature { name, is_instance } => {
            assert_eq!(name, "new");
            assert!(!is_instance);
        }
        m => panic!("unexpected {:?}", m),
    }
}

#[test]
fn plain_functions_are_no_signature() {
    assert!(matches!(classify_line("function helper()"), Marker::Other));
    assert!(matches!(classify_line("local function f.g()"), Marker::Other));
    assert!(matches!(classify_line("functional.x()"), Marker::Other));
}

#[test]
fn doc_comment_lines() {
    match classify_line("-----   Hello there  ") {
        Marker::Doc { text } => assert_eq!(text, "Hello there"),
        m => panic!("unexpected {:?}", m),
    }
    match classify_line("---") {
        Marker::Doc { text } => assert_eq!(text, ""),
        m => panic!("unexpected {:?}", m),
    }
    assert!(matches!(classify_line("-- two dashes"), Marker::Other));
    assert!(matches!(classify_line("   "), Marker::Other));
}
