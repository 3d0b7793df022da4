use luadoc::render::{document_lines, render_classes};
use luadoc::scanner::scan_lines;

fn lines(src: &[&str]) -> Vec<String> {
    src.iter().map(|l| l.to_string()).collect()
}

#[test]
fn renders_fields_and_methods_tables() {
    let src = lines(&[
        "---@class Timer",
        "--- Seconds left.",
        "---@field left? number",
        "--- Time still to go,",
        "--- scaled.",
        "---@param scale number",
        "---@param unit string",
        "---@return number",
        "---@return string",
        "function Timer:remaining(scale, unit)",
        "function Timer.new()",
    ]);
    let expected = "## Timer\n\n\
### Fields\n\n\
| Name | Type | Description |\n\
| --- | --- | --- |\n\
| left? | number | Seconds left. |\n\n\
### Methods\n\n\
| Name | Params | Returns | Description |\n\
| --- | --- | --- | --- |\n\
| :remaining | scale: number, unit: string | number, string | Time still to go, scaled. |\n\
| .new |  |  |  |\n\n";
    assert_eq!(document_lines(&src), expected);
}

#[test]
fn empty_sections_are_left_out() {
    let src = lines(&["---@class Empty", "---@class OnlyField", "---@field a integer"]);
    let expected = "## Empty\n\n\
## OnlyField\n\n\
### Fields\n\n\
| Name | Type | Description |\n\
| --- | --- | --- |\n\
| a | integer |  |\n\n";
    assert_eq!(document_lines(&src), expected);
}

#[test]
fn blocks_follow_class_order() {
    let classes = scan_lines(&lines(&["---@class B", "---@class A"]));
    assert_eq!(render_classes(&classes), "## B\n\n## A\n\n");
    assert_eq!(classes[0].render(), "## B\n\n");
}
