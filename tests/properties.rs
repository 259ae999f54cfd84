use winit_loop::enum_docs::{enum_section_markdown, EnumDoc, EnumValueDoc};
use winit_loop::properties::{compare_names, NameOrder, PropertyInformation};
use winit_loop::{insert_property_definition_range, to_kebab_case};

fn prop(name: &str) -> PropertyInformation {
    PropertyInformation { name: name.to_string(), property_type: "bool".to_string(), declared_at: None, defined_at: None }
}

#[test]
fn kebab_case_of_enum_values() {
    assert_eq!(to_kebab_case("TextHorizontalAlignment"), "text-horizontal-alignment");
    assert_eq!(to_kebab_case("Left"), "left");
    assert_eq!(to_kebab_case("already"), "already");
    assert_eq!(to_kebab_case(""), "");
    assert_eq!(to_kebab_case("ABC"), "a-b-c");
}

#[test]
fn names_compare_as_str() {
    assert_eq!(compare_names("abc", "abd"), NameOrder::Less);
    assert_eq!(compare_names("ab", "abc"), NameOrder::Less);
    assert_eq!(compare_names("b", "abc"), NameOrder::Greater);
    assert_eq!(compare_names("x-y", "x-y"), NameOrder::Equal);
    assert_eq!(compare_names("", ""), NameOrder::Equal);
}

#[test]
fn definition_range_goes_to_named_property() {
    let mut props = vec![prop("accessible-role"), prop("height"), prop("no-frame"), prop("width"), prop("x")];
    insert_property_definition_range("no-frame", &mut props, (10, 18));
    insert_property_definition_range("x", &mut props, (1, 2));
    insert_property_definition_range("accessible-role", &mut props, (0, 5));
    let ranges: Vec<Option<(u32, u32)>> = props.iter().map(|p| p.defined_at).collect();
    assert_eq!(ranges, vec![Some((0, 5)), None, Some((10, 18)), None, Some((1, 2))]);
}

#[test]
fn enum_section_lists_values_in_kebab_case() {
    let e = EnumDoc {
        name: "TextWrap".to_string(),
        docs: vec![" How text wraps.".to_string()],
        values: vec![
            EnumValueDoc { name: "NoWrap".to_string(), docs: vec![" Never.".to_string(), " Not at all.".to_string()] },
            EnumValueDoc { name: "WordWrap".to_string(), docs: vec![] },
        ],
    };
    assert_eq!(
        enum_section_markdown(&e),
        "## `TextWrap`\n\n How text wraps.\n\n* **`no-wrap`**: Never.\n    Not at all.\n* **`word-wrap`**:\n\n"
    );
}
