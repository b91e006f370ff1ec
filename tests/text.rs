use catalog_sync::casing::{class_name, dash_separators, mdx_filename, page_filename};
use catalog_sync::front_matter::{layout_for, push_field, push_optional_field};
use catalog_sync::matrixto::{class_module_text, index_text, unique_texts};
use catalog_sync::text::{push_bool, push_decimal, push_joined};

#[test]
fn decimal_text_of_integers() {
    for (n, text) in [(0, "0"), (7, "7"), (10, "10"), (-45, "-45"), (i32::MAX, "2147483647")] {
        let mut s = String::from("n=");
        push_decimal(&mut s, n);
        assert_eq!(s, format!("n={text}"));
    }
}

#[test]
fn booleans_and_joins() {
    let mut s = String::new();
    push_bool(&mut s, true);
    push_bool(&mut s, false);
    assert_eq!(s, "truefalse");
    let mut j = String::from("[");
    push_joined(&mut j, &vec!["a".to_string(), "b".to_string(), "c".to_string()], ", ");
    assert_eq!(j, "[a, b, c");
    let mut e = String::new();
    push_joined(&mut e, &vec![], ", ");
    assert_eq!(e, "");
}

#[test]
fn separators_become_hyphens() {
    assert_eq!(dash_separators("a/b\\c.d", false), "a-b-c.d");
    assert_eq!(dash_separators("a/b\\c.d", true), "a-b-c-d");
    assert_eq!(dash_separators("", true), "");
    assert_eq!(mdx_filename("stem".to_string()), "stem.mdx");
    assert_eq!(page_filename("Element Web/Desktop"), "element-web-desktop.mdx");
    assert_eq!(class_name("schildi.chat"), "SchildiChat");
}

#[test]
fn fields_and_layouts() {
    let mut s = String::new();
    push_field(&mut s, "title", "T");
    push_optional_field(&mut s, "home", &None);
    push_optional_field(&mut s, "repo", &Some("R".to_string()));
    assert_eq!(s, "title: T\nrepo: R\n");
    assert_eq!(layout_for(&None), "project");
    assert_eq!(layout_for(&Some("i".to_string())), "projectimage");
}

#[test]
fn unique_texts_keep_first_occurrences() {
    let names = vec!["B", "A", "B", "C", "A"].into_iter().map(String::from).collect();
    assert_eq!(unique_texts(&names), vec!["B", "A", "C"]);
}

#[test]
fn index_and_class_module_texts() {
    let index = index_text(&vec!["One".to_string(), "Two".to_string()]);
    assert!(index.ends_with(
        "*/\n\nimport {One} from \"./One.js\";\nimport {Two} from \"./Two.js\";\n\n\
        export function createClients() {\n    return [\n        new One(),\n        new Two()\n    ];\n}"
    ));
    let empty = index_text(&vec![]);
    assert!(empty.ends_with("*/\n\n\n\nexport function createClients() {\n    return [\n        \n    ];\n}"));
    let module = class_module_text("Nheko");
    assert!(module.contains("import {data} from \"./Nheko-data.js\";\n\nexport class Nheko extends Client {"));
}
