use lumi::lumiml::node::{ElementType, LumiNode};
use lumi::lumiml::parser::{parse, ParseError, Parser};
use lumi::render::{extract_goto, extract_text, RenderOptions};
use lumi::site::{site_index, site_manifest};

#[test]
fn test_parse_simple_page() {
    let code = r#"
        page {
            title "Hello"

            heading {
                text "Welcome to Lumi"
            }

            paragraph {
                text "Privacy-first web."
            }

            button {
                text "Explore"
                goto "lumi://docs.home"
            }
        }
        "#;

    let ast = parse(code).unwrap();
    assert_eq!(ast.element_type, ElementType::Page);
    assert_eq!(ast.children.len(), 4);
    assert_eq!(ast.children[0].element_type, ElementType::Title);
    assert_eq!(
        ast.children[3].children[1].get_attr("goto"),
        Some("lumi://docs.home")
    );
}

#[test]
fn test_element_type_mappings() {
    assert_eq!(ElementType::from_str("page"), ElementType::Page);
    assert_eq!(ElementType::from_str("button"), ElementType::Button);
    assert_eq!(
        ElementType::from_str("custom-widget"),
        ElementType::Custom("custom-widget".to_string())
    );
}

#[test]
fn test_parse_nested_containers_and_codeblock() {
    let code = r#"
        page {
            container {
                row {
                    column {
                        codeblock "fn main() {}"
                        badge "Experimental"
                    }
                }
            }
        }
        "#;

    let ast = parse(code).unwrap();
    assert_eq!(ast.element_type, ElementType::Page);
    let container = &ast.children[0];
    assert_eq!(container.element_type, ElementType::Container);
    let row = &container.children[0];
    assert_eq!(row.element_type, ElementType::Row);
    let col = &row.children[0];
    assert_eq!(col.element_type, ElementType::Column);
    assert_eq!(col.children[0].element_type, ElementType::CodeBlock);
    assert_eq!(col.children[0].value, Some("fn main() {}".to_string()));
    assert_eq!(col.children[1].element_type, ElementType::Badge);
}

#[test]
fn test_parse_malformed_syntax_errors() {
    let bad_code_1 = "page title \"Test\"";
    assert!(matches!(
        parse(bad_code_1),
        Err(ParseError::SyntaxError { .. })
    ));

    let bad_code_2 = "page { title \"Unclosed string }";
    assert!(matches!(
        parse(bad_code_2),
        Err(ParseError::SyntaxError { .. })
    ));

    let bad_code_3 = "page { @invalid }";
    assert!(matches!(
        parse(bad_code_3),
        Err(ParseError::SyntaxError { .. })
    ));

    assert!(matches!(parse(""), Err(ParseError::UnexpectedEof)));
}

fn syntax(r: Result<LumiNode, ParseError>) -> (usize, usize, String) {
    match r {
        Err(ParseError::SyntaxError { line, col, msg }) => (line, col, msg),
        other => panic!("expected a syntax error, got {:?}", other),
    }
}

#[test]
fn error_positions_and_messages() {
    assert_eq!(
        syntax(parse("page title \"Test\"")),
        (1, 11, "Expected '{' after 'page'".to_string())
    );
    assert_eq!(
        syntax(parse("page { title \"Unclosed string }")),
        (1, 32, "Unterminated string literal".to_string())
    );
    assert_eq!(
        syntax(parse("page {\n  @invalid }")),
        (2, 3, "Unexpected character '@'".to_string())
    );
    assert_eq!(
        syntax(parse("  title {}")),
        (1, 8, "Document must start with 'page'".to_string())
    );
    assert_eq!(
        syntax(parse("page { \"loose\" }")),
        (1, 15, "Expected element identifier, found StringLiteral(\"loose\")".to_string())
    );
    assert_eq!(
        syntax(parse("page { { } }")),
        (1, 9, "Expected element identifier, found BraceOpen".to_string())
    );
    assert!(matches!(parse("page"), Err(ParseError::SyntaxError { .. })));
    assert!(matches!(parse("   // only a comment\n"), Err(ParseError::UnexpectedEof)));
}

#[test]
fn error_messages_describe_position() {
    let e = parse("page title").unwrap_err();
    assert_eq!(
        e.message(),
        "Unexpected token at line 1, col 11: Expected '{' after 'page'"
    );
    assert_eq!(ParseError::UnexpectedEof.message(), "Unexpected end of input");
}

#[test]
fn comments_escapes_and_attributes() {
    let code = "// heading comment\npage {\n  text \"x\"\n  image src \"a.png\" alt \"A \\\"quoted\\\" pic\" // trailing\n}";
    let ast = parse(code).unwrap();
    assert_eq!(ast.children.len(), 2);
    assert_eq!(ast.children[0].value, Some("x".to_string()));
    assert_eq!(ast.children[0].get_attr("text"), Some("x"));
    let image = &ast.children[1];
    assert_eq!(image.element_type, ElementType::Image);
    assert_eq!(image.get_attr("src"), Some("a.png"));
    assert_eq!(image.get_attr("alt"), Some("A \"quoted\" pic"));
    assert_eq!(image.value, None);
}

#[test]
fn later_attribute_wins() {
    let ast = parse("page { image src \"a\" src \"b\" }").unwrap();
    assert_eq!(ast.children[0].get_attr("src"), Some("b"));
    assert_eq!(ast.children[0].get_attr("alt"), None);
    assert_eq!(ast.children[0].attributes, vec![("src".to_string(), "b".to_string())]);
}

#[test]
fn set_attr_replaces_in_place() {
    let mut n = LumiNode::new(ElementType::Image);
    n.set_attr("src".to_string(), "a".to_string());
    n.set_attr("alt".to_string(), "x".to_string());
    n.set_attr("src".to_string(), "b".to_string());
    assert_eq!(
        n.attributes,
        vec![("src".to_string(), "b".to_string()), ("alt".to_string(), "x".to_string())]
    );
    assert_eq!(n.get_attr("src"), Some("b"));
}

#[test]
fn nodes_clone_whole_trees() {
    let ast = parse("page { row { text \"a\" image src \"p\" } }").unwrap();
    let copy = ast.clone();
    assert_eq!(copy.children.len(), 1);
    assert_eq!(copy.children[0].element_type, ElementType::Row);
    assert_eq!(copy.children[0].children[0].value, Some("a".to_string()));
    assert_eq!(copy.children[0].children[1].get_attr("src"), Some("p"));
}

#[test]
fn ascii_blanks_and_non_ascii_text() {
    let ast = parse("page {\r\ttext \"héllo ✓\"\n}").unwrap();
    assert_eq!(ast.children[0].value, Some("héllo ✓".to_string()));
    assert!(matches!(parse("page {\u{0b}}"), Err(ParseError::SyntaxError { col: 7, .. })));
    let ast = parse("page { wïdget { text \"ü\" } }").unwrap();
    assert_eq!(ast.children[0].element_type, ElementType::Custom("wïdget".to_string()));
}

#[test]
fn unclosed_page_ends_at_input_end() {
    let ast = parse("page { text \"a\"").unwrap();
    assert_eq!(ast.children.len(), 1);
    let mut p = Parser::new("page {} trailing");
    let first = p.parse_page().unwrap();
    assert_eq!(first.children.len(), 0);
    assert!(matches!(
        p.parse_page(),
        Err(ParseError::SyntaxError { .. })
    ));
}

#[test]
fn custom_elements_and_new_nodes() {
    let ast = parse("page { widget-x { text \"in\" } }").unwrap();
    assert_eq!(
        ast.children[0].element_type,
        ElementType::Custom("widget-x".to_string())
    );
    assert_ne!(ElementType::Custom("a".to_string()), ElementType::Custom("b".to_string()));
    assert_ne!(ElementType::Row, ElementType::Column);
    let n = LumiNode::new(ElementType::Divider);
    assert!(n.children.is_empty());
    assert_eq!(n.value, None);
    assert_eq!(n.get_attr("goto"), None);
}

#[test]
fn text_and_goto_extraction() {
    let ast = parse(
        "page { button { text \"\" badge { text \"Go\" } goto \"lumi://docs.lumi\" } divider {} }",
    )
    .unwrap();
    let button = &ast.children[0];
    assert_eq!(extract_text(button), "Go");
    assert_eq!(extract_goto(button), Some("lumi://docs.lumi".to_string()));
    assert_eq!(extract_text(&ast.children[1]), "");
    assert_eq!(extract_goto(&ast.children[1]), None);
    assert_eq!(extract_goto(&ast), Some("lumi://docs.lumi".to_string()));
    let opts = RenderOptions::default();
    assert!(opts.pending_navigation.is_none());
}

#[test]
fn new_site_files() {
    assert_eq!(
        site_manifest("demo"),
        "[package]\nname = \"demo\"\nversion = \"0.1.0\"\nentry = \"index.lml\"\n"
    );
    let index = site_index("demo");
    let ast = parse(&index).unwrap();
    assert_eq!(ast.children.len(), 6);
    assert_eq!(ast.children[0].value, Some("demo".to_string()));
    assert_eq!(extract_text(&ast.children[2]), "Welcome to demo");
    assert_eq!(extract_goto(&ast.children[5]), Some("lumi://docs.lumi".to_string()));
}
