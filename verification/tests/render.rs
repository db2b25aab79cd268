use blockgen::compose::{compose_metadata, compose_source, plan_block};
use blockgen::fields::parse_fields;
use blockgen::name::Name;

#[test]
fn renders_one_line_per_field_token() {
    let out = parse_fields("foo bar".to_string());
    assert_eq!(
        out,
        "$foo = get_field( 'foo' ) ?: null;\n$bar = get_field( 'bar' ) ?: null;\n".to_string()
    );
}

#[test]
fn empty_field_list_renders_to_empty_string() {
    assert_eq!(parse_fields("".to_string()), "".to_string());
    assert_eq!(parse_fields("   \t\n  ".to_string()), "".to_string());
}

#[test]
fn field_rendering_keeps_order_and_duplicates() {
    let out = parse_fields("a a b".to_string());
    assert_eq!(
        out,
        "$a = get_field( 'a' ) ?: null;\n$a = get_field( 'a' ) ?: null;\n$b = get_field( 'b' ) ?: null;\n"
            .to_string()
    );
}

#[test]
fn surrounding_whitespace_is_ignored() {
    let out = parse_fields("  title\t\nsubtitle  ".to_string());
    assert_eq!(
        out,
        "$title = get_field( 'title' ) ?: null;\n$subtitle = get_field( 'subtitle' ) ?: null;\n"
            .to_string()
    );
}

#[test]
fn composes_exact_source_document() {
    let name = Name::from("hey-jude");
    let fields = parse_fields("title subtitle".to_string());
    let doc = compose_source(&name, &fields);
    let expected = "<?php\n\
/**\n \
* Hey Jude Template.\n \
*/\n\
\n\
// Support custom \"anchor\" values.\n\
$anchor = '';\n\
if ( ! empty( $block['anchor'] ) ) {\n    \
$anchor = 'id=\"' . esc_attr( $block['anchor'] ) . '\" ';\n\
}\n\
\n\
// Create class attribute allowing for custom \"className\" and \"align\" values.\n\
$class_name = 'hey-jude';\n\
if ( ! empty( $block['className'] ) ) {\n    \
$class_name .= ' ' . $block['className'];\n\
}\n\
if ( ! empty( $block['align'] ) ) {\n    \
$class_name .= ' align' . $block['align'];\n\
}\n\
\n\
// Load values and assign defaults.\n\
\n\
$title = get_field( 'title' ) ?: null;\n\
$subtitle = get_field( 'subtitle' ) ?: null;\n\
\n\
\n\
?>\n\
\n\
<section <?= $anchor; ?>class=\"<?= esc_attr( $class_name ); ?> py-section\">\n    \
<div class=\"grid-container\">\n    \
</div>\n\
</section>\n";
    assert_eq!(doc, expected.to_string());
}

#[test]
fn composes_exact_metadata_document() {
    let name = Name::from("hey-jude");
    let doc = compose_metadata(&name, "A block.");
    let expected = "{\n  \
\"name\": \"acf/hey-jude\",\n  \
\"title\": \"Hey Jude\",\n  \
\"description\": \"A block.\",\n  \
\"style\": [ \"file:../../style.css\" ],\n  \
\"category\": \"formatting\",\n  \
\"icon\": \"admin-comments\",\n  \
\"keywords\": [\"custom\", \"block\"],\n  \
\"acf\": {\n      \
\"mode\": \"preview\",\n      \
\"renderTemplate\": \"hey-jude.php\"\n  \
},\n  \
\"align\": \"full\"\n\
}\n";
    assert_eq!(doc, expected.to_string());
}

#[test]
fn end_to_end_generation_plan() {
    let plan = plan_block("g", "hey-jude", "title subtitle", "A block.").unwrap();
    assert_eq!(plan.name.human_readable, "Hey Jude".to_string());
    assert_eq!(plan.name.file_readable, "hey-jude".to_string());
    assert_eq!(plan.dir, "blocks/hey-jude".to_string());
    assert_eq!(plan.source_file, "hey-jude.php".to_string());
    assert_eq!(plan.metadata_file, "block.json".to_string());

    assert!(plan.metadata_text.contains("\"title\": \"Hey Jude\","));
    assert!(plan.metadata_text.contains("\"name\": \"acf/hey-jude\","));
    assert!(plan.metadata_text.contains("\"description\": \"A block.\","));
    assert!(plan.metadata_text.contains("\"renderTemplate\": \"hey-jude.php\""));

    let title_line = "$title = get_field( 'title' ) ?: null;\n";
    let subtitle_line = "$subtitle = get_field( 'subtitle' ) ?: null;\n";
    let both = format!("{}{}", title_line, subtitle_line);
    assert!(plan.source_text.contains(&both));
    assert!(plan.source_text.contains("$class_name = 'hey-jude';"));
    assert!(plan.source_text.contains(" * Hey Jude Template."));
}

#[test]
fn only_the_generate_command_produces_a_plan() {
    assert!(plan_block("x", "hey-jude", "a", "d").is_none());
    assert!(plan_block("", "hey-jude", "a", "d").is_none());
    assert!(plan_block("gg", "hey-jude", "a", "d").is_none());
    assert!(plan_block("g", "hey-jude", "a", "d").is_some());
}

#[test]
fn unicode_whitespace_separates_field_tokens() {
    let out = parse_fields("a\u{a0}b".to_string());
    assert_eq!(
        out,
        "$a = get_field( 'a' ) ?: null;\n$b = get_field( 'b' ) ?: null;\n".to_string()
    );
    assert_eq!(parse_fields("\u{a0}".to_string()), "".to_string());
}
