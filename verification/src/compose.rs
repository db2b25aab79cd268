//! Composition of the two generated documents and the paths they go to.
//!
//! Both documents are fixed-shape templates filled by pure string
//! interpolation; nothing is escaped, the interpolated values appear
//! verbatim.

use vstd::prelude::*;
use vstd::string::*;
use crate::fields::{field_block, field_tokens, parse_fields};
use crate::name::{Name, file_form, title_form};

verus! {

/// The templated source document: the title in the comment header, the slug
/// as the class-name token, and the rendered field block, wrapped in the
/// fixed section scaffold.
pub open spec fn source_document(human: Seq<char>, file: Seq<char>, fields: Seq<char>) -> Seq<
    char,
> {
    "<?php\n/**\n * "@ + human
        + " Template.\n */\n\n// Support custom \"anchor\" values.\n$anchor = '';\nif ( ! empty( $block['anchor'] ) ) {\n    $anchor = 'id=\"' . esc_attr( $block['anchor'] ) . '\" ';\n}\n\n// Create class attribute allowing for custom \"className\" and \"align\" values.\n$class_name = '"@
        + file
        + "';\nif ( ! empty( $block['className'] ) ) {\n    $class_name .= ' ' . $block['className'];\n}\nif ( ! empty( $block['align'] ) ) {\n    $class_name .= ' align' . $block['align'];\n}\n\n// Load values and assign defaults.\n\n"@
        + fields
        + "\n\n?>\n\n<section <?= $anchor; ?>class=\"<?= esc_attr( $class_name ); ?> py-section\">\n    <div class=\"grid-container\">\n    </div>\n</section>\n"@
}

/// The metadata document: a key-value descriptor embedding the slug as a
/// namespaced identifier and as a file-name reference, the title as the
/// display title, the description verbatim, and fixed constant fields.
pub open spec fn metadata_document(human: Seq<char>, file: Seq<char>, description: Seq<char>) -> Seq<
    char,
> {
    "{\n  \"name\": \"acf/"@ + file + "\",\n  \"title\": \""@ + human
        + "\",\n  \"description\": \""@ + description
        + "\",\n  \"style\": [ \"file:../../style.css\" ],\n  \"category\": \"formatting\",\n  \"icon\": \"admin-comments\",\n  \"keywords\": [\"custom\", \"block\"],\n  \"acf\": {\n      \"mode\": \"preview\",\n      \"renderTemplate\": \""@
        + file + ".php\"\n  },\n  \"align\": \"full\"\n}\n"@
}

/// Fills the source template with the normalized name and the rendered
/// field block.
pub fn compose_source(name: &Name, fields_rendered: &str) -> (r: String)
    ensures
        r@ == source_document(name.human_readable@, name.file_readable@, fields_rendered@),
{
    let mut out = "<?php\n/**\n * ".to_owned();
    out.append(name.human_readable.as_str());
    out.append(
        " Template.\n */\n\n// Support custom \"anchor\" values.\n$anchor = '';\nif ( ! empty( $block['anchor'] ) ) {\n    $anchor = 'id=\"' . esc_attr( $block['anchor'] ) . '\" ';\n}\n\n// Create class attribute allowing for custom \"className\" and \"align\" values.\n$class_name = '",
    );
    out.append(name.file_readable.as_str());
    out.append(
        "';\nif ( ! empty( $block['className'] ) ) {\n    $class_name .= ' ' . $block['className'];\n}\nif ( ! empty( $block['align'] ) ) {\n    $class_name .= ' align' . $block['align'];\n}\n\n// Load values and assign defaults.\n\n",
    );
    out.append(fields_rendered);
    out.append(
        "\n\n?>\n\n<section <?= $anchor; ?>class=\"<?= esc_attr( $class_name ); ?> py-section\">\n    <div class=\"grid-container\">\n    </div>\n</section>\n",
    );
    out
}

/// Fills the metadata template with the normalized name and the description.
pub fn compose_metadata(name: &Name, description: &str) -> (r: String)
    ensures
        r@ == metadata_document(name.human_readable@, name.file_readable@, description@),
{
    let mut out = "{\n  \"name\": \"acf/".to_owned();
    out.append(name.file_readable.as_str());
    out.append("\",\n  \"title\": \"");
    out.append(name.human_readable.as_str());
    out.append("\",\n  \"description\": \"");
    out.append(description);
    out.append(
        "\",\n  \"style\": [ \"file:../../style.css\" ],\n  \"category\": \"formatting\",\n  \"icon\": \"admin-comments\",\n  \"keywords\": [\"custom\", \"block\"],\n  \"acf\": {\n      \"mode\": \"preview\",\n      \"renderTemplate\": \"",
    );
    out.append(name.file_readable.as_str());
    out.append(".php\"\n  },\n  \"align\": \"full\"\n}\n");
    out
}

/// Everything one generation run produces: the normalized name, the
/// directory to create, and the two documents with their file names.
pub struct BlockPlan {
    /// The normalized name the run was invoked for.
    pub name: Name,
    /// Directory, relative to the working directory, that receives the files.
    pub dir: String,
    /// File name of the templated source document, inside `dir`.
    pub source_file: String,
    /// The templated source document.
    pub source_text: String,
    /// File name of the metadata document, inside `dir`.
    pub metadata_file: String,
    /// The metadata document.
    pub metadata_text: String,
}

fn is_generate_command(command: &str) -> (r: bool)
    ensures
        r == (command@ == "g"@),
{
    proof {
        reveal_strlit("g");
    }
    if command.unicode_len() == 1 {
        let c = command.get_char(0);
        if c == 'g' {
            proof {
                assert(command@ =~= "g"@);
            }
            true
        } else {
            false
        }
    } else {
        false
    }
}

/// The whole pure part of a generation run. Only the command `"g"` triggers
/// generation; any other command is a silent no-op. On `"g"`, normalizes the
/// raw name, renders the field list, fills both templates, and lays out the
/// target paths.
pub fn plan_block(command: &str, raw_name: &str, fields: &str, description: &str) -> (r: Option<
    BlockPlan,
>)
    ensures
        match r {
            Some(plan) => {
                &&& command@ == "g"@
                &&& plan.name.human_readable@ == title_form(raw_name@)
                &&& plan.name.file_readable@ == file_form(raw_name@)
                &&& plan.dir@ == "blocks/"@ + file_form(raw_name@)
                &&& plan.source_file@ == file_form(raw_name@) + ".php"@
                &&& plan.source_text@ == source_document(
                    title_form(raw_name@),
                    file_form(raw_name@),
                    field_block(field_tokens(fields@)),
                )
                &&& plan.metadata_file@ == "block.json"@
                &&& plan.metadata_text@ == metadata_document(
                    title_form(raw_name@),
                    file_form(raw_name@),
                    description@,
                )
            },
            None => command@ != "g"@,
        },
{
    if !is_generate_command(command) {
        return None;
    }
    let name = Name::from(raw_name);
    let fields_rendered = parse_fields(fields.to_owned());
    let source_text = compose_source(&name, fields_rendered.as_str());
    let metadata_text = compose_metadata(&name, description);
    let mut dir = "blocks/".to_owned();
    dir.append(name.file_readable.as_str());
    let mut source_file = name.file_readable.clone();
    source_file.append(".php");
    let metadata_file = "block.json".to_owned();
    Some(
        BlockPlan {
            name,
            dir,
            source_file,
            source_text,
            metadata_file,
            metadata_text,
        },
    )
}

} // verus!
