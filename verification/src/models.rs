//! The flat model shape and its generated model file.

use vstd::prelude::*;
use vstd::string::StringExecFns;
use crate::application::project_service::GeneratedFile;
use crate::application::project_service::GeneratedFileV;
use crate::casing::snake_of;
use crate::casing::to_snake;
use crate::endpoints::Endpoint;
use crate::endpoints::EndpointV;
use crate::naming::alias_spec;
use crate::naming::ascii_lower;
use crate::naming::lower_spec;
use crate::naming::push_char;

verus! {

/// One field of a flat model.
#[derive(Clone, Debug)]
pub struct Field {
    pub name: String,
    pub field_type: String,
}

/// The mathematical value of a flat `Field`.
pub ghost struct FieldV {
    pub name: Seq<char>,
    pub field_type: Seq<char>,
}

impl DeepView for Field {
    type V = FieldV;

    open spec fn deep_view(&self) -> FieldV {
        FieldV { name: self.name@, field_type: self.field_type@ }
    }
}

/// One data model in the flat shape.
#[derive(Clone, Debug)]
pub struct Model {
    pub name: String,
    pub table_name: String,
    pub fields: Vec<Field>,
    pub endpoints: Option<Vec<Endpoint>>,
}

/// The mathematical value of a flat `Model`.
pub ghost struct ModelV {
    pub name: Seq<char>,
    pub table_name: Seq<char>,
    pub fields: Seq<FieldV>,
    pub endpoints: Option<Seq<EndpointV>>,
}

impl DeepView for Model {
    type V = ModelV;

    open spec fn deep_view(&self) -> ModelV {
        ModelV {
            name: self.name@,
            table_name: self.table_name@,
            fields: self.fields.deep_view(),
            endpoints: self.endpoints.deep_view(),
        }
    }
}

/// Extracts the table alias of a model name: its ASCII capitals, in order.
pub fn get_alias_from_model(input_string: &String) -> (r: String)
    ensures
        r@ == alias_spec(input_string@),
{
    let s = input_string.as_str();
    let n = s.unicode_len();
    let mut capital_characters = String::new();
    let mut i: usize = 0;
    while i < n
        invariant
            n == s@.len(),
            i <= n,
            capital_characters@ == alias_spec(s@.take(i as int)),
        decreases n - i,
    {
        let c = s.get_char(i);
        if 'A' <= c && c <= 'Z' {
            push_char(&mut capital_characters, c);
        }
        proof {
            assert(s@.take(i + 1).drop_last() =~= s@.take(i as int));
            assert(s@.take(i + 1).last() == s@[i as int]);
            assert(capital_characters@ =~= alias_spec(s@.take(i + 1)));
        }
        i = i + 1;
    }
    proof {
        assert(s@.take(n as int) =~= s@);
    }
    capital_characters
}

/// The directory that holds the flat model files.
pub open spec fn model_dir_spec(p: Seq<char>) -> Seq<char> {
    "./"@ + p + "/src/models"@
}

/// The path of a flat model file: the snake-cased, lower-cased model name.
pub open spec fn model_path_spec(p: Seq<char>, m: ModelV) -> Seq<char> {
    model_dir_spec(p) + "/"@ + lower_spec(snake_of(m.name)) + ".rs"@
}

/// One field line of a flat model file.
pub open spec fn model_field_line_spec(f: FieldV) -> Seq<char> {
    "    pub "@ + f.name + ": "@ + f.field_type + ",\n"@
}

/// The field lines of a flat model file, in declaration order.
pub open spec fn model_field_lines_spec(fs: Seq<FieldV>) -> Seq<char>
    decreases fs.len(),
{
    if fs.len() == 0 {
        Seq::empty()
    } else {
        model_field_lines_spec(fs.drop_last()) + model_field_line_spec(fs.last())
    }
}

/// The text of a flat model file: a serializable, table-mapped struct tagged
/// with the snake-cased table name and the capital-letter table alias.
pub open spec fn model_content_spec(m: ModelV) -> Seq<char> {
    "use prkorm::Table;\n\n        use serde::{Deserialize, Serialize};\n\n        use sqlx::FromRow;\n\n"@
        + "#[derive(Deserialize, Debug, Table, Serialize, FromRow, Default)]\n"@ + "#[table_name(\""@
        + snake_of(m.table_name) + "\")]\n"@ + "#[table_alias(\""@ + alias_spec(m.name) + "\")]\n"@
        + "pub struct "@ + m.name + " {\n"@ + model_field_lines_spec(m.fields) + "}\n"@
}

/// Renders the flat model file of one model and names the directory and path
/// it belongs to.
#[verifier::loop_isolation(false)]
pub fn generate_model(project_name: &str, model: &Model) -> (r: (String, GeneratedFile))
    ensures
        r.0@ == model_dir_spec(project_name@),
        r.1.deep_view() == (GeneratedFileV {
            path: model_path_spec(project_name@, model.deep_view()),
            content: model_content_spec(model.deep_view()),
        }),
{
    let mut model_dir = String::new();
    model_dir.append("./");
    model_dir.append(project_name);
    model_dir.append("/src/models");
    proof {
        assert(model_dir@ =~= model_dir_spec(project_name@));
    }
    let snake = to_snake(model.name.as_str());
    let file_stem = ascii_lower(snake.as_str());
    let mut model_path = String::new();
    model_path.append(model_dir.as_str());
    model_path.append("/");
    model_path.append(file_stem.as_str());
    model_path.append(".rs");
    proof {
        assert(model_path@ =~= model_path_spec(project_name@, model.deep_view()));
    }

    let table_snake = to_snake(model.table_name.as_str());
    let alias = get_alias_from_model(&model.name);
    let mut model_content = String::new();
    model_content.append(
        "use prkorm::Table;\n\n        use serde::{Deserialize, Serialize};\n\n        use sqlx::FromRow;\n\n",
    );
    model_content.append("#[derive(Deserialize, Debug, Table, Serialize, FromRow, Default)]\n");
    model_content.append("#[table_name(\"");
    model_content.append(table_snake.as_str());
    model_content.append("\")]\n");
    model_content.append("#[table_alias(\"");
    model_content.append(alias.as_str());
    model_content.append("\")]\n");
    model_content.append("pub struct ");
    model_content.append(model.name.as_str());
    model_content.append(" {\n");
    let ghost fs = model.fields.deep_view();
    let mut i: usize = 0;
    let ghost prefix = model_content@;
    while i < model.fields.len()
        invariant
            i <= model.fields@.len(),
            model_content@ == prefix + model_field_lines_spec(fs.take(i as int)),
        decreases model.fields@.len() - i,
    {
        proof {
            assert(fs[i as int] == model.fields@[i as int].deep_view());
        }
        model_content.append("    pub ");
        model_content.append(model.fields[i].name.as_str());
        model_content.append(": ");
        model_content.append(model.fields[i].field_type.as_str());
        model_content.append(",\n");
        proof {
            assert(fs.take(i + 1).drop_last() =~= fs.take(i as int));
            assert(fs.take(i + 1).last() == fs[i as int]);
            assert(model_content@ =~= prefix + model_field_lines_spec(fs.take(i + 1)));
        }
        i = i + 1;
    }
    proof {
        assert(fs.take(model.fields@.len() as int) =~= fs);
    }
    model_content.append("}\n");
    proof {
        assert(model_content@ =~= model_content_spec(model.deep_view()));
    }
    (model_dir, GeneratedFile { path: model_path, content: model_content })
}

} // verus!
