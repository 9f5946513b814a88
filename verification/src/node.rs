//! The logical plan node of a show-string query.
use vstd::prelude::*;

use std::collections::HashMap;
use std::sync::Arc;

use arrow::datatypes::{DataType, Field};
use datafusion_common::{DFSchema, DataFusionError};
use datafusion_expr::LogicalPlan;

use crate::error::PlanError;
use crate::show_string::{distinct_names, fields_view, OutputField, ShowStringFormat};

verus! {

/// A logical plan of DataFusion.
#[verifier::external_type_specification]
#[verifier::external_body]
pub struct ExLogicalPlan(LogicalPlan);

/// A schema of DataFusion.
#[verifier::external_type_specification]
#[verifier::external_body]
pub struct ExDFSchema(DFSchema);

/// The fields a DataFusion schema holds, in order: for each, its name, whether
/// it is nullable, whether its data type is `Utf8`, and whether it has a
/// qualifier.
pub uninterp spec fn df_schema_fields(schema: DFSchema) -> Seq<(Seq<char>, bool, bool, bool)>;

/// The schema fields of `fields`: unqualified UTF-8 fields with the same
/// names and nullability.
pub open spec fn unqualified_text_fields(fields: Seq<(Seq<char>, bool)>) -> Seq<
    (Seq<char>, bool, bool, bool),
> {
    Seq::new(fields.len(), |i: int| (fields[i].0, fields[i].1, true, false))
}

/// A DataFusion schema of unqualified UTF-8 fields with the given names and
/// nullability, and no metadata.
///
/// Calls `DFSchema::from_unqualified_fields` on `Field::new(name, Utf8,
/// nullable)` for each field. Its source keeps the fields in order, gives
/// each no qualifier, and fails exactly when two unqualified fields share a
/// name.
#[verifier::external_body]
fn df_schema_of(fields: &Vec<OutputField>) -> (res: Result<DFSchema, DataFusionError>)
    ensures
        res is Ok <==> distinct_names(fields_view(fields@)),
        res matches Ok(s) ==> df_schema_fields(s) == unqualified_text_fields(fields_view(fields@)),
{
    let arrow_fields: Vec<Field> = fields
        .iter()
        .map(|f| Field::new(f.name.clone(), DataType::Utf8, f.nullable))
        .collect();
    DFSchema::from_unqualified_fields(arrow_fields.into(), HashMap::new())
}

/// The plan node that shows the rows of its input as text.
#[derive(Clone, Debug, PartialEq, Eq, Hash)]
pub struct ShowStringNode {
    pub input: Arc<LogicalPlan>,
    pub limit: usize,
    pub format: ShowStringFormat,
    pub schema: Arc<DFSchema>,
}

impl ShowStringNode {
    /// A node that shows at most `limit` rows of `input` in `format`; its
    /// schema holds the format's one output field, unqualified, non-nullable
    /// and of type `Utf8`, named `show_string` (`html_string` for HTML).
    /// Building it never fails.
    pub fn try_new(input: Arc<LogicalPlan>, limit: usize, format: ShowStringFormat) -> (res: Result<
        Self,
        PlanError,
    >)
        ensures
            res is Ok,
            res matches Ok(node) ==> {
                &&& node.input == input
                &&& node.limit == limit
                &&& node.format == format
                &&& df_schema_fields(*node.schema) == unqualified_text_fields(format.schema_spec())
                &&& df_schema_fields(*node.schema) == seq![
                    (crate::show_string::output_column_name(format.style_spec()), false, true, false),
                ]
            },
    {
        let fields = format.schema();
        assert(unqualified_text_fields(fields_view(fields@)) =~= seq![
            (crate::show_string::output_column_name(format.style_spec()), false, true, false),
        ]);
        match df_schema_of(&fields) {
            Ok(schema) => Ok(ShowStringNode { input, limit, format, schema: Arc::new(schema) }),
            Err(e) => Err(PlanError::DataFusion(e)),
        }
    }
}

/// Law: a node built from a format made by `ShowStringFormat::new(style, _)`
/// has one field, named `show_string` (or `html_string` for the HTML style),
/// nullable no, of type `Utf8`, unqualified.
pub proof fn law_new_format_node_schema(
    style: crate::show_string::ShowStringStyle,
    format: ShowStringFormat,
    node: ShowStringNode,
)
    requires
        format.style_spec() == style,
        format.schema_spec() == seq![(crate::show_string::output_column_name(style), false)],
        node.format == format,
        df_schema_fields(*node.schema) == unqualified_text_fields(format.schema_spec()),
    ensures
        df_schema_fields(*node.schema) == seq![
            (crate::show_string::output_column_name(style), false, true, false),
        ],
{
    assert(unqualified_text_fields(format.schema_spec()) =~= seq![
        (crate::show_string::output_column_name(style), false, true, false),
    ]);
}

} // verus!
