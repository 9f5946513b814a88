use std::sync::Arc;

use arrow::array::{ArrayRef, Int32Array, RecordBatch, StringArray, TimestampSecondArray};
use arrow::datatypes::{DataType, Field, Schema};
use datafusion_common::DFSchema;
use datafusion_expr::LogicalPlan;
use framework_plan::batch::{format_batch, Batch, RecordText};
use framework_plan::error::PlanError;
use framework_plan::node::ShowStringNode;
use framework_plan::show_string::{ShowStringFormat, ShowStringStyle};

fn batch_of(columns: Vec<(&str, ArrayRef)>) -> Batch {
    let fields: Vec<Field> = columns
        .iter()
        .map(|(name, a)| Field::new(*name, a.data_type().clone(), true))
        .collect();
    let arrays: Vec<ArrayRef> = columns.into_iter().map(|(_, a)| a).collect();
    Batch {
        inner: RecordBatch::try_new(Arc::new(Schema::new(fields)), arrays).unwrap(),
    }
}

fn sample() -> Batch {
    batch_of(vec![
        ("id", Arc::new(Int32Array::from(vec![1, 22])) as ArrayRef),
        ("name", Arc::new(StringArray::from(vec![Some("a\nb"), None])) as ArrayRef),
    ])
}

fn text(names: &[&str], rows: &[&[&str]]) -> RecordText {
    RecordText {
        names: names.iter().map(|s| s.to_string()).collect(),
        rows: rows
            .iter()
            .map(|r| r.iter().map(|s| s.to_string()).collect())
            .collect(),
    }
}

#[test]
fn format_batch_gives_names_and_cells() {
    let t = match format_batch(&sample()) {
        Ok(t) => t,
        Err(_) => panic!("batch should format"),
    };
    assert_eq!(t.names, vec!["id".to_string(), "name".to_string()]);
    assert_eq!(
        t.rows,
        vec![
            vec!["1".to_string(), "a\nb".to_string()],
            vec!["22".to_string(), "".to_string()]
        ]
    );
}

#[test]
fn new_format_schema() {
    let f = ShowStringFormat::new(ShowStringStyle::Default, 20);
    let s = f.schema();
    assert_eq!(s.len(), 1);
    assert_eq!(s[0].name, "show_string");
    assert!(!s[0].nullable);
    let v = ShowStringFormat::new(ShowStringStyle::Vertical, 0).schema();
    assert_eq!(v[0].name, "show_string");
    let h = ShowStringFormat::new(ShowStringStyle::Html, 0).schema();
    assert_eq!(h[0].name, "html_string");
}

#[test]
fn html_table() {
    let f = ShowStringFormat::new(ShowStringStyle::Html, 0);
    let out = match f.show(&sample(), false) {
        Ok(s) => s,
        Err(_) => panic!("show should succeed"),
    };
    assert_eq!(
        out,
        "<table border='1'>\n<tr><th>id</th><th>name</th></tr>\n<tr><td>1</td><td>a\nb</td></tr>\n<tr><td>22</td><td></td></tr>\n</table>\n"
    );
}

#[test]
fn html_encodes_and_truncates() {
    let f = ShowStringFormat::new(ShowStringStyle::Html, 5);
    let t = text(&["<b>&"], &[&["x < y && z"]]);
    assert_eq!(
        f.show_html(&t, true),
        "<table border='1'>\n<tr><th>&lt;b&gt;&amp;</th></tr>\n<tr><td>x ...</td></tr>\n</table>\nonly showing top 1 row\n"
    );
}

#[test]
fn html_without_rows() {
    let f = ShowStringFormat::new(ShowStringStyle::Html, 0);
    let t = text(&["a"], &[]);
    assert_eq!(f.show_html(&t, false), "<table border='1'>\n<tr><th>a</th></tr>\n</table>\n");
}

#[test]
fn default_table_right_aligned() {
    let f = ShowStringFormat::new(ShowStringStyle::Default, 20);
    let out = match f.show(&sample(), true) {
        Ok(s) => s,
        Err(_) => panic!("show should succeed"),
    };
    assert_eq!(
        out,
        "+---+-----+\n| id| name|\n+---+-----+\n|  1|a\\\\nb|\n| 22|     |\n+---+-----+\nonly showing top 2 rows\n"
    );
}

#[test]
fn default_table_left_aligned_without_limit() {
    let f = ShowStringFormat::new(ShowStringStyle::Default, 0);
    let t = text(&["a"], &[&["x"]]);
    assert_eq!(f.show_string(&t, false), "+---+\n|a  |\n+---+\n|x  |\n+---+\n");
}

#[test]
fn default_table_escapes_header() {
    let f = ShowStringFormat::new(ShowStringStyle::Default, 3);
    let t = text(&["a\tb"], &[&["long value"]]);
    assert_eq!(f.show_string(&t, false), "+-----+\n|a\\\\tb|\n+-----+\n|  lon|\n+-----+\n");
}

#[test]
fn vertical_listing() {
    let f = ShowStringFormat::new(ShowStringStyle::Vertical, 20);
    let out = match f.show(&sample(), false) {
        Ok(s) => s,
        Err(_) => panic!("show should succeed"),
    };
    assert_eq!(
        out,
        "-RECORD 0-----\n id   | 1     \n name | a\\\\nb \n-RECORD 1-----\n id   | 22    \n name |       \n"
    );
}

#[test]
fn vertical_without_rows() {
    let f = ShowStringFormat::new(ShowStringStyle::Vertical, 0);
    let t = text(&["a", "b"], &[]);
    assert_eq!(f.show_vertical_string(&t, false), "(0 rows)\n");
}

#[test]
fn vertical_without_fields() {
    let f = ShowStringFormat::new(ShowStringStyle::Vertical, 0);
    let t = text(&[], &[&[], &[]]);
    assert_eq!(f.show_vertical_string(&t, true), "-RECORD 0--\n-RECORD 1--\nonly showing top 2 rows\n");
}

#[test]
fn plan_node_takes_format_schema() {
    let input = Arc::new(LogicalPlan::EmptyRelation(datafusion_expr::EmptyRelation {
        produce_one_row: false,
        schema: Arc::new(DFSchema::empty()),
    }));
    let f = ShowStringFormat::new(ShowStringStyle::Html, 7);
    let node = match ShowStringNode::try_new(input, 10, f.clone()) {
        Ok(n) => n,
        Err(PlanError::DataFusion(e)) => panic!("{e}"),
        Err(PlanError::Arrow(e)) => panic!("{e}"),
    };
    assert_eq!(node.limit, 10);
    assert_eq!(node.format, f);
    assert_eq!(node.schema.fields().len(), 1);
    assert_eq!(node.schema.field(0).name(), "html_string");
    assert_eq!(node.schema.field(0).data_type(), &DataType::Utf8);
    assert!(!node.schema.field(0).is_nullable());
    assert!(node.schema.qualified_field(0).0.is_none());
}

#[test]
fn plan_node_for_every_style() {
    for (style, name) in [
        (ShowStringStyle::Default, "show_string"),
        (ShowStringStyle::Vertical, "show_string"),
        (ShowStringStyle::Html, "html_string"),
    ] {
        let input = Arc::new(LogicalPlan::EmptyRelation(datafusion_expr::EmptyRelation {
            produce_one_row: true,
            schema: Arc::new(DFSchema::empty()),
        }));
        let node = match ShowStringNode::try_new(input, 3, ShowStringFormat::new(style, 0)) {
            Ok(n) => n,
            Err(_) => panic!("a node is always built"),
        };
        assert_eq!(node.schema.fields().len(), 1);
        assert_eq!(node.schema.field(0).name(), name);
        assert_eq!(node.schema.field(0).data_type(), &DataType::Utf8);
        assert!(!node.schema.field(0).is_nullable());
        assert!(node.schema.qualified_field(0).0.is_none());
    }
}

#[test]
fn unformattable_value_is_an_arrow_error() {
    let batch = batch_of(vec![(
        "t",
        Arc::new(TimestampSecondArray::from(vec![i64::MAX])) as ArrayRef,
    )]);
    let f = ShowStringFormat::new(ShowStringStyle::Default, 20);
    assert!(matches!(f.show(&batch, false), Err(PlanError::Arrow(_))));
    assert!(format_batch(&batch).is_err());
}
