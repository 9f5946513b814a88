//! Rendering of a record batch as a text table, a vertical listing or an
//! HTML table, as the result of a "show string" query.
use vstd::prelude::*;

use crate::batch::{batch_columns, batch_formattable, batch_num_rows, batch_rows, column_names};
use crate::batch::{format_batch, Batch, RecordText};
use crate::comfy::{comfy_table_lines, headed_table_lines, plain_table_lines, CellAlign};
use crate::error::PlanError;
use crate::escape::{escape_meta_characters, escaped, has_meta_char, truncate_string, truncated};
use crate::escape::{char_prefix, is_meta_char, law_escape_idempotent};
use crate::html::{encode_html_text, html_text};
use crate::text::{decimal, join_strings, pad_right, push_char, push_decimal, push_repeated};
use crate::text::{push_str, seq_join};

verus! {

/// The layout in which a batch is shown.
#[derive(Clone, Debug, PartialEq, Eq, Hash, Structural)]
pub enum ShowStringStyle {
    /// A bordered table with a header row.
    Default,
    /// One block of `name | value` lines per record.
    Vertical,
    /// An HTML table.
    Html,
}

/// A field of the single-column output of a show-string query; its values
/// are UTF-8 text.
#[derive(Clone, Debug, PartialEq, Eq, Hash)]
pub struct OutputField {
    pub name: String,
    pub nullable: bool,
}

/// How a batch is shown: the style, the byte limit for each value (0 for no
/// limit) and the schema of the query's output.
#[derive(Debug, PartialEq, Eq, Hash)]
pub struct ShowStringFormat {
    style: ShowStringStyle,
    truncate: usize,
    schema: Vec<OutputField>,
}

/// The name and nullability of each output field.
pub open spec fn fields_view(fields: Seq<OutputField>) -> Seq<(Seq<char>, bool)> {
    Seq::new(fields.len(), |i: int| (fields[i].name@, fields[i].nullable))
}

/// Whether no two fields share a name.
pub open spec fn distinct_names(fields: Seq<(Seq<char>, bool)>) -> bool {
    forall|i: int, j: int| 0 <= i < j < fields.len() ==> fields[i].0 != fields[j].0
}

/// The name of the output column for a style.
pub open spec fn output_column_name(style: ShowStringStyle) -> Seq<char> {
    match style {
        ShowStringStyle::Default | ShowStringStyle::Vertical => "show_string"@,
        ShowStringStyle::Html => "html_string"@,
    }
}

impl Clone for ShowStringFormat {
    /// A format with the same style, limit and output schema.
    fn clone(&self) -> (res: Self)
        ensures
            res.style_spec() == self.style_spec(),
            res.truncate_spec() == self.truncate_spec(),
            res.schema_spec() == self.schema_spec(),
    {
        proof {
            use_type_invariant(self);
        }
        let schema = self.schema();
        Self { style: self.copy_style(), truncate: self.truncate, schema }
    }
}

/// The line that says how many rows were shown, when there were more.
pub open spec fn footer_text(num_rows: nat, has_more: bool) -> Seq<char> {
    if has_more && num_rows == 1 {
        "only showing top 1 row\n"@
    } else if has_more {
        "only showing top "@ + decimal(num_rows) + " rows\n"@
    } else {
        Seq::empty()
    }
}

/// The preset of the bordered table.
pub open spec fn default_preset() -> Seq<char> {
    "||--+-++|    ++++++"@
}

/// The preset of the vertical listing: only a vertical line between the
/// name and the value.
pub open spec fn vertical_preset() -> Seq<char> {
    "        |          "@
}

/// A value as shown in the bordered table and the vertical listing: escaped,
/// then truncated.
pub open spec fn shown_value(cell: Seq<char>, limit: nat) -> Seq<char> {
    truncated(escaped(cell), limit)
}

/// The escaped field names.
pub open spec fn escaped_names(names: Seq<Seq<char>>) -> Seq<Seq<char>> {
    Seq::new(names.len(), |i: int| escaped(names[i]))
}

/// The values of every row as shown.
pub open spec fn shown_rows(rows: Seq<Seq<Seq<char>>>, limit: nat) -> Seq<Seq<Seq<char>>> {
    Seq::new(rows.len(), |r: int| Seq::new(rows[r].len(), |c: int| shown_value(rows[r][c], limit)))
}

/// The bordered table: a header of escaped names over the shown values, right
/// aligned when there is a limit, then a newline and the footer.
pub open spec fn render_default(
    names: Seq<Seq<char>>,
    rows: Seq<Seq<Seq<char>>>,
    limit: nat,
    has_more: bool,
) -> Seq<char> {
    let lines = comfy_table_lines(
        default_preset(),
        Some(escaped_names(names)),
        shown_rows(rows, limit),
        0,
        3,
        limit != 0,
    );
    seq_join(lines, seq!['\n']) + seq!['\n'] + footer_text(rows.len(), has_more)
}

/// The two-cell lines of one record in the vertical listing: each field name
/// beside the shown value.
pub open spec fn record_pairs(names: Seq<Seq<char>>, row: Seq<Seq<char>>, limit: nat) -> Seq<
    Seq<Seq<char>>,
> {
    Seq::new(names.len(), |f: int| seq![names[f], shown_value(row[f], limit)])
}

/// The two-cell lines of all records, record after record.
pub open spec fn vertical_rows(names: Seq<Seq<char>>, rows: Seq<Seq<Seq<char>>>, limit: nat) -> Seq<
    Seq<Seq<char>>,
>
    decreases rows.len(),
{
    if rows.len() == 0 {
        Seq::empty()
    } else {
        vertical_rows(names, rows.drop_last(), limit) + record_pairs(names, rows.last(), limit)
    }
}

/// The line that opens record `i`: `-RECORD i`, filled with `-` up to
/// `width` characters.
pub open spec fn record_header(i: nat, width: nat) -> Seq<char> {
    pad_right("-RECORD "@ + decimal(i), '-', width)
}

/// The largest number of bytes of a line (0 for no line).
pub open spec fn max_utf8_len(lines: Seq<Seq<char>>) -> nat
    decreases lines.len(),
{
    if lines.len() == 0 {
        0
    } else {
        let prev = max_utf8_len(lines.drop_last());
        let last = crate::escape::utf8_len(lines.last());
        if prev < last {
            last
        } else {
            prev
        }
    }
}

/// The lines with a record header before every `per_record`-th line, starting
/// with the first.
pub open spec fn with_record_headers(lines: Seq<Seq<char>>, per_record: nat, width: nat) -> Seq<
    Seq<char>,
>
    decreases lines.len(),
{
    if lines.len() == 0 {
        Seq::empty()
    } else {
        let i = (lines.len() - 1) as nat;
        let prev = with_record_headers(lines.drop_last(), per_record, width);
        if i % per_record == 0 {
            prev + seq![record_header(i / per_record, width), lines.last()]
        } else {
            prev.push(lines.last())
        }
    }
}

/// The width of a record header when the batch has no field: the width of an
/// empty two-column row with padding 1 and minimum width 3.
pub open spec fn empty_record_width() -> nat {
    11
}

/// The lines of the vertical listing, before the footer: the table lines with
/// a header before each record, as wide as the widest line; with no field, one
/// header per row; `(0 rows)` at the end when there is no row.
pub open spec fn vertical_lines(lines: Seq<Seq<char>>, num_fields: nat, num_rows: nat) -> Seq<
    Seq<char>,
> {
    let body = if num_fields > 0 {
        with_record_headers(lines, num_fields, max_utf8_len(lines))
    } else {
        Seq::new(num_rows, |i: int| record_header(i as nat, empty_record_width()))
    };
    if num_rows == 0 {
        body.push("(0 rows)"@)
    } else {
        body
    }
}

/// The vertical listing: the lines of the two-column table of names and
/// shown values, with record headers, then a newline and the footer.
pub open spec fn render_vertical(
    names: Seq<Seq<char>>,
    rows: Seq<Seq<Seq<char>>>,
    limit: nat,
    has_more: bool,
) -> Seq<char> {
    let lines = comfy_table_lines(
        vertical_preset(),
        None,
        vertical_rows(names, rows, limit),
        1,
        3,
        false,
    );
    seq_join(vertical_lines(lines, names.len(), rows.len()), seq!['\n']) + seq!['\n']
        + footer_text(rows.len(), has_more)
}

/// A header cell of the HTML table.
pub open spec fn html_header_cell(name: Seq<char>) -> Seq<char> {
    "<th>"@ + html_text(name) + "</th>"@
}

/// A value cell of the HTML table: the truncated value, encoded.
pub open spec fn html_value_cell(cell: Seq<char>, limit: nat) -> Seq<char> {
    "<td>"@ + html_text(truncated(cell, limit)) + "</td>"@
}

/// A row of the HTML table.
pub open spec fn html_row(cells: Seq<Seq<char>>) -> Seq<char> {
    "<tr>"@ + seq_join(cells, Seq::empty()) + "</tr>"@
}

/// The lines of the HTML table: the opening tag, the header row, one row per
/// record and the closing tag.
pub open spec fn html_lines(names: Seq<Seq<char>>, rows: Seq<Seq<Seq<char>>>, limit: nat) -> Seq<
    Seq<char>,
> {
    seq!["<table border='1'>"@, html_row(Seq::new(names.len(), |i: int| html_header_cell(names[i])))]
        + Seq::new(
        rows.len(),
        |r: int| html_row(Seq::new(rows[r].len(), |c: int| html_value_cell(rows[r][c], limit))),
    ) + seq!["</table>"@]
}

/// The HTML table, then a newline and the footer.
pub open spec fn render_html(
    names: Seq<Seq<char>>,
    rows: Seq<Seq<Seq<char>>>,
    limit: nat,
    has_more: bool,
) -> Seq<char> {
    seq_join(html_lines(names, rows, limit), seq!['\n']) + seq!['\n'] + footer_text(
        rows.len(),
        has_more,
    )
}

/// The text of a batch with field `names` and value `rows` in a style.
pub open spec fn render(
    style: ShowStringStyle,
    names: Seq<Seq<char>>,
    rows: Seq<Seq<Seq<char>>>,
    limit: nat,
    has_more: bool,
) -> Seq<char> {
    match style {
        ShowStringStyle::Default => render_default(names, rows, limit, has_more),
        ShowStringStyle::Vertical => render_vertical(names, rows, limit, has_more),
        ShowStringStyle::Html => render_html(names, rows, limit, has_more),
    }
}

/// One HTML table row made of `cells`.
fn html_row_line(cells: &Vec<String>) -> (res: String)
    ensures
        res@ == html_row(cells.deep_view()),
{
    let mut out = String::new();
    push_str(&mut out, "<tr>");
    let empty = "";
    proof {
        reveal_strlit("");
    }
    assert(empty@ =~= Seq::<char>::empty());
    let inner = join_strings(cells, empty);
    push_str(&mut out, inner.as_str());
    push_str(&mut out, "</tr>");
    out
}

/// The header line of record `i`, `width` characters wide.
fn record_header_line(i: usize, width: usize) -> (res: String)
    ensures
        res@ == record_header(i as nat, width as nat),
{
    let mut out = String::new();
    let prefix = "-RECORD ";
    proof {
        reveal_strlit("-RECORD ");
    }
    push_str(&mut out, prefix);
    let digits = push_decimal(&mut out, i);
    let len = 8 + digits;
    if len < width {
        push_repeated(&mut out, '-', width - len);
    }
    assert(out@ =~= record_header(i as nat, width as nat));
    out
}

/// The footer after `num_rows` shown rows.
pub fn show_footer(num_rows: usize, has_more: bool) -> (res: String)
    ensures
        res@ == footer_text(num_rows as nat, has_more),
{
    let mut out = String::new();
    if has_more && num_rows == 1 {
        push_str(&mut out, "only showing top 1 row\n");
    } else if has_more {
        push_str(&mut out, "only showing top ");
        push_decimal(&mut out, num_rows);
        push_str(&mut out, " rows\n");
    }
    out
}

impl ShowStringFormat {
    /// The output schema is one non-nullable field named after the style.
    #[verifier::type_invariant]
    spec fn one_output_field(&self) -> bool {
        fields_view(self.schema@) == seq![(output_column_name(self.style), false)]
    }

    /// The style.
    pub closed spec fn style_spec(&self) -> ShowStringStyle {
        self.style
    }

    /// The byte limit for each shown value.
    pub closed spec fn truncate_spec(&self) -> nat {
        self.truncate as nat
    }

    /// The output fields, by name and nullability.
    pub closed spec fn schema_spec(&self) -> Seq<(Seq<char>, bool)> {
        fields_view(self.schema@)
    }

    /// A format for `style` that cuts each value to `truncate` bytes (0: no
    /// limit); its output schema has one non-nullable text field, named
    /// `show_string`, or `html_string` for the HTML style.
    pub fn new(style: ShowStringStyle, truncate: usize) -> (res: Self)
        ensures
            res.style_spec() == style,
            res.truncate_spec() == truncate,
            res.schema_spec() == seq![(output_column_name(style), false)],
    {
        let field_name = match style {
            ShowStringStyle::Default | ShowStringStyle::Vertical => "show_string",
            ShowStringStyle::Html => "html_string",
        };
        let fields = vec![OutputField { name: field_name.to_owned(), nullable: false }];
        assert(fields_view(fields@) =~= seq![(output_column_name(style), false)]);
        Self { style, truncate, schema: fields }
    }

    /// The output schema: one non-nullable field named after the style.
    pub fn schema(&self) -> (fields: Vec<OutputField>)
        ensures
            fields_view(fields@) == self.schema_spec(),
            fields_view(fields@) == seq![(output_column_name(self.style_spec()), false)],
            distinct_names(fields_view(fields@)),
    {
        proof {
            use_type_invariant(self);
        }
        let mut fields: Vec<OutputField> = Vec::new();
        let mut i: usize = 0;
        while i < self.schema.len()
            invariant
                0 <= i <= self.schema.len(),
                fields.len() == i,
                forall|k: int|
                    0 <= k < i ==> (#[trigger] fields[k]).name@ == self.schema[k].name@
                        && fields[k].nullable == self.schema[k].nullable,
            decreases self.schema.len() - i,
        {
            let name = self.schema[i].name.clone();
            fields.push(OutputField { name, nullable: self.schema[i].nullable });
            i = i + 1;
        }
        assert(fields_view(fields@) =~= self.schema_spec());
        fields
    }

    /// A copy of the style.
    fn copy_style(&self) -> (style: ShowStringStyle)
        ensures
            style == self.style,
    {
        match self.style {
            ShowStringStyle::Default => ShowStringStyle::Default,
            ShowStringStyle::Vertical => ShowStringStyle::Vertical,
            ShowStringStyle::Html => ShowStringStyle::Html,
        }
    }

    /// Shows `text` as a bordered table with a header row.
    pub fn show_string(&self, text: &RecordText, has_more: bool) -> (res: String)
        requires
            text.wf(),
        ensures
            res@ == render_default(
                text.names.deep_view(),
                text.rows.deep_view(),
                self.truncate_spec(),
                has_more,
            ),
    {
        let ghost names = text.names.deep_view();
        let ghost rows = text.rows.deep_view();
        let mut header: Vec<String> = Vec::new();
        let mut i: usize = 0;
        while i < text.names.len()
            invariant
                names == text.names.deep_view(),
                0 <= i <= text.names.len(),
                header.len() == i,
                forall|k: int| 0 <= k < i ==> (#[trigger] header[k])@ == escaped(names[k]),
            decreases text.names.len() - i,
        {
            header.push(escape_meta_characters(text.names[i].as_str()));
            i = i + 1;
        }
        assert(header.deep_view() =~= escaped_names(names));
        let mut body: Vec<Vec<String>> = Vec::new();
        let mut r: usize = 0;
        while r < text.rows.len()
            invariant
                rows == text.rows.deep_view(),
                0 <= r <= text.rows.len(),
                body.len() == r,
                forall|k: int|
                    0 <= k < r ==> (#[trigger] body[k]).deep_view() == shown_rows(
                        rows,
                        self.truncate_spec(),
                    )[k],
            decreases text.rows.len() - r,
        {
            let row = &text.rows[r];
            let mut cells: Vec<String> = Vec::new();
            let mut c: usize = 0;
            while c < row.len()
                invariant
                    rows == text.rows.deep_view(),
                    r < text.rows.len(),
                    row == text.rows[r as int],
                    0 <= c <= row.len(),
                    cells.len() == c,
                    forall|k: int|
                        0 <= k < c ==> (#[trigger] cells[k])@ == shown_value(
                            rows[r as int][k],
                            self.truncate_spec(),
                        ),
                decreases row.len() - c,
            {
                let escaped_cell = escape_meta_characters(row[c].as_str());
                cells.push(truncate_string(escaped_cell.as_str(), self.truncate));
                c = c + 1;
            }
            assert(cells.deep_view() =~= shown_rows(rows, self.truncate_spec())[r as int]);
            body.push(cells);
            r = r + 1;
        }
        assert(body.deep_view() =~= shown_rows(rows, self.truncate_spec()));
        let align = if self.truncate == 0 {
            CellAlign::Left
        } else {
            CellAlign::Right
        };
        let preset = "||--+-++|    ++++++";
        assert(preset@ == default_preset());
        let lines = headed_table_lines(preset, &header, &body, 0, 3, align);
        let newline = "\n";
        proof {
            reveal_strlit("\n");
        }
        assert(newline@ == seq!['\n']);
        let mut out = join_strings(&lines, newline);
        push_char(&mut out, '\n');
        let footer = show_footer(text.rows.len(), has_more);
        push_str(&mut out, footer.as_str());
        out
    }

    /// Shows a record batch in this format; `has_more` tells whether rows were
    /// left out, which the footer then says. Fails when a column or a value of
    /// the batch cannot be formatted as text.
    pub fn show(&self, batch: &Batch, has_more: bool) -> (res: Result<String, PlanError>)
        ensures
            res is Ok <==> batch_formattable(batch_columns(*batch), batch_num_rows(*batch)),
            res matches Ok(s) ==> s@ == render(
                self.style_spec(),
                column_names(batch_columns(*batch)),
                batch_rows(batch_columns(*batch), batch_num_rows(*batch)),
                self.truncate_spec(),
                has_more,
            ),
            res matches Err(e) ==> e is Arrow,
    {
        match format_batch(batch) {
            Ok(text) => Ok(self.show_text(&text, has_more)),
            Err(e) => Err(PlanError::Arrow(e)),
        }
    }

    /// Shows the formatted cells `text` in this format.
    pub fn show_text(&self, text: &RecordText, has_more: bool) -> (res: String)
        requires
            text.wf(),
        ensures
            res@ == render(
                self.style_spec(),
                text.names.deep_view(),
                text.rows.deep_view(),
                self.truncate_spec(),
                has_more,
            ),
    {
        match self.style {
            ShowStringStyle::Default => self.show_string(text, has_more),
            ShowStringStyle::Vertical => self.show_vertical_string(text, has_more),
            ShowStringStyle::Html => self.show_html(text, has_more),
        }
    }

    /// Shows `text` as an HTML table.
    pub fn show_html(&self, text: &RecordText, has_more: bool) -> (res: String)
        requires
            text.wf(),
        ensures
            res@ == render_html(
                text.names.deep_view(),
                text.rows.deep_view(),
                self.truncate_spec(),
                has_more,
            ),
    {
        let ghost names = text.names.deep_view();
        let ghost rows = text.rows.deep_view();
        let ghost limit = self.truncate_spec();
        let mut table: Vec<String> = Vec::new();
        table.push("<table border='1'>".to_owned());
        let mut header: Vec<String> = Vec::new();
        let mut i: usize = 0;
        while i < text.names.len()
            invariant
                names == text.names.deep_view(),
                0 <= i <= text.names.len(),
                header.len() == i,
                forall|k: int| 0 <= k < i ==> (#[trigger] header[k])@ == html_header_cell(names[k]),
            decreases text.names.len() - i,
        {
            let mut cell = String::new();
            push_str(&mut cell, "<th>");
            let encoded = encode_html_text(text.names[i].as_str());
            push_str(&mut cell, encoded.as_str());
            push_str(&mut cell, "</th>");
            header.push(cell);
            i = i + 1;
        }
        assert(header.deep_view() =~= Seq::new(
            names.len(),
            |i: int| html_header_cell(names[i]),
        ));
        table.push(html_row_line(&header));
        let mut r: usize = 0;
        while r < text.rows.len()
            invariant
                names == text.names.deep_view(),
                rows == text.rows.deep_view(),
                limit == self.truncate_spec(),
                0 <= r <= text.rows.len(),
                table.len() == r + 2,
                table.deep_view() == html_lines(names, rows, limit).take(r + 2),
            decreases text.rows.len() - r,
        {
            let row = &text.rows[r];
            let mut cells: Vec<String> = Vec::new();
            let mut c: usize = 0;
            while c < row.len()
                invariant
                    rows == text.rows.deep_view(),
                    limit == self.truncate_spec(),
                    r < text.rows.len(),
                    row == text.rows[r as int],
                    0 <= c <= row.len(),
                    cells.len() == c,
                    forall|k: int|
                        0 <= k < c ==> (#[trigger] cells[k])@ == html_value_cell(
                            rows[r as int][k],
                            limit,
                        ),
                decreases row.len() - c,
            {
                let shown = truncate_string(row[c].as_str(), self.truncate);
                let mut cell = String::new();
                push_str(&mut cell, "<td>");
                let encoded = encode_html_text(shown.as_str());
                push_str(&mut cell, encoded.as_str());
                push_str(&mut cell, "</td>");
                cells.push(cell);
                c = c + 1;
            }
            assert(cells.deep_view() =~= Seq::new(
                rows[r as int].len(),
                |c: int| html_value_cell(rows[r as int][c], limit),
            ));
            table.push(html_row_line(&cells));
            assert(table.deep_view() =~= html_lines(names, rows, limit).take(r + 3));
            r = r + 1;
        }
        let ghost prev = table.deep_view();
        let close = "</table>";
        table.push(close.to_owned());
        proof {
            let all = html_lines(names, rows, limit);
            assert(all.len() == rows.len() + 3);
            assert(all[rows.len() + 2int] == close@);
            assert(prev =~= all.take(rows.len() + 2int));
            assert(table.deep_view() =~= prev.push(close@));
            assert(table.deep_view() =~= all);
        }
        let newline = "\n";
        proof {
            reveal_strlit("\n");
        }
        assert(newline@ == seq!['\n']);
        let mut out = join_strings(&table, newline);
        push_char(&mut out, '\n');
        let footer = show_footer(text.rows.len(), has_more);
        push_str(&mut out, footer.as_str());
        out
    }

    /// Shows `text` as one block of `name | value` lines per record, each
    /// opened by a `-RECORD i` line.
    pub fn show_vertical_string(&self, text: &RecordText, has_more: bool) -> (res: String)
        requires
            text.wf(),
        ensures
            res@ == render_vertical(
                text.names.deep_view(),
                text.rows.deep_view(),
                self.truncate_spec(),
                has_more,
            ),
    {
        let ghost names = text.names.deep_view();
        let ghost rows = text.rows.deep_view();
        let ghost limit = self.truncate_spec();
        let num_fields = text.names.len();
        let num_rows = text.rows.len();
        let mut pairs: Vec<Vec<String>> = Vec::new();
        let mut r: usize = 0;
        assert(rows.take(0) =~= Seq::<Seq<Seq<char>>>::empty());
        while r < num_rows
            invariant
                names == text.names.deep_view(),
                rows == text.rows.deep_view(),
                limit == self.truncate_spec(),
                text.wf(),
                num_fields == names.len(),
                num_rows == rows.len(),
                0 <= r <= num_rows,
                pairs.deep_view() == vertical_rows(names, rows.take(r as int), limit),
            decreases num_rows - r,
        {
            let ghost before = pairs.deep_view();
            let row = &text.rows[r];
            assert(row.len() == num_fields);
            let mut f: usize = 0;
            while f < num_fields
                invariant
                    names == text.names.deep_view(),
                    rows == text.rows.deep_view(),
                    limit == self.truncate_spec(),
                    num_fields == names.len(),
                    r < num_rows == rows.len(),
                    row == text.rows[r as int],
                    row.len() == num_fields,
                    0 <= f <= num_fields,
                    pairs.deep_view() == before + record_pairs(names, rows[r as int], limit).take(
                        f as int,
                    ),
                decreases num_fields - f,
            {
                let value = truncate_string(
                    escape_meta_characters(row[f].as_str()).as_str(),
                    self.truncate,
                );
                let pair = vec![text.names[f].clone(), value];
                let ghost prev = pairs.deep_view();
                pairs.push(pair);
                proof {
                    assert(pair.deep_view() =~= record_pairs(names, rows[r as int], limit)[f as int]);
                    assert(pairs.deep_view() =~= prev.push(pair.deep_view()));
                    assert(record_pairs(names, rows[r as int], limit).take(f + 1) =~= record_pairs(
                        names,
                        rows[r as int],
                        limit,
                    ).take(f as int).push(record_pairs(names, rows[r as int], limit)[f as int]));
                }
                f = f + 1;
            }
            proof {
                assert(record_pairs(names, rows[r as int], limit).take(num_fields as int)
                    =~= record_pairs(names, rows[r as int], limit));
                assert(rows.take(r + 1).drop_last() =~= rows.take(r as int));
            }
            r = r + 1;
        }
        assert(rows.take(num_rows as int) =~= rows);
        assert(pairs.deep_view() == vertical_rows(names, rows, limit));
        let preset = "        |          ";
        assert(preset@ == vertical_preset());
        let lines = plain_table_lines(preset, &pairs, 1, 3, CellAlign::Left);
        let ghost lines_view = lines.deep_view();
        assert(lines_view == comfy_table_lines(
            vertical_preset(),
            None,
            vertical_rows(names, rows, limit),
            1,
            3,
            false,
        ));
        let mut table: Vec<String> = Vec::new();
        if num_fields > 0 {
            let mut width: usize = 0;
            let mut i: usize = 0;
            assert(lines_view.take(0) =~= Seq::<Seq<char>>::empty());
            while i < lines.len()
                invariant
                    lines_view == lines.deep_view(),
                    0 <= i <= lines.len(),
                    width == max_utf8_len(lines_view.take(i as int)),
                decreases lines.len() - i,
            {
                let len = lines[i].as_str().as_bytes().len();
                proof {
                    assert(lines_view.take(i + 1).drop_last() =~= lines_view.take(i as int));
                    assert(lines_view[i as int] == lines[i as int]@);
                }
                if width < len {
                    width = len;
                }
                i = i + 1;
            }
            assert(lines_view.take(lines.len() as int) =~= lines_view);
            let mut i: usize = 0;
            while i < lines.len()
                invariant
                    lines_view == lines.deep_view(),
                    num_fields > 0,
                    width == max_utf8_len(lines_view),
                    0 <= i <= lines.len(),
                    table.deep_view() == with_record_headers(
                        lines_view.take(i as int),
                        num_fields as nat,
                        width as nat,
                    ),
                decreases lines.len() - i,
            {
                let ghost prev = table.deep_view();
                if i % num_fields == 0 {
                    table.push(record_header_line(i / num_fields, width));
                }
                table.push(lines[i].clone());
                proof {
                    assert(lines_view.take(i + 1).drop_last() =~= lines_view.take(i as int));
                    assert(lines_view[i as int] == lines[i as int]@);
                    if i % num_fields == 0 {
                        assert(table.deep_view() =~= prev + seq![
                            record_header((i / num_fields) as nat, width as nat),
                            lines_view[i as int],
                        ]);
                    } else {
                        assert(table.deep_view() =~= prev.push(lines_view[i as int]));
                    }
                }
                i = i + 1;
            }
            assert(lines_view.take(lines.len() as int) =~= lines_view);
        } else {
            let padding: u16 = 1;
            let min_column_width: u16 = 3;
            let width = padding + min_column_width + padding + 1 + padding + min_column_width
                + padding;
            let mut i: usize = 0;
            while i < num_rows
                invariant
                    width == empty_record_width(),
                    0 <= i <= num_rows,
                    table.deep_view() =~= Seq::new(
                        i as nat,
                        |k: int| record_header(k as nat, empty_record_width()),
                    ),
                decreases num_rows - i,
            {
                let ghost prev = table.deep_view();
                table.push(record_header_line(i, width as usize));
                assert(table.deep_view() =~= prev.push(
                    record_header(i as nat, empty_record_width()),
                ));
                i = i + 1;
            }
        }
        if num_rows == 0 {
            let none = "(0 rows)";
            table.push(none.to_owned());
        }
        assert(table.deep_view() =~= vertical_lines(lines_view, num_fields as nat, num_rows as nat));
        let newline = "\n";
        proof {
            reveal_strlit("\n");
        }
        assert(newline@ == seq!['\n']);
        assert(names.len() == num_fields && rows.len() == num_rows);
        let mut out = join_strings(&table, newline);
        push_char(&mut out, '\n');
        let footer = show_footer(num_rows, has_more);
        push_str(&mut out, footer.as_str());
        out
    }
}

/// Law: the footer is empty exactly when no row was left out, and otherwise
/// ends with a newline.
pub proof fn law_footer_only_when_more(num_rows: nat, has_more: bool)
    ensures
        footer_text(num_rows, has_more).len() == 0 <==> !has_more,
        has_more ==> footer_text(num_rows, has_more).last() == '\n',
{
    reveal_strlit("only showing top 1 row\n");
    reveal_strlit("only showing top ");
    reveal_strlit(" rows\n");
}

/// Law: in every style the text ends with a newline followed by the footer.
pub proof fn law_render_ends_with_footer(
    style: ShowStringStyle,
    names: Seq<Seq<char>>,
    rows: Seq<Seq<Seq<char>>>,
    limit: nat,
    has_more: bool,
)
    ensures
        ({
            let out = render(style, names, rows, limit, has_more);
            let footer = footer_text(rows.len(), has_more);
            &&& out.len() > footer.len()
            &&& out.subrange(out.len() - footer.len(), out.len() as int) == footer
            &&& out[out.len() - footer.len() - 1] == '\n'
        }),
{
    let out = render(style, names, rows, limit, has_more);
    let footer = footer_text(rows.len(), has_more);
    let body = match style {
        ShowStringStyle::Default => seq_join(
            comfy_table_lines(
                default_preset(),
                Some(escaped_names(names)),
                shown_rows(rows, limit),
                0,
                3,
                limit != 0,
            ),
            seq!['\n'],
        ),
        ShowStringStyle::Vertical => seq_join(
            vertical_lines(
                comfy_table_lines(
                    vertical_preset(),
                    None,
                    vertical_rows(names, rows, limit),
                    1,
                    3,
                    false,
                ),
                names.len(),
                rows.len(),
            ),
            seq!['\n'],
        ),
        ShowStringStyle::Html => seq_join(html_lines(names, rows, limit), seq!['\n']),
    };
    assert(out =~= body + seq!['\n'] + footer);
    assert(out.subrange(out.len() - footer.len(), out.len() as int) =~= footer);
    assert(out[out.len() - footer.len() - 1] == (body + seq!['\n'] + footer)[body.len() as int]);
}

/// Law: the HTML table has one line per row besides the opening tag, the
/// header row and the closing tag, and its values never hold `<` or `>`
/// that could open or close a tag.
pub proof fn law_html_shape(names: Seq<Seq<char>>, rows: Seq<Seq<Seq<char>>>, limit: nat)
    ensures
        ({
            let lines = html_lines(names, rows, limit);
            &&& lines.len() == rows.len() + 3
            &&& lines[0] == "<table border='1'>"@
            &&& lines[lines.len() - 1] == "</table>"@
            &&& forall|r: int| 0 <= r < rows.len() ==> #[trigger] lines[r + 2] == html_row(
                Seq::new(rows[r].len(), |c: int| html_value_cell(rows[r][c], limit)),
            )
        }),
{
}

/// Law: the vertical listing of a batch without rows ends with `(0 rows)`;
/// with rows but no field, it is one record header per row.
pub proof fn law_vertical_empty_cases(lines: Seq<Seq<char>>, num_fields: nat, num_rows: nat)
    ensures
        num_rows == 0 ==> vertical_lines(lines, num_fields, num_rows).last() == "(0 rows)"@,
        num_fields == 0 && num_rows > 0 ==> vertical_lines(lines, num_fields, num_rows) == Seq::new(
            num_rows,
            |i: int| record_header(i as nat, empty_record_width()),
        ),
{
}

/// Law: a record header is never shorter than its width, and is exactly as
/// wide when `-RECORD i` fits.
pub proof fn law_record_header_width(i: nat, width: nat)
    ensures
        record_header(i, width).len() >= width,
        8 + decimal(i).len() <= width ==> record_header(i, width).len() == width,
{
    reveal_strlit("-RECORD ");
}

/// Law: the listing of a batch whose table has lines, in a batch with fields,
/// opens with the header of record 0.
pub proof fn law_vertical_first_line(lines: Seq<Seq<char>>, num_fields: nat, num_rows: nat)
    requires
        num_fields > 0,
        lines.len() > 0,
    ensures
        vertical_lines(lines, num_fields, num_rows)[0] == record_header(0, max_utf8_len(lines)),
{
    lemma_headers_start(lines, num_fields, max_utf8_len(lines));
}

/// The interleaving of record headers starts with the header of record 0.
proof fn lemma_headers_start(lines: Seq<Seq<char>>, per_record: nat, width: nat)
    requires
        per_record > 0,
        lines.len() > 0,
    ensures
        with_record_headers(lines, per_record, width).len() > 0,
        with_record_headers(lines, per_record, width)[0] == record_header(0, width),
    decreases lines.len(),
{
    if lines.len() == 1 {
        assert(0nat % per_record == 0);
        assert(with_record_headers(lines.drop_last(), per_record, width) =~= Seq::empty());
    } else {
        lemma_headers_start(lines.drop_last(), per_record, width);
    }
}

/// Law: a value shown in the bordered table or the vertical listing holds no
/// control character, so it never breaks a line of the table.
pub proof fn law_shown_value_has_no_meta_char(cell: Seq<char>, limit: nat)
    ensures
        !has_meta_char(shown_value(cell, limit)),
{
    let e = escaped(cell);
    law_escape_idempotent(cell);
    let out = shown_value(cell, limit);
    assert forall|i: int| 0 <= i < out.len() implies !is_meta_char(#[trigger] out[i]) by {
        if !(limit == 0 || crate::escape::utf8_len(e) <= limit) {
            let keep = if limit < 4 {
                limit as int
            } else {
                limit - 3
            };
            let p = char_prefix(e, keep);
            if i < p.len() {
                assert(p[i] == e[i]);
            }
        }
    }
}

/// Law: a value as shown in the bordered table and the vertical listing,
/// `truncated(escaped(v), limit)`, holds no control character, has at most
/// `limit` characters when there is a limit, is the escaped value itself when
/// that fits in the limit, and is otherwise a prefix of the escaped value
/// (followed by `...` when the limit is 4 or more).
pub proof fn law_shown_cell(v: Seq<char>, limit: nat)
    ensures
        ({
            let e = escaped(v);
            let s = truncated(e, limit);
            &&& !has_meta_char(s)
            &&& limit > 0 ==> s.len() <= limit
            &&& (limit == 0 || crate::escape::utf8_len(e) <= limit) ==> s == e
            &&& (0 < limit < 4 && crate::escape::utf8_len(e) > limit) ==> s.is_prefix_of(e)
            &&& (limit >= 4 && crate::escape::utf8_len(e) > limit) ==> {
                &&& s.len() >= 3
                &&& s.subrange(0, s.len() - 3).is_prefix_of(e)
                &&& s.subrange(s.len() - 3, s.len() as int) == seq!['.', '.', '.']
            }
        }),
{
    let e = escaped(v);
    let s = truncated(e, limit);
    law_shown_value_has_no_meta_char(v, limit);
    if limit > 0 {
        crate::escape::law_truncate_bounded(e, limit);
    }
    if limit >= 4 && crate::escape::utf8_len(e) > limit {
        let p = char_prefix(e, limit - 3);
        assert(s.subrange(0, s.len() - 3) =~= p);
        assert(s.subrange(s.len() - 3, s.len() as int) =~= seq!['.', '.', '.']);
    }
}

/// Law: the bordered table lays out, under a header of the escaped field
/// names, each value escaped first and then truncated to the limit
/// (`truncated(escaped(v), limit)`, see [`law_shown_cell`]), right-aligned
/// when there is a limit; a newline and the footer follow.
pub proof fn law_default_shows_escaped_then_truncated(
    names: Seq<Seq<char>>,
    rows: Seq<Seq<Seq<char>>>,
    limit: nat,
    has_more: bool,
)
    ensures
        render_default(names, rows, limit, has_more) == seq_join(
            comfy_table_lines(
                default_preset(),
                Some(Seq::new(names.len(), |i: int| escaped(names[i]))),
                Seq::new(
                    rows.len(),
                    |r: int| Seq::new(rows[r].len(), |c: int| truncated(escaped(rows[r][c]), limit)),
                ),
                0,
                3,
                limit != 0,
            ),
            seq!['\n'],
        ) + seq!['\n'] + footer_text(rows.len(), has_more),
{
    assert(escaped_names(names) =~= Seq::new(names.len(), |i: int| escaped(names[i])));
    let cells = Seq::new(
        rows.len(),
        |r: int| Seq::new(rows[r].len(), |c: int| truncated(escaped(rows[r][c]), limit)),
    );
    assert forall|r: int| 0 <= r < rows.len() implies #[trigger] shown_rows(rows, limit)[r]
        =~= cells[r] by {}
    assert(shown_rows(rows, limit) =~= cells);
}

/// The two-cell lines of all records, indexed: line `r * n + f` (with `n`
/// fields) is the name of field `f` beside the shown value of field `f` in
/// record `r`.
proof fn lemma_vertical_rows_index(names: Seq<Seq<char>>, rows: Seq<Seq<Seq<char>>>, limit: nat)
    requires
        names.len() > 0,
    ensures
        vertical_rows(names, rows, limit).len() == rows.len() * names.len(),
        forall|k: int|
            0 <= k < rows.len() * names.len() ==> #[trigger] vertical_rows(names, rows, limit)[k]
                == seq![
                names[k % names.len() as int],
                truncated(escaped(rows[k / names.len() as int][k % names.len() as int]), limit),
            ],
    decreases rows.len(),
{
    let n = names.len() as int;
    if rows.len() == 0 {
        assert(rows.len() * names.len() == 0);
    } else {
        let prev = rows.drop_last();
        lemma_vertical_rows_index(names, prev, limit);
        let l = prev.len() as int;
        assert((l + 1) * n == l * n + n) by (nonlinear_arith);
        assert(rows.len() * names.len() == (l + 1) * n);
        let all = vertical_rows(names, rows, limit);
        assert forall|k: int| 0 <= k < rows.len() * names.len() implies #[trigger] all[k] == seq![
            names[k % n],
            truncated(escaped(rows[k / n][k % n]), limit),
        ] by {
            if k < l * n {
                assert(0 <= k / n < l) by {
                    vstd::arithmetic::div_mod::lemma_div_pos_is_pos(k, n);
                    vstd::arithmetic::div_mod::lemma_div_is_ordered(k, l * n - 1, n);
                    assert((l * n - 1) / n < l) by {
                        vstd::arithmetic::div_mod::lemma_div_by_multiple_is_strongly_ordered(
                            l * n - 1,
                            l * n,
                            l,
                            n,
                        );
                        vstd::arithmetic::div_mod::lemma_div_by_multiple(l, n);
                    }
                }
                assert(rows[k / n] == prev[k / n]);
            } else {
                let f = k - l * n;
                vstd::arithmetic::div_mod::lemma_fundamental_div_mod_converse(k, n, l, f);
                assert(rows[l] == rows.last());
            }
        }
    }
}

/// Law: the vertical listing lays out, for record after record and field
/// after field, the field's name unchanged beside the value escaped first and
/// then truncated to the limit (`truncated(escaped(v), limit)`, see
/// [`law_shown_cell`]); the record headers, a newline and the footer follow
/// as [`vertical_lines`] and [`footer_text`] say.
pub proof fn law_vertical_shows_name_beside_cut_value(
    names: Seq<Seq<char>>,
    rows: Seq<Seq<Seq<char>>>,
    limit: nat,
    has_more: bool,
)
    requires
        names.len() > 0,
    ensures
        render_vertical(names, rows, limit, has_more) == seq_join(
            vertical_lines(
                comfy_table_lines(
                    vertical_preset(),
                    None,
                    Seq::new(
                        rows.len() * names.len(),
                        |k: int|
                            seq![
                                names[k % names.len() as int],
                                truncated(
                                    escaped(rows[k / names.len() as int][k % names.len() as int]),
                                    limit,
                                ),
                            ],
                    ),
                    1,
                    3,
                    false,
                ),
                names.len(),
                rows.len(),
            ),
            seq!['\n'],
        ) + seq!['\n'] + footer_text(rows.len(), has_more),
{
    lemma_vertical_rows_index(names, rows, limit);
    let pairs = Seq::new(
        rows.len() * names.len(),
        |k: int|
            seq![
                names[k % names.len() as int],
                truncated(escaped(rows[k / names.len() as int][k % names.len() as int]), limit),
            ],
    );
    assert(vertical_rows(names, rows, limit) =~= pairs);
}

/// Law: a value as shown in the HTML table is first truncated to the limit,
/// then encoded: the encoded text holds no `<` or `>`, the value appears
/// whole when it fits in the limit, and otherwise a truncation of it (of at
/// most `limit` characters) is encoded.
pub proof fn law_html_cell(v: Seq<char>, limit: nat)
    ensures
        ({
            let t = truncated(v, limit);
            &&& forall|i: int| 0 <= i < html_text(t).len() ==> #[trigger] html_text(t)[i] != '<'
                && html_text(t)[i] != '>'
            &&& (limit == 0 || crate::escape::utf8_len(v) <= limit) ==> html_text(t) == html_text(v)
            &&& limit > 0 ==> t.len() <= limit
        }),
{
    crate::html::law_html_text_has_no_angle_brackets(truncated(v, limit));
    if limit > 0 {
        crate::escape::law_truncate_bounded(v, limit);
    }
}

/// Law: the HTML table is the opening tag, a header row of the encoded field
/// names, one row per record whose cells are the values truncated to the
/// limit and then encoded (see [`law_html_cell`]), and the closing tag, joined
/// by newlines; a newline and the footer follow.
pub proof fn law_html_encodes_truncated_values(
    names: Seq<Seq<char>>,
    rows: Seq<Seq<Seq<char>>>,
    limit: nat,
    has_more: bool,
)
    ensures
        render_html(names, rows, limit, has_more) == seq_join(
            seq![
                "<table border='1'>"@,
                "<tr>"@ + seq_join(
                    Seq::new(names.len(), |i: int| "<th>"@ + html_text(names[i]) + "</th>"@),
                    Seq::empty(),
                ) + "</tr>"@,
            ] + Seq::new(
                rows.len(),
                |r: int|
                    "<tr>"@ + seq_join(
                        Seq::new(
                            rows[r].len(),
                            |c: int| "<td>"@ + html_text(truncated(rows[r][c], limit)) + "</td>"@,
                        ),
                        Seq::empty(),
                    ) + "</tr>"@,
            ) + seq!["</table>"@],
            seq!['\n'],
        ) + seq!['\n'] + footer_text(rows.len(), has_more),
{
    let header = Seq::new(names.len(), |i: int| "<th>"@ + html_text(names[i]) + "</th>"@);
    assert(Seq::new(names.len(), |i: int| html_header_cell(names[i])) =~= header);
    let body = Seq::new(
        rows.len(),
        |r: int|
            "<tr>"@ + seq_join(
                Seq::new(
                    rows[r].len(),
                    |c: int| "<td>"@ + html_text(truncated(rows[r][c], limit)) + "</td>"@,
                ),
                Seq::empty(),
            ) + "</tr>"@,
    );
    assert forall|r: int| 0 <= r < rows.len() implies #[trigger] body[r] == html_row(
        Seq::new(rows[r].len(), |c: int| html_value_cell(rows[r][c], limit)),
    ) by {
        assert(Seq::new(rows[r].len(), |c: int| html_value_cell(rows[r][c], limit)) =~= Seq::new(
            rows[r].len(),
            |c: int| "<td>"@ + html_text(truncated(rows[r][c], limit)) + "</td>"@,
        ));
    }
    let lines = seq!["<table border='1'>"@, "<tr>"@ + seq_join(header, Seq::empty()) + "</tr>"@]
        + body + seq!["</table>"@];
    assert(html_lines(names, rows, limit) =~= lines);
}

} // verus!
