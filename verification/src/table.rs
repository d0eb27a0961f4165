//! The table renderer: builds a column-configurable, styled table for one
//! display window of an hourly series, and renders it to text.
//!
//! The planned table is data: a grid of cells, each with its text, its column
//! span, its alignment and its style tag. Styling is decided here, in
//! verified code; the `ansi_term` and `term_table` crates only apply the
//! chosen styles and lay the grid out, behind trusted wrappers.

use vstd::prelude::*;

use crate::numfmt::format_tenths;
use crate::numfmt::tenths_text;
use crate::time::time_label;
use crate::weather::SeriesV;
use crate::weather::WeatherData;
use crate::weather::spec_label;
use crate::window::DisplayWindow;
use term_table::Table;
use term_table::TableStyle;
use term_table::row::Row;
use term_table::table_cell::Alignment;
use term_table::table_cell::TableCell;

verus! {

/// Which optional column groups the table shows, each an independent choice;
/// the time and forecast columns are always shown.
#[derive(Debug, Clone, Copy, PartialEq, Eq, Structural)]
pub struct ColumnSelection {
    pub temperature: bool,
    pub precipitations: bool,
    pub humidity: bool,
    pub wind: bool,
}

impl ColumnSelection {
    /// Every optional column group enabled.
    pub fn full() -> (r: ColumnSelection)
        ensures
            r.temperature && r.precipitations && r.humidity && r.wind,
    {
        ColumnSelection { temperature: true, precipitations: true, humidity: true, wind: true }
    }

    /// No optional column group enabled.
    pub fn none() -> (r: ColumnSelection)
        ensures
            !r.temperature && !r.precipitations && !r.humidity && !r.wind,
    {
        ColumnSelection { temperature: false, precipitations: false, humidity: false, wind: false }
    }
}

/// Horizontal alignment of a cell's content.
#[derive(Debug, Clone, Copy, PartialEq, Eq, Structural)]
pub enum CellAlign {
    Left,
    Center,
    Right,
}

/// The visual emphasis of a cell: plain, the bold title emphasis, or the
/// highlight that marks a strictly positive precipitation value.
#[derive(Debug, Clone, Copy, PartialEq, Eq, Structural)]
pub enum CellStyle {
    Plain,
    Title,
    Highlight,
}

/// One cell of the planned table.
pub struct Cell {
    pub text: String,
    pub span: usize,
    pub align: CellAlign,
    pub style: CellStyle,
}

/// The mathematical model of one planned cell.
#[verifier::ext_equal]
pub struct CellV {
    pub text: Seq<char>,
    pub span: int,
    pub align: CellAlign,
    pub style: CellStyle,
}

impl View for Cell {
    type V = CellV;

    open spec fn view(&self) -> CellV {
        CellV { text: self.text@, span: self.span as int, align: self.align, style: self.style }
    }
}

impl DeepView for Cell {
    type V = CellV;

    open spec fn deep_view(&self) -> CellV {
        self@
    }
}

/// A cell model from its parts.
pub open spec fn cell_v(text: Seq<char>, span: int, align: CellAlign, style: CellStyle) -> CellV {
    CellV { text, span, align, style }
}

/// The emphasis of a measured value: highlighted exactly where the value is
/// strictly positive.
pub open spec fn value_style(v: int) -> CellStyle {
    if v > 0 {
        CellStyle::Highlight
    } else {
        CellStyle::Plain
    }
}

/// The number of leaf columns of the table: time and forecast always, two
/// per temperature and precipitation group, one per humidity and wind group.
pub open spec fn total_columns(sel: ColumnSelection) -> int {
    2 + (if sel.temperature {
        2int
    } else {
        0int
    }) + (if sel.precipitations {
        2int
    } else {
        0int
    }) + (if sel.humidity {
        1int
    } else {
        0int
    }) + (if sel.wind {
        1int
    } else {
        0int
    })
}

/// The title row: one emphasized cell holding the location name and spanning
/// every leaf column.
pub open spec fn title_row(location: Seq<char>, sel: ColumnSelection) -> Seq<CellV> {
    seq![cell_v(location, total_columns(sel), CellAlign::Center, CellStyle::Title)]
}

/// The group-header row: an unlabelled span over the two fixed columns, then
/// one spanning header per enabled group.
pub open spec fn group_header_row(sel: ColumnSelection) -> Seq<CellV> {
    seq![cell_v(""@, 2, CellAlign::Center, CellStyle::Plain)] + (if sel.temperature {
        seq![cell_v("Temperature"@, 2, CellAlign::Center, CellStyle::Plain)]
    } else {
        Seq::<CellV>::empty()
    }) + (if sel.precipitations {
        seq![cell_v("Precipitations"@, 2, CellAlign::Center, CellStyle::Plain)]
    } else {
        Seq::<CellV>::empty()
    }) + (if sel.humidity {
        seq![cell_v("Humidity"@, 1, CellAlign::Center, CellStyle::Plain)]
    } else {
        Seq::<CellV>::empty()
    }) + (if sel.wind {
        seq![cell_v("Wind"@, 1, CellAlign::Center, CellStyle::Plain)]
    } else {
        Seq::<CellV>::empty()
    })
}

/// The sub-header row: one emphasized label per leaf column.
pub open spec fn sub_header_row(sel: ColumnSelection) -> Seq<CellV> {
    seq![
        cell_v("Time"@, 1, CellAlign::Center, CellStyle::Title),
        cell_v("Forecast"@, 1, CellAlign::Center, CellStyle::Title),
    ] + (if sel.temperature {
        seq![
            cell_v("At 2m"@, 1, CellAlign::Center, CellStyle::Title),
            cell_v("Perceived"@, 1, CellAlign::Center, CellStyle::Title),
        ]
    } else {
        Seq::<CellV>::empty()
    }) + (if sel.precipitations {
        seq![
            cell_v("Probability"@, 1, CellAlign::Center, CellStyle::Title),
            cell_v("Quantity"@, 1, CellAlign::Center, CellStyle::Title),
        ]
    } else {
        Seq::<CellV>::empty()
    }) + (if sel.humidity {
        seq![cell_v("Relative"@, 1, CellAlign::Center, CellStyle::Title)]
    } else {
        Seq::<CellV>::empty()
    }) + (if sel.wind {
        seq![cell_v("At 10m"@, 1, CellAlign::Center, CellStyle::Title)]
    } else {
        Seq::<CellV>::empty()
    })
}

/// The body row of sample `i`: its time and forecast label, then one value
/// cell per enabled leaf column. Only precipitation cells carry conditional
/// emphasis: highlighted exactly where the value is strictly positive.
pub open spec fn body_row(sv: SeriesV, sel: ColumnSelection, i: int) -> Seq<CellV> {
    seq![
        cell_v(time_label(sv.datetime[i]), 1, CellAlign::Left, CellStyle::Plain),
        cell_v(spec_label(sv.weathercode[i]), 1, CellAlign::Left, CellStyle::Plain),
    ] + (if sel.temperature {
        seq![
            cell_v(
                tenths_text(sv.temperature_2m[i] as int) + "\u{b0}C"@,
                1,
                CellAlign::Right,
                CellStyle::Plain,
            ),
            cell_v(
                tenths_text(sv.apparent_temperature[i] as int) + "\u{b0}C"@,
                1,
                CellAlign::Right,
                CellStyle::Plain,
            ),
        ]
    } else {
        Seq::<CellV>::empty()
    }) + (if sel.precipitations {
        seq![
            cell_v(
                tenths_text(sv.precipitation_probability[i] as int) + "%"@,
                1,
                CellAlign::Right,
                value_style(sv.precipitation_probability[i] as int),
            ),
            cell_v(
                tenths_text(sv.precipitation[i] as int) + "mm"@,
                1,
                CellAlign::Right,
                value_style(sv.precipitation[i] as int),
            ),
        ]
    } else {
        Seq::<CellV>::empty()
    }) + (if sel.humidity {
        seq![
            cell_v(
                tenths_text(sv.relativehumidity_2m[i] as int) + "%"@,
                1,
                CellAlign::Right,
                CellStyle::Plain,
            ),
        ]
    } else {
        Seq::<CellV>::empty()
    }) + (if sel.wind {
        seq![
            cell_v(
                tenths_text(sv.windspeed_10m[i] as int) + "km/h"@,
                1,
                CellAlign::Right,
                CellStyle::Plain,
            ),
        ]
    } else {
        Seq::<CellV>::empty()
    })
}

/// The body rows of `count` consecutive samples from `start`.
pub open spec fn body_rows(sv: SeriesV, sel: ColumnSelection, start: int, count: int) -> Seq<
    Seq<CellV>,
> {
    Seq::new(count as nat, |k: int| body_row(sv, sel, start + k))
}

/// The whole planned table: the three header rows, then one body row per
/// sample of the window, in chronological order.
pub open spec fn table_model(
    location: Seq<char>,
    sv: SeriesV,
    w: DisplayWindow,
    sel: ColumnSelection,
) -> Seq<Seq<CellV>> {
    seq![title_row(location, sel), group_header_row(sel), sub_header_row(sel)] + body_rows(
        sv,
        sel,
        w.start as int,
        w.count as int,
    )
}

/// The width cap of one column: longer cell content wraps.
pub const MAX_COLUMN_WIDTH: usize = 15;

/// What the table layouter is told of a cell's alignment.
pub open spec fn align_code(a: CellAlign) -> int {
    match a {
        CellAlign::Left => 0,
        CellAlign::Center => 1,
        CellAlign::Right => 2,
    }
}

/// The name of what `ansi_term` paints in the bold yellow title style.
pub uninterp spec fn painted_title(text: Seq<char>) -> Seq<char>;

/// The name of what `ansi_term` paints in the cyan highlight style.
pub uninterp spec fn painted_highlight(text: Seq<char>) -> Seq<char>;

/// The text of a cell once its style tag is applied: plain text stays as it
/// is; the title and highlight styles paint it.
pub open spec fn styled_text(c: CellV) -> Seq<char> {
    match c.style {
        CellStyle::Plain => c.text,
        CellStyle::Title => painted_title(c.text),
        CellStyle::Highlight => painted_highlight(c.text),
    }
}

/// The plain image of a cell as the table layouter receives it: its styled
/// text, its span, its alignment code.
pub open spec fn cell_image(c: CellV) -> (Seq<char>, int, int) {
    (styled_text(c), c.span, align_code(c.align))
}

/// The images of a whole row.
pub open spec fn cell_images(row: Seq<CellV>) -> Seq<(Seq<char>, int, int)> {
    row.map_values(|c: CellV| cell_image(c))
}

/// The images of a whole grid.
pub open spec fn rows_images(rows: Seq<Seq<CellV>>) -> Seq<Seq<(Seq<char>, int, int)>> {
    rows.map_values(|row: Seq<CellV>| cell_images(row))
}

/// The widest column span a cell may have: generous for any real table, and
/// small enough that no row's span sum can overflow the layouter's column
/// arithmetic for any grid that fits in memory.
pub const MAX_CELL_SPAN: usize = 255;

/// Every cell of a planned grid spans at least one column and at most
/// `MAX_CELL_SPAN`: what the table layouter lays out without fault.
pub open spec fn spans_in_range(rows: Seq<Seq<CellV>>) -> bool {
    forall|i: int, j: int|
        0 <= i < rows.len() && 0 <= j < rows[i].len() ==> 1 <= (#[trigger] rows[i][j]).span
            <= MAX_CELL_SPAN
}

/// The same span bound, on the rows a table holds.
pub open spec fn repr_spans_in_range(rows: Seq<Seq<(Seq<char>, int, int)>>) -> bool {
    forall|i: int, j: int|
        0 <= i < rows.len() && 0 <= j < rows[i].len() ==> 1 <= (#[trigger] rows[i][j]).1
            <= MAX_CELL_SPAN
}

#[verifier::external_type_specification]
#[verifier::external_body]
pub struct ExTable(Table);

#[verifier::external_type_specification]
#[verifier::external_body]
pub struct ExTableCell(TableCell);

/// The name of what one `term_table` cell holds: its text, span and
/// alignment code.
pub uninterp spec fn cell_repr(c: TableCell) -> (Seq<char>, int, int);

/// The name of the fixed cell configuration (padded content) that every
/// cell of this library is made with.
pub uninterp spec fn cell_padded(c: TableCell) -> bool;

/// What a sequence of `term_table` cells holds.
pub open spec fn cells_repr(cells: Seq<TableCell>) -> Seq<(Seq<char>, int, int)> {
    cells.map_values(|c: TableCell| cell_repr(c))
}

/// The name of the rows a `term_table` table holds.
pub uninterp spec fn table_rows(t: Table) -> Seq<Seq<(Seq<char>, int, int)>>;

/// The name of the column-width cap a table was made with.
pub uninterp spec fn table_width(t: Table) -> int;

/// The name of the fixed display configuration that every table of this
/// library is made with: the extended line style, the default separator and
/// border settings, and no per-column width overrides.
pub uninterp spec fn table_base_style(t: Table) -> bool;

/// The name of the text that `term_table` renders from a width cap and rows,
/// under the fixed display configuration.
pub uninterp spec fn rendered_of(width: int, rows: Seq<Seq<(Seq<char>, int, int)>>) -> Seq<char>;

/// Relies on `ansi_term::Style::paint` with the bold yellow style
/// (`Style::new().bold().fg(Color::Yellow)`): the painted text is a function
/// of the given text alone.
#[verifier::external_body]
fn paint_title(text: &str) -> (r: String)
    ensures
        r@ == painted_title(text@),
{
    format!("{}", ansi_term::Style::new().bold().fg(ansi_term::Color::Yellow).paint(text))
}

/// Relies on `ansi_term::Style::paint` with the cyan style
/// (`Style::new().fg(Color::Cyan)`): the painted text is a function of the
/// given text alone.
#[verifier::external_body]
fn paint_highlight(text: &str) -> (r: String)
    ensures
        r@ == painted_highlight(text@),
{
    format!("{}", ansi_term::Style::new().fg(ansi_term::Color::Cyan).paint(text))
}

/// Relies on `term_table::table_cell::TableCell`: a cell built from a text,
/// a column span and an alignment holds exactly those. The layouter faults
/// on a cell that spans no column at all, so no such cell is ever made.
#[verifier::external_body]
fn make_cell(text: String, span: usize, align: CellAlign) -> (c: TableCell)
    requires
        1 <= span <= MAX_CELL_SPAN,
    ensures
        cell_repr(c) == (text@, span as int, align_code(align)),
        cell_padded(c),
{
    TableCell {
        data: text,
        col_span: span,
        alignment: match align {
            CellAlign::Left => Alignment::Left,
            CellAlign::Center => Alignment::Center,
            CellAlign::Right => Alignment::Right,
        },
        pad_content: true,
    }
}

/// Relies on `term_table::Table::new`: a fresh table holds no rows; the
/// wrapper fixes the extended line style and the given column-width cap,
/// which `render` then goes by.
#[verifier::external_body]
fn new_table(width: usize) -> (t: Table)
    ensures
        table_rows(t) == Seq::<Seq<(Seq<char>, int, int)>>::empty(),
        table_width(t) == width as int,
        table_base_style(t),
{
    let mut t = Table::new();
    t.max_column_width = width;
    t.style = TableStyle::extended();
    t
}

/// Relies on `term_table::Table::add_row` and `Row::new`: appends one row
/// holding exactly the given cells; the display settings are untouched.
#[verifier::external_body]
fn add_row(t: &mut Table, cells: Vec<TableCell>)
    requires
        forall|k: int| 0 <= k < cells@.len() ==> cell_padded(#[trigger] cells@[k]),
    ensures
        table_rows(*final(t)) == table_rows(*old(t)).push(cells_repr(cells@)),
        table_width(*final(t)) == table_width(*old(t)),
        table_base_style(*final(t)) == table_base_style(*old(t)),
{
    t.add_row(Row::new(cells));
}

/// Relies on `term_table::Table::render`: under the fixed display
/// configuration, the rendered text is a function of the width cap and the
/// rows alone. A cell spanning no column would make the layouter's column
/// bookkeeping index out of bounds, and a degenerate span would overflow its
/// column sum, so every span must be in range.
#[verifier::external_body]
fn render_rows_text(t: &Table) -> (r: String)
    requires
        table_base_style(*t),
        repr_spans_in_range(table_rows(*t)),
    ensures
        r@ == rendered_of(table_width(*t), table_rows(*t)),
{
    t.render()
}

/// The style to show a measured value with: the greater style where the
/// value exceeds the threshold, else the lesser one.
fn style_if_greater(data: i32, than: i32, gr: CellStyle, ls: CellStyle) -> (r: CellStyle)
    ensures
        r == (if data > than {
            gr
        } else {
            ls
        }),
{
    if data > than {
        gr
    } else {
        ls
    }
}

/// The text of a planned cell once its style is applied.
fn styled_cell_text(c: &Cell) -> (r: String)
    ensures
        r@ == styled_text(c@),
{
    match c.style {
        CellStyle::Plain => c.text.clone(),
        CellStyle::Title => paint_title(c.text.as_str()),
        CellStyle::Highlight => paint_highlight(c.text.as_str()),
    }
}

/// The rendered text of a planned grid, under the standard width cap.
pub open spec fn spec_render(rows: Seq<Seq<CellV>>) -> Seq<char> {
    rendered_of(MAX_COLUMN_WIDTH as int, rows_images(rows))
}

/// Lays a planned grid out as text: every cell is painted according to its
/// style tag and handed to the table layouter with its span and alignment.
pub fn render_table(rows: &Vec<Vec<Cell>>) -> (r: String)
    requires
        spans_in_range(rows.deep_view()),
    ensures
        r@ == spec_render(rows.deep_view()),
{
    let mut t = new_table(MAX_COLUMN_WIDTH);
    let mut i: usize = 0;
    while i < rows.len()
        invariant
            i <= rows@.len(),
            spans_in_range(rows.deep_view()),
            table_base_style(t),
            table_width(t) == MAX_COLUMN_WIDTH as int,
            table_rows(t) == rows_images(rows.deep_view().take(i as int)),
        decreases rows@.len() - i,
    {
        let row = &rows[i];
        let mut cells: Vec<TableCell> = Vec::new();
        let mut j: usize = 0;
        while j < row.len()
            invariant
                j <= row@.len(),
                i < rows@.len(),
                spans_in_range(rows.deep_view()),
                row.deep_view() == rows.deep_view()[i as int],
                cells_repr(cells@) == cell_images(row.deep_view().take(j as int)),
                forall|k: int| 0 <= k < cells@.len() ==> cell_padded(#[trigger] cells@[k]),
            decreases row@.len() - j,
        {
            let ghost prev = cells@;
            proof {
                assert(rows.deep_view()[i as int][j as int] == row.deep_view()[j as int]);
            }
            let text = styled_cell_text(&row[j]);
            let c = make_cell(text, row[j].span, row[j].align);
            cells.push(c);
            proof {
                assert(cells_repr(cells@) =~= cells_repr(prev).push(cell_repr(c)));
                assert(cell_repr(c) == cell_image(row.deep_view()[j as int]));
                assert(cell_images(row.deep_view().take(j as int + 1)) =~= cell_images(
                    row.deep_view().take(j as int),
                ).push(cell_image(row.deep_view()[j as int])));
            }
            j += 1;
        }
        proof {
            assert(row.deep_view().take(row@.len() as int) =~= row.deep_view());
        }
        let ghost prev_rows = table_rows(t);
        add_row(&mut t, cells);
        proof {
            assert(rows_images(rows.deep_view().take(i as int + 1)) =~= rows_images(
                rows.deep_view().take(i as int),
            ).push(cell_images(rows.deep_view()[i as int])));
        }
        i += 1;
    }
    proof {
        assert(rows.deep_view().take(rows@.len() as int) =~= rows.deep_view());
        assert forall|a: int, b: int|
            0 <= a < table_rows(t).len() && 0 <= b < table_rows(t)[a].len() implies 1 <= (
        #[trigger] table_rows(t)[a][b]).1 <= MAX_CELL_SPAN by {
            assert(table_rows(t)[a] == cell_images(rows.deep_view()[a]));
            assert(table_rows(t)[a][b] == cell_image(rows.deep_view()[a][b]));
        }
    }
    render_rows_text(&t)
}

/// The leaf-column count of a selection.
fn total_columns_exec(sel: &ColumnSelection) -> (r: usize)
    ensures
        r as int == total_columns(*sel),
{
    let mut n: usize = 2;
    if sel.temperature {
        n += 2;
    }
    if sel.precipitations {
        n += 2;
    }
    if sel.humidity {
        n += 1;
    }
    if sel.wind {
        n += 1;
    }
    n
}

/// Builds the group-header row for a selection.
fn build_group_header_row(sel: &ColumnSelection) -> (row: Vec<Cell>)
    ensures
        row.deep_view() == group_header_row(*sel),
{
    let mut row: Vec<Cell> = Vec::new();
    proof {
        reveal_strlit("");
    }
    row.push(
        Cell { text: String::new(), span: 2, align: CellAlign::Center, style: CellStyle::Plain },
    );
    if sel.temperature {
        row.push(
            Cell {
                text: String::from_str("Temperature"),
                span: 2,
                align: CellAlign::Center,
                style: CellStyle::Plain,
            },
        );
    }
    if sel.precipitations {
        row.push(
            Cell {
                text: String::from_str("Precipitations"),
                span: 2,
                align: CellAlign::Center,
                style: CellStyle::Plain,
            },
        );
    }
    if sel.humidity {
        row.push(
            Cell {
                text: String::from_str("Humidity"),
                span: 1,
                align: CellAlign::Center,
                style: CellStyle::Plain,
            },
        );
    }
    if sel.wind {
        row.push(
            Cell {
                text: String::from_str("Wind"),
                span: 1,
                align: CellAlign::Center,
                style: CellStyle::Plain,
            },
        );
    }
    proof {
        assert(row.deep_view() =~~= group_header_row(*sel));
    }
    row
}

/// Builds the sub-header row for a selection.
fn build_sub_header_row(sel: &ColumnSelection) -> (row: Vec<Cell>)
    ensures
        row.deep_view() == sub_header_row(*sel),
{
    let mut row: Vec<Cell> = Vec::new();
    row.push(
        Cell {
            text: String::from_str("Time"),
            span: 1,
            align: CellAlign::Center,
            style: CellStyle::Title,
        },
    );
    row.push(
        Cell {
            text: String::from_str("Forecast"),
            span: 1,
            align: CellAlign::Center,
            style: CellStyle::Title,
        },
    );
    if sel.temperature {
        row.push(
            Cell {
                text: String::from_str("At 2m"),
                span: 1,
                align: CellAlign::Center,
                style: CellStyle::Title,
            },
        );
        row.push(
            Cell {
                text: String::from_str("Perceived"),
                span: 1,
                align: CellAlign::Center,
                style: CellStyle::Title,
            },
        );
    }
    if sel.precipitations {
        row.push(
            Cell {
                text: String::from_str("Probability"),
                span: 1,
                align: CellAlign::Center,
                style: CellStyle::Title,
            },
        );
        row.push(
            Cell {
                text: String::from_str("Quantity"),
                span: 1,
                align: CellAlign::Center,
                style: CellStyle::Title,
            },
        );
    }
    if sel.humidity {
        row.push(
            Cell {
                text: String::from_str("Relative"),
                span: 1,
                align: CellAlign::Center,
                style: CellStyle::Title,
            },
        );
    }
    if sel.wind {
        row.push(
            Cell {
                text: String::from_str("At 10m"),
                span: 1,
                align: CellAlign::Center,
                style: CellStyle::Title,
            },
        );
    }
    proof {
        assert(row.deep_view() =~~= sub_header_row(*sel));
    }
    row
}

/// Builds the body row of sample `i`.
fn build_body_row(data: &WeatherData, sel: &ColumnSelection, i: usize) -> (row: Vec<Cell>)
    requires
        data.wf(),
        i < data.spec_len(),
    ensures
        row.deep_view() == body_row(data@, *sel, i as int),
{
    let mut row: Vec<Cell> = Vec::new();
    row.push(
        Cell {
            text: data.datetime[i].format_display(),
            span: 1,
            align: CellAlign::Left,
            style: CellStyle::Plain,
        },
    );
    row.push(
        Cell {
            text: String::from_str(data.weathercode[i].label()),
            span: 1,
            align: CellAlign::Left,
            style: CellStyle::Plain,
        },
    );
    if sel.temperature {
        let mut t1 = format_tenths(data.temperature_2m[i]);
        t1.append("\u{b0}C");
        row.push(Cell { text: t1, span: 1, align: CellAlign::Right, style: CellStyle::Plain });
        let mut t2 = format_tenths(data.apparent_temperature[i]);
        t2.append("\u{b0}C");
        row.push(Cell { text: t2, span: 1, align: CellAlign::Right, style: CellStyle::Plain });
    }
    if sel.precipitations {
        let prob = data.precipitation_probability[i];
        let mut p1 = format_tenths(prob);
        p1.append("%");
        row.push(
            Cell {
                text: p1,
                span: 1,
                align: CellAlign::Right,
                style: style_if_greater(prob, 0, CellStyle::Highlight, CellStyle::Plain),
            },
        );
        let prec = data.precipitation[i];
        let mut p2 = format_tenths(prec);
        p2.append("mm");
        row.push(
            Cell {
                text: p2,
                span: 1,
                align: CellAlign::Right,
                style: style_if_greater(prec, 0, CellStyle::Highlight, CellStyle::Plain),
            },
        );
    }
    if sel.humidity {
        let mut h = format_tenths(data.relativehumidity_2m[i]);
        h.append("%");
        row.push(Cell { text: h, span: 1, align: CellAlign::Right, style: CellStyle::Plain });
    }
    if sel.wind {
        let mut v = format_tenths(data.windspeed_10m[i]);
        v.append("km/h");
        row.push(Cell { text: v, span: 1, align: CellAlign::Right, style: CellStyle::Plain });
    }
    proof {
        assert(row.deep_view() =~~= body_row(data@, *sel, i as int));
    }
    row
}

/// Builds the planned table for one display window: the title, group-header
/// and sub-header rows, then one body row per sample of the window. The
/// column set is built from the selection at each call, never statically.
#[verifier::rlimit(50)]
pub fn build_table(
    location: &str,
    data: &WeatherData,
    w: &DisplayWindow,
    sel: &ColumnSelection,
) -> (rows: Vec<Vec<Cell>>)
    requires
        data.wf(),
        w.start + w.count <= data.spec_len(),
    ensures
        rows.deep_view() == table_model(location@, data@, *w, *sel),
{
    let mut rows: Vec<Vec<Cell>> = Vec::new();
    let mut title: Vec<Cell> = Vec::new();
    title.push(
        Cell {
            text: String::from_str(location),
            span: total_columns_exec(sel),
            align: CellAlign::Center,
            style: CellStyle::Title,
        },
    );
    rows.push(title);
    rows.push(build_group_header_row(sel));
    rows.push(build_sub_header_row(sel));
    let n_bound = data.len();
    proof {
        assert(rows.deep_view() =~~= seq![
            title_row(location@, *sel),
            group_header_row(*sel),
            sub_header_row(*sel),
        ] + body_rows(data@, *sel, w.start as int, 0));
    }
    let mut k: usize = 0;
    while k < w.count
        invariant
            data.wf(),
            w.start + w.count <= data.spec_len(),
            data.spec_len() == n_bound,
            k <= w.count,
            rows.deep_view() == seq![
                title_row(location@, *sel),
                group_header_row(*sel),
                sub_header_row(*sel),
            ] + body_rows(data@, *sel, w.start as int, k as int),
        decreases w.count - k,
    {
        let ghost prev = rows.deep_view();
        let r = build_body_row(data, sel, w.start + k);
        rows.push(r);
        proof {
            assert(rows.deep_view() =~= prev.push(r.deep_view()));
            assert(rows.deep_view() =~= seq![
                title_row(location@, *sel),
                group_header_row(*sel),
                sub_header_row(*sel),
            ] + body_rows(data@, *sel, w.start as int, k as int + 1));
        }
        k += 1;
    }
    proof {
        assert(rows.deep_view() =~= table_model(location@, data@, *w, *sel));
    }
    rows
}

/// The text of the whole forecast table for a located series, window and
/// column selection.
pub open spec fn weather_table_text(
    location: Seq<char>,
    sv: SeriesV,
    w: DisplayWindow,
    sel: ColumnSelection,
) -> Seq<char> {
    spec_render(table_model(location, sv, w, sel))
}

/// Every cell of the planned table spans between one and all of the leaf
/// columns: no cell is degenerate.
pub proof fn lemma_table_model_spans(
    location: Seq<char>,
    sv: SeriesV,
    w: DisplayWindow,
    sel: ColumnSelection,
)
    ensures
        spans_in_range(table_model(location, sv, w, sel)),
{
    let rows = table_model(location, sv, w, sel);
    assert forall|i: int, j: int| 0 <= i < rows.len() && 0 <= j < rows[i].len() implies 1 <= (
    #[trigger] rows[i][j]).span <= MAX_CELL_SPAN by {
        if i >= 3 {
            assert(rows[i] == body_row(sv, sel, w.start + (i - 3)));
        }
    }
}

/// Builds and renders the forecast table for one display window. Rendering
/// never fails on a valid series and window: this is a pure formatting step.
pub fn render_weather_table(
    location: &str,
    data: &WeatherData,
    w: &DisplayWindow,
    sel: &ColumnSelection,
) -> (r: String)
    requires
        data.wf(),
        w.start + w.count <= data.spec_len(),
    ensures
        r@ == weather_table_text(location@, data@, *w, *sel),
{
    let rows = build_table(location, data, w, sel);
    proof {
        lemma_table_model_spans(location@, data@, *w, *sel);
    }
    render_table(&rows)
}

/// The sum of the column spans of a row.
pub open spec fn span_sum(row: Seq<CellV>) -> int
    decreases row.len(),
{
    if row.len() == 0 {
        0
    } else {
        row[0].span + span_sum(row.drop_first())
    }
}

/// Span sums add over concatenation.
pub proof fn lemma_span_sum_concat(a: Seq<CellV>, b: Seq<CellV>)
    ensures
        span_sum(a + b) == span_sum(a) + span_sum(b),
    decreases a.len(),
{
    if a.len() == 0 {
        assert(a + b =~= b);
    } else {
        assert((a + b).drop_first() =~= a.drop_first() + b);
        lemma_span_sum_concat(a.drop_first(), b);
    }
}

/// The span sum of a one-cell row is that cell's span.
pub proof fn lemma_span_sum_single(c: CellV)
    ensures
        span_sum(seq![c]) == c.span,
{
    assert(seq![c].drop_first() =~= Seq::<CellV>::empty());
    assert(span_sum(Seq::<CellV>::empty()) == 0);
}

/// The group headers always span the leaf columns exactly.
pub proof fn lemma_group_header_spans(sel: ColumnSelection)
    ensures
        span_sum(group_header_row(sel)) == total_columns(sel),
{
    let g0 = seq![cell_v(""@, 2, CellAlign::Center, CellStyle::Plain)];
    let g1 = if sel.temperature {
        seq![cell_v("Temperature"@, 2, CellAlign::Center, CellStyle::Plain)]
    } else {
        Seq::<CellV>::empty()
    };
    let g2 = if sel.precipitations {
        seq![cell_v("Precipitations"@, 2, CellAlign::Center, CellStyle::Plain)]
    } else {
        Seq::<CellV>::empty()
    };
    let g3 = if sel.humidity {
        seq![cell_v("Humidity"@, 1, CellAlign::Center, CellStyle::Plain)]
    } else {
        Seq::<CellV>::empty()
    };
    let g4 = if sel.wind {
        seq![cell_v("Wind"@, 1, CellAlign::Center, CellStyle::Plain)]
    } else {
        Seq::<CellV>::empty()
    };
    assert(group_header_row(sel) == g0 + g1 + g2 + g3 + g4);
    lemma_span_sum_concat(g0 + g1 + g2 + g3, g4);
    lemma_span_sum_concat(g0 + g1 + g2, g3);
    lemma_span_sum_concat(g0 + g1, g2);
    lemma_span_sum_concat(g0, g1);
    lemma_span_sum_single(cell_v(""@, 2, CellAlign::Center, CellStyle::Plain));
    lemma_span_sum_single(cell_v("Temperature"@, 2, CellAlign::Center, CellStyle::Plain));
    lemma_span_sum_single(cell_v("Precipitations"@, 2, CellAlign::Center, CellStyle::Plain));
    lemma_span_sum_single(cell_v("Humidity"@, 1, CellAlign::Center, CellStyle::Plain));
    lemma_span_sum_single(cell_v("Wind"@, 1, CellAlign::Center, CellStyle::Plain));
}

/// The shape of the table: three header rows and one body row per window
/// sample; the title cell and the group headers span exactly the leaf
/// columns; every leaf row has one cell per leaf column. With no optional
/// group there are exactly the two fixed leaf columns; with all four there
/// are exactly eight.
pub proof fn lemma_table_shape(
    location: Seq<char>,
    sv: SeriesV,
    w: DisplayWindow,
    sel: ColumnSelection,
)
    ensures
        table_model(location, sv, w, sel).len() == 3 + w.count,
        table_model(location, sv, w, sel)[0].len() == 1,
        table_model(location, sv, w, sel)[0][0].span == total_columns(sel),
        span_sum(group_header_row(sel)) == total_columns(sel),
        sub_header_row(sel).len() == total_columns(sel),
        forall|k: int|
            3 <= k < table_model(location, sv, w, sel).len() ==> (#[trigger] table_model(
                location,
                sv,
                w,
                sel,
            )[k]).len() == total_columns(sel),
        (!sel.temperature && !sel.precipitations && !sel.humidity && !sel.wind) ==> total_columns(
            sel,
        ) == 2 && sub_header_row(sel) == seq![
            cell_v("Time"@, 1, CellAlign::Center, CellStyle::Title),
            cell_v("Forecast"@, 1, CellAlign::Center, CellStyle::Title),
        ],
        (sel.temperature && sel.precipitations && sel.humidity && sel.wind) ==> total_columns(sel)
            == 8,
{
    lemma_group_header_spans(sel);
    if !sel.temperature && !sel.precipitations && !sel.humidity && !sel.wind {
        assert(sub_header_row(sel) =~= seq![
            cell_v("Time"@, 1, CellAlign::Center, CellStyle::Title),
            cell_v("Forecast"@, 1, CellAlign::Center, CellStyle::Title),
        ]);
    }
}

/// A precipitation probability or quantity cell is highlighted exactly when
/// its value is strictly greater than zero; a value of zero or below is
/// never highlighted.
pub proof fn lemma_precipitation_highlight(sv: SeriesV, sel: ColumnSelection, i: int)
    requires
        sel.precipitations,
    ensures
        ({
            let row = body_row(sv, sel, i);
            let off = if sel.temperature {
                4int
            } else {
                2int
            };
            &&& (row[off].style is Highlight <==> sv.precipitation_probability[i] > 0)
            &&& (row[off + 1].style is Highlight <==> sv.precipitation[i] > 0)
        }),
{
}

/// Rendering is deterministic: two renderings of one location name, series,
/// window and selection are byte-identical.
pub proof fn lemma_render_deterministic(
    r1: Seq<char>,
    r2: Seq<char>,
    location: Seq<char>,
    sv: SeriesV,
    w: DisplayWindow,
    sel: ColumnSelection,
)
    requires
        r1 == weather_table_text(location, sv, w, sel),
        r2 == weather_table_text(location, sv, w, sel),
    ensures
        r1 == r2,
{
}

} // verus!
