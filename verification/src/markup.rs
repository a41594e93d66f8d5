//! The schedule page as rows and cells of text, cut out of the markup by
//! scraper's HTML parser and CSS selectors.

use scraper::Html;
use scraper::Selector;
use vstd::prelude::*;

verus! {

/// Selects the rows of the schedule table.
pub const ROW_SELECTOR: &'static str = "div > table > tbody > tr";

/// Selects the cells of a row.
pub const CELL_SELECTOR: &'static str = "td";

/// Selects the entries of the list that a cell holds.
pub const ITEM_SELECTOR: &'static str = "ul > li";

/// One cell of a schedule row.
#[derive(Clone, Debug, PartialEq, Eq)]
pub struct ScheduleCell {
    /// The markup inside the cell, as the page serialises it.
    pub content: String,
    /// The markup inside each list entry below the cell, in document order.
    pub items: Vec<String>,
}

/// One row of the schedule table.
#[derive(Clone, Debug, PartialEq, Eq)]
pub struct ScheduleRow {
    /// The markup of the whole row, its own tag included.
    pub markup: String,
    /// The row's cells, in document order.
    pub cells: Vec<ScheduleCell>,
}

/// A cell as plain text.
pub struct CellView {
    pub content: Seq<char>,
    pub items: Seq<Seq<char>>,
}

/// A row as plain text.
pub struct RowView {
    pub markup: Seq<char>,
    pub cells: Seq<CellView>,
}

/// The characters of each text in `texts`.
pub open spec fn texts_view(texts: Seq<String>) -> Seq<Seq<char>> {
    texts.map_values(|text: String| text@)
}

/// The plain-text form of each cell in `cells`.
pub open spec fn cells_view(cells: Seq<ScheduleCell>) -> Seq<CellView> {
    cells.map_values(|cell: ScheduleCell| cell@)
}

/// The plain-text form of each row in `rows`.
pub open spec fn rows_view(rows: Seq<ScheduleRow>) -> Seq<RowView> {
    rows.map_values(|row: ScheduleRow| row@)
}

impl View for ScheduleCell {
    type V = CellView;

    open spec fn view(&self) -> CellView {
        CellView { content: self.content@, items: texts_view(self.items@) }
    }
}

impl View for ScheduleRow {
    type V = RowView;

    open spec fn view(&self) -> RowView {
        RowView { markup: self.markup@, cells: cells_view(self.cells@) }
    }
}

/// What scraper finds in the page `document` under three selectors: the
/// elements that match `row`, in document order; below each of them the
/// elements that match `cell`; below each of those the elements that match
/// `item`. A row carries its serialised markup, a cell and an item the
/// serialised markup of their children. `None` where scraper rejects one of
/// the selectors.
pub uninterp spec fn selected_rows(
    document: Seq<char>,
    row: Seq<char>,
    cell: Seq<char>,
    item: Seq<char>,
) -> Option<Seq<RowView>>;

/// Why a page gave no rows.
#[derive(Clone, Copy, Debug, PartialEq, Eq, Structural)]
pub enum LayoutFault {
    /// scraper rejected one of the selectors that describe the table.
    Selector,
}

/// The rows that the page `document` holds under the three selectors, or the
/// fault where scraper rejects one of them.
pub open spec fn table_rows(
    document: Seq<char>,
    row: Seq<char>,
    cell: Seq<char>,
    item: Seq<char>,
) -> Result<Seq<RowView>, LayoutFault> {
    match selected_rows(document, row, cell, item) {
        Some(rows) => Ok(rows),
        None => Err(LayoutFault::Selector),
    }
}

/// The rows of the schedule table in the page `document`.
pub open spec fn schedule_rows(document: Seq<char>) -> Result<Seq<RowView>, LayoutFault> {
    table_rows(document, ROW_SELECTOR@, CELL_SELECTOR@, ITEM_SELECTOR@)
}

/// The outcome of reading a table as plain text.
pub open spec fn table_view(outcome: Result<Vec<ScheduleRow>, LayoutFault>) -> Result<
    Seq<RowView>,
    LayoutFault,
> {
    match outcome {
        Ok(rows) => Ok(rows_view(rows@)),
        Err(fault) => Err(fault),
    }
}

/// Parses the three selectors with scraper's `Selector::parse` and the page
/// with `Html::parse_document`, then walks `Html::select` for the rows and
/// `ElementRef::select` for the cells of a row and the items of a cell,
/// keeping `ElementRef::html` of a row and `ElementRef::inner_html` of a cell
/// and of an item. Trusted: the outcome is the one that `selected_rows`
/// names, `None` exactly where a selector fails to parse.
#[verifier::external_body]
fn select_rows(document: &str, row: &str, cell: &str, item: &str) -> (rows: Option<Vec<ScheduleRow>>)
    ensures
        rows matches Some(found) ==> selected_rows(document@, row@, cell@, item@) == Some(
            rows_view(found@),
        ),
        rows is None ==> selected_rows(document@, row@, cell@, item@) is None,
{
    let (Ok(row), Ok(cell), Ok(item)) = (Selector::parse(row), Selector::parse(cell), Selector::parse(item)) else {
        return None;
    };
    let page = Html::parse_document(document);
    Some(page.select(&row).map(|tr| ScheduleRow {
        markup: tr.html(),
        cells: tr.select(&cell).map(|td| ScheduleCell {
            content: td.inner_html(),
            items: td.select(&item).map(|li| li.inner_html()).collect(),
        }).collect(),
    }).collect())
}

/// Cuts a table out of the page `document`: one row for each element that
/// the selector `row` matches, in document order, with the cells that `cell`
/// matches below it and, for each cell, the list entries that `item` matches
/// below the cell. Fails where one of the three is no selector.
pub fn read_table(document: &str, row: &str, cell: &str, item: &str) -> (outcome: Result<
    Vec<ScheduleRow>,
    LayoutFault,
>)
    ensures
        table_view(outcome) == table_rows(document@, row@, cell@, item@),
{
    match select_rows(document, row, cell, item) {
        Some(rows) => Ok(rows),
        None => Err(LayoutFault::Selector),
    }
}

/// Cuts the schedule table out of the page `document`: its rows under
/// [`ROW_SELECTOR`], their cells under [`CELL_SELECTOR`] and the list entries
/// of each cell under [`ITEM_SELECTOR`].
pub fn read_schedule(document: &str) -> (outcome: Result<Vec<ScheduleRow>, LayoutFault>)
    ensures
        table_view(outcome) == schedule_rows(document@),
{
    read_table(document, ROW_SELECTOR, CELL_SELECTOR, ITEM_SELECTOR)
}

} // verus!
