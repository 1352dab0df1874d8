//! Tables for typeset documents: cells, rows, the table kinds, and the table
//! itself, which fixes a column count at construction and validates every row
//! pushed into it.

use vstd::prelude::*;
use vstd::string::StrSliceExecFns;
use crate::document::Document;
use crate::document::package_views;

verus! {

/// Failure to insert a row into a table. Further kinds of failure may be
/// added, so callers should match on it structurally.
#[derive(Debug, PartialEq, Eq)]
#[non_exhaustive]
pub enum TableError {
    /// The row held the first number of cells, while the table requires the
    /// second number of columns.
    WrongNumberOfColumns(usize, usize),
}

/// A cell in a table.
#[derive(Clone, Debug, PartialEq)]
pub struct Cell {
    /// Content of the cell; expected to be a single line without newlines,
    /// which callers are responsible for.
    pub value: String,
}

impl Cell {
    /// The markup for the cell: its value, unchanged and unescaped.
    pub fn render(&self) -> (r: String)
        ensures
            r@ == self.value@,
    {
        self.value.clone()
    }
}

/// A row in a table.
#[derive(Clone, Debug, PartialEq)]
pub struct Row {
    /// Content of the row, in column order.
    pub cells: Vec<Cell>,
    /// Is it a header row.
    pub is_header: bool,
    /// Is this the first header.
    pub is_first_header: bool,
}

/// The cell values of `cells` joined with the column delimiter `" & "`.
pub open spec fn spec_joined_cells(cells: Seq<Cell>) -> Seq<char>
    decreases cells.len(),
{
    if cells.len() == 0 {
        Seq::<char>::empty()
    } else if cells.len() == 1 {
        cells[0].value@
    } else {
        spec_joined_cells(cells.drop_last()) + " & "@ + cells.last().value@
    }
}

/// The markup line for a row: the joined cell values followed by the row
/// terminator, a space and two backslashes.
pub open spec fn spec_render_row(cells: Seq<Cell>) -> Seq<char> {
    spec_joined_cells(cells) + " \\\\"@
}

impl Row {
    /// Create an empty row that is not a header.
    pub fn new() -> (r: Row)
        ensures
            r.cells@ == Seq::<Cell>::empty(),
            !r.is_header,
            !r.is_first_header,
    {
        Row { cells: Vec::new(), is_header: false, is_first_header: false }
    }

    /// Add a cell holding `content` to the end of the row.
    pub fn push_cell(&mut self, content: String)
        ensures
            final(self).cells@ == old(self).cells@.push((Cell { value: content })),
            final(self).is_header == old(self).is_header,
            final(self).is_first_header == old(self).is_first_header,
    {
        let cell = Cell { value: content };
        self.cells.push(cell);
    }

    /// The markup line for the row: cell values joined by `" & "`, then the
    /// terminator `" \\"`. A row with no cells renders as the terminator alone.
    pub fn render(&self) -> (r: String)
        ensures
            r@ == spec_render_row(self.cells@),
    {
        let mut joined = String::new();
        let mut i: usize = 0;
        while i < self.cells.len()
            invariant
                i <= self.cells.len(),
                joined@ == spec_joined_cells(self.cells@.take(i as int)),
            decreases self.cells.len() - i,
        {
            let ghost prefix = self.cells@.take(i as int);
            if i > 0 {
                joined.append(" & ");
            }
            joined.append(self.cells[i].value.as_str());
            proof {
                let extended = self.cells@.take(i as int + 1);
                assert(extended.drop_last() =~= prefix);
                assert(extended.last() == self.cells@[i as int]);
                if i == 0 {
                    assert(joined@ =~= spec_joined_cells(extended));
                }
            }
            i = i + 1;
        }
        proof {
            assert(self.cells@.take(self.cells@.len() as int) =~= self.cells@);
        }
        joined.append(" \\\\");
        joined
    }
}

impl Default for Row {
    /// The default row is the empty non-header row, as `Row::new` builds it.
    fn default() -> (r: Row)
        ensures
            r.cells@ == Seq::<Cell>::empty(),
            !r.is_header,
            !r.is_first_header,
    {
        Row::new()
    }
}

/// The kind of table: which markup environment its rows belong in.
#[derive(Clone, Debug, PartialEq)]
pub enum TableKind {
    /// A standard table, without the optional floating container.
    Tabular,
    /// A width-aware table with stretchable columns.
    Tabularx,
    /// A table that may break across pages.
    LongTable,
    /// A width-aware table that may break across pages.
    XLTabular,
}

/// The environment name each table kind maps to.
pub open spec fn spec_environment_name(kind: TableKind) -> Seq<char> {
    match kind {
        TableKind::Tabular => "tabular"@,
        TableKind::Tabularx => "tabularx"@,
        TableKind::LongTable => "longtable"@,
        TableKind::XLTabular => "xltabular"@,
    }
}

impl TableKind {
    /// The name of the markup environment for this kind of table.
    pub fn environment_name(&self) -> (r: &str)
        ensures
            r@ == spec_environment_name(*self),
    {
        match *self {
            TableKind::Tabular => "tabular",
            TableKind::Tabularx => "tabularx",
            TableKind::LongTable => "longtable",
            TableKind::XLTabular => "xltabular",
        }
    }
}

/// A table of one of the four kinds: a fixed column layout and the rows
/// accepted so far.
#[derive(Clone, Debug, PartialEq)]
pub struct Table {
    /// The kind of table.
    pub kind: TableKind,
    /// All rows, in insertion order, which is rendering order.
    pub rows: Vec<Row>,
    /// Width of the table, used by the width-aware kinds.
    pub table_width: String,
    /// Cached number of columns, fixed at construction from `column_types`;
    /// not meant to be changed afterwards (see `well_formed`).
    pub column_count: usize,
    /// Column types as a string, one character per column, e.g. `llXrr`.
    pub column_types: String,
}

impl Table {
    /// The column count fixed at construction: the number of characters of
    /// the column-type string the table was built with.
    pub open spec fn spec_column_count(&self) -> usize {
        self.column_count
    }

    /// The table's invariant: the cached column count matches the column-type
    /// string, and every accepted row has exactly that many cells.
    pub open spec fn well_formed(&self) -> bool {
        &&& self.spec_column_count() == self.column_types@.len()
        &&& forall|i: int|
            0 <= i < self.rows@.len() ==> #[trigger] self.rows@[i].cells@.len()
                == self.spec_column_count()
    }

    /// Create an empty table of the given kind, width and column types. The
    /// column count is the number of characters of `column_types`, counted as
    /// Unicode scalar values, and never changes afterwards.
    pub fn new(kind: TableKind, table_width: String, column_types: String) -> (r: Table)
        ensures
            r.kind == kind,
            r.rows@ == Seq::<Row>::empty(),
            r.table_width == table_width,
            r.column_types == column_types,
            r.spec_column_count() == column_types@.len(),
            r.well_formed(),
    {
        let column_count = column_types.as_str().unicode_len();
        Table { kind, rows: Vec::new(), table_width, column_count, column_types }
    }

    /// Number of columns in the table, as fixed at construction; O(1) and
    /// never recomputed from the rows.
    pub fn column_count(&self) -> (r: usize)
        ensures
            r == self.spec_column_count(),
    {
        self.column_count
    }

    /// Add a row to the table. The row is accepted exactly when its cell
    /// count equals the table's column count; it is then appended at the end.
    /// Otherwise the error reports the provided cell count and the required
    /// column count, and the table is left unchanged.
    pub fn push_row(&mut self, row: Row) -> (r: Result<(), TableError>)
        ensures
            r is Ok <==> row.cells@.len() == old(self).spec_column_count(),
            r is Ok ==> final(self).rows@ == old(self).rows@.push(row),
            r is Err ==> *final(self) == *old(self),
            r is Err ==> r == Err::<(), TableError>(
                TableError::WrongNumberOfColumns(
                    row.cells@.len() as usize,
                    old(self).spec_column_count(),
                ),
            ),
            final(self).kind == old(self).kind,
            final(self).table_width == old(self).table_width,
            final(self).column_types == old(self).column_types,
            final(self).spec_column_count() == old(self).spec_column_count(),
            old(self).well_formed() ==> final(self).well_formed(),
    {
        let provided_cells = row.cells.len();
        if provided_cells == self.column_count {
            self.rows.push(row);
            Ok(())
        } else {
            Err(TableError::WrongNumberOfColumns(provided_cells, self.column_count))
        }
    }

    /// Register the package dependency that this table's markup requires with
    /// the document under assembly. The registration is unconditional: every
    /// kind records the same `tabularx` package.
    pub fn prepare_document(&self, document: &mut Document)
        ensures
            package_views(final(document).preamble.used_packages@) == package_views(
                old(document).preamble.used_packages@,
            ).push("tabularx"@),
    {
        document.preamble.use_package("tabularx");
    }
}

} // verus!
