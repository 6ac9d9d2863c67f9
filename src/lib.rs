use vstd::prelude::*;

pub mod style;

use style::{spec_default_style, TableStyle};
use vstd::std_specs::iter::IteratorSpec;

verus! {

/// A cell's place in the grid: row index, column index.
pub type Coord = (i32, i32);

/// Counts the characters of `s`.
fn char_count(s: &str) -> (n: usize)
    requires
        s@.len() <= i32::MAX,
    ensures
        n == s@.len(),
{
    broadcast use vstd::string::axiom_spec_iter, vstd::string::next_postcondition;

    let mut chars = s.chars();
    let mut n: usize = 0;
    loop
        invariant
            n <= s@.len() <= i32::MAX,
            chars.remaining() == s@.skip(n as int),
        decreases s@.len() - n,
    {
        match chars.next() {
            Some(_) => {
                n = n + 1;
            },
            None => {
                return n;
            },
        }
    }
}

/// One cell of the grid.
#[derive(Debug)]
pub struct TableItem {
    pub locate: Coord,
    pub content: Option<String>,
    pub content_len: i32,
    pub style: TableStyle,
}

impl TableItem {
    /// A cell at `locate` with no content and the default style.
    pub open spec fn is_fresh_at(&self, locate: Coord) -> bool {
        &&& self.locate == locate
        &&& self.content is None
        &&& self.content_len == 0
        &&& self.style == spec_default_style()
    }

    /// This cell with its content replaced by `s`.
    pub open spec fn with_content(self, s: String) -> TableItem {
        TableItem { content: Some(s), content_len: s@.len() as i32, ..self }
    }

    /// This cell with its style replaced by `style`.
    pub open spec fn with_style(self, style: TableStyle) -> TableItem {
        TableItem { style, ..self }
    }

    pub fn new(locate: Coord) -> (r: TableItem)
        ensures
            r.is_fresh_at(locate),
    {
        TableItem { locate, content: None, content_len: 0, style: TableStyle::default_style() }
    }
}

/// Exclusive access to one cell of a grid, for as long as it is held.
pub struct SelectedTableItem<'t> {
    pub table_item: &'t mut TableItem,
}

impl<'t> SelectedTableItem<'t> {
    fn new(table_item: &'t mut TableItem) -> (r: SelectedTableItem<'t>)
        ensures
            *r.table_item == *old(table_item),
            *final(r.table_item) == *final(table_item),
    {
        SelectedTableItem { table_item }
    }

    /// Replaces the cell's content and records its length in characters.
    pub fn edit_content(&mut self, new_content: String)
        requires
            new_content@.len() <= i32::MAX,
        ensures
            *final(self).table_item == old(self).table_item.with_content(new_content),
            *final(final(self).table_item) == *final(old(self).table_item),
    {
        let n = char_count(new_content.as_str());
        self.table_item.content = Some(new_content);
        self.table_item.content_len = n as i32;
    }

    /// Replaces the cell's style.
    pub fn edit_style(&mut self, new_style: TableStyle)
        ensures
            *final(self).table_item == old(self).table_item.with_style(new_style),
            *final(final(self).table_item) == *final(old(self).table_item),
    {
        self.table_item.style = new_style;
    }
}

/// One row of the grid.
#[derive(Debug)]
pub struct TableRow {
    pub id: i32,
    pub items: Vec<TableItem>,
}

impl TableRow {
    /// A row with index `id` holding `size` fresh cells, each at its own
    /// coordinate.
    pub open spec fn is_fresh(&self, id: i32, size: i32) -> bool {
        &&& self.id == id
        &&& self.items@.len() == size
        &&& forall|j: int|
            0 <= j < self.items@.len() ==> (#[trigger] self.items@[j]).is_fresh_at((id, j as i32))
    }

    /// Appends to `table` a row of `size` fresh cells, with the next row
    /// index, and returns it. A size that is negative or differs from the
    /// table's column count is rejected, and nothing is appended.
    pub fn new(table: &mut Table, size: i32) -> (r: Option<&TableRow>)
        requires
            old(table).rows@.len() < i32::MAX,
        ensures
            r is Some <==> (0 <= size && size == old(table).column_size),
            r is None ==> *final(table) == *old(table),
            r matches Some(row) ==> {
                &&& final(table).column_size == old(table).column_size
                &&& final(table).rows@.len() == old(table).rows@.len() + 1
                &&& final(table).rows@.take(old(table).rows@.len() as int) == old(table).rows@
                &&& final(table).rows@.last().is_fresh(old(table).rows@.len() as i32, size)
                &&& *row == final(table).rows@.last()
            },
            old(table).wf() ==> final(table).wf(),
    {
        if size < 0 || size != table.column_size {
            return None;
        }
        let id = table.rows.len() as i32;
        let mut items: Vec<TableItem> = Vec::new();
        let mut n: i32 = 0;
        while n < size
            invariant
                0 <= n <= size,
                items@.len() == n,
                forall|j: int| 0 <= j < n ==> (#[trigger] items@[j]).is_fresh_at((id, j as i32)),
            decreases size - n,
        {
            items.push(TableItem::new((id, n)));
            n = n + 1;
        }
        let ghost before = *table;
        let added = table.add_row(TableRow { id, items });
        assert(added is Ok);
        proof {
            if before.wf() {
                assert forall|i: int| 0 <= i < table.rows@.len() implies (#[trigger] table.rows@[i]).id == i
                    && table.rows@[i].items@.len() == table.column_size by {
                    if i < before.rows@.len() {
                        assert(table.rows@[i] == before.rows@[i]);
                    }
                }
            }
        }
        let last = table.rows.len() - 1;
        Some(&table.rows[last])
    }
}

/// A grid: its rows, and the column count it was declared with.
#[derive(Debug)]
pub struct Table {
    pub rows: Vec<TableRow>,
    pub column_size: i32,
}

/// The cell at `coordinate`, if the coordinate lies inside `rows`.
pub open spec fn item_at(rows: Seq<TableRow>, coordinate: Coord) -> Option<TableItem> {
    let (r, c) = coordinate;
    if 0 <= r < rows.len() && 0 <= c < rows[r as int].items@.len() {
        Some(rows[r as int].items@[c as int])
    } else {
        None
    }
}

/// `after` is `before` with the cell at (`r`, `c`) replaced by `item`.
pub open spec fn replaces_item(before: Seq<TableRow>, after: Seq<TableRow>, r: int, c: int, item: TableItem) -> bool {
    &&& after.len() == before.len()
    &&& forall|i: int| 0 <= i < before.len() && i != r ==> #[trigger] after[i] == before[i]
    &&& after[r].id == before[r].id
    &&& after[r].items@ == before[r].items@.update(c, item)
}

impl Table {
    /// The column count is not negative, and row `i` has index `i` and
    /// exactly one cell per column.
    pub open spec fn wf(&self) -> bool {
        &&& self.column_size >= 0
        &&& forall|i: int|
            0 <= i < self.rows@.len() ==> (#[trigger] self.rows@[i]).id == i
                && self.rows@[i].items@.len() == self.column_size
    }

    /// A grid of `initial_row_size` rows (none where it is negative) of
    /// `initialize_col_size` fresh cells each.
    pub fn new(initial_row_size: i32, initialize_col_size: i32) -> (r: Table)
        requires
            initialize_col_size >= 0,
        ensures
            r.wf(),
            r.column_size == initialize_col_size,
            r.rows@.len() == if initial_row_size < 0 { 0 } else { initial_row_size as int },
            forall|i: int| 0 <= i < r.rows@.len() ==> (#[trigger] r.rows@[i]).is_fresh(i as i32, initialize_col_size),
    {
        let mut new_table = Table { rows: Vec::new(), column_size: initialize_col_size };
        let mut n: i32 = 0;
        while n < initial_row_size
            invariant
                0 <= n,
                n <= initial_row_size || n == 0,
                new_table.wf(),
                new_table.column_size == initialize_col_size,
                new_table.rows@.len() == n,
                forall|i: int| 0 <= i < n ==> (#[trigger] new_table.rows@[i]).is_fresh(i as i32, initialize_col_size),
            decreases initial_row_size - n,
        {
            let row = TableRow::new(&mut new_table, initialize_col_size);
            assert(row is Some);
            assert forall|i: int| 0 <= i < n + 1 implies (#[trigger] new_table.rows@[i]).is_fresh(i as i32, initialize_col_size) by {
                if i < n {
                    assert(new_table.rows@[i] == new_table.rows@.take(n as int)[i]);
                }
            }
            n = n + 1;
        }
        new_table
    }

    /// Appends `row` after the last row, if its index is the next row index
    /// and it has one cell per column; otherwise hands it back unappended.
    pub fn add_row(&mut self, row: TableRow) -> (r: Result<(), TableRow>)
        ensures
            final(self).column_size == old(self).column_size,
            r is Ok <==> (row.id == old(self).rows@.len() && row.items@.len() == old(self).column_size),
            r is Ok ==> final(self).rows@ == old(self).rows@.push(row),
            r matches Err(back) ==> back == row && *final(self) == *old(self),
    {
        if self.column_size < 0 || row.id < 0 || row.id as usize != self.rows.len()
            || row.items.len() != self.column_size as usize {
            return Err(row);
        }
        self.rows.push(row);
        Ok(())
    }

    /// Exclusive access to the cell at `coordinate`, or `None` where the
    /// coordinate lies outside the grid.
    pub fn select_item<'t>(&'t mut self, coordinate: Coord) -> (r: Option<SelectedTableItem<'t>>)
        ensures
            r is Some <==> item_at(old(self).rows@, coordinate) is Some,
            r matches Some(s) ==> {
                &&& Some(*s.table_item) == item_at(old(self).rows@, coordinate)
                &&& final(self).column_size == old(self).column_size
                &&& replaces_item(old(self).rows@, final(self).rows@, coordinate.0 as int, coordinate.1 as int, *final(s.table_item))
            },
            r is None ==> *final(self) == *old(self),
            old(self).wf() ==> final(self).wf(),
    {
        let (r, c) = coordinate;
        if r < 0 || r as usize >= self.rows.len() {
            return None;
        }
        if c < 0 || c as usize >= self.rows[r as usize].items.len() {
            return None;
        }
        let item = &mut self.rows[r as usize].items[c as usize];
        Some(SelectedTableItem::new(item))
    }
}

/// A fresh grid of `rows` rows and `columns` columns has a cell at exactly
/// the coordinates with `0 <= r < rows` and `0 <= c < columns`.
pub proof fn lemma_fresh_grid_bounds(t: Table, rows: i32, columns: i32, coordinate: Coord)
    requires
        columns >= 0,
        t.rows@.len() == if rows < 0 { 0 } else { rows as int },
        forall|i: int| 0 <= i < t.rows@.len() ==> (#[trigger] t.rows@[i]).is_fresh(i as i32, columns),
    ensures
        item_at(t.rows@, coordinate) is Some <==> (0 <= coordinate.0 < rows && 0 <= coordinate.1 < columns),
        item_at(t.rows@, coordinate) matches Some(item) ==> item.is_fresh_at(coordinate),
{
    let (r, c) = coordinate;
    if 0 <= r < rows {
        assert(t.rows@[r as int].is_fresh(r, columns));
    }
}

/// After a cell's content is replaced by `s`, the cell at the same
/// coordinate holds `s`, with its length in characters, and keeps its
/// coordinate and style.
pub proof fn lemma_edit_then_select(before: Seq<TableRow>, after: Seq<TableRow>, coordinate: Coord, s: String)
    requires
        item_at(before, coordinate) is Some,
        s@.len() <= i32::MAX,
        replaces_item(
            before,
            after,
            coordinate.0 as int,
            coordinate.1 as int,
            item_at(before, coordinate)->0.with_content(s),
        ),
    ensures
        item_at(after, coordinate) matches Some(item) && {
            &&& item.content == Some(s)
            &&& item.content_len == s@.len()
            &&& item.locate == item_at(before, coordinate)->0.locate
            &&& item.style == item_at(before, coordinate)->0.style
        },
{
}

} // verus!
