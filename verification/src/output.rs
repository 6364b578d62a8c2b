use vstd::prelude::*;
use vstd::string::*;
use cli_table::format::Justify;
use cli_table::{Cell, Style, Table};
use crate::error::BDKCliError;

verus! {

/// A value of `serde_json`: a parsed or serialized JSON document.
#[verifier::external_type_specification]
#[verifier::external_body]
pub struct ExJsonValue(serde_json::Value);

/// An error of `std::io`.
#[verifier::external_type_specification]
#[verifier::external_body]
pub struct ExIoError(std::io::Error);

/// The formats in which command output can be presented.
#[derive(Clone, Copy, Debug, PartialEq, Eq, Structural)]
pub enum OutputFormatType {
    /// Pretty-printed JSON.
    Json,
    /// Pretty-printed TOML.
    Toml,
    /// A text table.
    Table,
}

/// A generic wrapper for commands that return a list of items.
pub struct ListResult<T> {
    pub count: usize,
    pub items: Vec<T>,
}

impl<T> ListResult<T> {
    /// The count is the number of items.
    pub open spec fn wf(&self) -> bool {
        self.count == self.items@.len()
    }

    /// Wraps `items`, counting them.
    pub fn new(items: Vec<T>) -> (result: Self)
        ensures
            result.wf(),
            result.items@ == items@,
            result.count == items@.len(),
    {
        ListResult { count: items.len(), items }
    }
}

/// The value of a field of a record, as a table shows it.
pub enum CellValue {
    /// A JSON string: the cell shows its content.
    Text(String),
    /// Any other JSON value: the cell shows its compact JSON notation.
    Json(serde_json::Value),
}

/// A field of a record: its name and its value.
pub struct Entry {
    pub key: String,
    pub value: CellValue,
}

/// One row of a table: a JSON object (a record, with its fields in order) or any other value.
pub enum Row {
    Record(Vec<Entry>),
    Other,
}

/// The shape of a serialized value: a JSON array, whose items are the rows, or any other
/// value, which is the only row.
pub enum TableValue {
    List(Vec<Row>),
    Single(Row),
}

/// The header and the cell texts of a table, row by row.
pub struct TableLayout {
    pub columns: Vec<String>,
    pub rows: Vec<Vec<String>>,
}

/// The texts held by a sequence of strings.
pub open spec fn texts(v: Seq<String>) -> Seq<Seq<char>> {
    v.map_values(|s: String| s@)
}

/// The rows of a value: the items of an array, or the value itself.
pub open spec fn rows_of(value: TableValue) -> Seq<Row> {
    match value {
        TableValue::List(rows) => rows@,
        TableValue::Single(row) => seq![row],
    }
}

/// The field names of a row, in order; a row that is no record has none.
pub open spec fn row_keys(row: Row) -> Seq<Seq<char>> {
    match row {
        Row::Record(entries) => entries@.map_values(|e: Entry| e.key@),
        Row::Other => seq![],
    }
}

/// The field names of all rows, row after row.
pub open spec fn keys_in_order(rows: Seq<Row>) -> Seq<Seq<char>>
    decreases rows.len(),
{
    if rows.len() == 0 {
        seq![]
    } else {
        keys_in_order(rows.drop_last()) + row_keys(rows.last())
    }
}

/// The first occurrence of each name, in the order in which they first occur.
pub open spec fn first_occurrences(keys: Seq<Seq<char>>) -> Seq<Seq<char>>
    decreases keys.len(),
{
    if keys.len() == 0 {
        seq![]
    } else {
        let earlier = first_occurrences(keys.drop_last());
        if earlier.contains(keys.last()) {
            earlier
        } else {
            earlier.push(keys.last())
        }
    }
}

/// The columns of the table of a value: every field name of every record, once, in the
/// order in which they first occur.
pub open spec fn table_columns(value: TableValue) -> Seq<Seq<char>> {
    first_occurrences(keys_in_order(rows_of(value)))
}

/// The first field of `entries` whose name is `key`.
pub open spec fn entry_for(entries: Seq<Entry>, key: Seq<char>) -> Option<Entry>
    decreases entries.len(),
{
    if entries.len() == 0 {
        None
    } else if entries[0].key@ == key {
        Some(entries[0])
    } else {
        entry_for(entries.drop_first(), key)
    }
}

/// Whether `cell` is what the cell of `row` in `column` shows: the content of a string field,
/// what `to_string` gives for any other field (its compact JSON notation, which `serde_json`
/// renders), and nothing where the row has no such field or is no record.
pub open spec fn cell_shows(row: Row, column: Seq<char>, cell: String) -> bool {
    match row {
        Row::Record(entries) => match entry_for(entries@, column) {
            Some(entry) => match entry.value {
                CellValue::Text(s) => cell@ == s@,
                CellValue::Json(v) => to_string_from_display_ensures::<serde_json::Value>(&v, cell),
            },
            None => cell@ == Seq::<char>::empty(),
        },
        Row::Other => cell@ == Seq::<char>::empty(),
    }
}

/// Whether `layout` is the table of `value`: its columns, and for each row and column the
/// text of that cell.
pub open spec fn is_layout_of(value: TableValue, layout: TableLayout) -> bool {
    &&& texts(layout.columns@) == table_columns(value)
    &&& layout.rows@.len() == rows_of(value).len()
    &&& forall|i: int|
        0 <= i < layout.rows@.len() ==> #[trigger] layout.rows@[i]@.len() == layout.columns@.len()
    &&& forall|i: int, j: int|
        0 <= i < layout.rows@.len() && 0 <= j < layout.columns@.len() ==> cell_shows(
            rows_of(value)[i],
            layout.columns@[j]@,
            #[trigger] layout.rows@[i]@[j],
        )
}

/// Each name occurs at most once among the first occurrences, and a name is among them
/// exactly when it occurs in `keys`.
pub proof fn lemma_first_occurrences_distinct_and_complete(keys: Seq<Seq<char>>)
    ensures
        first_occurrences(keys).no_duplicates(),
        forall|k: Seq<char>| #[trigger] first_occurrences(keys).contains(k) <==> keys.contains(k),
    decreases keys.len(),
{
    if keys.len() > 0 {
        let earlier_keys = keys.drop_last();
        lemma_first_occurrences_distinct_and_complete(earlier_keys);
        assert forall|k: Seq<char>| #[trigger] keys.contains(k) <==> (earlier_keys.contains(k) || k == keys.last()) by {
            if keys.contains(k) {
                let p = choose|p: int| 0 <= p < keys.len() && keys[p] == k;
                if p < keys.len() - 1 {
                    assert(earlier_keys[p] == k);
                }
            }
            if earlier_keys.contains(k) {
                let p = choose|p: int| 0 <= p < earlier_keys.len() && earlier_keys[p] == k;
                assert(keys[p] == k);
            }
            if k == keys.last() {
                assert(keys[keys.len() - 1] == k);
            }
        }
        let earlier = first_occurrences(earlier_keys);
        let x = keys.last();
        assert forall|k: Seq<char>| #[trigger] first_occurrences(keys).contains(k) <==> keys.contains(k) by {
            if !earlier.contains(x) {
                let pushed = earlier.push(x);
                if pushed.contains(k) {
                    let p = choose|p: int| 0 <= p < pushed.len() && pushed[p] == k;
                    if p < earlier.len() {
                        assert(earlier[p] == k);
                    }
                }
                if earlier.contains(k) {
                    let p = choose|p: int| 0 <= p < earlier.len() && earlier[p] == k;
                    assert(pushed[p] == k);
                }
                if k == x {
                    assert(pushed[earlier.len() as int] == k);
                }
            }
        }
    }
}

/// Whether `a` occurs in `keys` before any occurrence of `b`.
pub open spec fn occurs_before(keys: Seq<Seq<char>>, a: Seq<char>, b: Seq<char>) -> bool {
    exists|p: int|
        0 <= p < keys.len() && #[trigger] keys[p] == a && forall|r: int|
            0 <= r <= p ==> #[trigger] keys[r] != b
}

/// Of two first occurrences, the earlier one names a key that occurs in `keys` before any
/// occurrence of the later one.
pub proof fn lemma_first_occurrences_in_order(keys: Seq<Seq<char>>)
    ensures
        forall|i: int, j: int|
            0 <= i < j < first_occurrences(keys).len() ==> occurs_before(
                keys,
                #[trigger] first_occurrences(keys)[i],
                #[trigger] first_occurrences(keys)[j],
            ),
    decreases keys.len(),
{
    if keys.len() > 0 {
        let earlier_keys = keys.drop_last();
        let earlier = first_occurrences(earlier_keys);
        let result = first_occurrences(keys);
        lemma_first_occurrences_in_order(earlier_keys);
        lemma_first_occurrences_distinct_and_complete(earlier_keys);
        assert forall|i: int, j: int| 0 <= i < j < result.len() implies occurs_before(
            keys,
            #[trigger] result[i],
            #[trigger] result[j],
        ) by {
            if j < earlier.len() {
                assert(result[i] == earlier[i] && result[j] == earlier[j]);
                assert(occurs_before(earlier_keys, earlier[i], earlier[j]));
                let p = choose|p: int|
                    0 <= p < earlier_keys.len() && #[trigger] earlier_keys[p] == earlier[i] && forall|r: int|
                        0 <= r <= p ==> #[trigger] earlier_keys[r] != earlier[j];
                assert(keys[p] == result[i]);
                assert forall|r: int| 0 <= r <= p implies #[trigger] keys[r] != result[j] by {
                    assert(keys[r] == earlier_keys[r]);
                }
            } else {
                let x = keys.last();
                assert(!earlier.contains(x));
                assert(result[j] == x);
                assert(result[i] == earlier[i]);
                assert(earlier.contains(earlier[i]));
                assert(earlier_keys.contains(earlier[i]));
                let p = choose|p: int| 0 <= p < earlier_keys.len() && earlier_keys[p] == earlier[i];
                assert(keys[p] == result[i]);
                assert forall|r: int| 0 <= r <= p implies #[trigger] keys[r] != result[j] by {
                    assert(keys[r] == earlier_keys[r]);
                    if earlier_keys[r] == x {
                        assert(earlier_keys.contains(x));
                    }
                }
            }
        }
    }
}

/// The columns of a table are distinct, and they are exactly the field names of its records.
pub proof fn lemma_table_columns_distinct_and_complete(value: TableValue)
    ensures
        table_columns(value).no_duplicates(),
        forall|k: Seq<char>|
            #[trigger] table_columns(value).contains(k) <==> keys_in_order(rows_of(value)).contains(k),
{
    lemma_first_occurrences_distinct_and_complete(keys_in_order(rows_of(value)));
}

/// The columns of a table come in the order in which their names first occur, record after
/// record and field after field.
pub proof fn lemma_table_columns_in_order(value: TableValue)
    ensures
        forall|i: int, j: int|
            0 <= i < j < table_columns(value).len() ==> occurs_before(
                keys_in_order(rows_of(value)),
                #[trigger] table_columns(value)[i],
                #[trigger] table_columns(value)[j],
            ),
{
    lemma_first_occurrences_in_order(keys_in_order(rows_of(value)));
}

/// Returns whether `columns` holds the text of `key`.
fn contains_text(columns: &Vec<String>, key: &String) -> (found: bool)
    ensures
        found == texts(columns@).contains(key@),
{
    let mut i: usize = 0;
    while i < columns.len()
        invariant
            0 <= i <= columns.len(),
            forall|j: int| 0 <= j < i ==> columns@[j]@ != key@,
        decreases columns.len() - i,
    {
        if columns[i] == *key {
            assert(texts(columns@)[i as int] == key@);
            return true;
        }
        i += 1;
    }
    proof {
        if texts(columns@).contains(key@) {
            let k = choose|k: int| 0 <= k < texts(columns@).len() && texts(columns@)[k] == key@;
            assert(columns@[k]@ == key@);
        }
    }
    false
}

/// Appends to `columns` the field names of `row` that it does not hold yet.
fn add_row_columns(columns: &mut Vec<String>, row: &Row, Ghost(prior): Ghost<Seq<Seq<char>>>)
    requires
        texts(old(columns)@) == first_occurrences(prior),
    ensures
        texts(final(columns)@) == first_occurrences(prior + row_keys(*row)),
{
    match row {
        Row::Record(entries) => {
            let ghost keys = entries@.map_values(|e: Entry| e.key@);
            assert(prior + keys.take(0) =~= prior);
            let mut j: usize = 0;
            while j < entries.len()
                invariant
                    j <= entries.len(),
                    keys == entries@.map_values(|e: Entry| e.key@),
                    texts(columns@) == first_occurrences(prior + keys.take(j as int)),
                decreases entries.len() - j,
            {
                let key = &entries[j].key;
                let ghost before = prior + keys.take(j as int);
                let ghost after = prior + keys.take(j + 1);
                assert(after =~= before.push(key@));
                assert(after.drop_last() =~= before);
                if !contains_text(columns, key) {
                    let ghost old_columns = columns@;
                    columns.push(key.clone());
                    assert(texts(columns@) =~= texts(old_columns).push(key@));
                }
                j += 1;
            }
            assert(keys.take(entries@.len() as int) =~= keys);
        },
        Row::Other => {
            assert(prior + row_keys(*row) =~= prior);
        },
    }
}

/// Returns every field name of every record of `rows`, once, in the order of first occurrence.
fn collect_columns(rows: &Vec<Row>) -> (columns: Vec<String>)
    ensures
        texts(columns@) == first_occurrences(keys_in_order(rows@)),
{
    let mut columns: Vec<String> = Vec::new();
    assert(rows@.take(0) =~= Seq::<Row>::empty());
    assert(texts(columns@) =~= Seq::<Seq<char>>::empty());
    let mut i: usize = 0;
    while i < rows.len()
        invariant
            i <= rows.len(),
            texts(columns@) == first_occurrences(keys_in_order(rows@.take(i as int))),
        decreases rows.len() - i,
    {
        assert(rows@.take(i + 1).drop_last() =~= rows@.take(i as int));
        assert(rows@.take(i + 1).last() == rows@[i as int]);
        add_row_columns(&mut columns, &rows[i], Ghost(keys_in_order(rows@.take(i as int))));
        i += 1;
    }
    assert(rows@.take(rows@.len() as int) =~= rows@);
    columns
}

/// Returns the text of the cell of `row` in `column`.
fn cell_text(row: &Row, column: &String) -> (text: String)
    ensures
        cell_shows(*row, column@, text),
{
    match row {
        Row::Record(entries) => {
            let mut j: usize = 0;
            assert(entries@.skip(0) =~= entries@);
            while j < entries.len()
                invariant
                    j <= entries.len(),
                    *row == Row::Record(*entries),
                    entry_for(entries@, column@) == entry_for(entries@.skip(j as int), column@),
                decreases entries.len() - j,
            {
                assert(entries@.skip(j as int)[0] == entries@[j as int]);
                if entries[j].key == *column {
                    assert(entry_for(entries@.skip(j as int), column@) == Some(entries@[j as int]));
                    return match &entries[j].value {
                        CellValue::Text(s) => s.clone(),
                        CellValue::Json(v) => v.to_string(),
                    };
                }
                assert(entries@.skip(j as int).drop_first() =~= entries@.skip(j + 1));
                j += 1;
            }
            assert(entries@.skip(j as int) =~= Seq::<Entry>::empty());
            String::new()
        },
        Row::Other => String::new(),
    }
}

/// Returns the cell texts of `row`, one for each of `columns`.
fn row_cells(row: &Row, columns: &Vec<String>) -> (cells: Vec<String>)
    ensures
        cells@.len() == columns@.len(),
        forall|j: int| 0 <= j < cells@.len() ==> cell_shows(*row, columns@[j]@, #[trigger] cells@[j]),
{
    let mut cells: Vec<String> = Vec::new();
    let mut j: usize = 0;
    while j < columns.len()
        invariant
            j <= columns.len(),
            cells@.len() == j,
            forall|k: int| 0 <= k < j ==> cell_shows(*row, columns@[k]@, #[trigger] cells@[k]),
        decreases columns.len() - j,
    {
        let text = cell_text(row, &columns[j]);
        cells.push(text);
        j += 1;
    }
    cells
}

/// Lays out `value` as a table: the columns are the field names of its records in order of
/// first occurrence, and each row holds the text of each of its cells.
pub fn table_layout(value: &TableValue) -> (layout: TableLayout)
    ensures
        is_layout_of(*value, layout),
{
    match value {
        TableValue::List(rows) => {
            let columns = collect_columns(rows);
            let mut body: Vec<Vec<String>> = Vec::new();
            let mut i: usize = 0;
            while i < rows.len()
                invariant
                    i <= rows.len(),
                    body@.len() == i,
                    forall|k: int| 0 <= k < i ==> #[trigger] body@[k]@.len() == columns@.len(),
                    forall|k: int, j: int|
                        0 <= k < i && 0 <= j < columns@.len() ==> cell_shows(
                            rows@[k],
                            columns@[j]@,
                            #[trigger] body@[k]@[j],
                        ),
                decreases rows.len() - i,
            {
                let cells = row_cells(&rows[i], &columns);
                body.push(cells);
                i += 1;
            }
            TableLayout { columns, rows: body }
        },
        TableValue::Single(row) => {
            let mut columns: Vec<String> = Vec::new();
            assert(texts(columns@) =~= first_occurrences(Seq::<Seq<char>>::empty()));
            add_row_columns(&mut columns, row, Ghost(Seq::<Seq<char>>::empty()));
            let ghost one = seq![*row];
            assert(one.drop_last() =~= Seq::<Row>::empty());
            assert(keys_in_order(one.drop_last()) == Seq::<Seq<char>>::empty());
            assert(keys_in_order(one) == keys_in_order(one.drop_last()) + row_keys(*row));
            assert(Seq::<Seq<char>>::empty() + row_keys(*row) =~= keys_in_order(one));
            assert(rows_of(*value) == one);
            let cells = row_cells(row, &columns);
            let mut body: Vec<Vec<String>> = Vec::new();
            body.push(cells);
            TableLayout { columns, rows: body }
        },
    }
}

/// Whether `text` has no line break.
pub open spec fn single_line(text: Seq<char>) -> bool {
    !text.contains('\n') && !text.contains('\r')
}

/// The cell texts of `rows`, row after row, each row from left to right.
pub open spec fn cells_in_order(rows: Seq<Vec<String>>) -> Seq<Seq<char>>
    decreases rows.len(),
{
    if rows.len() == 0 {
        seq![]
    } else {
        cells_in_order(rows.drop_last()) + texts(rows.last()@)
    }
}

/// The texts of a table in reading order: the header, then the rows.
pub open spec fn reading_order(header: Seq<String>, rows: Seq<Vec<String>>) -> Seq<Seq<char>> {
    texts(header) + cells_in_order(rows)
}

/// Whether no piece has a line break.
pub open spec fn all_single_line(pieces: Seq<Seq<char>>) -> bool {
    forall|i: int| 0 <= i < pieces.len() ==> single_line(#[trigger] pieces[i])
}

/// Whether `c` is a character that the table renderer writes around cell texts: a border or
/// separator character (`+`, `-`, `|`), padding (a space), a line break, or a character of
/// the escape codes that reset the style or make it bold (`ESC [ 0 m`, `ESC [ 1 m`).
pub open spec fn table_filler_char(c: char) -> bool {
    c == '+' || c == '-' || c == '|' || c == ' ' || c == '\n' || c == '\u{1b}' || c == '['
        || c == '0' || c == '1' || c == 'm'
}

/// Whether `s` is made of characters that the table renderer writes around cell texts.
pub open spec fn is_filler(s: Seq<char>) -> bool {
    forall|i: int| 0 <= i < s.len() ==> table_filler_char(#[trigger] s[i])
}

/// The text of `pieces` with `fillers[0]` before the first, `fillers[i]` between piece
/// `i - 1` and piece `i`, and the last filler after the last piece.
pub open spec fn interleave(fillers: Seq<Seq<char>>, pieces: Seq<Seq<char>>) -> Seq<char>
    decreases pieces.len(),
{
    if pieces.len() == 0 {
        fillers[0]
    } else {
        interleave(fillers.drop_last(), pieces.drop_last()) + pieces.last() + fillers.last()
    }
}

/// Whether `text` is `pieces`, in order, with nothing but fillers before, between and after
/// them.
pub open spec fn laid_out(text: Seq<char>, pieces: Seq<Seq<char>>) -> bool {
    exists|fillers: Seq<Seq<char>>|
        {
            &&& fillers.len() == pieces.len() + 1
            &&& forall|i: int| 0 <= i < fillers.len() ==> is_filler(#[trigger] fillers[i])
            &&& text == interleave(fillers, pieces)
        }
}

/// The cell texts of `rows`, row by row.
pub open spec fn row_texts(rows: Seq<Vec<String>>) -> Seq<Seq<Seq<char>>> {
    rows.map_values(|row: Vec<String>| texts(row@))
}

/// The text that `cli_table` renders (through `TableStruct::display` and its `Display`) for a
/// table whose title row holds `header`, bold and left-justified, above `rows`, in the default
/// format, with the escape codes of its styles written (`ansi`) or not.
pub uninterp spec fn rendered_table(header: Seq<Seq<char>>, rows: Seq<Seq<Seq<char>>>, ansi: bool) -> Seq<char>;

/// Calls `cli_table`: renders a table whose title row holds `header`, bold and
/// left-justified, above `rows`, through `TableStruct::display`, and returns its text.
/// Rendering writes into in-memory buffers and does not fail. The default format writes `+`,
/// `-` and `|` borders and separators, pads cells with spaces, ends lines with `\n`, and
/// writes only the escape codes that reset the style and make the title bold; a cell text
/// without a line break is written as it is, the title first, then row by row, each row from
/// left to right. The surrounding whitespace that `Display` trims is filler too. Whether the
/// escape codes are written depends on the machine: always on most systems, and on Windows
/// unless the output is a console without terminal sequences, whose buffers hold the plain
/// text; the text is the rendering of `header` and `rows` in one of the two modes.
#[verifier::external_body]
fn render_table(header: &Vec<String>, rows: &Vec<Vec<String>>) -> (r: Result<String, std::io::Error>)
    requires
        forall|i: int| 0 <= i < rows@.len() ==> #[trigger] rows@[i]@.len() == header@.len(),
    ensures
        r is Ok,
        r matches Ok(text) ==> exists|ansi: bool| text@ == rendered_table(texts(header@), row_texts(rows@), ansi),
        r matches Ok(text) ==> (all_single_line(reading_order(header@, rows@)) ==> laid_out(
            text@,
            reading_order(header@, rows@),
        )),
{
    let title: Vec<_> = header
        .iter()
        .map(|name| name.as_str().cell().bold(true).justify(Justify::Left))
        .collect();
    let body: Vec<Vec<_>> = rows
        .iter()
        .map(|row| row.iter().map(|text| text.as_str().cell()).collect())
        .collect();
    let display = body.table().title(title).display()?;
    Ok(display.to_string())
}

/// Renders `value` as a table: `None` when no row is a record with a field (the caller then
/// shows the value otherwise), else the rendered table of its layout. Where no column name or
/// cell text has a line break, the rendered text is the column names and then the cells, row
/// by row, in order, with only borders, padding, line breaks and style codes around them.
/// Whatever the texts, the rendered text is `cli_table`'s rendering of the layout's column
/// names above its rows.
pub fn format_table(value: &TableValue) -> (out: Option<Result<String, BDKCliError>>)
    ensures
        out is None <==> table_columns(*value).len() == 0,
        out is Some ==> out matches Some(Ok(_)),
        out matches Some(Ok(text)) ==> exists|layout: TableLayout|
            {
                &&& is_layout_of(*value, layout)
                &&& exists|ansi: bool|
                    text@ == rendered_table(texts(layout.columns@), row_texts(layout.rows@), ansi)
                &&& all_single_line(reading_order(layout.columns@, layout.rows@)) ==> laid_out(
                    text@,
                    reading_order(layout.columns@, layout.rows@),
                )
            },
{
    let layout = table_layout(value);
    if layout.columns.len() == 0 {
        return None;
    }
    match render_table(&layout.columns, &layout.rows) {
        Ok(text) => {
            assert(is_layout_of(*value, layout));
            Some(Ok(text))
        },
        Err(e) => {
            let mut message = String::from_str("Table rendering failed: ");
            let detail = e.to_string();
            message.append(detail.as_str());
            Some(Err(BDKCliError::Generic(message)))
        },
    }
}

/// The field names of every row occur among the field names of all rows.
proof fn lemma_keys_in_order_holds_row_keys(rows: Seq<Row>, i: int, k: int)
    requires
        0 <= i < rows.len(),
        0 <= k < row_keys(rows[i]).len(),
    ensures
        keys_in_order(rows).contains(row_keys(rows[i])[k]),
    decreases rows.len(),
{
    let earlier = keys_in_order(rows.drop_last());
    assert(keys_in_order(rows) == earlier + row_keys(rows.last()));
    if i == rows.len() - 1 {
        assert(keys_in_order(rows)[earlier.len() + k] == row_keys(rows[i])[k]);
    } else {
        assert(rows.drop_last()[i] == rows[i]);
        lemma_keys_in_order_holds_row_keys(rows.drop_last(), i, k);
        let p = choose|p: int| 0 <= p < earlier.len() && earlier[p] == row_keys(rows[i])[k];
        assert(keys_in_order(rows)[p] == row_keys(rows[i])[k]);
    }
}

/// Every field name of every record of a value is a column of its table.
pub proof fn lemma_record_fields_are_columns(value: TableValue, i: int, entries: Vec<Entry>, k: int)
    requires
        0 <= i < rows_of(value).len(),
        rows_of(value)[i] == Row::Record(entries),
        0 <= k < entries@.len(),
    ensures
        table_columns(value).contains(entries@[k].key@),
{
    assert(row_keys(rows_of(value)[i])[k] == entries@[k].key@);
    lemma_keys_in_order_holds_row_keys(rows_of(value), i, k);
    lemma_first_occurrences_distinct_and_complete(keys_in_order(rows_of(value)));
}

/// A name among the field names of all rows is a field name of some row.
proof fn lemma_keys_in_order_from_rows(rows: Seq<Row>, c: Seq<char>)
    requires
        keys_in_order(rows).contains(c),
    ensures
        exists|i: int, k: int|
            0 <= i < rows.len() && 0 <= k < row_keys(rows[i]).len() && #[trigger] row_keys(rows[i])[k] == c,
    decreases rows.len(),
{
    let earlier = keys_in_order(rows.drop_last());
    let last = row_keys(rows.last());
    assert(keys_in_order(rows) == earlier + last);
    let p = choose|p: int| 0 <= p < keys_in_order(rows).len() && keys_in_order(rows)[p] == c;
    if p < earlier.len() {
        assert(earlier[p] == c);
        lemma_keys_in_order_from_rows(rows.drop_last(), c);
        let (i, k) = choose|i: int, k: int|
            0 <= i < rows.drop_last().len() && 0 <= k < row_keys(rows.drop_last()[i]).len()
                && #[trigger] row_keys(rows.drop_last()[i])[k] == c;
        assert(rows.drop_last()[i] == rows[i]);
        assert(row_keys(rows[i])[k] == c);
    } else {
        let i = rows.len() - 1;
        let k = p - earlier.len();
        assert(row_keys(rows[i])[k] == c);
    }
}

/// Every column of the table of a value is a field name of one of its records.
pub proof fn lemma_columns_are_record_fields(value: TableValue, c: Seq<char>)
    requires
        table_columns(value).contains(c),
    ensures
        exists|i: int, k: int|
            {
                &&& 0 <= i < rows_of(value).len()
                &&& rows_of(value)[i] is Record
                &&& 0 <= k < rows_of(value)[i]->0@.len()
                &&& #[trigger] rows_of(value)[i]->0@[k].key@ == c
            },
{
    lemma_first_occurrences_distinct_and_complete(keys_in_order(rows_of(value)));
    lemma_keys_in_order_from_rows(rows_of(value), c);
    let (i, k) = choose|i: int, k: int|
        0 <= i < rows_of(value).len() && 0 <= k < row_keys(rows_of(value)[i]).len()
            && #[trigger] row_keys(rows_of(value)[i])[k] == c;
    assert(rows_of(value)[i] is Record);
    assert(rows_of(value)[i]->0@[k].key@ == c);
}

} // verus!
