//! Columnar values: a batch of rows of one type, or a single value that
//! stands for every row.
use vstd::prelude::*;
use vstd::slice::slice_to_vec;
use crate::error::{FunctionError, FunctionErrorView};
use crate::types::{DataType, TimeUnit};

verus! {

/// A batch of rows of one type. A row is `None` where the value is null.
#[derive(Clone, Debug, PartialEq, Eq)]
pub enum Column {
    Boolean(Vec<Option<bool>>),
    Int64(Vec<Option<i64>>),
    Utf8(Vec<Option<String>>),
    Binary(Vec<Option<Vec<u8>>>),
    Date32(Vec<Option<i32>>),
    Timestamp(TimeUnit, Vec<Option<i64>>),
    IntervalYearMonth(Vec<Option<i32>>),
}

/// A single value of one type, `None` where it is null.
#[derive(Clone, Debug, PartialEq, Eq)]
pub enum ScalarValue {
    Boolean(Option<bool>),
    Int64(Option<i64>),
    Utf8(Option<String>),
    Binary(Option<Vec<u8>>),
    Date32(Option<i32>),
    Timestamp(TimeUnit, Option<i64>),
    IntervalYearMonth(Option<i32>),
}

/// An argument or a result of a function: one value for all rows, or a
/// batch.
#[derive(Clone, Debug, PartialEq, Eq)]
pub enum ColumnarValue {
    Scalar(ScalarValue),
    Array(Column),
}

/// The mathematical value of a [`ScalarValue`].
pub enum ScalarView {
    Boolean(Option<bool>),
    Int64(Option<i64>),
    Utf8(Option<Seq<char>>),
    Binary(Option<Seq<u8>>),
    Date32(Option<i32>),
    Timestamp(TimeUnit, Option<i64>),
    IntervalYearMonth(Option<i32>),
}

/// The mathematical value of a [`Column`].
pub enum ColumnView {
    Boolean(Seq<Option<bool>>),
    Int64(Seq<Option<i64>>),
    Utf8(Seq<Option<Seq<char>>>),
    Binary(Seq<Option<Seq<u8>>>),
    Date32(Seq<Option<i32>>),
    Timestamp(TimeUnit, Seq<Option<i64>>),
    IntervalYearMonth(Seq<Option<i32>>),
}

/// The mathematical value of a [`ColumnarValue`].
pub enum ColumnarView {
    Scalar(ScalarView),
    Array(ColumnView),
}

/// The characters of a text cell.
pub open spec fn text_cell(cell: Option<String>) -> Option<Seq<char>> {
    match cell {
        Some(text) => Some(text@),
        None => None,
    }
}

/// The bytes of a binary cell.
pub open spec fn bytes_cell(cell: Option<Vec<u8>>) -> Option<Seq<u8>> {
    match cell {
        Some(bytes) => Some(bytes@),
        None => None,
    }
}

/// The characters of each text cell.
pub open spec fn text_cells(cells: Seq<Option<String>>) -> Seq<Option<Seq<char>>> {
    Seq::new(cells.len(), |i: int| text_cell(cells[i]))
}

/// The bytes of each binary cell.
pub open spec fn bytes_cells(cells: Seq<Option<Vec<u8>>>) -> Seq<Option<Seq<u8>>> {
    Seq::new(cells.len(), |i: int| bytes_cell(cells[i]))
}

impl View for ScalarValue {
    type V = ScalarView;

    open spec fn view(&self) -> ScalarView {
        match self {
            ScalarValue::Boolean(v) => ScalarView::Boolean(*v),
            ScalarValue::Int64(v) => ScalarView::Int64(*v),
            ScalarValue::Utf8(v) => ScalarView::Utf8(text_cell(*v)),
            ScalarValue::Binary(v) => ScalarView::Binary(bytes_cell(*v)),
            ScalarValue::Date32(v) => ScalarView::Date32(*v),
            ScalarValue::Timestamp(unit, v) => ScalarView::Timestamp(*unit, *v),
            ScalarValue::IntervalYearMonth(v) => ScalarView::IntervalYearMonth(*v),
        }
    }
}

impl View for Column {
    type V = ColumnView;

    open spec fn view(&self) -> ColumnView {
        match self {
            Column::Boolean(v) => ColumnView::Boolean(v@),
            Column::Int64(v) => ColumnView::Int64(v@),
            Column::Utf8(v) => ColumnView::Utf8(text_cells(v@)),
            Column::Binary(v) => ColumnView::Binary(bytes_cells(v@)),
            Column::Date32(v) => ColumnView::Date32(v@),
            Column::Timestamp(unit, v) => ColumnView::Timestamp(*unit, v@),
            Column::IntervalYearMonth(v) => ColumnView::IntervalYearMonth(v@),
        }
    }
}

impl View for ColumnarValue {
    type V = ColumnarView;

    open spec fn view(&self) -> ColumnarView {
        match self {
            ColumnarValue::Scalar(value) => ColumnarView::Scalar(value@),
            ColumnarValue::Array(column) => ColumnarView::Array(column@),
        }
    }
}

impl ScalarView {
    /// The type of the value.
    pub open spec fn data_type(self) -> DataType {
        match self {
            ScalarView::Boolean(_) => DataType::Boolean,
            ScalarView::Int64(_) => DataType::Int64,
            ScalarView::Utf8(_) => DataType::Utf8,
            ScalarView::Binary(_) => DataType::Binary,
            ScalarView::Date32(_) => DataType::Date32,
            ScalarView::Timestamp(unit, _) => DataType::Timestamp(unit),
            ScalarView::IntervalYearMonth(_) => DataType::IntervalYearMonth,
        }
    }

    /// Whether the value is null.
    pub open spec fn is_null(self) -> bool {
        match self {
            ScalarView::Boolean(v) => v is None,
            ScalarView::Int64(v) => v is None,
            ScalarView::Utf8(v) => v is None,
            ScalarView::Binary(v) => v is None,
            ScalarView::Date32(v) => v is None,
            ScalarView::Timestamp(_, v) => v is None,
            ScalarView::IntervalYearMonth(v) => v is None,
        }
    }

    /// The column of `rows` rows that all hold this value.
    pub open spec fn repeated(self, rows: nat) -> ColumnView {
        match self {
            ScalarView::Boolean(v) => ColumnView::Boolean(Seq::new(rows, |i: int| v)),
            ScalarView::Int64(v) => ColumnView::Int64(Seq::new(rows, |i: int| v)),
            ScalarView::Utf8(v) => ColumnView::Utf8(Seq::new(rows, |i: int| v)),
            ScalarView::Binary(v) => ColumnView::Binary(Seq::new(rows, |i: int| v)),
            ScalarView::Date32(v) => ColumnView::Date32(Seq::new(rows, |i: int| v)),
            ScalarView::Timestamp(unit, v) => ColumnView::Timestamp(
                unit,
                Seq::new(rows, |i: int| v),
            ),
            ScalarView::IntervalYearMonth(v) => ColumnView::IntervalYearMonth(
                Seq::new(rows, |i: int| v),
            ),
        }
    }

    /// The null of type `t`.
    pub open spec fn null_of(t: DataType) -> ScalarView {
        match t {
            DataType::Boolean => ScalarView::Boolean(None),
            DataType::Int64 => ScalarView::Int64(None),
            DataType::Utf8 => ScalarView::Utf8(None),
            DataType::Binary => ScalarView::Binary(None),
            DataType::Date32 => ScalarView::Date32(None),
            DataType::Timestamp(unit) => ScalarView::Timestamp(unit, None),
            DataType::IntervalYearMonth => ScalarView::IntervalYearMonth(None),
        }
    }
}

impl ColumnView {
    /// The number of rows.
    pub open spec fn len(self) -> nat {
        match self {
            ColumnView::Boolean(v) => v.len(),
            ColumnView::Int64(v) => v.len(),
            ColumnView::Utf8(v) => v.len(),
            ColumnView::Binary(v) => v.len(),
            ColumnView::Date32(v) => v.len(),
            ColumnView::Timestamp(_, v) => v.len(),
            ColumnView::IntervalYearMonth(v) => v.len(),
        }
    }

    /// The type of the rows.
    pub open spec fn data_type(self) -> DataType {
        match self {
            ColumnView::Boolean(_) => DataType::Boolean,
            ColumnView::Int64(_) => DataType::Int64,
            ColumnView::Utf8(_) => DataType::Utf8,
            ColumnView::Binary(_) => DataType::Binary,
            ColumnView::Date32(_) => DataType::Date32,
            ColumnView::Timestamp(unit, _) => DataType::Timestamp(unit),
            ColumnView::IntervalYearMonth(_) => DataType::IntervalYearMonth,
        }
    }

    /// The value in row `i`.
    pub open spec fn row(self, i: int) -> ScalarView
        recommends
            0 <= i < self.len(),
    {
        match self {
            ColumnView::Boolean(v) => ScalarView::Boolean(v[i]),
            ColumnView::Int64(v) => ScalarView::Int64(v[i]),
            ColumnView::Utf8(v) => ScalarView::Utf8(v[i]),
            ColumnView::Binary(v) => ScalarView::Binary(v[i]),
            ColumnView::Date32(v) => ScalarView::Date32(v[i]),
            ColumnView::Timestamp(unit, v) => ScalarView::Timestamp(unit, v[i]),
            ColumnView::IntervalYearMonth(v) => ScalarView::IntervalYearMonth(v[i]),
        }
    }

    /// Whether every row is null.
    pub open spec fn all_null(self) -> bool {
        forall|i: int| 0 <= i < self.len() ==> (#[trigger] self.row(i)).is_null()
    }
}

impl ColumnarView {
    /// The type of the value or of the rows.
    pub open spec fn data_type(self) -> DataType {
        match self {
            ColumnarView::Scalar(value) => value.data_type(),
            ColumnarView::Array(column) => column.data_type(),
        }
    }
}

/// The mathematical values of a list of arguments.
pub open spec fn columnar_views(args: Seq<ColumnarValue>) -> Seq<ColumnarView> {
    Seq::new(args.len(), |i: int| args[i]@)
}

/// The types of a list of arguments.
pub open spec fn columnar_types(args: Seq<ColumnarView>) -> Seq<DataType> {
    Seq::new(args.len(), |i: int| args[i].data_type())
}

/// The mathematical value of what a kernel returned for a column.
pub open spec fn column_outcome(r: Result<Column, FunctionError>) -> Result<
    ColumnView,
    FunctionErrorView,
> {
    match r {
        Ok(column) => Ok(column@),
        Err(e) => Err(e@),
    }
}

/// The mathematical value of what an invocation returned.
pub open spec fn columnar_outcome(r: Result<ColumnarValue, FunctionError>) -> Result<
    ColumnarView,
    FunctionErrorView,
> {
    match r {
        Ok(value) => Ok(value@),
        Err(e) => Err(e@),
    }
}

/// The mathematical value of what return-type inference returned.
pub open spec fn type_outcome(r: Result<DataType, FunctionError>) -> Result<
    DataType,
    FunctionErrorView,
> {
    match r {
        Ok(t) => Ok(t),
        Err(e) => Err(e@),
    }
}

/// `rows` copies of a value that can be copied.
fn repeat_plain<T: Copy>(value: Option<T>, rows: usize) -> (r: Vec<Option<T>>)
    ensures
        r@ == Seq::new(rows as nat, |i: int| value),
{
    let mut out: Vec<Option<T>> = Vec::new();
    let mut i: usize = 0;
    while i < rows
        invariant
            i <= rows,
            out@ == Seq::new(i as nat, |j: int| value),
        decreases rows - i,
    {
        out.push(value);
        i += 1;
    }
    out
}

/// A copy of a text cell.
fn copy_text(cell: &Option<String>) -> (r: Option<String>)
    ensures
        text_cell(r) == text_cell(*cell),
{
    match cell {
        Some(text) => Some(text.clone()),
        None => None,
    }
}

/// A copy of a binary cell.
fn copy_bytes(cell: &Option<Vec<u8>>) -> (r: Option<Vec<u8>>)
    ensures
        bytes_cell(r) == bytes_cell(*cell),
{
    match cell {
        Some(bytes) => Some(slice_to_vec(bytes.as_slice())),
        None => None,
    }
}

/// `rows` copies of a text cell.
fn repeat_text(cell: &Option<String>, rows: usize) -> (r: Vec<Option<String>>)
    ensures
        text_cells(r@) == Seq::new(rows as nat, |i: int| text_cell(*cell)),
{
    let mut out: Vec<Option<String>> = Vec::new();
    let mut i: usize = 0;
    while i < rows
        invariant
            i <= rows,
            text_cells(out@) == Seq::new(i as nat, |j: int| text_cell(*cell)),
        decreases rows - i,
    {
        let ghost before = out@;
        out.push(copy_text(cell));
        proof {
            assert(text_cells(out@) =~= text_cells(before).push(text_cell(*cell)));
        }
        i += 1;
    }
    out
}

/// `rows` copies of a binary cell.
fn repeat_bytes(cell: &Option<Vec<u8>>, rows: usize) -> (r: Vec<Option<Vec<u8>>>)
    ensures
        bytes_cells(r@) == Seq::new(rows as nat, |i: int| bytes_cell(*cell)),
{
    let mut out: Vec<Option<Vec<u8>>> = Vec::new();
    let mut i: usize = 0;
    while i < rows
        invariant
            i <= rows,
            bytes_cells(out@) == Seq::new(i as nat, |j: int| bytes_cell(*cell)),
        decreases rows - i,
    {
        let ghost before = out@;
        out.push(copy_bytes(cell));
        proof {
            assert(bytes_cells(out@) =~= bytes_cells(before).push(bytes_cell(*cell)));
        }
        i += 1;
    }
    out
}

/// Whether every cell is null.
fn cells_all_null<T>(cells: &Vec<Option<T>>) -> (r: bool)
    ensures
        r == (forall|i: int| 0 <= i < cells@.len() ==> cells@[i] is None),
{
    let mut i: usize = 0;
    while i < cells.len()
        invariant
            i <= cells.len(),
            forall|j: int| 0 <= j < i ==> cells@[j] is None,
        decreases cells.len() - i,
    {
        if cells[i].is_some() {
            return false;
        }
        i += 1;
    }
    true
}

impl ScalarValue {
    /// The type of the value.
    pub fn data_type(&self) -> (r: DataType)
        ensures
            r == self@.data_type(),
    {
        match self {
            ScalarValue::Boolean(_) => DataType::Boolean,
            ScalarValue::Int64(_) => DataType::Int64,
            ScalarValue::Utf8(_) => DataType::Utf8,
            ScalarValue::Binary(_) => DataType::Binary,
            ScalarValue::Date32(_) => DataType::Date32,
            ScalarValue::Timestamp(unit, _) => DataType::Timestamp(*unit),
            ScalarValue::IntervalYearMonth(_) => DataType::IntervalYearMonth,
        }
    }

    /// Whether the value is null.
    pub fn is_null(&self) -> (r: bool)
        ensures
            r == self@.is_null(),
    {
        match self {
            ScalarValue::Boolean(v) => v.is_none(),
            ScalarValue::Int64(v) => v.is_none(),
            ScalarValue::Utf8(v) => v.is_none(),
            ScalarValue::Binary(v) => v.is_none(),
            ScalarValue::Date32(v) => v.is_none(),
            ScalarValue::Timestamp(_, v) => v.is_none(),
            ScalarValue::IntervalYearMonth(v) => v.is_none(),
        }
    }

    /// The null of type `t`.
    pub fn null(t: DataType) -> (r: ScalarValue)
        ensures
            r@ == ScalarView::null_of(t),
    {
        match t {
            DataType::Boolean => ScalarValue::Boolean(None),
            DataType::Int64 => ScalarValue::Int64(None),
            DataType::Utf8 => ScalarValue::Utf8(None),
            DataType::Binary => ScalarValue::Binary(None),
            DataType::Date32 => ScalarValue::Date32(None),
            DataType::Timestamp(unit) => ScalarValue::Timestamp(unit, None),
            DataType::IntervalYearMonth => ScalarValue::IntervalYearMonth(None),
        }
    }

    /// The column of `rows` rows that all hold this value.
    pub fn to_array_of_size(&self, rows: usize) -> (r: Column)
        ensures
            r@ == self@.repeated(rows as nat),
    {
        match self {
            ScalarValue::Boolean(v) => Column::Boolean(repeat_plain(*v, rows)),
            ScalarValue::Int64(v) => Column::Int64(repeat_plain(*v, rows)),
            ScalarValue::Utf8(v) => Column::Utf8(repeat_text(v, rows)),
            ScalarValue::Binary(v) => Column::Binary(repeat_bytes(v, rows)),
            ScalarValue::Date32(v) => Column::Date32(repeat_plain(*v, rows)),
            ScalarValue::Timestamp(unit, v) => Column::Timestamp(*unit, repeat_plain(*v, rows)),
            ScalarValue::IntervalYearMonth(v) => Column::IntervalYearMonth(
                repeat_plain(*v, rows),
            ),
        }
    }
}

impl Column {
    /// The number of rows.
    pub fn len(&self) -> (r: usize)
        ensures
            r == self@.len(),
    {
        match self {
            Column::Boolean(v) => v.len(),
            Column::Int64(v) => v.len(),
            Column::Utf8(v) => v.len(),
            Column::Binary(v) => v.len(),
            Column::Date32(v) => v.len(),
            Column::Timestamp(_, v) => v.len(),
            Column::IntervalYearMonth(v) => v.len(),
        }
    }

    /// The type of the rows.
    pub fn data_type(&self) -> (r: DataType)
        ensures
            r == self@.data_type(),
    {
        match self {
            Column::Boolean(_) => DataType::Boolean,
            Column::Int64(_) => DataType::Int64,
            Column::Utf8(_) => DataType::Utf8,
            Column::Binary(_) => DataType::Binary,
            Column::Date32(_) => DataType::Date32,
            Column::Timestamp(unit, _) => DataType::Timestamp(*unit),
            Column::IntervalYearMonth(_) => DataType::IntervalYearMonth,
        }
    }

    /// The column of `rows` null rows of type `t`.
    pub fn new_null(t: DataType, rows: usize) -> (r: Column)
        ensures
            r@ == ScalarView::null_of(t).repeated(rows as nat),
            r@.len() == rows,
            r@.data_type() == t,
            r@.all_null(),
    {
        ScalarValue::null(t).to_array_of_size(rows)
    }

    /// Whether every row is null.
    pub fn is_all_null(&self) -> (r: bool)
        ensures
            r == self@.all_null(),
    {
        let r = match self {
            Column::Boolean(v) => cells_all_null(v),
            Column::Int64(v) => cells_all_null(v),
            Column::Utf8(v) => cells_all_null(v),
            Column::Binary(v) => cells_all_null(v),
            Column::Date32(v) => cells_all_null(v),
            Column::Timestamp(_, v) => cells_all_null(v),
            Column::IntervalYearMonth(v) => cells_all_null(v),
        };
        proof {
            let view = self@;
            if !r && view.all_null() {
                let k = match self {
                    Column::Boolean(v) => choose|k: int| 0 <= k < v@.len() && !(v@[k] is None),
                    Column::Int64(v) => choose|k: int| 0 <= k < v@.len() && !(v@[k] is None),
                    Column::Utf8(v) => choose|k: int| 0 <= k < v@.len() && !(v@[k] is None),
                    Column::Binary(v) => choose|k: int| 0 <= k < v@.len() && !(v@[k] is None),
                    Column::Date32(v) => choose|k: int| 0 <= k < v@.len() && !(v@[k] is None),
                    Column::Timestamp(_, v) => choose|k: int|
                        0 <= k < v@.len() && !(v@[k] is None),
                    Column::IntervalYearMonth(v) => choose|k: int|
                        0 <= k < v@.len() && !(v@[k] is None),
                };
                assert(view.row(k).is_null());
            }
        }
        r
    }

    /// The value in row `i`.
    fn row_at(&self, i: usize) -> (r: ScalarValue)
        requires
            i < self@.len(),
        ensures
            r@ == self@.row(i as int),
    {
        match self {
            Column::Boolean(v) => ScalarValue::Boolean(v[i]),
            Column::Int64(v) => ScalarValue::Int64(v[i]),
            Column::Utf8(v) => ScalarValue::Utf8(copy_text(&v[i])),
            Column::Binary(v) => ScalarValue::Binary(copy_bytes(&v[i])),
            Column::Date32(v) => ScalarValue::Date32(v[i]),
            Column::Timestamp(unit, v) => ScalarValue::Timestamp(*unit, v[i]),
            Column::IntervalYearMonth(v) => ScalarValue::IntervalYearMonth(v[i]),
        }
    }

    /// The value in the first row of a column that has one.
    pub(crate) fn first_row(&self) -> (r: ScalarValue)
        requires
            self@.len() > 0,
        ensures
            r@ == self@.row(0),
    {
        self.row_at(0)
    }

    /// The value in row `i`, or `None` where the column has no such row.
    pub fn scalar_at(&self, i: usize) -> (r: Option<ScalarValue>)
        ensures
            i < self@.len() ==> r is Some && r->0@ == self@.row(i as int),
            i >= self@.len() ==> r is None,
    {
        if i < self.len() {
            Some(self.row_at(i))
        } else {
            None
        }
    }
}

impl ColumnarValue {
    /// The type of the value or of the rows.
    pub fn data_type(&self) -> (r: DataType)
        ensures
            r == self@.data_type(),
    {
        match self {
            ColumnarValue::Scalar(value) => value.data_type(),
            ColumnarValue::Array(column) => column.data_type(),
        }
    }
}

/// The types of the arguments `args`, in order.
pub fn argument_types(args: &[ColumnarValue]) -> (r: Vec<DataType>)
    ensures
        r@ == columnar_types(columnar_views(args@)),
{
    let mut types: Vec<DataType> = Vec::new();
    let mut i: usize = 0;
    while i < args.len()
        invariant
            i <= args.len(),
            types@ == Seq::new(i as nat, |j: int| args@[j]@.data_type()),
        decreases args.len() - i,
    {
        types.push(args[i].data_type());
        i += 1;
    }
    proof {
        assert(types@ =~= columnar_types(columnar_views(args@)));
    }
    types
}

} // verus!
