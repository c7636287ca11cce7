//! Points kept as the rows of a two-dimensional array.

use vstd::prelude::*;
use ndarray::{Array2, ArrayView};
use crate::units::Point;

verus! {

/// The number of rows up to which an array can take one more.
pub const ROW_LIMIT: usize = 0x3fff_ffff;

/// An `ndarray::Array2` of 64-bit numbers that is made with two columns and
/// grows by rows. The array itself is closed to the verifier: all that is
/// known of it is what the functions of this file say of [`array_rows`] and
/// [`array_cols`].
#[verifier::external_body]
pub struct Rows {
    array: Array2<i64>,
}

/// The rows of the array, first to last, each with its elements by
/// column.
pub uninterp spec fn array_rows(rows: Rows) -> Seq<Seq<i64>>;

/// The number of columns of the array.
pub uninterp spec fn array_cols(rows: Rows) -> nat;

/// `ndarray::Array2::default` with the shape of no rows and two columns.
/// Taken on trust: the array has no rows, and two columns.
#[verifier::external_body]
fn empty_rows() -> (rows: Rows)
    ensures
        array_rows(rows) == Seq::<Seq<i64>>::empty(),
        array_cols(rows) == 2,
{
    Rows { array: Array2::default((0, 2)) }
}

/// `ndarray::Array2::push_row` with a row of two numbers. The method fails
/// where the row is not as long as the rows of the array, and where the
/// array would hold more elements than fit the address space; the
/// conditions leave both out. Taken on trust: the row is appended behind the
/// rows there are, which stay as they are.
#[verifier::external_body]
fn push_row(rows: &mut Rows, x: i64, y: i64)
    requires
        array_cols(*old(rows)) == 2,
        array_rows(*old(rows)).len() < ROW_LIMIT,
    ensures
        array_rows(*final(rows)) == array_rows(*old(rows)).push(seq![x, y]),
        array_cols(*final(rows)) == 2,
{
    rows.array.push_row(ArrayView::from(&[x, y])).unwrap();
}

/// `ndarray::Array2::nrows`. Taken on trust: it is the number of rows.
#[verifier::external_body]
fn row_count(rows: &Rows) -> (n: usize)
    ensures
        n == array_rows(*rows).len(),
{
    rows.array.nrows()
}

/// Indexing an `ndarray::Array2` with a row and a column; it panics where
/// they are not within the array, which the conditions leave out. Taken on
/// trust: it gives the element of that row in that column.
#[verifier::external_body]
fn entry(rows: &Rows, i: usize, j: usize) -> (v: i64)
    requires
        i < array_rows(*rows).len(),
        j < array_cols(*rows),
        j < array_rows(*rows)[i as int].len(),
    ensures
        v == array_rows(*rows)[i as int][j as int],
{
    rows.array[[i, j]]
}

impl Rows {
    /// The array has two columns, and so has each of its rows.
    pub open spec fn wf(self) -> bool {
        &&& array_cols(self) == 2
        &&& forall|i: int| 0 <= i < array_rows(self).len() ==> (#[trigger] array_rows(self)[i]).len() == 2
    }

    /// The rows as points: the first column holds x, the second y.
    pub open spec fn points(self) -> Seq<Point> {
        Seq::new(
            array_rows(self).len(),
            |i: int| Point { x: array_rows(self)[i][0], y: array_rows(self)[i][1] },
        )
    }

    /// No rows.
    pub fn new() -> (rows: Rows)
        ensures
            rows.wf(),
            rows.points() == Seq::<Point>::empty(),
    {
        let rows = empty_rows();
        assert(rows.points() =~= Seq::<Point>::empty());
        rows
    }

    /// The number of rows.
    pub fn len(&self) -> (n: usize)
        ensures
            n == self.points().len(),
    {
        row_count(self)
    }

    /// Appends `p` as the last row.
    pub fn push(&mut self, p: Point)
        requires
            old(self).wf(),
            old(self).points().len() < ROW_LIMIT,
        ensures
            final(self).wf(),
            final(self).points() == old(self).points().push(p),
    {
        push_row(self, p.x, p.y);
        assert(self.points() =~= old(self).points().push(p));
    }

    /// The point in row `i`.
    pub fn point(&self, i: usize) -> (p: Point)
        requires
            self.wf(),
            i < self.points().len(),
        ensures
            p == self.points()[i as int],
    {
        Point { x: entry(self, i, 0), y: entry(self, i, 1) }
    }

    /// The rows that hold `pts`, in order.
    pub fn from_points(pts: &Vec<Point>) -> (rows: Rows)
        requires
            pts@.len() <= ROW_LIMIT,
        ensures
            rows.wf(),
            rows.points() == pts@,
    {
        let mut rows = Rows::new();
        let mut i: usize = 0;
        while i < pts.len()
            invariant
                i <= pts@.len(),
                pts@.len() <= ROW_LIMIT,
                rows.wf(),
                rows.points() == pts@.take(i as int),
            decreases pts@.len() - i,
        {
            rows.push(pts[i]);
            assert(pts@.take(i + 1) =~= pts@.take(i as int).push(pts@[i as int]));
            i += 1;
        }
        assert(pts@.take(i as int) =~= pts@);
        rows
    }
}

} // verus!
