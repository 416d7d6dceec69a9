//! Dense matrices stored row by row, with their shape checked.
use vstd::prelude::*;

verus! {

/// A `rows × cols` matrix. Every row holds exactly `cols` entries, which
/// keeps the column count meaningful even when there are no rows.
pub struct Matrix<T> {
    cols: usize,
    data: Vec<Vec<T>>,
}

impl<T> View for Matrix<T> {
    type V = Seq<Seq<T>>;

    closed spec fn view(&self) -> Seq<Seq<T>> {
        row_views(self.data@)
    }
}

/// The entries of each row of `rows`.
pub open spec fn row_views<T>(rows: Seq<Vec<T>>) -> Seq<Seq<T>> {
    rows.map_values(|row: Vec<T>| row@)
}

/// Every row of `rows` has `cols` entries.
pub open spec fn rows_have_len<T>(rows: Seq<Seq<T>>, cols: nat) -> bool {
    forall|i: int| 0 <= i < rows.len() ==> (#[trigger] rows[i]).len() == cols
}

impl<T> Matrix<T> {
    /// Number of columns.
    pub closed spec fn num_cols(&self) -> nat {
        self.cols as nat
    }

    /// Number of rows.
    pub open spec fn num_rows(&self) -> nat {
        self@.len()
    }

    /// Every row has `num_cols()` entries.
    pub open spec fn wf(&self) -> bool {
        rows_have_len(self@, self.num_cols())
    }

    /// The entry at row `i`, column `j`.
    pub open spec fn entry(&self, i: int, j: int) -> T {
        self@[i][j]
    }

    /// The matrix has shape `(rows, cols)`.
    pub open spec fn has_shape(&self, rows: nat, cols: nat) -> bool {
        self.num_rows() == rows && self.num_cols() == cols
    }

    /// Builds a matrix from its rows; `None` when a row does not have `cols`
    /// entries.
    pub fn from_rows(rows: Vec<Vec<T>>, cols: usize) -> (r: Option<Matrix<T>>)
        ensures
            r.is_some() <==> rows_have_len(row_views(rows@), cols as nat),
            r matches Some(m) ==> {
                &&& m.wf()
                &&& m.num_cols() == cols
                &&& m@ == row_views(rows@)
            },
    {
        let ghost model = row_views(rows@);
        let mut i: usize = 0;
        while i < rows.len()
            invariant
                model == row_views(rows@),
                0 <= i <= rows.len(),
                forall|k: int| 0 <= k < i ==> (#[trigger] model[k]).len() == cols,
            decreases rows.len() - i,
        {
            if rows[i].len() != cols {
                assert(model[i as int].len() != cols);
                return None;
            }
            i += 1;
        }
        Some(Matrix { cols, data: rows })
    }

    /// Number of rows.
    pub fn nrows(&self) -> (r: usize)
        ensures
            r == self.num_rows(),
    {
        self.data.len()
    }

    /// Number of columns.
    pub fn ncols(&self) -> (r: usize)
        ensures
            r == self.num_cols(),
    {
        self.cols
    }

    /// The shape as `(rows, cols)`.
    pub fn shape(&self) -> (r: (usize, usize))
        ensures
            r.0 == self.num_rows(),
            r.1 == self.num_cols(),
    {
        (self.data.len(), self.cols)
    }

    /// The rows, each as a vector.
    pub fn rows(&self) -> (r: &Vec<Vec<T>>)
        ensures
            row_views(r@) == self@,
    {
        &self.data
    }

    /// The entry at row `i`, column `j`.
    pub fn get(&self, i: usize, j: usize) -> (r: &T)
        requires
            self.wf(),
            i < self.num_rows(),
            j < self.num_cols(),
        ensures
            *r == self.entry(i as int, j as int),
    {
        assert(self@[i as int] == self.data@[i as int]@);
        &self.data[i][j]
    }
}

/// A copy of `row`, entry for entry.
fn copy_row<T: Copy>(row: &Vec<T>) -> (r: Vec<T>)
    ensures
        r@ == row@,
{
    let mut out: Vec<T> = Vec::with_capacity(row.len());
    let mut j: usize = 0;
    while j < row.len()
        invariant
            0 <= j <= row.len(),
            out@ == row@.subrange(0, j as int),
        decreases row.len() - j,
    {
        out.push(row[j]);
        j += 1;
        assert(out@ =~= row@.subrange(0, j as int));
    }
    assert(out@ =~= row@);
    out
}

impl<T: Copy> Matrix<T> {
    /// An independent copy of the matrix.
    pub fn duplicate(&self) -> (r: Matrix<T>)
        ensures
            r@ == self@,
            r.num_cols() == self.num_cols(),
    {
        let mut data: Vec<Vec<T>> = Vec::with_capacity(self.data.len());
        let mut i: usize = 0;
        while i < self.data.len()
            invariant
                0 <= i <= self.data.len(),
                row_views(data@) == self@.subrange(0, i as int),
            decreases self.data.len() - i,
        {
            let row = copy_row(&self.data[i]);
            let ghost before = data@;
            data.push(row);
            assert(data@ == before.push(row));
            assert(row_views(data@) =~= row_views(before).push(self@[i as int]));
            i += 1;
            assert(row_views(data@) =~= self@.subrange(0, i as int));
        }
        assert(self@.subrange(0, i as int) =~= self@);
        Matrix { cols: self.cols, data }
    }

    /// The matrix with a column of `value` put before its first column.
    pub fn prepend_column(&self, value: T) -> (r: Matrix<T>)
        requires
            self.wf(),
            self.num_cols() < usize::MAX,
        ensures
            r.wf(),
            r.num_rows() == self.num_rows(),
            r.num_cols() == self.num_cols() + 1,
            forall|i: int| 0 <= i < self.num_rows() ==> #[trigger] r@[i] == seq![value] + self@[i],
    {
        let mut data: Vec<Vec<T>> = Vec::with_capacity(self.data.len());
        let mut i: usize = 0;
        while i < self.data.len()
            invariant
                self.wf(),
                0 <= i <= self.data.len(),
                data@.len() == i,
                forall|k: int| 0 <= k < i ==> (#[trigger] data@[k])@ == seq![value] + self@[k],
            decreases self.data.len() - i,
        {
            let src = &self.data[i];
            let mut row: Vec<T> = Vec::new();
            row.push(value);
            let mut j: usize = 0;
            while j < src.len()
                invariant
                    0 <= j <= src.len(),
                    row@ == seq![value] + src@.subrange(0, j as int),
                decreases src.len() - j,
            {
                row.push(src[j]);
                j += 1;
                assert(row@ =~= seq![value] + src@.subrange(0, j as int));
            }
            assert(src@.subrange(0, j as int) =~= src@);
            assert(self@[i as int] == src@);
            data.push(row);
            i += 1;
        }
        let r = Matrix { cols: self.cols + 1, data };
        assert forall|k: int| 0 <= k < r@.len() implies (#[trigger] r@[k]).len() == r.num_cols() by {
            assert(self@[k].len() == self.num_cols());
        }
        r
    }
}

} // verus!
