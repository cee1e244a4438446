//! 4x4 transformation matrices: composition, determinant and inverse.

use vstd::prelude::*;

use crate::num::{spec_eq_num, Num};
use crate::point::Point;
use crate::util::{float_eq, lemma_float_eq_refl, spec_float_eq};
use crate::vector::Vector;

verus! {

broadcast use vstd::array::group_array_axioms;

/// Matrix 4x4, sixteen scalars in row-major order.
#[derive(Copy, Clone, Debug)]
pub struct Matrix<N: Num> {
    elements: [N; 16],
}

impl<N: Num> View for Matrix<N> {
    type V = Seq<N>;

    closed spec fn view(&self) -> Seq<N> {
        self.elements@
    }
}

/// The row-major elements of the identity matrix.
pub open spec fn spec_identity<N: Num>() -> Seq<N> {
    Seq::new(
        16,
        |i: int|
            if i == 0 || i == 5 || i == 10 || i == 15 {
                N::spec_one()
            } else {
                N::spec_zero()
            },
    )
}

/// Whether two 4x4 element sequences agree entrywise up to the scalar
/// tolerance.
pub open spec fn spec_matrix_eq<N: Num>(a: Seq<N>, b: Seq<N>) -> bool {
    forall|i: int| 0 <= i < 16 ==> spec_float_eq(a[i], b[i])
}

/// The row-major elements of the transpose: entry `(r,c)` read from `(c,r)`.
pub open spec fn spec_transpose<N: Num>(m: Seq<N>) -> Seq<N> {
    Seq::new(16, |i: int| m[(i % 4) * 4 + i / 4])
}

/// Entry `(row,col)` of a matrix product: the dot product of `row` of `a`
/// with `col` of `b`, summed left to right.
pub open spec fn spec_mul_entry<N: Num>(a: Seq<N>, b: Seq<N>, row: int, col: int) -> N {
    a[4 * row].spec_mul(b[col]).spec_add(a[4 * row + 1].spec_mul(b[4 + col])).spec_add(
        a[4 * row + 2].spec_mul(b[8 + col]),
    ).spec_add(a[4 * row + 3].spec_mul(b[12 + col]))
}

/// The row-major elements of a matrix product.
pub open spec fn spec_mat_mul<N: Num>(a: Seq<N>, b: Seq<N>) -> Seq<N> {
    Seq::new(16, |i: int| spec_mul_entry(a, b, i / 4, i % 4))
}

/// A matrix applied to a vector: only the top-left 3x3 block takes part, the
/// translation column is ignored because a vector's homogeneous coordinate
/// is zero.
pub open spec fn spec_mul_vector<N: Num>(m: Seq<N>, v: Vector<N>) -> Vector<N> {
    Vector {
        x: m[0].spec_mul(v.x).spec_add(m[1].spec_mul(v.y)).spec_add(m[2].spec_mul(v.z)),
        y: m[4].spec_mul(v.x).spec_add(m[5].spec_mul(v.y)).spec_add(m[6].spec_mul(v.z)),
        z: m[8].spec_mul(v.x).spec_add(m[9].spec_mul(v.y)).spec_add(m[10].spec_mul(v.z)),
    }
}

/// A matrix applied to a point: the full affine application, translation
/// column included, because a point's homogeneous coordinate is one.
pub open spec fn spec_mul_point<N: Num>(m: Seq<N>, p: Point<N>) -> Point<N> {
    Point {
        x: m[0].spec_mul(p.x).spec_add(m[1].spec_mul(p.y)).spec_add(m[2].spec_mul(p.z)).spec_add(
            m[3],
        ),
        y: m[4].spec_mul(p.x).spec_add(m[5].spec_mul(p.y)).spec_add(m[6].spec_mul(p.z)).spec_add(
            m[7],
        ),
        z: m[8].spec_mul(p.x).spec_add(m[9].spec_mul(p.y)).spec_add(m[10].spec_mul(p.z)).spec_add(
            m[11],
        ),
    }
}

/// The index a deleted-line index maps to: lines before the deleted one keep
/// their place, later ones shift up by one.
pub open spec fn spec_skip(i: int, deleted: int) -> int {
    if i < deleted {
        i
    } else {
        i + 1
    }
}

/// The 2x2 determinant `a*d - c*b` of a row-major 2x2 sequence.
pub open spec fn spec_det2<N: Num>(m: Seq<N>) -> N {
    m[0].spec_mul(m[3]).spec_sub(m[2].spec_mul(m[1]))
}

/// The 2x2 submatrix of a row-major 3x3 sequence with one row and one column
/// deleted.
pub open spec fn spec_submat3<N: Num>(m: Seq<N>, row: int, col: int) -> Seq<N> {
    Seq::new(4, |i: int| m[3 * spec_skip(i / 2, row) + spec_skip(i % 2, col)])
}

/// The minor of a 3x3 sequence at `(row,col)`: the determinant of the
/// submatrix with that row and column deleted.
pub open spec fn spec_minor3<N: Num>(m: Seq<N>, row: int, col: int) -> N {
    spec_det2(spec_submat3(m, row, col))
}

/// The cofactor of a 3x3 sequence at `(row,col)`: the minor, negated on odd
/// `row + col`.
pub open spec fn spec_cofactor3<N: Num>(m: Seq<N>, row: int, col: int) -> N {
    if (row + col) % 2 == 1 {
        spec_minor3(m, row, col).spec_neg()
    } else {
        spec_minor3(m, row, col)
    }
}

/// The first `k` terms of the cofactor expansion of a 3x3 determinant along
/// row zero, summed onto zero from the left.
pub open spec fn spec_det3_partial<N: Num>(m: Seq<N>, k: int) -> N
    decreases k,
{
    if k <= 0 {
        N::spec_zero()
    } else {
        spec_det3_partial(m, k - 1).spec_add(m[k - 1].spec_mul(spec_cofactor3(m, 0, k - 1)))
    }
}

/// The 3x3 determinant by cofactor expansion along row zero.
pub open spec fn spec_det3<N: Num>(m: Seq<N>) -> N {
    spec_det3_partial(m, 3)
}

/// The 3x3 submatrix of a row-major 4x4 sequence with one row and one column
/// deleted.
pub open spec fn spec_submat4<N: Num>(m: Seq<N>, row: int, col: int) -> Seq<N> {
    Seq::new(9, |i: int| m[4 * spec_skip(i / 3, row) + spec_skip(i % 3, col)])
}

/// The minor of a 4x4 sequence at `(row,col)`.
pub open spec fn spec_minor4<N: Num>(m: Seq<N>, row: int, col: int) -> N {
    spec_det3(spec_submat4(m, row, col))
}

/// The cofactor of a 4x4 sequence at `(row,col)`.
pub open spec fn spec_cofactor4<N: Num>(m: Seq<N>, row: int, col: int) -> N {
    if (row + col) % 2 == 1 {
        spec_minor4(m, row, col).spec_neg()
    } else {
        spec_minor4(m, row, col)
    }
}

/// The first `k` terms of the cofactor expansion of a 4x4 determinant along
/// row zero, summed onto zero from the left.
pub open spec fn spec_det4_partial<N: Num>(m: Seq<N>, k: int) -> N
    decreases k,
{
    if k <= 0 {
        N::spec_zero()
    } else {
        spec_det4_partial(m, k - 1).spec_add(m[k - 1].spec_mul(spec_cofactor4(m, 0, k - 1)))
    }
}

/// The 4x4 determinant by cofactor expansion along row zero.
pub open spec fn spec_det4<N: Num>(m: Seq<N>) -> N {
    spec_det4_partial(m, 4)
}

/// Whether the determinant differs from zero, in the scalar's exact order:
/// no tolerance is applied here.
pub open spec fn spec_is_invertible<N: Num>(m: Seq<N>) -> bool {
    !spec_eq_num(spec_det4(m), N::spec_zero())
}

/// The row-major elements of the inverse by the adjugate method: the entry
/// at `(col,row)` — note the transpose — is the cofactor at `(row,col)`
/// divided by the determinant.
pub open spec fn spec_inverse<N: Num>(m: Seq<N>) -> Seq<N> {
    Seq::new(16, |i: int| spec_cofactor4(m, i % 4, i / 4).spec_div(spec_det4(m)))
}

/// Returns the 2x2 determinant of a row-major 2x2 array.
pub fn det2<N: Num>(matrix: [N; 4]) -> (r: N)
    ensures
        r == spec_det2(matrix@),
{
    matrix[0].mul(matrix[3]).sub(matrix[2].mul(matrix[1]))
}

/// Returns the 2x2 submatrix of a row-major 3x3 array with `row` and `col`
/// deleted.
pub fn submat3<N: Num>(matrix: [N; 9], row: usize, col: usize) -> (r: [N; 4])
    requires
        row < 3,
        col < 3,
    ensures
        r@ == spec_submat3(matrix@, row as int, col as int),
{
    let r0: usize = if 0 < row { 0 } else { 1 };
    let r1: usize = if 1 < row { 1 } else { 2 };
    let c0: usize = if 0 < col { 0 } else { 1 };
    let c1: usize = if 1 < col { 1 } else { 2 };
    let out: [N; 4] = [
        matrix[3 * r0 + c0],
        matrix[3 * r0 + c1],
        matrix[3 * r1 + c0],
        matrix[3 * r1 + c1],
    ];
    proof {
        assert(out@ =~= spec_submat3(matrix@, row as int, col as int));
    }
    out
}

/// Returns the 3x3 submatrix of a row-major 4x4 array with `row` and `col`
/// deleted.
pub fn submat4<N: Num>(matrix: [N; 16], row: usize, col: usize) -> (r: [N; 9])
    requires
        row < 4,
        col < 4,
    ensures
        r@ == spec_submat4(matrix@, row as int, col as int),
{
    let r0: usize = if 0 < row { 0 } else { 1 };
    let r1: usize = if 1 < row { 1 } else { 2 };
    let r2: usize = if 2 < row { 2 } else { 3 };
    let c0: usize = if 0 < col { 0 } else { 1 };
    let c1: usize = if 1 < col { 1 } else { 2 };
    let c2: usize = if 2 < col { 2 } else { 3 };
    let out: [N; 9] = [
        matrix[4 * r0 + c0],
        matrix[4 * r0 + c1],
        matrix[4 * r0 + c2],
        matrix[4 * r1 + c0],
        matrix[4 * r1 + c1],
        matrix[4 * r1 + c2],
        matrix[4 * r2 + c0],
        matrix[4 * r2 + c1],
        matrix[4 * r2 + c2],
    ];
    proof {
        assert(out@ =~= spec_submat4(matrix@, row as int, col as int));
    }
    out
}

/// Returns the minor of a row-major 3x3 array at `(row,col)`.
pub fn minor3<N: Num>(matrix: [N; 9], row: usize, col: usize) -> (r: N)
    requires
        row < 3,
        col < 3,
    ensures
        r == spec_minor3(matrix@, row as int, col as int),
{
    let sub = submat3(matrix, row, col);
    det2(sub)
}

/// Returns the minor of a row-major 4x4 array at `(row,col)`.
pub fn minor4<N: Num>(matrix: [N; 16], row: usize, col: usize) -> (r: N)
    requires
        row < 4,
        col < 4,
    ensures
        r == spec_minor4(matrix@, row as int, col as int),
{
    let sub = submat4(matrix, row, col);
    det3(sub)
}

/// Returns the cofactor of a row-major 3x3 array at `(row,col)`.
pub fn cofactor3<N: Num>(matrix: [N; 9], row: usize, col: usize) -> (r: N)
    requires
        row < 3,
        col < 3,
    ensures
        r == spec_cofactor3(matrix@, row as int, col as int),
{
    let minor = minor3(matrix, row, col);
    if (row + col) % 2 == 1 {
        minor.neg()
    } else {
        minor
    }
}

/// Returns the cofactor of a row-major 4x4 array at `(row,col)`.
pub fn cofactor4<N: Num>(matrix: [N; 16], row: usize, col: usize) -> (r: N)
    requires
        row < 4,
        col < 4,
    ensures
        r == spec_cofactor4(matrix@, row as int, col as int),
{
    let minor = minor4(matrix, row, col);
    if (row + col) % 2 == 1 {
        minor.neg()
    } else {
        minor
    }
}

/// Returns the 3x3 determinant of a row-major 3x3 array by cofactor
/// expansion along row zero.
pub fn det3<N: Num>(matrix: [N; 9]) -> (r: N)
    ensures
        r == spec_det3(matrix@),
{
    let mut det: N = N::zero();
    let mut col: usize = 0;
    while col < 3
        invariant
            col <= 3,
            det == spec_det3_partial(matrix@, col as int),
        decreases 3 - col,
    {
        det = det.add(matrix[col].mul(cofactor3(matrix, 0, col)));
        col = col + 1;
    }
    det
}

/// Returns the 4x4 determinant of a row-major 4x4 array by cofactor
/// expansion along row zero.
pub fn det4<N: Num>(matrix: [N; 16]) -> (r: N)
    ensures
        r == spec_det4(matrix@),
{
    let mut det: N = N::zero();
    let mut col: usize = 0;
    while col < 4
        invariant
            col <= 4,
            det == spec_det4_partial(matrix@, col as int),
        decreases 4 - col,
    {
        det = det.add(matrix[col].mul(cofactor4(matrix, 0, col)));
        col = col + 1;
    }
    det
}

/// Builds the inverse of a row-major 4x4 array by the adjugate method. On a
/// singular matrix every entry divides by zero and becomes whatever the
/// scalar yields for that.
fn inv<N: Num>(matrix: [N; 16]) -> (r: Matrix<N>)
    ensures
        r@ == spec_inverse(matrix@),
{
    let mut inverse: [N; 16] = [matrix[0]; 16];
    let determinant = det4(matrix);
    let mut row: usize = 0;
    while row < 4
        invariant
            row <= 4,
            determinant == spec_det4(matrix@),
            forall|j: int|
                0 <= j < 16 && j % 4 < row ==> inverse@[j] == spec_inverse(matrix@)[j],
        decreases 4 - row,
    {
        let mut col: usize = 0;
        while col < 4
            invariant
                row < 4,
                col <= 4,
                determinant == spec_det4(matrix@),
                forall|j: int|
                    0 <= j < 16 && (j % 4 < row || (j % 4 == row && j / 4 < col)) ==> inverse@[j]
                        == spec_inverse(matrix@)[j],
            decreases 4 - col,
        {
            let cofactor = cofactor4(matrix, row, col);
            inverse[col * 4 + row] = cofactor.div(determinant);
            col = col + 1;
        }
        row = row + 1;
    }
    proof {
        assert(inverse@ =~= spec_inverse(matrix@));
    }
    Matrix { elements: inverse }
}

impl<N: Num> Matrix<N> {
    /// Creates a new matrix from specified elements, in row-major order.
    pub fn new(elements: [N; 16]) -> (r: Self)
        ensures
            r@ == elements@,
    {
        Self { elements }
    }

    /// Returns the identity matrix.
    pub fn identity() -> (r: Self)
        ensures
            r@ == spec_identity::<N>(),
    {
        let z = N::zero();
        let o = N::one();
        let mut elements: [N; 16] = [z; 16];
        elements[0] = o;
        elements[5] = o;
        elements[10] = o;
        elements[15] = o;
        proof {
            assert(elements@ =~= spec_identity::<N>());
        }
        Matrix { elements }
    }

    /// Returns the element at `(row, col)`; both indices must be in range,
    /// anything else is a caller bug.
    pub fn get(&self, row: usize, col: usize) -> (r: &N)
        requires
            row < 4,
            col < 4,
        ensures
            *r == self@[row * 4 + col],
    {
        &self.elements[row * 4 + col]
    }

    /// Replaces the element at `(row, col)`; both indices must be in range,
    /// anything else is a caller bug.
    pub fn set(&mut self, row: usize, col: usize, value: N)
        requires
            row < 4,
            col < 4,
        ensures
            final(self)@ == old(self)@.update(row * 4 + col, value),
    {
        self.elements[row * 4 + col] = value;
    }

    /// Returns the transpose: the element at `(r,c)` read from `(c,r)`. The
    /// result shares nothing with the input.
    pub fn transpose(&self) -> (r: Self)
        ensures
            r@ == spec_transpose(self@),
    {
        let e = &self.elements;
        let transposed: [N; 16] = [
            e[0],
            e[4],
            e[8],
            e[12],
            e[1],
            e[5],
            e[9],
            e[13],
            e[2],
            e[6],
            e[10],
            e[14],
            e[3],
            e[7],
            e[11],
            e[15],
        ];
        proof {
            assert(transposed@ =~= spec_transpose(self@));
        }
        Matrix { elements: transposed }
    }

    /// Returns the matrix product of `self` and `rhs`: entry `(r,c)` is the
    /// dot product of row `r` of `self` with column `c` of `rhs`. Not
    /// commutative.
    pub fn mul(self, rhs: Self) -> (r: Self)
        ensures
            r@ == spec_mat_mul(self@, rhs@),
    {
        let mut elements: [N; 16] = [self.elements[0]; 16];
        let mut row: usize = 0;
        while row < 4
            invariant
                row <= 4,
                forall|j: int|
                    0 <= j < 16 && j / 4 < row ==> elements@[j] == spec_mat_mul(self@, rhs@)[j],
            decreases 4 - row,
        {
            let mut col: usize = 0;
            while col < 4
                invariant
                    row < 4,
                    col <= 4,
                    forall|j: int|
                        0 <= j < 16 && (j / 4 < row || (j / 4 == row && j % 4 < col))
                            ==> elements@[j] == spec_mat_mul(self@, rhs@)[j],
                decreases 4 - col,
            {
                elements[row * 4 + col] = self.get(row, 0).mul(*rhs.get(0, col)).add(
                    self.get(row, 1).mul(*rhs.get(1, col)),
                ).add(self.get(row, 2).mul(*rhs.get(2, col))).add(
                    self.get(row, 3).mul(*rhs.get(3, col)),
                );
                col = col + 1;
            }
            row = row + 1;
        }
        proof {
            assert(elements@ =~= spec_mat_mul(self@, rhs@));
        }
        Matrix { elements }
    }

    /// Applies `self` to a vector: only the top-left 3x3 block takes part,
    /// the translation column is ignored.
    pub fn mul_vector(self, rhs: Vector<N>) -> (r: Vector<N>)
        ensures
            r == spec_mul_vector(self@, rhs),
    {
        let x = self.get(0, 0).mul(rhs.x).add(self.get(0, 1).mul(rhs.y)).add(
            self.get(0, 2).mul(rhs.z),
        );
        let y = self.get(1, 0).mul(rhs.x).add(self.get(1, 1).mul(rhs.y)).add(
            self.get(1, 2).mul(rhs.z),
        );
        let z = self.get(2, 0).mul(rhs.x).add(self.get(2, 1).mul(rhs.y)).add(
            self.get(2, 2).mul(rhs.z),
        );
        Vector::new(x, y, z)
    }

    /// Applies `self` to a point: the full affine application, translation
    /// column included.
    pub fn mul_point(self, rhs: Point<N>) -> (r: Point<N>)
        ensures
            r == spec_mul_point(self@, rhs),
    {
        let x = self.get(0, 0).mul(rhs.x).add(self.get(0, 1).mul(rhs.y)).add(
            self.get(0, 2).mul(rhs.z),
        ).add(*self.get(0, 3));
        let y = self.get(1, 0).mul(rhs.x).add(self.get(1, 1).mul(rhs.y)).add(
            self.get(1, 2).mul(rhs.z),
        ).add(*self.get(1, 3));
        let z = self.get(2, 0).mul(rhs.x).add(self.get(2, 1).mul(rhs.y)).add(
            self.get(2, 2).mul(rhs.z),
        ).add(*self.get(2, 3));
        Point::new(x, y, z)
    }

    /// Returns the determinant, by recursive cofactor expansion along row
    /// zero, bottoming out at the closed-form 2x2 determinant.
    pub fn determinant(&self) -> (r: N)
        ensures
            r == spec_det4(self@),
    {
        det4(self.elements)
    }

    /// Returns whether the determinant differs from zero. The comparison is
    /// exact, not tolerant: a near-singular matrix with a tiny nonzero
    /// determinant is reported invertible.
    pub fn is_invertible(&self) -> (r: bool)
        ensures
            r == spec_is_invertible(self@),
    {
        let d = self.determinant();
        let z = N::zero();
        !(d.le(z) && z.le(d))
    }

    /// Returns the inverse by the adjugate method: the entry at `(col,row)`
    /// — note the transpose — is the cofactor at `(row,col)` divided by the
    /// determinant. Callers are expected to check [`Matrix::is_invertible`]
    /// first: on a singular matrix every entry divides by zero and becomes
    /// whatever the scalar yields for that.
    pub fn inverse(&self) -> (r: Matrix<N>)
        ensures
            r@ == spec_inverse(self@),
    {
        inv(self.elements)
    }

    /// Returns whether `self` and `rhs` agree entrywise up to the scalar
    /// tolerance.
    pub fn approx_eq(&self, rhs: &Matrix<N>) -> (r: bool)
        ensures
            r == spec_matrix_eq(self@, rhs@),
    {
        let mut i: usize = 0;
        while i < 16
            invariant
                i <= 16,
                forall|j: int| 0 <= j < i ==> spec_float_eq(self@[j], rhs@[j]),
            decreases 16 - i,
        {
            if !float_eq(self.elements[i], rhs.elements[i]) {
                return false;
            }
            i = i + 1;
        }
        true
    }
}

impl<N: Num> PartialEq for Matrix<N> {
    /// Entrywise comparison up to the scalar tolerance.
    fn eq(&self, other: &Self) -> (r: bool) {
        self.approx_eq(other)
    }
}

impl<N: Num> vstd::std_specs::cmp::PartialEqSpecImpl for Matrix<N> {
    open spec fn obeys_eq_spec() -> bool {
        true
    }

    open spec fn eq_spec(&self, other: &Self) -> bool {
        spec_matrix_eq(self@, other@)
    }
}

/// Multiplying by the identity on either side gives back the very same
/// elements, and therefore also a matrix equal under the tolerant
/// comparison.
proof fn lemma_identity_entry_right<N: Num>(m: Seq<N>, i: int)
    requires
        m.len() == 16,
        0 <= i < 16,
    ensures
        spec_mul_entry(m, spec_identity::<N>(), i / 4, i % 4) == m[i],
{
    let r = i / 4;
    let c = i % 4;
    let ident = spec_identity::<N>();
    let t0 = m[4 * r].spec_mul(ident[c]);
    let t1 = m[4 * r + 1].spec_mul(ident[4 + c]);
    let t2 = m[4 * r + 2].spec_mul(ident[8 + c]);
    let t3 = m[4 * r + 3].spec_mul(ident[12 + c]);
    N::law_mul_one(m[i]);
    N::law_mul_zero(m[4 * r]);
    N::law_mul_zero(m[4 * r + 1]);
    N::law_mul_zero(m[4 * r + 2]);
    N::law_mul_zero(m[4 * r + 3]);
    N::law_add_zero(m[i]);
    N::law_add_zero(N::spec_zero());
    if c == 0 {
        assert(t0 == m[i] && t1 == N::spec_zero() && t2 == N::spec_zero() && t3
            == N::spec_zero());
        assert(t0.spec_add(t1).spec_add(t2).spec_add(t3) == m[i]);
    } else if c == 1 {
        assert(t1 == m[i] && t0 == N::spec_zero() && t2 == N::spec_zero() && t3
            == N::spec_zero());
        assert(t0.spec_add(t1).spec_add(t2).spec_add(t3) == m[i]);
    } else if c == 2 {
        assert(t2 == m[i] && t0 == N::spec_zero() && t1 == N::spec_zero() && t3
            == N::spec_zero());
        assert(t0.spec_add(t1).spec_add(t2).spec_add(t3) == m[i]);
    } else {
        assert(t3 == m[i] && t0 == N::spec_zero() && t1 == N::spec_zero() && t2
            == N::spec_zero());
        assert(t0.spec_add(t1).spec_add(t2).spec_add(t3) == m[i]);
    }
}

proof fn lemma_identity_entry_left<N: Num>(m: Seq<N>, i: int)
    requires
        m.len() == 16,
        0 <= i < 16,
    ensures
        spec_mul_entry(spec_identity::<N>(), m, i / 4, i % 4) == m[i],
{
    let r = i / 4;
    let c = i % 4;
    let ident = spec_identity::<N>();
    let t0 = ident[4 * r].spec_mul(m[c]);
    let t1 = ident[4 * r + 1].spec_mul(m[4 + c]);
    let t2 = ident[4 * r + 2].spec_mul(m[8 + c]);
    let t3 = ident[4 * r + 3].spec_mul(m[12 + c]);
    N::law_mul_one(m[i]);
    N::law_mul_zero(m[c]);
    N::law_mul_zero(m[4 + c]);
    N::law_mul_zero(m[8 + c]);
    N::law_mul_zero(m[12 + c]);
    N::law_add_zero(m[i]);
    N::law_add_zero(N::spec_zero());
    if r == 0 {
        assert(t0 == m[i] && t1 == N::spec_zero() && t2 == N::spec_zero() && t3
            == N::spec_zero());
        assert(t0.spec_add(t1).spec_add(t2).spec_add(t3) == m[i]);
    } else if r == 1 {
        assert(t1 == m[i] && t0 == N::spec_zero() && t2 == N::spec_zero() && t3
            == N::spec_zero());
        assert(t0.spec_add(t1).spec_add(t2).spec_add(t3) == m[i]);
    } else if r == 2 {
        assert(t2 == m[i] && t0 == N::spec_zero() && t1 == N::spec_zero() && t3
            == N::spec_zero());
        assert(t0.spec_add(t1).spec_add(t2).spec_add(t3) == m[i]);
    } else {
        assert(t3 == m[i] && t0 == N::spec_zero() && t1 == N::spec_zero() && t2
            == N::spec_zero());
        assert(t0.spec_add(t1).spec_add(t2).spec_add(t3) == m[i]);
    }
}

pub proof fn lemma_mul_identity<N: Num>(m: Seq<N>)
    requires
        m.len() == 16,
    ensures
        spec_mat_mul(m, spec_identity::<N>()) =~= m,
        spec_mat_mul(spec_identity::<N>(), m) =~= m,
        spec_matrix_eq(spec_mat_mul(m, spec_identity::<N>()), m),
        spec_matrix_eq(spec_mat_mul(spec_identity::<N>(), m), m),
{
    assert forall|i: int| 0 <= i < 16 implies spec_mat_mul(m, spec_identity::<N>())[i] == m[i]
        && spec_mat_mul(spec_identity::<N>(), m)[i] == m[i] by {
        lemma_identity_entry_right(m, i);
        lemma_identity_entry_left(m, i);
    }
    assert forall|i: int| 0 <= i < 16 implies spec_float_eq(
        spec_mat_mul(m, spec_identity::<N>())[i],
        m[i],
    ) && spec_float_eq(spec_mat_mul(spec_identity::<N>(), m)[i], m[i]) by {
        lemma_float_eq_refl(m[i]);
    }
}

/// Applying a matrix to a vector reads nothing but the top-left 3x3 block:
/// two matrices that agree there send every vector to the very same place.
pub proof fn lemma_mul_vector_reads_linear_block<N: Num>(a: Seq<N>, b: Seq<N>, v: Vector<N>)
    requires
        a.len() == 16,
        b.len() == 16,
        forall|i: int| 0 <= i < 16 && i / 4 < 3 && i % 4 < 3 ==> a[i] == b[i],
    ensures
        spec_mul_vector(a, v) == spec_mul_vector(b, v),
{
    assert(a[0] == b[0]);
    assert(a[1] == b[1]);
    assert(a[2] == b[2]);
    assert(a[4] == b[4]);
    assert(a[5] == b[5]);
    assert(a[6] == b[6]);
    assert(a[8] == b[8]);
    assert(a[9] == b[9]);
    assert(a[10] == b[10]);
}

/// The matrix with the same top-left 3x3 block and every other element zero:
/// the purely linear part, with the translation column wiped out.
pub open spec fn spec_linear_part<N: Num>(m: Seq<N>) -> Seq<N> {
    Seq::new(
        16,
        |i: int|
            if i / 4 < 3 && i % 4 < 3 {
                m[i]
            } else {
                N::spec_zero()
            },
    )
}

/// Translation never moves a vector: a matrix applies to a vector exactly as
/// its linear part alone does, however large the translation column is.
pub proof fn lemma_mul_vector_ignores_translation<N: Num>(m: Seq<N>, v: Vector<N>)
    requires
        m.len() == 16,
    ensures
        spec_mul_vector(m, v) == spec_mul_vector(spec_linear_part(m), v),
{
    lemma_mul_vector_reads_linear_block(m, spec_linear_part(m), v);
}

} // verus!
