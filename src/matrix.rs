//! Row-major square matrices as plain arrays, and transposition, which only
//! moves entries and so holds for any entry type.

use vstd::prelude::*;

verus! {

/// Entry `(i, j)` of `m`'s transpose is entry `(j, i)` of `m`.
pub open spec fn is_transpose3<T>(r: [[T; 3]; 3], m: [[T; 3]; 3]) -> bool {
    forall|i: int, j: int| 0 <= i < 3 && 0 <= j < 3 ==> #[trigger] r[i][j] == m[j][i]
}

/// Entry `(i, j)` of `m`'s transpose is entry `(j, i)` of `m`.
pub open spec fn is_transpose4<T>(r: [[T; 4]; 4], m: [[T; 4]; 4]) -> bool {
    forall|i: int, j: int| 0 <= i < 4 && 0 <= j < 4 ==> #[trigger] r[i][j] == m[j][i]
}

/// The transpose of a 3x3 matrix: rows become columns.
pub fn transpose3<T: Copy>(m: [[T; 3]; 3]) -> (r: [[T; 3]; 3])
    ensures
        is_transpose3(r, m),
{
    [
        [m[0][0], m[1][0], m[2][0]],
        [m[0][1], m[1][1], m[2][1]],
        [m[0][2], m[1][2], m[2][2]],
    ]
}

/// The transpose of a 4x4 matrix: rows become columns.
pub fn transpose4<T: Copy>(m: [[T; 4]; 4]) -> (r: [[T; 4]; 4])
    ensures
        is_transpose4(r, m),
{
    [
        [m[0][0], m[1][0], m[2][0], m[3][0]],
        [m[0][1], m[1][1], m[2][1], m[3][1]],
        [m[0][2], m[1][2], m[2][2], m[3][2]],
        [m[0][3], m[1][3], m[2][3], m[3][3]],
    ]
}

/// Transposing a 3x3 matrix twice gives back exactly the matrix: whatever
/// `t` transposes `m` to, whatever transposes `t` is `m`.
pub proof fn lemma_transpose3_involution<T>(m: [[T; 3]; 3], t: [[T; 3]; 3], r: [[T; 3]; 3])
    requires
        is_transpose3(t, m),
        is_transpose3(r, t),
    ensures
        r == m,
{
    assert forall|i: int| 0 <= i < 3 implies r[i] == m[i] by {
        assert(r[i] =~= m[i]) by {
            assert forall|j: int| 0 <= j < 3 implies r[i][j] == m[i][j] by {
                assert(r[i][j] == t[j][i]);
                assert(t[j][i] == m[i][j]);
            }
        }
    }
    assert(r =~= m);
}

/// Transposing a 4x4 matrix twice gives back exactly the matrix: whatever
/// `t` transposes `m` to, whatever transposes `t` is `m`.
pub proof fn lemma_transpose4_involution<T>(m: [[T; 4]; 4], t: [[T; 4]; 4], r: [[T; 4]; 4])
    requires
        is_transpose4(t, m),
        is_transpose4(r, t),
    ensures
        r == m,
{
    assert forall|i: int| 0 <= i < 4 implies r[i] == m[i] by {
        assert(r[i] =~= m[i]) by {
            assert forall|j: int| 0 <= j < 4 implies r[i][j] == m[i][j] by {
                assert(r[i][j] == t[j][i]);
                assert(t[j][i] == m[i][j]);
            }
        }
    }
    assert(r =~= m);
}

} // verus!
