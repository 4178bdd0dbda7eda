//! Key matrices of the nodes and their places in the keyboard's global
//! matrix.

use vstd::prelude::*;

verus! {

/// The key matrix of one node: its size, and where it lies in the global
/// matrix of the keyboard.
#[derive(Clone, Copy, Debug, PartialEq, Eq, Structural)]
pub struct NodeMatrixSpec {
    /// Number of rows of the node's own matrix.
    pub rows: usize,
    /// Number of columns of the node's own matrix.
    pub cols: usize,
    /// Global row of the node's first row.
    pub row_offset: usize,
    /// Global column of the node's first column.
    pub col_offset: usize,
}

/// Whether the stretch of `a_len` places from `a_start` and the stretch of
/// `b_len` places from `b_start` have a place in common.
pub open spec fn spans_meet(a_start: int, a_len: int, b_start: int, b_len: int) -> bool {
    exists|place: int| #[trigger] in_span(a_start, a_len, place) && in_span(b_start, b_len, place)
}

/// Whether `place` is one of the `len` places from `start` on.
pub open spec fn in_span(start: int, len: int, place: int) -> bool {
    start <= place < start + len
}

/// Whether two stretches of places have a place in common.
fn spans_overlap(a_start: usize, a_len: usize, b_start: usize, b_len: usize) -> (yes: bool)
    ensures
        yes == spans_meet(a_start as int, a_len as int, b_start as int, b_len as int),
{
    if a_start <= b_start {
        let yes = b_len > 0 && b_start - a_start < a_len;
        proof {
            if yes {
                let place = b_start as int;
                assert(in_span(a_start as int, a_len as int, place) && in_span(
                    b_start as int,
                    b_len as int,
                    place,
                ));
            }
        }
        yes
    } else {
        let yes = a_len > 0 && a_start - b_start < b_len;
        proof {
            if yes {
                let place = a_start as int;
                assert(in_span(a_start as int, a_len as int, place) && in_span(
                    b_start as int,
                    b_len as int,
                    place,
                ));
            }
        }
        yes
    }
}

impl NodeMatrixSpec {
    /// The global row of a row of the node.
    pub open spec fn global_row(self, local_row: int) -> int {
        local_row + self.row_offset
    }

    /// The global column of a column of the node.
    pub open spec fn global_col(self, local_col: int) -> int {
        local_col + self.col_offset
    }

    /// Whether the node holds the key at a global position.
    pub open spec fn covers(self, row: int, col: int) -> bool {
        &&& in_span(self.row_offset as int, self.rows as int, row)
        &&& in_span(self.col_offset as int, self.cols as int, col)
    }

    /// The global positions covered are those of the node's own keys.
    pub proof fn lemma_covers_own_keys(self, row: int, col: int)
        ensures
            self.covers(row, col) <==> exists|local_row: int, local_col: int|
                0 <= local_row < self.rows && 0 <= local_col < self.cols
                    && #[trigger] self.global_row(local_row) == row
                    && #[trigger] self.global_col(local_col) == col,
    {
        if self.covers(row, col) {
            let local_row = row - self.row_offset;
            let local_col = col - self.col_offset;
            assert(self.global_row(local_row) == row && self.global_col(local_col) == col);
        }
    }

    /// The global position of one of the node's keys: `None` where the node
    /// has no such key, or where the position is beyond what the machine can
    /// count.
    pub fn global_position(&self, local_row: usize, local_col: usize) -> (position: Option<
        (usize, usize),
    >)
        ensures
            position is Some <==> local_row < self.rows && local_col < self.cols && self.global_row(
                local_row as int,
            ) <= usize::MAX && self.global_col(local_col as int) <= usize::MAX,
            position matches Some((row, col)) ==> row == self.global_row(local_row as int) && col
                == self.global_col(local_col as int) && self.covers(row as int, col as int),
    {
        if local_row >= self.rows || local_col >= self.cols {
            return None;
        }
        match (local_row.checked_add(self.row_offset), local_col.checked_add(self.col_offset)) {
            (Some(row), Some(col)) => Some((row, col)),
            _ => None,
        }
    }

    /// Whether two nodes claim a global position in common.
    pub open spec fn spec_overlaps(self, other: NodeMatrixSpec) -> bool {
        exists|row: int, col: int| #[trigger] self.covers(row, col) && other.covers(row, col)
    }

    /// Whether two nodes claim a global position in common.
    #[verifier::when_used_as_spec(spec_overlaps)]
    pub fn overlaps(self, other: NodeMatrixSpec) -> (yes: bool)
        ensures
            yes == self.spec_overlaps(other),
    {
        let rows_meet = spans_overlap(self.row_offset, self.rows, other.row_offset, other.rows);
        let cols_meet = spans_overlap(self.col_offset, self.cols, other.col_offset, other.cols);
        proof {
            if rows_meet && cols_meet {
                let row = choose|row: int|
                    #[trigger] in_span(self.row_offset as int, self.rows as int, row) && in_span(
                        other.row_offset as int,
                        other.rows as int,
                        row,
                    );
                let col = choose|col: int|
                    #[trigger] in_span(self.col_offset as int, self.cols as int, col) && in_span(
                        other.col_offset as int,
                        other.cols as int,
                        col,
                    );
                assert(self.covers(row, col) && other.covers(row, col));
            }
        }
        rows_meet && cols_meet
    }
}

/// Whether no two of the nodes claim a global position in common.
pub open spec fn pairwise_disjoint(nodes: Seq<NodeMatrixSpec>) -> bool {
    forall|i: int, j: int|
        0 <= i < j < nodes.len() ==> !(#[trigger] nodes[i].spec_overlaps(nodes[j]))
}

/// Whether node `i` overlaps none of the nodes after it and before `upto`.
spec fn disjoint_from_later(nodes: Seq<NodeMatrixSpec>, i: int, upto: int) -> bool {
    forall|j: int| i < j < upto ==> !(#[trigger] nodes[i].spec_overlaps(nodes[j]))
}

/// Whether no two of the nodes claim a global position in common.
pub fn regions_disjoint(nodes: &Vec<NodeMatrixSpec>) -> (yes: bool)
    ensures
        yes == pairwise_disjoint(nodes@),
{
    let n: usize = nodes.len();
    let mut i: usize = 0;
    while i < n
        invariant
            n == nodes@.len(),
            i <= n,
            forall|a: int| 0 <= a < i ==> disjoint_from_later(nodes@, a, n as int),
        decreases n - i,
    {
        let mut j: usize = i + 1;
        while j < n
            invariant
                n == nodes@.len(),
                i < n,
                i < j <= n,
                disjoint_from_later(nodes@, i as int, j as int),
            decreases n - j,
        {
            if nodes[i].overlaps(nodes[j]) {
                return false;
            }
            j += 1;
        }
        i += 1;
    }
    proof {
        assert forall|a: int, b: int| 0 <= a < b < nodes@.len() implies !(
        #[trigger] nodes@[a].spec_overlaps(nodes@[b])) by {
            assert(disjoint_from_later(nodes@, a, n as int));
        }
    }
    true
}

/// Where the nodes are pairwise disjoint, every global position belongs to
/// one node at most.
pub proof fn lemma_one_owner(nodes: Seq<NodeMatrixSpec>, i: int, j: int, row: int, col: int)
    requires
        pairwise_disjoint(nodes),
        0 <= i < nodes.len(),
        0 <= j < nodes.len(),
        nodes[i].covers(row, col),
        nodes[j].covers(row, col),
    ensures
        i == j,
{
    if i < j {
        assert(nodes[i].spec_overlaps(nodes[j]));
    } else if j < i {
        assert(nodes[j].spec_overlaps(nodes[i]));
    }
}

} // verus!
