//! Greedy merging of a layer of visible block faces into rectangles.
//!
//! A chunk layer is a mask: a grid of rows, each of the same number of
//! columns, holding `Some(block)` where a face of that block is drawn and
//! `None` elsewhere. The mesher scans the cells row by row; at each cell that
//! still needs a face it grows a rectangle of equal, not yet covered cells,
//! first along one axis as far as it goes, then along the other, and emits it.
use vstd::prelude::*;
use crate::block::BlockType;

verus! {

/// A merged face: the rectangle of `rows` x `cols` cells whose first cell is
/// (`row`, `col`), all showing `block`.
#[derive(Clone, Copy, PartialEq, Eq, Debug, Structural)]
pub struct Quad {
    pub row: usize,
    pub col: usize,
    pub rows: usize,
    pub cols: usize,
    pub block: BlockType,
}

/// Every row of the mask has `ncols` cells.
pub open spec fn rectangular(m: Seq<Vec<Option<BlockType>>>, ncols: int) -> bool {
    forall|r: int| 0 <= r < m.len() ==> (#[trigger] m[r]@).len() == ncols
}

/// Cell (r, c) lies inside a grid of `m.len()` rows and `ncols` columns.
pub open spec fn in_bounds(m: Seq<Vec<Option<BlockType>>>, ncols: int, r: int, c: int) -> bool {
    0 <= r < m.len() && 0 <= c < ncols
}

/// Cell (r, c) lies in the rectangle of `q`.
pub open spec fn in_quad(q: Quad, r: int, c: int) -> bool {
    q.row <= r < q.row + q.rows && q.col <= c < q.col + q.cols
}

/// Cell (r, c) lies in one of the rectangles of `qs`.
pub open spec fn covered(qs: Seq<Quad>, r: int, c: int) -> bool {
    exists|k: int| 0 <= k < qs.len() && #[trigger] in_quad(qs[k], r, c)
}

/// A cell that shows a face not yet covered by `qs`.
pub open spec fn pending(m: Seq<Vec<Option<BlockType>>>, qs: Seq<Quad>, r: int, c: int) -> bool {
    m[r]@[c] is Some && !covered(qs, r, c)
}

/// A cell that a rectangle of `b` faces may still take in: inside the mask,
/// showing `b`, and not covered by `qs`.
pub open spec fn free_cell(
    m: Seq<Vec<Option<BlockType>>>,
    ncols: int,
    qs: Seq<Quad>,
    b: BlockType,
    r: int,
    c: int,
) -> bool {
    in_bounds(m, ncols, r, c) && m[r]@[c] == Some(b) && !covered(qs, r, c)
}

/// Row-major scan order: (r1, c1) comes before (r2, c2).
pub open spec fn before(r1: int, c1: int, r2: int, c2: int) -> bool {
    r1 < r2 || (r1 == r2 && c1 < c2)
}

/// `q` is the rectangle that the greedy scan emits after the rectangles
/// `prefix`: it starts at the first cell in scan order that still needs a
/// face, it holds only free cells of that cell's block, and it is grown as
/// far as possible, first along columns when `cols_first` (else along rows),
/// then along the other axis. When `single_water`, water faces are never
/// merged and each gets a rectangle of one cell.
pub open spec fn greedy_quad(
    m: Seq<Vec<Option<BlockType>>>,
    ncols: int,
    prefix: Seq<Quad>,
    q: Quad,
    cols_first: bool,
    single_water: bool,
) -> bool {
    let nrows = m.len() as int;
    &&& q.rows >= 1
    &&& q.cols >= 1
    &&& q.row + q.rows <= nrows
    &&& q.col + q.cols <= ncols
    &&& m[q.row as int]@[q.col as int] == Some(q.block)
    &&& forall|r: int, c: int|
        #![trigger m[r]@[c]]
        in_bounds(m, ncols, r, c) && before(r, c, q.row as int, q.col as int) ==> !pending(
            m,
            prefix,
            r,
            c,
        )
    &&& forall|r: int, c: int|
        #![trigger in_quad(q, r, c)]
        in_quad(q, r, c) ==> free_cell(m, ncols, prefix, q.block, r, c)
    &&& if single_water && q.block == BlockType::Water {
        q.rows == 1 && q.cols == 1
    } else if cols_first {
        &&& (q.col + q.cols == ncols || !free_cell(
            m,
            ncols,
            prefix,
            q.block,
            q.row as int,
            q.col + q.cols,
        ))
        &&& (q.row + q.rows == nrows || exists|c: int|
            q.col <= c < q.col + q.cols && !#[trigger] free_cell(
                m,
                ncols,
                prefix,
                q.block,
                q.row + q.rows,
                c,
            ))
    } else {
        &&& (q.row + q.rows == nrows || !free_cell(
            m,
            ncols,
            prefix,
            q.block,
            q.row + q.rows,
            q.col as int,
        ))
        &&& (q.col + q.cols == ncols || exists|r: int|
            q.row <= r < q.row + q.rows && !#[trigger] free_cell(
                m,
                ncols,
                prefix,
                q.block,
                r,
                q.col + q.cols,
            ))
    }
}

/// `qs` is exactly the output of the greedy scan over the mask: each
/// rectangle is the greedy choice after the ones before it, and no face is
/// left uncovered.
pub open spec fn greedy_mesh(
    m: Seq<Vec<Option<BlockType>>>,
    ncols: int,
    qs: Seq<Quad>,
    cols_first: bool,
    single_water: bool,
) -> bool {
    &&& forall|k: int|
        0 <= k < qs.len() ==> greedy_quad(
            m,
            ncols,
            qs.take(k),
            #[trigger] qs[k],
            cols_first,
            single_water,
        )
    &&& forall|r: int, c: int|
        #![trigger m[r]@[c]]
        in_bounds(m, ncols, r, c) ==> !pending(m, qs, r, c)
}

/// The cell is inside the grid, shows `b`, and is not yet marked.
pub open spec fn unmarked(
    m: Seq<Vec<Option<BlockType>>>,
    ncols: int,
    v: Seq<Vec<bool>>,
    b: BlockType,
    r: int,
    c: int,
) -> bool {
    in_bounds(m, ncols, r, c) && m[r]@[c] == Some(b) && !v[r]@[c]
}

/// The marks record exactly the cells covered by `qs`.
pub open spec fn marks_cover(
    m: Seq<Vec<Option<BlockType>>>,
    ncols: int,
    v: Seq<Vec<bool>>,
    qs: Seq<Quad>,
) -> bool {
    &&& v.len() == m.len()
    &&& forall|r: int| 0 <= r < v.len() ==> (#[trigger] v[r]@).len() == ncols
    &&& forall|r: int, c: int|
        #![trigger v[r]@[c]]
        in_bounds(m, ncols, r, c) ==> (v[r]@[c] <==> covered(qs, r, c))
}

proof fn lemma_covered_push(qs: Seq<Quad>, q: Quad, r: int, c: int)
    ensures
        covered(qs.push(q), r, c) <==> (covered(qs, r, c) || in_quad(q, r, c)),
{
    let s = qs.push(q);
    if covered(qs, r, c) {
        let k = choose|k: int| 0 <= k < qs.len() && #[trigger] in_quad(qs[k], r, c);
        assert(s[k] == qs[k]);
    }
    if in_quad(q, r, c) {
        assert(s[qs.len() as int] == q);
    }
    if covered(s, r, c) {
        let k = choose|k: int| 0 <= k < s.len() && #[trigger] in_quad(s[k], r, c);
        if k < qs.len() {
            assert(s[k] == qs[k]);
        }
    }
}

/// Whether a cell shows `b` and is not yet marked.
fn is_unmarked(
    mask: &Vec<Vec<Option<BlockType>>>,
    ncols: usize,
    visited: &Vec<Vec<bool>>,
    b: BlockType,
    r: usize,
    c: usize,
) -> (res: bool)
    requires
        rectangular(mask@, ncols as int),
        visited@.len() == mask@.len(),
        forall|i: int| 0 <= i < visited@.len() ==> (#[trigger] visited@[i]@).len() == ncols,
    ensures
        res == unmarked(mask@, ncols as int, visited@, b, r as int, c as int),
{
    if r < mask.len() && c < ncols {
        let row = &mask[r];
        let vrow = &visited[r];
        match row[c] {
            Some(x) => x == b && !vrow[c],
            None => false,
        }
    } else {
        false
    }
}

/// Whether the `len` cells from (r, c) along the row are all unmarked `b` cells.
fn row_run_unmarked(
    mask: &Vec<Vec<Option<BlockType>>>,
    ncols: usize,
    visited: &Vec<Vec<bool>>,
    b: BlockType,
    r: usize,
    c: usize,
    len: usize,
) -> (res: bool)
    requires
        rectangular(mask@, ncols as int),
        visited@.len() == mask@.len(),
        forall|i: int| 0 <= i < visited@.len() ==> (#[trigger] visited@[i]@).len() == ncols,
        c + len <= usize::MAX,
    ensures
        res == (forall|j: int|
            0 <= j < len ==> #[trigger] unmarked(
                mask@,
                ncols as int,
                visited@,
                b,
                r as int,
                c + j,
            )),
{
    let mut j: usize = 0;
    while j < len
        invariant
            j <= len,
            c + len <= usize::MAX,
            rectangular(mask@, ncols as int),
            visited@.len() == mask@.len(),
            forall|i: int| 0 <= i < visited@.len() ==> (#[trigger] visited@[i]@).len() == ncols,
            forall|jj: int|
                0 <= jj < j ==> #[trigger] unmarked(mask@, ncols as int, visited@, b, r as int, c + jj),
        decreases len - j,
    {
        if !is_unmarked(mask, ncols, visited, b, r, c + j) {
            return false;
        }
        j += 1;
    }
    true
}

/// Whether the `len` cells from (r, c) down the column are all unmarked `b` cells.
fn col_run_unmarked(
    mask: &Vec<Vec<Option<BlockType>>>,
    ncols: usize,
    visited: &Vec<Vec<bool>>,
    b: BlockType,
    r: usize,
    c: usize,
    len: usize,
) -> (res: bool)
    requires
        rectangular(mask@, ncols as int),
        visited@.len() == mask@.len(),
        forall|i: int| 0 <= i < visited@.len() ==> (#[trigger] visited@[i]@).len() == ncols,
        r + len <= usize::MAX,
    ensures
        res == (forall|i: int|
            0 <= i < len ==> #[trigger] unmarked(
                mask@,
                ncols as int,
                visited@,
                b,
                r + i,
                c as int,
            )),
{
    let mut i: usize = 0;
    while i < len
        invariant
            i <= len,
            r + len <= usize::MAX,
            rectangular(mask@, ncols as int),
            visited@.len() == mask@.len(),
            forall|k: int| 0 <= k < visited@.len() ==> (#[trigger] visited@[k]@).len() == ncols,
            forall|ii: int|
                0 <= ii < i ==> #[trigger] unmarked(mask@, ncols as int, visited@, b, r + ii, c as int),
        decreases len - i,
    {
        if !is_unmarked(mask, ncols, visited, b, r + i, c) {
            return false;
        }
        i += 1;
    }
    true
}

/// Marks every cell of the rectangle of `rows` x `cols` cells at (r, c).
fn mark_rect(visited: &mut Vec<Vec<bool>>, ncols: usize, r: usize, c: usize, rows: usize, cols: usize)
    requires
        forall|i: int| 0 <= i < old(visited)@.len() ==> (#[trigger] old(visited)@[i]@).len() == ncols,
        r + rows <= old(visited)@.len(),
        c + cols <= ncols,
    ensures
        final(visited)@.len() == old(visited)@.len(),
        forall|i: int| 0 <= i < final(visited)@.len() ==> (#[trigger] final(visited)@[i]@).len() == ncols,
        forall|i: int, j: int|
            0 <= i < old(visited)@.len() && 0 <= j < ncols ==> (#[trigger] final(visited)@[i]@[j] <==> (
            old(visited)@[i]@[j] || (r <= i < r + rows && c <= j < c + cols))),
{
    let mut dr: usize = 0;
    while dr < rows
        invariant
            dr <= rows,
            r + rows <= visited.len(),
            c + cols <= ncols,
            visited@.len() == old(visited)@.len(),
            forall|i: int| 0 <= i < visited@.len() ==> (#[trigger] visited@[i]@).len() == ncols,
            forall|i: int, j: int|
                0 <= i < visited@.len() && 0 <= j < ncols ==> (#[trigger] visited@[i]@[j] <==> (
                old(visited)@[i]@[j] || (r <= i < r + dr && c <= j < c + cols))),
        decreases rows - dr,
    {
        let mut dc: usize = 0;
        while dc < cols
            invariant
                dr < rows,
                dc <= cols,
                r + rows <= visited.len(),
                c + cols <= ncols,
                visited@.len() == old(visited)@.len(),
                forall|i: int| 0 <= i < visited@.len() ==> (#[trigger] visited@[i]@).len() == ncols,
                forall|i: int, j: int|
                    0 <= i < visited@.len() && 0 <= j < ncols ==> (#[trigger] visited@[i]@[j] <==> (
                    old(visited)@[i]@[j] || (r <= i < r + dr && c <= j < c + cols) || (i == r + dr
                        && c <= j < c + dc))),
            decreases cols - dc,
        {
            let i: usize = r + dr;
            let j: usize = c + dc;
            visited[i][j] = true;
            dc += 1;
        }
        dr += 1;
    }
}


/// A grid of `nrows` rows of `ncols` unmarked cells.
fn unmarked_grid(nrows: usize, ncols: usize) -> (v: Vec<Vec<bool>>)
    ensures
        v@.len() == nrows,
        forall|i: int| 0 <= i < nrows ==> (#[trigger] v@[i]@).len() == ncols,
        forall|i: int, j: int| 0 <= i < nrows && 0 <= j < ncols ==> !#[trigger] v@[i]@[j],
{
    let mut v: Vec<Vec<bool>> = Vec::new();
    let mut i: usize = 0;
    while i < nrows
        invariant
            i <= nrows,
            v@.len() == i,
            forall|k: int| 0 <= k < i ==> (#[trigger] v@[k]@).len() == ncols,
            forall|k: int, j: int| 0 <= k < i && 0 <= j < ncols ==> !#[trigger] v@[k]@[j],
        decreases nrows - i,
    {
        let mut row: Vec<bool> = Vec::new();
        let mut j: usize = 0;
        while j < ncols
            invariant
                j <= ncols,
                row@.len() == j,
                forall|k: int| 0 <= k < j ==> !#[trigger] row@[k],
            decreases ncols - j,
        {
            row.push(false);
            j += 1;
        }
        v.push(row);
        i += 1;
    }
    v
}

proof fn lemma_take_push(qs: Seq<Quad>, q: Quad, k: int)
    requires
        0 <= k <= qs.len(),
    ensures
        qs.push(q).take(k) == qs.take(k),
{
    assert(qs.push(q).take(k) =~= qs.take(k));
}

/// Greedy merge of a face mask. `cols_first` grows each rectangle along its
/// row before growing it down; otherwise down first. With `single_water`,
/// water faces stay one cell each.
fn greedy_merge(
    mask: &Vec<Vec<Option<BlockType>>>,
    ncols: usize,
    cols_first: bool,
    single_water: bool,
) -> (quads: Vec<Quad>)
    requires
        rectangular(mask@, ncols as int),
    ensures
        greedy_mesh(mask@, ncols as int, quads@, cols_first, single_water),
{
    let nrows = mask.len();
    let mut visited = unmarked_grid(nrows, ncols);
    let mut quads: Vec<Quad> = Vec::new();
    proof {
        assert forall|rr: int, cc: int|
            #![trigger visited@[rr]@[cc]]
            in_bounds(mask@, ncols as int, rr, cc) implies (visited@[rr]@[cc] <==> covered(
                quads@,
                rr,
                cc,
            )) by {}
    }
    let mut r: usize = 0;
    while r < nrows
        invariant
            r <= nrows,
            nrows == mask@.len(),
            rectangular(mask@, ncols as int),
            marks_cover(mask@, ncols as int, visited@, quads@),
            forall|k: int|
                0 <= k < quads@.len() ==> greedy_quad(
                    mask@,
                    ncols as int,
                    quads@.take(k),
                    #[trigger] quads@[k],
                    cols_first,
                    single_water,
                ),
            forall|rr: int, cc: int|
                #![trigger mask@[rr]@[cc]]
                in_bounds(mask@, ncols as int, rr, cc) && before(rr, cc, r as int, 0) ==> !pending(
                    mask@,
                    quads@,
                    rr,
                    cc,
                ),
        decreases nrows - r,
    {
        let mut c: usize = 0;
        while c < ncols
            invariant
                r < nrows,
                c <= ncols,
                nrows == mask@.len(),
                rectangular(mask@, ncols as int),
                marks_cover(mask@, ncols as int, visited@, quads@),
                forall|k: int|
                    0 <= k < quads@.len() ==> greedy_quad(
                        mask@,
                        ncols as int,
                        quads@.take(k),
                        #[trigger] quads@[k],
                        cols_first,
                        single_water,
                    ),
                forall|rr: int, cc: int|
                    #![trigger mask@[rr]@[cc]]
                    in_bounds(mask@, ncols as int, rr, cc) && before(rr, cc, r as int, c as int)
                        ==> !pending(mask@, quads@, rr, cc),
            decreases ncols - c,
        {
            let cell = mask[r][c];
            let seen = visited[r][c];
            if let Some(b) = cell {
                if !seen {
                    let ghost m = mask@;
                    let ghost v0 = visited@;
                    let ghost q0 = quads@;
                    let ghost nc = ncols as int;
                    assert forall|rr: int, cc: int|
                        in_bounds(m, nc, rr, cc) implies (#[trigger] unmarked(m, nc, v0, b, rr, cc)
                        <==> free_cell(m, nc, q0, b, rr, cc)) by {
                        assert(v0[rr]@[cc] <==> covered(q0, rr, cc));
                    }
                    let mut rows: usize = 1;
                    let mut cols: usize = 1;
                    if single_water && b == BlockType::Water {
                    } else if cols_first {
                        while c + cols < ncols && is_unmarked(mask, ncols, &visited, b, r, c + cols)
                            invariant
                                1 <= cols,
                                c < ncols,
                                c + cols <= ncols,
                                nrows == mask@.len(),
                                rectangular(mask@, ncols as int),
                                visited@ == v0,
                                mask@ == m,
                                nc == ncols,
                                marks_cover(m, nc, v0, q0),
                                forall|j: int|
                                    0 <= j < cols ==> #[trigger] unmarked(m, nc, v0, b, r as int, c + j),
                            decreases ncols - cols,
                        {
                            cols += 1;
                        }
                        while r + rows < nrows && row_run_unmarked(
                            mask,
                            ncols,
                            &visited,
                            b,
                            r + rows,
                            c,
                            cols,
                        )
                            invariant
                                1 <= rows,
                                r < nrows,
                                r + rows <= nrows,
                                c + cols <= ncols,
                                nrows == mask@.len(),
                                rectangular(mask@, ncols as int),
                                visited@ == v0,
                                mask@ == m,
                                nc == ncols,
                                marks_cover(m, nc, v0, q0),
                                forall|i: int, j: int|
                                    0 <= i < rows && 0 <= j < cols ==> #[trigger] unmarked(
                                        m,
                                        nc,
                                        v0,
                                        b,
                                        r + i,
                                        c + j,
                                    ),
                            decreases nrows - rows,
                        {
                            rows += 1;
                        }
                    } else {
                        while r + rows < nrows && is_unmarked(mask, ncols, &visited, b, r + rows, c)
                            invariant
                                1 <= rows,
                                r < nrows,
                                r + rows <= nrows,
                                nrows == mask@.len(),
                                rectangular(mask@, ncols as int),
                                visited@ == v0,
                                mask@ == m,
                                nc == ncols,
                                marks_cover(m, nc, v0, q0),
                                forall|i: int|
                                    0 <= i < rows ==> #[trigger] unmarked(m, nc, v0, b, r + i, c as int),
                            decreases nrows - rows,
                        {
                            rows += 1;
                        }
                        while c + cols < ncols && col_run_unmarked(
                            mask,
                            ncols,
                            &visited,
                            b,
                            r,
                            c + cols,
                            rows,
                        )
                            invariant
                                1 <= cols,
                                c < ncols,
                                c + cols <= ncols,
                                r + rows <= nrows,
                                nrows == mask@.len(),
                                rectangular(mask@, ncols as int),
                                visited@ == v0,
                                mask@ == m,
                                nc == ncols,
                                marks_cover(m, nc, v0, q0),
                                forall|i: int, j: int|
                                    0 <= i < rows && 0 <= j < cols ==> #[trigger] unmarked(
                                        m,
                                        nc,
                                        v0,
                                        b,
                                        r + i,
                                        c + j,
                                    ),
                            decreases ncols - cols,
                        {
                            cols += 1;
                        }
                    }
                    let q = Quad { row: r, col: c, rows, cols, block: b };
                    assert(unmarked(m, nc, v0, b, r as int, c as int));
                    assert forall|rr: int, cc: int|
                        #![trigger in_quad(q, rr, cc)]
                        in_quad(q, rr, cc) implies free_cell(m, nc, q0, b, rr, cc) by {
                        if single_water && b == BlockType::Water {
                            assert(rr == r && cc == c);
                        } else {
                            assert(unmarked(m, nc, v0, b, r + (rr - r), c + (cc - c)));
                        }
                    }
                    assert(greedy_quad(m, nc, q0, q, cols_first, single_water));
                    mark_rect(&mut visited, ncols, r, c, rows, cols);
                    quads.push(q);
                    proof {
                        assert forall|rr: int, cc: int|
                            #![trigger visited@[rr]@[cc]]
                            in_bounds(m, nc, rr, cc) implies (visited@[rr]@[cc] <==> covered(
                                quads@,
                                rr,
                                cc,
                            )) by {
                            lemma_covered_push(q0, q, rr, cc);
                        }
                        assert forall|k: int| 0 <= k < quads@.len() implies greedy_quad(
                            m,
                            nc,
                            quads@.take(k),
                            #[trigger] quads@[k],
                            cols_first,
                            single_water,
                        ) by {
                            if k < q0.len() {
                                lemma_take_push(q0, q, k);
                                assert(quads@[k] == q0[k]);
                            } else {
                                assert(quads@.take(k) =~= q0);
                                assert(quads@[k] == q);
                            }
                        }
                        assert forall|rr: int, cc: int|
                            #![trigger m[rr]@[cc]]
                            in_bounds(m, nc, rr, cc) && before(rr, cc, r as int, c + 1)
                                implies !pending(m, quads@, rr, cc) by {
                            lemma_covered_push(q0, q, rr, cc);
                        }
                    }
                }
            }
            c += 1;
        }
        r += 1;
    }
    quads
}


/// Merges the faces of one horizontal layer (top or bottom faces). The mask
/// is indexed `[x][z]`; rectangles grow along x first, then along z; water
/// faces are not merged, since each carries its own depth.
pub fn merge_horizontal_faces(mask: &Vec<Vec<Option<BlockType>>>, ncols: usize) -> (quads: Vec<
    Quad,
>)
    requires
        rectangular(mask@, ncols as int),
    ensures
        greedy_mesh(mask@, ncols as int, quads@, false, true),
{
    greedy_merge(mask, ncols, false, true)
}

/// Merges the faces of one vertical layer (side faces). The mask is indexed
/// `[y][u]` with `u` the horizontal axis of the layer; rectangles grow along
/// `u` first, then up.
pub fn merge_vertical_faces(mask: &Vec<Vec<Option<BlockType>>>, ncols: usize) -> (quads: Vec<Quad>)
    requires
        rectangular(mask@, ncols as int),
    ensures
        greedy_mesh(mask@, ncols as int, quads@, true, false),
{
    greedy_merge(mask, ncols, true, false)
}

/// Builds the face mask of a layer from its blocks, the neighbour of each
/// block across the face (`None` outside the loaded world), and which blocks
/// are damaged (those are drawn separately, with cracks).
pub fn build_face_mask(
    blocks: &Vec<Vec<BlockType>>,
    neighbors: &Vec<Vec<Option<BlockType>>>,
    damaged: &Vec<Vec<bool>>,
) -> (mask: Vec<Vec<Option<BlockType>>>)
    requires
        neighbors@.len() == blocks@.len(),
        damaged@.len() == blocks@.len(),
        forall|i: int|
            0 <= i < blocks@.len() ==> (#[trigger] neighbors@[i]@).len() == blocks@[i]@.len()
                && damaged@[i]@.len() == blocks@[i]@.len(),
    ensures
        mask@.len() == blocks@.len(),
        forall|i: int| 0 <= i < blocks@.len() ==> (#[trigger] mask@[i]@).len() == blocks@[i]@.len(),
        forall|i: int, j: int|
            0 <= i < blocks@.len() && 0 <= j < blocks@[i]@.len() ==> #[trigger] mask@[i]@[j]
                == crate::block::spec_face_mask_cell(
                blocks@[i]@[j],
                neighbors@[i]@[j],
                damaged@[i]@[j],
            ),
{
    let mut mask: Vec<Vec<Option<BlockType>>> = Vec::new();
    let mut i: usize = 0;
    while i < blocks.len()
        invariant
            i <= blocks@.len(),
            mask@.len() == i,
            neighbors@.len() == blocks@.len(),
            damaged@.len() == blocks@.len(),
            forall|k: int|
                0 <= k < blocks@.len() ==> (#[trigger] neighbors@[k]@).len() == blocks@[k]@.len()
                    && damaged@[k]@.len() == blocks@[k]@.len(),
            forall|k: int| 0 <= k < i ==> (#[trigger] mask@[k]@).len() == blocks@[k]@.len(),
            forall|k: int, j: int|
                0 <= k < i && 0 <= j < blocks@[k]@.len() ==> #[trigger] mask@[k]@[j]
                    == crate::block::spec_face_mask_cell(
                    blocks@[k]@[j],
                    neighbors@[k]@[j],
                    damaged@[k]@[j],
                ),
        decreases blocks@.len() - i,
    {
        let brow = &blocks[i];
        let nrow = &neighbors[i];
        let drow = &damaged[i];
        let mut row: Vec<Option<BlockType>> = Vec::new();
        let mut j: usize = 0;
        while j < brow.len()
            invariant
                j <= brow@.len(),
                row@.len() == j,
                nrow@.len() == brow@.len(),
                drow@.len() == brow@.len(),
                forall|k: int|
                    0 <= k < j ==> #[trigger] row@[k] == crate::block::spec_face_mask_cell(
                        brow@[k],
                        nrow@[k],
                        drow@[k],
                    ),
            decreases brow@.len() - j,
        {
            row.push(crate::block::face_mask_cell(brow[j], nrow[j], drow[j]));
            j += 1;
        }
        mask.push(row);
        i += 1;
    }
    mask
}

/// The greedy mesh of a layer is an exact tiling of its faces: every
/// rectangle lies inside the layer and shows one block on every cell, no two
/// rectangles share a cell, and every cell that shows a face lies in some
/// rectangle.
pub proof fn greedy_mesh_tiles_faces(
    m: Seq<Vec<Option<BlockType>>>,
    ncols: int,
    qs: Seq<Quad>,
    cols_first: bool,
    single_water: bool,
)
    requires
        rectangular(m, ncols),
        greedy_mesh(m, ncols, qs, cols_first, single_water),
    ensures
        forall|k: int|
            #![trigger qs[k]]
            0 <= k < qs.len() ==> qs[k].rows >= 1 && qs[k].cols >= 1 && qs[k].row + qs[k].rows
                <= m.len() && qs[k].col + qs[k].cols <= ncols,
        forall|k: int, r: int, c: int|
            0 <= k < qs.len() && #[trigger] in_quad(qs[k], r, c) ==> m[r]@[c] == Some(qs[k].block),
        forall|k1: int, k2: int, r: int, c: int|
            0 <= k1 < k2 < qs.len() && #[trigger] in_quad(qs[k1], r, c) ==> !#[trigger] in_quad(
                qs[k2],
                r,
                c,
            ),
        forall|r: int, c: int|
            #![trigger m[r]@[c]]
            in_bounds(m, ncols, r, c) && m[r]@[c] is Some ==> covered(qs, r, c),
{
    assert forall|k: int, r: int, c: int|
        0 <= k < qs.len() && #[trigger] in_quad(qs[k], r, c) implies m[r]@[c] == Some(
        qs[k].block,
    ) by {
        assert(greedy_quad(m, ncols, qs.take(k), qs[k], cols_first, single_water));
    }
    assert forall|k1: int, k2: int, r: int, c: int|
        0 <= k1 < k2 < qs.len() && #[trigger] in_quad(qs[k1], r, c) implies !#[trigger] in_quad(
        qs[k2],
        r,
        c,
    ) by {
        assert(greedy_quad(m, ncols, qs.take(k2), qs[k2], cols_first, single_water));
        assert(qs.take(k2)[k1] == qs[k1]);
        if in_quad(qs[k2], r, c) {
            assert(free_cell(m, ncols, qs.take(k2), qs[k2].block, r, c));
            assert(covered(qs.take(k2), r, c));
        }
    }
    assert forall|k: int|
        #![trigger qs[k]]
        0 <= k < qs.len() implies qs[k].rows >= 1 && qs[k].cols >= 1 && qs[k].row + qs[k].rows
        <= m.len() && qs[k].col + qs[k].cols <= ncols by {
        assert(greedy_quad(m, ncols, qs.take(k), qs[k], cols_first, single_water));
    }
}

/// In a greedy mesh made with `single_water` (the top and bottom faces),
/// every water face keeps a rectangle of its own cell.
pub proof fn horizontal_water_faces_stay_single(
    m: Seq<Vec<Option<BlockType>>>,
    ncols: int,
    qs: Seq<Quad>,
)
    requires
        greedy_mesh(m, ncols, qs, false, true),
    ensures
        forall|k: int|
            0 <= k < qs.len() && (#[trigger] qs[k]).block == BlockType::Water ==> qs[k].rows == 1
                && qs[k].cols == 1,
{
    assert forall|k: int|
        0 <= k < qs.len() && (#[trigger] qs[k]).block == BlockType::Water implies qs[k].rows == 1
        && qs[k].cols == 1 by {
        assert(greedy_quad(m, ncols, qs.take(k), qs[k], false, true));
    }
}


/// Which faces of a slab are drawn.
#[derive(Clone, Copy, PartialEq, Eq, Debug, Structural)]
pub struct SlabFaces {
    pub top: bool,
    pub bottom: bool,
    pub right: bool,
    pub left: bool,
    pub front: bool,
    pub back: bool,
}

/// The neighbourhood of a slab: its own cell as the world reports it and the
/// six cells around it (`None` outside the loaded world).
#[derive(Clone, Copy, PartialEq, Eq, Debug, Structural)]
pub struct Neighborhood {
    pub own: Option<BlockType>,
    pub above: Option<BlockType>,
    pub below: Option<BlockType>,
    pub right: Option<BlockType>,
    pub left: Option<BlockType>,
    pub front: Option<BlockType>,
    pub back: Option<BlockType>,
}

/// The slab's own cell lets its inner half face show: outside the world,
/// air, or a slab of the given half.
pub open spec fn inner_open(own: Option<BlockType>, upper_half: bool) -> bool {
    match own {
        None => true,
        Some(b) => b == BlockType::Air || if upper_half {
            b.spec_is_top_slab()
        } else {
            b.spec_is_bottom_slab()
        },
    }
}

/// The faces a slab draws: its outer horizontal face and its four half-height
/// sides when the neighbour there shows them; its inner horizontal face (the
/// one at mid-height) also when its own cell is open on that half.
pub open spec fn spec_slab_faces(slab: BlockType, n: Neighborhood) -> SlabFaces {
    let exposed = |c: Option<BlockType>| crate::block::spec_face_exposed(c, slab);
    SlabFaces {
        top: if slab.spec_is_top_slab() {
            exposed(n.above)
        } else {
            inner_open(n.own, true) || exposed(n.above)
        },
        bottom: if slab.spec_is_bottom_slab() {
            exposed(n.below)
        } else {
            inner_open(n.own, false) || exposed(n.below)
        },
        right: exposed(n.right),
        left: exposed(n.left),
        front: exposed(n.front),
        back: exposed(n.back),
    }
}

fn own_open(own: Option<BlockType>, upper_half: bool) -> (r: bool)
    ensures
        r == inner_open(own, upper_half),
{
    match own {
        None => true,
        Some(b) => b == BlockType::Air || if upper_half {
            b.is_top_slab()
        } else {
            b.is_bottom_slab()
        },
    }
}

/// Decides which faces of a slab (top or bottom half) are drawn.
pub fn slab_faces(slab: BlockType, n: Neighborhood) -> (r: SlabFaces)
    requires
        slab.spec_is_top_slab() || slab.spec_is_bottom_slab(),
    ensures
        r == spec_slab_faces(slab, n),
{
    let top = if slab.is_top_slab() {
        crate::block::face_exposed(n.above, slab)
    } else {
        own_open(n.own, true) || crate::block::face_exposed(n.above, slab)
    };
    let bottom = if slab.is_bottom_slab() {
        crate::block::face_exposed(n.below, slab)
    } else {
        own_open(n.own, false) || crate::block::face_exposed(n.below, slab)
    };
    SlabFaces {
        top,
        bottom,
        right: crate::block::face_exposed(n.right, slab),
        left: crate::block::face_exposed(n.left, slab),
        front: crate::block::face_exposed(n.front, slab),
        back: crate::block::face_exposed(n.back, slab),
    }
}

/// A glass pane draws its centre post unless its panels run straight
/// through: north and south only, or east and west only.
pub fn pane_needs_center_post(north: bool, south: bool, east: bool, west: bool) -> (r: bool)
    ensures
        r == !((north && south && !east && !west) || (east && west && !north && !south)),
{
    let straight = (north && south && !east && !west) || (east && west && !north && !south);
    !straight
}

/// A loaded chunk as the mesher sees it: its position, whether its blocks
/// changed, and whether it ever got a mesh.
pub type ChunkStatus = ((i32, i32), bool, bool);

/// A chunk needs a (new) mesh when it changed or never got one.
pub open spec fn needs_mesh(c: ChunkStatus) -> bool {
    c.1 || !c.2
}

/// The chunks needing a mesh, in the order given.
pub open spec fn chunks_needing_mesh(cs: Seq<ChunkStatus>) -> Seq<(i32, i32)>
    decreases cs.len(),
{
    if cs.len() == 0 {
        Seq::empty()
    } else {
        let rest = chunks_needing_mesh(cs.drop_last());
        if needs_mesh(cs.last()) {
            rest.push(cs.last().0)
        } else {
            rest
        }
    }
}

/// Picks the chunks to mesh this frame: the first `limit` that need a mesh,
/// in the order given (all of them when `limit` is at least their number).
pub fn select_chunks_to_mesh(chunks: &Vec<ChunkStatus>, limit: usize) -> (r: Vec<(i32, i32)>)
    ensures
        r@ == if chunks_needing_mesh(chunks@).len() <= limit {
            chunks_needing_mesh(chunks@)
        } else {
            chunks_needing_mesh(chunks@).take(limit as int)
        },
{
    let mut r: Vec<(i32, i32)> = Vec::new();
    let mut i: usize = 0;
    while i < chunks.len() && r.len() < limit
        invariant
            i <= chunks@.len(),
            r@.len() <= limit,
            r@ == chunks_needing_mesh(chunks@.take(i as int)),
        decreases chunks@.len() - i,
    {
        assert(chunks@.take(i + 1).drop_last() =~= chunks@.take(i as int));
        let c = chunks[i];
        if c.1 || !c.2 {
            r.push(c.0);
        }
        i += 1;
    }
    proof {
        lemma_needing_prefix(chunks@, i as int);
        if i < chunks@.len() {
            assert(r@.len() == limit);
            assert(chunks_needing_mesh(chunks@).take(limit as int) =~= r@);
        } else {
            assert(chunks@.take(i as int) =~= chunks@);
        }
    }
    r
}

/// The chunks needing a mesh among a prefix are a prefix of those among all.
proof fn lemma_needing_prefix(cs: Seq<ChunkStatus>, i: int)
    requires
        0 <= i <= cs.len(),
    ensures
        chunks_needing_mesh(cs.take(i)).len() <= chunks_needing_mesh(cs).len(),
        chunks_needing_mesh(cs).take(chunks_needing_mesh(cs.take(i)).len() as int)
            =~= chunks_needing_mesh(cs.take(i)),
    decreases cs.len() - i,
{
    if i < cs.len() {
        lemma_needing_prefix(cs, i + 1);
        assert(cs.take(i + 1).drop_last() =~= cs.take(i));
    } else {
        assert(cs.take(i) =~= cs);
    }
}

/// The corner a face's `k`-th index names: its two triangles take corners
/// 0, 1, 2 and then 2, 3, 0.
pub open spec fn face_corner(k: int) -> int {
    if k == 0 || k == 5 { 0 } else if k == 1 { 1 } else if k == 2 || k == 3 { 2 } else { 3 }
}

/// The index list of `cubes` cubes of six four-cornered faces each, their
/// vertices laid out one face after another: index `j` names corner
/// `face_corner(j % 6)` of face `j / 6`, whose first vertex is `4 * (j / 6)`.
pub fn cube_face_indices(cubes: u16) -> (r: Vec<u16>)
    requires
        cubes <= 2730,
    ensures
        r@.len() == 36 * cubes,
        forall|j: int| 0 <= j < r@.len() ==> #[trigger] r@[j] == 4 * (j / 6) + face_corner(j % 6),
{
    let faces: u16 = cubes * 6;
    let mut r: Vec<u16> = Vec::new();
    let mut f: u16 = 0;
    while f < faces
        invariant
            faces == cubes * 6,
            cubes <= 2730,
            f <= faces,
            r@.len() == 6 * f,
            forall|j: int| 0 <= j < r@.len() ==> #[trigger] r@[j] == 4 * (j / 6) + face_corner(j % 6),
        decreases faces - f,
    {
        let base: u16 = f * 4;
        r.push(base);
        r.push(base + 1);
        r.push(base + 2);
        r.push(base + 2);
        r.push(base + 3);
        r.push(base);
        proof {
            let ghost n: int = 6 * f as int;
            assert forall|j: int| 0 <= j < r@.len() implies #[trigger] r@[j] == 4 * (j / 6)
                + face_corner(j % 6) by {
                if j >= n {
                    assert(j / 6 == f as int && j % 6 == j - n) by (nonlinear_arith)
                        requires
                            n <= j < n + 6,
                            n == 6 * f,
                    ;
                }
            }
        }
        f += 1;
    }
    r
}

/// A block drawn with its own geometry never enters a face mask: air,
/// barriers, torches, ladders, trapdoors, fences, glass panes, slabs and
/// stairs leave their mask entry empty whatever their neighbour and damage.
/// Every other block, undamaged, enters the mask exactly when its face is
/// open: for water when the neighbour is not water, for the rest when the
/// neighbour is air or a torch or lies outside the loaded world.
pub proof fn own_geometry_stays_out_of_face_masks(
    b: BlockType,
    neighbor: Option<BlockType>,
    damaged: bool,
)
    ensures
        (b == BlockType::Air || b == BlockType::Barrier || b == BlockType::Torch || b
            == BlockType::Ladder || b == BlockType::WoodTrapdoor || b == BlockType::IronTrapdoor
            || b == BlockType::Fence || b == BlockType::WoodFence || b == BlockType::StoneFence || b
            == BlockType::GlassPane || b == BlockType::StoneSlabBottom || b
            == BlockType::StoneSlabTop || b == BlockType::WoodSlabBottom || b
            == BlockType::WoodSlabTop || b == BlockType::CobblestoneSlabBottom || b
            == BlockType::CobblestoneSlabTop || b == BlockType::StoneStairs || b
            == BlockType::WoodStairs || b == BlockType::CobblestoneStairs || b
            == BlockType::BrickStairs) ==> crate::block::spec_face_mask_cell(b, neighbor, damaged)
            is None,
        damaged ==> crate::block::spec_face_mask_cell(b, neighbor, damaged) is None,
        (b == BlockType::Stone || b == BlockType::Grass || b == BlockType::Dirt || b
            == BlockType::Water || b == BlockType::Leaves || b == BlockType::Sand || b
            == BlockType::Wood || b == BlockType::Planks || b == BlockType::Chest) && !damaged ==> (
        crate::block::spec_face_mask_cell(b, neighbor, damaged) == if (b == BlockType::Water
            && neighbor != Some(BlockType::Water)) || (b != BlockType::Water && (neighbor is None
            || neighbor == Some(BlockType::Air) || neighbor == Some(BlockType::Torch))) {
            Some(b)
        } else {
            None
        }),
{
}

/// What the mask says of a whole layer: a cell whose block has its own
/// geometry (here a ladder, a torch, a slab or stairs, or a fence) is empty
/// in the mask whatever surrounds it.
pub proof fn face_mask_skips_own_geometry(
    blocks: Seq<Vec<BlockType>>,
    neighbors: Seq<Vec<Option<BlockType>>>,
    damaged: Seq<Vec<bool>>,
    mask: Seq<Vec<Option<BlockType>>>,
    i: int,
    j: int,
)
    requires
        0 <= i < blocks.len(),
        0 <= j < blocks[i]@.len(),
        mask[i]@[j] == crate::block::spec_face_mask_cell(
            blocks[i]@[j],
            neighbors[i]@[j],
            damaged[i]@[j],
        ),
        blocks[i]@[j] == BlockType::Ladder || blocks[i]@[j] == BlockType::Torch || blocks[i]@[j]
            == BlockType::StoneSlabBottom || blocks[i]@[j] == BlockType::WoodStairs
            || blocks[i]@[j] == BlockType::Fence || blocks[i]@[j] == BlockType::GlassPane,
    ensures
        mask[i]@[j] is None,
{
    own_geometry_stays_out_of_face_masks(blocks[i]@[j], neighbors[i]@[j], damaged[i]@[j]);
}

} // verus!
