use vstd::prelude::*;
use vstd::set_lib::{lemma_int_range, lemma_len_subset, set_int_range};
use crate::board::{Board, Cell};

verus! {

/// How many random draws the sampler makes before it scans the board.
pub const MAX_DRAWS: u32 = 1000;

/// The cells that food may not take: the chain, or, while there is no chain
/// yet, the cells that the starting chain will take.
pub open spec fn blocked(chain: Seq<Cell>) -> Seq<Cell> {
    if chain.len() == 0 {
        reserved_cells()
    } else {
        chain
    }
}

/// The cells of the starting chain.
pub open spec fn reserved_cells() -> Seq<Cell> {
    seq![Cell { x: -1i32, y: 0 }, Cell { x: 0, y: 0 }, Cell { x: 1, y: 0 }]
}

/// A cell on the board that none of `taken` covers.
pub open spec fn is_free_cell(c: Cell, taken: Seq<Cell>, board: Board) -> bool {
    board.in_bounds(c) && !taken.contains(c)
}

/// The board has a cell that none of `taken` covers.
pub open spec fn has_free_cell(taken: Seq<Cell>, board: Board) -> bool {
    exists|c: Cell| #[trigger] is_free_cell(c, taken, board)
}

/// Relies on rand's `thread_rng().gen_range(lo..=hi)`: a value drawn from the
/// inclusive range, which must not be empty.
#[verifier::external_body]
fn random_in(lo: i32, hi: i32) -> (r: i32)
    requires
        lo <= hi,
    ensures
        lo <= r <= hi,
{
    rand::Rng::gen_range(&mut rand::thread_rng(), lo..=hi)
}

/// Whether `taken` holds `c`.
pub fn contains_cell(taken: &Vec<Cell>, c: Cell) -> (r: bool)
    ensures
        r == taken@.contains(c),
{
    let mut i: usize = 0;
    while i < taken.len()
        invariant
            0 <= i <= taken@.len(),
            forall|j: int| 0 <= j < i ==> taken@[j] != c,
        decreases taken@.len() - i,
    {
        if taken[i] == c {
            assert(taken@[i as int] == c);
            return true;
        }
        i = i + 1;
    }
    false
}

/// Whether food may be placed at `c`.
pub fn is_free(c: Cell, taken: &Vec<Cell>, board: &Board) -> (r: bool)
    ensures
        r == is_free_cell(c, taken@, *board),
{
    board.contains(c) && !contains_cell(taken, c)
}

/// The cells that food may not take, given the current chain.
pub fn blocked_cells(chain: &Vec<Cell>) -> (r: Vec<Cell>)
    ensures
        r@ == blocked(chain@),
{
    if chain.len() == 0 {
        let r = vec![Cell::new(-1, 0), Cell::new(0, 0), Cell::new(1, 0)];
        assert(r@ =~= reserved_cells());
        r
    } else {
        chain.clone()
    }
}

/// The first free cell met when the board is read column by column, from
/// the left and from the bottom; `None` where every cell is taken.
pub fn first_free_cell(taken: &Vec<Cell>, board: &Board) -> (r: Option<Cell>)
    ensures
        r.is_some() ==> is_free_cell(r.unwrap(), taken@, *board),
        r.is_none() <==> !has_free_cell(taken@, *board),
        r.is_some() ==> forall|d: Cell|
            board.in_bounds(d) && (d.x < r.unwrap().x || (d.x == r.unwrap().x && d.y < r.unwrap().y))
                ==> #[trigger] taken@.contains(d),
{
    let hc: i64 = board.half_cols_exec() as i64;
    let hr: i64 = board.half_rows_exec() as i64;
    let mut x: i64 = -hc;
    while x <= hc
        invariant
            hc == board.half_cols(),
            hr == board.half_rows(),
            -hc <= x <= hc + 1,
            forall|c: Cell| board.in_bounds(c) && c.x < x ==> taken@.contains(c),
        decreases hc + 1 - x,
    {
        let mut y: i64 = -hr;
        while y <= hr
            invariant
                hc == board.half_cols(),
                hr == board.half_rows(),
                -hc <= x <= hc,
                -hr <= y <= hr + 1,
                forall|c: Cell| board.in_bounds(c) && c.x < x ==> taken@.contains(c),
                forall|c: Cell| board.in_bounds(c) && c.x == x && c.y < y ==> taken@.contains(c),
            decreases hr + 1 - y,
        {
            let c = Cell::new(x as i32, y as i32);
            if is_free(c, taken, board) {
                return Some(c);
            }
            y = y + 1;
        }
        x = x + 1;
    }
    assert forall|c: Cell| !is_free_cell(c, taken@, *board) by {
        if board.in_bounds(c) {
            assert(taken@.contains(c));
        }
    }
    None
}

/// Index of the first of `draws` that is free; `draws.len()` where none is.
pub open spec fn first_free_index(draws: Seq<Cell>, taken: Seq<Cell>, board: Board) -> int
    decreases draws.len(),
{
    if draws.len() == 0 {
        0
    } else if is_free_cell(draws[0], taken, board) {
        0
    } else {
        1 + first_free_index(draws.drop_first(), taken, board)
    }
}

/// Where `first_free_index` stands, and that the draws before it are taken.
pub proof fn lemma_first_free_index(draws: Seq<Cell>, taken: Seq<Cell>, board: Board)
    ensures
        0 <= first_free_index(draws, taken, board) <= draws.len(),
        first_free_index(draws, taken, board) < draws.len() ==> is_free_cell(
            draws[first_free_index(draws, taken, board)],
            taken,
            board,
        ),
        forall|j: int|
            0 <= j < first_free_index(draws, taken, board) ==> !#[trigger] is_free_cell(
                draws[j],
                taken,
                board,
            ),
    decreases draws.len(),
{
    if draws.len() > 0 && !is_free_cell(draws[0], taken, board) {
        let rest = draws.drop_first();
        lemma_first_free_index(rest, taken, board);
        assert forall|j: int| 0 <= j < first_free_index(draws, taken, board) implies !#[trigger] is_free_cell(
            draws[j],
            taken,
            board,
        ) by {
            if j > 0 {
                assert(draws[j] == rest[j - 1]);
            }
        }
    }
}

/// The first of `draws` that is free, in the order drawn; `None` where every
/// draw is taken or off the board.
pub fn first_free_draw(draws: &Vec<Cell>, taken: &Vec<Cell>, board: &Board) -> (r: Option<Cell>)
    ensures
        first_free_index(draws@, taken@, *board) < draws@.len() ==> r == Some(
            draws@[first_free_index(draws@, taken@, *board)],
        ),
        first_free_index(draws@, taken@, *board) == draws@.len() ==> r.is_none(),
{
    proof {
        lemma_first_free_index(draws@, taken@, *board);
    }
    let mut i: usize = 0;
    while i < draws.len()
        invariant
            0 <= i <= draws@.len(),
            0 <= first_free_index(draws@, taken@, *board) <= draws@.len(),
            forall|j: int| 0 <= j < i ==> !#[trigger] is_free_cell(draws@[j], taken@, *board),
            i <= first_free_index(draws@, taken@, *board),
            first_free_index(draws@, taken@, *board) < draws@.len() ==> is_free_cell(
                draws@[first_free_index(draws@, taken@, *board)],
                taken@,
                *board,
            ),
            forall|j: int|
                0 <= j < first_free_index(draws@, taken@, *board) ==> !#[trigger] is_free_cell(
                    draws@[j],
                    taken@,
                    *board,
                ),
        decreases draws@.len() - i,
    {
        if is_free(draws[i], taken, board) {
            return Some(draws[i]);
        }
        i = i + 1;
    }
    None
}

/// Places food on a random free cell of the board.
///
/// Draws `MAX_DRAWS` cells uniformly from the board and keeps the first one
/// that is free; where all of them miss it takes the first free cell in
/// reading order. `None` only where the board has no free cell left.
pub fn generate_position(chain: &Vec<Cell>, board: &Board) -> (r: Option<Cell>)
    ensures
        r.is_some() ==> is_free_cell(r.unwrap(), blocked(chain@), *board),
        r.is_none() <==> !has_free_cell(blocked(chain@), *board),
        blocked(chain@).len() < board.cell_count() ==> r.is_some(),
{
    proof {
        if blocked(chain@).len() < board.cell_count() {
            lemma_room_left(blocked(chain@), *board);
        }
    }
    let taken = blocked_cells(chain);
    let hc: i32 = board.half_cols_exec();
    let hr: i32 = board.half_rows_exec();
    let mut draws: Vec<Cell> = Vec::new();
    let mut tries: u32 = 0;
    while tries < MAX_DRAWS
        invariant
            hc == board.half_cols(),
            hr == board.half_rows(),
        decreases MAX_DRAWS - tries,
    {
        draws.push(Cell::new(random_in(-hc, hc), random_in(-hr, hr)));
        tries = tries + 1;
    }
    proof {
        lemma_first_free_index(draws@, taken@, *board);
    }
    match first_free_draw(&draws, &taken, board) {
        Some(c) => Some(c),
        None => first_free_cell(&taken, board),
    }
}

/// The position of cell `c` when the board's cells are numbered column by
/// column.
pub open spec fn cell_index(c: Cell, board: Board) -> int {
    (c.x + board.half_cols()) * (2 * board.half_rows() + 1) + (c.y + board.half_rows())
}

/// Pigeonhole: fewer taken cells than the board has leave a free one.
pub proof fn lemma_room_left(taken: Seq<Cell>, board: Board)
    requires
        taken.len() < board.cell_count(),
    ensures
        has_free_cell(taken, board),
{
    let w: int = 2 * board.half_cols() + 1;
    let h: int = 2 * board.half_rows() + 1;
    let n: int = board.cell_count();
    assert(n == w * h);
    assert(w > 0 && h > 0);
    if !has_free_cell(taken, board) {
        let idx = taken.map_values(|c: Cell| cell_index(c, board));
        let all = set_int_range(0, n);
        assert forall|k: int| #[trigger] all.contains(k) implies idx.to_set().contains(k) by {
            let q: int = k / h;
            let m: int = k % h;
            assert(k == q * h + m && 0 <= m < h) by (nonlinear_arith)
                requires
                    h > 0,
                    q == k / h,
                    m == k % h,
            ;
            assert(0 <= q < w) by (nonlinear_arith)
                requires
                    h > 0,
                    0 <= k < w * h,
                    k == q * h + m,
                    0 <= m < h,
            ;
            let c = Cell { x: (q - board.half_cols()) as i32, y: (m - board.half_rows()) as i32 };
            assert(c.x == q - board.half_cols());
            assert(c.y == m - board.half_rows());
            assert(board.in_bounds(c));
            assert(!is_free_cell(c, taken, board));
            assert(taken.contains(c));
            let i: int = choose|i: int| 0 <= i < taken.len() && taken[i] == c;
            assert(idx[i] == cell_index(c, board));
            assert(cell_index(c, board) == k);
            assert(idx.contains(k));
        }
        lemma_int_range(0, n);
        idx.lemma_cardinality_of_set();
        lemma_len_subset(all, idx.to_set());
        assert(n <= taken.len());
    }
}

} // verus!
