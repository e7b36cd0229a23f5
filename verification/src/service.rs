//! The board as a service: one board shared by all callers, the four
//! operations on it, each carried out as one step under the board's lock, and
//! the table of the requests that ask for them.

use crate::board::{token_for, BoardImpl, SEED};
use crate::grid::{empty_cells, placed, settled, shaped, Cells, SIZE};
use crate::random::seeded_draw;
use crate::render::rendered;
use crate::status::{full, status_of, Status};
use crate::token::Token;
use vstd::prelude::*;
use vstd::rwlock::{RwLock, RwLockPredicate};

verus! {

/// How a request ended, as the class of status code that answers it.
#[derive(Clone, Copy, Debug, PartialEq, Eq, Structural)]
pub enum Code {
    /// The operation was carried out.
    Success,
    /// The column asked for does not exist.
    BadRequest,
    /// The game is over: nothing can be placed until the board is reset.
    ServiceUnavailable,
}

impl Code {
    /// The number of the status code.
    pub open spec fn number_spec(self) -> u16 {
        match self {
            Code::Success => 200,
            Code::BadRequest => 400,
            Code::ServiceUnavailable => 503,
        }
    }

    /// The number of the status code.
    pub fn number(self) -> (n: u16)
        ensures
            n == self.number_spec(),
    {
        match self {
            Code::Success => 200,
            Code::BadRequest => 400,
            Code::ServiceUnavailable => 503,
        }
    }
}

/// A request to place a token: the token, and the column counted from 1.
#[derive(Clone, Copy, Debug, PartialEq, Eq, Structural)]
pub struct PlaceBoard {
    /// The token to place.
    pub team: Token,
    /// The column, counted from 1 at the left.
    pub position: usize,
}

/// The answer to a request to place a token.
pub struct Placement {
    /// Whether the token was placed, and if not, why.
    pub code: Code,
    /// The text that shows the board after the request.
    pub body: String,
}

/// How a request to place a token into column `position`, counted from 1,
/// ends on grid `g`: it is turned away once the game is over, whatever the
/// column; on a game in progress the column has to exist.
pub open spec fn place_code(g: Cells, position: int) -> Code {
    if status_of(g) != Status::InProgress {
        Code::ServiceUnavailable
    } else if position == 0 || position > SIZE {
        Code::BadRequest
    } else {
        Code::Success
    }
}

/// The grid after a request to place `team` into column `position`, counted
/// from 1: the token is dropped where the request is accepted, and the grid
/// stays as it is where it is turned away.
pub open spec fn place_cells(g: Cells, team: Token, position: int) -> Cells {
    if place_code(g, position) == Code::Success {
        placed(g, position - 1, team)
    } else {
        g
    }
}

impl BoardImpl {
    /// Carries out a request to place a token, if the game is still in
    /// progress and the column exists, and says how the request ended.
    pub fn try_place(&mut self, pb: PlaceBoard) -> (code: Code)
        ensures
            code == place_code(old(self).cells(), pb.position as int),
            final(self).cells() == place_cells(old(self).cells(), pb.team, pb.position as int),
            forall|n: nat| final(self).pending(n) == old(self).pending(n),
            settled(final(self).cells()),
    {
        proof {
            use_type_invariant(&*self);
        }
        if self.check_winner().is_some() {
            Code::ServiceUnavailable
        } else if pb.position == 0 || pb.position > SIZE {
            Code::BadRequest
        } else {
            self.place(pb.position - 1, pb.team);
            Code::Success
        }
    }
}

/// The method of a request.
#[derive(Clone, Copy, Debug, PartialEq, Eq, Structural)]
pub enum Method {
    /// A request that reads.
    Get,
    /// A request that changes the board.
    Post,
}

/// One of the four operations of the service.
#[derive(Clone, Copy, Debug, PartialEq, Eq, Structural)]
pub enum Operation {
    /// `show_board`
    Show,
    /// `reset_board`
    Reset,
    /// `place_board`
    Place,
    /// `random_board`
    Randomize,
}

/// One line of the routing table: requests of this method for this path
/// ask for this operation. A path segment that starts with a colon stands
/// for one field of the request.
pub struct Entry {
    /// The path, below the place where the service is mounted.
    pub path: &'static str,
    /// The method that the request has to have.
    pub method: Method,
    /// The operation that the request asks for.
    pub operation: Operation,
}

/// The entry for `path`, `method` and `operation`.
pub open spec fn is_entry(entry: Entry, path: &str, method: Method, operation: Operation) -> bool {
    entry.path@ == path@ && entry.method == method && entry.operation == operation
}

/// The routing table of the service: which requests ask for which of the
/// four operations.
pub fn route() -> (table: Vec<Entry>)
    ensures
        table@.len() == 4,
        is_entry(table@[0], "/board", Method::Get, Operation::Show),
        is_entry(table@[1], "/reset", Method::Post, Operation::Reset),
        is_entry(table@[2], "/place/:team/:position", Method::Post, Operation::Place),
        is_entry(table@[3], "/random-board", Method::Get, Operation::Randomize),
{
    let mut table = Vec::new();
    table.push(Entry { path: "/board", method: Method::Get, operation: Operation::Show });
    table.push(Entry { path: "/reset", method: Method::Post, operation: Operation::Reset });
    table.push(
        Entry { path: "/place/:team/:position", method: Method::Post, operation: Operation::Place },
    );
    table.push(
        Entry { path: "/random-board", method: Method::Get, operation: Operation::Randomize },
    );
    table
}

/// One request to the service, with what it carries.
#[derive(Clone, Copy, Debug, PartialEq, Eq, Structural)]
pub enum Request {
    /// Asks for `show_board`.
    Show,
    /// Asks for `reset_board`.
    Reset,
    /// Asks for `place_board` with this token and column.
    Place(PlaceBoard),
    /// Asks for `random_board`.
    Randomize,
}

/// The state of the service's board: its grid, and how many booleans were
/// drawn from its generator since it was last made from `SEED`.
pub struct State {
    pub cells: Cells,
    pub drawn: nat,
}

/// The state that a service starts in, and that a reset leads back to: the
/// grid empty, nothing drawn yet.
pub open spec fn fresh_state() -> State {
    State { cells: empty_cells(), drawn: 0 }
}

/// The grid that a random fill leaves when `drawn` booleans were drawn
/// before it: cell by cell, row after row and from left to right within a
/// row, the tokens of the next sixteen draws.
pub open spec fn fill_at(drawn: nat) -> Cells {
    Seq::new(
        SIZE as nat,
        |r: int|
            Seq::new(
                SIZE as nat,
                |c: int| token_for(seeded_draw(SEED, (drawn + SIZE * r + c) as nat)),
            ),
    )
}

/// The state that `request` leaves when it meets the board in `state`.
pub open spec fn after(state: State, request: Request) -> State {
    match request {
        Request::Show => state,
        Request::Reset => fresh_state(),
        Request::Place(pb) => State {
            cells: place_cells(state.cells, pb.team, pb.position as int),
            drawn: state.drawn,
        },
        Request::Randomize => State {
            cells: fill_at(state.drawn),
            drawn: (state.drawn + SIZE * SIZE) as nat,
        },
    }
}

/// The state that the requests of `past`, served one after the other, lead
/// to from `start`.
pub open spec fn after_all(start: State, past: Seq<Request>) -> State
    decreases past.len(),
{
    if past.len() == 0 {
        start
    } else {
        after(after_all(start, past.drop_last()), past.last())
    }
}

/// `board` is in `state`: it has that grid, and its generator stands where
/// one made from `SEED` stands after that many draws.
pub open spec fn in_state(board: BoardImpl, state: State) -> bool {
    &&& board.cells() == state.cells
    &&& forall|n: nat| board.pending(n) == seeded_draw(SEED, (n + state.drawn) as nat)
}

/// Serving one more request leads to the state that the request leaves.
pub proof fn lemma_after_one_more(start: State, past: Seq<Request>, request: Request)
    ensures
        after_all(start, past.push(request)) == after(after_all(start, past), request),
{
    assert(past.push(request).drop_last() =~= past);
}

/// What holds of the board behind the lock whenever the lock is free: it is
/// in a state that some run of requests, served one after the other, leads
/// to from the state that the service started in.
pub struct Reached {
    pub start: State,
}

impl RwLockPredicate<BoardImpl> for Reached {
    open spec fn inv(self, board: BoardImpl) -> bool {
        exists|past: Seq<Request>| in_state(board, #[trigger] after_all(self.start, past))
    }
}

/// The one board of the service. Every operation takes the board's lock,
/// runs to its end and gives the lock back, so that no two operations
/// overlap and none sees a board that another has half changed.
pub struct Board {
    lock: RwLock<BoardImpl, Reached>,
}

impl Board {
    /// The state that the service started in.
    pub closed spec fn start(&self) -> State {
        self.lock.pred().start
    }

    /// A service whose board starts fresh: the grid empty, the generator
    /// made from `SEED` and nothing drawn from it yet.
    pub fn new() -> (board: Board)
        ensures
            board.start() == fresh_state(),
    {
        let inner = BoardImpl::new();
        let ghost held = Reached { start: fresh_state() };
        proof {
            let none = Seq::<Request>::empty();
            assert(in_state(inner, after_all(held.start, none)));
        }
        Board { lock: RwLock::new(inner, Ghost(held)) }
    }
}

/// Shows the board as it is. Nothing is changed. The board shown is one
/// that the requests served so far lead to.
pub fn show_board(board: &Board) -> (text: String)
    ensures
        exists|past: Seq<Request>|
            {
                let g = (#[trigger] after_all(board.start(), past)).cells;
                shaped(g) && settled(g) && text@ == rendered(g)
            },
{
    let (inner, handle) = board.lock.acquire_write();
    let ghost past = choose|past: Seq<Request>|
        in_state(inner, #[trigger] after_all(board.start(), past));
    let text = inner.print();
    proof {
        inner.lemma_cells_shaped();
        use_type_invariant(&inner);
        assert(inner.cells() == after_all(board.start(), past).cells);
    }
    handle.release_write(inner);
    text
}

/// Puts the board back to its first state and shows it: the grid empty, the
/// generator seeded anew.
pub fn reset_board(board: &Board) -> (text: String)
    ensures
        text@ == rendered(empty_cells()),
{
    let (mut inner, handle) = board.lock.acquire_write();
    let ghost past = choose|past: Seq<Request>|
        in_state(inner, #[trigger] after_all(board.start(), past));
    inner.reset();
    let text = inner.print();
    proof {
        lemma_after_one_more(board.start(), past, Request::Reset);
        assert(in_state(inner, after_all(board.start(), past.push(Request::Reset))));
    }
    handle.release_write(inner);
    text
}

/// Answers a request to place a token. The request is turned away as
/// `ServiceUnavailable` once the game is over, and as `BadRequest` where the
/// column is not one of 1 to 4; else the token is dropped into the column.
/// The answer shows the board as it is after the request. The board that
/// the request meets is one that the requests served so far lead to.
pub fn place_board(pb: PlaceBoard, board: &Board) -> (answer: Placement)
    ensures
        exists|past: Seq<Request>|
            {
                let g = (#[trigger] after_all(board.start(), past)).cells;
                shaped(g) && settled(g) && answer.code == place_code(g, pb.position as int)
                    && answer.body@ == rendered(place_cells(g, pb.team, pb.position as int))
            },
{
    let (mut inner, handle) = board.lock.acquire_write();
    let ghost past = choose|past: Seq<Request>|
        in_state(inner, #[trigger] after_all(board.start(), past));
    proof {
        inner.lemma_cells_shaped();
        use_type_invariant(&inner);
    }
    let code = inner.try_place(pb);
    let body = inner.print();
    proof {
        lemma_after_one_more(board.start(), past, Request::Place(pb));
        assert(in_state(inner, after_all(board.start(), past.push(Request::Place(pb)))));
    }
    handle.release_write(inner);
    Placement { code, body }
}

/// Fills the board at random and shows it. Every cell then holds a token:
/// those of the next sixteen draws of the generator, which stands where the
/// requests served so far have left it.
pub fn random_board(board: &Board) -> (text: String)
    ensures
        exists|past: Seq<Request>|
            {
                let g = fill_at((#[trigger] after_all(board.start(), past)).drawn);
                shaped(g) && full(g) && text@ == rendered(g)
            },
{
    let (mut inner, handle) = board.lock.acquire_write();
    let ghost past = choose|past: Seq<Request>|
        in_state(inner, #[trigger] after_all(board.start(), past));
    let ghost before = inner;
    inner.randomize();
    let text = inner.print();
    proof {
        inner.lemma_cells_shaped();
        let state = after_all(board.start(), past);
        assert forall|r: int, c: int| 0 <= r < SIZE && 0 <= c < SIZE implies #[trigger] inner.cells()[r][c]
            == fill_at(state.drawn)[r][c] by {
            let n = (SIZE * r + c) as nat;
            assert(before.pending(n) == seeded_draw(SEED, (n + state.drawn) as nat));
        }
        assert(inner.cells() =~~= fill_at(state.drawn));
        lemma_after_one_more(board.start(), past, Request::Randomize);
        assert(in_state(inner, after_all(board.start(), past.push(Request::Randomize))));
    }
    handle.release_write(inner);
    text
}

} // verus!
