//! Rebuilding the visible history of a conversation from its cells.
//!
//! The cells are the source. What stands in the terminal is a product of them for one width, and is
//! made anew when the width changes. Normally the latest turn is shown whole. Without a turn to find,
//! the last rows are shown, up to a cap.
use crate::ids::ProcessId;
use crate::surfaces::{SurfaceAction, Waiting};
use crate::{surfaces, text};
use vstd::prelude::*;

verus! {

/// What a cell is.
#[derive(Debug, Clone, Copy, PartialEq, Eq, Structural)]
pub enum CellKind {
    /// What the user said. It starts a turn.
    User,
    /// A streamed agent message that is not yet complete.
    AgentMessage,
    /// A streamed plan that is not yet complete.
    ProposedPlanStream,
    /// Anything else.
    Other,
}

/// A cell of a conversation with the lines that it shows at some width. A cell that continues a
/// stream is not separated from the one before it.
#[derive(Debug, PartialEq, Eq)]
pub struct TranscriptCell<L> {
    /// The identity of the cell.
    pub id: u64,
    pub kind: CellKind,
    pub is_stream_continuation: bool,
    pub lines: Vec<L>,
}

/// The history of a conversation and what is known of the terminal.
#[derive(Debug, PartialEq, Eq)]
pub struct TranscriptState<L> {
    pub cells: Vec<TranscriptCell<L>>,
    /// The cell with which the latest turn starts.
    pub latest_turn_start: Option<u64>,
    /// The server's identifier of the latest turn.
    pub latest_turn_id: Option<String>,
    /// Whether lines were written to the terminal.
    pub has_emitted_lines: bool,
    /// Whether the server has older history that is not loaded.
    pub has_older_history: bool,
    /// Lines that wait until the alternate screen is left.
    pub deferred_lines: Vec<L>,
    /// The last cell that was written, with its lines.
    pub rendered_tail: Option<RenderedHistoryTail<L>>,
    /// Whether a stored history is being replayed.
    pub replaying: bool,
    /// Whether a refresh of the usage that the history shows waits for the main screen.
    pub usage_refresh_waits: bool,
}

/// The end of what was written to the terminal.
#[derive(Debug, PartialEq, Eq)]
pub struct RenderedHistoryTail<L> {
    pub cell: u64,
    pub lines: Vec<L>,
}

/// What a rebuild does to the terminal. Whatever is queued is dropped first.
#[derive(Debug, PartialEq, Eq)]
pub struct Rebuild<L> {
    /// Whether the scrollback is cleared in the next frame.
    pub clears_scrollback: bool,
    /// The lines to write.
    pub lines: Vec<L>,
    /// The thread whose older history is to be requested, if any is.
    pub older_history_request: Option<ProcessId>,
    /// Whether a pending rebuild is done with, and the width noted for which this one was made.
    pub settles_pending_reflow: bool,
}

/// Whether a cell starts a visible block.
pub open spec fn is_head<L>(cell: TranscriptCell<L>) -> bool {
    cell.lines@.len() > 0 && !cell.is_stream_continuation
}

/// The number of visible blocks.
pub open spec fn head_count<L>(cells: Seq<TranscriptCell<L>>) -> nat
    decreases cells.len(),
{
    if cells.len() == 0 {
        0
    } else {
        head_count(cells.drop_last()) + if is_head(cells.last()) {
            1nat
        } else {
            0nat
        }
    }
}

/// The number of lines of some cells.
pub open spec fn line_count<L>(cells: Seq<TranscriptCell<L>>) -> nat
    decreases cells.len(),
{
    if cells.len() == 0 {
        0
    } else {
        line_count(cells.drop_last()) + cells.last().lines@.len()
    }
}

/// The lines of some cells, with a blank line between visible blocks.
pub open spec fn laid_out<L>(cells: Seq<TranscriptCell<L>>, blank: L) -> Seq<L>
    decreases cells.len(),
{
    if cells.len() == 0 {
        Seq::empty()
    } else {
        let before = laid_out(cells.drop_last(), blank);
        let last = cells.last();
        if is_head(last) && head_count(cells.drop_last()) > 0 {
            before.push(blank) + last.lines@
        } else {
            before + last.lines@
        }
    }
}

/// The number of rows that some cells take.
pub open spec fn row_count<L>(cells: Seq<TranscriptCell<L>>) -> nat {
    let heads = head_count(cells);
    if heads > 0 {
        (line_count(cells) + heads - 1) as nat
    } else {
        line_count(cells)
    }
}

/// As many rows are written as are counted.
pub proof fn law_rows_are_counted<L>(cells: Seq<TranscriptCell<L>>, blank: L)
    ensures
        laid_out(cells, blank).len() == row_count(cells),
    decreases cells.len(),
{
    if cells.len() > 0 {
        law_rows_are_counted(cells.drop_last(), blank);
    }
}

/// The first cell from `from` on that has an identity.
pub open spec fn cell_position<L>(cells: Seq<TranscriptCell<L>>, id: u64, from: int) -> Option<int>
    decreases cells.len() - from,
{
    if from >= cells.len() {
        None
    } else if cells[from].id == id {
        Some(from)
    } else {
        cell_position(cells, id, from + 1)
    }
}

/// The last user cell.
pub open spec fn last_user<L>(cells: Seq<TranscriptCell<L>>) -> Option<int>
    decreases cells.len(),
{
    if cells.len() == 0 {
        None
    } else if cells.last().kind == CellKind::User {
        Some(cells.len() - 1)
    } else {
        last_user(cells.drop_last())
    }
}

/// Where the latest turn starts: at its noted cell, and else at the last user cell.
pub open spec fn turn_start_index<L>(
    cells: Seq<TranscriptCell<L>>,
    noted: Option<u64>,
) -> Option<int> {
    let position = match noted {
        Some(id) => cell_position(cells, id, 0),
        None => None,
    };
    match position {
        Some(index) => Some(index),
        None => last_user(cells),
    }
}

/// Whether there is a user cell.
pub open spec fn has_user<L>(cells: Seq<TranscriptCell<L>>) -> bool {
    exists|i: int| 0 <= i < cells.len() && (#[trigger] cells[i]).kind == CellKind::User
}

/// The lines with a notice above them. Under a cap the oldest lines make room for the notice; a
/// notice that would leave no room for history is dropped.
pub open spec fn with_notice<L>(
    lines: Seq<L>,
    wanted: bool,
    notice: Option<Seq<L>>,
    cap: Option<usize>,
) -> Seq<L> {
    if lines.len() == 0 || !wanted || notice is None {
        lines
    } else {
        let notice = notice.unwrap();
        match cap {
            None => notice + lines,
            Some(cap) => if cap <= notice.len() {
                lines
            } else {
                notice + last_rows(lines, (cap - notice.len()) as nat)
            },
        }
    }
}

/// The rows of a notice, if there is one.
pub open spec fn opt_lines<L>(notice: Option<&Vec<L>>) -> Option<Seq<L>> {
    match notice {
        Some(notice) => Some(notice@),
        None => None,
    }
}

/// What a new cell adds below `has_emitted` lines.
pub open spec fn inserted_lines<L>(cell: TranscriptCell<L>, has_emitted: bool, blank: L) -> Seq<L> {
    if is_head(cell) && has_emitted {
        seq![blank] + cell.lines@
    } else {
        cell.lines@
    }
}

/// Whether a tail is that of the last cell that shows anything.
pub open spec fn is_tail_of<L>(
    tail: Option<RenderedHistoryTail<L>>,
    cells: Seq<TranscriptCell<L>>,
) -> bool
    decreases cells.len(),
{
    if cells.len() == 0 {
        tail is None
    } else if cells.last().lines@.len() > 0 {
        tail matches Some(tail) && tail.cell == cells.last().id && tail.lines@
            == cells.last().lines@
    } else {
        is_tail_of(tail, cells.drop_last())
    }
}

/// The last rows, at most `count` of them.
pub open spec fn last_rows<L>(lines: Seq<L>, count: nat) -> Seq<L> {
    if lines.len() > count {
        lines.skip(lines.len() - count)
    } else {
        lines
    }
}

/// How far back the rows up to the cap reach, from `from` on: to the first cell with which they
/// exceed it, or to the start.
pub open spec fn capped_start<L>(cells: Seq<TranscriptCell<L>>, cap: Option<usize>, from: nat) -> nat
    decreases from,
{
    if from == 0 || from > cells.len() {
        0
    } else if exceeds(cells, cap, (from - 1) as nat) {
        (from - 1) as nat
    } else {
        capped_start(cells, cap, (from - 1) as nat)
    }
}

/// Whether the lines from a cell on exceed the cap.
pub open spec fn exceeds<L>(cells: Seq<TranscriptCell<L>>, cap: Option<usize>, from: nat) -> bool {
    cap matches Some(cap) && line_count(cells.skip(from as int)) > cap
}

/// The start of the stream that a cell continues.
pub open spec fn stream_start<L>(cells: Seq<TranscriptCell<L>>, from: nat) -> nat
    decreases from,
{
    if from > 0 && from < cells.len() && cells[from as int].is_stream_continuation {
        stream_start(cells, (from - 1) as nat)
    } else {
        from
    }
}

/// The last rows of a history without turns.
pub open spec fn capped_lines<L>(
    cells: Seq<TranscriptCell<L>>,
    cap: Option<usize>,
    blank: L,
) -> Seq<L> {
    let start = stream_start(cells, capped_start(cells, cap, cells.len()));
    let lines = laid_out(cells.skip(start as int), blank);
    match cap {
        Some(cap) => last_rows(lines, cap as nat),
        None => lines,
    }
}

/// Whether rows of a history without turns are left out.
pub open spec fn capped_truncates<L>(cells: Seq<TranscriptCell<L>>, cap: Option<usize>) -> bool {
    let first = capped_start(cells, cap, cells.len());
    let start = stream_start(cells, first);
    ||| cells.len() > 0 && exceeds(cells, cap, first)
    ||| cap matches Some(cap) && row_count(cells.skip(start as int)) > cap
}

/// What is shown of a history after the screen was cleared.
pub open spec fn reflowed<L>(
    cells: Seq<TranscriptCell<L>>,
    noted: Option<u64>,
    has_older: bool,
    cap: Option<usize>,
    blank: L,
    notice: Option<Seq<L>>,
) -> Seq<L> {
    match turn_start_index(cells, noted) {
        Some(start) => with_notice(
            laid_out(cells.skip(start), blank),
            has_user(cells.take(start)) || has_older,
            notice,
            None,
        ),
        None => with_notice(
            capped_lines(cells, cap, blank),
            capped_truncates(cells, cap) || has_older,
            notice,
            cap,
        ),
    }
}

proof fn lemma_turn_start_index<L>(cells: Seq<TranscriptCell<L>>, noted: Option<u64>)
    ensures
        turn_start_index(cells, noted) matches Some(start) ==> 0 <= start < cells.len(),
{
    lemma_last_user(cells);
    if let Some(id) = noted {
        lemma_cell_position(cells, id, 0);
    }
}

proof fn lemma_last_user<L>(cells: Seq<TranscriptCell<L>>)
    ensures
        last_user(cells) matches Some(index) ==> 0 <= index < cells.len() && cells[index].kind
            == CellKind::User,
        last_user(cells) is None ==> !has_user(cells),
    decreases cells.len(),
{
    if cells.len() > 0 {
        lemma_last_user(cells.drop_last());
        if last_user(cells) is None && has_user(cells) {
            let i = choose|i: int|
                0 <= i < cells.len() && (#[trigger] cells[i]).kind == CellKind::User;
            assert(cells.drop_last()[i].kind == CellKind::User);
        }
    }
}

proof fn lemma_cell_position<L>(cells: Seq<TranscriptCell<L>>, id: u64, from: int)
    requires
        0 <= from,
    ensures
        cell_position(cells, id, from) matches Some(index) ==> from <= index < cells.len()
            && cells[index].id == id,
    decreases cells.len() - from,
{
    if from < cells.len() && cells[from].id != id {
        lemma_cell_position(cells, id, from + 1);
    }
}

/// Under a cap a history without turns never takes more rows than the cap.
pub proof fn law_capped_history_keeps_the_cap<L>(
    cells: Seq<TranscriptCell<L>>,
    noted: Option<u64>,
    has_older: bool,
    cap: usize,
    blank: L,
    notice: Option<Seq<L>>,
)
    requires
        turn_start_index(cells, noted) is None,
    ensures
        reflowed(cells, noted, has_older, Some(cap), blank, notice).len() <= cap,
{
}

/// The latest turn is shown whole, whatever the cap: all its lines stand at the end, below the
/// notice if there is one.
pub proof fn law_latest_turn_is_shown_whole<L>(
    cells: Seq<TranscriptCell<L>>,
    noted: Option<u64>,
    has_older: bool,
    cap: Option<usize>,
    other_cap: Option<usize>,
    blank: L,
    notice: Option<Seq<L>>,
)
    requires
        turn_start_index(cells, noted) is Some,
    ensures
        ({
            let start = turn_start_index(cells, noted).unwrap();
            let turn = laid_out(cells.skip(start), blank);
            let shown = reflowed(cells, noted, has_older, cap, blank, notice);
            &&& shown == reflowed(cells, noted, has_older, other_cap, blank, notice)
            &&& turn.len() <= shown.len()
            &&& shown.skip(shown.len() - turn.len()) == turn
        }),
{
    let start = turn_start_index(cells, noted).unwrap();
    let turn = laid_out(cells.skip(start), blank);
    let shown = reflowed(cells, noted, has_older, cap, blank, notice);
    assert(shown.skip(shown.len() - turn.len()) =~= turn);
}

/// A history that is complete and has one turn, or no turn and room for all rows, is shown without
/// a notice.
pub proof fn law_complete_history_has_no_notice<L>(
    cells: Seq<TranscriptCell<L>>,
    noted: Option<u64>,
    blank: L,
    notice: Option<Seq<L>>,
)
    requires
        turn_start_index(cells, noted) matches Some(start) ==> !has_user(cells.take(start)),
    ensures
        ({
            let start = match turn_start_index(cells, noted) {
                Some(start) => start,
                None => stream_start(cells, 0) as int,
            };
            reflowed(cells, noted, false, None, blank, notice) == laid_out(cells.skip(start), blank)
        }),
{
    lemma_uncapped_start(cells, cells.len());
}

proof fn lemma_uncapped_start<L>(cells: Seq<TranscriptCell<L>>, from: nat)
    ensures
        capped_start(cells, None, from) == 0,
    decreases from,
{
    if from > 0 && from <= cells.len() {
        lemma_uncapped_start(cells, (from - 1) as nat);
    }
}

/// Finds a cell by its identity.
fn find_cell<L>(cells: &Vec<TranscriptCell<L>>, id: u64) -> (r: Option<usize>)
    ensures
        match r {
            Some(index) => cell_position(cells@, id, 0) == Some(index as int),
            None => cell_position(cells@, id, 0) is None,
        },
{
    let mut i: usize = 0;
    while i < cells.len()
        invariant
            i <= cells@.len(),
            cell_position(cells@, id, 0) == cell_position(cells@, id, i as int),
        decreases cells@.len() - i,
    {
        if cells[i].id == id {
            return Some(i);
        }
        i = i + 1;
    }
    None
}

/// Finds the last user cell.
fn find_last_user<L>(cells: &Vec<TranscriptCell<L>>) -> (r: Option<usize>)
    ensures
        match r {
            Some(index) => last_user(cells@) == Some(index as int),
            None => last_user(cells@) is None,
        },
{
    let mut i: usize = cells.len();
    assert(cells@.take(i as int) =~= cells@);
    while i > 0
        invariant
            i <= cells@.len(),
            last_user(cells@) == last_user(cells@.take(i as int)),
        decreases i,
    {
        assert(cells@.take(i as int).drop_last() =~= cells@.take(i - 1));
        if cells[i - 1].kind == CellKind::User {
            return Some(i - 1);
        }
        i = i - 1;
    }
    None
}

/// Appends copies of some lines.
fn extend_lines<L: Copy>(out: &mut Vec<L>, lines: &Vec<L>)
    ensures
        final(out)@ == old(out)@ + lines@,
{
    let mut i: usize = 0;
    assert(lines@.take(0) =~= Seq::empty());
    assert(out@ + Seq::empty() =~= out@);
    while i < lines.len()
        invariant
            i <= lines@.len(),
            out@ == old(out)@ + lines@.take(i as int),
        decreases lines@.len() - i,
    {
        out.push(lines[i]);
        assert(out@ =~= old(out)@ + lines@.take(i + 1));
        i = i + 1;
    }
    assert(lines@.take(lines@.len() as int) =~= lines@);
}

/// Lays out the cells from `start` on.
fn lay_out_from<L: Copy>(cells: &Vec<TranscriptCell<L>>, start: usize, blank: L) -> (r: Vec<L>)
    requires
        start <= cells@.len(),
    ensures
        r@ == laid_out(cells@.skip(start as int), blank),
{
    let ghost shown = cells@.skip(start as int);
    let mut out: Vec<L> = Vec::new();
    let mut any_head = false;
    let mut i: usize = start;
    assert(shown.take(0) =~= Seq::empty());
    while i < cells.len()
        invariant
            start <= i <= cells@.len(),
            shown == cells@.skip(start as int),
            out@ == laid_out(shown.take(i - start), blank),
            any_head == (head_count(shown.take(i - start)) > 0),
        decreases cells@.len() - i,
    {
        let ghost next = shown.take(i - start + 1);
        assert(next.drop_last() =~= shown.take(i - start));
        assert(next.last() == cells@[i as int]);
        let cell = &cells[i];
        if cell.lines.len() > 0 && !cell.is_stream_continuation {
            if any_head {
                out.push(blank);
            } else {
                any_head = true;
            }
        }
        extend_lines(&mut out, &cell.lines);
        i = i + 1;
    }
    assert(shown.take(shown.len() as int) =~= shown);
    out
}

/// The last rows, at most `count` of them.
fn keep_last<L: Copy>(lines: &Vec<L>, count: usize) -> (r: Vec<L>)
    ensures
        r@ == last_rows(lines@, count as nat),
{
    let start: usize = if lines.len() > count {
        lines.len() - count
    } else {
        0
    };
    let mut out: Vec<L> = Vec::new();
    let mut i: usize = start;
    assert(out@ =~= lines@.subrange(start as int, start as int));
    while i < lines.len()
        invariant
            start <= i <= lines@.len(),
            out@ == lines@.subrange(start as int, i as int),
        decreases lines@.len() - i,
    {
        out.push(lines[i]);
        assert(out@ =~= lines@.subrange(start as int, i + 1));
        i = i + 1;
    }
    assert(out@ =~= last_rows(lines@, count as nat));
    out
}

/// Puts a notice above some lines.
fn prepend_notice<L: Copy>(
    lines: Vec<L>,
    wanted: bool,
    notice: Option<&Vec<L>>,
    cap: Option<usize>,
) -> (r: Vec<L>)
    ensures
        r@ == with_notice(lines@, wanted, opt_lines(notice), cap),
{
    if lines.len() == 0 || !wanted {
        return lines;
    }
    match notice {
        None => lines,
        Some(notice) => {
            let history = match cap {
                None => lines,
                Some(cap) => if cap <= notice.len() {
                    return lines;
                } else {
                    keep_last(&lines, cap - notice.len())
                },
            };
            let mut out: Vec<L> = Vec::new();
            extend_lines(&mut out, notice);
            extend_lines(&mut out, &history);
            assert(out@ =~= notice@ + history@);
            out
        },
    }
}

/// Where the rows up to the cap start, and whether they exceed it.
fn find_capped_start<L>(cells: &Vec<TranscriptCell<L>>, cap: Option<usize>) -> (r: (usize, bool))
    ensures
        r.0 == capped_start(cells@, cap, cells@.len()),
        r.0 <= cells@.len(),
        r.1 == (cells@.len() > 0 && exceeds(cells@, cap, r.0 as nat)),
{
    let mut start: usize = cells.len();
    let mut rows: usize = 0;
    let mut saturated = false;
    assert(cells@.skip(start as int) =~= Seq::empty());
    while start > 0
        invariant
            start <= cells@.len(),
            capped_start(cells@, cap, cells@.len()) == capped_start(cells@, cap, start as nat),
            !saturated ==> rows == line_count(cells@.skip(start as int)),
            saturated ==> cap is None,
            start < cells@.len() ==> !exceeds(cells@, cap, start as nat),
        decreases start,
    {
        let ghost before = cells@.skip(start as int);
        start = start - 1;
        proof {
            assert(cells@.skip(start as int) =~= seq![cells@[start as int]] + before);
            lemma_line_count_concat(seq![cells@[start as int]], before);
            reveal_with_fuel(line_count, 2);
            assert(seq![cells@[start as int]].drop_last() =~= Seq::empty());
        }
        match rows.checked_add(cells[start].lines.len()) {
            Some(sum) => {
                rows = sum;
            },
            None => {
                if cap.is_some() {
                    return (start, true);
                }
                saturated = true;
            },
        }
        if let Some(cap) = cap {
            if rows > cap {
                return (start, true);
            }
        }
    }
    (0, false)
}

proof fn lemma_line_count_concat<L>(a: Seq<TranscriptCell<L>>, b: Seq<TranscriptCell<L>>)
    ensures
        line_count(a + b) == line_count(a) + line_count(b),
    decreases b.len(),
{
    if b.len() == 0 {
        assert(a + b =~= a);
    } else {
        lemma_line_count_concat(a, b.drop_last());
        assert((a + b).drop_last() =~= a + b.drop_last());
    }
}

/// Where the stream starts that a cell continues.
fn find_stream_start<L>(cells: &Vec<TranscriptCell<L>>, from: usize) -> (r: usize)
    requires
        from <= cells@.len(),
    ensures
        r == stream_start(cells@, from as nat),
        r <= from,
{
    let mut start: usize = from;
    while start > 0 && start < cells.len() && cells[start].is_stream_continuation
        invariant
            start <= from <= cells@.len(),
            stream_start(cells@, from as nat) == stream_start(cells@, start as nat),
        decreases start,
    {
        start = start - 1;
    }
    start
}

impl<L: Copy> TranscriptState<L> {
    /// A history without cells.
    pub fn new() -> (r: Self)
        ensures
            r.cells@ == Seq::<TranscriptCell<L>>::empty(),
            r.latest_turn_start is None,
            r.latest_turn_id is None,
            !r.has_emitted_lines,
            !r.has_older_history,
            r.deferred_lines@ == Seq::<L>::empty(),
            r.rendered_tail is None,
            !r.replaying,
            !r.usage_refresh_waits,
    {
        TranscriptState {
            cells: Vec::new(),
            latest_turn_start: None,
            latest_turn_id: None,
            has_emitted_lines: false,
            has_older_history: false,
            deferred_lines: Vec::new(),
            rendered_tail: None,
            replaying: false,
            usage_refresh_waits: false,
        }
    }

    /// Forgets what was written to the terminal, and the latest turn with it.
    pub fn reset_history_emission_state(&mut self)
        ensures
            !final(self).has_emitted_lines,
            final(self).deferred_lines@ == Seq::<L>::empty(),
            final(self).rendered_tail is None,
            final(self).latest_turn_start is None,
            final(self).latest_turn_id is None,
            final(self).cells == old(self).cells,
            final(self).has_older_history == old(self).has_older_history,
            final(self).replaying == old(self).replaying,
            final(self).usage_refresh_waits == old(self).usage_refresh_waits,
    {
        self.has_emitted_lines = false;
        self.deferred_lines = Vec::new();
        self.rendered_tail = None;
        self.reset_history_turn_state();
    }

    /// Forgets the latest turn.
    pub fn reset_history_turn_state(&mut self)
        ensures
            final(self).latest_turn_start is None,
            final(self).latest_turn_id is None,
            final(self).same_but_for_turn(*old(self)),
    {
        self.latest_turn_start = None;
        self.latest_turn_id = None;
    }

    /// Whether two histories differ in their latest turn at most.
    pub open spec fn same_but_for_turn(self, other: Self) -> bool {
        &&& self.cells == other.cells
        &&& self.has_emitted_lines == other.has_emitted_lines
        &&& self.has_older_history == other.has_older_history
        &&& self.deferred_lines == other.deferred_lines
        &&& self.rendered_tail == other.rendered_tail
        &&& self.replaying == other.replaying
        &&& self.usage_refresh_waits == other.usage_refresh_waits
    }

    /// Whether two histories have the same cells, turn and loading state.
    pub open spec fn same_source(self, other: Self) -> bool {
        &&& self.cells == other.cells
        &&& self.latest_turn_start == other.latest_turn_start
        &&& self.latest_turn_id == other.latest_turn_id
        &&& self.has_older_history == other.has_older_history
    }

    /// What a rebuild of this history shows.
    pub open spec fn rebuilt(self, cap: Option<usize>, blank: L, notice: Option<Seq<L>>) -> Seq<L> {
        reflowed(
            self.cells@,
            self.latest_turn_start,
            self.has_older_history,
            cap,
            blank,
            notice,
        )
    }

    /// Notes that the last user cell belongs to a turn. A further message of the same turn leaves
    /// the start where it is, and so does the server's identifier of a turn that had none yet.
    pub fn mark_history_turn_start(&mut self, turn_id: Option<String>)
        ensures
            final(self).same_but_for_turn(*old(self)),
            (final(self).latest_turn_start, text::opt_text(final(self).latest_turn_id))
                == marked_turn(
                old(self).cells@,
                old(self).latest_turn_start,
                text::opt_text(old(self).latest_turn_id),
                text::opt_text(turn_id),
            ),
    {
        let start_cell = match find_last_user(&self.cells) {
            Some(index) => {
                proof {
                    lemma_last_user(self.cells@);
                }
                self.cells[index].id
            },
            None => {
                return ;
            },
        };
        let boundary_is_present = match self.latest_turn_start {
            Some(boundary) => find_cell(&self.cells, boundary).is_some(),
            None => false,
        };
        if boundary_is_present {
            let same = match (&self.latest_turn_id, &turn_id) {
                (Some(a), Some(b)) => *a == *b,
                (None, None) => true,
                _ => false,
            };
            if same {
                return ;
            }
            if self.latest_turn_id.is_none() {
                self.latest_turn_id = turn_id;
                return ;
            }
        }
        self.latest_turn_start = Some(start_cell);
        self.latest_turn_id = turn_id;
    }

    /// Where the latest turn starts.
    pub fn latest_history_turn_start_index(&self) -> (r: Option<usize>)
        ensures
            match r {
                Some(index) => turn_start_index(self.cells@, self.latest_turn_start) == Some(
                    index as int,
                ) && index < self.cells@.len(),
                None => turn_start_index(self.cells@, self.latest_turn_start) is None,
            },
    {
        proof {
            lemma_turn_start_index(self.cells@, self.latest_turn_start);
        }
        if let Some(boundary) = self.latest_turn_start {
            if let Some(index) = find_cell(&self.cells, boundary) {
                return Some(index);
            }
        }
        find_last_user(&self.cells)
    }

    /// Notes the end of what stands in the terminal. Under an overlay nothing is known of it.
    pub fn refresh_last_rendered_history_tail(&mut self, has_overlay: bool)
        ensures
            if has_overlay {
                final(self).rendered_tail is None
            } else {
                is_tail_of(final(self).rendered_tail, old(self).cells@)
            },
            final(self).same_source(*old(self)),
            final(self).has_emitted_lines == old(self).has_emitted_lines,
            final(self).deferred_lines == old(self).deferred_lines,
            final(self).replaying == old(self).replaying,
            final(self).usage_refresh_waits == old(self).usage_refresh_waits,
    {
        self.rendered_tail = if has_overlay {
            None
        } else {
            find_tail(&self.cells)
        };
    }

    /// The lines that a new cell adds to the terminal. A block is separated from what was written
    /// before it.
    pub fn display_lines_for_history_insert(&mut self, cell: &TranscriptCell<L>, blank: L) -> (r:
        Vec<L>)
        ensures
            r@ == inserted_lines(*cell, old(self).has_emitted_lines, blank),
            final(self).has_emitted_lines == (old(self).has_emitted_lines || is_head(*cell)),
            final(self).same_source(*old(self)),
            final(self).deferred_lines == old(self).deferred_lines,
            final(self).rendered_tail == old(self).rendered_tail,
            final(self).replaying == old(self).replaying,
            final(self).usage_refresh_waits == old(self).usage_refresh_waits,
    {
        let mut out: Vec<L> = Vec::new();
        if cell.lines.len() > 0 && !cell.is_stream_continuation {
            if self.has_emitted_lines {
                out.push(blank);
            } else {
                self.has_emitted_lines = true;
            }
        }
        extend_lines(&mut out, &cell.lines);
        assert(out@ =~= inserted_lines(*cell, old(self).has_emitted_lines, blank));
        out
    }

    /// Renders what is shown after the screen was cleared. `notice` are the rows of the notice that
    /// there is more, if a key shows it.
    pub fn render_transcript_lines_for_reflow(
        &mut self,
        max_rows: Option<usize>,
        blank: L,
        notice: Option<&Vec<L>>,
    ) -> (r: Vec<L>)
        ensures
            r@ == old(self).rebuilt(max_rows, blank, opt_lines(notice)),
            final(self).has_emitted_lines == (r@.len() > 0),
            final(self).same_source(*old(self)),
            final(self).deferred_lines == old(self).deferred_lines,
            final(self).rendered_tail == old(self).rendered_tail,
            final(self).replaying == old(self).replaying,
            final(self).usage_refresh_waits == old(self).usage_refresh_waits,
    {
        let lines = match self.latest_history_turn_start_index() {
            Some(start) => {
                let earlier = any_user_before(&self.cells, start);
                let lines = lay_out_from(&self.cells, start, blank);
                prepend_notice(lines, earlier || self.has_older_history, notice, None)
            },
            None => {
                let (first, exceeded) = find_capped_start(&self.cells, max_rows);
                let start = find_stream_start(&self.cells, first);
                let mut lines = lay_out_from(&self.cells, start, blank);
                let mut truncated = exceeded;
                proof {
                    law_rows_are_counted(self.cells@.skip(start as int), blank);
                }
                if let Some(cap) = max_rows {
                    if lines.len() > cap {
                        truncated = true;
                    }
                    lines = keep_last(&lines, cap);
                }
                prepend_notice(lines, truncated || self.has_older_history, notice, max_rows)
            },
        };
        self.has_emitted_lines = lines.len() > 0;
        lines
    }

    /// The number of rows that the loaded history takes, up to the cap. Without a cap nothing is
    /// counted.
    pub fn rendered_transcript_rows_for_scrollback(&self, max_rows: Option<usize>) -> (r: usize)
        ensures
            match max_rows {
                None => r == 0,
                Some(cap) => r == (if row_count(self.cells@) >= cap && (self.cells@.len() > 0 || cap
                    == 0) {
                    cap as nat
                } else {
                    row_count(self.cells@)
                }),
            },
    {
        let cap: usize = match max_rows {
            Some(cap) => cap,
            None => {
                return 0;
            },
        };
        let mut rows: usize = 0;
        let mut any_head = false;
        let mut i: usize = self.cells.len();
        assert(self.cells@.skip(i as int) =~= Seq::empty());
        while i > 0
            invariant
                i <= self.cells@.len(),
                rows == row_count(self.cells@.skip(i as int)),
                any_head == (head_count(self.cells@.skip(i as int)) > 0),
                max_rows == Some(cap),
                i < self.cells@.len() ==> rows < cap,
                i == self.cells@.len() ==> rows == 0,
            decreases i,
        {
            let ghost behind = self.cells@.skip(i as int);
            i = i - 1;
            let cell = &self.cells[i];
            let ghost now = self.cells@.skip(i as int);
            proof {
                let one = seq![self.cells@[i as int]];
                assert(now =~= one + behind);
                lemma_line_count_concat(one, behind);
                lemma_head_count_concat(one, behind);
                assert(one.drop_last() =~= Seq::empty());
                reveal_with_fuel(line_count, 2);
                reveal_with_fuel(head_count, 2);
                lemma_rows_of_suffix(self.cells@, i as int);
            }
            let is_block = cell.lines.len() > 0 && !cell.is_stream_continuation;
            if cell.lines.len() >= cap {
                return cap;
            }
            let separator: usize = if is_block && any_head {
                1
            } else {
                0
            };
            if is_block {
                any_head = true;
            }
            if rows >= cap - cell.lines.len() || rows + cell.lines.len() >= cap - separator {
                return cap;
            }
            rows = rows + cell.lines.len() + separator;
        }
        assert(self.cells@.skip(0) =~= self.cells@);
        rows
    }

    /// Whether older history should be loaded to fill the rows that are left.
    pub fn scrollback_history_needs_top_up(
        &self,
        rendered_rows: usize,
        max_rows: Option<usize>,
        has_overlay: bool,
    ) -> (r: bool)
        ensures
            r == (!has_overlay && self.has_older_history && (max_rows matches Some(cap)
                && rendered_rows < cap)),
    {
        !has_overlay && self.has_older_history && match max_rows {
            Some(cap) => rendered_rows < cap,
            None => false,
        }
    }

    /// The thread whose older history is requested to fill the rows that are left. Where no thread is
    /// known, nothing is requested.
    pub fn request_scrollback_history_top_up(
        &self,
        rendered_rows: usize,
        max_rows: Option<usize>,
        has_overlay: bool,
        thread: Option<ProcessId>,
    ) -> (r: Option<ProcessId>)
        ensures
            r == (if !has_overlay && self.has_older_history && (max_rows matches Some(cap)
                && rendered_rows < cap) {
                thread
            } else {
                None
            }),
    {
        if self.scrollback_history_needs_top_up(rendered_rows, max_rows, has_overlay) {
            thread
        } else {
            None
        }
    }

    /// What waits for the main screen.
    pub open spec fn waits(self) -> Waiting {
        Waiting { lines: self.deferred_lines@.len() > 0, usage: self.usage_refresh_waits }
    }

    /// Tells what waits for the main screen.
    pub fn waiting(&self) -> (r: Waiting)
        ensures
            r == self.waits(),
    {
        Waiting { lines: self.deferred_lines.len() > 0, usage: self.usage_refresh_waits }
    }
}

/// After a rebuild nothing waits for the main screen: neither is a line written twice nor the usage
/// refreshed a second time when the alternate screen is left.
pub proof fn law_nothing_waits_after_a_rebuild<L: Copy>(
    before: TranscriptState<L>,
    after: TranscriptState<L>,
    lines: Seq<L>,
    has_overlay: bool,
)
    requires
        after.rebuilt_from(before, lines, has_overlay),
    ensures
        after.waits() == (Waiting { lines: false, usage: false }),
        surfaces::back_on_main_screen(after.waits()) == seq![
            SurfaceAction::LeaveAlternateScreen,
            SurfaceAction::CaptureMouse,
            SurfaceAction::ScheduleFrame,
        ],
{
    assert(surfaces::back_on_main_screen(after.waits()) =~= seq![
        SurfaceAction::LeaveAlternateScreen,
        SurfaceAction::CaptureMouse,
        SurfaceAction::ScheduleFrame,
    ]);
}

impl<L: Copy> TranscriptState<L> {
    /// Takes the lines that a new cell adds. On the alternate screen they wait; else they are
    /// returned, to be written.
    pub fn insert_history_cell_lines(
        &mut self,
        cell: &TranscriptCell<L>,
        blank: L,
        on_alternate_screen: bool,
    ) -> (r: Vec<L>)
        ensures
            ({
                let added = inserted_lines(*cell, old(self).has_emitted_lines, blank);
                if on_alternate_screen {
                    &&& r@ == Seq::<L>::empty()
                    &&& final(self).deferred_lines@ == old(self).deferred_lines@ + added
                } else {
                    &&& r@ == added
                    &&& final(self).deferred_lines@ == old(self).deferred_lines@
                }
            }),
            final(self).has_emitted_lines == (old(self).has_emitted_lines || is_head(*cell)),
            final(self).same_source(*old(self)),
            final(self).rendered_tail == old(self).rendered_tail,
            final(self).replaying == old(self).replaying,
            final(self).usage_refresh_waits == old(self).usage_refresh_waits,
    {
        let display = self.display_lines_for_history_insert(cell, blank);
        if on_alternate_screen {
            extend_lines(&mut self.deferred_lines, &display);
            Vec::new()
        } else {
            display
        }
    }

    /// Starts the replay of a stored history, during which nothing is written.
    pub fn begin_initial_history_replay_buffer(&mut self, on_alternate_screen: bool)
        ensures
            final(self).replaying == (old(self).replaying || !on_alternate_screen),
            final(self).same_source(*old(self)),
            final(self).has_emitted_lines == old(self).has_emitted_lines,
            final(self).deferred_lines == old(self).deferred_lines,
            final(self).rendered_tail == old(self).rendered_tail,
            final(self).usage_refresh_waits == old(self).usage_refresh_waits,
    {
        if !on_alternate_screen {
            self.replaying = true;
        }
    }

    /// Ends a replay with one rebuild, which shows the usage as it is now: no refresh of it waits any
    /// longer. Without a replay nothing happens.
    pub fn finish_initial_history_replay_buffer(
        &mut self,
        max_rows: Option<usize>,
        blank: L,
        notice: Option<&Vec<L>>,
        has_overlay: bool,
    ) -> (r: Option<Rebuild<L>>)
        ensures
            !final(self).replaying,
            final(self).same_source(*old(self)),
            match r {
                None => !old(self).replaying && *final(self) == *old(self),
                Some(rebuild) => {
                    &&& old(self).replaying
                    &&& rebuild.clears_scrollback
                    &&& rebuild.older_history_request is None
                    &&& rebuild.settles_pending_reflow
                    &&& rebuild.lines@ == old(self).rebuilt(max_rows, blank, opt_lines(notice))
                    &&& final(self).rebuilt_from(*old(self), rebuild.lines@, has_overlay)
                },
            },
    {
        if !self.replaying {
            return None;
        }
        self.replaying = false;
        let lines = self.rebuild(max_rows, blank, notice, has_overlay);
        Some(
            Rebuild {
                clears_scrollback: true,
                lines,
                older_history_request: None,
                settles_pending_reflow: true,
            },
        )
    }

    /// Whether this is what a rebuild that wrote `lines` makes of a history. Nothing waits any longer:
    /// the rebuild wrote all lines, and the usage among them.
    pub open spec fn rebuilt_from(self, before: Self, lines: Seq<L>, has_overlay: bool) -> bool {
        &&& self.has_emitted_lines == (lines.len() > 0)
        &&& self.deferred_lines@ == Seq::<L>::empty()
        &&& !self.usage_refresh_waits
        &&& if has_overlay {
            self.rendered_tail is None
        } else {
            is_tail_of(self.rendered_tail, before.cells@)
        }
    }

    fn rebuild(
        &mut self,
        max_rows: Option<usize>,
        blank: L,
        notice: Option<&Vec<L>>,
        has_overlay: bool,
    ) -> (r: Vec<L>)
        ensures
            r@ == old(self).rebuilt(max_rows, blank, opt_lines(notice)),
            final(self).same_source(*old(self)),
            final(self).replaying == old(self).replaying,
            final(self).rebuilt_from(*old(self), r@, has_overlay),
    {
        let lines = self.render_transcript_lines_for_reflow(max_rows, blank, notice);
        self.deferred_lines = Vec::new();
        self.refresh_last_rendered_history_tail(has_overlay);
        self.usage_refresh_waits = false;
        lines
    }

    /// Rebuilds the terminal from the cells. Older history of the thread, if it is known, is requested
    /// where the loaded rows leave room for it. Without cells nothing is cleared, and what was noted
    /// of the terminal is forgotten.
    pub fn reflow_transcript_now(
        &mut self,
        max_rows: Option<usize>,
        blank: L,
        notice: Option<&Vec<L>>,
        has_overlay: bool,
        thread: Option<ProcessId>,
    ) -> (r: Rebuild<L>)
        ensures
            !r.settles_pending_reflow,
            final(self).replaying == old(self).replaying,
            final(self).cells == old(self).cells,
            final(self).has_older_history == old(self).has_older_history,
            if old(self).cells@.len() == 0 {
                &&& !r.clears_scrollback
                &&& r.lines@ == Seq::<L>::empty()
                &&& r.older_history_request is None
                &&& final(self).is_reset()
                &&& final(self).usage_refresh_waits == old(self).usage_refresh_waits
            } else {
                &&& r.clears_scrollback
                &&& r.lines@ == old(self).rebuilt(max_rows, blank, opt_lines(notice))
                &&& r.older_history_request == (if !has_overlay && old(self).has_older_history && (
                max_rows matches Some(cap) && row_count(old(self).cells@) < cap) {
                    thread
                } else {
                    None
                })
                &&& final(self).same_source(*old(self))
                &&& final(self).rebuilt_from(*old(self), r.lines@, has_overlay)
            },
    {
        if self.cells.len() == 0 {
            self.reset_history_emission_state();
            return Rebuild {
                clears_scrollback: false,
                lines: Vec::new(),
                older_history_request: None,
                settles_pending_reflow: false,
            };
        }
        let loaded = self.rendered_transcript_rows_for_scrollback(max_rows);
        let lines = self.rebuild(max_rows, blank, notice, has_overlay);
        let older_history_request = self.request_scrollback_history_top_up(
            loaded,
            max_rows,
            has_overlay,
            thread,
        );
        Rebuild {
            clears_scrollback: true,
            lines,
            older_history_request,
            settles_pending_reflow: false,
        }
    }

    /// Whether nothing is noted of the terminal and of the latest turn.
    pub open spec fn is_reset(self) -> bool {
        &&& !self.has_emitted_lines
        &&& self.deferred_lines@ == Seq::<L>::empty()
        &&& self.rendered_tail is None
        &&& self.latest_turn_start is None
        &&& self.latest_turn_id is None
    }

    /// Rebuilds the terminal after cells were taken back. The scrollback is cleared even where no
    /// cell is left, so that what was taken back does not stay visible.
    pub fn rebuild_transcript_after_backtrack(
        &mut self,
        max_rows: Option<usize>,
        blank: L,
        notice: Option<&Vec<L>>,
        has_overlay: bool,
    ) -> (r: Rebuild<L>)
        ensures
            r.clears_scrollback,
            r.older_history_request is None,
            !r.settles_pending_reflow,
            !final(self).usage_refresh_waits,
            final(self).replaying == old(self).replaying,
            final(self).cells == old(self).cells,
            final(self).has_older_history == old(self).has_older_history,
            if old(self).cells@.len() == 0 {
                &&& r.lines@ == Seq::<L>::empty()
                &&& final(self).is_reset()
            } else {
                &&& r.lines@ == old(self).rebuilt(max_rows, blank, opt_lines(notice))
                &&& final(self).same_source(*old(self))
                &&& final(self).rebuilt_from(*old(self), r.lines@, has_overlay)
            },
    {
        let lines = if self.cells.len() == 0 {
            self.reset_history_emission_state();
            self.usage_refresh_waits = false;
            Vec::new()
        } else {
            self.rebuild(max_rows, blank, notice, has_overlay)
        };
        Rebuild {
            clears_scrollback: true,
            lines,
            older_history_request: None,
            settles_pending_reflow: false,
        }
    }

    /// Drops a due rebuild of a history without cells. Returns whether it was dropped.
    pub fn maybe_clear_resize_reflow_without_terminal(
        &mut self,
        pending_until: Option<u64>,
        now: u64,
        on_alternate_screen: bool,
    ) -> (r: bool)
        ensures
            r == (pending_until matches Some(deadline) && now >= deadline && !on_alternate_screen
                && old(self).cells@.len() == 0),
            !r ==> *final(self) == *old(self),
            r ==> {
                &&& final(self).is_reset()
                &&& final(self).cells == old(self).cells
                &&& final(self).has_older_history == old(self).has_older_history
                &&& final(self).replaying == old(self).replaying
                &&& final(self).usage_refresh_waits == old(self).usage_refresh_waits
            },
    {
        match pending_until {
            None => false,
            Some(deadline) => {
                if now < deadline || on_alternate_screen || self.cells.len() > 0 {
                    return false;
                }
                self.reset_history_emission_state();
                true
            },
        }
    }
}

/// What to do with a rebuild when a frame is drawn.
#[derive(Debug, Clone, Copy, PartialEq, Eq, Structural)]
pub enum ReflowStep {
    /// No rebuild is pending.
    Idle,
    /// The rebuild is not due: draw again after so many milliseconds.
    DrawAgainIn(u64),
    /// The rebuild is due and has to wait: another surface is drawn, or a replay is running.
    Blocked,
    /// Rebuild now. The pending rebuild is done with and the width noted; the size is looked at once
    /// more later. If `during_stream`, rebuild once more when the stream is complete.
    Run { during_stream: bool },
}

/// Decides on a pending rebuild. Times are in milliseconds.
pub fn resize_reflow_step<L: Copy>(
    state: &TranscriptState<L>,
    pending_until: Option<u64>,
    now: u64,
    on_alternate_screen: bool,
    agent_stream: bool,
    plan_stream: bool,
) -> (r: ReflowStep)
    ensures
        r == match pending_until {
            None => ReflowStep::Idle,
            Some(deadline) => if now < deadline {
                ReflowStep::DrawAgainIn((deadline - now) as u64)
            } else if on_alternate_screen || state.replaying {
                ReflowStep::Blocked
            } else {
                ReflowStep::Run {
                    during_stream: state.cells@.len() > 0 && streams(
                        state.cells@,
                        agent_stream,
                        plan_stream,
                    ),
                }
            },
        },
{
    match pending_until {
        None => ReflowStep::Idle,
        Some(deadline) => {
            if now < deadline {
                return ReflowStep::DrawAgainIn(deadline - now);
            }
            if on_alternate_screen || state.replaying {
                return ReflowStep::Blocked;
            }
            let during_stream = state.cells.len() > 0 && should_mark_reflow_as_stream_time(
                &state.cells,
                agent_stream,
                plan_stream,
            );
            ReflowStep::Run { during_stream }
        },
    }
}

/// What to do at the end of a stream.
#[derive(Debug, Clone, Copy, PartialEq, Eq, Structural)]
pub enum StreamFinish {
    Nothing,
    /// Draw a frame: a rebuild is due.
    DrawFrame,
    /// The rebuild at the end of the running replay covers it: what was noted of the stream is
    /// forgotten.
    LeaveToReplay,
    /// Rebuild now.
    Reflow,
}

/// Decides what the end of an agent message asks for.
pub fn maybe_finish_stream_reflow(needed: bool, pending_is_due: bool, replaying: bool) -> (r:
    StreamFinish)
    ensures
        r == (if needed {
            if replaying {
                StreamFinish::LeaveToReplay
            } else {
                StreamFinish::Reflow
            }
        } else if pending_is_due {
            StreamFinish::DrawFrame
        } else {
            StreamFinish::Nothing
        }),
{
    if needed {
        finish_required_stream_reflow(replaying)
    } else if pending_is_due {
        StreamFinish::DrawFrame
    } else {
        StreamFinish::Nothing
    }
}

/// Decides what the end of a proposed plan asks for. It always needs a rebuild. Where none is pending
/// after it, what was noted of the stream is forgotten.
pub fn finish_required_stream_reflow(replaying: bool) -> (r: StreamFinish)
    ensures
        r == (if replaying {
            StreamFinish::LeaveToReplay
        } else {
            StreamFinish::Reflow
        }),
{
    if replaying {
        StreamFinish::LeaveToReplay
    } else {
        StreamFinish::Reflow
    }
}

/// The size of a terminal.
#[derive(Debug, Clone, Copy, PartialEq, Eq, Structural)]
pub struct Size {
    pub width: u16,
    pub height: u16,
}

/// What a drawn frame asks for.
#[derive(Debug, Clone, Copy, PartialEq, Eq, Structural)]
pub struct DrawSizeChange {
    /// The visible rows of history are to be counted anew.
    pub updates_visible_rows: bool,
    /// The chat view is told of the width.
    pub resizes_chat: bool,
    /// The rebuild falls into a stream.
    pub marks_stream: bool,
    /// A rebuild is to be scheduled.
    pub rebuilds: bool,
    /// The width for which it is scheduled, if it is the width that asks for it.
    pub target_width: Option<u16>,
    /// The status line is to be refreshed.
    pub refreshes_status: bool,
    /// What was queued for the terminal is dropped, and a clearing that was not drawn is taken back.
    pub drops_queued_lines: bool,
}

/// What is known of the terminal's width when a frame is drawn.
#[derive(Debug, Clone, Copy, PartialEq, Eq, Structural)]
pub struct WidthNote {
    /// No width was known before.
    pub initialized: bool,
    /// The width is another one than before.
    pub changed: bool,
    /// What stands in the terminal was made for another width.
    pub reflow_needed: bool,
    /// The visible rows were counted.
    pub rows_known: bool,
}

/// Decides what a frame of some size asks for. A new width and a new height both rebuild the
/// history.
pub fn handle_draw_size_change<L>(
    cells: &Vec<TranscriptCell<L>>,
    size: Size,
    last_size: Size,
    note: WidthNote,
    agent_stream: bool,
    plan_stream: bool,
    on_alternate_screen: bool,
) -> (r: DrawSizeChange)
    ensures
        r.updates_visible_rows == (size != last_size || !note.rows_known),
        r.resizes_chat == (note.changed || note.initialized),
        r.rebuilds == (note.reflow_needed || size.height != last_size.height),
        r.marks_stream == (note.reflow_needed && streams(cells@, agent_stream, plan_stream)),
        r.target_width == (if note.reflow_needed {
            Some(size.width)
        } else {
            None
        }),
        r.refreshes_status == (size != last_size),
        r.drops_queued_lines == (r.rebuilds && !on_alternate_screen),
{
    let rebuilds = note.reflow_needed || size.height != last_size.height;
    DrawSizeChange {
        updates_visible_rows: size != last_size || !note.rows_known,
        resizes_chat: note.changed || note.initialized,
        marks_stream: note.reflow_needed && should_mark_reflow_as_stream_time(
            cells,
            agent_stream,
            plan_stream,
        ),
        rebuilds,
        target_width: if note.reflow_needed {
            Some(size.width)
        } else {
            None
        },
        refreshes_status: size != last_size,
        drops_queued_lines: rebuilds && !on_alternate_screen,
    }
}

/// The rows of history above a chat view of some height: what is left of the screen, and one at
/// least.
pub fn visible_history_rows(screen: Size, desired_height: u16) -> (r: u16)
    ensures
        r == (if screen.height > desired_height {
            (screen.height - desired_height) as u16
        } else {
            1
        }),
{
    let viewport_height: u16 = if desired_height < screen.height {
        desired_height
    } else {
        screen.height
    };
    let rows: u16 = screen.height - viewport_height;
    if rows < 1 {
        1
    } else {
        rows
    }
}

/// Who wraps the lines of history.
#[derive(Debug, Clone, Copy, PartialEq, Eq, Structural)]
pub enum HistoryLineWrapPolicy {
    Terminal,
    PreWrap,
}

/// Raw output is left to the terminal.
pub fn history_line_wrap_policy(raw_output_mode: bool) -> (r: HistoryLineWrapPolicy)
    ensures
        r == (if raw_output_mode {
            HistoryLineWrapPolicy::Terminal
        } else {
            HistoryLineWrapPolicy::PreWrap
        }),
{
    if raw_output_mode {
        HistoryLineWrapPolicy::Terminal
    } else {
        HistoryLineWrapPolicy::PreWrap
    }
}

/// The notice that there is more than what is shown, before it is wrapped.
pub fn earlier_messages_notice(binding: &str) -> (r: String)
    ensures
        r@ == "Earlier messages are available — press "@ + binding@
            + " to view the full transcript"@,
{
    "Earlier messages are available — press ".to_owned().concat(binding).concat(
        " to view the full transcript",
    )
}

/// The noted start and the identifier of the latest turn after a user cell was marked.
pub open spec fn marked_turn<L>(
    cells: Seq<TranscriptCell<L>>,
    noted: Option<u64>,
    noted_id: Option<Seq<char>>,
    turn_id: Option<Seq<char>>,
) -> (Option<u64>, Option<Seq<char>>) {
    match last_user(cells) {
        None => (noted, noted_id),
        Some(user) => {
            let present = noted matches Some(id) && cell_position(cells, id, 0) is Some;
            if present && (noted_id == turn_id || noted_id is None) {
                (noted, turn_id)
            } else {
                (Some(cells[user].id), turn_id)
            }
        },
    }
}

/// Finds the last cell that shows anything.
fn find_tail<L: Copy>(cells: &Vec<TranscriptCell<L>>) -> (r: Option<RenderedHistoryTail<L>>)
    ensures
        is_tail_of(r, cells@),
{
    let mut i: usize = cells.len();
    assert(cells@.take(i as int) =~= cells@);
    while i > 0
        invariant
            i <= cells@.len(),
            forall|tail: Option<RenderedHistoryTail<L>>|
                is_tail_of(tail, cells@) == #[trigger] is_tail_of(tail, cells@.take(i as int)),
        decreases i,
    {
        assert(cells@.take(i as int).drop_last() =~= cells@.take(i - 1));
        if cells[i - 1].lines.len() > 0 {
            let mut lines: Vec<L> = Vec::new();
            extend_lines(&mut lines, &cells[i - 1].lines);
            let tail = Some(RenderedHistoryTail { cell: cells[i - 1].id, lines });
            assert(is_tail_of(tail, cells@.take(i as int)));
            return tail;
        }
        assert forall|tail: Option<RenderedHistoryTail<L>>|
            is_tail_of(tail, cells@) == #[trigger] is_tail_of(tail, cells@.take(i - 1)) by {
            assert(is_tail_of(tail, cells@) == is_tail_of(tail, cells@.take(i as int)));
        }
        i = i - 1;
    }
    assert(is_tail_of(None::<RenderedHistoryTail<L>>, cells@.take(0)));
    None
}

/// Whether a user cell stands before a position.
fn any_user_before<L>(cells: &Vec<TranscriptCell<L>>, end: usize) -> (r: bool)
    requires
        end <= cells@.len(),
    ensures
        r == has_user(cells@.take(end as int)),
{
    let mut i: usize = 0;
    while i < end
        invariant
            i <= end <= cells@.len(),
            forall|j: int| 0 <= j < i ==> (#[trigger] cells@[j]).kind != CellKind::User,
        decreases end - i,
    {
        if cells[i].kind == CellKind::User {
            assert(cells@.take(end as int)[i as int].kind == CellKind::User);
            return true;
        }
        i = i + 1;
    }
    false
}

proof fn lemma_head_count_concat<L>(a: Seq<TranscriptCell<L>>, b: Seq<TranscriptCell<L>>)
    ensures
        head_count(a + b) == head_count(a) + head_count(b),
    decreases b.len(),
{
    if b.len() == 0 {
        assert(a + b =~= a);
    } else {
        lemma_head_count_concat(a, b.drop_last());
        assert((a + b).drop_last() =~= a + b.drop_last());
    }
}

/// A part of a history never takes more rows than the whole.
proof fn lemma_rows_of_suffix<L>(cells: Seq<TranscriptCell<L>>, from: int)
    requires
        0 <= from <= cells.len(),
    ensures
        row_count(cells.skip(from)) <= row_count(cells),
{
    assert(cells =~= cells.take(from) + cells.skip(from));
    lemma_line_count_concat(cells.take(from), cells.skip(from));
    lemma_head_count_concat(cells.take(from), cells.skip(from));
}

/// A further message of a turn does not move its start, and neither does the identifier that a turn
/// gets later.
pub proof fn law_turn_start_stays<L>(
    cells: Seq<TranscriptCell<L>>,
    noted: u64,
    noted_id: Option<Seq<char>>,
    turn_id: Option<Seq<char>>,
)
    requires
        cell_position(cells, noted, 0) is Some,
        noted_id == turn_id || noted_id is None,
    ensures
        marked_turn(cells, Some(noted), noted_id, turn_id).0 == Some(noted),
{
}

/// The first cell of the run of streamed cells at the end, or the end if there is none.
pub open spec fn run_start<L>(cells: Seq<TranscriptCell<L>>, kind: CellKind, from: nat) -> nat
    decreases from,
{
    if from == 0 || from > cells.len() || cells[from - 1].kind != kind {
        from
    } else if cells[from - 1].is_stream_continuation {
        run_start(cells, kind, (from - 1) as nat)
    } else {
        (from - 1) as nat
    }
}

/// Finds the run of streamed cells at the end: continuations and the cell that they continue.
pub fn trailing_run_start<L>(cells: &Vec<TranscriptCell<L>>, kind: CellKind) -> (r: usize)
    ensures
        r == run_start(cells@, kind, cells@.len()),
        r <= cells@.len(),
        r < cells@.len() <==> cells@.len() > 0 && cells@.last().kind == kind,
{
    let mut start: usize = cells.len();
    while start > 0 && cells[start - 1].is_stream_continuation && cells[start - 1].kind == kind
        invariant
            start <= cells@.len(),
            run_start(cells@, kind, cells@.len()) == run_start(cells@, kind, start as nat),
            start < cells@.len() ==> cells@.last().kind == kind,
        decreases start,
    {
        start = start - 1;
    }
    if start > 0 && cells[start - 1].kind == kind && !cells[start - 1].is_stream_continuation {
        start = start - 1;
    }
    start
}

/// Whether a stream is active, or its cells are not yet replaced.
pub open spec fn streams<L>(
    cells: Seq<TranscriptCell<L>>,
    agent_stream: bool,
    plan_stream: bool,
) -> bool {
    agent_stream || plan_stream || (cells.len() > 0 && (cells.last().kind == CellKind::AgentMessage
        || cells.last().kind == CellKind::ProposedPlanStream))
}

/// Whether a resize now falls into a stream.
pub fn should_mark_reflow_as_stream_time<L>(
    cells: &Vec<TranscriptCell<L>>,
    agent_stream: bool,
    plan_stream: bool,
) -> (r: bool)
    ensures
        r == streams(cells@, agent_stream, plan_stream),
{
    agent_stream || plan_stream || trailing_run_start(cells, CellKind::AgentMessage) < cells.len()
        || trailing_run_start(cells, CellKind::ProposedPlanStream) < cells.len()
}

/// Whether the last thing that the user said stands at a position.
pub open spec fn is_last_user<L>(cells: Seq<TranscriptCell<L>>, at: int) -> bool {
    &&& 0 <= at < cells.len()
    &&& cells[at].kind == CellKind::User
    &&& forall|i: int| at < i < cells.len() ==> (#[trigger] cells[i]).kind != CellKind::User
}

/// Whether the first cell with an identity stands at a position.
pub open spec fn is_first_with<L>(cells: Seq<TranscriptCell<L>>, id: u64, at: int) -> bool {
    &&& 0 <= at < cells.len()
    &&& cells[at].id == id
    &&& forall|i: int| 0 <= i < at ==> (#[trigger] cells[i]).id != id
}

/// Whether no cell has an identity.
pub open spec fn none_with<L>(cells: Seq<TranscriptCell<L>>, id: u64) -> bool {
    forall|i: int| 0 <= i < cells.len() ==> (#[trigger] cells[i]).id != id
}

proof fn lemma_last_user_is<L>(cells: Seq<TranscriptCell<L>>, at: int)
    requires
        is_last_user(cells, at),
    ensures
        last_user(cells) == Some(at),
    decreases cells.len(),
{
    if at < cells.len() - 1 {
        assert(cells[cells.len() - 1].kind != CellKind::User);
        let rest = cells.drop_last();
        assert forall|i: int| at < i < rest.len() implies (#[trigger] rest[i]).kind
            != CellKind::User by {
            assert(cells[i].kind != CellKind::User);
        }
        lemma_last_user_is(rest, at);
    }
}

proof fn lemma_no_last_user<L>(cells: Seq<TranscriptCell<L>>)
    requires
        forall|i: int| 0 <= i < cells.len() ==> (#[trigger] cells[i]).kind != CellKind::User,
    ensures
        last_user(cells) is None,
    decreases cells.len(),
{
    if cells.len() > 0 {
        assert(cells[cells.len() - 1].kind != CellKind::User);
        let rest = cells.drop_last();
        assert forall|i: int| 0 <= i < rest.len() implies (#[trigger] rest[i]).kind
            != CellKind::User by {
            assert(cells[i].kind != CellKind::User);
        }
        lemma_no_last_user(rest);
    }
}

proof fn lemma_position_is<L>(cells: Seq<TranscriptCell<L>>, id: u64, at: int, from: int)
    requires
        is_first_with(cells, id, at),
        0 <= from <= at,
    ensures
        cell_position(cells, id, from) == Some(at),
    decreases at - from,
{
    if from < at {
        assert(cells[from].id != id);
        lemma_position_is(cells, id, at, from + 1);
    }
}

proof fn lemma_no_position<L>(cells: Seq<TranscriptCell<L>>, id: u64, from: int)
    requires
        none_with(cells, id),
        0 <= from,
    ensures
        cell_position(cells, id, from) is None,
    decreases cells.len() - from,
{
    if from < cells.len() {
        assert(cells[from].id != id);
        lemma_no_position(cells, id, from + 1);
    }
}

/// When the last thing that the user said is marked for another turn than the noted one, that turn
/// starts there.
pub proof fn law_new_turn_moves_the_start<L>(
    cells: Seq<TranscriptCell<L>>,
    noted: Option<u64>,
    noted_id: Option<Seq<char>>,
    turn_id: Option<Seq<char>>,
    user: int,
)
    requires
        is_last_user(cells, user),
        noted_id is Some,
        turn_id != noted_id,
    ensures
        marked_turn(cells, noted, noted_id, turn_id).0 == Some(cells[user].id),
        marked_turn(cells, noted, noted_id, turn_id).1 == turn_id,
{
    lemma_last_user_is(cells, user);
}

/// Where no start is noted, or the noted cell is gone, the turn starts at the last thing that the user
/// said.
pub proof fn law_lost_start_is_found_anew<L>(
    cells: Seq<TranscriptCell<L>>,
    noted: Option<u64>,
    noted_id: Option<Seq<char>>,
    turn_id: Option<Seq<char>>,
    user: int,
)
    requires
        is_last_user(cells, user),
        noted matches Some(id) ==> none_with(cells, id),
    ensures
        marked_turn(cells, noted, noted_id, turn_id).0 == Some(cells[user].id),
        marked_turn(cells, noted, noted_id, turn_id).1 == turn_id,
{
    lemma_last_user_is(cells, user);
    if let Some(id) = noted {
        lemma_no_position(cells, id, 0);
    }
}

/// A further message of the noted turn, and an identifier that the noted turn gets later, leave the
/// start where it is and note the identifier.
pub proof fn law_same_turn_keeps_the_start<L>(
    cells: Seq<TranscriptCell<L>>,
    noted: u64,
    at: int,
    noted_id: Option<Seq<char>>,
    turn_id: Option<Seq<char>>,
    user: int,
)
    requires
        is_last_user(cells, user),
        is_first_with(cells, noted, at),
        noted_id == turn_id || noted_id is None,
    ensures
        marked_turn(cells, Some(noted), noted_id, turn_id).0 == Some(noted),
        marked_turn(cells, Some(noted), noted_id, turn_id).1 == turn_id,
{
    lemma_last_user_is(cells, user);
    lemma_position_is(cells, noted, at, 0);
}

/// Where the user said nothing, nothing is marked.
pub proof fn law_nothing_is_marked_without_a_user<L>(
    cells: Seq<TranscriptCell<L>>,
    noted: Option<u64>,
    noted_id: Option<Seq<char>>,
    turn_id: Option<Seq<char>>,
)
    requires
        forall|i: int| 0 <= i < cells.len() ==> (#[trigger] cells[i]).kind != CellKind::User,
    ensures
        marked_turn(cells, noted, noted_id, turn_id) == (noted, noted_id),
{
    lemma_no_last_user(cells);
}

/// The latest turn starts at its noted cell. Without one it starts at the last thing that the user
/// said; where the user said nothing there is no turn.
pub proof fn law_turn_starts_where_it_is_noted<L>(
    cells: Seq<TranscriptCell<L>>,
    noted: Option<u64>,
    at: int,
)
    ensures
        noted matches Some(id) && is_first_with(cells, id, at) ==> turn_start_index(cells, noted)
            == Some(at),
        (noted matches Some(id) ==> none_with(cells, id)) && is_last_user(cells, at)
            ==> turn_start_index(cells, noted) == Some(at),
        (noted matches Some(id) ==> none_with(cells, id)) && (forall|i: int|
            0 <= i < cells.len() ==> (#[trigger] cells[i]).kind != CellKind::User)
            ==> turn_start_index(cells, noted) is None,
{
    if let Some(id) = noted {
        if is_first_with(cells, id, at) {
            lemma_position_is(cells, id, at, 0);
        }
        if none_with(cells, id) {
            lemma_no_position(cells, id, 0);
        }
    }
    if is_last_user(cells, at) {
        lemma_last_user_is(cells, at);
    }
    if forall|i: int| 0 <= i < cells.len() ==> (#[trigger] cells[i]).kind != CellKind::User {
        lemma_no_last_user(cells);
    }
}

/// After a new turn was marked, a rebuild shows that turn from its first message on and nothing before
/// it. The notice stands above it exactly if the user said something earlier or older history is not
/// loaded.
pub proof fn law_rebuild_shows_the_new_turn_alone<L>(
    cells: Seq<TranscriptCell<L>>,
    noted: Option<u64>,
    noted_id: Option<Seq<char>>,
    turn_id: Option<Seq<char>>,
    user: int,
    has_older: bool,
    cap: Option<usize>,
    blank: L,
    notice: Seq<L>,
)
    requires
        is_last_user(cells, user),
        is_first_with(cells, cells[user].id, user),
        noted_id is Some,
        turn_id != noted_id,
        cells[user].lines@.len() > 0,
    ensures
        ({
            let start = marked_turn(cells, noted, noted_id, turn_id).0;
            let turn = laid_out(cells.skip(user), blank);
            let earlier = exists|i: int|
                0 <= i < user && (#[trigger] cells[i]).kind == CellKind::User;
            let shown = reflowed(cells, start, has_older, cap, blank, Some(notice));
            &&& earlier || has_older ==> shown == notice + turn
            &&& !earlier && !has_older ==> shown == turn
            &&& reflowed(cells, start, has_older, cap, blank, None) == turn
        }),
{
    law_new_turn_moves_the_start(cells, noted, noted_id, turn_id, user);
    lemma_position_is(cells, cells[user].id, user, 0);
    lemma_head_shows(cells.skip(user), blank);
    let before = cells.take(user);
    if has_user(before) {
        let i = choose|i: int| 0 <= i < before.len() && (#[trigger] before[i]).kind
            == CellKind::User;
        assert(cells[i].kind == CellKind::User);
    }
    if exists|i: int| 0 <= i < user && (#[trigger] cells[i]).kind == CellKind::User {
        let i = choose|i: int| 0 <= i < user && (#[trigger] cells[i]).kind == CellKind::User;
        assert(before[i].kind == CellKind::User);
    }
}

/// Cells of which the first shows something show something.
proof fn lemma_head_shows<L>(cells: Seq<TranscriptCell<L>>, blank: L)
    requires
        cells.len() > 0,
        cells[0].lines@.len() > 0,
    ensures
        laid_out(cells, blank).len() > 0,
    decreases cells.len(),
{
    if cells.len() > 1 {
        lemma_head_shows(cells.drop_last(), blank);
    }
}

/// A rebuild of a turn shows the turn, and above it the notice exactly if there is one, the turn shows
/// anything, and something before the turn is left out.
pub proof fn law_notice_says_that_turns_are_left_out<L>(
    cells: Seq<TranscriptCell<L>>,
    noted: Option<u64>,
    has_older: bool,
    cap: Option<usize>,
    blank: L,
    notice: Seq<L>,
)
    requires
        turn_start_index(cells, noted) is Some,
        laid_out(cells.skip(turn_start_index(cells, noted).unwrap()), blank).len() > 0,
    ensures
        ({
            let start = turn_start_index(cells, noted).unwrap();
            let turn = laid_out(cells.skip(start), blank);
            let shown = reflowed(cells, noted, has_older, cap, blank, Some(notice));
            &&& has_older ==> shown == notice + turn
            &&& (exists|i: int| 0 <= i < start && (#[trigger] cells[i]).kind == CellKind::User)
                ==> shown == notice + turn
            &&& !has_older && (forall|i: int|
                0 <= i < start ==> (#[trigger] cells[i]).kind != CellKind::User) ==> shown == turn
        }),
{
    lemma_turn_start_index(cells, noted);
    let start = turn_start_index(cells, noted).unwrap();
    let before = cells.take(start);
    if exists|i: int| 0 <= i < start && (#[trigger] cells[i]).kind == CellKind::User {
        let i = choose|i: int| 0 <= i < start && (#[trigger] cells[i]).kind == CellKind::User;
        assert(before[i].kind == CellKind::User);
    }
    if has_user(before) {
        let i = choose|i: int| 0 <= i < before.len() && (#[trigger] before[i]).kind
            == CellKind::User;
        assert(cells[i].kind == CellKind::User);
    }
}

/// Each cell adds its lines below those of the cells before it. A blank line stands between them
/// exactly if both the cell and one before it show a block of their own.
pub proof fn law_cells_are_laid_out_in_order<L>(
    cells: Seq<TranscriptCell<L>>,
    cell: TranscriptCell<L>,
    blank: L,
)
    ensures
        laid_out(Seq::<TranscriptCell<L>>::empty(), blank).len() == 0,
        ({
            let block = cell.lines@.len() > 0 && !cell.is_stream_continuation;
            let earlier = exists|i: int|
                0 <= i < cells.len() && (#[trigger] cells[i]).lines@.len() > 0
                    && !cells[i].is_stream_continuation;
            &&& block && earlier ==> laid_out(cells.push(cell), blank) == laid_out(cells, blank)
                + seq![blank] + cell.lines@
            &&& !(block && earlier) ==> laid_out(cells.push(cell), blank) == laid_out(cells, blank)
                + cell.lines@
        }),
{
    assert(cells.push(cell).drop_last() =~= cells);
    lemma_heads_exist(cells);
    let before = laid_out(cells, blank);
    assert(before.push(blank) + cell.lines@ =~= before + seq![blank] + cell.lines@);
}

proof fn lemma_heads_exist<L>(cells: Seq<TranscriptCell<L>>)
    ensures
        head_count(cells) > 0 <==> exists|i: int|
            0 <= i < cells.len() && (#[trigger] cells[i]).lines@.len() > 0
                && !cells[i].is_stream_continuation,
    decreases cells.len(),
{
    if cells.len() > 0 {
        let rest = cells.drop_last();
        lemma_heads_exist(rest);
        if exists|i: int|
            0 <= i < cells.len() && (#[trigger] cells[i]).lines@.len() > 0
                && !cells[i].is_stream_continuation {
            let i = choose|i: int|
                0 <= i < cells.len() && (#[trigger] cells[i]).lines@.len() > 0
                    && !cells[i].is_stream_continuation;
            if i < rest.len() {
                assert(rest[i].lines@.len() > 0);
            }
        }
        if head_count(rest) > 0 {
            let i = choose|i: int|
                0 <= i < rest.len() && (#[trigger] rest[i]).lines@.len() > 0
                    && !rest[i].is_stream_continuation;
            assert(cells[i].lines@.len() > 0);
        }
        if is_head(cells.last()) {
            assert(cells[cells.len() - 1].lines@.len() > 0);
        }
    }
}

/// What a new cell adds below a history that was written is what a rebuild of both adds.
pub proof fn law_inserted_cell_matches_a_rebuild<L>(
    cells: Seq<TranscriptCell<L>>,
    cell: TranscriptCell<L>,
    blank: L,
)
    ensures
        laid_out(cells.push(cell), blank) == laid_out(cells, blank) + inserted_lines(
            cell,
            exists|i: int|
                0 <= i < cells.len() && (#[trigger] cells[i]).lines@.len() > 0
                    && !cells[i].is_stream_continuation,
            blank,
        ),
{
    law_cells_are_laid_out_in_order(cells, cell, blank);
    let before = laid_out(cells, blank);
    assert(before + seq![blank] + cell.lines@ =~= before + (seq![blank] + cell.lines@));
}

/// What is noted as the end of the terminal is the last cell that shows anything, with its lines, or
/// nothing where no cell shows anything.
pub proof fn law_tail_is_the_last_visible_cell<L>(
    tail: Option<RenderedHistoryTail<L>>,
    cells: Seq<TranscriptCell<L>>,
)
    requires
        is_tail_of(tail, cells),
    ensures
        tail matches Some(tail) ==> exists|i: int|
            0 <= i < cells.len() && (#[trigger] cells[i]).id == tail.cell && cells[i].lines@
                == tail.lines@ && tail.lines@.len() > 0 && forall|j: int|
                i < j < cells.len() ==> (#[trigger] cells[j]).lines@.len() == 0,
        tail is None ==> forall|i: int|
            0 <= i < cells.len() ==> (#[trigger] cells[i]).lines@.len() == 0,
    decreases cells.len(),
{
    if cells.len() > 0 {
        if cells.last().lines@.len() > 0 {
            let i = cells.len() - 1;
            assert(cells[i].id == tail.unwrap().cell);
        } else {
            let rest = cells.drop_last();
            law_tail_is_the_last_visible_cell(tail, rest);
            if let Some(tail) = tail {
                let i = choose|i: int|
                    0 <= i < rest.len() && (#[trigger] rest[i]).id == tail.cell && rest[i].lines@
                        == tail.lines@ && tail.lines@.len() > 0 && forall|j: int|
                        i < j < rest.len() ==> (#[trigger] rest[j]).lines@.len() == 0;
                assert(cells[i].id == tail.cell);
                assert forall|j: int| i < j < cells.len() implies (
                #[trigger] cells[j]).lines@.len() == 0 by {
                    if j < rest.len() {
                        assert(rest[j].lines@.len() == 0);
                    }
                }
            } else {
                assert forall|i: int| 0 <= i < cells.len() implies (
                #[trigger] cells[i]).lines@.len() == 0 by {
                    if i < rest.len() {
                        assert(rest[i].lines@.len() == 0);
                    }
                }
            }
        }
    }
}

proof fn lemma_nothing_exceeds<L>(cells: Seq<TranscriptCell<L>>, cap: usize, from: nat)
    requires
        from <= cells.len(),
        line_count(cells) <= cap,
    ensures
        capped_start(cells, Some(cap), from) == 0,
        !exceeds(cells, Some(cap), 0),
    decreases from,
{
    assert(cells.skip(0) =~= cells);
    if from > 0 {
        let k = from - 1;
        assert(cells =~= cells.take(k) + cells.skip(k));
        lemma_line_count_concat(cells.take(k), cells.skip(k));
        lemma_nothing_exceeds(cells, cap, k as nat);
    }
}

proof fn lemma_something_exceeds<L>(cells: Seq<TranscriptCell<L>>, cap: usize, from: nat)
    requires
        from <= cells.len(),
        line_count(cells) > cap,
        line_count(cells.skip(from as int)) <= cap,
    ensures
        exceeds(cells, Some(cap), capped_start(cells, Some(cap), from)),
    decreases from,
{
    if from == 0 {
        assert(cells.skip(0) =~= cells);
    } else if !exceeds(cells, Some(cap), (from - 1) as nat) {
        lemma_something_exceeds(cells, cap, (from - 1) as nat);
    }
}

/// A history without turns that fits under the cap is shown whole and without a notice, as long as no
/// older history is left to load.
pub proof fn law_small_history_is_shown_whole<L>(
    cells: Seq<TranscriptCell<L>>,
    noted: Option<u64>,
    cap: usize,
    blank: L,
    notice: Option<Seq<L>>,
)
    requires
        turn_start_index(cells, noted) is None,
        row_count(cells) <= cap,
    ensures
        reflowed(cells, noted, false, Some(cap), blank, notice) == laid_out(cells, blank),
{
    law_rows_are_counted(cells, blank);
    assert(line_count(cells) <= cap);
    lemma_nothing_exceeds(cells, cap, cells.len());
    assert(cells.skip(0) =~= cells);
}

/// A history without turns that does not fit under the cap fills it: its newest rows stand below the
/// notice, which says that some are left out.
pub proof fn law_large_history_fills_the_cap<L>(
    cells: Seq<TranscriptCell<L>>,
    noted: Option<u64>,
    has_older: bool,
    cap: usize,
    blank: L,
    notice: Seq<L>,
)
    requires
        turn_start_index(cells, noted) is None,
        row_count(cells) > cap,
        cap > notice.len(),
    ensures
        ({
            let shown = reflowed(cells, noted, has_older, Some(cap), blank, Some(notice));
            &&& shown.len() == cap
            &&& shown.take(notice.len() as int) == notice
            &&& cells.last().lines@.len() <= cap - notice.len() ==> shown.skip(
                shown.len() - cells.last().lines@.len(),
            ) == cells.last().lines@
        }),
{
    let first = capped_start(cells, Some(cap), cells.len());
    lemma_capped_start_in(cells, cap, cells.len());
    let start = stream_start(cells, first);
    lemma_stream_start_in(cells, first);
    let rest = cells.skip(start as int);
    let lines = laid_out(rest, blank);
    law_rows_are_counted(rest, blank);
    assert(cells.skip(cells.len() as int) =~= Seq::empty());
    if line_count(cells) > cap {
        lemma_something_exceeds(cells, cap, cells.len());
        let from_first = cells.skip(first as int);
        assert(rest =~= cells.subrange(start as int, first as int) + from_first);
        lemma_line_count_concat(cells.subrange(start as int, first as int), from_first);
    } else {
        lemma_nothing_exceeds(cells, cap, cells.len());
        assert(cells.skip(0) =~= cells);
    }
    assert(lines.len() > cap);
    let kept = last_rows(last_rows(lines, cap as nat), (cap - notice.len()) as nat);
    let shown = reflowed(cells, noted, has_older, Some(cap), blank, Some(notice));
    assert(shown == notice + kept);
    assert(shown.take(notice.len() as int) =~= notice);
    assert(kept =~= lines.skip(lines.len() - (cap - notice.len())));
    let last = cells.last().lines@;
    assert(rest.len() > 0) by {
        if rest.len() == 0 {
            assert(lines.len() == 0);
        }
    }
    assert(rest.last() == cells.last());
    assert(lines.skip(lines.len() - last.len()) =~= last);
    if last.len() <= cap - notice.len() {
        assert(shown.skip(shown.len() - last.len()) =~= last);
    }
}

proof fn lemma_capped_start_in<L>(cells: Seq<TranscriptCell<L>>, cap: usize, from: nat)
    requires
        from <= cells.len(),
    ensures
        capped_start(cells, Some(cap), from) <= from,
    decreases from,
{
    if from > 0 {
        lemma_capped_start_in(cells, cap, (from - 1) as nat);
    }
}

proof fn lemma_stream_start_in<L>(cells: Seq<TranscriptCell<L>>, from: nat)
    requires
        from <= cells.len(),
    ensures
        stream_start(cells, from) <= from,
    decreases from,
{
    if from > 0 && from < cells.len() && cells[from as int].is_stream_continuation {
        lemma_stream_start_in(cells, (from - 1) as nat);
    }
}

/// The run of streamed cells at the end holds cells of its kind only, of which all but the first
/// continue the one before, and it could not start earlier.
pub proof fn law_trailing_run_is_one_stream<L>(cells: Seq<TranscriptCell<L>>, kind: CellKind)
    ensures
        ({
            let start = run_start(cells, kind, cells.len());
            &&& start <= cells.len()
            &&& forall|i: int|
                start <= i < cells.len() ==> (#[trigger] cells[i]).kind == kind && (i > start
                    ==> cells[i].is_stream_continuation)
            &&& start > 0 && start < cells.len() && cells[start as int].is_stream_continuation
                ==> cells[start - 1].kind != kind
            &&& start == cells.len() && cells.len() > 0 ==> cells.last().kind != kind
        }),
{
    lemma_run(cells, kind, cells.len());
}

proof fn lemma_run<L>(cells: Seq<TranscriptCell<L>>, kind: CellKind, from: nat)
    requires
        from <= cells.len(),
        forall|i: int|
            from <= i < cells.len() ==> (#[trigger] cells[i]).kind == kind
                && cells[i].is_stream_continuation,
    ensures
        ({
            let start = run_start(cells, kind, from);
            &&& start <= from
            &&& forall|i: int|
                start <= i < cells.len() ==> (#[trigger] cells[i]).kind == kind && (i > start
                    ==> cells[i].is_stream_continuation)
            &&& start > 0 && start < cells.len() && cells[start as int].is_stream_continuation
                ==> cells[start - 1].kind != kind
            &&& start == cells.len() && cells.len() > 0 ==> cells.last().kind != kind
        }),
    decreases from,
{
    if from > 0 && cells[from - 1].kind == kind && cells[from - 1].is_stream_continuation {
        lemma_run(cells, kind, (from - 1) as nat);
    }
}

/// A resize falls into a stream while one is active, and after it while the last cell is still a piece of
/// one.
pub proof fn law_stream_lasts_until_its_cells_are_replaced<L>(
    cells: Seq<TranscriptCell<L>>,
    agent_stream: bool,
    plan_stream: bool,
)
    ensures
        agent_stream || plan_stream ==> streams(cells, agent_stream, plan_stream),
        !agent_stream && !plan_stream && cells.len() == 0 ==> !streams(
            cells,
            agent_stream,
            plan_stream,
        ),
        !agent_stream && !plan_stream && cells.len() > 0 ==> (streams(
            cells,
            agent_stream,
            plan_stream,
        ) <==> cells[cells.len() - 1].kind == CellKind::AgentMessage || cells[cells.len()
            - 1].kind == CellKind::ProposedPlanStream),
{
}

/// Where two histories differ in their latest turn at most, all else of them is the same: the cells, what was
/// shown of them and what waits to be shown.
pub proof fn law_marking_a_turn_changes_the_turn_alone<L: Copy>(
    before: TranscriptState<L>,
    after: TranscriptState<L>,
)
    requires
        after.same_but_for_turn(before),
    ensures
        after.cells == before.cells,
        after.has_emitted_lines == before.has_emitted_lines,
        after.has_older_history == before.has_older_history,
        after.deferred_lines == before.deferred_lines,
        after.rendered_tail == before.rendered_tail,
        after.replaying == before.replaying,
        after.usage_refresh_waits == before.usage_refresh_waits,
        after.latest_turn_start == before.latest_turn_start && after.latest_turn_id
            == before.latest_turn_id ==> after == before,
{
}

/// Histories of the same source show the same after a rebuild, at any cap and with any notice.
pub proof fn law_same_source_shows_the_same<L: Copy>(
    a: TranscriptState<L>,
    b: TranscriptState<L>,
    cap: Option<usize>,
    blank: L,
    notice: Option<Seq<L>>,
)
    requires
        a.same_source(b),
    ensures
        a.cells == b.cells,
        a.latest_turn_start == b.latest_turn_start,
        a.latest_turn_id == b.latest_turn_id,
        a.has_older_history == b.has_older_history,
        a.rebuilt(cap, blank, notice) == b.rebuilt(cap, blank, notice),
        a.rebuilt(cap, blank, notice) == reflowed(
            b.cells@,
            b.latest_turn_start,
            b.has_older_history,
            cap,
            blank,
            notice,
        ),
{
}

/// After a rebuild nothing waits: the lines that waited are shown, the usage is fresh, and that something was
/// shown is noted exactly if there were lines. Below an overlay no tail is known.
pub proof fn law_rebuild_leaves_nothing_to_show<L: Copy>(
    before: TranscriptState<L>,
    after: TranscriptState<L>,
    lines: Seq<L>,
    has_overlay: bool,
)
    requires
        after.rebuilt_from(before, lines, has_overlay),
    ensures
        after.deferred_lines@.len() == 0,
        !after.usage_refresh_waits,
        after.has_emitted_lines <==> lines.len() > 0,
        has_overlay ==> after.rendered_tail is None,
        !has_overlay ==> is_tail_of(after.rendered_tail, before.cells@),
{
}

/// A history that was reset knows of nothing that was shown and of no turn.
pub proof fn law_reset_history_has_no_turn<L: Copy>(state: TranscriptState<L>)
    requires
        state.is_reset(),
    ensures
        !state.has_emitted_lines,
        state.deferred_lines@.len() == 0,
        state.rendered_tail is None,
        state.latest_turn_start is None,
        state.latest_turn_id is None,
{
}

} // verus!
