//! Pieces of the terminal presentation that are pure text.
use vstd::prelude::*;

verus! {

/// Width of the progress bar in cells.
pub const BAR_LENGTH: usize = 25;

/// Number of filled cells for a percentage.
pub open spec fn filled_cells(progress: u32) -> int {
    (progress as int * 25) / 100
}

/// The bar: `BAR_LENGTH` cells, the first `filled_cells` of them full.
pub open spec fn progress_bar(progress: u32) -> Seq<char> {
    Seq::new(25, |i: int| if i < filled_cells(progress) { '█' } else { '░' })
}

/// Terminal presentation helpers.
pub struct TerminalUI;

impl TerminalUI {
    /// A text progress bar for a percentage.
    pub fn create_progress_bar(progress: u32) -> (r: String)
        ensures
            r@ == progress_bar(progress),
    {
        proof {
            reveal_strlit("█");
            reveal_strlit("░");
        }
        assert("█"@ =~= seq!['█']);
        assert("░"@ =~= seq!['░']);
        let completed: u64 = (progress as u64) * 25 / 100;
        let mut bar = String::new();
        let mut i: usize = 0;
        while i < BAR_LENGTH
            invariant
                i <= 25,
                "█"@ == seq!['█'],
                "░"@ == seq!['░'],
                completed == filled_cells(progress),
                bar@ == progress_bar(progress).take(i as int),
            decreases 25 - i,
        {
            let ghost before = bar@;
            assert(progress_bar(progress)[i as int] == if (i as int) < filled_cells(progress) {
                '█'
            } else {
                '░'
            });
            if (i as u64) < completed {
                bar.append("█");
            } else {
                bar.append("░");
            }
            assert(bar@ =~= before.push(progress_bar(progress)[i as int]));
            assert(bar@ =~= progress_bar(progress).take(i + 1));
            i = i + 1;
        }
        assert(progress_bar(progress).take(25) =~= progress_bar(progress));
        bar
    }
}

} // verus!
