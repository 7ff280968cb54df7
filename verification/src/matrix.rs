//! The activation matrix: a 5 x 15 grid of switch contact states, produced
//! fresh by every scan sweep, plus the "any key active" flag.

use vstd::prelude::*;

verus! {

/// A snapshot of the key matrix: `true` means the switch at that cell is
/// currently closed.  Row-major, 5 rows of 15 columns.
#[derive(Clone, Copy, Debug)]
pub struct ActivationMatrix {
    pub cells: [[bool; 15]; 5],
}

impl ActivationMatrix {
    /// Whether the switch at (`r`, `c`) is closed.
    pub open spec fn active(self, r: int, c: int) -> bool
        recommends
            0 <= r < 5,
            0 <= c < 15,
    {
        self.cells[r][c]
    }

    /// Whether any switch at all is closed.
    pub open spec fn spec_any_active(self) -> bool {
        exists|r: int, c: int| 0 <= r < 5 && 0 <= c < 15 && self.active(r, c)
    }

    /// A matrix with every switch open.
    pub fn empty() -> (m: ActivationMatrix)
        ensures
            forall|r: int, c: int| 0 <= r < 5 && 0 <= c < 15 ==> !m.active(r, c),
            !m.spec_any_active(),
    {
        let m = ActivationMatrix { cells: [[false; 15]; 5] };
        assert forall|r: int, c: int| 0 <= r < 5 && 0 <= c < 15 implies !m.active(r, c) by {}
        m
    }

    /// Read one cell.
    pub fn get(&self, r: usize, c: usize) -> (b: bool)
        requires
            r < 5,
            c < 15,
        ensures
            b == self.active(r as int, c as int),
    {
        self.cells[r][c]
    }

    /// Whether any switch at all is closed.
    pub fn any_active(&self) -> (b: bool)
        ensures
            b == self.spec_any_active(),
    {
        let mut found = false;
        let mut r: usize = 0;
        while r < 5
            invariant
                r <= 5,
                found ==> self.spec_any_active(),
                !found ==> forall|i: int, j: int| 0 <= i < r && 0 <= j < 15 ==> !self.active(i, j),
            decreases 5 - r,
        {
            let mut c: usize = 0;
            while c < 15
                invariant
                    r < 5,
                    c <= 15,
                    found ==> self.spec_any_active(),
                    !found ==> forall|i: int, j: int| 0 <= i < r && 0 <= j < 15
                        ==> !self.active(i, j),
                    !found ==> forall|j: int| 0 <= j < c ==> !self.active(r as int, j),
                decreases 15 - c,
            {
                if self.get(r, c) {
                    found = true;
                }
                c += 1;
            }
            r += 1;
        }
        found
    }
}

/// The compute half of the matrix scanner.  The hardware sweep drives each
/// row in turn and samples every column level while that row is active;
/// `scan` turns those samples (`true` = column read active) into the
/// activation matrix and the "any key active" flag.
pub fn scan(samples: &[[bool; 15]; 5]) -> (r: (ActivationMatrix, bool))
    ensures
        r.0.cells == *samples,
        r.1 == r.0.spec_any_active(),
{
    let m = ActivationMatrix { cells: *samples };
    let any = m.any_active();
    (m, any)
}

/// Scanning is idempotent: the matrix and flag are a function of the sampled
/// column levels alone, so two sweeps over unchanged hardware state yield
/// identical results.
pub proof fn lemma_scan_idempotent(
    samples: [[bool; 15]; 5],
    m1: ActivationMatrix,
    a1: bool,
    m2: ActivationMatrix,
    a2: bool,
)
    requires
        m1.cells == samples,
        a1 == m1.spec_any_active(),
        m2.cells == samples,
        a2 == m2.spec_any_active(),
    ensures
        m1 == m2,
        a1 == a2,
{
}

} // verus!
