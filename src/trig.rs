use vstd::prelude::*;

use crate::fixed::ONE;

verus! {

/// Number of entries of a quarter-wave table: one per whole degree from 0 to 90.
pub const QUARTER_LEN: usize = 91;

/// Sine of `d` whole degrees, read from the quarter-wave table `q` by the
/// symmetries of the sine curve.
pub open spec fn sin_deg(q: Seq<i64>, d: int) -> int {
    let a = d % 360;
    if a <= 90 {
        q[a] as int
    } else if a <= 180 {
        q[180 - a] as int
    } else if a <= 270 {
        -q[a - 180]
    } else {
        -q[360 - a]
    }
}

/// Cosine of `d` whole degrees: the sine a quarter turn further on.
pub open spec fn cos_deg(q: Seq<i64>, d: int) -> int {
    sin_deg(q, d + 90)
}

/// Why a sine table was refused.
#[derive(Clone, Copy, Debug, PartialEq, Eq, Structural)]
pub enum TableError {
    /// The table does not hold exactly one entry per degree from 0 to 90.
    WrongLength,
    /// The entry for 0 degrees is not zero, or the one for 90 degrees is not one.
    EndpointMismatch,
    /// An entry lies outside the range from zero to one.
    OutOfRange,
}

/// Every entry lies between zero and one.
pub open spec fn entries_in_unit_range(q: Seq<i64>) -> bool {
    forall|i: int| 0 <= i < q.len() ==> 0 <= #[trigger] q[i] <= ONE
}

/// Fixed-point sines of the whole degrees from 0 to 90.
#[derive(Clone, Debug)]
pub struct SineTable {
    pub quarter: Vec<i64>,
}

impl SineTable {
    pub open spec fn wf(&self) -> bool {
        &&& self.quarter@.len() == QUARTER_LEN
        &&& self.quarter@[0] == 0
        &&& self.quarter@[90] == ONE
        &&& entries_in_unit_range(self.quarter@)
    }

    /// Takes the fixed-point sines of 0, 1, ..., 90 degrees.
    pub fn new(quarter: Vec<i64>) -> (r: Result<SineTable, TableError>)
        ensures
            r matches Ok(t) ==> t.quarter@ == quarter@ && t.wf(),
            r == Err::<SineTable, TableError>(TableError::WrongLength) <==> quarter@.len()
                != QUARTER_LEN,
            r == Err::<SineTable, TableError>(TableError::EndpointMismatch) <==> quarter@.len()
                == QUARTER_LEN && (quarter@[0] != 0 || quarter@[90] != ONE),
            r == Err::<SineTable, TableError>(TableError::OutOfRange) <==> quarter@.len()
                == QUARTER_LEN && quarter@[0] == 0 && quarter@[90] == ONE
                && !entries_in_unit_range(quarter@),
    {
        if quarter.len() != QUARTER_LEN {
            return Err(TableError::WrongLength);
        }
        if quarter[0] != 0 || quarter[90] != ONE {
            return Err(TableError::EndpointMismatch);
        }
        let mut i: usize = 0;
        while i < quarter.len()
            invariant
                0 <= i <= quarter@.len(),
                quarter@.len() == QUARTER_LEN,
                quarter@[0] == 0,
                quarter@[90] == ONE,
                forall|j: int| 0 <= j < i ==> 0 <= #[trigger] quarter@[j] <= ONE,
            decreases quarter@.len() - i,
        {
            if quarter[i] < 0 || quarter[i] > ONE {
                assert(!entries_in_unit_range(quarter@)) by {
                    assert(quarter@[i as int] == quarter[i as int]);
                }
                return Err(TableError::OutOfRange);
            }
            i = i + 1;
        }
        Ok(SineTable { quarter })
    }

    /// Sine of an angle already reduced below a full turn.
    fn sin_reduced(&self, a: u64) -> (r: i64)
        requires
            self.wf(),
            a < 360,
        ensures
            r == sin_deg(self.quarter@, a as int),
            -ONE <= r <= ONE,
    {
        if a <= 90 {
            self.quarter[a as usize]
        } else if a <= 180 {
            self.quarter[(180 - a) as usize]
        } else if a <= 270 {
            -self.quarter[(a - 180) as usize]
        } else {
            -self.quarter[(360 - a) as usize]
        }
    }

    /// Sine of `deg` whole degrees, in fixed point.
    pub fn sin(&self, deg: i64) -> (r: i64)
        requires
            self.wf(),
        ensures
            r == sin_deg(self.quarter@, deg as int),
            -ONE <= r <= ONE,
    {
        let a = reduce_degrees(deg);
        self.sin_reduced(a)
    }

    /// Cosine of `deg` whole degrees, in fixed point.
    pub fn cos(&self, deg: i64) -> (r: i64)
        requires
            self.wf(),
        ensures
            r == cos_deg(self.quarter@, deg as int),
            -ONE <= r <= ONE,
    {
        let a = reduce_degrees(deg);
        let b: u64 = (a + 90) % 360;
        assert(b == (deg + 90) % 360);
        self.sin_reduced(b)
    }
}

/// The angle `deg` brought into one turn, `0..360`.
pub fn reduce_degrees(deg: i64) -> (a: u64)
    ensures
        a == deg % 360,
{
    if deg >= 0 {
        (deg as u64) % 360
    } else {
        let k: u64 = (-(deg + 1)) as u64;
        359 - k % 360
    }
}

} // verus!
