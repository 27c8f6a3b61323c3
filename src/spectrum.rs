use vstd::prelude::*;

verus! {

/// The wavelength, in nanometres, of the first row of a colour-matching
/// table; each further row is one nanometre longer.
pub const TABLE_START_NM: u64 = 390;

/// The wavelength that row `index` of a colour-matching table samples.
pub open spec fn row_wavelength(index: int) -> int {
    TABLE_START_NM + index
}

/// Where `wavelength` falls in a colour-matching table of `table_len` rows,
/// or `None` when the table does not cover it (the caller then uses the zero
/// tristimulus).
pub fn wavelength_index(wavelength: u64, table_len: usize) -> (r: Option<usize>)
    ensures
        r is Some <==> TABLE_START_NM <= wavelength < TABLE_START_NM + table_len,
        r matches Some(i) ==> i < table_len && row_wavelength(i as int) == wavelength,
{
    if wavelength < TABLE_START_NM {
        return None;
    }
    let offset = wavelength - TABLE_START_NM;
    if offset < table_len as u64 {
        Some(offset as usize)
    } else {
        None
    }
}

/// The wavelength that row `index` of a colour-matching table samples.
pub fn table_wavelength(index: usize) -> (w: u64)
    requires
        row_wavelength(index as int) <= u64::MAX,
    ensures
        w == row_wavelength(index as int),
{
    TABLE_START_NM + index as u64
}

/// Step `i` of `count` evenly spaced integer wavelengths that run down from
/// `hi` to `lo`, rounded towards `lo`.
pub open spec fn sweep_step(count: int, lo: int, hi: int, i: int) -> int {
    lo + (count - 1 - i) * (hi - lo) / (count - 1)
}

/// `count` wavelengths spread evenly from `hi` down to `lo`: one per letter
/// of a name to be painted as a rainbow.
pub fn wavelength_sweep(count: usize, lo: u64, hi: u64) -> (ws: Vec<u64>)
    requires
        count >= 2,
        lo <= hi,
        (count - 1) * (hi - lo) <= u64::MAX,
    ensures
        ws@.len() == count,
        forall|i: int| 0 <= i < count ==> ws@[i] == sweep_step(count as int, lo as int, hi as int, i),
        ws@[0] == hi,
        ws@[count - 1] == lo,
{
    let num = (count - 1) as u64;
    let span = hi - lo;
    let mut ws: Vec<u64> = Vec::new();
    let mut i: usize = 0;
    while i < count
        invariant
            i <= count,
            count >= 2,
            num == count - 1,
            span == hi - lo,
            lo <= hi,
            num * span <= u64::MAX,
            ws@.len() == i,
            forall|j: int| 0 <= j < i ==> ws@[j] == sweep_step(count as int, lo as int, hi as int, j),
        decreases count - i,
    {
        let k = num - i as u64;
        proof {
            assert(k * span <= num * span) by (nonlinear_arith)
                requires
                    k <= num,
            ;
            assert(k * span / (num as int) <= span) by (nonlinear_arith)
                requires
                    k <= num,
                    num > 0,
                    k * span <= num * span,
            ;
        }
        ws.push(lo + k * span / num);
        i = i + 1;
    }
    proof {
        assert(num * span / (num as int) == span) by (nonlinear_arith)
            requires
                num > 0,
        ;
        assert(0 * span / (num as int) == 0) by (nonlinear_arith)
            requires
                num > 0,
        ;
    }
    ws
}

} // verus!
