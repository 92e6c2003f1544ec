//! The search for the strongest bin of a magnitude spectrum.
//!
//! The first and the last bin of a spectrum are not searched. A peak that
//! is found on the first or the last of the searched bins is taken as it
//! is; a peak between them has a searched bin on either side, and its
//! position can be refined from the three magnitudes.
//!
//! Magnitudes are compared as unsigned integers; any encoding that keeps
//! their order will do.

use vstd::prelude::*;

verus! {

/// Whether `peak` is the bin that the search settles on: among all bins but
/// the first and the last, the one of greatest magnitude, and of several
/// such the lowest. A spectrum of fewer than three bins has no bin to
/// search, and the search settles on bin 0.
pub open spec fn is_peak_bin(magnitudes: Seq<u64>, peak: int) -> bool {
    if magnitudes.len() < 3 {
        peak == 0
    } else {
        &&& 1 <= peak <= magnitudes.len() - 2
        &&& forall|bin: int|
            1 <= bin <= magnitudes.len() - 2 ==> magnitudes[bin] <= magnitudes[peak]
        &&& forall|bin: int| 1 <= bin < peak ==> magnitudes[bin] < magnitudes[peak]
    }
}

/// Whether a bin has a searched bin on either side within a spectrum of
/// `bins` bins: it is neither the first nor the last of the searched bins,
/// so that its position can be refined from the three magnitudes.
pub open spec fn has_neighbours(peak: int, bins: int) -> bool {
    1 < peak && peak + 2 < bins
}

/// Finds the bin of greatest magnitude among all bins but the first and the
/// last. Of several bins of that magnitude it gives the lowest.
pub fn find_peak_bin(magnitudes: &[u64]) -> (peak: usize)
    ensures
        is_peak_bin(magnitudes@, peak as int),
{
    let bins = magnitudes.len();
    if bins < 3 {
        return 0;
    }
    let mut peak: usize = 1;
    let mut bin: usize = 2;
    while bin < bins - 1
        invariant
            bins == magnitudes@.len(),
            bins >= 3,
            2 <= bin <= bins - 1,
            1 <= peak < bin,
            forall|other: int| 1 <= other < bin ==> magnitudes@[other] <= magnitudes@[peak as int],
            forall|other: int| 1 <= other < peak ==> magnitudes@[other] < magnitudes@[peak as int],
        decreases bins - bin,
    {
        if magnitudes[bin] > magnitudes[peak] {
            peak = bin;
        }
        bin += 1;
    }
    peak
}

/// Tells whether the bin that the search settled on has a searched bin on
/// either side, as the refinement of its position needs. On the first and
/// on the last of the searched bins it has not.
pub fn peak_has_neighbours(peak: usize, bins: usize) -> (both: bool)
    ensures
        both == has_neighbours(peak as int, bins as int),
{
    peak > 1 && bins >= 3 && peak < bins - 2
}

/// The search settles on one bin only.
pub proof fn lemma_peak_bin_unique(magnitudes: Seq<u64>, a: int, b: int)
    requires
        is_peak_bin(magnitudes, a),
        is_peak_bin(magnitudes, b),
    ensures
        a == b,
{
    if magnitudes.len() >= 3 {
        if a < b {
            assert(magnitudes[a] < magnitudes[b]);
            assert(magnitudes[b] <= magnitudes[a]);
        } else if b < a {
            assert(magnitudes[b] < magnitudes[a]);
            assert(magnitudes[a] <= magnitudes[b]);
        }
    }
}

/// The bin that the search settles on has a searched bin on either side
/// exactly if it is neither the first nor the last of the searched bins.
/// In a spectrum of fewer than five bins no bin has.
pub proof fn lemma_peak_bin_edges(magnitudes: Seq<u64>, peak: int)
    requires
        is_peak_bin(magnitudes, peak),
    ensures
        has_neighbours(peak, magnitudes.len() as int) <==> magnitudes.len() >= 3 && peak != 1
            && peak != magnitudes.len() - 2,
        magnitudes.len() < 5 ==> !has_neighbours(peak, magnitudes.len() as int),
{
}

/// Where all searched bins are equally strong, as in silence, the search
/// settles on the first of them, and its position is not refined.
pub proof fn lemma_peak_bin_of_equals(magnitudes: Seq<u64>, peak: int)
    requires
        magnitudes.len() >= 3,
        forall|bin: int|
            1 <= bin <= magnitudes.len() - 2 ==> #[trigger] magnitudes[bin] == magnitudes[1],
        is_peak_bin(magnitudes, peak),
    ensures
        peak == 1,
        !has_neighbours(peak, magnitudes.len() as int),
{
    if peak > 1 {
        assert(magnitudes[1] < magnitudes[peak]);
    }
}

} // verus!
