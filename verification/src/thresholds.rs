use vstd::prelude::*;

verus! {

/// The bounds of one run. Every bound is inclusive, and `None` leaves that
/// side unbounded.
#[derive(Clone, Copy, Debug, PartialEq, Eq)]
pub struct Thresholds {
    /// Deepest nesting level that is kept.
    pub max_level: Option<i32>,
    /// Largest admissible length of the longest allele.
    pub max_allele_length: Option<usize>,
    /// Smallest admissible length of the longest allele.
    pub min_allele_length: Option<usize>,
    /// Largest admissible length of the reference allele.
    pub max_ref_length: Option<usize>,
    /// Smallest admissible length of the reference allele.
    pub min_ref_length: Option<usize>,
}

impl Thresholds {
    /// No bound is set.
    pub open spec fn is_unbounded(self) -> bool {
        &&& self.max_level is None
        &&& self.max_allele_length is None
        &&& self.min_allele_length is None
        &&& self.max_ref_length is None
        &&& self.min_ref_length is None
    }

    /// A record at nesting depth `level` is not too deep.
    pub open spec fn admits_level(self, level: int) -> bool {
        self.max_level matches Some(max) ==> level <= max
    }

    /// A record whose longest allele has `max_allele_length` symbols and whose
    /// reference allele has `ref_length` symbols is within all four size bounds.
    pub open spec fn admits_size(self, max_allele_length: int, ref_length: int) -> bool {
        &&& self.max_allele_length matches Some(max) ==> max_allele_length <= max
        &&& self.min_allele_length matches Some(min) ==> max_allele_length >= min
        &&& self.max_ref_length matches Some(max) ==> ref_length <= max
        &&& self.min_ref_length matches Some(min) ==> ref_length >= min
    }

    /// The thresholds of a run in which nothing was configured.
    pub fn unbounded() -> (t: Thresholds)
        ensures
            t.is_unbounded(),
    {
        Thresholds {
            max_level: None,
            max_allele_length: None,
            min_allele_length: None,
            max_ref_length: None,
            min_ref_length: None,
        }
    }

    /// Tests a nesting level against the level bound.
    pub fn level_ok(&self, level: i32) -> (ok: bool)
        ensures
            ok == self.admits_level(level as int),
    {
        match self.max_level {
            Some(max) => level <= max,
            None => true,
        }
    }

    /// Tests the two lengths of a record against the four size bounds.
    pub fn size_ok(&self, max_allele_length: usize, ref_length: usize) -> (ok: bool)
        ensures
            ok == self.admits_size(max_allele_length as int, ref_length as int),
    {
        let allele_below = match self.max_allele_length {
            Some(max) => max_allele_length <= max,
            None => true,
        };
        let allele_above = match self.min_allele_length {
            Some(min) => max_allele_length >= min,
            None => true,
        };
        let ref_below = match self.max_ref_length {
            Some(max) => ref_length <= max,
            None => true,
        };
        let ref_above = match self.min_ref_length {
            Some(min) => ref_length >= min,
            None => true,
        };
        allele_below && allele_above && ref_below && ref_above
    }
}

impl Default for Thresholds {
    fn default() -> (t: Thresholds)
        ensures
            t.is_unbounded(),
    {
        Thresholds::unbounded()
    }
}

} // verus!
