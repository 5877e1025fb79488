//! Safe, contract-checked structures for crystal-symmetry analysis built
//! around a native symmetry engine: a crystal [`cell::Cell`], a
//! [`dataset::Dataset`] of derived symmetry information, and a
//! [`spacegroup::Spacegroup`] lookup record.
//!
//! The native engine performs all symmetry detection, lattice reduction and
//! classification; this crate holds the data model and every piece of
//! marshaling logic around those calls: length bookkeeping, buffer
//! truncation, decoding of fixed-size C string fields, and interpretation of
//! native return codes. Floating-point coordinates are carried through as
//! IEEE-754 bit patterns (`u64`), opaque to the logic here, so that the
//! marshaling itself can be verified.

use vstd::prelude::*;

pub mod cell;
pub mod dataset;
pub mod spacegroup;
pub mod symbol;

verus! {

/// Greatest valid hall number: serial numbers of space-group settings run
/// from 1 to this value.
pub const HALL_NUMBER_MAX: i32 = 530;

/// Returns whether `hall_number` is a valid space-group-setting serial
/// number; callers must pass only such values to the native lookup.
pub fn hall_number_in_range(hall_number: i32) -> (r: bool)
    ensures
        r <==> 1 <= hall_number <= HALL_NUMBER_MAX,
{
    1 <= hall_number && hall_number <= HALL_NUMBER_MAX
}

/// Error raised when a cell cannot be standardized
#[derive(Debug, Clone)]
pub struct StandardizeError;

impl StandardizeError {
    /// Returns a description of the failure
    pub fn message(&self) -> (s: &'static str)
        ensures
            s@ == "failed to standardize the cell"@,
    {
        "failed to standardize the cell"
    }
}

/// Error raised when a cell cannot be reduced with the Delaunay reduction scheme
#[derive(Debug, Clone)]
pub struct DelaunayReduceError;

impl DelaunayReduceError {
    /// Returns a description of the failure
    pub fn message(&self) -> (s: &'static str)
        ensures
            s@ == "failed to reduce the cell"@,
    {
        "failed to reduce the cell"
    }
}

/// Error raised when a cell cannot be reduced with the Niggli reduction scheme
#[derive(Debug, Clone)]
pub struct NiggliReduceError;

impl NiggliReduceError {
    /// Returns a description of the failure
    pub fn message(&self) -> (s: &'static str)
        ensures
            s@ == "failed to reduce the cell"@,
    {
        "failed to reduce the cell"
    }
}

} // verus!
