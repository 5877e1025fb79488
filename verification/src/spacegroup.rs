//! Full description of a crystallographic spacegroup

use vstd::prelude::*;
use crate::symbol;

verus! {

/// The full description of a given spacegroup
#[derive(Clone, Debug)]
pub struct Spacegroup {
    /// Space group number as defined in the International Tables for Crystallography
    pub number: i32,
    /// Abbreviated Hermann-Mauguin notation spacegroup symbol
    pub international_short: String,
    /// Full Hermann-Mauguin notation spacegroup symbol
    pub international_full: String,
    /// Full Hermann-Mauguin notation spacegroup symbol
    pub international: String,
    /// Schoenflies notation spacegroup symbol
    pub schoenflies: String,
    /// Hall symbol
    pub hall_symbol: String,
    /// Information on unique axis, settings, or cell choices
    pub choice: String,
    /// Full Hermann-Mauguin notation pointgroup symbol
    pub pointgroup_international: String,
    /// Schoenflies notation pointgroup symbol
    pub pointgroup_schoenflies: String,
    /// Arithmetic notation crystal class number
    pub arithmetic_crystal_class_number: i32,
    /// Arithmetic notation crystal class symbol
    pub arithmetic_crystal_class_symbol: String,
}

impl Spacegroup {
    /// Builds a spacegroup record from the fields of a native lookup result:
    /// the two numeric classifications and the nine embedded text fields,
    /// each a fixed-size NUL-terminated buffer.
    ///
    /// Returns `None` exactly when some text field is not decodable — a
    /// violation of the native engine's contract, not a normal outcome.
    pub fn from_raw_parts(
        number: i32,
        international_short: &Vec<u8>,
        international_full: &Vec<u8>,
        international: &Vec<u8>,
        schoenflies: &Vec<u8>,
        hall_symbol: &Vec<u8>,
        choice: &Vec<u8>,
        pointgroup_international: &Vec<u8>,
        pointgroup_schoenflies: &Vec<u8>,
        arithmetic_crystal_class_number: i32,
        arithmetic_crystal_class_symbol: &Vec<u8>,
    ) -> (r: Option<Spacegroup>)
        ensures
            r is Some <==> symbol::well_formed(international_short@)
                && symbol::well_formed(international_full@)
                && symbol::well_formed(international@)
                && symbol::well_formed(schoenflies@)
                && symbol::well_formed(hall_symbol@)
                && symbol::well_formed(choice@)
                && symbol::well_formed(pointgroup_international@)
                && symbol::well_formed(pointgroup_schoenflies@)
                && symbol::well_formed(arithmetic_crystal_class_symbol@),
            r matches Some(g) ==> g.number == number
                && g.international_short@ == symbol::decoded(international_short@)
                && g.international_full@ == symbol::decoded(international_full@)
                && g.international@ == symbol::decoded(international@)
                && g.schoenflies@ == symbol::decoded(schoenflies@)
                && g.hall_symbol@ == symbol::decoded(hall_symbol@)
                && g.choice@ == symbol::decoded(choice@)
                && g.pointgroup_international@ == symbol::decoded(pointgroup_international@)
                && g.pointgroup_schoenflies@ == symbol::decoded(pointgroup_schoenflies@)
                && g.arithmetic_crystal_class_number == arithmetic_crystal_class_number
                && g.arithmetic_crystal_class_symbol@ == symbol::decoded(
                    arithmetic_crystal_class_symbol@,
                ),
    {
        let international_short = match symbol::decode_symbol(international_short) {
            Some(t) => t,
            None => {
                return None;
            },
        };
        let international_full = match symbol::decode_symbol(international_full) {
            Some(t) => t,
            None => {
                return None;
            },
        };
        let international = match symbol::decode_symbol(international) {
            Some(t) => t,
            None => {
                return None;
            },
        };
        let schoenflies = match symbol::decode_symbol(schoenflies) {
            Some(t) => t,
            None => {
                return None;
            },
        };
        let hall_symbol = match symbol::decode_symbol(hall_symbol) {
            Some(t) => t,
            None => {
                return None;
            },
        };
        let choice = match symbol::decode_symbol(choice) {
            Some(t) => t,
            None => {
                return None;
            },
        };
        let pointgroup_international = match symbol::decode_symbol(pointgroup_international) {
            Some(t) => t,
            None => {
                return None;
            },
        };
        let pointgroup_schoenflies = match symbol::decode_symbol(pointgroup_schoenflies) {
            Some(t) => t,
            None => {
                return None;
            },
        };
        let arithmetic_crystal_class_symbol = match symbol::decode_symbol(
            arithmetic_crystal_class_symbol,
        ) {
            Some(t) => t,
            None => {
                return None;
            },
        };
        Some(
            Spacegroup {
                number,
                international_short,
                international_full,
                international,
                schoenflies,
                hall_symbol,
                choice,
                pointgroup_international,
                pointgroup_schoenflies,
                arithmetic_crystal_class_number,
                arithmetic_crystal_class_symbol,
            },
        )
    }
}

} // verus!
