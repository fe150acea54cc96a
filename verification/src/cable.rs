//! The cable record that the engines read.
//!
//! Numeric fields are fixed-point numbers in thousandths of their unit, as
//! everywhere in this library.

use vstd::prelude::*;

verus! {

/// One cable of a schedule, as far as the engines look at it.
#[derive(Debug, Clone)]
pub struct Cable {
    /// The identity of the record; `None` for a cable that was never stored.
    pub id: Option<i64>,
    /// The tag that names the cable; compared without regard to ASCII case.
    pub tag: String,
    /// What the cable is for: `Power`, `Lighting`, `Signal`, `Control`,
    /// `Communication`, or anything else.
    pub function: Option<String>,
    /// Nominal voltage in millivolts.
    pub voltage: Option<i32>,
    /// Load current in milliamperes.
    pub current: Option<i32>,
    /// Conductor size, such as `12 AWG`.
    pub size: Option<String>,
    /// Free-text segregation class, such as `IS Signal`.
    pub segregation_class: Option<String>,
    /// One-way length in thousandths of a foot.
    pub length: Option<i32>,
    /// Spare capacity in thousandths of a percent.
    pub spare_percentage: Option<i32>,
    /// The conduit or tray that carries the cable; cables with the same text
    /// here share a route.
    pub route: Option<String>,
}

/// The mathematical content of a `Cable`.
pub ghost struct CableModel {
    pub id: Option<i64>,
    pub tag: Seq<char>,
    pub function: Option<Seq<char>>,
    pub voltage: Option<i32>,
    pub current: Option<i32>,
    pub size: Option<Seq<char>>,
    pub segregation_class: Option<Seq<char>>,
    pub length: Option<i32>,
    pub spare_percentage: Option<i32>,
    pub route: Option<Seq<char>>,
}

/// The characters of an optional string.
pub open spec fn text_of(s: Option<String>) -> Option<Seq<char>> {
    match s {
        Some(s) => Some(s@),
        None => None,
    }
}

impl View for Cable {
    type V = CableModel;

    open spec fn view(&self) -> CableModel {
        CableModel {
            id: self.id,
            tag: self.tag@,
            function: text_of(self.function),
            voltage: self.voltage,
            current: self.current,
            size: text_of(self.size),
            segregation_class: text_of(self.segregation_class),
            length: self.length,
            spare_percentage: self.spare_percentage,
            route: text_of(self.route),
        }
    }
}

/// The contents of a list of cables.
pub open spec fn models(cables: Seq<Cable>) -> Seq<CableModel> {
    Seq::new(cables.len(), |i: int| cables[i]@)
}

/// The contents of a list of borrowed cables.
pub open spec fn models_of_refs(cables: Seq<&Cable>) -> Seq<CableModel> {
    Seq::new(cables.len(), |i: int| cables[i]@)
}

} // verus!
