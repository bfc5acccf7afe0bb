//! A calculation read as its bare formula.
use vstd::prelude::*;

use crate::script_steps::parameters::calculation::calculation_scan;
use crate::script_steps::step_scan::{raw_formula, read_formula};
use crate::xml::{XmlEvent, XmlReader};

verus! {

/// A calculation, read as its formula.
#[derive(Debug)]
pub struct Calculation {}

impl Calculation {
    /// Reads a calculation whose start tag was the last event read: its formula, or empty.
    pub fn from_xml(reader: &mut XmlReader, e: &XmlEvent) -> (res: Result<String, String>)
        ensures
            final(reader).events == old(reader).events,
            final(reader).pos == calculation_scan(old(reader).evs(), old(reader).pos as int).1,
            res matches Ok(formula) && formula@ == raw_formula(calculation_scan(old(reader).evs(), old(reader).pos as int).0),
    {
        Ok(read_formula(reader, e))
    }
}

} // verus!
