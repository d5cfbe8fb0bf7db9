//! A small family of containers, a fern and a potted fern, with an accessor
//! written by hand for each field that is reached through them.
use vstd::prelude::*;
use crate::accessor::AccessorPair;

verus! {

/// A fern: its species and whether it is healthy.
pub struct Fern {
    pub species: String,
    pub healthy: bool,
}

/// A fern in a named pot.
pub struct PottedFern {
    pub fern: Fern,
    pub pot_name: String,
}

/// Addresses `Fern::species`.
#[derive(Clone, Copy)]
pub struct FernSpecies;

/// Addresses `PottedFern::fern`.
#[derive(Clone, Copy)]
pub struct PottedFernFern;

impl AccessorPair<Fern, String> for FernSpecies {
    open spec fn field_of(&self, on: Fern) -> String {
        on.species
    }

    open spec fn with_field(&self, on: Fern, value: String) -> Fern {
        Fern { species: value, healthy: on.healthy }
    }

    proof fn lemma_read_written(&self, on: Fern, value: String) {
    }

    proof fn lemma_write_read(&self, on: Fern) {
    }

    proof fn lemma_write_twice(&self, on: Fern, first: String, second: String) {
    }

    fn get<'a>(&self, on: &'a Fern) -> (r: &'a String) {
        &on.species
    }

    fn set<'a>(&self, on: &'a mut Fern) -> (r: &'a mut String) {
        &mut on.species
    }
}

impl AccessorPair<PottedFern, Fern> for PottedFernFern {
    open spec fn field_of(&self, on: PottedFern) -> Fern {
        on.fern
    }

    open spec fn with_field(&self, on: PottedFern, value: Fern) -> PottedFern {
        PottedFern { fern: value, pot_name: on.pot_name }
    }

    proof fn lemma_read_written(&self, on: PottedFern, value: Fern) {
    }

    proof fn lemma_write_read(&self, on: PottedFern) {
    }

    proof fn lemma_write_twice(&self, on: PottedFern, first: Fern, second: Fern) {
    }

    fn get<'a>(&self, on: &'a PottedFern) -> (r: &'a Fern) {
        &on.fern
    }

    fn set<'a>(&self, on: &'a mut PottedFern) -> (r: &'a mut Fern) {
        &mut on.fern
    }
}

} // verus!
