use accessor_pair::{AccessorPair, Fern, FernSpecies, PottedFern, PottedFernFern};

fn test_getter<T: AccessorPair<Fern, String>>(accessor: T, fern: &Fern) {
    assert_eq!(accessor.get(&fern), "Horsetails");
}

fn test_setter<T: AccessorPair<Fern, String>>(accessor: T, fern: &mut Fern) {
    *accessor.set(fern) = String::from("Equisetum");
}

fn horsetails(healthy: bool) -> Fern {
    Fern {
        species: "Horsetails".to_string(),
        healthy,
    }
}

fn potted_horsetails() -> PottedFern {
    PottedFern {
        fern: horsetails(false),
        pot_name: "Medium terracotta pot".to_string(),
    }
}

#[test]
fn test() {
    let mut fern = horsetails(true);

    let species_accessor = FernSpecies;
    test_getter(species_accessor, &fern);
    test_setter(species_accessor, &mut fern);

    assert_ne!(fern.species, "Horsetails");
}

#[test]
fn test_compose() {
    let mut potted_fern = potted_horsetails();

    let fern_accessor = PottedFernFern;
    let species_accessor = FernSpecies;
    let composed = fern_accessor.compose(species_accessor);

    assert_eq!(composed.get(&potted_fern), "Horsetails");
    *composed.set(&mut potted_fern) = "Equisetum".to_string();
    assert_ne!(composed.get(&potted_fern), "Horsetails");
}

#[test]
fn get_reads_the_field() {
    let fern = Fern {
        species: "Maidenhair".to_string(),
        healthy: false,
    };
    assert_eq!(FernSpecies.get(&fern), "Maidenhair");
    assert_eq!(PottedFernFern.get(&potted_horsetails()).species, "Horsetails");
}

#[test]
fn set_then_get_leaves_other_fields() {
    let mut fern = horsetails(true);
    *FernSpecies.set(&mut fern) = "Equisetum".to_string();
    assert_eq!(FernSpecies.get(&fern), "Equisetum");
    assert_eq!(fern.species, "Equisetum");
    assert!(fern.healthy);
}

#[test]
fn set_can_edit_in_place() {
    let mut fern = horsetails(false);
    FernSpecies.set(&mut fern).push_str(" (young)");
    assert_eq!(fern.species, "Horsetails (young)");
    assert!(!fern.healthy);
}

#[test]
fn writing_back_the_read_value_changes_nothing() {
    let mut fern = horsetails(true);
    let read = FernSpecies.get(&fern).clone();
    *FernSpecies.set(&mut fern) = read;
    assert_eq!(fern.species, "Horsetails");
    assert!(fern.healthy);
}

#[test]
fn second_write_wins() {
    let mut fern = horsetails(true);
    *FernSpecies.set(&mut fern) = "Equisetum".to_string();
    *FernSpecies.set(&mut fern) = "Osmunda".to_string();
    assert_eq!(FernSpecies.get(&fern), "Osmunda");
    assert!(fern.healthy);
}

#[test]
fn get_twice_gives_the_same_value() {
    let fern = horsetails(true);
    let first = FernSpecies.get(&fern).clone();
    let second = FernSpecies.get(&fern).clone();
    assert_eq!(first, second);

    let potted = potted_horsetails();
    let composed = PottedFernFern.compose(FernSpecies);
    assert_eq!(composed.get(&potted), composed.get(&potted));
}

#[test]
fn composed_get_is_inner_of_outer() {
    let potted = potted_horsetails();
    let composed = PottedFernFern.compose(FernSpecies);
    assert_eq!(
        composed.get(&potted),
        FernSpecies.get(PottedFernFern.get(&potted))
    );
}

#[test]
fn composed_set_keeps_siblings() {
    let mut potted = potted_horsetails();
    let composed = PottedFernFern.compose(FernSpecies);
    *composed.set(&mut potted) = "Equisetum".to_string();
    assert_eq!(composed.get(&potted), "Equisetum");
    assert_eq!(potted.fern.species, "Equisetum");
    assert!(!potted.fern.healthy);
    assert_eq!(potted.pot_name, "Medium terracotta pot");
}

#[test]
fn composed_accessor_used_many_times() {
    let mut first = potted_horsetails();
    let mut second = PottedFern {
        fern: Fern {
            species: "Bracken".to_string(),
            healthy: true,
        },
        pot_name: "Small clay pot".to_string(),
    };
    let composed = PottedFernFern.compose(FernSpecies);
    *composed.set(&mut first) = "Equisetum".to_string();
    *composed.set(&mut second) = "Pteridium".to_string();
    assert_eq!(composed.get(&first), "Equisetum");
    assert_eq!(composed.get(&second), "Pteridium");
    assert!(second.fern.healthy);
    assert_eq!(second.pot_name, "Small clay pot");
}
