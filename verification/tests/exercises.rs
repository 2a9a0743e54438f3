use rustfolio::basics::{additionner, calculer, trouver_max, Jour};
use rustfolio::text::{
    calculer_longueur, compter_mots, modifier_string, premier_mot, Document,
};

#[test]
fn test_operations_basiques() {
    assert_eq!(5 + 3, 8);
    assert_eq!(10 - 4, 6);
    assert_eq!(3 * 4, 12);
    assert_eq!(8 / 2, 4);
}

#[test]
fn test_strings() {
    let mut s = String::from("Hello");
    modifier_string(&mut s);
    assert_eq!(s, "Hello, world!");
}

#[test]
fn test_tuple_access() {
    let tuple = (42, "Rust", true);
    assert_eq!(tuple.0, 42);
    assert_eq!(tuple.1, "Rust");
    assert_eq!(tuple.2, true);
}

#[test]
fn test_additionner() {
    assert_eq!(additionner(2, 3), 5);
    assert_eq!(additionner(-1, 1), 0);
}

#[test]
fn test_calculer() {
    let (somme, produit) = calculer(3, 4);
    assert_eq!(somme, 7);
    assert_eq!(produit, 12);
}

#[test]
fn test_jour_debug() {
    let jour = Jour::Lundi;
    assert_eq!(format!("{:?}", jour), "Lundi");
}

#[test]
fn test_calculer_longueur() {
    let s = String::from("Hello");
    assert_eq!(calculer_longueur(&s), 5);
}

#[test]
fn test_premier_mot() {
    assert_eq!(premier_mot("Hello world"), "Hello");
    assert_eq!(premier_mot("Rust"), "Rust");
    assert_eq!(premier_mot(""), "");
}

#[test]
fn test_trouver_max() {
    let nombres = [1, 5, 3, 9, 2];
    assert_eq!(trouver_max(&nombres), Some(&9));
    assert_eq!(trouver_max(&[]), None);
    assert_eq!(trouver_max(&[42]), Some(&42));
}

#[test]
fn test_document() {
    let mut doc = Document::new("Test", "Contenu initial");
    assert_eq!(doc.taille, 15);

    doc.ajouter_texte(" plus de texte");
    assert_eq!(doc.taille, 29);

    assert_eq!(doc.obtenir_apercu(7), "Contenu");
    assert_eq!(doc.obtenir_apercu(100), &doc.contenu);
}

#[test]
fn test_compter_mots() {
    assert_eq!(compter_mots("Hello world"), 2);
    assert_eq!(compter_mots("Un deux trois quatre"), 4);
    assert_eq!(compter_mots(""), 0);
    assert_eq!(compter_mots("   spaces   everywhere   "), 2);
}
