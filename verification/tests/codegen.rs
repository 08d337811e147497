use condition::codegen::{condition_derive, conditional, render, Decl, DeriveError};

fn enum_decl(name: &str, variants: &[&str]) -> Decl {
    Decl {
        name: name.to_string(),
        variants: Some(variants.iter().map(|v| v.to_string()).collect()),
    }
}

#[test]
fn test_binding_follows_declaration_order() {
    let decl = enum_decl("Answer", &["No", "Yes"]);
    let binding = conditional(&decl).unwrap();
    assert_eq!(binding.name, "Answer");
    assert_eq!(binding.falsehood, "No");
    assert_eq!(binding.truth, "Yes");
}

#[test]
fn test_binding_is_positional_not_lexical() {
    let decl = enum_decl("Toggle", &["On", "Off"]);
    let binding = conditional(&decl).unwrap();
    assert_eq!(binding.falsehood, "On");
    assert_eq!(binding.truth, "Off");
}

#[test]
fn test_wrong_shape_rejected() {
    let decl = Decl {
        name: "NotAnEnum".to_string(),
        variants: None,
    };
    let err = conditional(&decl).unwrap_err();
    assert_eq!(err, DeriveError::WrongShape);
    assert_eq!(err.message(), "Only enums may derive a Condition");
}

#[test]
fn test_one_variant_rejected() {
    let decl = enum_decl("Single", &["Only"]);
    let err = conditional(&decl).unwrap_err();
    assert_eq!(err, DeriveError::WrongArity);
    assert_eq!(err.message(), "Condition enums must have exactly two fields");
}

#[test]
fn test_three_variants_rejected() {
    let decl = enum_decl("Triple", &["A", "B", "C"]);
    let err = conditional(&decl).unwrap_err();
    assert_eq!(err, DeriveError::WrongArity);
    assert_eq!(err.message(), "Condition enums must have exactly two fields");
}

#[test]
fn test_zero_variants_rejected() {
    let decl = enum_decl("Empty", &[]);
    assert_eq!(conditional(&decl).unwrap_err(), DeriveError::WrongArity);
}

#[test]
fn test_render_exact_output() {
    let decl = enum_decl("Answer", &["No", "Yes"]);
    let binding = conditional(&decl).unwrap();
    let source = render(&binding);
    assert_eq!(
        source,
        "impl Condition for Answer { #[inline] fn is(&self, value: bool) -> bool \
         { match self { Self::No => value == false, Self::Yes => value == true, } } }"
    );
}

#[test]
fn test_condition_derive_emits_for_conforming_enum() {
    let decl = enum_decl("Answer", &["No", "Yes"]);
    let source = condition_derive(&decl).unwrap();
    assert!(source.contains("impl Condition for Answer"));
    assert!(source.contains("Self::No => value == false"));
    assert!(source.contains("Self::Yes => value == true"));
}

#[test]
fn test_condition_derive_emits_nothing_on_failure() {
    let shapeless = Decl {
        name: "S".to_string(),
        variants: None,
    };
    assert_eq!(condition_derive(&shapeless).unwrap_err(), DeriveError::WrongShape);
    let triple = enum_decl("Triple", &["A", "B", "C"]);
    assert_eq!(condition_derive(&triple).unwrap_err(), DeriveError::WrongArity);
}
