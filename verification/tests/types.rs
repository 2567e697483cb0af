use solid_modeling::lang::types::{Kind, Type};

#[test]
fn test_type_aliases() {
    let sdf2 = Type::sdf(2);
    assert_eq!(sdf2, Type::Field(2, Box::new(Type::Scalar)));

    let img3 = Type::image(3);
    assert_eq!(img3, Type::Field(3, Box::new(Type::Color)));
}

#[test]
fn vector_field_has_vectors_of_its_dimension() {
    assert_eq!(Type::vfield(3), Type::Field(3, Box::new(Type::Vec(3))));
}

#[test]
fn copies_are_equal() {
    let t = Type::Arrow(Box::new(Type::sdf(2)), Box::new(Type::Forall("a".to_string(), Box::new(Type::Var("a".to_string())))));
    assert_eq!(t.clone(), t);
    let k = Kind::Arrow(Box::new(Kind::Star), Box::new(Kind::Nat));
    assert_eq!(k.clone(), k);
}

#[test]
fn types_read_as_displayed() {
    assert_eq!(Type::Scalar.to_string(), "Scalar");
    assert_eq!(Type::Vec(3).to_string(), "Vec 3");
    assert_eq!(Type::sdf(2).to_string(), "Field 2 (Scalar)");
    assert_eq!(
        Type::Arrow(Box::new(Type::Scalar), Box::new(Type::List(Box::new(Type::Bool)))).to_string(),
        "(Scalar \u{2192} List (Bool))"
    );
    assert_eq!(
        Type::Forall("a".to_string(), Box::new(Type::Var("a".to_string()))).to_string(),
        "\u{2200}a. a"
    );
    assert_eq!(
        Type::ForallDim("n".to_string(), Box::new(Type::Field(12, Box::new(Type::DimVar("n".to_string()))))).to_string(),
        "\u{2200}(n : Nat). Field 12 (n)"
    );
    assert_eq!(Type::image(3).to_string(), "Field 3 (Color)");
}
