use proffer::{Attribute, AttributeError, SrcCode};

#[test]
fn test_attribute_attr() {
    let ann = "#[attr]";
    let attribute = Attribute::from(ann);
    match &attribute {
        &Attribute::ItemAttr(ref s) => assert_eq!(&s, &ann),
        _ => panic!("Expected to match to Attribute::ItemAttr, got {:?}", ann),
    };
    assert_eq!(&attribute.generate(), ann);
}

#[test]
fn test_attribute_mod_attr() {
    let ann = "#![foo_attr]";
    let attribute = Attribute::from(ann);
    match &attribute {
        &Attribute::ScopeAttr(ref s) => assert_eq!(&s, &ann),
        _ => panic!("Expected to match to Attribute::ScopeAttr, got {:?}", ann),
    };
    assert_eq!(&attribute.generate(), ann);
}

#[test]
fn attribute_without_marker_is_rejected() {
    assert!(matches!(
        Attribute::parse("derive(Clone)"),
        Err(AttributeError::InvalidAttributeSyntax)
    ));
    assert!(matches!(
        Attribute::parse(""),
        Err(AttributeError::InvalidAttributeSyntax)
    ));
    assert!(matches!(
        Attribute::parse("!#[x]"),
        Err(AttributeError::InvalidAttributeSyntax)
    ));
}

#[test]
fn attribute_classification_by_prefix() {
    assert!(matches!(Attribute::parse("#![a]"), Ok(Attribute::ScopeAttr(_))));
    assert!(matches!(Attribute::parse("#[a]"), Ok(Attribute::ItemAttr(_))));
    assert!(matches!(Attribute::parse("#"), Ok(Attribute::ItemAttr(_))));
    assert!(matches!(Attribute::parse("#!"), Ok(Attribute::ScopeAttr(_))));
    match Attribute::parse("#![deny(warnings)]") {
        Ok(a) => assert_eq!(a.generate(), "#![deny(warnings)]"),
        Err(_) => panic!("a scope attribute was refused"),
    }
}
