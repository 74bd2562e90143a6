use proffer::{
    AssociatedTypeDeclaration, AttributeExt, FunctionSignature, Generic, GenericExt, Parameter, SrcCode, Trait, TraitBoundExt, norm_whitespace,
};

fn trait_src(t: &Trait) -> String {
    let src_code = t.generate();
    syn::parse_str::<syn::ItemTrait>(&src_code).unwrap();
    src_code
}

#[test]
fn trait_gen_test_basic_gen() {
    let tr8t = Trait::new("Foo").set_is_pub(true).to_owned();
    let expected = r#"
        pub trait Foo
        {
        }
    "#;

    let src_code = trait_src(&tr8t);
    println!("{}", &src_code);

    assert_eq!(norm_whitespace(expected), norm_whitespace(&src_code));
}

#[test]
fn gen_with_method_signatures() {
    let tr8t = Trait::new("Foo")
        .set_is_pub(true)
        .add_signature(FunctionSignature::new("foo"))
        .add_signature(FunctionSignature::new("bar"))
        .to_owned();
    let expected = r#"
        pub trait Foo
        {
            fn foo() -> ();
            fn bar() -> ();
        }
    "#;

    let src_code = trait_src(&tr8t);
    println!("{}", &src_code);

    assert_eq!(norm_whitespace(expected), norm_whitespace(&src_code));
}

#[test]
fn gen_with_generics() {
    let tr8t = Trait::new("Foo")
        .set_is_pub(true)
        .add_signature(
            FunctionSignature::new("foo")
                .add_parameter(Parameter::new("name", "T"))
                .to_owned(),
        )
        .add_signature(FunctionSignature::new("bar"))
        .add_generic(Generic::new("T").add_trait_bounds(vec!["ToString"]).to_owned())
        .to_owned();
    let expected = r#"
        pub trait Foo<T>
            where
                T: ToString,
        {
            fn foo(name: T) -> ();
            fn bar() -> ();
        }
    "#;

    let src_code = trait_src(&tr8t);
    println!("{}", &src_code);

    assert_eq!(norm_whitespace(expected), norm_whitespace(&src_code));
}

#[test]
fn gen_with_associated_types() {
    let tr8t = Trait::new("Foo")
        .set_is_pub(true)
        .add_associated_type(AssociatedTypeDeclaration::new("FOO"))
        .add_associated_type(
            AssociatedTypeDeclaration::new("BAR")
                .add_trait_bounds(vec!["Debug"])
                .to_owned(),
        )
        .add_associated_type(
            AssociatedTypeDeclaration::new("BAZ")
                .add_trait_bounds(vec!["Debug", "Default"])
                .to_owned(),
        )
        .to_owned();
    let expected = r#"
        pub trait Foo
        {
            type FOO;
            type BAR: Debug;
            type BAZ: Debug + Default;
        }
    "#;

    let src_code = trait_src(&tr8t);
    println!("{}", &src_code);

    assert_eq!(norm_whitespace(expected), norm_whitespace(&src_code));
}

#[test]
fn gen_with_associated_type_annotations() {
    let tr8t = Trait::new("Foo")
        .set_is_pub(true)
        .add_associated_type(
            AssociatedTypeDeclaration::new("BAR")
                .add_annotation("#[bar]")
                .to_owned(),
        )
        .add_associated_type(
            AssociatedTypeDeclaration::new("BAZ")
                .add_annotation("#[bar]")
                .add_annotation("#[baz]")
                .to_owned(),
        )
        .to_owned();
    let expected = r#"
        pub trait Foo
        {
            #[bar]
            type BAR;
            #[bar]
            #[baz]
            type BAZ;
        }
    "#;

    let src_code = trait_src(&tr8t);
    println!("{}", &src_code);

    assert_eq!(norm_whitespace(expected), norm_whitespace(&src_code));
}

#[test]
fn associated_types_before_methods() {
    let tr8t = Trait::new("Foo")
        .add_signature(FunctionSignature::new("m"))
        .add_associated_type(AssociatedTypeDeclaration::new("A").add_trait_bound("Clone").to_owned())
        .to_owned();
    assert_eq!(
        norm_whitespace(&trait_src(&tr8t)),
        "trait Foo\n{\ntype A: Clone;\nfn m() -> ();\n}"
    );
}

#[test]
fn generic_method_in_trait_parses() {
    let tr8t = Trait::new("Conv")
        .add_signature(
            FunctionSignature::new("conv")
                .add_generic(Generic::new("U").add_trait_bound("From<u8>").to_owned())
                .add_parameter(Parameter::new("u", "U"))
                .set_return_ty(Some("U"))
                .add_attribute("#[must_use]")
                .to_owned(),
        )
        .to_owned();
    assert_eq!(
        norm_whitespace(&trait_src(&tr8t)),
        "trait Conv\n{\n#[must_use]\nfn conv<U>(u: U) -> U\nwhere\nU: From<u8>,\n;\n}"
    );
}
