use proffer::{
    AssociatedTypeDefinition, Function, Generic, GenericExt, Impl, Parameter, SrcCode, Trait, TraitBoundExt, norm_whitespace,
};

fn impl_src(i: &Impl) -> String {
    let src_code = i.generate();
    syn::parse_str::<syn::ItemImpl>(&src_code).unwrap();
    src_code
}

#[test]
fn impl_basic_gen_with_trait() {
    let mut ipl = Impl::new("That")
        .set_impl_trait(Some(Trait::new("This")))
        .to_owned();
    let expected = r#"
        impl This for That
        {
        }
    "#;

    let src_code = ipl.generate();
    println!("{}", &src_code);

    assert_eq!(norm_whitespace(expected), norm_whitespace(&src_code));

    // Add a function to the impl
    let expected = r#"
        impl This for That
        {
            fn foo() -> ()
            {
            }
        }
    "#;

    let ipl = ipl.add_function(Function::new("foo"));

    let src_code = ipl.generate();
    println!("{}", &src_code);

    assert_eq!(norm_whitespace(expected), norm_whitespace(&src_code));
}

#[test]
fn impl_basic_gen_without_trait() {
    let ipl = Impl::new("That");

    let expected = r#"
        impl That
        {
        }
    "#;

    let src_code = ipl.generate();
    println!("{}", &src_code);

    assert_eq!(norm_whitespace(expected), norm_whitespace(&src_code))
}

#[test]
fn impl_with_generics() {
    let ipl = Impl::new("That")
        .add_generic(Generic::new("T").add_trait_bounds(vec!["ToString"]).to_owned())
        .add_function(
            Function::new("foo")
                .set_is_pub(true)
                .add_parameter(Parameter::new("bar1", "T"))
                .add_parameter(Parameter::new("bar2", "S"))
                .set_return_ty("T")
                .add_generic(Generic::new("S"))
                .set_body("bar")
                .to_owned(),
        )
        .to_owned();

    let expected = r#"
        impl<T> That<T>
            where
                T: ToString,
        {
            pub fn foo<S>(bar1: T, bar2: S) -> T
                where
                    S: ,
            {
                bar
            }
        }
    "#;

    let src_code = ipl.generate();
    println!("{}", &src_code);

    assert_eq!(norm_whitespace(expected), norm_whitespace(&src_code))
}

#[test]
fn impl_with_associated_types() {
    let ipl = Impl::new("That")
        .set_impl_trait(Some(Trait::new("This")))
        .add_associated_type(AssociatedTypeDefinition::new("FOO", "Bar"))
        .add_associated_type(AssociatedTypeDefinition::new("BAR", "Foo"))
        .to_owned();
    let expected = r#"
        impl This for That
        {
            type FOO = Bar;
            type BAR = Foo;
        }
    "#;

    let src_code = ipl.generate();
    println!("{}", &src_code);

    assert_eq!(norm_whitespace(expected), norm_whitespace(&src_code));
}

#[test]
fn impl_with_associated_type_annotations() {
    let ipl = Impl::new("That")
        .set_impl_trait(Some(Trait::new("This")))
        .add_associated_type(
            AssociatedTypeDefinition::new("FOO", "Bar")
                .add_annotation("#[foo]")
                .to_owned(),
        )
        .add_associated_type(
            AssociatedTypeDefinition::new("BAR", "Foo")
                .add_annotation("#[foo]")
                .add_annotation("#[bar]")
                .to_owned(),
        )
        .to_owned();
    let expected = r#"
        impl This for That
        {
            #[foo]
            type FOO = Bar;
            #[foo]
            #[bar]
            type BAR = Foo;
        }
    "#;

    let src_code = ipl.generate();
    println!("{}", &src_code);

    assert_eq!(norm_whitespace(expected), norm_whitespace(&src_code));
}

#[test]
fn impl_with_trait_normalized_text() {
    let ipl = Impl::new("That")
        .set_impl_trait(Some(Trait::new("This")))
        .add_function(Function::new("foo"))
        .to_owned();
    assert_eq!(
        norm_whitespace(&impl_src(&ipl)).replace('\n', " "),
        "impl This for That { fn foo() -> () { } }"
    );
}

#[test]
fn impl_trait_can_be_removed_and_generics_repeat() {
    let ipl = Impl::new("Wrapper")
        .set_impl_trait(Some(Trait::new("Display")))
        .set_impl_trait(None)
        .add_generics(vec![Generic::new("A"), Generic::new("B")])
        .to_owned();
    assert_eq!(
        norm_whitespace(&impl_src(&ipl)),
        "impl<A, B> Wrapper<A, B>\nwhere\nA: ,\nB: ,\n{\n}"
    );
}

#[test]
fn impl_definitions_come_before_functions() {
    let ipl = Impl::new("X")
        .set_impl_trait(Some(Trait::new("Iterator")))
        .add_function(Function::new("next").set_return_ty("Option<u8>").set_body("None").to_owned())
        .add_associated_type(AssociatedTypeDefinition::new("Item", "u8"))
        .to_owned();
    assert_eq!(
        norm_whitespace(&impl_src(&ipl)),
        "impl Iterator for X\n{\ntype Item = u8;\nfn next() -> Option<u8>\n{\nNone\n}\n}"
    );
}
