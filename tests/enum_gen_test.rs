use proffer::{
    Enum, Generic, GenericExt, SrcCode, Variant, norm_whitespace,
};

fn enum_src(e: &Enum) -> String {
    let src_code = e.generate();
    syn::parse_str::<syn::ItemEnum>(&src_code).unwrap();
    src_code
}

#[test]
fn gen_enum_basic() {
    let e = Enum::new("Foo")
        .add_variant(Variant::new("A"))
        .add_variant(Variant::new("B"))
        .set_is_pub(true)
        .to_owned();

    let src_code = enum_src(&e);
    println!("{}", &src_code);

    let expected = r#"
        pub enum Foo
        {
            A,
            B,
        }
    "#;

    assert_eq!(norm_whitespace(expected), norm_whitespace(&src_code));
}

#[test]
fn gen_enum_with_generic() {
    let e = Enum::new("Foo")
        .add_variant(Variant::new("A"))
        .add_variant(Variant::new("B").set_inner(Some("(T)")).to_owned())
        .add_generic(Generic::new("T"))
        .to_owned();

    let src_code = enum_src(&e);
    println!("{}", &src_code);

    let expected = r#"
        enum Foo<T>
            where
                T: ,
        {
            A,
            B(T),
        }
    "#;
    assert_eq!(norm_whitespace(expected), norm_whitespace(&src_code));
}

#[test]
fn pub_enum_with_generic_normalized_text() {
    let e = Enum::new("Foo")
        .add_variant(Variant::new("A"))
        .add_variant(Variant::new("B").set_inner(Some("(T)")).to_owned())
        .add_generic(Generic::new("T"))
        .set_is_pub(true)
        .to_owned();
    let src_code = enum_src(&e);
    assert_eq!(
        norm_whitespace(&src_code).replace('\n', " "),
        "pub enum Foo<T> where T: , { A, B(T), }"
    );
}

#[test]
fn variant_payload_can_be_removed() {
    let v = Variant::new("B")
        .set_inner(Some("{ x: u8 }"))
        .set_inner(None::<&str>)
        .to_owned();
    assert_eq!(v.generate(), "B");
    let w = Variant::new("C").set_inner(Some("{ x: u8 }")).to_owned();
    assert_eq!(w.generate(), "C{ x: u8 }");
}

#[test]
fn enum_variants_keep_their_order() {
    let e = Enum::new("E")
        .add_variant(Variant::new("Z"))
        .add_variant(Variant::new("A"))
        .add_variant(Variant::new("M"))
        .to_owned();
    assert_eq!(norm_whitespace(&enum_src(&e)), "enum E\n{\nZ,\nA,\nM,\n}");
}
