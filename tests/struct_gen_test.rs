use proffer::{
    AttributeExt, DocExt, Field, FieldExt, Generic, GenericExt, Generics, SrcCode, SrcCodeVec, Struct, TraitBoundExt, norm_whitespace,
};

fn struct_src(s: &Struct) -> String {
    let src_code = s.generate();
    syn::parse_str::<syn::ItemStruct>(&src_code).unwrap();
    src_code
}

#[test]
fn struct_gen_test_basic_gen() {
    let struct_ = Struct::new("Basic")
        .set_is_pub(true)
        .add_attribute("#[derive(Clone)]")
        .add_field(
            Field::new("field1", "String")
                .set_is_pub(true)
                .add_attribute("#[serde = w]")
                .add_doc("/// Some example documentation")
                .add_docs(vec!["/// Another line", "/// and another"])
                .to_owned(),
        )
        .add_field(Field::new("field2", "usize"))
        .to_owned();
    let expected = r#"
        #[derive(Clone)]
        pub struct Basic
        {
            /// Some example documentation
            /// Another line
            /// and another
            #[serde = w]
            pub field1: String,
            field2: usize,
        }
        "#;
    let src_code = struct_src(&struct_);
    println!("{}", &src_code);
    assert_eq!(norm_whitespace(expected), norm_whitespace(&src_code));
}

#[test]
fn generic_gen() {
    let s = Struct::new("Generic")
        .set_is_pub(true)
        .add_generic(Generic::new("T").add_trait_bounds(vec!["ToString"]).to_owned())
        .add_generic(
            Generic::new("S")
                .add_trait_bounds(vec!["ToString", "Number"])
                .to_owned(),
        )
        .add_fields(vec![Field::new("field1", "S"), Field::new("field2", "T")])
        .to_owned();
    let src_code = struct_src(&s);
    println!("{}", &src_code);
    let expected = r#"
        pub struct Generic<T, S>
            where
                T: ToString,
                S: ToString + Number,
        {
            field1: S,
            field2: T,
        }
    "#;
    assert_eq!(norm_whitespace(expected), norm_whitespace(&src_code));
}

#[test]
fn gen_with_doc() {
    let struct_ = Struct::new("Basic")
        .set_is_pub(true)
        .add_doc("/// Some example documentation")
        .add_docs(vec!["/// Another line", "/// and another"])
        .to_owned();
    let expected = r#"
        /// Some example documentation
        /// Another line
        /// and another
        pub struct Basic
        {
        }
        "#;
    let src_code = struct_src(&struct_);
    println!("{}", &src_code);
    assert_eq!(norm_whitespace(expected), norm_whitespace(&src_code));
}

#[test]
fn field_scenario() {
    let field = Field::new("foo", "usize").generate();
    assert_eq!(norm_whitespace(&field), "foo: usize,");
    assert_eq!(field, "foo: usize,\n");
}

#[test]
fn field_with_annotations() {
    let field = Field::new("id", "u64")
        .add_annotations(vec!["#[serde(rename = \"ID\")]", "#[allow(unused)]"])
        .add_annotation("#[doc(hidden)]")
        .set_is_pub(true)
        .to_owned();
    assert_eq!(
        field.generate(),
        "#[serde(rename = \"ID\")]\n#[allow(unused)]\n#[doc(hidden)]\npub id: u64,\n"
    );
}

#[test]
fn struct_without_generics_has_no_clause() {
    let s = Struct::new("Plain").add_field(Field::new("a", "u8")).to_owned();
    let text = struct_src(&s);
    assert!(!text.contains('<'));
    assert!(!text.contains("where"));
    assert_eq!(text, "struct Plain\n{\na: u8,\n}\n");
}

#[test]
fn fields_keep_their_order() {
    let s = Struct::new("O")
        .add_field(Field::new("z", "u8"))
        .add_field(Field::new("a", "u8"))
        .add_attributes(vec!["#[repr(C)]", "#[derive(Debug)]"])
        .to_owned();
    assert_eq!(
        norm_whitespace(&struct_src(&s)),
        "#[repr(C)]\n#[derive(Debug)]\nstruct O\n{\nz: u8,\na: u8,\n}"
    );
}

#[test]
fn generics_collection() {
    let mut gs = Generics::new(vec![Generic::new("T")]);
    assert_eq!(gs.len(), 1);
    assert!(!gs.is_empty());
    gs.add_generic(Generic::new("U").add_trait_bound("Copy").add_trait_bound("Eq").to_owned());
    assert_eq!(gs.generate(), "<T, U>\nwhere\nT: ,\nU: Copy + Eq,\n");
    let none = Generics::new(vec![]);
    assert!(none.is_empty());
    assert_eq!(none.generate(), "");
    assert_eq!(Generic::new("K").name(), "K");
}

#[test]
fn field_list_rendered_one_by_one() {
    let fields = vec![Field::new("a", "u8"), Field::new("b", "u16")];
    assert_eq!(fields.to_src_vec(), vec!["a: u8,\n".to_string(), "b: u16,\n".to_string()]);
}
