use proffer::{
    AttributeExt, Function, FunctionSignature, Generic, GenericExt, Parameter, SrcCode, TraitBoundExt, norm_whitespace,
};

fn function_src(f: &Function) -> String {
    let src_code = f.generate();
    syn::parse_str::<syn::ItemFn>(&src_code).unwrap();
    src_code
}

#[test]
fn function_gen_basic() {
    let function = Function::new("foo");

    let expected = r#"
        fn foo() -> ()
        {
        }
    "#;

    let src_code = function_src(&function);
    println!("{}", &src_code);
    assert_eq!(norm_whitespace(expected), norm_whitespace(&src_code));
}

#[test]
fn function_gen_parameters() {
    let function = Function::new("foo")
        .set_is_pub(true)
        .add_parameter(Parameter::new("bar1", "usize"))
        .add_parameter(Parameter::new("bar2", "&str"))
        .to_owned();
    let expected = r#"
        pub fn foo(bar1: usize, bar2: &str) -> ()
        {
        }
    "#;

    let src_code = function_src(&function);
    println!("{}", &src_code);
    assert_eq!(norm_whitespace(expected), norm_whitespace(&src_code));
}

#[test]
fn function_with_generic() {
    let function = Function::new("foo")
        .set_is_pub(true)
        .add_parameter(Parameter::new("bar1", "T"))
        .add_parameter(Parameter::new("bar2", "S"))
        .add_generic(
            Generic::new("T")
                .add_trait_bounds(vec!["ToString", "Number"])
                .to_owned(),
        )
        .add_generic(Generic::new("S").add_trait_bounds(vec!["Display"]).to_owned())
        .to_owned();
    let expected = r#"
        pub fn foo<T, S>(bar1: T, bar2: S) -> ()
            where
                T: ToString + Number,
                S: Display,
        {
        }
    "#;

    let src_code = function_src(&function);
    println!("{}", &src_code);
    assert_eq!(norm_whitespace(expected), norm_whitespace(&src_code));
}

#[test]
fn function_with_generic_no_bounds() {
    let function = Function::new("foo")
        .set_is_pub(true)
        .add_parameter(Parameter::new("bar1", "T"))
        .add_parameter(Parameter::new("bar2", "S"))
        .add_generic(Generic::new("T"))
        .add_generic(Generic::new("S"))
        .to_owned();
    let expected = r#"
        pub fn foo<T, S>(bar1: T, bar2: S) -> ()
            where
                T: ,
                S: ,
        {
        }
    "#;

    let src_code = function_src(&function);
    println!("{}", &src_code);
    assert_eq!(norm_whitespace(expected), norm_whitespace(&src_code));
}

#[test]
fn function_with_async() {
    let function = Function::new("foo")
        .set_is_pub(true)
        .set_is_async(true)
        .to_owned();

    let expected = r#"
        pub async fn foo() -> ()
        {
        }
    "#;

    let src_code = function_src(&function);
    println!("{}", &src_code);
    assert_eq!(norm_whitespace(expected), norm_whitespace(&src_code));
}

#[test]
fn function_gen_parameter_attributes() {
    let function = Function::new("foo")
        .set_is_pub(true)
        .add_parameter(Parameter::new("bar1", "usize").add_attribute("#[foo]").to_owned())
        .add_parameter(
            Parameter::new("bar2", "&str")
                .add_attribute("#[foo]")
                .add_attribute("#[bar]")
                .to_owned(),
        )
        .to_owned();
    let expected = r#"
        pub fn foo(#[foo] bar1: usize, #[foo] #[bar] bar2: &str) -> ()
        {
        }
    "#;

    let src_code = function_src(&function);
    println!("{}", &src_code);
    assert_eq!(norm_whitespace(expected), norm_whitespace(&src_code));
}

#[test]
fn function_with_attributes() {
    let function = Function::new("foo")
        .add_attribute("#[foo]")
        .add_attribute("#[bar]")
        .add_body_attribute("#![foo]")
        .add_body_attribute("#![bar]")
        .set_body("//body")
        .to_owned();

    let expected = r#"
        #[foo]
        #[bar]
        fn foo() -> ()
        {
            #![foo]
            #![bar]
            //body
        }
    "#;

    let src_code = function_src(&function);
    println!("{}", &src_code);
    assert_eq!(norm_whitespace(expected), norm_whitespace(&src_code));
}

#[test]
fn function_push_into_body() {
    let function = Function::new("foo")
        .set_body("// Body")
        .push_into_body("// First line")
        .push_into_body("// Second line")
        .to_owned();

    let expected = r#"
        fn foo() -> ()
        {
            // Body
            // First line
            // Second line
        }
    "#;

    let src_code = function_src(&function);
    println!("{}", &src_code);
    assert_eq!(norm_whitespace(expected), norm_whitespace(&src_code));
}

#[test]
fn set_body_replaces_earlier_code() {
    let function = Function::new("foo")
        .push_into_body("let a = 1;")
        .set_body("let b = 2;")
        .set_return_ty("u8")
        .push_into_body("3")
        .to_owned();
    assert_eq!(
        norm_whitespace(&function_src(&function)),
        "fn foo() -> u8\n{\nlet b = 2;\n3\n}"
    );
}

#[test]
fn empty_function_exact_text() {
    assert_eq!(Function::new("f").generate(), "fn f() -> ()\n{\n}\n");
}

#[test]
fn signature_return_type_and_rename() {
    let sig = FunctionSignature::new("old")
        .set_name("new_name")
        .set_return_ty(Some("String"))
        .set_is_pub(true)
        .set_is_async(true)
        .add_parameter(Parameter::new("x", "u8"))
        .to_owned();
    assert_eq!(sig.generate(), "pub async fn new_name(x: u8) -> String");
    let unit = sig.clone().set_return_ty(None::<&str>).to_owned();
    assert_eq!(unit.generate(), "pub async fn new_name(x: u8) -> ()");
}

#[test]
fn parameter_text() {
    assert_eq!(Parameter::new("foo", "usize").generate(), "foo: usize");
    let p = Parameter::new("a", "u8")
        .add_attributes(vec!["#[x]", "#[y]"])
        .to_owned();
    assert_eq!(p.generate(), "#[x] #[y] a: u8");
}

#[test]
fn parameters_keep_their_order() {
    let f = Function::new("f")
        .add_parameter(Parameter::new("z", "u8"))
        .add_parameter(Parameter::new("a", "u16"))
        .add_parameter(Parameter::new("m", "u32"))
        .to_owned();
    assert_eq!(
        norm_whitespace(&function_src(&f)),
        "fn f(z: u8, a: u16, m: u32) -> ()\n{\n}"
    );
}

#[test]
fn generate_twice_gives_the_same_text() {
    let f = Function::new("f")
        .add_generic(Generic::new("T").add_trait_bound("Clone").to_owned())
        .add_parameter(Parameter::new("t", "T"))
        .to_owned();
    assert_eq!(f.generate(), f.generate());
}

#[test]
fn nodes_can_be_pushed_into_a_body() {
    let f = Function::new("f")
        .push_into_body(proffer::Struct::new("Local"))
        .push_into_body("let x = Local {};")
        .to_owned();
    assert_eq!(
        norm_whitespace(&function_src(&f)),
        "fn f() -> ()\n{\nstruct Local\n{\n}\nlet x = Local {};\n}"
    );
}
