use proffer::{
    AttributeExt, DocExt, Enum, Function, Impl, Module, SrcCode, Struct, Trait, norm_whitespace,
};

fn module_src(m: &Module) -> String {
    let src_code = m.generate();
    syn::parse_str::<syn::ItemMod>(&src_code).unwrap();
    src_code
}

#[test]
fn test_module_basic() {
    let mut m = Module::new("foo");
    m.set_is_pub(true)
        .add_trait(Trait::new("Bar").set_is_pub(true).to_owned())
        .add_function(Function::new("foo"))
        .add_struct(Struct::new("Thingy"))
        .add_impl(Impl::new("Thingy"))
        .add_attribute("#[special_outer_attribute]")
        .add_attribute("#![special_inner_attribute]")
        .add_doc("//! Module level docs")
        .add_use_statement("use super::*;")
        .add_enum(Enum::new("EnumThingy"));
    let src_code = module_src(&m);

    let expected = r#"
        #[special_outer_attribute]
        pub mod foo
        {
            #![special_inner_attribute]
            //! Module level docs

            use super::*;

            pub trait Bar
            {
            }

            fn foo() -> ()
            {
            }

            struct Thingy
            {
            }

            impl Thingy
            {
            }

            enum EnumThingy
            {
            }
        }
    "#;
    println!("{}", &src_code);
    assert_eq!(norm_whitespace(expected), norm_whitespace(&src_code));
}

#[test]
fn test_get_submodules_of_module() {
    let mut module = Module::new("Foo");

    assert!(module.get_submodule("Bar1").is_none());
    module.add_submodule(Module::new("Bar1"));
    assert!(module.get_submodule("Bar1").is_some());

    assert!(module.get_submodule_mut("Bar2").is_none());
    module.add_submodule(Module::new("Bar2"));
    assert!(module.get_submodule_mut("Bar2").is_some());
}

#[test]
fn test_module_submodule() {
    let mut inner = Module::new("foo");
    inner
        .set_is_pub(true)
        .add_trait(Trait::new("Bar").set_is_pub(true).to_owned())
        .add_function(Function::new("foo"))
        .add_struct(Struct::new("Thingy"))
        .add_impl(Impl::new("Thingy"))
        .add_attribute("#[special_outer_attribute]")
        .add_attribute("#![special_inner_attribute]")
        .add_doc("//! Module level docs")
        .add_enum(Enum::new("EnumThingy"));
    let mut m = Module::new("upper_module");
    m.set_is_pub(true).add_submodule(inner);
    let src_code = module_src(&m);

    let expected = r#"
        pub mod upper_module
        {

            #[special_outer_attribute]
            pub mod foo
            {
                #![special_inner_attribute]
                //! Module level docs

                pub trait Bar
                {
                }

                fn foo() -> ()
                {
                }

                struct Thingy
                {
                }

                impl Thingy
                {
                }

                enum EnumThingy
                {
                }
            }
        }
    "#;
    println!("{}", &src_code);
    assert_eq!(norm_whitespace(expected), norm_whitespace(&src_code));
}

#[test]
fn submodule_of_same_name_is_replaced_in_place() {
    let mut replacement = Module::new("a");
    replacement.set_is_pub(true);
    let mut m = Module::new("top");
    m.add_submodule(Module::new("a"))
        .add_submodule(Module::new("b"))
        .add_submodule(replacement);
    assert_eq!(
        norm_whitespace(&module_src(&m)),
        "mod top\n{\npub mod a\n{\n}\nmod b\n{\n}\n}"
    );
}

#[test]
fn submodule_changed_through_lookup() {
    let mut m = Module::new("top");
    m.add_submodule(Module::new("inner"));
    match m.get_submodule_mut("inner") {
        Some(sub) => {
            sub.add_struct(Struct::new("S"));
        }
        None => panic!("the submodule was not found"),
    }
    assert_eq!(
        norm_whitespace(&module_src(&m)),
        "mod top\n{\nmod inner\n{\nstruct S\n{\n}\n}\n}"
    );
    assert!(m.get_submodule("other").is_none());
}

#[test]
fn module_items_grouped_by_kind() {
    let mut m = Module::new("m");
    m.add_enum(Enum::new("E"))
        .add_struct(Struct::new("S"))
        .add_outer_annotation("#[cfg(test)]")
        .add_inner_annotation("#![allow(dead_code)]")
        .add_docs(vec!["//! one", "//! two"])
        .add_function(Function::new("f"))
        .add_trait(Trait::new("T"));
    assert_eq!(
        norm_whitespace(&module_src(&m)),
        "#[cfg(test)]\nmod m\n{\n#![allow(dead_code)]\n//! one\n//! two\ntrait T\n{\n}\nfn f() -> ()\n{\n}\nstruct S\n{\n}\nenum E\n{\n}\n}"
    );
}
