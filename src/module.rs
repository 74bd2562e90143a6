//! Modules: named scopes that hold items and further modules.
use vstd::prelude::*;

use crate::attribute::{
    attribute_models, classify, extend_attributes, push_attribute, Attribute, AttributeModel,
};
use crate::decorations::{AttributeExt, DocExt};
use crate::enum_item::{enum_text, Enum, EnumModel};
use crate::field::{append_visibility, visibility};
use crate::function::{function_models, function_text, Function, FunctionModel};
use crate::impl_item::{impl_text, Impl, ImplModel};
use crate::struct_item::{struct_text, Struct, StructModel};
use crate::text::{append_lines, concat, extend_strings, lemma_lines_push, lines, texts};
use crate::trait_item::{trait_text, Trait, TraitModel};
use crate::traits::{append_all, SrcCode, SrcCodeVec};

verus! {

/// A module as a value.
pub ghost struct ModuleModel {
    pub name: Seq<char>,
    pub is_pub: bool,
    pub traits: Seq<TraitModel>,
    pub functions: Seq<FunctionModel>,
    pub structs: Seq<StructModel>,
    pub impls: Seq<ImplModel>,
    pub enums: Seq<EnumModel>,
    pub docs: Seq<Seq<char>>,
    pub submodules: Seq<ModuleModel>,
    pub attributes: Seq<AttributeModel>,
    pub use_stmts: Seq<Seq<char>>,
}

/// A module: items grouped by kind, each kind in the order of addition,
/// and submodules, each with a name of its own.
#[derive(Debug)]
pub struct Module {
    name: String,
    is_pub: bool,
    traits: Vec<Trait>,
    functions: Vec<Function>,
    structs: Vec<Struct>,
    impls: Vec<Impl>,
    enums: Vec<Enum>,
    docs: Vec<String>,
    sub_modules: Vec<Module>,
    attributes: Vec<Attribute>,
    use_stmts: Vec<String>,
}

impl View for Module {
    type V = ModuleModel;

    closed spec fn view(&self) -> ModuleModel {
        self.model()
    }
}

impl Module {
    /// The model of the module and, recursively, of its submodules.
    closed spec fn model(&self) -> ModuleModel
        decreases self,
    {
        ModuleModel {
            name: self.name@,
            is_pub: self.is_pub,
            traits: self.traits@.map_values(|t: Trait| t@),
            functions: function_models(self.functions@),
            structs: self.structs@.map_values(|s: Struct| s@),
            impls: self.impls@.map_values(|i: Impl| i@),
            enums: self.enums@.map_values(|e: Enum| e@),
            docs: texts(self.docs@),
            submodules: Seq::new(
                self.sub_modules@.len(),
                |i: int|
                    if 0 <= i < self.sub_modules@.len() {
                        self.sub_modules@[i].model()
                    } else {
                        arbitrary()
                    },
            ),
            attributes: attribute_models(self.attributes@),
            use_stmts: texts(self.use_stmts@),
        }
    }
}

/// The texts of the attributes of the list that apply to the enclosing
/// scope (`scope`) or to the item that follows (`!scope`), in order.
pub open spec fn scoped_texts(attrs: Seq<AttributeModel>, scope: bool) -> Seq<Seq<char>>
    decreases attrs.len(),
{
    if attrs.len() == 0 {
        Seq::empty()
    } else if attrs.last().scope == scope {
        scoped_texts(attrs.drop_last(), scope).push(attrs.last().text)
    } else {
        scoped_texts(attrs.drop_last(), scope)
    }
}

/// The texts of the first `n` modules of `ms`, one after another.
pub open spec fn modules_text(ms: Seq<ModuleModel>, n: int) -> Seq<char>
    decreases ms, n,
{
    if n <= 0 || n > ms.len() {
        Seq::empty()
    } else {
        modules_text(ms, n - 1) + module_text(ms[n - 1])
    }
}

/// Item attribute lines, `pub mod name`, then a block with the scope
/// attribute lines, the documentation lines, the use statements, the
/// traits, functions, structs, impl blocks and enums, and last the
/// submodules.
#[verifier::opaque]
pub open spec fn module_text(m: ModuleModel) -> Seq<char>
    decreases m, 0int,
{
    lines(scoped_texts(m.attributes, false)) + visibility(m.is_pub) + "mod "@ + m.name + "\n{\n"@
        + lines(scoped_texts(m.attributes, true)) + lines(m.docs) + lines(m.use_stmts) + concat(
        m.traits.map_values(|t: TraitModel| trait_text(t)),
    ) + concat(m.functions.map_values(|f: FunctionModel| function_text(f))) + concat(
        m.structs.map_values(|s: StructModel| struct_text(s)),
    ) + concat(m.impls.map_values(|i: ImplModel| impl_text(i))) + concat(
        m.enums.map_values(|e: EnumModel| enum_text(e)),
    ) + modules_text(m.submodules, m.submodules.len() as int) + "}\n"@
}

/// Whether `i` is the first position in `ms` of a module named `name`.
pub open spec fn is_first_named(ms: Seq<ModuleModel>, name: Seq<char>, i: int) -> bool {
    &&& 0 <= i < ms.len()
    &&& ms[i].name == name
    &&& forall|j: int| 0 <= j < i ==> ms[j].name != name
}

/// The first position in `ms` of a module named `name`, if there is one.
pub open spec fn named(ms: Seq<ModuleModel>, name: Seq<char>) -> Option<int> {
    if exists|i: int| is_first_named(ms, name, i) {
        Some(choose|i: int| is_first_named(ms, name, i))
    } else {
        None
    }
}

/// `ms` with `m` in place of the module of the same name, or with `m` added
/// at the end when there is none.
pub open spec fn with_submodule(ms: Seq<ModuleModel>, m: ModuleModel) -> Seq<ModuleModel> {
    match named(ms, m.name) {
        Some(i) => ms.update(i, m),
        None => ms.push(m),
    }
}

proof fn lemma_modules_text_step(ms: Seq<ModuleModel>, n: int)
    requires
        0 <= n < ms.len(),
    ensures
        modules_text(ms, n + 1) == modules_text(ms, n) + module_text(ms[n]),
{
    reveal(module_text);
}

broadcast proof fn lemma_update_view(before: Module, after: Module, i: int)
    requires
        0 <= i < before.sub_modules@.len(),
        after.sub_modules@ == before.sub_modules@.update(i, after.sub_modules@[i]),
        after.name == before.name,
        after.is_pub == before.is_pub,
        after.traits == before.traits,
        after.functions == before.functions,
        after.structs == before.structs,
        after.impls == before.impls,
        after.enums == before.enums,
        after.docs == before.docs,
        after.attributes == before.attributes,
        after.use_stmts == before.use_stmts,
    ensures
        #![trigger after@, before@.submodules.update(i, after.sub_modules@[i]@)]
        after@ == (ModuleModel {
            submodules: before@.submodules.update(i, after.sub_modules@[i]@),
            ..before@
        }),
{
    before.lemma_submodules();
    after.lemma_submodules();
    assert(after@.submodules =~= before@.submodules.update(i, after.sub_modules@[i]@));
}

proof fn lemma_named(ms: Seq<ModuleModel>, name: Seq<char>, i: int)
    requires
        is_first_named(ms, name, i),
    ensures
        named(ms, name) == Some(i),
{
    let k = choose|k: int| is_first_named(ms, name, k);
    assert(is_first_named(ms, name, k));
    if k < i {
        assert(ms[k].name != name);
    } else if i < k {
        assert(ms[i].name != name);
    }
}

impl Module {
    proof fn lemma_submodules(&self)
        ensures
            self@.submodules.len() == self.sub_modules@.len(),
            forall|i: int|
                0 <= i < self.sub_modules@.len() ==> #[trigger] self@.submodules[i]
                    == self.sub_modules@[i]@,
    {
    }

    /// The position of the first submodule named `name`, if there is one.
    fn position(&self, name: &String) -> (r: Option<usize>)
        ensures
            match r {
                Some(i) => named(self@.submodules, name@) == Some(i as int) && i
                    < self.sub_modules@.len(),
                None => named(self@.submodules, name@) is None,
            },
    {
        proof {
            self.lemma_submodules();
        }
        let mut i: usize = 0;
        while i < self.sub_modules.len()
            invariant
                i <= self.sub_modules.len(),
                self@.submodules.len() == self.sub_modules@.len(),
                forall|j: int| 0 <= j < i ==> self@.submodules[j].name != name@,
            decreases self.sub_modules.len() - i,
        {
            assert(self@.submodules[i as int] == self.sub_modules@[i as int]@);
            if self.sub_modules[i].name == *name {
                proof {
                    lemma_named(self@.submodules, name@, i as int);
                }
                return Some(i);
            }
            i += 1;
        }
        assert(!exists|k: int| is_first_named(self@.submodules, name@, k));
        None
    }

    /// A private module `name` holding nothing.
    pub fn new(name: &str) -> (r: Module)
        ensures
            r@ == (ModuleModel {
                name: name@,
                is_pub: false,
                traits: seq![],
                functions: seq![],
                structs: seq![],
                impls: seq![],
                enums: seq![],
                docs: seq![],
                submodules: seq![],
                attributes: seq![],
                use_stmts: seq![],
            }),
    {
        let r = Module {
            name: name.to_string(),
            is_pub: false,
            traits: Vec::new(),
            functions: Vec::new(),
            structs: Vec::new(),
            impls: Vec::new(),
            enums: Vec::new(),
            docs: Vec::new(),
            sub_modules: Vec::new(),
            attributes: Vec::new(),
            use_stmts: Vec::new(),
        };
        assert(r@.traits =~= seq![]);
        assert(r@.functions =~= seq![]);
        assert(r@.structs =~= seq![]);
        assert(r@.impls =~= seq![]);
        assert(r@.enums =~= seq![]);
        assert(r@.docs =~= seq![]);
        assert(r@.submodules =~= seq![]);
        assert(r@.attributes =~= seq![]);
        assert(r@.use_stmts =~= seq![]);
        r
    }

    /// Sets whether the module is public.
    pub fn set_is_pub(&mut self, is_pub: bool) -> (r: &mut Self)
        ensures
            r@ == (ModuleModel { is_pub, ..old(self)@ }),
            *final(self) == *final(r),
    {
        self.is_pub = is_pub;
        assert(self@.submodules =~= old(self)@.submodules);
        self
    }

    /// Adds a submodule; one of the same name is replaced in its place.
    pub fn add_submodule(&mut self, module: Module) -> (r: &mut Self)
        ensures
            r@ == (ModuleModel {
                submodules: with_submodule(old(self)@.submodules, module@),
                ..old(self)@
            }),
            *final(self) == *final(r),
    {
        let ghost added = module@;
        proof {
            self.lemma_submodules();
        }
        match self.position(&module.name) {
            Some(i) => {
                self.sub_modules.set(i, module);
                proof {
                    self.lemma_submodules();
                }
                assert(self@.submodules =~= old(self)@.submodules.update(i as int, added));
            },
            None => {
                self.sub_modules.push(module);
                proof {
                    self.lemma_submodules();
                }
                assert(self@.submodules =~= old(self)@.submodules.push(added));
            },
        }
        self
    }

    /// The submodule named `name`, if there is one.
    pub fn get_submodule(&self, name: &str) -> (r: Option<&Module>)
        ensures
            match named(self@.submodules, name@) {
                Some(i) => r matches Some(m) && m@ == self@.submodules[i],
                None => r is None,
            },
    {
        let key = name.to_string();
        proof {
            self.lemma_submodules();
        }
        match self.position(&key) {
            Some(i) => Some(&self.sub_modules[i]),
            None => None,
        }
    }

    /// The submodule named `name`, to change in place, if there is one.
    pub fn get_submodule_mut(&mut self, name: &str) -> (r: Option<&mut Module>)
        ensures
            match named(old(self)@.submodules, name@) {
                Some(i) => r matches Some(m) && (*m)@ == old(self)@.submodules[i] && final(self)@
                    == (ModuleModel {
                    submodules: old(self)@.submodules.update(i, (*final(m))@),
                    ..old(self)@
                }),
                None => r is None && *final(self) == *old(self),
            },
    {
        let key = name.to_string();
        proof {
            self.lemma_submodules();
        }
        broadcast use lemma_update_view;

        match self.position(&key) {
            Some(i) => {
                Some(&mut self.sub_modules[i])
            },
            None => None,
        }
    }

    /// Adds a function after those already there.
    pub fn add_function(&mut self, func: Function) -> (r: &mut Self)
        ensures
            r@ == (ModuleModel { functions: old(self)@.functions.push(func@), ..old(self)@ }),
            *final(self) == *final(r),
    {
        self.functions.push(func);
        assert(function_models(self.functions@) =~= old(self)@.functions.push(func@));
        assert(self@.submodules =~= old(self)@.submodules);
        self
    }

    /// Adds a trait after those already there.
    pub fn add_trait(&mut self, tr8t: Trait) -> (r: &mut Self)
        ensures
            r@ == (ModuleModel { traits: old(self)@.traits.push(tr8t@), ..old(self)@ }),
            *final(self) == *final(r),
    {
        self.traits.push(tr8t);
        assert(self@.traits =~= old(self)@.traits.push(tr8t@));
        assert(self@.submodules =~= old(self)@.submodules);
        self
    }

    /// Adds a struct after those already there.
    pub fn add_struct(&mut self, stct: Struct) -> (r: &mut Self)
        ensures
            r@ == (ModuleModel { structs: old(self)@.structs.push(stct@), ..old(self)@ }),
            *final(self) == *final(r),
    {
        self.structs.push(stct);
        assert(self@.structs =~= old(self)@.structs.push(stct@));
        assert(self@.submodules =~= old(self)@.submodules);
        self
    }

    /// Adds an impl block after those already there.
    pub fn add_impl(&mut self, iml: Impl) -> (r: &mut Self)
        ensures
            r@ == (ModuleModel { impls: old(self)@.impls.push(iml@), ..old(self)@ }),
            *final(self) == *final(r),
    {
        self.impls.push(iml);
        assert(self@.impls =~= old(self)@.impls.push(iml@));
        assert(self@.submodules =~= old(self)@.submodules);
        self
    }

    /// Adds an enum after those already there.
    pub fn add_enum(&mut self, enumm: Enum) -> (r: &mut Self)
        ensures
            r@ == (ModuleModel { enums: old(self)@.enums.push(enumm@), ..old(self)@ }),
            *final(self) == *final(r),
    {
        self.enums.push(enumm);
        assert(self@.enums =~= old(self)@.enums.push(enumm@));
        assert(self@.submodules =~= old(self)@.submodules);
        self
    }

    /// Adds a `use` statement, or another statement of the module's scope,
    /// after those already there.
    pub fn add_use_statement(&mut self, stmt: &str) -> (r: &mut Self)
        ensures
            r@ == (ModuleModel { use_stmts: old(self)@.use_stmts.push(stmt@), ..old(self)@ }),
            *final(self) == *final(r),
    {
        let ghost prev = self.use_stmts@;
        self.use_stmts.push(stmt.to_string());
        assert(texts(self.use_stmts@) =~= texts(prev).push(stmt@));
        assert(self@.submodules =~= old(self)@.submodules);
        self
    }

    /// Adds an attribute that stands before the module, such as
    /// `#[cfg(test)]`.
    pub fn add_outer_annotation(&mut self, ann: &str) -> (r: &mut Self)
        requires
            classify(ann@) == Some(AttributeModel { scope: false, text: ann@ }),
        ensures
            r@ == (ModuleModel {
                attributes: old(self)@.attributes.push(AttributeModel { scope: false, text: ann@ }),
                ..old(self)@
            }),
            *final(self) == *final(r),
    {
        self.add_attribute(ann)
    }

    /// Adds an attribute that stands inside the module, such as
    /// `#![allow(dead_code)]`.
    pub fn add_inner_annotation(&mut self, ann: &str) -> (r: &mut Self)
        requires
            classify(ann@) == Some(AttributeModel { scope: true, text: ann@ }),
        ensures
            r@ == (ModuleModel {
                attributes: old(self)@.attributes.push(AttributeModel { scope: true, text: ann@ }),
                ..old(self)@
            }),
            *final(self) == *final(r),
    {
        self.add_attribute(ann)
    }

    /// Appends the text of each attribute that applies to the scope
    /// (`scope`) or to the module itself (`!scope`), on a line of its own.
    fn append_scoped_attributes(&self, buf: &mut String, scope: bool)
        ensures
            final(buf)@ == old(buf)@ + lines(scoped_texts(self@.attributes, scope)),
    {
        let ghost all = self@.attributes;
        let mut i: usize = 0;
        while i < self.attributes.len()
            invariant
                i <= self.attributes.len(),
                all == self@.attributes,
                all == attribute_models(self.attributes@),
                buf@ == old(buf)@ + lines(scoped_texts(all.take(i as int), scope)),
            decreases self.attributes.len() - i,
        {
            assert(all.take(i + 1).drop_last() =~= all.take(i as int));
            match &self.attributes[i] {
                Attribute::ItemAttr(s) => {
                    if !scope {
                        proof {
                            reveal_strlit("\n");
                            lemma_lines_push(scoped_texts(all.take(i as int), scope), s@);
                        }
                        buf.append(s.as_str());
                        buf.append("\n");
                    }
                },
                Attribute::ScopeAttr(s) => {
                    if scope {
                        proof {
                            reveal_strlit("\n");
                            lemma_lines_push(scoped_texts(all.take(i as int), scope), s@);
                        }
                        buf.append(s.as_str());
                        buf.append("\n");
                    }
                },
            }
            i += 1;
        }
        assert(all.take(i as int) =~= all);
    }

    /// Appends the rendering of each submodule, in order.
    fn append_submodules(&self, buf: &mut String)
        ensures
            final(buf)@ == old(buf)@ + modules_text(
                self@.submodules,
                self@.submodules.len() as int,
            ),
        decreases self, 0nat,
    {
        proof {
            self.lemma_submodules();
        }
        let ghost subs = self@.submodules;
        let mut i: usize = 0;
        while i < self.sub_modules.len()
            invariant
                i <= self.sub_modules.len(),
                subs.len() == self.sub_modules@.len(),
                forall|k: int| 0 <= k < subs.len() ==> #[trigger] subs[k] == self.sub_modules@[k]@,
                buf@ == old(buf)@ + modules_text(subs, i as int),
            decreases self.sub_modules.len() - i,
        {
            let s = self.sub_modules[i].render();
            buf.append(s.as_str());
            assert(subs[i as int] == self.sub_modules@[i as int]@);
            proof {
                lemma_modules_text_step(subs, i as int);
            }
            i += 1;
        }
    }

    /// Renders the module and, recursively, its submodules.
    fn render(&self) -> (r: String)
        ensures
            r@ == module_text(self@),
        decreases self, 1nat,
    {
        let mut r = String::new();
        self.append_scoped_attributes(&mut r, false);
        append_visibility(&mut r, self.is_pub);
        r.append("mod ");
        r.append(self.name.as_str());
        r.append("\n{\n");
        self.append_scoped_attributes(&mut r, true);
        append_lines(&mut r, &self.docs);
        append_lines(&mut r, &self.use_stmts);
        append_all(&mut r, &self.traits);
        assert(self.traits.srcs() =~= self@.traits.map_values(|t: TraitModel| trait_text(t)));
        append_all(&mut r, &self.functions);
        assert(self.functions.srcs() =~= self@.functions.map_values(
            |f: FunctionModel| function_text(f),
        ));
        append_all(&mut r, &self.structs);
        assert(self.structs.srcs() =~= self@.structs.map_values(|s: StructModel| struct_text(s)));
        append_all(&mut r, &self.impls);
        assert(self.impls.srcs() =~= self@.impls.map_values(|i: ImplModel| impl_text(i)));
        append_all(&mut r, &self.enums);
        assert(self.enums.srcs() =~= self@.enums.map_values(|e: EnumModel| enum_text(e)));
        self.append_submodules(&mut r);
        proof {
            reveal(module_text);
        }
        r.append("}\n");
        r
    }
}

impl AttributeExt for Module {
    open spec fn attributes_of(m: ModuleModel) -> Seq<AttributeModel> {
        m.attributes
    }

    open spec fn with_attributes(m: ModuleModel, a: Seq<AttributeModel>) -> ModuleModel {
        ModuleModel { attributes: a, ..m }
    }

    fn add_attribute(&mut self, attribute: &str) -> (r: &mut Self) {
        push_attribute(&mut self.attributes, attribute);
        assert(self@.submodules =~= old(self)@.submodules);
        self
    }

    fn add_attributes(&mut self, attributes: Vec<&str>) -> (r: &mut Self) {
        extend_attributes(&mut self.attributes, attributes);
        assert(self@.submodules =~= old(self)@.submodules);
        self
    }
}

impl DocExt for Module {
    open spec fn docs_of(m: ModuleModel) -> Seq<Seq<char>> {
        m.docs
    }

    open spec fn with_docs(m: ModuleModel, d: Seq<Seq<char>>) -> ModuleModel {
        ModuleModel { docs: d, ..m }
    }

    fn add_doc(&mut self, doc: &str) -> (r: &mut Self) {
        let ghost prev = self.docs@;
        self.docs.push(doc.to_string());
        assert(texts(self.docs@) =~= texts(prev).push(doc@));
        assert(self@.submodules =~= old(self)@.submodules);
        self
    }

    fn add_docs(&mut self, docs: Vec<&str>) -> (r: &mut Self) {
        extend_strings(&mut self.docs, docs);
        assert(self@.submodules =~= old(self)@.submodules);
        self
    }
}

impl SrcCode for Module {
    open spec fn src(&self) -> Seq<char> {
        module_text(self@)
    }

    fn generate(&self) -> (r: String) {
        self.render()
    }
}

} // verus!
