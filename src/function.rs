//! Functions and methods: a signature, made of parameters, generics and a
//! return type, and a body.
use vstd::prelude::*;

use crate::attribute::{
    append_attribute_lines, attribute_models, attribute_strings, attribute_texts, classify,
    extend_attributes, push_attribute, Attribute, AttributeModel,
};
use crate::decorations::{AttributeExt, GenericExt};
use crate::field::{append_visibility, visibility};
use crate::generics::{type_params, where_clause, Generic, GenericModel, Generics};
use crate::text::{append_joined, append_lines, concat, join, lemma_concat_push, lines, texts};
use crate::traits::{SrcCode, SrcCodeVec};

verus! {

/// A parameter as a value.
pub ghost struct ParameterModel {
    pub name: Seq<char>,
    pub ty: Seq<char>,
    pub attributes: Seq<AttributeModel>,
}

/// One parameter of a function: `name: ty`, with attributes before it.
#[derive(Clone, Debug)]
pub struct Parameter {
    name: String,
    ty: String,
    attributes: Vec<Attribute>,
}

impl View for Parameter {
    type V = ParameterModel;

    closed spec fn view(&self) -> ParameterModel {
        ParameterModel {
            name: self.name@,
            ty: self.ty@,
            attributes: attribute_models(self.attributes@),
        }
    }
}

/// Each text followed by a space.
pub open spec fn spaced(ts: Seq<Seq<char>>) -> Seq<char> {
    concat(ts.map_values(|t: Seq<char>| t + " "@))
}

/// The attributes, each followed by a space, then `name: ty`.
pub open spec fn parameter_text(p: ParameterModel) -> Seq<char> {
    spaced(attribute_texts(p.attributes)) + p.name + ": "@ + p.ty
}

/// The models of a list of parameters.
pub open spec fn parameter_models(v: Seq<Parameter>) -> Seq<ParameterModel> {
    v.map_values(|p: Parameter| p@)
}

impl Parameter {
    /// The parameter `name: ty` without attributes.
    pub fn new(name: &str, ty: &str) -> (r: Parameter)
        ensures
            r@ == (ParameterModel { name: name@, ty: ty@, attributes: seq![] }),
    {
        let r = Parameter { name: name.to_string(), ty: ty.to_string(), attributes: Vec::new() };
        assert(r@.attributes =~= seq![]);
        r
    }
}

impl AttributeExt for Parameter {
    open spec fn attributes_of(m: ParameterModel) -> Seq<AttributeModel> {
        m.attributes
    }

    open spec fn with_attributes(m: ParameterModel, a: Seq<AttributeModel>) -> ParameterModel {
        ParameterModel { attributes: a, ..m }
    }

    fn add_attribute(&mut self, attribute: &str) -> (r: &mut Self) {
        push_attribute(&mut self.attributes, attribute);
        self
    }

    fn add_attributes(&mut self, attributes: Vec<&str>) -> (r: &mut Self) {
        extend_attributes(&mut self.attributes, attributes);
        self
    }
}

impl SrcCode for Parameter {
    open spec fn src(&self) -> Seq<char> {
        parameter_text(self@)
    }

    fn generate(&self) -> (r: String) {
        let mut r = String::new();
        let attrs = attribute_strings(&self.attributes);
        let ghost parts = texts(attrs@).map_values(|t: Seq<char>| t + " "@);
        let mut i: usize = 0;
        while i < attrs.len()
            invariant
                i <= attrs.len(),
                parts == texts(attrs@).map_values(|t: Seq<char>| t + " "@),
                r@ == concat(parts.take(i as int)),
            decreases attrs.len() - i,
        {
            r.append(attrs[i].as_str());
            r.append(" ");
            proof {
                lemma_concat_push(parts.take(i as int), parts[i as int]);
                assert(parts.take(i as int).push(parts[i as int]) =~= parts.take(i + 1));
            }
            i += 1;
        }
        assert(parts.take(i as int) =~= parts);
        r.append(self.name.as_str());
        r.append(": ");
        r.append(self.ty.as_str());
        r
    }
}

/// A signature as a value.
pub ghost struct SignatureModel {
    pub name: Seq<char>,
    pub is_pub: bool,
    pub is_async: bool,
    pub parameters: Seq<ParameterModel>,
    pub generics: Seq<GenericModel>,
    pub return_ty: Option<Seq<char>>,
    pub attributes: Seq<AttributeModel>,
}

/// The signature of a function or method.
#[derive(Clone, Debug)]
pub struct FunctionSignature {
    name: String,
    is_pub: bool,
    is_async: bool,
    parameters: Vec<Parameter>,
    generics: Generics,
    return_ty: Option<String>,
    attributes: Vec<Attribute>,
}

impl View for FunctionSignature {
    type V = SignatureModel;

    closed spec fn view(&self) -> SignatureModel {
        SignatureModel {
            name: self.name@,
            is_pub: self.is_pub,
            is_async: self.is_async,
            parameters: parameter_models(self.parameters@),
            generics: self.generics@,
            return_ty: match self.return_ty {
                Some(s) => Some(s@),
                None => None,
            },
            attributes: attribute_models(self.attributes@),
        }
    }
}

/// The return type, `()` when none is set.
pub open spec fn return_type(t: Option<Seq<char>>) -> Seq<char> {
    match t {
        Some(s) => s,
        None => "()"@,
    }
}

/// `async ` when `is_async` holds, else nothing.
pub open spec fn asyncness(is_async: bool) -> Seq<char> {
    if is_async {
        "async "@
    } else {
        Seq::empty()
    }
}

/// A line break and the where clause; nothing when there is no generic
/// parameter.
pub open spec fn where_suffix(gs: Seq<GenericModel>) -> Seq<char> {
    if gs.len() == 0 {
        Seq::empty()
    } else {
        seq!['\n'] + where_clause(gs)
    }
}

/// Attribute lines, then
/// `pub async fn name<T>(a: A, b: B) -> R` and the where clause.
pub open spec fn signature_text(s: SignatureModel) -> Seq<char> {
    lines(attribute_texts(s.attributes)) + visibility(s.is_pub) + asyncness(s.is_async) + "fn "@
        + s.name + type_params(s.generics) + "("@ + join(
        s.parameters.map_values(|p: ParameterModel| parameter_text(p)),
        ", "@,
    ) + ") -> "@ + return_type(s.return_ty) + where_suffix(s.generics)
}

/// The models of a list of signatures.
pub open spec fn signature_models(v: Seq<FunctionSignature>) -> Seq<SignatureModel> {
    v.map_values(|s: FunctionSignature| s@)
}

impl FunctionSignature {
    /// The signature of a private, synchronous function `name` without
    /// parameters, generics, return type or attributes.
    pub fn new(name: &str) -> (r: FunctionSignature)
        ensures
            r@ == (SignatureModel {
                name: name@,
                is_pub: false,
                is_async: false,
                parameters: seq![],
                generics: seq![],
                return_ty: None,
                attributes: seq![],
            }),
    {
        let r = FunctionSignature {
            name: name.to_string(),
            is_pub: false,
            is_async: false,
            parameters: Vec::new(),
            generics: Generics::empty(),
            return_ty: None,
            attributes: Vec::new(),
        };
        assert(r@.parameters =~= seq![]);
        assert(r@.attributes =~= seq![]);
        r
    }

    /// Sets whether the function is `async`.
    pub fn set_is_async(&mut self, is_async: bool) -> (r: &mut Self)
        ensures
            r@ == (SignatureModel { is_async, ..old(self)@ }),
            *final(self) == *final(r),
    {
        self.is_async = is_async;
        self
    }

    /// Adds a parameter after those already there.
    pub fn add_parameter(&mut self, param: Parameter) -> (r: &mut Self)
        ensures
            r@ == (SignatureModel { parameters: old(self)@.parameters.push(param@), ..old(self)@ }),
            *final(self) == *final(r),
    {
        self.parameters.push(param);
        assert(parameter_models(self.parameters@) =~= old(self)@.parameters.push(param@));
        self
    }

    /// Sets the return type; with `None` the function returns `()`.
    pub fn set_return_ty(&mut self, ty: Option<&str>) -> (r: &mut Self)
        ensures
            r@ == (SignatureModel {
                return_ty: match ty {
                    Some(s) => Some(s@),
                    None => None,
                },
                ..old(self)@
            }),
            *final(self) == *final(r),
    {
        self.return_ty = match ty {
            Some(s) => Some(s.to_string()),
            None => None,
        };
        self
    }

    /// Sets whether the function is public.
    pub fn set_is_pub(&mut self, is_pub: bool) -> (r: &mut Self)
        ensures
            r@ == (SignatureModel { is_pub, ..old(self)@ }),
            *final(self) == *final(r),
    {
        self.is_pub = is_pub;
        self
    }

    /// Renames the function.
    pub fn set_name(&mut self, name: &str) -> (r: &mut Self)
        ensures
            r@ == (SignatureModel { name: name@, ..old(self)@ }),
            *final(self) == *final(r),
    {
        self.name = name.to_string();
        self
    }
}

impl AttributeExt for FunctionSignature {
    open spec fn attributes_of(m: SignatureModel) -> Seq<AttributeModel> {
        m.attributes
    }

    open spec fn with_attributes(m: SignatureModel, a: Seq<AttributeModel>) -> SignatureModel {
        SignatureModel { attributes: a, ..m }
    }

    fn add_attribute(&mut self, attribute: &str) -> (r: &mut Self) {
        push_attribute(&mut self.attributes, attribute);
        self
    }

    fn add_attributes(&mut self, attributes: Vec<&str>) -> (r: &mut Self) {
        extend_attributes(&mut self.attributes, attributes);
        self
    }
}

impl GenericExt for FunctionSignature {
    open spec fn generics_of(m: SignatureModel) -> Seq<GenericModel> {
        m.generics
    }

    open spec fn with_generics(m: SignatureModel, g: Seq<GenericModel>) -> SignatureModel {
        SignatureModel { generics: g, ..m }
    }

    fn add_generic(&mut self, generic: Generic) -> (r: &mut Self) {
        self.generics.add_generic(generic);
        self
    }

    fn add_generics(&mut self, generics: Vec<Generic>) -> (r: &mut Self) {
        self.generics.add_generics(generics);
        self
    }
}

impl SrcCode for FunctionSignature {
    open spec fn src(&self) -> Seq<char> {
        signature_text(self@)
    }

    fn generate(&self) -> (r: String) {
        let mut r = String::new();
        append_attribute_lines(&mut r, &self.attributes);
        append_visibility(&mut r, self.is_pub);
        if self.is_async {
            r.append("async ");
        }
        r.append("fn ");
        r.append(self.name.as_str());
        self.generics.append_type_params(&mut r);
        r.append("(");
        let params = self.parameters.to_src_vec();
        assert(texts(params@) =~= self@.parameters.map_values(
            |p: ParameterModel| parameter_text(p),
        ));
        append_joined(&mut r, &params, ", ");
        r.append(") -> ");
        match &self.return_ty {
            Some(t) => r.append(t.as_str()),
            None => r.append("()"),
        }
        if self.generics.len() > 0 {
            proof {
                reveal_strlit("\n");
            }
            r.append("\n");
            self.generics.append_where_clause(&mut r);
        }
        r
    }
}

/// A body as a value.
pub ghost struct BodyModel {
    pub lines: Seq<Seq<char>>,
    pub attributes: Seq<AttributeModel>,
}

/// The body of a function: attributes of its scope, then lines of code.
#[derive(Clone, Debug)]
pub struct FunctionBody {
    body: Vec<String>,
    attributes: Vec<Attribute>,
}

impl View for FunctionBody {
    type V = BodyModel;

    closed spec fn view(&self) -> BodyModel {
        BodyModel { lines: texts(self.body@), attributes: attribute_models(self.attributes@) }
    }
}

/// Attribute lines, then the lines of code.
pub open spec fn body_text(b: BodyModel) -> Seq<char> {
    lines(attribute_texts(b.attributes)) + lines(b.lines)
}

impl FunctionBody {
    /// An empty body.
    pub fn new() -> (r: FunctionBody)
        ensures
            r@ == (BodyModel { lines: seq![], attributes: seq![] }),
    {
        let r = FunctionBody { body: Vec::new(), attributes: Vec::new() };
        assert(r@.lines =~= seq![]);
        assert(r@.attributes =~= seq![]);
        r
    }

    /// Replaces the code with `code`.
    pub fn set_code(&mut self, code: &str) -> (r: &mut Self)
        ensures
            r@ == (BodyModel { lines: seq![code@], ..old(self)@ }),
            *final(self) == *final(r),
    {
        self.body = vec![code.to_string()];
        assert(texts(self.body@) =~= seq![code@]);
        self
    }

    /// Adds code after the code already there.
    pub fn push_code(&mut self, code: &str) -> (r: &mut Self)
        ensures
            r@ == (BodyModel { lines: old(self)@.lines.push(code@), ..old(self)@ }),
            *final(self) == *final(r),
    {
        let ghost prev = self.body@;
        self.body.push(code.to_string());
        assert(texts(self.body@) =~= texts(prev).push(code@));
        self
    }
}

impl AttributeExt for FunctionBody {
    open spec fn attributes_of(m: BodyModel) -> Seq<AttributeModel> {
        m.attributes
    }

    open spec fn with_attributes(m: BodyModel, a: Seq<AttributeModel>) -> BodyModel {
        BodyModel { attributes: a, ..m }
    }

    fn add_attribute(&mut self, attribute: &str) -> (r: &mut Self) {
        push_attribute(&mut self.attributes, attribute);
        self
    }

    fn add_attributes(&mut self, attributes: Vec<&str>) -> (r: &mut Self) {
        extend_attributes(&mut self.attributes, attributes);
        self
    }
}

impl SrcCode for FunctionBody {
    open spec fn src(&self) -> Seq<char> {
        body_text(self@)
    }

    fn generate(&self) -> (r: String) {
        let mut r = String::new();
        append_attribute_lines(&mut r, &self.attributes);
        append_lines(&mut r, &self.body);
        r
    }
}

/// A function as a value.
pub ghost struct FunctionModel {
    pub signature: SignatureModel,
    pub body: BodyModel,
}

/// A function or method: a signature and a body.
#[derive(Clone, Debug)]
pub struct Function {
    signature: FunctionSignature,
    body: FunctionBody,
}

impl View for Function {
    type V = FunctionModel;

    closed spec fn view(&self) -> FunctionModel {
        FunctionModel { signature: self.signature@, body: self.body@ }
    }
}

/// The signature, then the body in a block.
pub open spec fn function_text(f: FunctionModel) -> Seq<char> {
    signature_text(f.signature) + "\n{\n"@ + body_text(f.body) + "}\n"@
}

/// The models of a list of functions.
pub open spec fn function_models(v: Seq<Function>) -> Seq<FunctionModel> {
    v.map_values(|f: Function| f@)
}

impl Function {
    /// A private, synchronous function `name` without parameters, generics,
    /// return type, attributes or code.
    pub fn new(name: &str) -> (r: Function)
        ensures
            r@ == (FunctionModel {
                signature: SignatureModel {
                    name: name@,
                    is_pub: false,
                    is_async: false,
                    parameters: seq![],
                    generics: seq![],
                    return_ty: None,
                    attributes: seq![],
                },
                body: BodyModel { lines: seq![], attributes: seq![] },
            }),
    {
        Function { signature: FunctionSignature::new(name), body: FunctionBody::new() }
    }

    /// Adds a parameter after those already there.
    pub fn add_parameter(&mut self, param: Parameter) -> (r: &mut Self)
        ensures
            r@ == (FunctionModel {
                signature: SignatureModel {
                    parameters: old(self)@.signature.parameters.push(param@),
                    ..old(self)@.signature
                },
                ..old(self)@
            }),
            *final(self) == *final(r),
    {
        self.signature.add_parameter(param);
        self
    }

    /// Sets the return type.
    pub fn set_return_ty(&mut self, ty: &str) -> (r: &mut Self)
        ensures
            r@ == (FunctionModel {
                signature: SignatureModel { return_ty: Some(ty@), ..old(self)@.signature },
                ..old(self)@
            }),
            *final(self) == *final(r),
    {
        self.signature.set_return_ty(Some(ty));
        self
    }

    /// Sets whether the function is public.
    pub fn set_is_pub(&mut self, is_pub: bool) -> (r: &mut Self)
        ensures
            r@ == (FunctionModel {
                signature: SignatureModel { is_pub, ..old(self)@.signature },
                ..old(self)@
            }),
            *final(self) == *final(r),
    {
        self.signature.set_is_pub(is_pub);
        self
    }

    /// Sets whether the function is `async`.
    pub fn set_is_async(&mut self, is_async: bool) -> (r: &mut Self)
        ensures
            r@ == (FunctionModel {
                signature: SignatureModel { is_async, ..old(self)@.signature },
                ..old(self)@
            }),
            *final(self) == *final(r),
    {
        self.signature.set_is_async(is_async);
        self
    }

    /// Replaces the code of the body with the rendering of `body`.
    pub fn set_body<T: SrcCode>(&mut self, body: T) -> (r: &mut Self)
        ensures
            r@ == (FunctionModel {
                body: BodyModel { lines: seq![body.src()], ..old(self)@.body },
                ..old(self)@
            }),
            *final(self) == *final(r),
    {
        let code = body.generate();
        self.body.set_code(code.as_str());
        self
    }

    /// Adds the rendering of `src` after the code already in the body.
    pub fn push_into_body<T: SrcCode>(&mut self, src: T) -> (r: &mut Self)
        ensures
            r@ == (FunctionModel {
                body: BodyModel { lines: old(self)@.body.lines.push(src.src()), ..old(self)@.body },
                ..old(self)@
            }),
            *final(self) == *final(r),
    {
        let code = src.generate();
        self.body.push_code(code.as_str());
        self
    }

    /// Adds an attribute at the top of the body, after those already there.
    pub fn add_body_attribute(&mut self, attribute: &str) -> (r: &mut Self)
        requires
            classify(attribute@) is Some,
        ensures
            r@ == (FunctionModel {
                body: BodyModel {
                    attributes: old(self)@.body.attributes.push(classify(attribute@)->0),
                    ..old(self)@.body
                },
                ..old(self)@
            }),
            *final(self) == *final(r),
    {
        self.body.add_attribute(attribute);
        self
    }
}

impl AttributeExt for Function {
    open spec fn attributes_of(m: FunctionModel) -> Seq<AttributeModel> {
        m.signature.attributes
    }

    open spec fn with_attributes(m: FunctionModel, a: Seq<AttributeModel>) -> FunctionModel {
        FunctionModel { signature: SignatureModel { attributes: a, ..m.signature }, ..m }
    }

    fn add_attribute(&mut self, attribute: &str) -> (r: &mut Self) {
        self.signature.add_attribute(attribute);
        self
    }

    fn add_attributes(&mut self, attributes: Vec<&str>) -> (r: &mut Self) {
        self.signature.add_attributes(attributes);
        self
    }
}

impl GenericExt for Function {
    open spec fn generics_of(m: FunctionModel) -> Seq<GenericModel> {
        m.signature.generics
    }

    open spec fn with_generics(m: FunctionModel, g: Seq<GenericModel>) -> FunctionModel {
        FunctionModel { signature: SignatureModel { generics: g, ..m.signature }, ..m }
    }

    fn add_generic(&mut self, generic: Generic) -> (r: &mut Self) {
        self.signature.add_generic(generic);
        self
    }

    fn add_generics(&mut self, generics: Vec<Generic>) -> (r: &mut Self) {
        self.signature.add_generics(generics);
        self
    }
}

impl SrcCode for Function {
    open spec fn src(&self) -> Seq<char> {
        function_text(self@)
    }

    fn generate(&self) -> (r: String) {
        let mut r = self.signature.generate();
        r.append("\n{\n");
        let body = self.body.generate();
        r.append(body.as_str());
        r.append("}\n");
        r
    }
}

} // verus!
