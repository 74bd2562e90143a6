//! Attributes: `#[...]` decorates the item that follows it, `#![...]`
//! decorates the scope that it stands in.
use vstd::prelude::*;

use crate::text::texts;
use crate::traits::SrcCode;

verus! {

/// One attribute, with its placement decided from its text when it was made.
#[derive(Clone, Debug)]
pub enum Attribute {
    /// An attribute of the item that follows, e.g. `#[foo(bar)]`.
    ItemAttr(String),
    /// An attribute of the enclosing scope, e.g. `#![warn(...)]`.
    ScopeAttr(String),
}

/// Why a text is not an attribute.
#[derive(Clone, Copy, Debug, PartialEq, Eq, Structural)]
pub enum AttributeError {
    /// The text starts with neither `#!` nor `#`.
    InvalidAttributeSyntax,
}

/// An attribute as a value: where it applies and its text.
pub ghost struct AttributeModel {
    pub scope: bool,
    pub text: Seq<char>,
}

impl View for Attribute {
    type V = AttributeModel;

    open spec fn view(&self) -> AttributeModel {
        match self {
            Attribute::ItemAttr(s) => AttributeModel { scope: false, text: s@ },
            Attribute::ScopeAttr(s) => AttributeModel { scope: true, text: s@ },
        }
    }
}

/// The attribute that a text makes: `#!` first makes a scope attribute, a
/// `#` not followed by `!` an item attribute, anything else none.
pub open spec fn classify(t: Seq<char>) -> Option<AttributeModel> {
    if t.len() >= 2 && t[0] == '#' && t[1] == '!' {
        Some(AttributeModel { scope: true, text: t })
    } else if t.len() >= 1 && t[0] == '#' {
        Some(AttributeModel { scope: false, text: t })
    } else {
        None
    }
}

/// The models of a list of attributes.
pub open spec fn attribute_models(v: Seq<Attribute>) -> Seq<AttributeModel> {
    v.map_values(|a: Attribute| a@)
}

/// The texts of a list of attributes.
pub open spec fn attribute_texts(v: Seq<AttributeModel>) -> Seq<Seq<char>> {
    v.map_values(|a: AttributeModel| a.text)
}

impl Attribute {
    /// Makes the attribute that `text` stands for, or tells why it is none.
    pub fn parse(text: &str) -> (r: Result<Attribute, AttributeError>)
        ensures
            match classify(text@) {
                Some(m) => r matches Ok(a) && a@ == m,
                None => r == Err::<Attribute, AttributeError>(
                    AttributeError::InvalidAttributeSyntax,
                ),
            },
    {
        let n = text.unicode_len();
        if n >= 1 && text.get_char(0) == '#' {
            if n >= 2 && text.get_char(1) == '!' {
                Ok(Attribute::ScopeAttr(text.to_string()))
            } else {
                Ok(Attribute::ItemAttr(text.to_string()))
            }
        } else {
            Err(AttributeError::InvalidAttributeSyntax)
        }
    }

    /// Makes the attribute that `text` stands for; `text` must be one.
    pub fn from(text: &str) -> (r: Attribute)
        requires
            classify(text@) is Some,
        ensures
            classify(text@) == Some(r@),
    {
        if text.unicode_len() >= 2 && text.get_char(1) == '!' {
            Attribute::ScopeAttr(text.to_string())
        } else {
            Attribute::ItemAttr(text.to_string())
        }
    }

    /// The text of the attribute.
    pub fn text(&self) -> (r: &String)
        ensures
            r@ == self@.text,
    {
        match self {
            Attribute::ItemAttr(s) => s,
            Attribute::ScopeAttr(s) => s,
        }
    }
}

impl SrcCode for Attribute {
    open spec fn src(&self) -> Seq<char> {
        self@.text
    }

    fn generate(&self) -> (r: String) {
        self.text().clone()
    }
}

/// Texts of the attributes of a list, in order.
pub fn attribute_strings(v: &Vec<Attribute>) -> (r: Vec<String>)
    ensures
        texts(r@) == attribute_texts(attribute_models(v@)),
{
    let mut r: Vec<String> = Vec::new();
    let mut i: usize = 0;
    while i < v.len()
        invariant
            i <= v.len(),
            r@.len() == i,
            texts(r@) == attribute_texts(attribute_models(v@)).take(i as int),
        decreases v.len() - i,
    {
        let s = v[i].text().clone();
        let ghost prev = r@;
        r.push(s);
        assert(texts(r@) =~= texts(prev).push(s@));
        assert(attribute_texts(attribute_models(v@)).take(i + 1) =~= attribute_texts(
            attribute_models(v@),
        ).take(i as int).push(s@));
        i += 1;
    }
    assert(attribute_texts(attribute_models(v@)).take(i as int) =~= attribute_texts(
        attribute_models(v@),
    ));
    r
}

/// Adds the attribute that `text` stands for at the end of `v`.
pub fn push_attribute(v: &mut Vec<Attribute>, text: &str)
    requires
        classify(text@) is Some,
    ensures
        attribute_models(final(v)@) == attribute_models(old(v)@).push(classify(text@)->0),
{
    let a = Attribute::from(text);
    v.push(a);
    assert(attribute_models(v@) =~= attribute_models(old(v)@).push(classify(text@)->0));
}

/// Whether every text of the list is an attribute.
pub open spec fn all_attributes(items: Seq<&str>) -> bool {
    forall|i: int| 0 <= i < items.len() ==> (#[trigger] classify(items[i]@)) is Some
}

/// The attributes that the texts of a list make, in order.
pub open spec fn classify_all(items: Seq<&str>) -> Seq<AttributeModel> {
    items.map_values(|t: &str| classify(t@)->0)
}

/// Adds the attributes that `items` stand for at the end of `v`, in order.
pub fn extend_attributes(v: &mut Vec<Attribute>, items: Vec<&str>)
    requires
        all_attributes(items@),
    ensures
        attribute_models(final(v)@) == attribute_models(old(v)@) + classify_all(items@),
{
    let mut i: usize = 0;
    while i < items.len()
        invariant
            i <= items.len(),
            all_attributes(items@),
            attribute_models(v@) == attribute_models(old(v)@) + classify_all(items@).take(
                i as int,
            ),
        decreases items.len() - i,
    {
        assert(classify(items@[i as int]@) is Some);
        push_attribute(v, items[i]);
        assert(classify_all(items@).take(i + 1) =~= classify_all(items@).take(i as int).push(
            classify(items@[i as int]@)->0,
        ));
        i += 1;
    }
    assert(classify_all(items@).take(i as int) =~= classify_all(items@));
}

} // verus!

verus! {

/// Appends the text of each attribute of `v` on a line of its own.
pub fn append_attribute_lines(buf: &mut String, v: &Vec<Attribute>)
    ensures
        final(buf)@ == old(buf)@ + crate::text::lines(attribute_texts(attribute_models(v@))),
{
    let strings = attribute_strings(v);
    crate::text::append_lines(buf, &strings);
}

} // verus!
