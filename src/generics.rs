//! Generic type parameters with their trait bounds, and the clauses that
//! every generic item renders them into.
use vstd::prelude::*;

use crate::decorations::{GenericExt, TraitBoundExt};
use crate::text::{append_joined, extend_strings, join, lines, texts};
use crate::traits::SrcCode;

verus! {

/// A generic type parameter as a value.
pub ghost struct GenericModel {
    pub name: Seq<char>,
    pub bounds: Seq<Seq<char>>,
}

/// A generic type parameter and its trait bounds.
#[derive(Clone, Debug)]
pub struct Generic {
    name: String,
    traits: Vec<String>,
}

impl View for Generic {
    type V = GenericModel;

    closed spec fn view(&self) -> GenericModel {
        GenericModel { name: self.name@, bounds: texts(self.traits@) }
    }
}

/// The models of a list of generics.
pub open spec fn generic_models(v: Seq<Generic>) -> Seq<GenericModel> {
    v.map_values(|g: Generic| g@)
}

/// `T: A + B,` for a parameter `T` bound by `A` and `B`; `T: ,` when it has
/// no bound.
pub open spec fn bound_line(g: GenericModel) -> Seq<char> {
    g.name + ": "@ + join(g.bounds, " + "@) + ","@
}

/// `<T, S>` for the parameters `T` and `S`; nothing when there are none.
pub open spec fn type_params(gs: Seq<GenericModel>) -> Seq<char> {
    if gs.len() == 0 {
        Seq::empty()
    } else {
        "<"@ + join(gs.map_values(|g: GenericModel| g.name), ", "@) + ">"@
    }
}

/// `where`, then one bound line per parameter; nothing when there are none.
pub open spec fn where_clause(gs: Seq<GenericModel>) -> Seq<char> {
    if gs.len() == 0 {
        Seq::empty()
    } else {
        "where\n"@ + lines(gs.map_values(|g: GenericModel| bound_line(g)))
    }
}

/// The parameter list and the where clause together, on lines of their own.
pub open spec fn generic_clause(gs: Seq<GenericModel>) -> Seq<char> {
    if gs.len() == 0 {
        Seq::empty()
    } else {
        type_params(gs) + seq!['\n'] + where_clause(gs)
    }
}

impl Generic {
    /// A parameter named `name`, without bounds.
    pub fn new(name: &str) -> (r: Generic)
        ensures
            r@ == (GenericModel { name: name@, bounds: seq![] }),
    {
        let r = Generic { name: name.to_string(), traits: Vec::new() };
        assert(r@.bounds =~= seq![]);
        r
    }

    /// The name of the parameter.
    pub fn name(&self) -> (r: &str)
        ensures
            r@ == self@.name,
    {
        self.name.as_str()
    }

    /// Appends `T: A + B,` to `buf`.
    fn append_bound_line(&self, buf: &mut String)
        ensures
            final(buf)@ == old(buf)@ + bound_line(self@),
    {
        buf.append(self.name.as_str());
        buf.append(": ");
        append_joined(buf, &self.traits, " + ");
        buf.append(",");
    }
}

impl TraitBoundExt for Generic {
    open spec fn bounds_of(m: GenericModel) -> Seq<Seq<char>> {
        m.bounds
    }

    open spec fn with_bounds(m: GenericModel, b: Seq<Seq<char>>) -> GenericModel {
        GenericModel { bounds: b, ..m }
    }

    fn add_trait_bound(&mut self, trait_bound: &str) -> (r: &mut Self) {
        let ghost prev = self.traits@;
        self.traits.push(trait_bound.to_string());
        assert(texts(self.traits@) =~= texts(prev).push(trait_bound@));
        self
    }

    fn add_trait_bounds(&mut self, trait_bounds: Vec<&str>) -> (r: &mut Self) {
        extend_strings(&mut self.traits, trait_bounds);
        self
    }
}

/// An ordered list of generic type parameters.
#[derive(Clone, Debug)]
pub struct Generics {
    generics: Vec<Generic>,
}

impl View for Generics {
    type V = Seq<GenericModel>;

    closed spec fn view(&self) -> Seq<GenericModel> {
        generic_models(self.generics@)
    }
}

impl Generics {
    /// A list holding `generics`, in order.
    pub fn new(generics: Vec<Generic>) -> (r: Generics)
        ensures
            r@ == generic_models(generics@),
    {
        Generics { generics }
    }

    /// An empty list.
    pub fn empty() -> (r: Generics)
        ensures
            r@ == Seq::<GenericModel>::empty(),
    {
        let r = Generics { generics: Vec::new() };
        assert(r@ =~= Seq::<GenericModel>::empty());
        r
    }

    /// How many parameters there are.
    pub fn len(&self) -> (r: usize)
        ensures
            r == self@.len(),
    {
        self.generics.len()
    }

    /// Whether there is no parameter.
    pub fn is_empty(&self) -> (r: bool)
        ensures
            r == (self@.len() == 0),
    {
        self.len() == 0
    }

    /// Appends `<T, S>` to `buf`, or nothing when there is no parameter.
    pub fn append_type_params(&self, buf: &mut String)
        ensures
            final(buf)@ == old(buf)@ + type_params(self@),
    {
        if self.generics.len() > 0 {
            let mut names: Vec<String> = Vec::new();
            let mut i: usize = 0;
            while i < self.generics.len()
                invariant
                    i <= self.generics.len(),
                    names@.len() == i,
                    texts(names@) == self@.map_values(|g: GenericModel| g.name).take(i as int),
                decreases self.generics.len() - i,
            {
                let s = self.generics[i].name.clone();
                let ghost prev = names@;
                names.push(s);
                assert(texts(names@) =~= texts(prev).push(s@));
                assert(self@.map_values(|g: GenericModel| g.name).take(i + 1) =~= self@.map_values(
                    |g: GenericModel| g.name,
                ).take(i as int).push(s@));
                i += 1;
            }
            assert(self@.map_values(|g: GenericModel| g.name).take(i as int) =~= self@.map_values(
                |g: GenericModel| g.name,
            ));
            buf.append("<");
            append_joined(buf, &names, ", ");
            buf.append(">");
        }
    }

    /// Appends the where clause to `buf`, or nothing when there is no
    /// parameter.
    pub fn append_where_clause(&self, buf: &mut String)
        ensures
            final(buf)@ == old(buf)@ + where_clause(self@),
    {
        if self.generics.len() > 0 {
            buf.append("where\n");
            let mut i: usize = 0;
            while i < self.generics.len()
                invariant
                    i <= self.generics.len(),
                    buf@ == old(buf)@ + "where\n"@ + lines(
                        self@.map_values(|g: GenericModel| bound_line(g)).take(i as int),
                    ),
                decreases self.generics.len() - i,
            {
                let ghost before = buf@;
                self.generics[i].append_bound_line(buf);
                proof {
                    reveal_strlit("\n");
                }
                buf.append("\n");
                proof {
                    let parts = self@.map_values(|g: GenericModel| bound_line(g));
                    crate::text::lemma_lines_push(parts.take(i as int), parts[i as int]);
                    assert(parts.take(i as int).push(parts[i as int]) =~= parts.take(i + 1));
                }
                i += 1;
            }
            assert(self@.map_values(|g: GenericModel| bound_line(g)).take(i as int) =~= self@.map_values(
                |g: GenericModel| bound_line(g),
            ));
        }
    }
}

impl GenericExt for Generics {
    open spec fn generics_of(m: Seq<GenericModel>) -> Seq<GenericModel> {
        m
    }

    open spec fn with_generics(m: Seq<GenericModel>, g: Seq<GenericModel>) -> Seq<GenericModel> {
        g
    }

    fn add_generic(&mut self, generic: Generic) -> (r: &mut Self) {
        self.generics.push(generic);
        assert(self@ =~= old(self)@.push(generic@));
        self
    }

    fn add_generics(&mut self, generics: Vec<Generic>) -> (r: &mut Self) {
        let ghost added = generics@;
        let mut generics = generics;
        self.generics.append(&mut generics);
        assert(self@ =~= old(self)@ + generic_models(added));
        self
    }
}

impl SrcCode for Generics {
    open spec fn src(&self) -> Seq<char> {
        generic_clause(self@)
    }

    fn generate(&self) -> (r: String) {
        let mut r = String::new();
        if self.generics.len() > 0 {
            self.append_type_params(&mut r);
            proof {
                reveal_strlit("\n");
            }
            r.append("\n");
            self.append_where_clause(&mut r);
        }
        r
    }
}

} // verus!
