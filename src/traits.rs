//! The rendering interface shared by every node.
use vstd::prelude::*;

use crate::text::texts;

verus! {

/// A node that renders as source text.
pub trait SrcCode {
    /// The text that the node renders to, given its current state.
    spec fn src(&self) -> Seq<char>;

    /// Renders the node. Rendering reads the node only, so two calls
    /// without a change in between give the same text.
    fn generate(&self) -> (r: String)
        ensures
            r@ == self.src(),
    ;
}

/// Renders every node of a list.
pub trait SrcCodeVec {
    /// The texts of the nodes, in order.
    spec fn srcs(&self) -> Seq<Seq<char>>;

    /// One rendered text per node, in order.
    fn to_src_vec(&self) -> (r: Vec<String>)
        ensures
            texts(r@) == self.srcs(),
    ;
}

impl<T: SrcCode> SrcCodeVec for Vec<T> {
    open spec fn srcs(&self) -> Seq<Seq<char>> {
        self@.map_values(|x: T| x.src())
    }

    fn to_src_vec(&self) -> (r: Vec<String>) {
        let mut r: Vec<String> = Vec::new();
        let mut i: usize = 0;
        while i < self.len()
            invariant
                i <= self.len(),
                r@.len() == i,
                texts(r@) == self.srcs().take(i as int),
            decreases self.len() - i,
        {
            let s = self[i].generate();
            let ghost prev = r@;
            r.push(s);
            assert(texts(r@) =~= texts(prev).push(s@));
            assert(self.srcs().take(i + 1) =~= self.srcs().take(i as int).push(s@));
            i += 1;
        }
        assert(self.srcs().take(i as int) =~= self.srcs());
        r
    }
}

} // verus!

verus! {

/// Appends the rendering of every node of `items`, in order.
pub fn append_all<T: SrcCode>(buf: &mut String, items: &Vec<T>)
    ensures
        final(buf)@ == old(buf)@ + crate::text::concat(items.srcs()),
{
    let strings = items.to_src_vec();
    crate::text::append_concat(buf, &strings);
}

} // verus!

verus! {

/// Text renders as itself.
impl<'a> SrcCode for &'a str {
    open spec fn src(&self) -> Seq<char> {
        (*self)@
    }

    fn generate(&self) -> (r: String) {
        (*self).to_string()
    }
}

} // verus!
