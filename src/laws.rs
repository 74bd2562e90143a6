//! Properties of rendering that hold for every node.
use vstd::prelude::*;

use crate::attribute::attribute_texts;
use crate::enum_item::{variant_lines, variant_text, EnumModel, VariantModel};
use crate::field::{field_text, visibility, FieldModel};
use crate::function::{
    asyncness, body_text, function_text, parameter_text, where_suffix, FunctionModel,
    ParameterModel, SignatureModel,
};
use crate::generics::{bound_line, generic_clause, type_params, where_clause, GenericModel};
use crate::struct_item::{struct_text, StructModel};
use crate::text::{concat, join, lemma_concat_push, lemma_join_push, lemma_lines_push, lines};
use crate::traits::SrcCode;

verus! {

/// Rendering is a function of the node's state: two renderings of the same
/// node, with no change in between, give the same text.
pub proof fn law_generate_is_repeatable<T: SrcCode>(node: &T, first: Seq<char>, second: Seq<char>)
    requires
        first == node.src(),
        second == node.src(),
    ensures
        first == second,
{
}

/// A function without parameters, return type or body renders an empty
/// parameter list, the unit return type and an empty block.
pub proof fn law_empty_function(f: FunctionModel)
    requires
        f.signature.parameters.len() == 0,
        f.signature.return_ty is None,
        f.body.lines.len() == 0,
        f.body.attributes.len() == 0,
    ensures
        function_text(f) == lines(attribute_texts(f.signature.attributes)) + visibility(
            f.signature.is_pub,
        ) + asyncness(f.signature.is_async) + "fn "@ + f.signature.name + type_params(
            f.signature.generics,
        ) + "("@ + ") -> "@ + "()"@ + where_suffix(f.signature.generics) + "\n{\n"@ + "}\n"@,
{
    assert(f.signature.parameters.map_values(|p: ParameterModel| parameter_text(p)) =~= seq![]);
    assert(attribute_texts(f.body.attributes) =~= seq![]);
    assert(body_text(f.body) =~= Seq::<char>::empty());
}

/// Without generic parameters there is neither a parameter list nor a
/// where clause, not even an empty one.
pub proof fn law_no_generics_no_clause(gs: Seq<GenericModel>)
    requires
        gs.len() == 0,
    ensures
        type_params(gs) == Seq::<char>::empty(),
        where_clause(gs) == Seq::<char>::empty(),
        where_suffix(gs) == Seq::<char>::empty(),
        generic_clause(gs) == Seq::<char>::empty(),
{
}

/// A parameter without trait bounds still has its bound line, `T: ,`,
/// in the where clause.
pub proof fn law_unbounded_generic_keeps_its_line(gs: Seq<GenericModel>, i: int)
    requires
        0 <= i < gs.len(),
        gs[i].bounds.len() == 0,
    ensures
        where_clause(gs) == "where\n"@ + lines(gs.map_values(|g: GenericModel| bound_line(g))),
        gs.map_values(|g: GenericModel| bound_line(g))[i] == gs[i].name + ": "@ + ","@,
{
    assert(join(gs[i].bounds, " + "@) =~= Seq::<char>::empty());
}

/// Fields render in the order in which they were added.
pub proof fn law_fields_in_order(s: StructModel, a: FieldModel, b: FieldModel)
    ensures
        ({
            let t = StructModel { fields: s.fields.push(a).push(b), ..s };
            struct_text(t) == lines(s.docs) + lines(attribute_texts(s.attributes)) + visibility(
                s.is_pub,
            ) + "struct "@ + s.name + type_params(s.generics) + seq!['\n'] + where_clause(
                s.generics,
            ) + "{\n"@ + concat(s.fields.map_values(|f: FieldModel| field_text(f))) + field_text(
                a,
            ) + field_text(b) + "}\n"@
        }),
{
    let ts = s.fields.map_values(|f: FieldModel| field_text(f));
    assert(s.fields.push(a).push(b).map_values(|f: FieldModel| field_text(f)) =~= ts.push(
        field_text(a),
    ).push(field_text(b)));
    lemma_concat_push(ts, field_text(a));
    lemma_concat_push(ts.push(field_text(a)), field_text(b));
}

/// Variants render in the order in which they were added.
pub proof fn law_variants_in_order(e: EnumModel, a: VariantModel, b: VariantModel)
    ensures
        variant_lines(e.variants.push(a).push(b)) == variant_lines(e.variants) + variant_text(a)
            + ",\n"@ + variant_text(b) + ",\n"@,
{
    let ts = e.variants.map_values(|v: VariantModel| variant_text(v) + ",\n"@);
    assert(e.variants.push(a).push(b).map_values(|v: VariantModel| variant_text(v) + ",\n"@)
        =~= ts.push(variant_text(a) + ",\n"@).push(variant_text(b) + ",\n"@));
    lemma_concat_push(ts, variant_text(a) + ",\n"@);
    lemma_concat_push(ts.push(variant_text(a) + ",\n"@), variant_text(b) + ",\n"@);
}

/// Parameters render in the order in which they were added, separated by
/// commas.
pub proof fn law_parameters_in_order(s: SignatureModel, a: ParameterModel, b: ParameterModel)
    requires
        s.parameters.len() > 0,
    ensures
        join(
            s.parameters.push(a).push(b).map_values(|p: ParameterModel| parameter_text(p)),
            ", "@,
        ) == join(s.parameters.map_values(|p: ParameterModel| parameter_text(p)), ", "@) + ", "@
            + parameter_text(a) + ", "@ + parameter_text(b),
{
    let ts = s.parameters.map_values(|p: ParameterModel| parameter_text(p));
    assert(s.parameters.push(a).push(b).map_values(|p: ParameterModel| parameter_text(p))
        =~= ts.push(parameter_text(a)).push(parameter_text(b)));
    lemma_join_push(ts, parameter_text(a), ", "@);
    lemma_join_push(ts.push(parameter_text(a)), parameter_text(b), ", "@);
}

/// Generic parameters are listed in the order in which they were added.
pub proof fn law_generics_in_order(gs: Seq<GenericModel>, a: GenericModel, b: GenericModel)
    requires
        gs.len() > 0,
    ensures
        type_params(gs.push(a).push(b)) == "<"@ + join(
            gs.map_values(|g: GenericModel| g.name),
            ", "@,
        ) + ", "@ + a.name + ", "@ + b.name + ">"@,
        where_clause(gs.push(a).push(b)) == where_clause(gs) + bound_line(a) + seq!['\n']
            + bound_line(b) + seq!['\n'],
{
    let ns = gs.map_values(|g: GenericModel| g.name);
    assert(gs.push(a).push(b).map_values(|g: GenericModel| g.name) =~= ns.push(a.name).push(
        b.name,
    ));
    lemma_join_push(ns, a.name, ", "@);
    lemma_join_push(ns.push(a.name), b.name, ", "@);
    let ls = gs.map_values(|g: GenericModel| bound_line(g));
    assert(gs.push(a).push(b).map_values(|g: GenericModel| bound_line(g)) =~= ls.push(
        bound_line(a),
    ).push(bound_line(b)));
    lemma_lines_push(ls, bound_line(a));
    lemma_lines_push(ls.push(bound_line(a)), bound_line(b));
}

/// Documentation lines, attributes, bounds and other line lists render in
/// the order in which they were added, one per line.
pub proof fn law_lines_in_order(parts: Seq<Seq<char>>, a: Seq<char>, b: Seq<char>)
    ensures
        lines(parts.push(a).push(b)) == lines(parts) + a + seq!['\n'] + b + seq!['\n'],
{
    lemma_lines_push(parts, a);
    lemma_lines_push(parts.push(a), b);
}

} // verus!
