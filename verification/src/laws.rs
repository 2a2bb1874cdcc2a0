use vstd::prelude::*;
use crate::list::List;
use crate::model::{Bound, ImplBlock, Path, TargetDesc, TypeExpr};
use crate::rewrite::{
    merged_where, path_matches, rewritten_bound, rewritten_bounds, rewritten_impl, rewritten_path,
    rewritten_type, rewritten_type_list, substituted_path,
};

verus! {

// ---------------------------------------------------------------------------
// Shape equality: two type expressions agree on everything except the paths
// inside their path nodes and trait bounds.
// ---------------------------------------------------------------------------

/// Two bound-list entries of the same variant, with the same opaque handle;
/// the path of a trait bound is left unconstrained.
pub open spec fn same_bound_shape(a: Bound, b: Bound) -> bool {
    match (a, b) {
        (Bound::Trait(ha, _), Bound::Trait(hb, _)) => ha == hb,
        (Bound::Other(ha), Bound::Other(hb)) => ha == hb,
        _ => false,
    }
}

/// Two bound lists of the same length whose entries pairwise share a shape.
pub open spec fn same_bounds_shape(a: List<Bound>, b: List<Bound>) -> bool
    decreases a,
{
    match (a, b) {
        (List::Nil, List::Nil) => true,
        (List::Cons(x, xs), List::Cons(y, ys)) => same_bound_shape(x, y) && same_bounds_shape(
            *xs,
            *ys,
        ),
        _ => false,
    }
}

/// Two type expressions of the same variant, with the same opaque handles,
/// whose children pairwise share a shape; only paths are unconstrained.
pub open spec fn same_shape(a: TypeExpr, b: TypeExpr) -> bool
    decreases a,
{
    match (a, b) {
        (TypeExpr::Array(ha, ea), TypeExpr::Array(hb, eb)) => ha == hb && same_shape(*ea, *eb),
        (TypeExpr::BareFn(ha, ia, oa), TypeExpr::BareFn(hb, ib, ob)) => {
            &&& ha == hb
            &&& same_shape_list(*ia, *ib)
            &&& match (oa, ob) {
                (Option::None, Option::None) => true,
                (Option::Some(ra), Option::Some(rb)) => same_shape(*ra, *rb),
                _ => false,
            }
        },
        (TypeExpr::Group(ha, ea), TypeExpr::Group(hb, eb)) => ha == hb && same_shape(*ea, *eb),
        (TypeExpr::ImplTrait(ha, ba), TypeExpr::ImplTrait(hb, bb)) => ha == hb
            && same_bounds_shape(ba, bb),
        (TypeExpr::Paren(ha, ea), TypeExpr::Paren(hb, eb)) => ha == hb && same_shape(*ea, *eb),
        (TypeExpr::Path(ha, qa, _), TypeExpr::Path(hb, qb, _)) => {
            &&& ha == hb
            &&& match (qa, qb) {
                (Option::None, Option::None) => true,
                (Option::Some(xa), Option::Some(xb)) => same_shape(*xa, *xb),
                _ => false,
            }
        },
        (TypeExpr::Ptr(ha, ea), TypeExpr::Ptr(hb, eb)) => ha == hb && same_shape(*ea, *eb),
        (TypeExpr::Reference(ha, ea), TypeExpr::Reference(hb, eb)) => ha == hb && same_shape(
            *ea,
            *eb,
        ),
        (TypeExpr::Slice(ha, ea), TypeExpr::Slice(hb, eb)) => ha == hb && same_shape(*ea, *eb),
        (TypeExpr::TraitObject(ha, ba), TypeExpr::TraitObject(hb, bb)) => ha == hb
            && same_bounds_shape(ba, bb),
        (TypeExpr::Tuple(ha, ea), TypeExpr::Tuple(hb, eb)) => ha == hb && same_shape_list(
            *ea,
            *eb,
        ),
        (TypeExpr::Opaque(ha), TypeExpr::Opaque(hb)) => ha == hb,
        _ => false,
    }
}

/// Two lists of type expressions of the same length whose elements pairwise
/// share a shape.
pub open spec fn same_shape_list(a: List<TypeExpr>, b: List<TypeExpr>) -> bool
    decreases a,
{
    match (a, b) {
        (List::Nil, List::Nil) => true,
        (List::Cons(x, xs), List::Cons(y, ys)) => same_shape(x, y) && same_shape_list(*xs, *ys),
        _ => false,
    }
}

// ---------------------------------------------------------------------------
// The laws of the rewriter.
// ---------------------------------------------------------------------------

/// Shape preservation: rewriting never changes the variant of any node of a
/// type expression, never drops or adds a node, and preserves every opaque
/// handle; only the paths inside path nodes and trait bounds change.
pub proof fn lemma_shape_preserved(ty: TypeExpr, target: TargetDesc)
    ensures
        same_shape(ty, rewritten_type(ty, target)),
    decreases ty,
{
    match ty {
        TypeExpr::Array(h, elem) => lemma_shape_preserved(*elem, target),
        TypeExpr::BareFn(h, inputs, output) => {
            lemma_shape_preserved_list(*inputs, target);
            match output {
                Option::None => {},
                Option::Some(ret) => lemma_shape_preserved(*ret, target),
            }
        },
        TypeExpr::Group(h, elem) => lemma_shape_preserved(*elem, target),
        TypeExpr::ImplTrait(h, bounds) => lemma_shape_preserved_bounds(bounds, target),
        TypeExpr::Paren(h, elem) => lemma_shape_preserved(*elem, target),
        TypeExpr::Path(h, qself, p) => {
            match qself {
                Option::None => {},
                Option::Some(q) => lemma_shape_preserved(*q, target),
            }
        },
        TypeExpr::Ptr(h, elem) => lemma_shape_preserved(*elem, target),
        TypeExpr::Reference(h, elem) => lemma_shape_preserved(*elem, target),
        TypeExpr::Slice(h, elem) => lemma_shape_preserved(*elem, target),
        TypeExpr::TraitObject(h, bounds) => lemma_shape_preserved_bounds(bounds, target),
        TypeExpr::Tuple(h, elems) => lemma_shape_preserved_list(*elems, target),
        TypeExpr::Opaque(h) => {},
    }
}

/// Shape preservation for a list of type expressions.
pub proof fn lemma_shape_preserved_list(tys: List<TypeExpr>, target: TargetDesc)
    ensures
        same_shape_list(tys, rewritten_type_list(tys, target)),
    decreases tys,
{
    match tys {
        List::Nil => {},
        List::Cons(ty, rest) => {
            lemma_shape_preserved(ty, target);
            lemma_shape_preserved_list(*rest, target);
        },
    }
}

/// Shape preservation for a bound list: each entry keeps its variant and
/// its handle.
pub proof fn lemma_shape_preserved_bounds(bounds: List<Bound>, target: TargetDesc)
    ensures
        same_bounds_shape(bounds, rewritten_bounds(bounds, target)),
    decreases bounds,
{
    match bounds {
        List::Nil => {},
        List::Cons(b, rest) => lemma_shape_preserved_bounds(*rest, target),
    }
}

/// The generic-append law: the rewritten impl block's generic-parameter list
/// is exactly the block's own parameters followed by the target's, in that
/// order, with nothing reordered, deduplicated or dropped.
pub proof fn lemma_generic_append(impl_block: ImplBlock, target: TargetDesc)
    ensures
        rewritten_impl(impl_block, target).params@ == impl_block.params@ + target.params@,
{
    impl_block.params.lemma_append_seq(target.params);
}

/// The where-clause conditional-merge law: an impl block with a where-clause
/// ends with its own predicates followed by the target's; one without a
/// where-clause stays without one, even when the target has predicates.
pub proof fn lemma_where_clause_merge(impl_block: ImplBlock, target: TargetDesc)
    ensures
        impl_block.where_preds is None ==> rewritten_impl(impl_block, target).where_preds is None,
        (impl_block.where_preds matches Option::Some(ps) ==> (target.where_preds
            matches Option::Some(ts) ==> (rewritten_impl(impl_block, target).where_preds
            matches Option::Some(ms) && ms@ == ps@ + ts@))),
        (impl_block.where_preds matches Option::Some(ps) ==> (target.where_preds is None
            ==> rewritten_impl(impl_block, target).where_preds == Option::Some(ps))),
{
    match (impl_block.where_preds, target.where_preds) {
        (Option::Some(ps), Option::Some(ts)) => ps.lemma_append_seq(ts),
        _ => {},
    }
}

/// The substitution law: a path that is a bare occurrence of the target's
/// name is rewritten to the target's name applied to the target's own
/// parameter names.
pub proof fn lemma_bare_match_substituted(p: Path, target: TargetDesc)
    requires
        path_matches(p, target),
    ensures
        rewritten_path(p, target) == substituted_path(target),
{
}

/// The passthrough law for one path: a path that is not a bare occurrence of
/// the target's name — multi-segment, already carrying arguments, or naming
/// a different identifier — is left exactly as it was.
pub proof fn lemma_non_match_passthrough(p: Path, target: TargetDesc)
    requires
        !path_matches(p, target),
    ensures
        rewritten_path(p, target) == p,
{
}

// ---------------------------------------------------------------------------
// The passthrough law for whole type expressions.
// ---------------------------------------------------------------------------

/// Whether any path reachable from a type expression is a substitution site
/// for the target.
pub open spec fn mentions_target(ty: TypeExpr, target: TargetDesc) -> bool
    decreases ty,
{
    match ty {
        TypeExpr::Array(_, elem) => mentions_target(*elem, target),
        TypeExpr::BareFn(_, inputs, output) => list_mentions_target(*inputs, target) || match output {
            Option::None => false,
            Option::Some(ret) => mentions_target(*ret, target),
        },
        TypeExpr::Group(_, elem) => mentions_target(*elem, target),
        TypeExpr::ImplTrait(_, bounds) => bounds_mention_target(bounds, target),
        TypeExpr::Paren(_, elem) => mentions_target(*elem, target),
        TypeExpr::Path(_, qself, p) => path_matches(p, target) || match qself {
            Option::None => false,
            Option::Some(q) => mentions_target(*q, target),
        },
        TypeExpr::Ptr(_, elem) => mentions_target(*elem, target),
        TypeExpr::Reference(_, elem) => mentions_target(*elem, target),
        TypeExpr::Slice(_, elem) => mentions_target(*elem, target),
        TypeExpr::TraitObject(_, bounds) => bounds_mention_target(bounds, target),
        TypeExpr::Tuple(_, elems) => list_mentions_target(*elems, target),
        TypeExpr::Opaque(_) => false,
    }
}

/// Whether any element of a list of type expressions mentions the target.
pub open spec fn list_mentions_target(tys: List<TypeExpr>, target: TargetDesc) -> bool
    decreases tys,
{
    match tys {
        List::Nil => false,
        List::Cons(ty, rest) => mentions_target(ty, target) || list_mentions_target(*rest, target),
    }
}

/// Whether any trait bound of a bound list is a substitution site.
pub open spec fn bounds_mention_target(bounds: List<Bound>, target: TargetDesc) -> bool
    decreases bounds,
{
    match bounds {
        List::Nil => false,
        List::Cons(b, rest) => (b matches Bound::Trait(_, p) && path_matches(p, target))
            || bounds_mention_target(*rest, target),
    }
}

/// The non-match passthrough law: a type expression in which no path is a
/// bare occurrence of the target's name is returned unchanged, node for
/// node.
pub proof fn lemma_no_mention_unchanged(ty: TypeExpr, target: TargetDesc)
    requires
        !mentions_target(ty, target),
    ensures
        rewritten_type(ty, target) == ty,
    decreases ty,
{
    match ty {
        TypeExpr::Array(h, elem) => lemma_no_mention_unchanged(*elem, target),
        TypeExpr::BareFn(h, inputs, output) => {
            lemma_list_no_mention_unchanged(*inputs, target);
            match output {
                Option::None => {},
                Option::Some(ret) => lemma_no_mention_unchanged(*ret, target),
            }
        },
        TypeExpr::Group(h, elem) => lemma_no_mention_unchanged(*elem, target),
        TypeExpr::ImplTrait(h, bounds) => lemma_bounds_no_mention_unchanged(bounds, target),
        TypeExpr::Paren(h, elem) => lemma_no_mention_unchanged(*elem, target),
        TypeExpr::Path(h, qself, p) => {
            match qself {
                Option::None => {},
                Option::Some(q) => lemma_no_mention_unchanged(*q, target),
            }
        },
        TypeExpr::Ptr(h, elem) => lemma_no_mention_unchanged(*elem, target),
        TypeExpr::Reference(h, elem) => lemma_no_mention_unchanged(*elem, target),
        TypeExpr::Slice(h, elem) => lemma_no_mention_unchanged(*elem, target),
        TypeExpr::TraitObject(h, bounds) => lemma_bounds_no_mention_unchanged(bounds, target),
        TypeExpr::Tuple(h, elems) => lemma_list_no_mention_unchanged(*elems, target),
        TypeExpr::Opaque(h) => {},
    }
}

/// Passthrough for a list of type expressions none of which mentions the
/// target.
pub proof fn lemma_list_no_mention_unchanged(tys: List<TypeExpr>, target: TargetDesc)
    requires
        !list_mentions_target(tys, target),
    ensures
        rewritten_type_list(tys, target) == tys,
    decreases tys,
{
    match tys {
        List::Nil => {},
        List::Cons(ty, rest) => {
            lemma_no_mention_unchanged(ty, target);
            lemma_list_no_mention_unchanged(*rest, target);
        },
    }
}

/// Passthrough for a bound list none of whose trait bounds matches.
pub proof fn lemma_bounds_no_mention_unchanged(bounds: List<Bound>, target: TargetDesc)
    requires
        !bounds_mention_target(bounds, target),
    ensures
        rewritten_bounds(bounds, target) == bounds,
    decreases bounds,
{
    match bounds {
        List::Nil => {},
        List::Cons(b, rest) => lemma_bounds_no_mention_unchanged(*rest, target),
    }
}

} // verus!
