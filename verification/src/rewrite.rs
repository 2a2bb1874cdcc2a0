use vstd::prelude::*;
use crate::list::List;
use crate::model::{
    Bound, GenericParam, ImplBlock, Path, Predicate, SegArgs, Segment, TargetDesc, TypeExpr,
    clone_params, clone_preds,
};

verus! {

// ---------------------------------------------------------------------------
// The rewriting rules, as mathematical functions.
// ---------------------------------------------------------------------------

/// The names of the target's generic parameters, in declaration order: the
/// argument list that substitution writes between angle brackets.
pub open spec fn arg_names(params: List<GenericParam>) -> List<String>
    decreases params,
{
    match params {
        List::Nil => List::Nil,
        List::Cons(p, rest) => List::Cons(p.arg, Box::new(arg_names(*rest))),
    }
}

/// The path substitution produces: the target's name applied to the target's
/// own parameter names, `Foo<T, S>`; a target without parameters yields the
/// bare name with no argument list at all.
pub open spec fn substituted_path(target: TargetDesc) -> Path {
    Path {
        leading_colon: false,
        segments: List::Cons(
            Segment {
                ident: target.name,
                args: if target.params is Nil {
                    SegArgs::Plain
                } else {
                    SegArgs::Angle(arg_names(target.params))
                },
            },
            Box::new(List::Nil),
        ),
    }
}

/// Whether a path is a substitution site: no leading path separator, exactly
/// one segment, that segment carries no arguments, and its identifier equals
/// the target's name. Multi-segment paths, paths that already carry
/// arguments (even an empty angle-bracketed list), and other identifiers all
/// fail to match.
pub open spec fn path_matches(p: Path, target: TargetDesc) -> bool {
    &&& !p.leading_colon
    &&& p.segments matches List::Cons(seg, tail)
    &&& *tail is Nil
    &&& seg.args is Plain
    &&& seg.ident@ == target.name@
}

/// The path-rewrite rule: a matching path becomes the substituted path; any
/// other path is left exactly as it was.
pub open spec fn rewritten_path(p: Path, target: TargetDesc) -> Path {
    if path_matches(p, target) {
        substituted_path(target)
    } else {
        p
    }
}

/// The rewrite of one bound-list entry: a trait bound has its path rewritten;
/// every other entry is left untouched.
pub open spec fn rewritten_bound(b: Bound, target: TargetDesc) -> Bound {
    match b {
        Bound::Trait(handle, p) => Bound::Trait(handle, rewritten_path(p, target)),
        Bound::Other(handle) => Bound::Other(handle),
    }
}

/// The rewrite of a whole bound list, entry by entry.
pub open spec fn rewritten_bounds(bounds: List<Bound>, target: TargetDesc) -> List<Bound>
    decreases bounds,
{
    match bounds {
        List::Nil => List::Nil,
        List::Cons(b, rest) => List::Cons(
            rewritten_bound(b, target),
            Box::new(rewritten_bounds(*rest, target)),
        ),
    }
}

/// The recursive rewrite of a type expression: one rule per variant.
/// Children are rewritten in place of themselves; bound lists are rewritten
/// entry by entry; a path node first rewrites its qualified-self type, then
/// its path; every opaque handle is preserved.
pub open spec fn rewritten_type(ty: TypeExpr, target: TargetDesc) -> TypeExpr
    decreases ty,
{
    match ty {
        TypeExpr::Array(h, elem) => TypeExpr::Array(
            h,
            Box::new(rewritten_type(*elem, target)),
        ),
        TypeExpr::BareFn(h, inputs, output) => TypeExpr::BareFn(
            h,
            Box::new(rewritten_type_list(*inputs, target)),
            match output {
                Option::None => Option::None,
                Option::Some(ret) => Option::Some(Box::new(rewritten_type(*ret, target))),
            },
        ),
        TypeExpr::Group(h, elem) => TypeExpr::Group(h, Box::new(rewritten_type(*elem, target))),
        TypeExpr::ImplTrait(h, bounds) => TypeExpr::ImplTrait(h, rewritten_bounds(bounds, target)),
        TypeExpr::Paren(h, elem) => TypeExpr::Paren(h, Box::new(rewritten_type(*elem, target))),
        TypeExpr::Path(h, qself, p) => TypeExpr::Path(
            h,
            match qself {
                Option::None => Option::None,
                Option::Some(q) => Option::Some(Box::new(rewritten_type(*q, target))),
            },
            rewritten_path(p, target),
        ),
        TypeExpr::Ptr(h, elem) => TypeExpr::Ptr(h, Box::new(rewritten_type(*elem, target))),
        TypeExpr::Reference(h, elem) => TypeExpr::Reference(
            h,
            Box::new(rewritten_type(*elem, target)),
        ),
        TypeExpr::Slice(h, elem) => TypeExpr::Slice(h, Box::new(rewritten_type(*elem, target))),
        TypeExpr::TraitObject(h, bounds) => TypeExpr::TraitObject(
            h,
            rewritten_bounds(bounds, target),
        ),
        TypeExpr::Tuple(h, elems) => TypeExpr::Tuple(
            h,
            Box::new(rewritten_type_list(*elems, target)),
        ),
        TypeExpr::Opaque(h) => TypeExpr::Opaque(h),
    }
}

/// The rewrite of a list of type expressions, element by element.
pub open spec fn rewritten_type_list(tys: List<TypeExpr>, target: TargetDesc) -> List<TypeExpr>
    decreases tys,
{
    match tys {
        List::Nil => List::Nil,
        List::Cons(ty, rest) => List::Cons(
            rewritten_type(ty, target),
            Box::new(rewritten_type_list(*rest, target)),
        ),
    }
}

/// The where-clause merge: the target's predicates are appended to the impl
/// block's predicates only when the impl block already has a where-clause;
/// an impl block without one stays without one, and the target's predicates
/// are dropped.
pub open spec fn merged_where(
    preds: Option<List<Predicate>>,
    target_preds: Option<List<Predicate>>,
) -> Option<List<Predicate>> {
    match preds {
        Option::None => Option::None,
        Option::Some(ps) => match target_preds {
            Option::None => Option::Some(ps),
            Option::Some(ts) => Option::Some(ps.spec_append(ts)),
        },
    }
}

/// The whole rewrite of an impl block: the target's generic parameters are
/// appended to the block's own, the where-clauses are merged, and the
/// self-type is rewritten.
pub open spec fn rewritten_impl(impl_block: ImplBlock, target: TargetDesc) -> ImplBlock {
    ImplBlock {
        params: impl_block.params.spec_append(target.params),
        where_preds: merged_where(impl_block.where_preds, target.where_preds),
        self_ty: rewritten_type(impl_block.self_ty, target),
    }
}

// ---------------------------------------------------------------------------
// The executable rewriter.
// ---------------------------------------------------------------------------

/// The argument list substitution writes: one name per target parameter.
fn clone_arg_names(params: &List<GenericParam>) -> (r: List<String>)
    ensures
        r == arg_names(*params),
    decreases *params,
{
    match params {
        List::Nil => List::Nil,
        List::Cons(p, rest) => List::Cons(p.arg.clone(), Box::new(clone_arg_names(rest))),
    }
}

/// Builds the substituted form of a matching path: the target's name applied
/// to the target's own parameter names.
fn substitute_path(target: &TargetDesc) -> (r: Path)
    ensures
        r == substituted_path(*target),
{
    let args = match &target.params {
        List::Nil => SegArgs::Plain,
        List::Cons(_, _) => SegArgs::Angle(clone_arg_names(&target.params)),
    };
    Path {
        leading_colon: false,
        segments: List::Cons(
            Segment { ident: target.name.clone(), args },
            Box::new(List::Nil),
        ),
    }
}

/// Decides whether a path is a substitution site for the target.
fn matches_target(p: &Path, target: &TargetDesc) -> (r: bool)
    ensures
        r == path_matches(*p, *target),
{
    if p.leading_colon {
        return false;
    }
    match &p.segments {
        List::Cons(seg, tail) => match (&seg.args, &**tail) {
            (SegArgs::Plain, List::Nil) => seg.ident == target.name,
            _ => false,
        },
        List::Nil => false,
    }
}

/// Applies the path-rewrite rule to one path.
fn rewrite_path(p: Path, target: &TargetDesc) -> (r: Path)
    ensures
        r == rewritten_path(p, *target),
{
    if matches_target(&p, target) {
        substitute_path(target)
    } else {
        p
    }
}

/// Applies the path-rewrite rule to the trait bounds of a bound list;
/// entries that are not trait bounds pass through untouched.
fn rewrite_bounds(bounds: List<Bound>, target: &TargetDesc) -> (r: List<Bound>)
    ensures
        r == rewritten_bounds(bounds, *target),
    decreases bounds,
{
    match bounds {
        List::Nil => List::Nil,
        List::Cons(b, rest) => {
            let rewritten = match b {
                Bound::Trait(handle, p) => Bound::Trait(handle, rewrite_path(p, target)),
                Bound::Other(handle) => Bound::Other(handle),
            };
            List::Cons(rewritten, Box::new(rewrite_bounds(*rest, target)))
        },
    }
}

/// Recursively walks a type expression and substitutes every path that is a
/// bare occurrence of the target's name with the target's fully
/// parameterized form. The shape of the expression is preserved: only paths
/// change.
pub fn add_type_generics(ty: TypeExpr, target: &TargetDesc) -> (r: TypeExpr)
    ensures
        r == rewritten_type(ty, *target),
    decreases ty,
{
    match ty {
        TypeExpr::Array(h, elem) => TypeExpr::Array(
            h,
            Box::new(add_type_generics(*elem, target)),
        ),
        TypeExpr::BareFn(h, inputs, output) => TypeExpr::BareFn(
            h,
            Box::new(rewrite_type_list(*inputs, target)),
            match output {
                Option::None => Option::None,
                Option::Some(ret) => Option::Some(Box::new(add_type_generics(*ret, target))),
            },
        ),
        TypeExpr::Group(h, elem) => TypeExpr::Group(
            h,
            Box::new(add_type_generics(*elem, target)),
        ),
        TypeExpr::ImplTrait(h, bounds) => TypeExpr::ImplTrait(h, rewrite_bounds(bounds, target)),
        TypeExpr::Paren(h, elem) => TypeExpr::Paren(
            h,
            Box::new(add_type_generics(*elem, target)),
        ),
        TypeExpr::Path(h, qself, p) => {
            let new_qself = match qself {
                Option::None => Option::None,
                Option::Some(q) => Option::Some(Box::new(add_type_generics(*q, target))),
            };
            TypeExpr::Path(h, new_qself, rewrite_path(p, target))
        },
        TypeExpr::Ptr(h, elem) => TypeExpr::Ptr(h, Box::new(add_type_generics(*elem, target))),
        TypeExpr::Reference(h, elem) => TypeExpr::Reference(
            h,
            Box::new(add_type_generics(*elem, target)),
        ),
        TypeExpr::Slice(h, elem) => TypeExpr::Slice(
            h,
            Box::new(add_type_generics(*elem, target)),
        ),
        TypeExpr::TraitObject(h, bounds) => TypeExpr::TraitObject(
            h,
            rewrite_bounds(bounds, target),
        ),
        TypeExpr::Tuple(h, elems) => TypeExpr::Tuple(
            h,
            Box::new(rewrite_type_list(*elems, target)),
        ),
        TypeExpr::Opaque(h) => TypeExpr::Opaque(h),
    }
}

/// Rewrites each element of a list of type expressions.
fn rewrite_type_list(tys: List<TypeExpr>, target: &TargetDesc) -> (r: List<TypeExpr>)
    ensures
        r == rewritten_type_list(tys, *target),
    decreases tys,
{
    match tys {
        List::Nil => List::Nil,
        List::Cons(ty, rest) => List::Cons(
            add_type_generics(ty, target),
            Box::new(rewrite_type_list(*rest, target)),
        ),
    }
}

/// Merges the target's where-clause predicates into the impl block's, if the
/// impl block has a where-clause at all.
fn merge_where_clause(
    preds: Option<List<Predicate>>,
    target_preds: &Option<List<Predicate>>,
) -> (r: Option<List<Predicate>>)
    ensures
        r == merged_where(preds, *target_preds),
{
    match preds {
        Option::None => Option::None,
        Option::Some(ps) => match target_preds {
            Option::None => Option::Some(ps),
            Option::Some(ts) => Option::Some(ps.append(clone_preds(ts))),
        },
    }
}

/// Rewrites an impl-block template for the target type: appends the
/// target's generic parameters to the block's own parameter list, merges the
/// target's where-clause predicates into the block's where-clause if the
/// block has one, and substitutes every bare occurrence of the target's name
/// in the block's self-type with the target's fully parameterized form.
pub fn type_aware_impl(impl_block: ImplBlock, target: &TargetDesc) -> (r: ImplBlock)
    ensures
        r == rewritten_impl(impl_block, *target),
{
    let ImplBlock { params, where_preds, self_ty } = impl_block;
    ImplBlock {
        params: params.append(clone_params(&target.params)),
        where_preds: merge_where_clause(where_preds, &target.where_preds),
        self_ty: add_type_generics(self_ty, target),
    }
}

} // verus!
