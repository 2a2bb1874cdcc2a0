use vstd::prelude::*;
use crate::list::List;

verus! {

/// The arguments attached to one path segment.
///
/// Substitution attaches `Angle` arguments (the target's parameter names);
/// arguments that were already present in the template are held behind an
/// opaque handle and never inspected, so a segment that carries them can
/// never be a substitution site.
#[derive(Debug, PartialEq, Eq)]
pub enum SegArgs {
    /// The segment has no arguments at all.
    Plain,
    /// An angle-bracketed list of parameter names, as substitution builds it.
    Angle(List<String>),
    /// Arguments the rewriter does not interpret, kept under the caller's handle.
    Opaque(u64),
}

/// One segment of a path: an identifier with optional arguments.
#[derive(Debug, PartialEq, Eq)]
pub struct Segment {
    pub ident: String,
    pub args: SegArgs,
}

/// A possibly qualified, possibly multi-segment reference to a named type
/// or trait.
#[derive(Debug, PartialEq, Eq)]
pub struct Path {
    /// Whether the path starts with a leading path separator.
    pub leading_colon: bool,
    pub segments: List<Segment>,
}

/// One entry of the bound list of an impl-trait or trait-object type:
/// either a trait bound with its path, or some other bound (a lifetime,
/// for instance), which is never rewritten.
///
/// The `u64` is an opaque handle under which the caller keeps whatever the
/// entry holds beyond the path (bound modifiers, the lifetime itself); the
/// rewriter preserves it untouched.
#[derive(Debug, PartialEq, Eq)]
pub enum Bound {
    Trait(u64, Path),
    Other(u64),
}

/// A type expression: the recursive sum type the rewriter walks.
///
/// Each variant's `u64` is an opaque handle for everything in the node that
/// the rewriter never reads (an array's length, a pointer's mutability, a
/// bare function's calling convention, token spans). The rewriter preserves
/// every handle and never changes a node's variant; it only rewrites the
/// paths reachable from the node.
#[derive(Debug, PartialEq, Eq)]
pub enum TypeExpr {
    /// A fixed-size array type; the child is the element type.
    Array(u64, Box<TypeExpr>),
    /// A bare function signature: its argument types and, if it declares
    /// one, its return type.
    BareFn(u64, Box<List<TypeExpr>>, Option<Box<TypeExpr>>),
    /// A type wrapped in an invisible delimiter group.
    Group(u64, Box<TypeExpr>),
    /// An impl-trait type: a list of bounds.
    ImplTrait(u64, List<Bound>),
    /// A parenthesized type.
    Paren(u64, Box<TypeExpr>),
    /// A named path, with an optional qualified-self type.
    Path(u64, Option<Box<TypeExpr>>, Path),
    /// A raw pointer type; the child is the pointee type.
    Ptr(u64, Box<TypeExpr>),
    /// A reference type; the child is the referent type.
    Reference(u64, Box<TypeExpr>),
    /// A slice type; the child is the element type.
    Slice(u64, Box<TypeExpr>),
    /// A trait-object type: a list of bounds.
    TraitObject(u64, List<Bound>),
    /// A tuple type: its element types.
    Tuple(u64, Box<List<TypeExpr>>),
    /// Any other shape of type (a macro invocation, an inferred type, a
    /// never type, ...): not a substitution target, left unchanged.
    Opaque(u64),
}

/// One generic parameter (a lifetime, type or const parameter).
///
/// `arg` is the parameter's name as it appears in an argument position —
/// the form substitution writes between angle brackets. The declaration
/// itself (bounds, defaults) stays with the caller under the opaque handle
/// `id`; the rewriter only copies parameters around whole.
#[derive(Debug, PartialEq, Eq)]
pub struct GenericParam {
    pub id: u64,
    pub arg: String,
}

/// One where-clause predicate, kept entirely under the caller's opaque
/// handle: predicates are moved and appended but never read.
#[derive(Debug, PartialEq, Eq, Clone, Copy)]
pub struct Predicate {
    pub id: u64,
}

/// An implementation-block template, reduced to the three parts the
/// rewriter touches: its generic-parameter list, its optional where-clause
/// predicates, and its self-type. The trait path and the body are not
/// represented: they are left untouched by design and stay with the caller.
#[derive(Debug, PartialEq, Eq)]
pub struct ImplBlock {
    pub params: List<GenericParam>,
    pub where_preds: Option<List<Predicate>>,
    pub self_ty: TypeExpr,
}

/// The declaration of the type the impl block is being specialized for:
/// its name, its declared generic parameters in declaration order, and its
/// optional where-clause predicates. Read-only throughout a rewrite.
#[derive(Debug, PartialEq, Eq)]
pub struct TargetDesc {
    pub name: String,
    pub params: List<GenericParam>,
    pub where_preds: Option<List<Predicate>>,
}

impl GenericParam {
    /// An exact copy; `Clone` is not derived because derived impls carry
    /// no specification.
    pub fn duplicate(&self) -> (r: GenericParam)
        ensures
            r == *self,
    {
        GenericParam { id: self.id, arg: self.arg.clone() }
    }
}

/// An exact copy of a parameter list.
pub fn clone_params(params: &List<GenericParam>) -> (r: List<GenericParam>)
    ensures
        r == *params,
    decreases *params,
{
    match params {
        List::Nil => List::Nil,
        List::Cons(head, tail) => List::Cons(head.duplicate(), Box::new(clone_params(tail))),
    }
}

/// An exact copy of a predicate list.
pub fn clone_preds(preds: &List<Predicate>) -> (r: List<Predicate>)
    ensures
        r == *preds,
    decreases *preds,
{
    match preds {
        List::Nil => List::Nil,
        List::Cons(head, tail) => List::Cons(*head, Box::new(clone_preds(tail))),
    }
}

} // verus!
