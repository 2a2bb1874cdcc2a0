use type_aware_impl::list::List;
use type_aware_impl::model::{
    Bound, GenericParam, ImplBlock, Path, Predicate, SegArgs, Segment, TargetDesc, TypeExpr,
};
use type_aware_impl::{add_type_generics, type_aware_impl};

fn list<T>(items: Vec<T>) -> List<T> {
    let mut l = List::Nil;
    for item in items.into_iter().rev() {
        l = List::Cons(item, Box::new(l));
    }
    l
}

fn param(id: u64, arg: &str) -> GenericParam {
    GenericParam { id, arg: arg.to_string() }
}

fn ident_path(name: &str) -> Path {
    Path {
        leading_colon: false,
        segments: list(vec![Segment { ident: name.to_string(), args: SegArgs::Plain }]),
    }
}

fn bare(name: &str, handle: u64) -> TypeExpr {
    TypeExpr::Path(handle, None, ident_path(name))
}

/// Target `Foo<T, S>` with no where-clause.
fn target_foo_t_s() -> TargetDesc {
    TargetDesc {
        name: "Foo".to_string(),
        params: list(vec![param(100, "T"), param(101, "S")]),
        where_preds: None,
    }
}

/// The path substitution is expected to produce for `target_foo_t_s`.
fn foo_t_s_path() -> Path {
    Path {
        leading_colon: false,
        segments: list(vec![Segment {
            ident: "Foo".to_string(),
            args: SegArgs::Angle(list(vec!["T".to_string(), "S".to_string()])),
        }]),
    }
}

#[test]
fn bare_ident_substituted() {
    let target = target_foo_t_s();
    let r = add_type_generics(bare("Foo", 7), &target);
    assert_eq!(r, TypeExpr::Path(7, None, foo_t_s_path()));
}

#[test]
fn target_without_parameters_keeps_bare_name() {
    let target = TargetDesc { name: "Foo".to_string(), params: List::Nil, where_preds: None };
    let r = add_type_generics(bare("Foo", 7), &target);
    assert_eq!(r, TypeExpr::Path(7, None, ident_path("Foo")));
}

#[test]
fn reference_substituted() {
    let target = target_foo_t_s();
    let r = add_type_generics(TypeExpr::Reference(3, Box::new(bare("Foo", 7))), &target);
    assert_eq!(r, TypeExpr::Reference(3, Box::new(TypeExpr::Path(7, None, foo_t_s_path()))));
}

#[test]
fn slice_substituted() {
    let target = target_foo_t_s();
    let r = add_type_generics(TypeExpr::Slice(4, Box::new(bare("Foo", 7))), &target);
    assert_eq!(r, TypeExpr::Slice(4, Box::new(TypeExpr::Path(7, None, foo_t_s_path()))));
}

#[test]
fn array_ptr_group_paren_recurse() {
    let target = target_foo_t_s();
    let nested = TypeExpr::Array(
        1,
        Box::new(TypeExpr::Ptr(
            2,
            Box::new(TypeExpr::Group(3, Box::new(TypeExpr::Paren(4, Box::new(bare("Foo", 5)))))),
        )),
    );
    let r = add_type_generics(nested, &target);
    assert_eq!(
        r,
        TypeExpr::Array(
            1,
            Box::new(TypeExpr::Ptr(
                2,
                Box::new(TypeExpr::Group(
                    3,
                    Box::new(TypeExpr::Paren(
                        4,
                        Box::new(TypeExpr::Path(5, None, foo_t_s_path()))
                    ))
                ))
            ))
        )
    );
}

#[test]
fn tuple_substitutes_only_matches() {
    let target = target_foo_t_s();
    let tuple = TypeExpr::Tuple(
        9,
        Box::new(list(vec![bare("Foo", 1), bare("A", 2), bare("B", 3), bare("C", 4)])),
    );
    let r = add_type_generics(tuple, &target);
    assert_eq!(
        r,
        TypeExpr::Tuple(
            9,
            Box::new(list(vec![
                TypeExpr::Path(1, None, foo_t_s_path()),
                bare("A", 2),
                bare("B", 3),
                bare("C", 4),
            ]))
        )
    );
}

#[test]
fn empty_tuple_unchanged() {
    let target = target_foo_t_s();
    let r = add_type_generics(TypeExpr::Tuple(9, Box::new(List::Nil)), &target);
    assert_eq!(r, TypeExpr::Tuple(9, Box::new(List::Nil)));
}

#[test]
fn multi_segment_path_passthrough() {
    let target = target_foo_t_s();
    let other_foo = Path {
        leading_colon: false,
        segments: list(vec![
            Segment { ident: "other".to_string(), args: SegArgs::Plain },
            Segment { ident: "Foo".to_string(), args: SegArgs::Plain },
        ]),
    };
    let rebuilt = Path {
        leading_colon: false,
        segments: list(vec![
            Segment { ident: "other".to_string(), args: SegArgs::Plain },
            Segment { ident: "Foo".to_string(), args: SegArgs::Plain },
        ]),
    };
    let r = add_type_generics(TypeExpr::Path(7, None, other_foo), &target);
    assert_eq!(r, TypeExpr::Path(7, None, rebuilt));
}

#[test]
fn leading_colon_path_passthrough() {
    let target = target_foo_t_s();
    let abs_foo = Path {
        leading_colon: true,
        segments: list(vec![Segment { ident: "Foo".to_string(), args: SegArgs::Plain }]),
    };
    let rebuilt = Path {
        leading_colon: true,
        segments: list(vec![Segment { ident: "Foo".to_string(), args: SegArgs::Plain }]),
    };
    let r = add_type_generics(TypeExpr::Path(7, None, abs_foo), &target);
    assert_eq!(r, TypeExpr::Path(7, None, rebuilt));
}

#[test]
fn already_parameterized_passthrough() {
    let target = target_foo_t_s();
    let foo_x = Path {
        leading_colon: false,
        segments: list(vec![Segment { ident: "Foo".to_string(), args: SegArgs::Opaque(55) }]),
    };
    let rebuilt = Path {
        leading_colon: false,
        segments: list(vec![Segment { ident: "Foo".to_string(), args: SegArgs::Opaque(55) }]),
    };
    let r = add_type_generics(TypeExpr::Path(7, None, foo_x), &target);
    assert_eq!(r, TypeExpr::Path(7, None, rebuilt));
}

#[test]
fn different_ident_passthrough() {
    let target = target_foo_t_s();
    let r = add_type_generics(bare("Bar", 7), &target);
    assert_eq!(r, bare("Bar", 7));
}

#[test]
fn opaque_type_passthrough() {
    let target = target_foo_t_s();
    let r = add_type_generics(TypeExpr::Opaque(42), &target);
    assert_eq!(r, TypeExpr::Opaque(42));
}

#[test]
fn bare_fn_inputs_and_output_rewritten() {
    let target = target_foo_t_s();
    let fn_ty = TypeExpr::BareFn(
        8,
        Box::new(list(vec![bare("Foo", 1), bare("A", 2)])),
        Some(Box::new(bare("Foo", 3))),
    );
    let r = add_type_generics(fn_ty, &target);
    assert_eq!(
        r,
        TypeExpr::BareFn(
            8,
            Box::new(list(vec![TypeExpr::Path(1, None, foo_t_s_path()), bare("A", 2)])),
            Some(Box::new(TypeExpr::Path(3, None, foo_t_s_path()))),
        )
    );
}

#[test]
fn bare_fn_without_output() {
    let target = target_foo_t_s();
    let fn_ty = TypeExpr::BareFn(8, Box::new(list(vec![bare("Foo", 1)])), None);
    let r = add_type_generics(fn_ty, &target);
    assert_eq!(
        r,
        TypeExpr::BareFn(
            8,
            Box::new(list(vec![TypeExpr::Path(1, None, foo_t_s_path())])),
            None,
        )
    );
}

#[test]
fn impl_trait_bounds_rewritten() {
    let target = target_foo_t_s();
    let ty = TypeExpr::ImplTrait(
        6,
        list(vec![Bound::Trait(1, ident_path("Foo")), Bound::Other(2)]),
    );
    let r = add_type_generics(ty, &target);
    assert_eq!(
        r,
        TypeExpr::ImplTrait(6, list(vec![Bound::Trait(1, foo_t_s_path()), Bound::Other(2)]))
    );
}

#[test]
fn trait_object_bounds_rewritten() {
    let target = target_foo_t_s();
    let multi = Path {
        leading_colon: false,
        segments: list(vec![
            Segment { ident: "other".to_string(), args: SegArgs::Plain },
            Segment { ident: "Foo".to_string(), args: SegArgs::Plain },
        ]),
    };
    let rebuilt = Path {
        leading_colon: false,
        segments: list(vec![
            Segment { ident: "other".to_string(), args: SegArgs::Plain },
            Segment { ident: "Foo".to_string(), args: SegArgs::Plain },
        ]),
    };
    let ty = TypeExpr::TraitObject(
        6,
        list(vec![Bound::Trait(1, ident_path("Foo")), Bound::Trait(2, multi)]),
    );
    let r = add_type_generics(ty, &target);
    assert_eq!(
        r,
        TypeExpr::TraitObject(
            6,
            list(vec![Bound::Trait(1, foo_t_s_path()), Bound::Trait(2, rebuilt)])
        )
    );
}

#[test]
fn qualified_self_rewritten_path_kept() {
    let target = target_foo_t_s();
    // `<Foo as other::Trait>::Out`: the qualified-self type is rewritten,
    // the multi-segment path is not.
    let assoc = Path {
        leading_colon: false,
        segments: list(vec![
            Segment { ident: "other".to_string(), args: SegArgs::Plain },
            Segment { ident: "Trait".to_string(), args: SegArgs::Plain },
            Segment { ident: "Out".to_string(), args: SegArgs::Plain },
        ]),
    };
    let assoc_rebuilt = Path {
        leading_colon: false,
        segments: list(vec![
            Segment { ident: "other".to_string(), args: SegArgs::Plain },
            Segment { ident: "Trait".to_string(), args: SegArgs::Plain },
            Segment { ident: "Out".to_string(), args: SegArgs::Plain },
        ]),
    };
    let ty = TypeExpr::Path(7, Some(Box::new(bare("Foo", 8))), assoc);
    let r = add_type_generics(ty, &target);
    assert_eq!(
        r,
        TypeExpr::Path(
            7,
            Some(Box::new(TypeExpr::Path(8, None, foo_t_s_path()))),
            assoc_rebuilt,
        )
    );
}

#[test]
fn generics_appended_in_order() {
    let target = target_foo_t_s();
    let block = ImplBlock {
        params: list(vec![param(1, "T"), param(2, "U")]),
        where_preds: None,
        self_ty: TypeExpr::Opaque(0),
    };
    let r = type_aware_impl(block, &target);
    assert_eq!(
        r.params,
        list(vec![param(1, "T"), param(2, "U"), param(100, "T"), param(101, "S")])
    );
}

#[test]
fn where_clauses_merged_when_both_present() {
    let mut target = target_foo_t_s();
    target.where_preds = Some(list(vec![Predicate { id: 30 }, Predicate { id: 31 }]));
    let block = ImplBlock {
        params: List::Nil,
        where_preds: Some(list(vec![Predicate { id: 10 }])),
        self_ty: TypeExpr::Opaque(0),
    };
    let r = type_aware_impl(block, &target);
    assert_eq!(
        r.where_preds,
        Some(list(vec![Predicate { id: 10 }, Predicate { id: 30 }, Predicate { id: 31 }]))
    );
}

#[test]
fn target_where_clause_dropped_without_impl_clause() {
    let mut target = target_foo_t_s();
    target.where_preds = Some(list(vec![Predicate { id: 30 }]));
    let block = ImplBlock { params: List::Nil, where_preds: None, self_ty: TypeExpr::Opaque(0) };
    let r = type_aware_impl(block, &target);
    assert_eq!(r.where_preds, None);
}

#[test]
fn impl_where_clause_kept_without_target_clause() {
    let target = target_foo_t_s();
    let block = ImplBlock {
        params: List::Nil,
        where_preds: Some(list(vec![Predicate { id: 10 }, Predicate { id: 11 }])),
        self_ty: TypeExpr::Opaque(0),
    };
    let r = type_aware_impl(block, &target);
    assert_eq!(r.where_preds, Some(list(vec![Predicate { id: 10 }, Predicate { id: 11 }])));
}

#[test]
fn lifetime_parameter_merged_and_substituted() {
    let target = TargetDesc {
        name: "Foo".to_string(),
        params: list(vec![param(60, "'a"), param(61, "T")]),
        where_preds: None,
    };
    let block = ImplBlock {
        params: list(vec![param(1, "U")]),
        where_preds: None,
        self_ty: bare("Foo", 2),
    };
    let r = type_aware_impl(block, &target);
    assert_eq!(r.params, list(vec![param(1, "U"), param(60, "'a"), param(61, "T")]));
    assert_eq!(
        r.self_ty,
        TypeExpr::Path(
            2,
            None,
            Path {
                leading_colon: false,
                segments: list(vec![Segment {
                    ident: "Foo".to_string(),
                    args: SegArgs::Angle(list(vec!["'a".to_string(), "T".to_string()])),
                }]),
            },
        )
    );
}

#[test]
fn end_to_end_scenario() {
    // Template `impl<T: Append<T>> Append<T> for Foo { ... }` against target
    // `struct Foo<S: ToString> { bar: S }`: the parameter list becomes
    // `<T, S>` and the self-type becomes `Foo<S>`.
    let target = TargetDesc {
        name: "Foo".to_string(),
        params: list(vec![param(50, "S")]),
        where_preds: None,
    };
    let block = ImplBlock {
        params: list(vec![param(1, "T")]),
        where_preds: None,
        self_ty: bare("Foo", 2),
    };
    let r = type_aware_impl(block, &target);
    assert_eq!(r.params, list(vec![param(1, "T"), param(50, "S")]));
    assert_eq!(r.where_preds, None);
    assert_eq!(
        r.self_ty,
        TypeExpr::Path(
            2,
            None,
            Path {
                leading_colon: false,
                segments: list(vec![Segment {
                    ident: "Foo".to_string(),
                    args: SegArgs::Angle(list(vec!["S".to_string()])),
                }]),
            },
        )
    );
}
