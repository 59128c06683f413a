//! The borrow analyzer: a pure structural predicate deciding whether a type
//! expression transitively depends on any of the given borrow-scope
//! parameters. Any nested occurrence counts as dependence:
//! a reference annotated with a matching scope, a matching scope argument or
//! constraint region inside a path's argument lists, or a dependent element
//! type inside a tuple, array, pointer, slice, parenthesized or grouped type.

use vstd::prelude::*;

use crate::schema::GenericArg;
use crate::schema::PathSegment;
use crate::schema::SpecGenericArg;
use crate::schema::SpecPathSegment;
use crate::schema::SpecTypeExpr;
use crate::schema::TypeExpr;
use crate::schema::view_generic_arg;
use crate::schema::view_generic_args;
use crate::schema::view_segment;
use crate::schema::view_segments;
use crate::schema::view_type_expr;
use crate::schema::view_type_exprs;

verus! {

/// Whether the type expression `ty` depends on any scope in `scopes`.
pub open spec fn spec_type_depends(ty: SpecTypeExpr, scopes: Seq<Seq<char>>) -> bool
    decreases ty,
{
    match ty {
        SpecTypeExpr::Reference { scope, elem } => {
            let direct = match scope {
                Option::Some(n) => scopes.contains(n),
                Option::None => false,
            };
            direct || spec_type_depends(*elem, scopes)
        },
        SpecTypeExpr::Path { segments } => spec_segments_depend(segments, scopes),
        SpecTypeExpr::Tuple { elems } => spec_exprs_depend(elems, scopes),
        SpecTypeExpr::Array { elem } => spec_type_depends(*elem, scopes),
        SpecTypeExpr::RawPtr { elem } => spec_type_depends(*elem, scopes),
        SpecTypeExpr::Slice { elem } => spec_type_depends(*elem, scopes),
        SpecTypeExpr::Paren { elem } => spec_type_depends(*elem, scopes),
        SpecTypeExpr::Group { elem } => spec_type_depends(*elem, scopes),
        SpecTypeExpr::Opaque => false,
    }
}

/// Whether any expression in `tys` depends on a scope in `scopes`.
pub open spec fn spec_exprs_depend(tys: Seq<SpecTypeExpr>, scopes: Seq<Seq<char>>) -> bool
    decreases tys,
{
    if tys.len() == 0 {
        false
    } else {
        spec_type_depends(tys[0], scopes) || spec_exprs_depend(
            tys.subrange(1, tys.len() as int),
            scopes,
        )
    }
}

/// Whether any segment in `segs` carries a dependent argument.
pub open spec fn spec_segments_depend(segs: Seq<SpecPathSegment>, scopes: Seq<Seq<char>>) -> bool
    decreases segs,
{
    if segs.len() == 0 {
        false
    } else {
        spec_segment_depends(segs[0], scopes) || spec_segments_depend(
            segs.subrange(1, segs.len() as int),
            scopes,
        )
    }
}

/// Whether the segment's argument list carries a dependent argument.
pub open spec fn spec_segment_depends(seg: SpecPathSegment, scopes: Seq<Seq<char>>) -> bool
    decreases seg,
{
    spec_args_depend(seg.args, scopes)
}

/// Whether any argument in `args` depends on a scope in `scopes`.
pub open spec fn spec_args_depend(args: Seq<SpecGenericArg>, scopes: Seq<Seq<char>>) -> bool
    decreases args,
{
    if args.len() == 0 {
        false
    } else {
        spec_arg_depends(args[0], scopes) || spec_args_depend(
            args.subrange(1, args.len() as int),
            scopes,
        )
    }
}

/// Whether one path argument depends on a scope in `scopes`: a matching
/// scope argument, a dependent (associated) type argument, or a constraint
/// with a matching region bound.
pub open spec fn spec_arg_depends(arg: SpecGenericArg, scopes: Seq<Seq<char>>) -> bool
    decreases arg,
{
    match arg {
        SpecGenericArg::ScopeArg { name } => scopes.contains(name),
        SpecGenericArg::TypeArg { ty } => spec_type_depends(ty, scopes),
        SpecGenericArg::AssocTypeArg { ty } => spec_type_depends(ty, scopes),
        SpecGenericArg::ScopeConstraint { scopes: cs } => exists|i: int|
            0 <= i < cs.len() && scopes.contains(cs[i]),
        SpecGenericArg::OtherArg => false,
    }
}

/// A sequence of expressions depends on the scopes exactly when one of its
/// members does.
pub proof fn lemma_exprs_depend_exists(tys: Seq<SpecTypeExpr>, scopes: Seq<Seq<char>>)
    ensures
        spec_exprs_depend(tys, scopes) <==> exists|i: int|
            0 <= i < tys.len() && spec_type_depends(tys[i], scopes),
    decreases tys,
{
    if tys.len() > 0 {
        lemma_exprs_depend_exists(tys.subrange(1, tys.len() as int), scopes);
        let rest = tys.subrange(1, tys.len() as int);
        if spec_exprs_depend(tys, scopes) {
            if spec_type_depends(tys[0], scopes) {
                assert(0 <= 0 < tys.len() && spec_type_depends(tys[0], scopes));
            } else {
                let j = choose|j: int| 0 <= j < rest.len() && spec_type_depends(rest[j], scopes);
                assert(tys[j + 1] == rest[j]);
            }
        } else {
            assert forall|i: int| 0 <= i < tys.len() implies !spec_type_depends(
                tys[i],
                scopes,
            ) by {
                if i > 0 {
                    assert(rest[i - 1] == tys[i]);
                }
            }
        }
    }
}

/// A sequence of segments depends on the scopes exactly when one of its
/// members does.
pub proof fn lemma_segments_depend_exists(segs: Seq<SpecPathSegment>, scopes: Seq<Seq<char>>)
    ensures
        spec_segments_depend(segs, scopes) <==> exists|i: int|
            0 <= i < segs.len() && spec_segment_depends(segs[i], scopes),
    decreases segs,
{
    if segs.len() > 0 {
        lemma_segments_depend_exists(segs.subrange(1, segs.len() as int), scopes);
        let rest = segs.subrange(1, segs.len() as int);
        if spec_segments_depend(segs, scopes) {
            if !spec_segment_depends(segs[0], scopes) {
                let j = choose|j: int| 0 <= j < rest.len() && spec_segment_depends(rest[j], scopes);
                assert(segs[j + 1] == rest[j]);
            }
        } else {
            assert forall|i: int| 0 <= i < segs.len() implies !spec_segment_depends(
                segs[i],
                scopes,
            ) by {
                if i > 0 {
                    assert(rest[i - 1] == segs[i]);
                }
            }
        }
    }
}

/// An argument list depends on the scopes exactly when one of its members
/// does.
pub proof fn lemma_args_depend_exists(args: Seq<SpecGenericArg>, scopes: Seq<Seq<char>>)
    ensures
        spec_args_depend(args, scopes) <==> exists|i: int|
            0 <= i < args.len() && spec_arg_depends(args[i], scopes),
    decreases args,
{
    if args.len() > 0 {
        lemma_args_depend_exists(args.subrange(1, args.len() as int), scopes);
        let rest = args.subrange(1, args.len() as int);
        if spec_args_depend(args, scopes) {
            if !spec_arg_depends(args[0], scopes) {
                let j = choose|j: int| 0 <= j < rest.len() && spec_arg_depends(rest[j], scopes);
                assert(args[j + 1] == rest[j]);
            }
        } else {
            assert forall|i: int| 0 <= i < args.len() implies !spec_arg_depends(
                args[i],
                scopes,
            ) by {
                if i > 0 {
                    assert(rest[i - 1] == args[i]);
                }
            }
        }
    }
}

/// Whether `name` occurs in the scope list.
fn scope_list_contains(scopes: &Vec<String>, name: &String) -> (r: bool)
    ensures
        r == scopes.deep_view().contains(name@),
{
    let mut i: usize = 0;
    while i < scopes.len()
        invariant
            0 <= i <= scopes.len(),
            forall|j: int| 0 <= j < i ==> scopes.deep_view()[j] != name@,
        decreases scopes.len() - i,
    {
        if scopes[i].eq(name) {
            assert(scopes.deep_view()[i as int] == name@);
            return true;
        }
        i = i + 1;
    }
    assert forall|j: int| 0 <= j < scopes.deep_view().len() implies scopes.deep_view()[j]
        != name@ by {}
    false
}

/// Does `ty` transitively depend on any of the borrow scopes named in
/// `scopes`? This is the analyzer consulted by both synthesizers: at the top
/// level to pick the overall shape, and per field to decide which fields the
/// ownership conversion recurses into.
pub fn depends_on_scope(ty: &TypeExpr, scopes: &Vec<String>) -> (r: bool)
    ensures
        r == spec_type_depends(ty@, scopes.deep_view()),
    decreases *ty,
{
    match ty {
        TypeExpr::Reference { scope, elem } => {
            let direct = match scope {
                Option::Some(n) => scope_list_contains(scopes, n),
                Option::None => false,
            };
            direct || depends_on_scope(elem, scopes)
        },
        TypeExpr::Path { segments } => segments_depend(segments, scopes),
        TypeExpr::Tuple { elems } => exprs_depend(elems, scopes),
        TypeExpr::Array { elem } => depends_on_scope(elem, scopes),
        TypeExpr::RawPtr { elem } => depends_on_scope(elem, scopes),
        TypeExpr::Slice { elem } => depends_on_scope(elem, scopes),
        TypeExpr::Paren { elem } => depends_on_scope(elem, scopes),
        TypeExpr::Group { elem } => depends_on_scope(elem, scopes),
        TypeExpr::Opaque => false,
    }
}

/// Whether any element type in `tys` depends on one of the scopes.
fn exprs_depend(tys: &Vec<TypeExpr>, scopes: &Vec<String>) -> (r: bool)
    ensures
        r == spec_exprs_depend(view_type_exprs(tys@), scopes.deep_view()),
    decreases tys@,
{
    let ghost vtys = view_type_exprs(tys@);
    proof {
        lemma_view_type_exprs_index(tys@);
        lemma_exprs_depend_exists(vtys, scopes.deep_view());
    }
    let mut i: usize = 0;
    while i < tys.len()
        invariant
            0 <= i <= tys.len(),
            vtys == view_type_exprs(tys@),
            vtys.len() == tys@.len(),
            forall|j: int| 0 <= j < vtys.len() ==> vtys[j] == view_type_expr(tys@[j]),
            forall|j: int| 0 <= j < i ==> !spec_type_depends(vtys[j], scopes.deep_view()),
        decreases tys.len() - i,
    {
        if depends_on_scope(&tys[i], scopes) {
            proof {
                assert(spec_type_depends(vtys[i as int], scopes.deep_view()));
                lemma_exprs_depend_exists(vtys, scopes.deep_view());
            }
            return true;
        }
        i = i + 1;
    }
    proof {
        lemma_exprs_depend_exists(vtys, scopes.deep_view());
    }
    false
}

/// Whether any segment in `segs` carries a dependent argument.
fn segments_depend(segs: &Vec<PathSegment>, scopes: &Vec<String>) -> (r: bool)
    ensures
        r == spec_segments_depend(view_segments(segs@), scopes.deep_view()),
    decreases segs@,
{
    let ghost vsegs = view_segments(segs@);
    proof {
        lemma_view_segments_index(segs@);
        lemma_segments_depend_exists(vsegs, scopes.deep_view());
    }
    let mut i: usize = 0;
    while i < segs.len()
        invariant
            0 <= i <= segs.len(),
            vsegs == view_segments(segs@),
            vsegs.len() == segs@.len(),
            forall|j: int| 0 <= j < vsegs.len() ==> vsegs[j] == view_segment(segs@[j]),
            forall|j: int| 0 <= j < i ==> !spec_segment_depends(vsegs[j], scopes.deep_view()),
        decreases segs.len() - i,
    {
        if args_depend(&segs[i].args, scopes) {
            proof {
                assert(vsegs[i as int] == view_segment(segs@[i as int]));
                assert(spec_segment_depends(vsegs[i as int], scopes.deep_view()));
                lemma_segments_depend_exists(vsegs, scopes.deep_view());
            }
            return true;
        }
        i = i + 1;
    }
    proof {
        lemma_segments_depend_exists(vsegs, scopes.deep_view());
    }
    false
}

/// Whether any argument in `args` depends on one of the scopes.
fn args_depend(args: &Vec<GenericArg>, scopes: &Vec<String>) -> (r: bool)
    ensures
        r == spec_args_depend(view_generic_args(args@), scopes.deep_view()),
    decreases args@,
{
    let ghost vargs = view_generic_args(args@);
    proof {
        lemma_view_generic_args_index(args@);
        lemma_args_depend_exists(vargs, scopes.deep_view());
    }
    let mut i: usize = 0;
    while i < args.len()
        invariant
            0 <= i <= args.len(),
            vargs == view_generic_args(args@),
            vargs.len() == args@.len(),
            forall|j: int| 0 <= j < vargs.len() ==> vargs[j] == view_generic_arg(args@[j]),
            forall|j: int| 0 <= j < i ==> !spec_arg_depends(vargs[j], scopes.deep_view()),
        decreases args.len() - i,
    {
        if arg_depends(&args[i], scopes) {
            proof {
                assert(spec_arg_depends(vargs[i as int], scopes.deep_view()));
                lemma_args_depend_exists(vargs, scopes.deep_view());
            }
            return true;
        }
        i = i + 1;
    }
    proof {
        lemma_args_depend_exists(vargs, scopes.deep_view());
    }
    false
}

/// Whether one path argument depends on one of the scopes.
fn arg_depends(arg: &GenericArg, scopes: &Vec<String>) -> (r: bool)
    ensures
        r == spec_arg_depends(arg@, scopes.deep_view()),
    decreases *arg,
{
    match arg {
        GenericArg::ScopeArg { name } => scope_list_contains(scopes, name),
        GenericArg::TypeArg { ty } => depends_on_scope(ty, scopes),
        GenericArg::AssocTypeArg { ty } => depends_on_scope(ty, scopes),
        GenericArg::ScopeConstraint { scopes: cs } => {
            let mut i: usize = 0;
            while i < cs.len()
                invariant
                    0 <= i <= cs.len(),
                    arg@ == (SpecGenericArg::ScopeConstraint { scopes: cs.deep_view() }),
                    forall|j: int| 0 <= j < i ==> !scopes.deep_view().contains(
                        cs.deep_view()[j],
                    ),
                decreases cs.len() - i,
            {
                if scope_list_contains(scopes, &cs[i]) {
                    proof {
                        let cv = cs.deep_view();
                        assert(cv[i as int] == cs@[i as int]@);
                        assert(spec_arg_depends(arg@, scopes.deep_view())) by {
                            let sv = arg@->ScopeConstraint_scopes;
                            assert(sv == cv);
                            assert(exists|j: int|
                                0 <= j < sv.len() && scopes.deep_view().contains(sv[j]));
                        }
                    }
                    return true;
                }
                i = i + 1;
            }
            false
        },
        GenericArg::OtherArg => false,
    }
}

/// The viewed expression list indexes to the view of each element.
pub proof fn lemma_view_type_exprs_index(tys: Seq<TypeExpr>)
    ensures
        view_type_exprs(tys).len() == tys.len(),
        forall|j: int| 0 <= j < tys.len() ==> view_type_exprs(tys)[j] == view_type_expr(tys[j]),
    decreases tys,
{
    if tys.len() > 0 {
        lemma_view_type_exprs_index(tys.drop_last());
    }
}

/// The viewed segment list indexes to the view of each element.
pub proof fn lemma_view_segments_index(segs: Seq<PathSegment>)
    ensures
        view_segments(segs).len() == segs.len(),
        forall|j: int| 0 <= j < segs.len() ==> view_segments(segs)[j] == view_segment(segs[j]),
    decreases segs,
{
    if segs.len() > 0 {
        lemma_view_segments_index(segs.drop_last());
    }
}

/// The viewed argument list indexes to the view of each element.
pub proof fn lemma_view_generic_args_index(args: Seq<GenericArg>)
    ensures
        view_generic_args(args).len() == args.len(),
        forall|j: int| 0 <= j < args.len() ==> view_generic_args(args)[j] == view_generic_arg(
            args[j],
        ),
    decreases args,
{
    if args.len() > 0 {
        lemma_view_generic_args_index(args.drop_last());
    }
}

} // verus!
