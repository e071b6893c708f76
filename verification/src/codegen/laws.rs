//! What holds of all generated code.

use crate::codegen::body::lowered_name;
use crate::codegen::expand::{
    actor_methods, arguments, context_arg, context_param, declared, generics_of, handed_on,
    helper_actor, helper_declared, helper_expansion, helper_generics, helper_handed_on,
    impl_expansion, inline_call, lowered_fn, lowered_fns, passed_params, passed_through,
    pattern_message, return_type, sender_decl, sender_decls, sender_fn, sender_fns, sender_head,
    spawn_default_fn, spawn_with_fn, struct_expansion, typed_params,
};
use crate::codegen::syntax::{
    FunctionView, GenericParam, HeadView, MemberView, NameView, ParamView,
};
use crate::codegen::tokens::{commas, group, name, splice, text, Delimiter, Fragment, PieceView};
use vstd::prelude::*;

verus! {

/// The groups that are open behind `pieces` if those of `outer` are open in front,
/// the innermost last. There is no answer if a group is closed that is not the
/// innermost open one.
pub open spec fn open_groups(pieces: Seq<PieceView>, outer: Seq<Delimiter>) -> Option<
    Seq<Delimiter>,
>
    decreases pieces.len(),
{
    if pieces.len() == 0 {
        Some(outer)
    } else {
        match open_groups(pieces.drop_last(), outer) {
            Some(open) => match pieces.last() {
                PieceView::Open(delimiter) => Some(open.push(delimiter)),
                PieceView::Close(delimiter) => if open.len() > 0 && open.last() == delimiter {
                    Some(open.drop_last())
                } else {
                    None
                },
                _ => Some(open),
            },
            None => None,
        }
    }
}

/// Whether every group that is opened is closed, and in the right order.
pub open spec fn balanced(pieces: Seq<PieceView>) -> bool {
    forall|outer: Seq<Delimiter>| #[trigger] open_groups(pieces, outer) == Some(outer)
}

/// Whether `pieces` open and close no group.
pub open spec fn plain(pieces: Seq<PieceView>) -> bool {
    forall|i: int|
        0 <= i < pieces.len() ==> !((#[trigger] pieces[i]) is Open) && !(pieces[i] is Close)
}

proof fn lemma_open_groups(left: Seq<PieceView>, right: Seq<PieceView>, outer: Seq<Delimiter>)
    ensures
        open_groups(left + right, outer) == (match open_groups(left, outer) {
            Some(open) => open_groups(right, open),
            None => None,
        }),
    decreases right.len(),
{
    if right.len() == 0 {
        assert(left + right =~= left);
    } else {
        lemma_open_groups(left, right.drop_last(), outer);
        assert((left + right).drop_last() =~= left + right.drop_last());
        assert((left + right).last() == right.last());
    }
}

broadcast proof fn lemma_balanced_add(left: Seq<PieceView>, right: Seq<PieceView>)
    requires
        balanced(left),
        balanced(right),
    ensures
        #[trigger] balanced(left + right),
{
    assert forall|outer: Seq<Delimiter>| #[trigger] open_groups(left + right, outer) == Some(
        outer,
    ) by {
        lemma_open_groups(left, right, outer);
        assert(open_groups(left, outer) == Some(outer));
        assert(open_groups(right, outer) == Some(outer));
    }
}

broadcast proof fn lemma_balanced_plain(pieces: Seq<PieceView>)
    requires
        plain(pieces),
    ensures
        #[trigger] balanced(pieces),
    decreases pieces.len(),
{
    if pieces.len() > 0 {
        let rest = pieces.drop_last();
        assert forall|i: int| 0 <= i < rest.len() implies !((#[trigger] rest[i]) is Open) && !(
        rest[i] is Close) by {
            assert(rest[i] == pieces[i]);
        }
        lemma_balanced_plain(rest);
        assert(!(pieces.last() is Open) && !(pieces.last() is Close)) by {
            assert(pieces[pieces.len() - 1] == pieces.last());
        }
        assert forall|outer: Seq<Delimiter>| #[trigger] open_groups(pieces, outer) == Some(
            outer,
        ) by {
            assert(open_groups(rest, outer) == Some(outer));
        }
    }
}

broadcast proof fn lemma_balanced_group(delimiter: Delimiter, inner: Seq<PieceView>)
    requires
        balanced(inner),
    ensures
        #[trigger] balanced(group(delimiter, inner)),
{
    let open = seq![PieceView::Open(delimiter)];
    let close = seq![PieceView::Close(delimiter)];
    assert forall|outer: Seq<Delimiter>| #[trigger]
        open_groups(group(delimiter, inner), outer) == Some(outer) by {
        let deeper = outer.push(delimiter);
        assert(open.drop_last() =~= Seq::<PieceView>::empty());
        assert(close.drop_last() =~= Seq::<PieceView>::empty());
        reveal_with_fuel(open_groups, 2);
        assert(open_groups(open, outer) == Some(deeper));
        assert(open_groups(inner, deeper) == Some(deeper));
        assert(deeper.drop_last() =~= outer);
        assert(open_groups(close, deeper) == Some(outer));
        lemma_open_groups(open, inner, outer);
        lemma_open_groups(open + inner, close, outer);
    }
}

broadcast proof fn lemma_plain_text(content: Seq<char>)
    ensures
        #[trigger] plain(text(content)),
{
}

broadcast proof fn lemma_plain_name(content: Seq<char>)
    ensures
        #[trigger] plain(name(content)),
{
}

broadcast proof fn lemma_plain_splice(fragment: Fragment)
    ensures
        #[trigger] plain(splice(fragment)),
{
}

broadcast proof fn lemma_plain_add(left: Seq<PieceView>, right: Seq<PieceView>)
    requires
        plain(left),
        plain(right),
    ensures
        #[trigger] plain(left + right),
{
}

broadcast proof fn lemma_plain_commas(list: Seq<PieceView>)
    requires
        plain(list),
    ensures
        #[trigger] plain(commas(list)),
    decreases list.len(),
{
    if list.len() > 1 {
        let rest = list.drop_last();
        assert(plain(rest)) by {
            assert(forall|i: int| 0 <= i < rest.len() ==> #[trigger] rest[i] == list[i]);
        }
        lemma_plain_commas(rest);
        assert(list[list.len() - 1] == list.last());
    }
}

broadcast proof fn lemma_plain_typed(method: usize, params: Seq<ParamView>, from: int, to: int)
    ensures
        #[trigger] plain(typed_params(method, params, from, to)),
    decreases to - from,
{
    if to > from {
        lemma_plain_typed(method, params, from, to - 1);
    }
}

broadcast proof fn lemma_plain_passed(method: usize, params: Seq<ParamView>, from: int, to: int)
    ensures
        #[trigger] plain(passed_params(method, params, from, to)),
    decreases to - from,
{
    if to > from {
        lemma_plain_passed(method, params, from, to - 1);
    }
}

broadcast proof fn lemma_plain_generics(generics: Seq<GenericParam>, lifetimes: bool, n: int)
    ensures
        #[trigger] plain(generics_of(generics, lifetimes, n)),
    decreases n,
{
    if n > 0 {
        lemma_plain_generics(generics, lifetimes, n - 1);
    }
}

broadcast proof fn lemma_plain_arguments(n: nat)
    ensures
        #[trigger] plain(arguments(n)),
    decreases n,
{
    if n > 0 {
        lemma_plain_arguments((n - 1) as nat);
    }
}

broadcast group group_balanced {
    lemma_balanced_add,
    lemma_balanced_plain,
    lemma_balanced_group,
    lemma_plain_text,
    lemma_plain_name,
    lemma_plain_splice,
    lemma_plain_add,
    lemma_plain_commas,
    lemma_plain_typed,
    lemma_plain_passed,
    lemma_plain_generics,
    lemma_plain_arguments,
}

/// What takes the place of an actor's struct has balanced delimiters.
pub proof fn struct_expansion_is_balanced()
    ensures
        balanced(struct_expansion()),
{
    broadcast use group_balanced;

}

proof fn lemma_method_is_balanced(method: usize, sig: HeadView)
    ensures
        balanced(lowered_fn(method, sig)),
        balanced(sender_decl(method, sig)),
        balanced(sender_fn(method, sig)),
{
    broadcast use group_balanced;

    assert(plain(declared(method, sig)));
    assert(plain(handed_on(method, sig)));
    assert(plain(return_type(method, sig)));
    assert(balanced(sender_head(method, sig)));
}

proof fn lemma_members_are_balanced(members: Seq<MemberView>, n: int)
    ensures
        balanced(lowered_fns(members, n)),
        balanced(passed_through(members, n)),
        balanced(sender_decls(members, n)),
        balanced(sender_fns(members, n)),
    decreases n,
{
    broadcast use group_balanced;

    if n > 0 {
        lemma_members_are_balanced(members, n - 1);
        match members[n - 1] {
            MemberView::Method { sig } => lemma_method_is_balanced((n - 1) as usize, sig),
            MemberView::Other => {},
        }
    }
}

/// What takes the place of an actor's impl block has balanced delimiters.
pub proof fn impl_expansion_is_balanced(actor: NameView, members: Seq<MemberView>)
    ensures
        balanced(impl_expansion(actor, members)),
{
    broadcast use group_balanced;

    lemma_members_are_balanced(members, members.len() as int);
}

/// What takes the place of a helper has balanced delimiters.
pub proof fn helper_expansion_is_balanced(f: FunctionView)
    ensures
        balanced(helper_expansion(f)),
{
    broadcast use group_balanced;

    assert(plain(helper_declared(f.sig)));
    assert(plain(helper_handed_on(f.sig)));
    assert(plain(return_type(0, f.sig)));
    assert(plain(helper_generics(f)));
    assert(plain(helper_actor(f.sig.params)));
    assert(plain(context_param(f.sig.params)));
    assert(plain(context_arg(f.sig.params)));
}

/// An inlined call has balanced delimiters.
pub proof fn inline_call_is_balanced(lowered: Seq<char>, args: nat)
    ensures
        balanced(inline_call(lowered, args)),
{
    broadcast use group_balanced;

}

/// Different methods have different bodies: their generated names differ.
pub proof fn lowered_names_differ(left: NameView, right: NameView)
    requires
        left.text != right.text,
    ensures
        lowered_name(left) != lowered_name(right),
{
    let prefix = "__stage_method_"@;
    if lowered_name(left) == lowered_name(right) {
        assert(left.text =~= lowered_name(left).skip(prefix.len() as int));
        assert(right.text =~= lowered_name(right).skip(prefix.len() as int));
    }
}

/// Every declared parameter is handed on, in its place, unless it is not a simple
/// identifier, which is an error in its place.
pub proof fn declared_params_are_handed_on(method: usize, params: Seq<ParamView>, from: int, to: int)
    requires
        0 <= from,
        to <= params.len() <= usize::MAX,
    ensures
        typed_params(method, params, from, to).len() == passed_params(
            method,
            params,
            from,
            to,
        ).len(),
        forall|k: int|
            0 <= k < typed_params(method, params, from, to).len() ==> {
                &&& (#[trigger] typed_params(method, params, from, to)[k]) matches PieceView::Splice(
                    Fragment::Param { method: m, param },
                )
                &&& m == method
                &&& from <= param < to
                &&& params[param as int] matches ParamView::Typed { named, ty }
                &&& passed_params(method, params, from, to)[k] == (if named {
                    PieceView::Splice(Fragment::ParamName { method, param })
                } else {
                    PieceView::Error {
                        at: Fragment::ParamPattern { method, param },
                        message: pattern_message(),
                    }
                })
            },
    decreases to - from,
{
    if to > from {
        declared_params_are_handed_on(method, params, from, to - 1);
    }
}

/// Whether `part` stands in `whole` right behind `before`.
pub open spec fn stands_behind(
    whole: Seq<PieceView>,
    before: Seq<PieceView>,
    part: Seq<PieceView>,
) -> bool {
    (before + part).is_prefix_of(whole)
}

/// Every member of an impl block has its place. An actor method turns into its
/// body, the declaration of the method that invokes it, and that method, each
/// behind those of the actor methods before it. Everything else stays in the block
/// as it is.
pub proof fn members_are_kept_or_lowered(members: Seq<MemberView>, n: int, i: int)
    requires
        0 <= i < n <= members.len() <= usize::MAX,
    ensures
        match members[i] {
            MemberView::Method { sig } => sig.is_actor_method_spec() ==> {
                &&& stands_behind(
                    lowered_fns(members, n),
                    lowered_fns(members, i),
                    lowered_fn(i as usize, sig),
                )
                &&& stands_behind(
                    sender_decls(members, n),
                    sender_decls(members, i),
                    sender_decl(i as usize, sig),
                )
                &&& stands_behind(
                    sender_fns(members, n),
                    sender_fns(members, i),
                    sender_fn(i as usize, sig),
                )
                &&& actor_methods(members, n).contains(sig.name)
            },
            MemberView::Other => true,
        },
        !members[i].is_actor_method_spec() ==> stands_behind(
            passed_through(members, n),
            passed_through(members, i),
            splice(Fragment::Member { index: i as usize }),
        ),
    decreases n,
{
    if n == i + 1 {
        match members[i] {
            MemberView::Method { sig } => {
                if sig.is_actor_method_spec() {
                    let names = actor_methods(members, n);
                    assert(names[names.len() - 1] == sig.name);
                }
            },
            MemberView::Other => {},
        }
    } else {
        members_are_kept_or_lowered(members, n - 1, i);
        match members[i] {
            MemberView::Method { sig } => {
                if sig.is_actor_method_spec() {
                    let before = actor_methods(members, n - 1);
                    let k = choose|k: int| 0 <= k < before.len() && before[k] == sig.name;
                    assert(actor_methods(members, n)[k] == sig.name);
                }
            },
            MemberView::Other => {},
        }
    }
}

} // verus!
