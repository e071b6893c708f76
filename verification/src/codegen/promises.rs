//! What generated code does, whatever the annotated item looks like: who calls whom,
//! with which arguments, and what is refused.

use crate::codegen::expand::{
    actor_impl, actor_methods, actor_struct, arguments, context_actor, declared, expand_actor,
    expand_actor_fn, extract_actor_ty, first_type, gen_inline_call, generics_of,
    handed_on, helper_declared, helper_generics, helper_handed_on, is_actor_method, is_context,
    lower_method, lowered_fn, lowered_fn_name, lowered_fns, passed_params, passed_through,
    return_type, sender_decl, sender_decls, sender_fn, sender_fns, split_args, struct_expansion,
    trait_name,
    type_ident, typed_params, Expansion, LoweredMethod, MacroError,
};
use crate::codegen::body::lowered_name;
use crate::codegen::syntax::{
    names_view, params_view, written_name, AnnotatedItem, Function, FunctionView, GenericArg, GenericParam, Head, HeadView,
    ImplBlock, MemberView, Name, NameView, Param, ParamView, PathArgs, PathArgsView, Ty, TyView,
};
use crate::codegen::tokens::{
    commas, group, name, splice, text, Delimiter, Fragment, Piece, PieceView, Tokens,
};
use vstd::prelude::*;

verus! {

/// A list with commas: its entries are at the even places, in their order, and commas at
/// the odd ones. There is none behind the last entry.
pub proof fn commas_separate(list: Seq<PieceView>)
    ensures
        commas(list).len() == (if list.len() == 0 {
            0
        } else {
            2 * list.len() - 1
        }),
        forall|i: int| 0 <= i < list.len() ==> commas(list)[2 * i] == #[trigger] list[i],
        forall|i: int|
            0 <= i < list.len() - 1 ==> #[trigger] commas(list)[2 * i + 1] == PieceView::Text(
                ","@,
            ),
    decreases list.len(),
{
    if list.len() > 1 {
        let rest = list.drop_last();
        commas_separate(rest);
        assert forall|i: int| 0 <= i < list.len() implies commas(list)[2 * i] == #[trigger] list[i] by {
            if i < rest.len() {
                assert(rest[i] == list[i]);
            }
        }
        assert forall|i: int| 0 <= i < list.len() - 1 implies #[trigger] commas(list)[2 * i + 1]
            == PieceView::Text(","@) by {
            if i < rest.len() - 1 {
                assert(commas(rest)[2 * i + 1] == PieceView::Text(","@));
            }
        }
    }
}

/// How many of the parameters from number `from` up to number `to` have a type.
pub open spec fn typed_between(params: Seq<ParamView>, from: int, to: int) -> nat
    decreases to - from,
{
    if to <= from {
        0
    } else {
        typed_between(params, from, to - 1) + (if params[to - 1] is Typed {
            1nat
        } else {
            0nat
        })
    }
}

/// How parameter number `param` is handed on: by its name, and a compile error if it has
/// none.
pub open spec fn argument_for(method: usize, params: Seq<ParamView>, param: int) -> PieceView {
    if params[param]->named {
        PieceView::Splice(Fragment::ParamName { method, param: param as usize })
    } else {
        PieceView::Error {
            at: Fragment::ParamPattern { method, param: param as usize },
            message: "stage: actor method/fn parameters must be simple identifiers"@,
        }
    }
}

proof fn lemma_params(method: usize, params: Seq<ParamView>, from: int, to: int)
    requires
        0 <= from,
        to <= params.len() <= usize::MAX,
    ensures
        typed_params(method, params, from, to).len() == typed_between(params, from, to),
        passed_params(method, params, from, to).len() == typed_between(params, from, to),
        forall|i: int|
            from <= i < to && (#[trigger] params[i]) is Typed ==> {
                let at = typed_between(params, from, i);
                &&& at < typed_between(params, from, to)
                &&& typed_params(method, params, from, to)[at as int] == PieceView::Splice(
                    Fragment::Param { method, param: i as usize },
                )
                &&& passed_params(method, params, from, to)[at as int] == argument_for(
                    method,
                    params,
                    i,
                )
            },
    decreases to - from,
{
    if to > from {
        lemma_params(method, params, from, to - 1);
    }
}

/// The parameters from any number on are split into how they are declared and how they
/// are handed on: each typed one is in both lists, at the same place and in the order of
/// the source, and a receiver in neither.
pub proof fn parameters_are_split_in_order(
    method: usize,
    params: Vec<Param>,
    from: usize,
    split: (Tokens, Tokens),
    i: int,
)
    requires
        call_ensures(split_args, (method, &params, from), split),
    ensures
        ({
            let all = params_view(params@);
            let n = typed_between(all, from as int, all.len() as int);
            &&& split.0@.len() == n && split.1@.len() == n
            &&& from <= i < all.len() && all[i] is Typed ==> {
                let at = typed_between(all, from as int, i);
                &&& at < n
                &&& split.0@[at as int] == PieceView::Splice(
                    Fragment::Param { method, param: i as usize },
                )
                &&& split.1@[at as int] == argument_for(method, all, i)
            }
        }),
{
    assert(params.len() == params@.len());
    lemma_params(method, params_view(params@), from as int, params@.len() as int);
}

/// Whether `declared` declares the typed parameters from number `from` on, all of them
/// and in their order, and `handed_on` hands on just these, each in the same place.
pub open spec fn agree(
    method: usize,
    params: Seq<ParamView>,
    from: int,
    declared: Seq<PieceView>,
    handed_on: Seq<PieceView>,
) -> bool {
    let n = typed_between(params, from, params.len() as int);
    &&& declared.len() == handed_on.len()
    &&& declared.len() == (if n == 0 {
        0
    } else {
        2 * n - 1
    })
    &&& forall|i: int|
        from <= i < params.len() && (#[trigger] params[i]) is Typed ==> {
            let at = 2 * typed_between(params, from, i);
            &&& at < declared.len()
            &&& declared[at as int] == PieceView::Splice(
                Fragment::Param { method, param: i as usize },
            )
            &&& handed_on[at as int] == argument_for(method, params, i)
        }
    &&& forall|k: int|
        0 <= k < n - 1 ==> #[trigger] declared[2 * k + 1] == PieceView::Text(","@)
            && handed_on[2 * k + 1] == PieceView::Text(","@)
}

proof fn lemma_agree(method: usize, params: Seq<ParamView>, from: int)
    requires
        0 <= from <= params.len() <= usize::MAX,
    ensures
        agree(
            method,
            params,
            from,
            commas(typed_params(method, params, from, params.len() as int)),
            commas(passed_params(method, params, from, params.len() as int)),
        ),
{
    let to = params.len() as int;
    let typed = typed_params(method, params, from, to);
    let passed = passed_params(method, params, from, to);
    lemma_params(method, params, from, to);
    commas_separate(typed);
    commas_separate(passed);
    assert forall|k: int| 0 <= k < typed.len() - 1 implies #[trigger] commas(typed)[2 * k + 1]
        == PieceView::Text(","@) && commas(passed)[2 * k + 1] == PieceView::Text(","@) by {
        assert(commas(passed)[2 * k + 1] == PieceView::Text(","@));
    }
    assert forall|i: int| from <= i < params.len() && (#[trigger] params[i]) is Typed implies {
        let at = 2 * typed_between(params, from, i);
        &&& at < commas(typed).len()
        &&& commas(typed)[at as int] == PieceView::Splice(
            Fragment::Param { method, param: i as usize },
        )
        &&& commas(passed)[at as int] == argument_for(method, params, i)
    } by {
        let k = typed_between(params, from, i) as int;
        assert(commas(typed)[2 * k] == typed[k]);
        assert(commas(passed)[2 * k] == passed[k]);
    }
}

/// The typed parameters of an actor method are handed on as they are declared, whatever
/// the method looks like.
pub proof fn method_arguments_match_parameters(method: usize, sig: HeadView)
    requires
        1 <= sig.params.len() <= usize::MAX,
    ensures
        agree(method, sig.params, 1, declared(method, sig), handed_on(method, sig)),
{
    lemma_agree(method, sig.params, 1);
}

/// The typed parameters of a helper are handed on as they are declared, whatever the
/// helper looks like. The context, where it takes one, is not among them.
pub proof fn helper_arguments_match_parameters(sig: HeadView, context: bool)
    requires
        sig.params.len() <= usize::MAX,
        context == (sig.params.len() > 0 && sig.params[0] is Typed && context_actor(
            sig.params[0]->ty,
        ) is Some),
    ensures
        agree(
            0,
            sig.params,
            if context {
                1
            } else {
                0
            },
            helper_declared(sig),
            helper_handed_on(sig),
        ),
{
    lemma_agree(
        0,
        sig.params,
        if context {
            1
        } else {
            0
        },
    );
}

/// A written return type is repeated; without one, nothing is returned.
pub proof fn return_type_is_repeated(method: usize, sig: HeadView)
    ensures
        return_type(method, sig).len() == 1,
        sig.returns ==> return_type(method, sig)[0] == PieceView::Splice(
            Fragment::ReturnType { method },
        ),
        !sig.returns ==> return_type(method, sig)[0] == PieceView::Text("()"@),
{
}

/// The call of the body of an actor method, up to its arguments.
pub open spec fn call_of_body(name: NameView) -> Seq<PieceView> {
    seq![
        PieceView::Text("<"@),
        PieceView::Splice(Fragment::SelfType),
        PieceView::Text(">::"@),
        PieceView::Name("__stage_method_"@ + name.text),
        PieceView::Open(Delimiter::Parenthesis),
        PieceView::Text("::stage::__private::__ctx(),"@),
    ]
}

/// Whatever its signature, an actor method is invoked by running its body: the block that
/// is spawned is the call of the body with a context and the arguments, followed by
/// `.await`, and nothing else.
pub proof fn sender_awaits_the_body(method: usize, sig: Head, lowered: LoweredMethod)
    requires
        sig@.is_actor_method_spec(),
        call_ensures(lower_method, (method, &sig), lowered),
    ensures
        lowered.sender@ == lowered.decl@.drop_last() + seq![
            PieceView::Text(">"@),
            PieceView::Open(Delimiter::Brace),
            PieceView::Text(
                "let __cell = ::stage::ActorRef::__cell(self); ::stage::__private::spawn_method"@,
            ),
            PieceView::Open(Delimiter::Parenthesis),
            PieceView::Text("__cell, async move"@),
            PieceView::Open(Delimiter::Brace),
        ] + call_of_body(sig@.name) + handed_on(method, sig@) + seq![
            PieceView::Close(Delimiter::Parenthesis),
            PieceView::Text(".await"@),
            PieceView::Close(Delimiter::Brace),
            PieceView::Close(Delimiter::Parenthesis),
            PieceView::Close(Delimiter::Brace),
        ],
{
    assert(lowered.sender@ == sender_fn(method, sig@));
    assert(lowered.decl@ == sender_decl(method, sig@));
    lemma_decl(method, sig@);
    lemma_sender(method, sig@);
}

proof fn lemma_sender(method: usize, sig: HeadView)
    ensures
        sender_fn(method, sig) == sender_decl(method, sig).drop_last() + seq![
            PieceView::Text(">"@),
            PieceView::Open(Delimiter::Brace),
            PieceView::Text(
                "let __cell = ::stage::ActorRef::__cell(self); ::stage::__private::spawn_method"@,
            ),
            PieceView::Open(Delimiter::Parenthesis),
            PieceView::Text("__cell, async move"@),
            PieceView::Open(Delimiter::Brace),
        ] + call_of_body(sig.name) + handed_on(method, sig) + seq![
            PieceView::Close(Delimiter::Parenthesis),
            PieceView::Text(".await"@),
            PieceView::Close(Delimiter::Brace),
            PieceView::Close(Delimiter::Parenthesis),
            PieceView::Close(Delimiter::Brace),
        ],
{
    let args = handed_on(method, sig);
    let head = sender_decl(method, sig).drop_last();
    assert(head =~= crate::codegen::expand::sender_head(method, sig));
    assert(sender_fn(method, sig) =~= head + seq![
        PieceView::Text(">"@),
        PieceView::Open(Delimiter::Brace),
        PieceView::Text(
            "let __cell = ::stage::ActorRef::__cell(self); ::stage::__private::spawn_method"@,
        ),
        PieceView::Open(Delimiter::Parenthesis),
        PieceView::Text("__cell, async move"@),
        PieceView::Open(Delimiter::Brace),
    ] + call_of_body(sig.name) + args + seq![
        PieceView::Close(Delimiter::Parenthesis),
        PieceView::Text(".await"@),
        PieceView::Close(Delimiter::Brace),
        PieceView::Close(Delimiter::Parenthesis),
        PieceView::Close(Delimiter::Brace),
    ]);
}

proof fn lemma_decl(method: usize, sig: HeadView)
    ensures
        sender_decl(method, sig) == seq![
            PieceView::Text("fn"@),
            PieceView::Splice(Fragment::MethodName { method }),
            PieceView::Open(Delimiter::Parenthesis),
            PieceView::Text("&self,"@),
        ] + declared(method, sig) + seq![
            PieceView::Close(Delimiter::Parenthesis),
            PieceView::Text("-> ::stage::JoinHandle<"@),
        ] + return_type(method, sig) + seq![PieceView::Text(">;"@)],
{
    assert(sender_decl(method, sig) =~= seq![
        PieceView::Text("fn"@),
        PieceView::Splice(Fragment::MethodName { method }),
        PieceView::Open(Delimiter::Parenthesis),
        PieceView::Text("&self,"@),
    ] + declared(method, sig) + seq![
        PieceView::Close(Delimiter::Parenthesis),
        PieceView::Text("-> ::stage::JoinHandle<"@),
    ] + return_type(method, sig) + seq![PieceView::Text(">;"@)]);
}

/// The method that invokes an actor method has its name and its parameters, and gives a
/// handle to its result. It is declared as it is defined: see [`sender_awaits_the_body`].
pub proof fn sender_is_declared_like_the_method(method: usize, sig: Head, lowered: LoweredMethod)
    requires
        sig@.is_actor_method_spec(),
        call_ensures(lower_method, (method, &sig), lowered),
    ensures
        lowered.decl@ == seq![
            PieceView::Text("fn"@),
            PieceView::Splice(Fragment::MethodName { method }),
            PieceView::Open(Delimiter::Parenthesis),
            PieceView::Text("&self,"@),
        ] + declared(method, sig@) + seq![
            PieceView::Close(Delimiter::Parenthesis),
            PieceView::Text("-> ::stage::JoinHandle<"@),
        ] + return_type(method, sig@) + seq![PieceView::Text(">;"@)],
{
    lemma_decl(method, sig@);
}

/// The body of an actor method is an async function with the name that it is called by.
/// It takes the context first, and then what the method takes, and has the method's
/// return type and body.
pub proof fn body_takes_the_context_first(method: usize, sig: Head, lowered: LoweredMethod)
    requires
        sig@.is_actor_method_spec(),
        call_ensures(lower_method, (method, &sig), lowered),
    ensures
        lowered.body@ == seq![
            PieceView::Text("#[allow(unused, non_snake_case, clippy::all)] async fn"@),
            call_of_body(sig@.name)[3],
            PieceView::Open(Delimiter::Parenthesis),
            PieceView::Text("mut __stage_ctx: ::stage::ActorContext<'_,"@),
            PieceView::Splice(Fragment::SelfType),
            PieceView::Text(">,"@),
        ] + declared(method, sig@) + seq![
            PieceView::Close(Delimiter::Parenthesis),
            PieceView::Splice(Fragment::Return { method }),
            PieceView::Splice(Fragment::Body { method }),
        ],
{
    assert(lowered.body@ == lowered_fn(method, sig@));
    assert(lowered_fn(method, sig@) =~= seq![
        PieceView::Text("#[allow(unused, non_snake_case, clippy::all)] async fn"@),
        call_of_body(sig@.name)[3],
        PieceView::Open(Delimiter::Parenthesis),
        PieceView::Text("mut __stage_ctx: ::stage::ActorContext<'_,"@),
        PieceView::Splice(Fragment::SelfType),
        PieceView::Text(">,"@),
    ] + declared(method, sig@) + seq![
        PieceView::Close(Delimiter::Parenthesis),
        PieceView::Splice(Fragment::Return { method }),
        PieceView::Splice(Fragment::Body { method }),
    ]);
}

/// A call that is inlined calls the very body that the sender calls, with a context of
/// its own and all arguments of the call, in their order.
pub proof fn inlined_call_hands_on_all_arguments(
    method: NameView,
    lowered: String,
    args: usize,
    tokens: Tokens,
)
    requires
        lowered@ == lowered_name(method),
        call_ensures(gen_inline_call, (&lowered, args), tokens),
    ensures
        tokens@.len() == call_of_body(method).len() + (if args == 0 {
            0
        } else {
            2 * args - 1
        }) + 1,
        tokens@.take(6) == call_of_body(method),
        forall|i: int|
            0 <= i < args ==> #[trigger] tokens@[6 + 2 * i] == PieceView::Splice(
                Fragment::Argument { index: i as usize },
            ),
        forall|i: int|
            0 <= i < args - 1 ==> #[trigger] tokens@[7 + 2 * i] == PieceView::Text(","@),
        tokens@.last() == PieceView::Close(Delimiter::Parenthesis),
{
    lemma_arguments(args as nat);
    let list = arguments(args as nat);
    commas_separate(list);
    assert(tokens@.take(6) =~= call_of_body(method));
    assert forall|i: int| 0 <= i < args implies #[trigger] tokens@[6 + 2 * i] == PieceView::Splice(
        Fragment::Argument { index: i as usize },
    ) by {
        assert(commas(list)[2 * i] == list[i]);
    }
    assert forall|i: int| 0 <= i < args - 1 implies #[trigger] tokens@[7 + 2 * i]
        == PieceView::Text(","@) by {
        assert(commas(list)[2 * i + 1] == PieceView::Text(","@));
    }
}

proof fn lemma_arguments(n: nat)
    requires
        n <= usize::MAX,
    ensures
        arguments(n).len() == n,
        forall|i: int|
            0 <= i < n ==> #[trigger] arguments(n)[i] == PieceView::Splice(
                Fragment::Argument { index: i as usize },
            ),
    decreases n,
{
    if n > 0 {
        lemma_arguments((n - 1) as nat);
    }
}

/// Whether a member of an impl block is an actor method: async, with a receiver as its
/// first parameter.
pub open spec fn takes_turns(member: MemberView) -> bool {
    member matches MemberView::Method { sig } && sig.is_async && sig.params.len() > 0
        && sig.params[0] is Receiver
}

/// A method is an actor method exactly if it is async and takes `self`.
pub proof fn actor_methods_are_async_with_a_receiver(sig: Head, yes: bool)
    requires
        call_ensures(is_actor_method, (&sig,), yes),
    ensures
        yes == takes_turns(MemberView::Method { sig: sig@ }),
{
}

/// Calls are inlined for the names of the actor methods, and for no other.
pub proof fn inlined_names_are_those_of_actor_methods(members: Seq<MemberView>, name: NameView)
    ensures
        actor_methods(members, members.len() as int).contains(name) <==> exists|i: int|
            0 <= i < members.len() && takes_turns(#[trigger] members[i]) && members[i]->sig.name
                == name,
{
    lemma_method_names(members, members.len() as int, name);
}

proof fn lemma_method_names(members: Seq<MemberView>, n: int, name: NameView)
    requires
        0 <= n <= members.len(),
    ensures
        actor_methods(members, n).contains(name) <==> exists|i: int|
            0 <= i < n && takes_turns(#[trigger] members[i]) && members[i]->sig.name == name,
    decreases n,
{
    if n > 0 {
        lemma_method_names(members, n - 1, name);
        let before = actor_methods(members, n - 1);
        let all = actor_methods(members, n);
        if takes_turns(members[n - 1]) {
            assert(all =~= before.push(members[n - 1]->sig.name));
            assert(all[all.len() - 1] == members[n - 1]->sig.name);
            if before.contains(name) {
                let k = choose|k: int| 0 <= k < before.len() && before[k] == name;
                assert(all[k] == name);
            }
            if all.contains(name) && name != members[n - 1]->sig.name {
                let k = choose|k: int| 0 <= k < all.len() && all[k] == name;
                assert(before[k] == name);
            }
        } else {
            assert(all == before);
        }
    }
}

/// Of the members of an impl block, an actor method adds its body, the declaration of the
/// method that invokes it and that method, behind those before it, and any other member
/// adds itself. Nothing else is added.
pub proof fn each_member_adds_its_part(members: Seq<MemberView>, i: int)
    requires
        0 <= i < members.len() <= usize::MAX,
    ensures
        lowered_fns(members, 0).len() == 0,
        passed_through(members, 0).len() == 0,
        sender_decls(members, 0).len() == 0,
        sender_fns(members, 0).len() == 0,
        takes_turns(members[i]) ==> {
            let sig = members[i]->sig;
            &&& lowered_fns(members, i + 1) == lowered_fns(members, i) + lowered_fn(i as usize, sig)
            &&& sender_decls(members, i + 1) == sender_decls(members, i) + sender_decl(
                i as usize,
                sig,
            )
            &&& sender_fns(members, i + 1) == sender_fns(members, i) + sender_fn(i as usize, sig)
            &&& passed_through(members, i + 1) == passed_through(members, i)
        },
        !takes_turns(members[i]) ==> {
            &&& lowered_fns(members, i + 1) == lowered_fns(members, i)
            &&& sender_decls(members, i + 1) == sender_decls(members, i)
            &&& sender_fns(members, i + 1) == sender_fns(members, i)
            &&& passed_through(members, i + 1) == passed_through(members, i).push(
                PieceView::Splice(Fragment::Member { index: i as usize }),
            )
        },
{
    if !takes_turns(members[i]) {
        assert(passed_through(members, i + 1) =~= passed_through(members, i).push(
            PieceView::Splice(Fragment::Member { index: i as usize }),
        ));
    }
}

/// Whether an impl block was expanded into the block with the bodies and whatever else
/// it holds, a trait named after the actor that declares the methods of a reference, and
/// the implementation of that trait for references to the actor; and refused if its type
/// has no name.
pub open spec fn is_expansion_of_impl(
    self_ty: TyView,
    members: Seq<MemberView>,
    expanded: Result<Expansion, MacroError>,
) -> bool {
    let n = members.len() as int;
    if self_ty is Path && self_ty->Path_0.len() > 0 {
        let trait_ident = PieceView::Name("__StageMethods_"@ + self_ty->Path_0.last().name.text);
        expanded matches Ok(expansion) && {
            &&& expansion.tokens@ == seq![
                PieceView::Text("impl"@),
                PieceView::Splice(Fragment::SelfType),
                PieceView::Open(Delimiter::Brace),
            ] + lowered_fns(members, n) + passed_through(members, n) + seq![
                PieceView::Close(Delimiter::Brace),
                PieceView::Text(
                    "#[doc = \" Generated extension trait carrying this actor's message-sending\"] #[doc = \" methods. In scope automatically within the defining module.\"] #[allow(non_camel_case_types)] pub trait"@,
                ),
                trait_ident,
                PieceView::Open(Delimiter::Brace),
            ] + sender_decls(members, n) + seq![
                PieceView::Close(Delimiter::Brace),
                PieceView::Text("impl"@),
                trait_ident,
                PieceView::Text("for ::stage::ActorRef<"@),
                PieceView::Splice(Fragment::SelfType),
                PieceView::Text(">"@),
                PieceView::Open(Delimiter::Brace),
            ] + sender_fns(members, n) + seq![PieceView::Close(Delimiter::Brace)]
            &&& forall|name: NameView| #[trigger]
                names_view(expansion.methods@).contains(name) <==> exists|i: int|
                    0 <= i < members.len() && takes_turns(#[trigger] members[i])
                        && members[i]->sig.name == name
        }
    } else {
        expanded matches Err(error) && error.at == Fragment::SelfType && error.message@
            == "#[stage::actor] impl target must be a simple type name"@
    }
}

proof fn lemma_impl(
    self_ty: TyView,
    members: Seq<MemberView>,
    expanded: Result<Expansion, MacroError>,
)
    requires
        crate::codegen::expand::impl_expanded(self_ty, members, expanded),
    ensures
        is_expansion_of_impl(self_ty, members, expanded),
{
    if self_ty is Path && self_ty->Path_0.len() > 0 {
        let n = members.len() as int;
        let trait_ident = PieceView::Name("__StageMethods_"@ + self_ty->Path_0.last().name.text);
        assert(expanded->Ok_0.tokens@ =~= seq![
            PieceView::Text("impl"@),
            PieceView::Splice(Fragment::SelfType),
            PieceView::Open(Delimiter::Brace),
        ] + lowered_fns(members, n) + passed_through(members, n) + seq![
            PieceView::Close(Delimiter::Brace),
            PieceView::Text(
                "#[doc = \" Generated extension trait carrying this actor's message-sending\"] #[doc = \" methods. In scope automatically within the defining module.\"] #[allow(non_camel_case_types)] pub trait"@,
            ),
            trait_ident,
            PieceView::Open(Delimiter::Brace),
        ] + sender_decls(members, n) + seq![
            PieceView::Close(Delimiter::Brace),
            PieceView::Text("impl"@),
            trait_ident,
            PieceView::Text("for ::stage::ActorRef<"@),
            PieceView::Splice(Fragment::SelfType),
            PieceView::Text(">"@),
            PieceView::Open(Delimiter::Brace),
        ] + sender_fns(members, n) + seq![PieceView::Close(Delimiter::Brace)]);
        assert forall|name: NameView| #[trigger]
            names_view(expanded->Ok_0.methods@).contains(name) <==> exists|i: int|
                0 <= i < members.len() && takes_turns(#[trigger] members[i])
                    && members[i]->sig.name == name by {
            inlined_names_are_those_of_actor_methods(members, name);
        }
    }
}

/// An impl block keeps what it holds, and the methods that invoke its actor methods are
/// declared and implemented under the same trait.
pub proof fn impl_block_is_kept_and_gets_a_trait(
    block: ImplBlock,
    expanded: Result<Expansion, MacroError>,
)
    requires
        call_ensures(actor_impl, (&block,), expanded),
    ensures
        is_expansion_of_impl(block@.self_ty, block@.members, expanded),
{
    lemma_impl(block@.self_ty, block@.members, expanded);
}

/// An actor is a struct without generic parameters, or an impl block; nothing else is
/// accepted.
pub proof fn actors_are_structs_and_impl_blocks(
    item: AnnotatedItem,
    expanded: Result<Expansion, MacroError>,
)
    requires
        call_ensures(expand_actor, (&item,), expanded),
    ensures
        match item {
            AnnotatedItem::Struct { generic_params } => if generic_params == 0 {
                expanded matches Ok(expansion) && expansion.tokens@ == struct_expansion()
                    && expansion.methods@.len() == 0
            } else {
                expanded matches Err(error) && error.at == Fragment::Generics && error.message@
                    == "#[stage::actor] does not support generic actors in this prototype"@
            },
            AnnotatedItem::Impl(block) => is_expansion_of_impl(
                block@.self_ty,
                block@.members,
                expanded,
            ),
            AnnotatedItem::Other => expanded matches Err(error) && error.at == Fragment::Item
                && error.message@
                == "#[stage::actor] may only be applied to a struct or an impl block"@,
        },
{
    if let AnnotatedItem::Impl(block) = item {
        lemma_impl(block@.self_ty, block@.members, expanded);
    }
}

/// The type of an impl block is named by the last segment of its path.
pub proof fn types_are_named_by_their_last_segment(ty: Ty, ident: Option<Name>)
    requires
        call_ensures(type_ident, (&ty,), ident),
    ensures
        ident is Some <==> (ty matches Ty::Path(segments) && segments@.len() > 0),
        ident matches Some(name) ==> name@ == ty->Path_0@.last().name@,
{
}

/// Whether a type is a path that ends in `ActorContext`.
pub open spec fn ends_in_context(ty: TyView) -> bool {
    ty matches TyView::Path(segments) && segments.len() > 0 && segments.last().name == (NameView {
        raw: false,
        text: "ActorContext"@,
    })
}

/// Whether argument number `arg` is the first type in the angle brackets at the end of a
/// path.
pub open spec fn is_first_type_argument(ty: TyView, arg: int) -> bool {
    ty matches TyView::Path(segments) && segments.len() > 0 && (segments.last().args matches
        PathArgsView::Angle(args) && 0 <= arg < args.len() && args[arg] is Type && forall|j: int|
            0 <= j < arg ==> !((#[trigger] args[j]) is Type))
}

proof fn lemma_first_type(args: Seq<GenericArg>, from: int)
    requires
        0 <= from <= args.len() <= usize::MAX,
    ensures
        first_type(args, from) matches Some(i) ==> from <= i < args.len() && args[i as int] is Type
            && forall|j: int| from <= j < i ==> !((#[trigger] args[j]) is Type),
        first_type(args, from) is None ==> forall|j: int|
            from <= j < args.len() ==> !((#[trigger] args[j]) is Type),
    decreases args.len() - from,
{
    if from < args.len() && !(args[from] is Type) {
        lemma_first_type(args, from + 1);
    }
}

proof fn lemma_context(ty: TyView)
    requires
        ty matches TyView::Path(segments) ==> (segments.last().args matches PathArgsView::Angle(args)
            ==> args.len() <= usize::MAX),
    ensures
        is_context(ty) == ends_in_context(ty),
        context_actor(ty) matches Some(arg) ==> ends_in_context(ty) && is_first_type_argument(
            ty,
            arg as int,
        ),
        context_actor(ty) is None ==> !ends_in_context(ty) || forall|arg: int|
            !(#[trigger] is_first_type_argument(ty, arg)),
{
    if let TyView::Path(segments) = ty {
        if let PathArgsView::Angle(args) = segments.last().args {
            lemma_first_type(args, 0);
        }
    }
}

/// The actor of a context is the first type among the arguments of `ActorContext`.
pub proof fn actor_is_the_first_type_of_a_context(ty: Ty, arg: Option<usize>)
    requires
        call_ensures(extract_actor_ty, (&ty,), arg),
    ensures
        arg matches Some(i) ==> ends_in_context(ty@) && is_first_type_argument(ty@, i as int),
        arg is None ==> !ends_in_context(ty@) || forall|i: int|
            !(#[trigger] is_first_type_argument(ty@, i)),
{
    lemma_context_of(ty);
}

proof fn lemma_context_of(ty: Ty)
    ensures
        is_context(ty@) == ends_in_context(ty@),
        context_actor(ty@) matches Some(arg) ==> ends_in_context(ty@) && is_first_type_argument(
            ty@,
            arg as int,
        ),
        context_actor(ty@) is None ==> !ends_in_context(ty@) || forall|arg: int|
            !(#[trigger] is_first_type_argument(ty@, arg)),
{
    if let Ty::Path(segments) = ty {
        if segments@.len() > 0 {
            assert(ty@->Path_0.last() == segments@.last()@);
            if let PathArgs::Angle(args) = segments@.last().args {
                assert(args.len() == args@.len());
            }
            lemma_context(ty@);
        }
    }
}

/// Whether a helper's first parameter is a context of the actor that stands at argument
/// number `arg` of its type.
pub open spec fn takes_context(params: Seq<ParamView>, arg: usize) -> bool {
    &&& params.len() > 0
    &&& params[0] matches ParamView::Typed { named, ty }
    &&& ends_in_context(ty)
    &&& is_first_type_argument(ty, arg as int)
}

/// Whether a helper's first parameter is a context without an actor.
pub open spec fn takes_bare_context(params: Seq<ParamView>) -> bool {
    &&& params.len() > 0
    &&& params[0] matches ParamView::Typed { named, ty }
    &&& ends_in_context(ty)
    &&& forall|arg: int| !(#[trigger] is_first_type_argument(ty, arg))
}

proof fn lemma_helper_context(f: Function)
    ensures
        forall|arg: usize| #[trigger]
            takes_context(f@.sig.params, arg) <==> crate::codegen::expand::helper_context(
                f@.sig.params,
            ) == Some(arg),
        takes_bare_context(f@.sig.params) <==> f@.sig.params.len() > 0 && f@.sig.params[0] is Typed
            && is_context(f@.sig.params[0]->ty) && context_actor(f@.sig.params[0]->ty) is None,
{
    if f@.sig.params.len() > 0 {
        assert(f@.sig.params[0] == f.sig.params@[0]@);
        if let Param::Typed { named, ty } = f.sig.params@[0] {
            lemma_context_of(ty);
            assert forall|arg: usize| #[trigger] takes_context(f@.sig.params, arg) implies
                crate::codegen::expand::helper_context(f@.sig.params) == Some(arg) by {
                assert(is_first_type_argument(ty@, arg as int));
                let found = context_actor(ty@)->Some_0;
                assert(is_first_type_argument(ty@, found as int));
                let args = ty@->Path_0.last().args->Angle_0;
                assert(args[arg as int] is Type && args[found as int] is Type);
            }
        }
    }
}

/// A helper is an async function without a receiver. If it takes a context, that names
/// its actor and is bound to an identifier. Nothing else is asked of it, and each of
/// these has its own error.
pub proof fn helpers_are_refused_for_these_reasons_only(
    f: Function,
    expanded: Result<Tokens, MacroError>,
)
    requires
        call_ensures(expand_actor_fn, (&f,), expanded),
    ensures
        ({
            let params = f@.sig.params;
            let receiver = params.len() > 0 && params[0] is Receiver;
            let bare = takes_bare_context(params);
            let unnamed = (exists|arg: usize| takes_context(params, arg)) && !params[0]->named;
            &&& expanded is Ok <==> f@.sig.is_async && !receiver && !bare && !unnamed
            &&& !f@.sig.is_async ==> (expanded matches Err(error) && error.at == Fragment::ItemName
                && error.message@ == "#[stage::actor_fn] must be `async`"@)
            &&& f@.sig.is_async && receiver ==> (expanded matches Err(error) && error.at
                == Fragment::ItemName && error.message@
                == "#[stage::actor_fn] requires a first parameter `ctx: ActorContext<'_, Actor>`"@)
            &&& f@.sig.is_async && bare ==> (expanded matches Err(error) && error.at
                == (Fragment::ParamType { method: 0, param: 0 }) && error.message@
                == "first parameter of #[stage::actor_fn] must be `ActorContext<'_, Actor>`"@)
            &&& f@.sig.is_async && unnamed ==> (expanded matches Err(error) && error.at
                == (Fragment::ParamPattern { method: 0, param: 0 }) && error.message@
                == "the ActorContext parameter must be a simple identifier"@)
        }),
{
    lemma_helper_context(f);
    let params = f@.sig.params;
    if let Some(arg) = crate::codegen::expand::helper_context(params) {
        assert(takes_context(params, arg));
    }
}

/// A helper that takes a context: its body takes the context first, and is called with a
/// context of that very actor first, however many further parameters there are. The
/// caller names that actor, and awaits the body.
pub proof fn helper_is_called_with_its_context(f: Function, tokens: Tokens, arg: usize)
    requires
        call_ensures(expand_actor_fn, (&f,), Ok::<Tokens, MacroError>(tokens)),
        takes_context(f@.sig.params, arg),
    ensures
        tokens@ == body_of_helper(f@.sig.name) + seq![
            PieceView::Text("mut"@),
            PieceView::Splice(Fragment::ParamName { method: 0, param: 0 }),
            PieceView::Text(":"@),
            PieceView::Splice(Fragment::ParamType { method: 0, param: 0 }),
            PieceView::Text(","@),
        ] + helper_declared(f@.sig) + head_of_helper() + seq![
            PieceView::Splice(Fragment::Generics),
            PieceView::Open(Delimiter::Parenthesis),
            PieceView::Text("__actor: &::stage::ActorRef<"@),
            PieceView::Splice(Fragment::ContextArg { arg }),
            PieceView::Text(">,"@),
        ] + helper_declared(f@.sig) + result_of_helper() + return_type(0, f@.sig)
            + call_of_helper(f@.sig.name) + seq![
            PieceView::Text("::stage::__private::__ctx::<"@),
            PieceView::Splice(Fragment::ContextArg { arg }),
            PieceView::Text(">(),"@),
        ] + helper_handed_on(f@.sig) + end_of_helper(),
{
    lemma_helper_context(f);
    lemma_helper_is_async(f, tokens);
    assert(crate::codegen::expand::helper_context(f@.sig.params) == Some(arg));
    lemma_helper(f@);
    let param = crate::codegen::expand::context_param(f@.sig.params);
    assert(param =~= seq![
        PieceView::Text("mut"@),
        PieceView::Splice(Fragment::ParamName { method: 0, param: 0 }),
        PieceView::Text(":"@),
        PieceView::Splice(Fragment::ParamType { method: 0, param: 0 }),
        PieceView::Text(","@),
    ]);
    let passed = crate::codegen::expand::context_arg(f@.sig.params);
    assert(passed =~= seq![
        PieceView::Text("::stage::__private::__ctx::<"@),
        PieceView::Splice(Fragment::ContextArg { arg }),
        PieceView::Text(">(),"@),
    ]);
    let actor = helper_generics(f@) + actor_of_helper(f@.sig.params);
    assert(actor =~= seq![
        PieceView::Splice(Fragment::Generics),
        PieceView::Open(Delimiter::Parenthesis),
        PieceView::Text("__actor: &::stage::ActorRef<"@),
        PieceView::Splice(Fragment::ContextArg { arg }),
        PieceView::Text(">,"@),
    ]);
}

/// The parameter of the function that invokes a helper that is the actor, from its
/// bracket on.
pub open spec fn actor_of_helper(params: Seq<ParamView>) -> Seq<PieceView> {
    seq![
        PieceView::Open(Delimiter::Parenthesis),
        PieceView::Text("__actor: &::stage::ActorRef<"@),
    ] + crate::codegen::expand::helper_actor(params) + seq![PieceView::Text(">,"@)]
}

proof fn lemma_add(a: Seq<PieceView>, b: Seq<PieceView>, c: Seq<PieceView>)
    ensures
        a + (b + c) == a + b + c,
{
    assert(a + (b + c) =~= a + b + c);
}

proof fn lemma_helper(f: FunctionView)
    ensures
        crate::codegen::expand::helper_expansion(f) == body_of_helper(f.sig.name)
            + crate::codegen::expand::context_param(f.sig.params) + helper_declared(f.sig)
            + head_of_helper() + (helper_generics(f) + actor_of_helper(f.sig.params))
            + helper_declared(f.sig) + result_of_helper() + return_type(0, f.sig) + call_of_helper(
            f.sig.name,
        ) + crate::codegen::expand::context_arg(f.sig.params) + helper_handed_on(f.sig)
            + end_of_helper(),
{
    let param = crate::codegen::expand::context_param(f.sig.params);
    let declared = helper_declared(f.sig);
    let generics = helper_generics(f);
    let actor = crate::codegen::expand::helper_actor(f.sig.params);
    let ret = return_type(0, f.sig);
    let passed = crate::codegen::expand::context_arg(f.sig.params);
    let handed = helper_handed_on(f.sig);
    let lowered = lowered_fn_name(f.sig.name);
    lemma_helper_head(f.sig.name, param, declared);
    lemma_helper_actor(f.sig.params, actor, declared);
    lemma_helper_call(f.sig.name, passed, handed);
    let first = body_of_helper(f.sig.name) + param + declared + head_of_helper();
    let params = group(
        Delimiter::Parenthesis,
        text("__actor: &::stage::ActorRef<"@) + actor + text(">,"@) + declared,
    );
    let body = group(
        Delimiter::Brace,
        text(
            "let __cell = ::stage::ActorRef::__cell(__actor); ::stage::__private::spawn_method"@,
        ) + group(
            Delimiter::Parenthesis,
            text("__cell, async move"@) + group(
                Delimiter::Brace,
                name(lowered) + group(Delimiter::Parenthesis, passed + handed) + text(".await"@),
            ),
        ),
    );
    let arrow = text("-> ::stage::JoinHandle<"@);
    let open = first + generics;
    assert(crate::codegen::expand::helper_expansion(f) == open + params + arrow + ret + text(">"@)
        + splice(Fragment::WhereClause) + body);
    lemma_add(open, params, arrow);
    let result = open + (params + arrow) + ret;
    lemma_add(result, text(">"@), splice(Fragment::WhereClause));
    lemma_add(result, text(">"@) + splice(Fragment::WhereClause), body);
    // The parameters.
    let bracket = actor_of_helper(f.sig.params);
    lemma_add(open, bracket + declared, result_of_helper());
    lemma_add(open, bracket, declared);
    lemma_add(first, generics, bracket);
    // The call.
    let call = call_of_helper(f.sig.name);
    lemma_add(result, call + passed + handed, end_of_helper());
    lemma_add(result, call + passed, handed);
    lemma_add(result, call, passed);
}

proof fn lemma_helper_head(helper: NameView, param: Seq<PieceView>, declared: Seq<PieceView>)
    ensures
        text("#[allow(unused, non_snake_case, clippy::all)] async fn"@) + name(
            lowered_fn_name(helper),
        ) + splice(Fragment::Generics) + group(Delimiter::Parenthesis, param + declared) + splice(
            Fragment::Return { method: 0 },
        ) + splice(Fragment::WhereClause) + splice(Fragment::Body { method: 0 }) + splice(
            Fragment::Visibility,
        ) + text("fn"@) + splice(Fragment::ItemName) == body_of_helper(helper) + param + declared
            + head_of_helper(),
{
    assert(text("#[allow(unused, non_snake_case, clippy::all)] async fn"@) + name(
        lowered_fn_name(helper),
    ) + splice(Fragment::Generics) + group(Delimiter::Parenthesis, param + declared) + splice(
        Fragment::Return { method: 0 },
    ) + splice(Fragment::WhereClause) + splice(Fragment::Body { method: 0 }) + splice(
        Fragment::Visibility,
    ) + text("fn"@) + splice(Fragment::ItemName) =~= body_of_helper(helper) + param + declared
        + head_of_helper());
}

proof fn lemma_helper_actor(
    params: Seq<ParamView>,
    actor: Seq<PieceView>,
    declared: Seq<PieceView>,
)
    requires
        actor == crate::codegen::expand::helper_actor(params),
    ensures
        group(
            Delimiter::Parenthesis,
            text("__actor: &::stage::ActorRef<"@) + actor + text(">,"@) + declared,
        ) + text("-> ::stage::JoinHandle<"@) == actor_of_helper(params) + declared
            + result_of_helper(),
{
    assert(group(
        Delimiter::Parenthesis,
        text("__actor: &::stage::ActorRef<"@) + actor + text(">,"@) + declared,
    ) + text("-> ::stage::JoinHandle<"@) =~= actor_of_helper(params) + declared
        + result_of_helper());
}

proof fn lemma_helper_call(helper: NameView, passed: Seq<PieceView>, handed: Seq<PieceView>)
    ensures
        text(">"@) + splice(Fragment::WhereClause) + group(
            Delimiter::Brace,
            text(
                "let __cell = ::stage::ActorRef::__cell(__actor); ::stage::__private::spawn_method"@,
            ) + group(
                Delimiter::Parenthesis,
                text("__cell, async move"@) + group(
                    Delimiter::Brace,
                    name(lowered_fn_name(helper)) + group(Delimiter::Parenthesis, passed + handed)
                        + text(".await"@),
                ),
            ),
        ) == call_of_helper(helper) + passed + handed + end_of_helper(),
{
    assert(text(">"@) + splice(Fragment::WhereClause) + group(
        Delimiter::Brace,
        text(
            "let __cell = ::stage::ActorRef::__cell(__actor); ::stage::__private::spawn_method"@,
        ) + group(
            Delimiter::Parenthesis,
            text("__cell, async move"@) + group(
                Delimiter::Brace,
                name(lowered_fn_name(helper)) + group(Delimiter::Parenthesis, passed + handed)
                    + text(".await"@),
            ),
        ),
    ) =~= call_of_helper(helper) + passed + handed + end_of_helper());
}

/// A helper that takes no context: neither does its body, and it is called without one.
/// The caller may be of any actor, and awaits the body.
pub proof fn helper_without_context_runs_on_any_actor(f: Function, tokens: Tokens)
    requires
        call_ensures(expand_actor_fn, (&f,), Ok::<Tokens, MacroError>(tokens)),
        forall|arg: usize| !takes_context(f@.sig.params, arg),
    ensures
        tokens@ == body_of_helper(f@.sig.name) + helper_declared(f@.sig) + head_of_helper()
            + helper_generics(f@) + seq![
            PieceView::Open(Delimiter::Parenthesis),
            PieceView::Text("__actor: &::stage::ActorRef<"@),
            PieceView::Text("__StageActor"@),
            PieceView::Text(">,"@),
        ] + helper_declared(f@.sig) + result_of_helper() + return_type(0, f@.sig)
            + call_of_helper(f@.sig.name) + helper_handed_on(f@.sig) + end_of_helper(),
{
    lemma_helper_context(f);
    lemma_helper_is_async(f, tokens);
    assert(crate::codegen::expand::helper_context(f@.sig.params) is None) by {
        if let Some(arg) = crate::codegen::expand::helper_context(f@.sig.params) {
            assert(takes_context(f@.sig.params, arg));
        }
    }
    lemma_helper(f@);
    let start = body_of_helper(f@.sig.name);
    assert(start + crate::codegen::expand::context_param(f@.sig.params) =~= start);
    let head = start + helper_declared(f@.sig) + head_of_helper();
    let actor = seq![
        PieceView::Open(Delimiter::Parenthesis),
        PieceView::Text("__actor: &::stage::ActorRef<"@),
        PieceView::Text("__StageActor"@),
        PieceView::Text(">,"@),
    ];
    assert(actor_of_helper(f@.sig.params) =~= actor);
    lemma_add(head, helper_generics(f@), actor);
    let call = head + helper_generics(f@) + actor + helper_declared(f@.sig) + result_of_helper()
        + return_type(0, f@.sig) + call_of_helper(f@.sig.name);
    assert(call + crate::codegen::expand::context_arg(f@.sig.params) =~= call);
}

proof fn lemma_helper_is_async(f: Function, tokens: Tokens)
    requires
        call_ensures(expand_actor_fn, (&f,), Ok::<Tokens, MacroError>(tokens)),
    ensures
        tokens@ == crate::codegen::expand::helper_expansion(f@),
{
}

/// The body of a helper, up to its parameters.
pub open spec fn body_of_helper(name: NameView) -> Seq<PieceView> {
    seq![
        PieceView::Text("#[allow(unused, non_snake_case, clippy::all)] async fn"@),
        PieceView::Name("__stage_fn_"@ + name.text),
        PieceView::Splice(Fragment::Generics),
        PieceView::Open(Delimiter::Parenthesis),
    ]
}

/// The rest of the body of a helper, and the head of the function that invokes it, up to
/// its generic parameters.
pub open spec fn head_of_helper() -> Seq<PieceView> {
    seq![
        PieceView::Close(Delimiter::Parenthesis),
        PieceView::Splice(Fragment::Return { method: 0 }),
        PieceView::Splice(Fragment::WhereClause),
        PieceView::Splice(Fragment::Body { method: 0 }),
        PieceView::Splice(Fragment::Visibility),
        PieceView::Text("fn"@),
        PieceView::Splice(Fragment::ItemName),
    ]
}

/// What stands between the parameters and the result of the function that invokes a
/// helper.
pub open spec fn result_of_helper() -> Seq<PieceView> {
    seq![
        PieceView::Close(Delimiter::Parenthesis),
        PieceView::Text("-> ::stage::JoinHandle<"@),
    ]
}

/// What stands between the result of the function that invokes a helper and the
/// arguments that it calls the body with.
pub open spec fn call_of_helper(name: NameView) -> Seq<PieceView> {
    seq![
        PieceView::Text(">"@),
        PieceView::Splice(Fragment::WhereClause),
        PieceView::Open(Delimiter::Brace),
        PieceView::Text(
            "let __cell = ::stage::ActorRef::__cell(__actor); ::stage::__private::spawn_method"@,
        ),
        PieceView::Open(Delimiter::Parenthesis),
        PieceView::Text("__cell, async move"@),
        PieceView::Open(Delimiter::Brace),
        body_of_helper(name)[1],
        PieceView::Open(Delimiter::Parenthesis),
    ]
}

/// What stands behind the arguments that the body of a helper is called with.
pub open spec fn end_of_helper() -> Seq<PieceView> {
    seq![
        PieceView::Close(Delimiter::Parenthesis),
        PieceView::Text(".await"@),
        PieceView::Close(Delimiter::Brace),
        PieceView::Close(Delimiter::Parenthesis),
        PieceView::Close(Delimiter::Brace),
    ]
}

/// How many of the first `n` generic parameters are lifetimes, or are not.
pub open spec fn generics_among(generics: Seq<GenericParam>, lifetimes: bool, n: int) -> int
    decreases n,
{
    if n <= 0 {
        0
    } else {
        generics_among(generics, lifetimes, n - 1) + (if (generics[n - 1] is Lifetime)
            == lifetimes {
            1int
        } else {
            0int
        })
    }
}

proof fn lemma_generics(generics: Seq<GenericParam>, lifetimes: bool, n: int)
    requires
        0 <= n <= generics.len() <= usize::MAX,
    ensures
        generics_of(generics, lifetimes, n).len() == generics_among(generics, lifetimes, n),
        forall|i: int|
            0 <= i < n && ((#[trigger] generics[i]) is Lifetime) == lifetimes ==> {
                let at = generics_among(generics, lifetimes, i);
                &&& 0 <= at < generics_among(generics, lifetimes, n)
                &&& generics_of(generics, lifetimes, n)[at] == PieceView::Splice(
                    Fragment::GenericParam { index: i as usize },
                )
            },
    decreases n,
{
    if n > 0 {
        lemma_generics(generics, lifetimes, n - 1);
        let before = generics_of(generics, lifetimes, n - 1);
        let all = generics_of(generics, lifetimes, n);
        assert(forall|k: int| 0 <= k < before.len() ==> #[trigger] all[k] == before[k]);
        assert forall|i: int| 0 <= i < n && ((#[trigger] generics[i]) is Lifetime)
            == lifetimes implies {
            let at = generics_among(generics, lifetimes, i);
            &&& 0 <= at < generics_among(generics, lifetimes, n)
            &&& all[at] == PieceView::Splice(Fragment::GenericParam { index: i as usize })
        } by {
            if i == n - 1 {
                assert(all[before.len() as int] == PieceView::Splice(
                    Fragment::GenericParam { index: i as usize },
                ));
            }
        }
    }
}

/// A helper that takes no context keeps all its generic parameters: its lifetimes come
/// first, then the type of the actor, then the others, each in their order.
pub proof fn generics_are_kept_beside_the_actor(f: Function)
    requires
        forall|arg: usize| !takes_context(f@.sig.params, arg),
    ensures
        ({
            let n = f@.generics.len() as int;
            let lifetimes = generics_among(f@.generics, true, n);
            let pieces = helper_generics(f@);
            &&& lifetimes + generics_among(f@.generics, false, n) == n
            &&& pieces.len() == 2 * n + 3
            &&& pieces[0] == PieceView::Text("<"@)
            &&& pieces[2 * lifetimes + 1] == PieceView::Text(
                "__StageActor: ::core::marker::Send + 'static"@,
            )
            &&& pieces.last() == PieceView::Text(">"@)
            &&& forall|i: int|
                0 <= i < n ==> pieces[if (#[trigger] f@.generics[i]) is Lifetime {
                    2 * generics_among(f@.generics, true, i) + 1
                } else {
                    2 * (lifetimes + 1 + generics_among(f@.generics, false, i)) + 1
                }] == PieceView::Splice(Fragment::GenericParam { index: i as usize })
            &&& forall|i: int| 0 <= i < n ==> #[trigger] pieces[2 * i + 2] == PieceView::Text(","@)
        }),
{
    let generics = f@.generics;
    let n = generics.len() as int;
    assert(f.generics.len() == n);
    lemma_helper_context(f);
    assert(crate::codegen::expand::helper_context(f@.sig.params) is None) by {
        if let Some(arg) = crate::codegen::expand::helper_context(f@.sig.params) {
            assert(takes_context(f@.sig.params, arg));
        }
    }
    lemma_generics(generics, true, n);
    lemma_generics(generics, false, n);
    lemma_generics_total(generics, n);
    let before = generics_of(generics, true, n);
    let actor = PieceView::Text("__StageActor: ::core::marker::Send + 'static"@);
    let behind = generics_of(generics, false, n);
    let pieces = helper_generics(f@);
    assert(pieces == seq![PieceView::Text("<"@)] + commas(before + seq![actor] + behind) + seq![
        PieceView::Text(">"@),
    ]);
    lemma_around(before, actor, behind, pieces);
    let lifetimes = before.len() as int;
    assert forall|i: int| 0 <= i < n implies pieces[if (#[trigger] generics[i]) is Lifetime {
        2 * generics_among(generics, true, i) + 1
    } else {
        2 * (lifetimes + 1 + generics_among(generics, false, i)) + 1
    }] == PieceView::Splice(Fragment::GenericParam { index: i as usize }) by {
        if generics[i] is Lifetime {
            let k = generics_among(generics, true, i);
            assert(pieces[2 * k + 1] == before[k]);
        } else {
            let k = generics_among(generics, false, i);
            assert(pieces[2 * (lifetimes + 1 + k) + 1] == behind[k]);
        }
    }
}

proof fn lemma_around(
    before: Seq<PieceView>,
    between: PieceView,
    behind: Seq<PieceView>,
    pieces: Seq<PieceView>,
)
    requires
        pieces == seq![PieceView::Text("<"@)] + commas(before + seq![between] + behind) + seq![
            PieceView::Text(">"@),
        ],
    ensures
        pieces.len() == 2 * (before.len() + behind.len()) + 3,
        pieces[0] == PieceView::Text("<"@),
        pieces.last() == PieceView::Text(">"@),
        forall|k: int| 0 <= k < before.len() ==> pieces[2 * k + 1] == #[trigger] before[k],
        pieces[(2 * before.len() + 1) as int] == between,
        forall|k: int|
            0 <= k < behind.len() ==> pieces[2 * (before.len() + 1 + k) + 1]
                == #[trigger] behind[k],
        forall|k: int|
            0 <= k < before.len() + behind.len() ==> #[trigger] pieces[2 * k + 2]
                == PieceView::Text(","@),
{
    let list = before + seq![between] + behind;
    let inner = commas(list);
    commas_separate(list);
    assert forall|k: int| 0 <= k < before.len() implies pieces[2 * k + 1] == #[trigger] before[k] by {
        assert(inner[2 * k] == list[k]);
    }
    let at = before.len() as int;
    assert(inner[2 * at] == list[at]);
    assert forall|k: int| 0 <= k < behind.len() implies pieces[2 * (before.len() + 1 + k) + 1]
        == #[trigger] behind[k] by {
        assert(inner[2 * (at + 1 + k)] == list[at + 1 + k]);
    }
    assert forall|k: int| 0 <= k < before.len() + behind.len() implies #[trigger] pieces[2 * k + 2]
        == PieceView::Text(","@) by {
        assert(inner[2 * k + 1] == PieceView::Text(","@));
    }
}

proof fn lemma_generics_total(generics: Seq<GenericParam>, n: int)
    requires
        0 <= n <= generics.len(),
    ensures
        generics_among(generics, true, n) + generics_among(generics, false, n) == n,
    decreases n,
{
    if n > 0 {
        lemma_generics_total(generics, n - 1);
    }
}

/// A generated name is its prefix with the identifier behind it, without `r#`.
pub proof fn generated_names_tell_what_they_are_for(written: NameView)
    ensures
        lowered_name(written) == "__stage_method_"@ + written.text,
        lowered_fn_name(written) == "__stage_fn_"@ + written.text,
        trait_name(written) == "__StageMethods_"@ + written.text,
{
}

/// A name is what it is written as: writing it out again gives the same text.
pub proof fn names_are_what_is_written(written: Seq<char>)
    ensures
        ({
            let name = written_name(written);
            &&& name.raw ==> written == seq!['r', '#'] + name.text
            &&& !name.raw ==> written == name.text
            &&& name.raw <==> seq!['r', '#'].is_prefix_of(written)
        }),
{
    let name = written_name(written);
    if name.raw {
        assert(written =~= seq!['r', '#'] + name.text);
    }
    if seq!['r', '#'].is_prefix_of(written) {
        assert(written[0] == seq!['r', '#'][0]);
        assert(written[1] == seq!['r', '#'][1]);
    }
    if name.raw {
        assert(seq!['r', '#'] =~= written.take(2));
    }
}

/// A struct is an actor exactly if it has no generic parameters.
pub proof fn structs_without_generics_are_actors(
    generic_params: usize,
    expanded: Result<Tokens, MacroError>,
)
    requires
        call_ensures(actor_struct, (generic_params,), expanded),
    ensures
        expanded is Ok <==> generic_params == 0,
        expanded matches Ok(tokens) ==> tokens@ == struct_expansion(),
        expanded matches Err(error) ==> error.at == Fragment::Generics && error.message@
            == "#[stage::actor] does not support generic actors in this prototype"@,
{
}

/// Contracts speak of all of the generated code, piece by piece.
pub proof fn views_leave_no_piece_out(tokens: Tokens, i: int)
    requires
        0 <= i < tokens.pieces@.len(),
    ensures
        tokens@.len() == tokens.pieces@.len(),
        tokens@[i] == (match tokens.pieces@[i] {
            Piece::Text(text) => PieceView::Text(text@),
            Piece::Name(name) => PieceView::Name(name@),
            Piece::Open(delimiter) => PieceView::Open(delimiter),
            Piece::Close(delimiter) => PieceView::Close(delimiter),
            Piece::Splice(fragment) => PieceView::Splice(fragment),
            Piece::Error { at, message } => PieceView::Error { at, message: message@ },
        }),
{
}

/// Contracts speak of all of an impl block and of a function: of each member, of each
/// parameter and of each identifier.
pub proof fn views_leave_no_part_out(
    block: ImplBlock,
    f: Function,
    names: Seq<Name>,
    i: int,
)
    ensures
        block@.self_ty == block.self_ty@,
        block@.members.len() == block.members@.len(),
        0 <= i < block.members@.len() ==> {
            &&& block.members@[i] is Method <==> block@.members[i] is Method
            &&& block.members@[i] is Method ==> block@.members[i]->sig == block.members@[i]->sig@
        },
        f@.generics == f.generics@,
        f@.sig.name == f.sig.name@,
        f@.sig.is_async == f.sig.is_async,
        f@.sig.returns == f.sig.returns,
        f@.sig.params.len() == f.sig.params@.len(),
        0 <= i < f.sig.params@.len() ==> {
            &&& f.sig.params@[i] is Typed <==> f@.sig.params[i] is Typed
            &&& f.sig.params@[i] is Typed ==> f@.sig.params[i]->named == f.sig.params@[i]->named
                && f@.sig.params[i]->ty == f.sig.params@[i]->ty@
        },
        f@.sig.name.raw == f.sig.name.raw,
        f@.sig.name.text == f.sig.name.text@,
        names_view(names).len() == names.len(),
        0 <= i < names.len() ==> names_view(names)[i] == names[i]@,
{
}

} // verus!
