//! What takes the place of an annotated item.

use crate::codegen::body::{exprs_view, lowered_name, rewrite_all, rewritten_all, Expr};
use crate::codegen::syntax::{
    members_view, names_view, params_view, AnnotatedItem, AnnotatedItemView, Function,
    FunctionView, GenericArg, GenericParam, Head, HeadView, ImplBlock, Member, MemberView, Name,
    NameView, Param, ParamView, PathArgs, PathArgsView, Ty, TyView,
};
use crate::codegen::tokens::{
    commas, group, name, splice, text, Delimiter, Fragment, Piece, PieceView, Tokens,
};
use vstd::prelude::*;

verus! {

/// Why an item cannot be annotated: a message that points at a part of it.
#[derive(Clone, Copy, Debug, PartialEq, Eq)]
pub struct MacroError {
    pub at: Fragment,
    pub message: &'static str,
}

/// Whether an expansion failed with this message, pointing at this part.
pub open spec fn fails_with<T>(
    expanded: Result<T, MacroError>,
    at: Fragment,
    message: Seq<char>,
) -> bool {
    expanded matches Err(error) && error.at == at && error.message@ == message
}

/// The head and the bound of a function that spawns an actor in its default state.
pub open spec fn spawn_default_fn(head: Seq<char>, call: Seq<char>) -> Seq<PieceView> {
    text(head) + splice(Fragment::ItemName) + text("> where"@) + splice(Fragment::ItemName) + text(
        ": ::core::default::Default"@,
    ) + group(
        Delimiter::Brace,
        text("::stage::ActorRef::<"@) + splice(Fragment::ItemName) + text(call),
    )
}

/// A function that spawns an actor in a given state.
pub open spec fn spawn_with_fn(
    head: Seq<char>,
    params: Seq<char>,
    call: Seq<char>,
) -> Seq<PieceView> {
    text(head) + group(Delimiter::Parenthesis, text(params) + splice(Fragment::ItemName)) + text(
        "-> ::stage::ActorRef<"@,
    ) + splice(Fragment::ItemName) + text(">"@) + group(
        Delimiter::Brace,
        text("::stage::ActorRef::<"@) + splice(Fragment::ItemName) + text(call),
    )
}

/// What takes the place of an actor's struct: the struct, and four functions that
/// spawn the actor, in its default state or in a given one, on the default
/// executor or on a given one.
pub open spec fn struct_expansion() -> Seq<PieceView> {
    splice(Fragment::Item) + text("impl"@) + splice(Fragment::ItemName) + group(
        Delimiter::Brace,
        spawn_default_fn(
            "#[doc = \" Spawn this actor on the default executor (requires `Default`).\"] pub fn spawn() -> ::stage::ActorRef<"@,
            ">::__spawn_default(&::stage::default_executor())"@,
        ) + spawn_default_fn(
            "#[doc = \" Spawn this actor on a specific executor (requires `Default`).\"] pub fn spawn_on(__ex: &::stage::Executor) -> ::stage::ActorRef<"@,
            ">::__spawn_default(__ex)"@,
        ) + spawn_with_fn(
            "#[doc = \" Spawn this actor with an explicit initial state on the default executor.\"] pub fn spawn_with"@,
            "__state:"@,
            ">::__spawn_with(&::stage::default_executor(), __state)"@,
        ) + spawn_with_fn(
            "#[doc = \" Spawn this actor with an explicit initial state on a specific executor.\"] pub fn spawn_with_on"@,
            "__ex: &::stage::Executor, __state:"@,
            ">::__spawn_with(__ex, __state)"@,
        ),
    )
}

fn gen_spawn_default(head: &'static str, call: &'static str) -> (tokens: Tokens)
    ensures
        tokens@ == spawn_default_fn(head@, call@),
{
    Tokens::text(head).with_splice(Fragment::ItemName).with_text("> where").with_splice(Fragment::ItemName).with_text(
        ": ::core::default::Default",
    ).with_group(
        Delimiter::Brace,
        Tokens::text("::stage::ActorRef::<").with_splice(Fragment::ItemName).with_text(call),
    )
}

fn gen_spawn_with(head: &'static str, params: &'static str, call: &'static str) -> (tokens: Tokens)
    ensures
        tokens@ == spawn_with_fn(head@, params@, call@),
{
    Tokens::text(head).with_group(
        Delimiter::Parenthesis,
        Tokens::text(params).with_splice(Fragment::ItemName),
    ).with_text("-> ::stage::ActorRef<").with_splice(Fragment::ItemName).with_text(">").with_group(
        Delimiter::Brace,
        Tokens::text("::stage::ActorRef::<").with_splice(Fragment::ItemName).with_text(call),
    )
}

/// Expands an actor's struct. A struct with generic parameters is refused.
pub fn actor_struct(generic_params: usize) -> (expanded: Result<Tokens, MacroError>)
    ensures
        generic_params == 0 ==> (expanded matches Ok(tokens) && tokens@ == struct_expansion()),
        generic_params != 0 ==> fails_with(
            expanded,
            Fragment::Generics,
            "#[stage::actor] does not support generic actors in this prototype"@,
        ),
{
    if generic_params != 0 {
        return Err(
            MacroError {
                at: Fragment::Generics,
                message: "#[stage::actor] does not support generic actors in this prototype",
            },
        );
    }
    let spawners: Tokens = gen_spawn_default(
        "#[doc = \" Spawn this actor on the default executor (requires `Default`).\"] pub fn spawn() -> ::stage::ActorRef<",
        ">::__spawn_default(&::stage::default_executor())",
    ).with(
        gen_spawn_default(
            "#[doc = \" Spawn this actor on a specific executor (requires `Default`).\"] pub fn spawn_on(__ex: &::stage::Executor) -> ::stage::ActorRef<",
            ">::__spawn_default(__ex)",
        ),
    ).with(
        gen_spawn_with(
            "#[doc = \" Spawn this actor with an explicit initial state on the default executor.\"] pub fn spawn_with",
            "__state:",
            ">::__spawn_with(&::stage::default_executor(), __state)",
        ),
    ).with(
        gen_spawn_with(
            "#[doc = \" Spawn this actor with an explicit initial state on a specific executor.\"] pub fn spawn_with_on",
            "__ex: &::stage::Executor, __state:",
            ">::__spawn_with(__ex, __state)",
        ),
    );
    Ok(
        Tokens::splice(Fragment::Item).with_text("impl").with_splice(Fragment::ItemName).with_group(
            Delimiter::Brace,
            spawners,
        ),
    )
}

/// The message about a parameter that is not a simple identifier.
pub open spec fn pattern_message() -> Seq<char> {
    "stage: actor method/fn parameters must be simple identifiers"@
}

/// The parameters from number `from` up to number `to`, as they are declared.
pub open spec fn typed_params(method: usize, params: Seq<ParamView>, from: int, to: int) -> Seq<PieceView>
    decreases to - from,
{
    if to <= from {
        Seq::empty()
    } else {
        let before = typed_params(method, params, from, to - 1);
        match params[to - 1] {
            ParamView::Typed { named, ty } => before + splice(
                Fragment::Param { method, param: (to - 1) as usize },
            ),
            ParamView::Receiver => before,
        }
    }
}

/// The parameters from number `from` up to number `to`, as they are handed on. One
/// that is not a simple identifier cannot be.
pub open spec fn passed_params(
    method: usize,
    params: Seq<ParamView>,
    from: int,
    to: int,
) -> Seq<PieceView>
    decreases to - from,
{
    if to <= from {
        Seq::empty()
    } else {
        let before = passed_params(method, params, from, to - 1);
        let param = (to - 1) as usize;
        match params[to - 1] {
            ParamView::Typed { named, ty } => if named {
                before + splice(Fragment::ParamName { method, param })
            } else {
                before + seq![
                    PieceView::Error {
                        at: Fragment::ParamPattern { method, param },
                        message: pattern_message(),
                    },
                ]
            },
            ParamView::Receiver => before,
        }
    }
}

/// Splits the parameters from number `from` on into how they are declared and how
/// they are handed on.
pub fn split_args(method: usize, params: &Vec<Param>, from: usize) -> (split: (Tokens, Tokens))
    ensures
        split.0@ == typed_params(
            method,
            params_view(params@),
            from as int,
            params@.len() as int,
        ),
        split.1@ == passed_params(
            method,
            params_view(params@),
            from as int,
            params@.len() as int,
        ),
{
    let mut typed: Tokens = Tokens::new();
    let mut passed: Tokens = Tokens::new();
    let mut i: usize = from;
    while i < params.len()
        invariant
            from <= i,
            i <= params@.len() || i == from,
            typed@ == typed_params(method, params_view(params@), from as int, i as int),
            passed@ == passed_params(method, params_view(params@), from as int, i as int),
        decreases params@.len() - i,
    {
        assert(params_view(params@)[i as int] == params@[i as int]@);
        match &params[i] {
            Param::Typed { named, ty } => {
                typed = typed.with_splice(Fragment::Param { method, param: i });
                if *named {
                    passed = passed.with_splice(Fragment::ParamName { method, param: i });
                } else {
                    passed = passed.with_piece(
                        Piece::Error {
                            at: Fragment::ParamPattern { method, param: i },
                            message: "stage: actor method/fn parameters must be simple identifiers",
                        },
                    );
                }
            },
            Param::Receiver => {},
        }
        i = i + 1;
    }
    (typed, passed)
}

/// The identifier at the end of a path type.
pub open spec fn path_name(ty: TyView) -> Option<NameView> {
    match ty {
        TyView::Path(segments) => if segments.len() > 0 {
            Some(segments.last().name)
        } else {
            None
        },
        TyView::Other => None,
    }
}

/// The identifier at the end of a path type, such as `Counter`.
pub fn type_ident(ty: &Ty) -> (ident: Option<Name>)
    ensures
        path_name(ty@) == (match ident {
            Some(name) => Some(name@),
            None => None,
        }),
{
    match ty {
        Ty::Path(segments) => {
            let n: usize = segments.len();
            if n > 0 {
                Some(segments[n - 1].name.copy())
            } else {
                None
            }
        },
        Ty::Other => None,
    }
}

/// The first type among the arguments from number `from` on.
pub open spec fn first_type(args: Seq<GenericArg>, from: int) -> Option<usize>
    decreases args.len() - from,
{
    if from >= args.len() {
        None
    } else if args[from] is Type {
        Some(from as usize)
    } else {
        first_type(args, from + 1)
    }
}

/// Whether a type is a path to `ActorContext`, with the right arguments or without.
pub open spec fn is_context(ty: TyView) -> bool {
    path_name(ty) == Some(NameView { raw: false, text: "ActorContext"@ })
}

/// Where the actor stands in a type `ActorContext<'_, Actor>`.
pub open spec fn context_actor(ty: TyView) -> Option<usize> {
    match ty {
        TyView::Path(segments) => if !is_context(ty) {
            None
        } else {
            match segments.last().args {
                PathArgsView::Angle(args) => first_type(args, 0),
                _ => None,
            }
        },
        TyView::Other => None,
    }
}

fn first_type_arg(args: &Vec<GenericArg>) -> (arg: Option<usize>)
    ensures
        arg == first_type(args@, 0),
{
    let mut i: usize = 0;
    while i < args.len()
        invariant
            i <= args@.len(),
            first_type(args@, 0) == first_type(args@, i as int),
        decreases args@.len() - i,
    {
        match args[i] {
            GenericArg::Type => {
                return Some(i);
            },
            GenericArg::Other => {},
        }
        i = i + 1;
    }
    None
}

fn names_context(ty: &Ty) -> (yes: bool)
    ensures
        yes == is_context(ty@),
{
    match type_ident(ty) {
        Some(ident) => ident.same(&Name { raw: false, text: "ActorContext".to_string() }),
        None => false,
    }
}

/// Where the actor stands in a type `ActorContext<'_, Actor>`: the number of the
/// argument. Other types have none.
pub fn extract_actor_ty(ty: &Ty) -> (arg: Option<usize>)
    ensures
        arg == context_actor(ty@),
{
    if !names_context(ty) {
        return None;
    }
    match ty {
        Ty::Path(segments) => {
            let n: usize = segments.len();
            if n == 0 {
                return None;
            }
            match &segments[n - 1].args {
                PathArgs::Angle(args) => first_type_arg(args),
                _ => None,
            }
        },
        Ty::Other => None,
    }
}

impl HeadView {
    /// Whether this is an actor method: an async method with a receiver.
    pub open spec fn is_actor_method_spec(self) -> bool {
        self.is_async && self.params.len() > 0 && self.params[0] is Receiver
    }
}

/// Whether a method is an actor method: async, with a receiver as its first
/// parameter.
pub fn is_actor_method(sig: &Head) -> (yes: bool)
    ensures
        yes == sig@.is_actor_method_spec(),
{
    sig.is_async && sig.params.len() > 0 && match &sig.params[0] {
        Param::Receiver => true,
        Param::Typed { .. } => false,
    }
}

/// The return type; `()` where none is written.
pub open spec fn return_type(method: usize, sig: HeadView) -> Seq<PieceView> {
    if sig.returns {
        splice(Fragment::ReturnType { method })
    } else {
        text("()"@)
    }
}

fn gen_return_type(method: usize, sig: &Head) -> (tokens: Tokens)
    ensures
        tokens@ == return_type(method, sig@),
{
    if sig.returns {
        Tokens::splice(Fragment::ReturnType { method })
    } else {
        Tokens::text("()")
    }
}

/// The parameters of a method without its receiver, as they are declared.
pub open spec fn declared(method: usize, sig: HeadView) -> Seq<PieceView> {
    commas(typed_params(method, sig.params, 1, sig.params.len() as int))
}

/// The parameters of a method without its receiver, as they are handed on.
pub open spec fn handed_on(method: usize, sig: HeadView) -> Seq<PieceView> {
    commas(passed_params(method, sig.params, 1, sig.params.len() as int))
}

/// The body of an actor method, as a function of the context.
pub open spec fn lowered_fn(method: usize, sig: HeadView) -> Seq<PieceView> {
    text("#[allow(unused, non_snake_case, clippy::all)] async fn"@) + name(
        lowered_name(sig.name),
    ) + group(
        Delimiter::Parenthesis,
        text("mut __stage_ctx: ::stage::ActorContext<'_,"@) + splice(Fragment::SelfType) + text(
            ">,"@,
        ) + declared(method, sig),
    ) + splice(Fragment::Return { method }) + splice(Fragment::Body { method })
}

/// The head of the method of an actor reference that invokes an actor method.
pub open spec fn sender_head(method: usize, sig: HeadView) -> Seq<PieceView> {
    text("fn"@) + splice(Fragment::MethodName { method }) + group(
        Delimiter::Parenthesis,
        text("&self,"@) + declared(method, sig),
    ) + text("-> ::stage::JoinHandle<"@) + return_type(method, sig)
}

/// The declaration of the method of an actor reference that invokes an actor
/// method.
pub open spec fn sender_decl(method: usize, sig: HeadView) -> Seq<PieceView> {
    sender_head(method, sig) + text(">;"@)
}

/// The method of an actor reference that invokes an actor method.
pub open spec fn sender_fn(method: usize, sig: HeadView) -> Seq<PieceView> {
    sender_head(method, sig) + text(">"@) + group(
        Delimiter::Brace,
        text(
            "let __cell = ::stage::ActorRef::__cell(self); ::stage::__private::spawn_method"@,
        ) + group(
            Delimiter::Parenthesis,
            text("__cell, async move"@) + group(
                Delimiter::Brace,
                text("<"@) + splice(Fragment::SelfType) + text(">::"@) + name(
                    lowered_name(sig.name),
                ) + group(
                    Delimiter::Parenthesis,
                    text("::stage::__private::__ctx(),"@) + handed_on(method, sig),
                ) + text(".await"@),
            ),
        ),
    )
}

fn gen_sender_head(method: usize, sig: &Head, typed: Tokens) -> (tokens: Tokens)
    requires
        typed@ == declared(method, sig@),
    ensures
        tokens@ == sender_head(method, sig@),
{
    Tokens::text("fn").with_splice(Fragment::MethodName { method }).with_group(
        Delimiter::Parenthesis,
        Tokens::text("&self,").with(typed),
    ).with_text("-> ::stage::JoinHandle<").with(gen_return_type(method, sig))
}

/// What an actor method turns into.
pub struct LoweredMethod {
    /// Its body, as a function of the context.
    pub body: Tokens,
    /// The declaration of the method of an actor reference that invokes it.
    pub decl: Tokens,
    /// That method.
    pub sender: Tokens,
}

/// Generates what an actor method turns into.
pub fn lower_method(method: usize, sig: &Head) -> (lowered: LoweredMethod)
    requires
        sig@.is_actor_method_spec(),
    ensures
        lowered.body@ == lowered_fn(method, sig@),
        lowered.decl@ == sender_decl(method, sig@),
        lowered.sender@ == sender_fn(method, sig@),
{
    let lowered: String = sig.name.prefixed("__stage_method_");
    let body: Tokens = Tokens::text(
        "#[allow(unused, non_snake_case, clippy::all)] async fn",
    ).with_name(&lowered).with_group(
        Delimiter::Parenthesis,
        Tokens::text("mut __stage_ctx: ::stage::ActorContext<'_,").with_splice(
            Fragment::SelfType,
        ).with_text(">,").with(Tokens::commas(split_args(method, &sig.params, 1).0)),
    ).with_splice(Fragment::Return { method }).with_splice(Fragment::Body { method });
    let decl: Tokens = gen_sender_head(
        method,
        sig,
        Tokens::commas(split_args(method, &sig.params, 1).0),
    ).with_text(">;");
    let (typed, passed) = split_args(method, &sig.params, 1);
    let call: Tokens = Tokens::text("<").with_splice(Fragment::SelfType).with_text(
        ">::",
    ).with_name(&lowered).with_group(
        Delimiter::Parenthesis,
        Tokens::text("::stage::__private::__ctx(),").with(Tokens::commas(passed)),
    ).with_text(".await");
    let sender: Tokens = gen_sender_head(method, sig, Tokens::commas(typed)).with_text(
        ">",
    ).with_group(
        Delimiter::Brace,
        Tokens::text(
            "let __cell = ::stage::ActorRef::__cell(self); ::stage::__private::spawn_method",
        ).with_group(
            Delimiter::Parenthesis,
            Tokens::text("__cell, async move").with_group(Delimiter::Brace, call),
        ),
    );
    LoweredMethod { body, decl, sender }
}

impl MemberView {
    /// Whether this is an actor method.
    pub open spec fn is_actor_method_spec(self) -> bool {
        self matches MemberView::Method { sig } && sig.is_actor_method_spec()
    }
}

/// The names of the actor methods among the first `n` members.
pub open spec fn actor_methods(members: Seq<MemberView>, n: int) -> Seq<NameView>
    decreases n,
{
    if n <= 0 {
        Seq::empty()
    } else {
        let before = actor_methods(members, n - 1);
        match members[n - 1] {
            MemberView::Method { sig } => if sig.is_actor_method_spec() {
                before.push(sig.name)
            } else {
                before
            },
            MemberView::Other => before,
        }
    }
}

/// What the first `n` members leave in the impl block besides the bodies of actor
/// methods: all that are none.
pub open spec fn passed_through(members: Seq<MemberView>, n: int) -> Seq<PieceView>
    decreases n,
{
    if n <= 0 {
        Seq::empty()
    } else {
        let before = passed_through(members, n - 1);
        if members[n - 1].is_actor_method_spec() {
            before
        } else {
            before + splice(Fragment::Member { index: (n - 1) as usize })
        }
    }
}

/// The bodies of the actor methods among the first `n` members.
pub open spec fn lowered_fns(members: Seq<MemberView>, n: int) -> Seq<PieceView>
    decreases n,
{
    if n <= 0 {
        Seq::empty()
    } else {
        let before = lowered_fns(members, n - 1);
        match members[n - 1] {
            MemberView::Method { sig } => if sig.is_actor_method_spec() {
                before + lowered_fn((n - 1) as usize, sig)
            } else {
                before
            },
            MemberView::Other => before,
        }
    }
}

/// The declarations of the methods of an actor reference, for the actor methods
/// among the first `n` members.
pub open spec fn sender_decls(members: Seq<MemberView>, n: int) -> Seq<PieceView>
    decreases n,
{
    if n <= 0 {
        Seq::empty()
    } else {
        let before = sender_decls(members, n - 1);
        match members[n - 1] {
            MemberView::Method { sig } => if sig.is_actor_method_spec() {
                before + sender_decl((n - 1) as usize, sig)
            } else {
                before
            },
            MemberView::Other => before,
        }
    }
}

/// The methods of an actor reference, for the actor methods among the first `n`
/// members.
pub open spec fn sender_fns(members: Seq<MemberView>, n: int) -> Seq<PieceView>
    decreases n,
{
    if n <= 0 {
        Seq::empty()
    } else {
        let before = sender_fns(members, n - 1);
        match members[n - 1] {
            MemberView::Method { sig } => if sig.is_actor_method_spec() {
                before + sender_fn((n - 1) as usize, sig)
            } else {
                before
            },
            MemberView::Other => before,
        }
    }
}

/// The name of the trait that carries the methods of a reference to the actor.
pub open spec fn trait_name(actor: NameView) -> Seq<char> {
    "__StageMethods_"@ + actor.text
}

/// What takes the place of an actor's impl block: the block with the bodies of its
/// actor methods, and a trait with the methods that invoke them, implemented for
/// references to the actor.
pub open spec fn impl_expansion(actor: NameView, members: Seq<MemberView>) -> Seq<PieceView> {
    let n = members.len() as int;
    text("impl"@) + splice(Fragment::SelfType) + group(
        Delimiter::Brace,
        lowered_fns(members, n) + passed_through(members, n),
    ) + text(
        "#[doc = \" Generated extension trait carrying this actor's message-sending\"] #[doc = \" methods. In scope automatically within the defining module.\"] #[allow(non_camel_case_types)] pub trait"@,
    ) + name(trait_name(actor)) + group(Delimiter::Brace, sender_decls(members, n)) + text(
        "impl"@,
    ) + name(trait_name(actor)) + text("for ::stage::ActorRef<"@) + splice(
        Fragment::SelfType,
    ) + text(">"@) + group(Delimiter::Brace, sender_fns(members, n))
}

/// An expansion: the code that takes the place of the item, and the names of the
/// actor methods, with which the bodies that are spliced into the code are rewritten.
pub struct Expansion {
    pub tokens: Tokens,
    pub methods: Vec<Name>,
}

impl Expansion {
    /// Rewrites the body of an actor method: its outermost expressions, in the order
    /// of the source.
    pub fn rewrite(&self, body: &Vec<Expr>) -> (rewritten: Vec<Expr>)
        ensures
            exprs_view(rewritten@) == rewritten_all(
                exprs_view(body@),
                names_view(self.methods@),
            ),
    {
        rewrite_all(body, &self.methods)
    }
}

fn actor_method_names(members: &Vec<Member>) -> (names: Vec<Name>)
    ensures
        names_view(names@) == actor_methods(members_view(members@), members@.len() as int),
{
    let mut names: Vec<Name> = Vec::new();
    let mut i: usize = 0;
    assert(names_view(names@) =~= Seq::<NameView>::empty());
    while i < members.len()
        invariant
            i <= members@.len(),
            names_view(names@) == actor_methods(members_view(members@), i as int),
        decreases members@.len() - i,
    {
        let ghost before = names@;
        assert(members_view(members@)[i as int] == members@[i as int]@);
        match &members[i] {
            Member::Method { sig } => {
                if is_actor_method(sig) {
                    names.push(sig.name.copy());
                    assert(names_view(names@) =~= names_view(before).push(sig.name@));
                }
            },
            Member::Other => {},
        }
        i = i + 1;
    }
    names
}

/// Whether an actor's impl block was expanded as it is to be.
pub open spec fn impl_expanded(
    self_ty: TyView,
    members: Seq<MemberView>,
    expanded: Result<Expansion, MacroError>,
) -> bool {
    match path_name(self_ty) {
        Some(actor) => expanded matches Ok(expansion) && {
            &&& expansion.tokens@ == impl_expansion(actor, members)
            &&& names_view(expansion.methods@) == actor_methods(members, members.len() as int)
        },
        None => fails_with(
            expanded,
            Fragment::SelfType,
            "#[stage::actor] impl target must be a simple type name"@,
        ),
    }
}

/// Expands an actor's impl block. One for a type without a name is refused.
pub fn actor_impl(block: &ImplBlock) -> (expanded: Result<Expansion, MacroError>)
    ensures
        impl_expanded(block@.self_ty, block@.members, expanded),
{
    let actor: Name = match type_ident(&block.self_ty) {
        Some(actor) => actor,
        None => {
            return Err(
                MacroError {
                    at: Fragment::SelfType,
                    message: "#[stage::actor] impl target must be a simple type name",
                },
            );
        },
    };
    let trait_ident: String = actor.prefixed("__StageMethods_");
    let members: &Vec<Member> = &block.members;
    let methods: Vec<Name> = actor_method_names(members);
    let mut lowered: Tokens = Tokens::new();
    let mut passthrough: Tokens = Tokens::new();
    let mut decls: Tokens = Tokens::new();
    let mut senders: Tokens = Tokens::new();
    let mut i: usize = 0;
    while i < members.len()
        invariant
            i <= members@.len(),
            lowered@ == lowered_fns(members_view(members@), i as int),
            passthrough@ == passed_through(members_view(members@), i as int),
            decls@ == sender_decls(members_view(members@), i as int),
            senders@ == sender_fns(members_view(members@), i as int),
        decreases members@.len() - i,
    {
        assert(members_view(members@)[i as int] == members@[i as int]@);
        match &members[i] {
            Member::Method { sig } => {
                if is_actor_method(sig) {
                    let method: LoweredMethod = lower_method(i, sig);
                    lowered = lowered.with(method.body);
                    decls = decls.with(method.decl);
                    senders = senders.with(method.sender);
                } else {
                    passthrough = passthrough.with_splice(Fragment::Member { index: i });
                }
            },
            Member::Other => {
                passthrough = passthrough.with_splice(Fragment::Member { index: i });
            },
        }
        i = i + 1;
    }
    let tokens: Tokens = Tokens::text("impl").with_splice(Fragment::SelfType).with_group(
        Delimiter::Brace,
        lowered.with(passthrough),
    ).with_text(
        "#[doc = \" Generated extension trait carrying this actor's message-sending\"] #[doc = \" methods. In scope automatically within the defining module.\"] #[allow(non_camel_case_types)] pub trait",
    ).with_name(&trait_ident).with_group(Delimiter::Brace, decls).with_text("impl").with_name(
        &trait_ident,
    ).with_text("for ::stage::ActorRef<").with_splice(Fragment::SelfType).with_text(
        ">",
    ).with_group(Delimiter::Brace, senders);
    Ok(Expansion { tokens, methods })
}

/// Whether an item that is annotated as an actor was expanded as it is to be.
pub open spec fn actor_expanded(item: AnnotatedItemView, expanded: Result<Expansion, MacroError>) -> bool {
    match item {
        AnnotatedItemView::Struct { generic_params } => if generic_params == 0 {
            expanded matches Ok(expansion) && expansion.tokens@ == struct_expansion()
                && expansion.methods@.len() == 0
        } else {
            fails_with(
                expanded,
                Fragment::Generics,
                "#[stage::actor] does not support generic actors in this prototype"@,
            )
        },
        AnnotatedItemView::Impl(block) => impl_expanded(block.self_ty, block.members, expanded),
        AnnotatedItemView::Other => fails_with(
            expanded,
            Fragment::Item,
            "#[stage::actor] may only be applied to a struct or an impl block"@,
        ),
    }
}

/// Expands an item that is annotated as an actor: a struct or an impl block.
/// Anything else is refused.
pub fn expand_actor(item: &AnnotatedItem) -> (expanded: Result<Expansion, MacroError>)
    ensures
        actor_expanded(item@, expanded),
{
    match item {
        AnnotatedItem::Struct { generic_params } => match actor_struct(*generic_params) {
            Ok(tokens) => Ok(Expansion { tokens, methods: Vec::new() }),
            Err(error) => Err(error),
        },
        AnnotatedItem::Impl(block) => actor_impl(block),
        AnnotatedItem::Other => Err(
            MacroError {
                at: Fragment::Item,
                message: "#[stage::actor] may only be applied to a struct or an impl block",
            },
        ),
    }
}

/// Where the actor stands in the type of a helper's first parameter, if that is a
/// context.
pub open spec fn helper_context(params: Seq<ParamView>) -> Option<usize> {
    if params.len() == 0 {
        None
    } else {
        match params[0] {
            ParamView::Typed { named, ty } => context_actor(ty),
            ParamView::Receiver => None,
        }
    }
}

/// The name of the body of a helper.
pub open spec fn lowered_fn_name(helper: NameView) -> Seq<char> {
    "__stage_fn_"@ + helper.text
}

/// The parameters of a helper besides its context, as they are declared.
pub open spec fn helper_declared(sig: HeadView) -> Seq<PieceView> {
    commas(
        typed_params(
            0,
            sig.params,
            if helper_context(sig.params) is Some {
                1
            } else {
                0
            },
            sig.params.len() as int,
        ),
    )
}

/// The parameters of a helper besides its context, as they are handed on.
pub open spec fn helper_handed_on(sig: HeadView) -> Seq<PieceView> {
    commas(
        passed_params(
            0,
            sig.params,
            if helper_context(sig.params) is Some {
                1
            } else {
                0
            },
            sig.params.len() as int,
        ),
    )
}

/// The generic parameters among the first `n` that are lifetimes, or those that
/// are not.
pub open spec fn generics_of(
    generics: Seq<GenericParam>,
    lifetimes: bool,
    n: int,
) -> Seq<PieceView>
    decreases n,
{
    if n <= 0 {
        Seq::empty()
    } else {
        let before = generics_of(generics, lifetimes, n - 1);
        if generics[n - 1] is Lifetime == lifetimes {
            before + splice(Fragment::GenericParam { index: (n - 1) as usize })
        } else {
            before
        }
    }
}

/// The generic parameters of the function that invokes a helper. One that takes no
/// context runs on any actor: the actor's type is one more parameter, behind the
/// lifetimes.
pub open spec fn helper_generics(f: FunctionView) -> Seq<PieceView> {
    if helper_context(f.sig.params) is Some {
        splice(Fragment::Generics)
    } else {
        let n = f.generics.len() as int;
        text("<"@) + commas(
            generics_of(f.generics, true, n) + text("__StageActor: ::core::marker::Send + 'static"@)
                + generics_of(f.generics, false, n),
        ) + text(">"@)
    }
}

/// The type of the actor that a helper runs on.
pub open spec fn helper_actor(params: Seq<ParamView>) -> Seq<PieceView> {
    match helper_context(params) {
        Some(arg) => splice(Fragment::ContextArg { arg }),
        None => text("__StageActor"@),
    }
}

/// The context parameter of a helper's body.
pub open spec fn context_param(params: Seq<ParamView>) -> Seq<PieceView> {
    if helper_context(params) is Some {
        text("mut"@) + splice(Fragment::ParamName { method: 0, param: 0 }) + text(":"@) + splice(
            Fragment::ParamType { method: 0, param: 0 },
        ) + text(","@)
    } else {
        Seq::empty()
    }
}

/// The context that a helper's body is called with.
pub open spec fn context_arg(params: Seq<ParamView>) -> Seq<PieceView> {
    match helper_context(params) {
        Some(arg) => text("::stage::__private::__ctx::<"@) + splice(
            Fragment::ContextArg { arg },
        ) + text(">(),"@),
        None => Seq::empty(),
    }
}

/// What takes the place of a helper: its body, and the function that invokes it on
/// an actor.
pub open spec fn helper_expansion(f: FunctionView) -> Seq<PieceView> {
    let params = f.sig.params;
    text("#[allow(unused, non_snake_case, clippy::all)] async fn"@) + name(
        lowered_fn_name(f.sig.name),
    ) + splice(Fragment::Generics) + group(
        Delimiter::Parenthesis,
        context_param(params) + helper_declared(f.sig),
    ) + splice(Fragment::Return { method: 0 }) + splice(Fragment::WhereClause) + splice(
        Fragment::Body { method: 0 },
    ) + splice(Fragment::Visibility) + text("fn"@) + splice(Fragment::ItemName) + helper_generics(
        f,
    ) + group(
        Delimiter::Parenthesis,
        text("__actor: &::stage::ActorRef<"@) + helper_actor(params) + text(">,"@)
            + helper_declared(f.sig),
    ) + text("-> ::stage::JoinHandle<"@) + return_type(0, f.sig) + text(">"@) + splice(
        Fragment::WhereClause,
    ) + group(
        Delimiter::Brace,
        text(
            "let __cell = ::stage::ActorRef::__cell(__actor); ::stage::__private::spawn_method"@,
        ) + group(
            Delimiter::Parenthesis,
            text("__cell, async move"@) + group(
                Delimiter::Brace,
                name(lowered_fn_name(f.sig.name)) + group(
                    Delimiter::Parenthesis,
                    context_arg(params) + helper_handed_on(f.sig),
                ) + text(".await"@),
            ),
        ),
    )
}

fn gen_generics_of(generics: &Vec<GenericParam>, lifetimes: bool) -> (tokens: Tokens)
    ensures
        tokens@ == generics_of(generics@, lifetimes, generics@.len() as int),
{
    let mut tokens: Tokens = Tokens::new();
    let mut i: usize = 0;
    while i < generics.len()
        invariant
            i <= generics@.len(),
            tokens@ == generics_of(generics@, lifetimes, i as int),
        decreases generics@.len() - i,
    {
        let is_lifetime: bool = match generics[i] {
            GenericParam::Lifetime => true,
            GenericParam::Other => false,
        };
        if is_lifetime == lifetimes {
            tokens = tokens.with_splice(Fragment::GenericParam { index: i });
        }
        i = i + 1;
    }
    tokens
}

fn gen_helper_generics(f: &Function, context: Option<usize>) -> (tokens: Tokens)
    requires
        context == helper_context(f@.sig.params),
    ensures
        tokens@ == helper_generics(f@),
{
    match context {
        Some(_) => Tokens::splice(Fragment::Generics),
        None => {
            let list: Tokens = gen_generics_of(&f.generics, true).with_text(
                "__StageActor: ::core::marker::Send + 'static",
            ).with(gen_generics_of(&f.generics, false));
            Tokens::text("<").with(Tokens::commas(list)).with_text(">")
        },
    }
}

/// Whether a helper was expanded as it is to be.
pub open spec fn helper_expanded(f: FunctionView, expanded: Result<Tokens, MacroError>) -> bool {
    let params = f.sig.params;
    if !f.sig.is_async {
        fails_with(expanded, Fragment::ItemName, "#[stage::actor_fn] must be `async`"@)
    } else if params.len() > 0 && params[0] is Receiver {
        fails_with(
            expanded,
            Fragment::ItemName,
            "#[stage::actor_fn] requires a first parameter `ctx: ActorContext<'_, Actor>`"@,
        )
    } else if params.len() > 0 && is_context(params[0]->ty) && context_actor(
        params[0]->ty,
    ) is None {
        fails_with(
            expanded,
            Fragment::ParamType { method: 0, param: 0 },
            "first parameter of #[stage::actor_fn] must be `ActorContext<'_, Actor>`"@,
        )
    } else if helper_context(params) is Some && !params[0]->named {
        fails_with(
            expanded,
            Fragment::ParamPattern { method: 0, param: 0 },
            "the ActorContext parameter must be a simple identifier"@,
        )
    } else {
        expanded matches Ok(tokens) && tokens@ == helper_expansion(f)
    }
}

/// Expands a helper: an async function that runs on an actor. If its first
/// parameter is a context it runs on that context's actor, and otherwise on any. A
/// context that names no actor is refused.
pub fn expand_actor_fn(f: &Function) -> (expanded: Result<Tokens, MacroError>)
    ensures
        helper_expanded(f@, expanded),
{
    if !f.sig.is_async {
        return Err(
            MacroError { at: Fragment::ItemName, message: "#[stage::actor_fn] must be `async`" },
        );
    }
    let mut context: Option<usize> = None;
    if f.sig.params.len() > 0 {
        assert(f@.sig.params[0] == f.sig.params@[0]@);
        match &f.sig.params[0] {
            Param::Receiver => {
                return Err(
                    MacroError {
                        at: Fragment::ItemName,
                        message:
                            "#[stage::actor_fn] requires a first parameter `ctx: ActorContext<'_, Actor>`",
                    },
                );
            },
            Param::Typed { named, ty } => {
                context = extract_actor_ty(ty);
                if context.is_none() && names_context(ty) {
                    return Err(
                        MacroError {
                            at: Fragment::ParamType { method: 0, param: 0 },
                            message:
                                "first parameter of #[stage::actor_fn] must be `ActorContext<'_, Actor>`",
                        },
                    );
                }
                if context.is_some() && !*named {
                    return Err(
                        MacroError {
                            at: Fragment::ParamPattern { method: 0, param: 0 },
                            message: "the ActorContext parameter must be a simple identifier",
                        },
                    );
                }
            },
        }
    }
    let lowered: String = f.sig.name.prefixed("__stage_fn_");
    let from: usize = if context.is_some() {
        1
    } else {
        0
    };
    let (typed, passed) = split_args(0, &f.sig.params, from);
    let (typed_again, _) = split_args(0, &f.sig.params, from);
    let (param, arg, actor) = match context {
        Some(arg) => (
            Tokens::text("mut").with_splice(
                Fragment::ParamName { method: 0, param: 0 },
            ).with_text(":").with_splice(Fragment::ParamType { method: 0, param: 0 }).with_text(","),
            Tokens::text("::stage::__private::__ctx::<").with_splice(
                Fragment::ContextArg { arg },
            ).with_text(">(),"),
            Tokens::splice(Fragment::ContextArg { arg }),
        ),
        None => (Tokens::new(), Tokens::new(), Tokens::text("__StageActor")),
    };
    let call: Tokens = Tokens::name(&lowered).with_group(
        Delimiter::Parenthesis,
        arg.with(Tokens::commas(passed)),
    ).with_text(".await");
    let tokens: Tokens = Tokens::text(
        "#[allow(unused, non_snake_case, clippy::all)] async fn",
    ).with_name(&lowered).with_splice(Fragment::Generics).with_group(
        Delimiter::Parenthesis,
        param.with(Tokens::commas(typed)),
    ).with_splice(Fragment::Return { method: 0 }).with_splice(Fragment::WhereClause).with_splice(
        Fragment::Body { method: 0 },
    ).with_splice(Fragment::Visibility).with_text("fn").with_splice(Fragment::ItemName).with(
        gen_helper_generics(f, context),
    ).with_group(
        Delimiter::Parenthesis,
        Tokens::text("__actor: &::stage::ActorRef<").with(actor).with_text(">,").with(
            Tokens::commas(typed_again),
        ),
    ).with_text("-> ::stage::JoinHandle<").with(gen_return_type(0, &f.sig)).with_text(
        ">",
    ).with_splice(Fragment::WhereClause).with_group(
        Delimiter::Brace,
        Tokens::text(
            "let __cell = ::stage::ActorRef::__cell(__actor); ::stage::__private::spawn_method",
        ).with_group(
            Delimiter::Parenthesis,
            Tokens::text("__cell, async move").with_group(Delimiter::Brace, call),
        ),
    );
    Ok(tokens)
}

/// Generates the context that is written in place of `self`.
pub fn gen_context() -> (tokens: Tokens)
    ensures
        tokens@ == name("__stage_ctx"@),
{
    Tokens::name(&"__stage_ctx".to_string())
}

/// A direct call of an actor method's body inside another one, as it is written in
/// place of the call on `self`.
pub open spec fn inline_call(lowered: Seq<char>, args: nat) -> Seq<PieceView> {
    text("<"@) + splice(Fragment::SelfType) + text(">::"@) + name(lowered) + group(
        Delimiter::Parenthesis,
        text("::stage::__private::__ctx(),"@) + commas(arguments(args)),
    )
}

/// The first `n` arguments of a call.
pub open spec fn arguments(n: nat) -> Seq<PieceView>
    decreases n,
{
    if n == 0 {
        Seq::empty()
    } else {
        arguments((n - 1) as nat) + splice(Fragment::Argument { index: (n - 1) as usize })
    }
}

/// Generates the call of an actor method's body inside another one.
pub fn gen_inline_call(lowered: &String, args: usize) -> (tokens: Tokens)
    ensures
        tokens@ == inline_call(lowered@, args as nat),
{
    let mut list: Tokens = Tokens::new();
    let mut i: usize = 0;
    while i < args
        invariant
            i <= args,
            list@ == arguments(i as nat),
        decreases args - i,
    {
        list = list.with_splice(Fragment::Argument { index: i });
        i = i + 1;
    }
    Tokens::text("<").with_splice(Fragment::SelfType).with_text(">::").with_name(lowered).with_group(
        Delimiter::Parenthesis,
        Tokens::text("::stage::__private::__ctx(),").with(Tokens::commas(list)),
    )
}

} // verus!
