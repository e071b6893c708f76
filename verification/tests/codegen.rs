//! Generated code. What is generated is compared as a syntax tree, so spacing does
//! not count.

use proc_macro2::TokenStream;
use stage_core::codegen::body::{
    is_self_expr, is_self_path, rewrite_all, rewrite_body, self_uses, Expr, Token,
};
use stage_core::codegen::expand::{
    actor_impl, actor_struct, expand_actor, expand_actor_fn, extract_actor_ty, gen_context,
    gen_inline_call, is_actor_method, lower_method, split_args, type_ident, MacroError,
};
use stage_core::codegen::source::{actor, actor_fn, ItemKind};
use stage_core::codegen::syntax::{
    contains_name, AnnotatedItem, Function, GenericArg, GenericParam, Head, ImplBlock, Member,
    Name, Param, PathArgs, Segment, Ty,
};
use stage_core::codegen::tokens::{Delimiter, Fragment, Piece, Tokens};

fn name(text: &str) -> Name {
    Name { raw: false, text: text.to_string() }
}

fn segment(text: &str) -> Segment {
    Segment { name: name(text), args: PathArgs::Absent }
}

fn path(text: &str) -> Ty {
    Ty::Path(vec![segment(text)])
}

fn context(args: Vec<GenericArg>) -> Ty {
    Ty::Path(vec![
        segment("stage"),
        Segment { name: name("ActorContext"), args: PathArgs::Angle(args) },
    ])
}

fn typed(ty: Ty) -> Param {
    Param::Typed { named: true, ty }
}

fn signature(text: &str, params: Vec<Param>, returns: bool) -> Head {
    Head { name: name(text), is_async: true, params, returns }
}

/// Writes generated code out, with `parts` in place of the parts of the item.
fn render(tokens: &Tokens, parts: &dyn Fn(Fragment) -> String) -> String {
    let mut code = String::new();
    for piece in &tokens.pieces {
        let next = match piece {
            Piece::Text(text) => text.to_string(),
            Piece::Name(name) => name.clone(),
            Piece::Open(Delimiter::Parenthesis) => "(".to_string(),
            Piece::Open(Delimiter::Brace) => "{".to_string(),
            Piece::Close(Delimiter::Parenthesis) => ")".to_string(),
            Piece::Close(Delimiter::Brace) => "}".to_string(),
            Piece::Splice(fragment) => parts(*fragment),
            Piece::Error { message, .. } => format!("compile_error!({:?})", message),
        };
        code.push_str(&next);
        code.push(' ');
    }
    code
}

fn same_items(code: &str, expected: &str) {
    let code = syn::parse_file(code).unwrap();
    assert_eq!(code, syn::parse_file(expected).unwrap());
}

fn message<T>(expanded: Result<T, MacroError>) -> (Fragment, &'static str) {
    match expanded {
        Ok(_) => panic!("expanded"),
        Err(error) => (error.at, error.message),
    }
}

/// The tokens of a source text.
fn tokens(text: &str) -> TokenStream {
    text.parse().unwrap()
}

/// An item or function without what it is written in.
fn part(tokens: impl quote::ToTokens) -> String {
    tokens.to_token_stream().to_string()
}

#[test]
fn actor_struct_gets_four_ways_to_spawn() {
    let written = tokens("struct Counter { value: usize }");
    let annotated = actor(TokenStream::new(), written).unwrap();
    match annotated.source {
        ItemKind::Struct(s) => assert_eq!(part(s.ident), "Counter"),
        _ => panic!("no struct"),
    }
    let tokens = annotated.expanded.unwrap_or_else(|_| panic!("refused")).tokens;
    let code = render(&tokens, &|fragment| match fragment {
        Fragment::Item => "struct Counter { value: usize }".to_string(),
        Fragment::ItemName => "Counter".to_string(),
        _ => unreachable!(),
    });
    same_items(
        &code,
        "
        struct Counter { value: usize }

        impl Counter {
            /// Spawn this actor on the default executor (requires `Default`).
            pub fn spawn() -> ::stage::ActorRef<Counter>
            where Counter: ::core::default::Default {
                ::stage::ActorRef::<Counter>::__spawn_default(&::stage::default_executor())
            }
            /// Spawn this actor on a specific executor (requires `Default`).
            pub fn spawn_on(__ex: &::stage::Executor) -> ::stage::ActorRef<Counter>
            where Counter: ::core::default::Default {
                ::stage::ActorRef::<Counter>::__spawn_default(__ex)
            }
            /// Spawn this actor with an explicit initial state on the default executor.
            pub fn spawn_with(__state: Counter) -> ::stage::ActorRef<Counter> {
                ::stage::ActorRef::<Counter>::__spawn_with(&::stage::default_executor(), __state)
            }
            /// Spawn this actor with an explicit initial state on a specific executor.
            pub fn spawn_with_on(__ex: &::stage::Executor, __state: Counter) -> ::stage::ActorRef<Counter> {
                ::stage::ActorRef::<Counter>::__spawn_with(__ex, __state)
            }
        }
        ",
    );
}

#[test]
fn generic_actor_is_refused() {
    let expected = (
        Fragment::Generics,
        "#[stage::actor] does not support generic actors in this prototype",
    );
    assert_eq!(message(actor_struct(1)), expected);
    assert_eq!(message(expand_actor(&AnnotatedItem::Struct { generic_params: 2 })), expected);
    let annotated = actor(TokenStream::new(), tokens("struct Counter<'a, T>(&'a T);")).unwrap();
    assert_eq!(message(annotated.expanded), expected);
}

#[test]
fn other_item_is_refused() {
    assert_eq!(
        message(expand_actor(&AnnotatedItem::Other)),
        (Fragment::Item, "#[stage::actor] may only be applied to a struct or an impl block")
    );
    let annotated = actor(TokenStream::new(), tokens("enum Counter { Zero }")).unwrap();
    assert!(matches!(annotated.source, ItemKind::Other(syn::Item::Enum(_))));
    assert_eq!(
        message(annotated.expanded),
        (Fragment::Item, "#[stage::actor] may only be applied to a struct or an impl block")
    );
}

#[test]
fn tokens_that_are_no_item_are_refused() {
    let error = actor(TokenStream::new(), tokens("impl Counter")).err().unwrap();
    assert!(error.to_string().contains("unexpected end of input"));
    let error = actor_fn(TokenStream::new(), tokens("struct Counter;")).err().unwrap();
    assert!(error.to_string().contains("expected `fn`"));
}

fn counter() -> ImplBlock {
    ImplBlock {
        self_ty: path("Counter"),
        members: vec![
            Member::Other,
            Member::Method {
                sig: signature("add", vec![Param::Receiver, typed(path("usize"))], true),
            },
            Member::Method {
                sig: Head {
                    name: name("peek"),
                    is_async: false,
                    params: vec![Param::Receiver],
                    returns: true,
                },
            },
            Member::Method {
                sig: signature("reset", vec![Param::Receiver], false),
            },
        ],
    }
}

fn counter_parts(fragment: Fragment) -> String {
    let part = match fragment {
        Fragment::SelfType => "Counter",
        Fragment::Member { index: 0 } => "const LIMIT: usize = 9;",
        Fragment::Member { index: 2 } => "fn peek(&self) -> usize { self.value }",
        Fragment::MethodName { method: 1 } => "add",
        Fragment::MethodName { method: 3 } => "reset",
        Fragment::Param { method: 1, param: 1 } => "n: usize",
        Fragment::ParamName { method: 1, param: 1 } => "n",
        Fragment::Return { method: 1 } => "-> usize",
        Fragment::Return { method: 3 } => "",
        Fragment::ReturnType { method: 1 } => "usize",
        Fragment::Body { method: 1 } => "{ __stage_ctx.value += n; __stage_ctx.value }",
        Fragment::Body { method: 3 } => "{ __stage_ctx.value = 0; }",
        other => panic!("{:?}", other),
    };
    part.to_string()
}

#[test]
fn impl_block_is_lowered() {
    let tokens = expand_actor(&AnnotatedItem::Impl(counter()))
        .unwrap_or_else(|_| panic!("refused"))
        .tokens;
    check_counter(&tokens);
}

#[test]
fn impl_block_is_parsed_and_lowered() {
    let written = tokens(
        "impl Counter {
            const LIMIT: usize = 9;
            async fn add(&mut self, n: usize) -> usize { self.value += n; self.value }
            fn peek(&self) -> usize { self.value }
            async fn reset(&mut self) { self.value = 0; }
        }",
    );
    let annotated = actor(TokenStream::new(), written).unwrap();
    match &annotated.source {
        ItemKind::Impl(block) => assert_eq!(block.items.len(), 4),
        _ => panic!("no impl block"),
    }
    let expansion = annotated.expanded.unwrap_or_else(|_| panic!("refused"));
    check_counter(&expansion.tokens);
    let methods: Vec<_> = expansion.methods.iter().map(|name| name.text.as_str()).collect();
    assert_eq!(methods, vec!["add", "reset"]);
    let body = vec![this(7), call(1, this(2), "add", vec![]), call(3, this(4), "peek", vec![])];
    let rewritten: Vec<_> = expansion.rewrite(&body).iter().map(show).collect();
    assert_eq!(rewritten, vec!["ctx#7", "__stage_method_add()", "[]ctx#4.peek::<>()#3"]);
}

fn check_counter(tokens: &Tokens) {
    same_items(
        &render(tokens, &counter_parts),
        "
        impl Counter {
            #[allow(unused, non_snake_case, clippy::all)]
            async fn __stage_method_add(
                mut __stage_ctx: ::stage::ActorContext<'_, Counter>,
                n: usize
            ) -> usize { __stage_ctx.value += n; __stage_ctx.value }
            #[allow(unused, non_snake_case, clippy::all)]
            async fn __stage_method_reset(
                mut __stage_ctx: ::stage::ActorContext<'_, Counter>,
            ) { __stage_ctx.value = 0; }
            const LIMIT: usize = 9;
            fn peek(&self) -> usize { self.value }
        }

        /// Generated extension trait carrying this actor's message-sending
        /// methods. In scope automatically within the defining module.
        #[allow(non_camel_case_types)]
        pub trait __StageMethods_Counter {
            fn add(&self, n: usize) -> ::stage::JoinHandle<usize>;
            fn reset(&self,) -> ::stage::JoinHandle<()>;
        }

        impl __StageMethods_Counter for ::stage::ActorRef<Counter> {
            fn add(&self, n: usize) -> ::stage::JoinHandle<usize> {
                let __cell = ::stage::ActorRef::__cell(self);
                ::stage::__private::spawn_method(__cell, async move {
                    <Counter>::__stage_method_add(::stage::__private::__ctx(), n).await
                })
            }
            fn reset(&self,) -> ::stage::JoinHandle<()> {
                let __cell = ::stage::ActorRef::__cell(self);
                ::stage::__private::spawn_method(__cell, async move {
                    <Counter>::__stage_method_reset(::stage::__private::__ctx(),).await
                })
            }
        }
        ",
    );
}

#[test]
fn impl_block_of_a_type_without_a_name_is_refused() {
    let block = ImplBlock { self_ty: Ty::Other, members: vec![] };
    assert_eq!(
        message(actor_impl(&block)),
        (Fragment::SelfType, "#[stage::actor] impl target must be a simple type name")
    );
}

#[test]
fn trait_is_named_after_the_last_segment() {
    let block = ImplBlock {
        self_ty: Ty::Path(vec![segment("shop"), segment("Counter")]),
        members: vec![],
    };
    let tokens = actor_impl(&block).unwrap_or_else(|_| panic!("refused")).tokens;
    let code = render(&tokens, &|_| "shop::Counter".to_string());
    same_items(
        &code,
        "
        impl shop::Counter {}
        /// Generated extension trait carrying this actor's message-sending
        /// methods. In scope automatically within the defining module.
        #[allow(non_camel_case_types)]
        pub trait __StageMethods_Counter {}
        impl __StageMethods_Counter for ::stage::ActorRef<shop::Counter> {}
        ",
    );
}

#[test]
fn actor_methods_are_async_with_a_receiver() {
    assert!(is_actor_method(&signature("a", vec![Param::Receiver], false)));
    assert!(!is_actor_method(&signature("a", vec![], false)));
    assert!(!is_actor_method(&signature("a", vec![typed(Ty::Other), Param::Receiver], false)));
    let mut sync = signature("a", vec![Param::Receiver], false);
    sync.is_async = false;
    assert!(!is_actor_method(&sync));
}

#[test]
fn raw_method_name_is_lowered_without_its_mark() {
    let mut sig = signature("move", vec![Param::Receiver], false);
    sig.name.raw = true;
    let lowered = lower_method(0, &sig);
    assert!(matches!(&lowered.body.pieces[1], Piece::Name(name) if name == "__stage_method_move"));
}

#[test]
fn pattern_parameter_is_an_error_where_it_is_handed_on() {
    let params = vec![
        Param::Receiver,
        typed(path("usize")),
        Param::Typed { named: false, ty: Ty::Other },
    ];
    let (declared, handed_on) = split_args(4, &params, 1);
    assert_eq!(declared.pieces.len(), 2);
    assert!(matches!(
        declared.pieces[1],
        Piece::Splice(Fragment::Param { method: 4, param: 2 })
    ));
    assert!(matches!(
        handed_on.pieces[0],
        Piece::Splice(Fragment::ParamName { method: 4, param: 1 })
    ));
    let (none, nothing) = split_args(4, &params, 7);
    assert!(none.pieces.is_empty() && nothing.pieces.is_empty());
    match handed_on.pieces[1] {
        Piece::Error { at, message } => {
            assert_eq!(at, Fragment::ParamPattern { method: 4, param: 2 });
            assert_eq!(message, "stage: actor method/fn parameters must be simple identifiers");
        }
        _ => panic!("handed on"),
    }
}

#[test]
fn type_name_is_the_last_segment() {
    let found = type_ident(&Ty::Path(vec![segment("a"), segment("b")]));
    assert_eq!(found.map(|name| name.text), Some("b".to_string()));
    assert!(type_ident(&Ty::Path(vec![])).is_none());
    assert!(type_ident(&Ty::Other).is_none());
}

#[test]
fn actor_of_a_context() {
    let other = GenericArg::Other;
    assert_eq!(extract_actor_ty(&context(vec![other, GenericArg::Type])), Some(1));
    assert_eq!(extract_actor_ty(&context(vec![GenericArg::Type, GenericArg::Type])), Some(0));
    assert_eq!(extract_actor_ty(&context(vec![other])), None);
    assert_eq!(extract_actor_ty(&path("ActorContext")), None);
    assert_eq!(extract_actor_ty(&path("usize")), None);
    assert_eq!(extract_actor_ty(&Ty::Path(vec![])), None);
    assert_eq!(extract_actor_ty(&Ty::Other), None);
    let called = Segment { name: name("ActorContext"), args: PathArgs::Parenthesized };
    assert_eq!(extract_actor_ty(&Ty::Path(vec![called])), None);
}

#[test]
fn helper_with_a_context() {
    let f = Function {
        sig: signature(
            "bump",
            vec![typed(context(vec![GenericArg::Other, GenericArg::Type])), typed(path("usize"))],
            true,
        ),
        generics: vec![GenericParam::Other],
    };
    check_bump(&expand_actor_fn(&f).unwrap_or_else(|_| panic!("refused")));
    let written = tokens(
        "pub async fn bump<T: Tally>(ctx: stage::ActorContext<'_, T>, n: usize) -> usize
        where T: Send { ctx.bump(n) }",
    );
    let annotated = actor_fn(TokenStream::new(), written).unwrap();
    assert_eq!(part(&annotated.source.sig.ident), "bump");
    check_bump(&annotated.expanded.unwrap_or_else(|_| panic!("refused")));
}

fn check_bump(tokens: &Tokens) {
    let code = render(tokens, &|fragment| {
        let part = match fragment {
            Fragment::ItemName => "bump",
            Fragment::Generics => "<T: Tally>",
            Fragment::WhereClause => "where T: Send",
            Fragment::Visibility => "pub",
            Fragment::Param { method: 0, param: 1 } => "n: usize",
            Fragment::ParamName { method: 0, param: 0 } => "ctx",
            Fragment::ParamName { method: 0, param: 1 } => "n",
            Fragment::ParamType { method: 0, param: 0 } => "stage::ActorContext<'_, T>",
            Fragment::ContextArg { arg: 1 } => "T",
            Fragment::Return { method: 0 } => "-> usize",
            Fragment::ReturnType { method: 0 } => "usize",
            Fragment::Body { method: 0 } => "{ ctx.bump(n) }",
            other => panic!("{:?}", other),
        };
        part.to_string()
    });
    same_items(
        &code,
        "
        #[allow(unused, non_snake_case, clippy::all)]
        async fn __stage_fn_bump<T: Tally>(mut ctx: stage::ActorContext<'_, T>, n: usize) -> usize
        where T: Send
        { ctx.bump(n) }

        pub fn bump<T: Tally>(
            __actor: &::stage::ActorRef<T>,
            n: usize
        ) -> ::stage::JoinHandle<usize>
        where T: Send
        {
            let __cell = ::stage::ActorRef::__cell(__actor);
            ::stage::__private::spawn_method(__cell, async move {
                __stage_fn_bump(::stage::__private::__ctx::<T>(), n).await
            })
        }
        ",
    );
}

#[test]
fn helper_without_a_context_runs_on_any_actor() {
    let f = Function {
        sig: signature("compute", vec![typed(path("usize")), typed(path("usize"))], true),
        generics: vec![GenericParam::Other, GenericParam::Lifetime],
    };
    check_compute(&expand_actor_fn(&f).unwrap_or_else(|_| panic!("refused")));
    let written = tokens("async fn compute<N, 'a>(a: usize, b: usize) -> usize { a + b }");
    let annotated = actor_fn(TokenStream::new(), written).unwrap();
    check_compute(&annotated.expanded.unwrap_or_else(|_| panic!("refused")));
}

fn check_compute(tokens: &Tokens) {
    let code = render(tokens, &|fragment| {
        let part = match fragment {
            Fragment::ItemName => "compute",
            Fragment::Generics => "<'a, N>",
            Fragment::GenericParam { index: 0 } => "N",
            Fragment::GenericParam { index: 1 } => "'a",
            Fragment::WhereClause | Fragment::Visibility => "",
            Fragment::Param { method: 0, param: 0 } => "a: usize",
            Fragment::Param { method: 0, param: 1 } => "b: usize",
            Fragment::ParamName { method: 0, param: 0 } => "a",
            Fragment::ParamName { method: 0, param: 1 } => "b",
            Fragment::Return { method: 0 } => "-> usize",
            Fragment::ReturnType { method: 0 } => "usize",
            Fragment::Body { method: 0 } => "{ a + b }",
            other => panic!("{:?}", other),
        };
        part.to_string()
    });
    same_items(
        &code,
        "
        #[allow(unused, non_snake_case, clippy::all)]
        async fn __stage_fn_compute<'a, N>(a: usize, b: usize) -> usize { a + b }

        fn compute<'a, __StageActor: ::core::marker::Send + 'static, N>(
            __actor: &::stage::ActorRef<__StageActor>,
            a: usize,
            b: usize
        ) -> ::stage::JoinHandle<usize> {
            let __cell = ::stage::ActorRef::__cell(__actor);
            ::stage::__private::spawn_method(__cell, async move {
                __stage_fn_compute(a, b).await
            })
        }
        ",
    );
}

#[test]
fn helper_without_parameters() {
    let f = Function { sig: signature("work", vec![], false), generics: vec![] };
    let tokens = expand_actor_fn(&f).unwrap_or_else(|_| panic!("refused"));
    let code = render(&tokens, &|fragment| {
        let part = match fragment {
            Fragment::ItemName => "work",
            Fragment::Body { method: 0 } => "{}",
            _ => "",
        };
        part.to_string()
    });
    same_items(
        &code,
        "
        #[allow(unused, non_snake_case, clippy::all)]
        async fn __stage_fn_work() {}

        fn work<__StageActor: ::core::marker::Send + 'static>(
            __actor: &::stage::ActorRef<__StageActor>,
        ) -> ::stage::JoinHandle<()> {
            let __cell = ::stage::ActorRef::__cell(__actor);
            ::stage::__private::spawn_method(__cell, async move {
                __stage_fn_work().await
            })
        }
        ",
    );
}

#[test]
fn helpers_that_are_refused() {
    let mut f = Function { sig: signature("work", vec![], false), generics: vec![] };
    f.sig.is_async = false;
    assert_eq!(
        message(expand_actor_fn(&f)),
        (Fragment::ItemName, "#[stage::actor_fn] must be `async`")
    );
    f.sig.is_async = true;
    f.sig.params = vec![Param::Receiver];
    assert_eq!(
        message(expand_actor_fn(&f)),
        (
            Fragment::ItemName,
            "#[stage::actor_fn] requires a first parameter `ctx: ActorContext<'_, Actor>`"
        )
    );
    f.sig.params = vec![Param::Typed { named: false, ty: context(vec![GenericArg::Type]) }];
    assert_eq!(
        message(expand_actor_fn(&f)),
        (
            Fragment::ParamPattern { method: 0, param: 0 },
            "the ActorContext parameter must be a simple identifier"
        )
    );
    // A context has to name its actor.
    let no_actor = (
        Fragment::ParamType { method: 0, param: 0 },
        "first parameter of #[stage::actor_fn] must be `ActorContext<'_, Actor>`",
    );
    for ty in [context(vec![GenericArg::Other]), path("ActorContext")] {
        f.sig.params = vec![Param::Typed { named: false, ty }];
        assert_eq!(message(expand_actor_fn(&f)), no_actor);
    }
    let written = tokens("async fn work(ctx: stage::ActorContext<'_>) {}");
    let annotated = actor_fn(TokenStream::new(), written).unwrap();
    assert_eq!(message(annotated.expanded), no_actor);
    // Any other first parameter may be a pattern; it is an error where it is
    // handed on.
    f.sig.params = vec![Param::Typed { named: false, ty: Ty::Other }];
    let tokens = expand_actor_fn(&f).unwrap_or_else(|_| panic!("refused"));
    assert!(tokens.pieces.iter().any(|piece| matches!(piece, Piece::Error { .. })));
}

fn call(shape: usize, receiver: Expr, method: &str, args: Vec<Expr>) -> Expr {
    Expr::MethodCall {
        shape,
        before: vec![],
        receiver: Box::new(receiver),
        method: name(method),
        between: vec![],
        args,
    }
}

fn this(shape: usize) -> Expr {
    Expr::SelfValue { shape }
}

/// Writes an expression out.
fn show(expr: &Expr) -> String {
    let list = |exprs: &Vec<Expr>| exprs.iter().map(show).collect::<Vec<_>>().join(", ");
    match expr {
        Expr::SelfValue { shape } => format!("self#{shape}"),
        Expr::Context { shape } => format!("ctx#{shape}"),
        Expr::MethodCall { shape, before, receiver, method, between, args } => format!(
            "[{}]{}.{}::<{}>({})#{shape}",
            list(before),
            show(receiver),
            method.text,
            list(between),
            list(args)
        ),
        Expr::Inline { lowered, args } => format!("{lowered}({})", list(args)),
        Expr::Node { shape, children } => format!("{{{}}}#{shape}", list(children)),
    }
}

#[test]
fn calls_of_actor_methods_on_self_are_inlined() {
    let methods = vec![name("add"), name("get")];
    // self.add(self.get(), self.peek(self.value))
    let field = Expr::Node { shape: 5, children: vec![this(6)] };
    let expr = call(
        1,
        this(2),
        "add",
        vec![call(3, this(4), "get", vec![]), call(7, this(8), "peek", vec![field])],
    );
    assert_eq!(
        show(&rewrite_body(&expr, &methods)),
        "__stage_method_add(__stage_method_get(), []ctx#8.peek::<>({ctx#6}#5)#7)"
    );
}

#[test]
fn calls_on_others_are_kept() {
    let methods = vec![name("add")];
    // other.add(self)
    let other = Expr::Node { shape: 2, children: vec![] };
    let expr = call(1, other, "add", vec![this(3)]);
    assert_eq!(show(&rewrite_body(&expr, &methods)), "[]{}#2.add::<>(ctx#3)#1");
    // self.next().add(): the receiver is no longer `self` itself.
    let expr = call(4, call(5, this(6), "next", vec![]), "add", vec![]);
    assert_eq!(show(&rewrite_body(&expr, &methods)), "[][]ctx#6.next::<>()#5.add::<>()#4");
    // `r#add` is no other name for `add` here.
    let mut raw = call(7, this(8), "add", vec![]);
    if let Expr::MethodCall { method, .. } = &mut raw {
        method.raw = true;
    }
    assert_eq!(show(&rewrite_body(&raw, &methods)), "[]ctx#8.add::<>()#7");
}

#[test]
fn attributes_and_turbofish_are_rewritten_too() {
    let expr = Expr::MethodCall {
        shape: 1,
        before: vec![this(2)],
        receiver: Box::new(this(3)),
        method: name("peek"),
        between: vec![this(4)],
        args: vec![this(5), Expr::Inline { lowered: "f".to_string(), args: vec![this(6)] }],
    };
    assert_eq!(
        show(&rewrite_body(&expr, &vec![])),
        "[ctx#2]ctx#3.peek::<ctx#4>(ctx#5, f(ctx#6))#1"
    );
}

#[test]
fn what_does_not_speak_of_self_is_unchanged() {
    let expr = Expr::Node {
        shape: 1,
        children: vec![Expr::Context { shape: 2 }, Expr::Node { shape: 3, children: vec![] }],
    };
    assert_eq!(show(&rewrite_body(&expr, &vec![name("add")])), show(&expr));
    assert!(rewrite_all(&vec![], &vec![name("add")]).is_empty());
    assert!(is_self_expr(&this(1)));
    assert!(!is_self_expr(&expr));
}

#[test]
fn inlined_call_is_written_out() {
    for (args, expected) in [
        (0, "<Counter>::__stage_method_get(::stage::__private::__ctx(),)"),
        (2, "<Counter>::__stage_method_get(::stage::__private::__ctx(), x0, x1)"),
    ] {
        let tokens = gen_inline_call(&"__stage_method_get".to_string(), args);
        let code = render(&tokens, &|fragment| match fragment {
            Fragment::SelfType => "Counter".to_string(),
            Fragment::Argument { index } => format!("x{index}"),
            _ => unreachable!(),
        });
        let expr: syn::Expr = syn::parse_str(&code).unwrap();
        assert_eq!(expr, syn::parse_str::<syn::Expr>(expected).unwrap());
    }
}

#[test]
fn self_is_a_bare_identifier() {
    let this = || vec![segment("self")];
    assert!(is_self_path(false, false, &this()));
    assert!(!is_self_path(true, false, &this()));
    assert!(!is_self_path(false, true, &this()));
    assert!(!is_self_path(false, false, &vec![]));
    assert!(!is_self_path(false, false, &vec![segment("self"), segment("helper")]));
    assert!(!is_self_path(false, false, &vec![segment("Self")]));
    let applied = Segment { name: name("self"), args: PathArgs::Angle(vec![]) };
    assert!(!is_self_path(false, false, &vec![applied]));
}

#[test]
fn self_is_used_in_macro_arguments() {
    let ident = |text: &str| Token::Ident(name(text));
    // self . value , self :: helper , self : self
    let tokens = vec![
        ident("self"),
        Token::Other,
        ident("value"),
        Token::Other,
        ident("self"),
        Token::Colon,
        Token::Colon,
        ident("helper"),
        Token::Other,
        ident("self"),
        Token::Colon,
        ident("self"),
    ];
    let uses = self_uses(&tokens);
    let positions: Vec<_> = (0..tokens.len()).filter(|i| uses[*i]).collect();
    assert_eq!(positions, vec![0, 9, 11]);
    assert!(self_uses(&vec![]).is_empty());
}

#[test]
fn context_is_written_out() {
    let code = render(&gen_context(), &|_| unreachable!());
    assert_eq!(code.trim(), "__stage_ctx");
}

#[test]
fn names() {
    let raw = Name::written("r#move");
    assert!(raw.raw);
    assert_eq!(raw.text, "move");
    for plain in ["", "r", "#", "rx", "move", "é"] {
        assert!(Name::written(plain).same(&name(plain)));
    }
    assert!(!raw.same(&name("move")));
    assert!(raw.same(&raw.copy()));
    assert_eq!(raw.prefixed("__stage_fn_"), "__stage_fn_move");
    assert!(contains_name(&vec![name("a"), name("b")], &name("b")));
    assert!(!contains_name(&vec![name("a"), name("b")], &name("c")));
}
