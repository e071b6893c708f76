//! Rewriting the body of an actor method.
//!
//! An actor method is written against `self`, and runs with a context in its
//! place. A call of another actor method on `self` becomes a direct call of that
//! method's body, which goes on inside the same continuation.

use crate::codegen::syntax::{contains_name, names_view, Name, NameView, PathArgs, Segment};
use vstd::prelude::*;

verus! {

/// An expression. `shape` leads to the source of a node: what is written around
/// the expressions directly inside it.
pub enum Expr {
    /// `self`, exactly, as [`is_self_path`] has it.
    SelfValue { shape: usize },
    /// The context handle, where `self` was written.
    Context { shape: usize },
    /// A method call. `before` and `between` are the expressions in its attributes
    /// and in its turbofish.
    MethodCall {
        shape: usize,
        before: Vec<Expr>,
        receiver: Box<Expr>,
        method: Name,
        between: Vec<Expr>,
        args: Vec<Expr>,
    },
    /// A direct call of the body of an actor method, with a context of its own.
    Inline { lowered: String, args: Vec<Expr> },
    /// Any other expression, with the expressions directly inside it, in the order
    /// of the source.
    Node { shape: usize, children: Vec<Expr> },
}

/// An expression, as contracts speak of it.
pub enum ExprView {
    SelfValue { shape: usize },
    Context { shape: usize },
    MethodCall {
        shape: usize,
        before: Seq<ExprView>,
        receiver: Box<ExprView>,
        method: NameView,
        between: Seq<ExprView>,
        args: Seq<ExprView>,
    },
    Inline { lowered: Seq<char>, args: Seq<ExprView> },
    Node { shape: usize, children: Seq<ExprView> },
}

impl Expr {
    /// What contracts say of the expression.
    pub open spec fn view(&self) -> ExprView
        decreases self,
    {
        match self {
            Expr::SelfValue { shape } => ExprView::SelfValue { shape: *shape },
            Expr::Context { shape } => ExprView::Context { shape: *shape },
            Expr::MethodCall { shape, before, receiver, method, between, args } => {
                ExprView::MethodCall {
                    shape: *shape,
                    before: exprs_view(before@),
                    receiver: Box::new(receiver.view()),
                    method: method@,
                    between: exprs_view(between@),
                    args: exprs_view(args@),
                }
            },
            Expr::Inline { lowered, args } => ExprView::Inline {
                lowered: lowered@,
                args: exprs_view(args@),
            },
            Expr::Node { shape, children } => ExprView::Node {
                shape: *shape,
                children: exprs_view(children@),
            },
        }
    }
}

/// The expressions in a list.
pub open spec fn exprs_view(exprs: Seq<Expr>) -> Seq<ExprView>
    decreases exprs,
{
    if exprs.len() == 0 {
        Seq::empty()
    } else {
        exprs_view(exprs.drop_last()).push(exprs.last().view())
    }
}

/// The name of the body of an actor method.
pub open spec fn lowered_name(method: NameView) -> Seq<char> {
    "__stage_method_"@ + method.text
}

impl ExprView {
    /// The expression in the body of a method of an actor with the actor methods
    /// `methods`: calls of those on `self` are inlined, and every other `self` is
    /// the context.
    pub open spec fn rewritten(self, methods: Seq<NameView>) -> ExprView
        decreases self,
    {
        match self {
            ExprView::SelfValue { shape } => ExprView::Context { shape },
            ExprView::Context { shape } => self,
            ExprView::MethodCall { shape, before, receiver, method, between, args } => {
                if *receiver is SelfValue && methods.contains(method) {
                    ExprView::Inline {
                        lowered: lowered_name(method),
                        args: rewritten_all(args, methods),
                    }
                } else {
                    ExprView::MethodCall {
                        shape,
                        before: rewritten_all(before, methods),
                        receiver: Box::new(receiver.rewritten(methods)),
                        method,
                        between: rewritten_all(between, methods),
                        args: rewritten_all(args, methods),
                    }
                }
            },
            ExprView::Inline { lowered, args } => ExprView::Inline {
                lowered,
                args: rewritten_all(args, methods),
            },
            ExprView::Node { shape, children } => ExprView::Node {
                shape,
                children: rewritten_all(children, methods),
            },
        }
    }

    /// Whether `self` is written nowhere in the expression.
    pub open spec fn is_selfless(self) -> bool
        decreases self,
    {
        match self {
            ExprView::SelfValue { .. } => false,
            ExprView::Context { .. } => true,
            ExprView::MethodCall { shape, before, receiver, method, between, args } => {
                &&& all_selfless(before)
                &&& receiver.is_selfless()
                &&& all_selfless(between)
                &&& all_selfless(args)
            },
            ExprView::Inline { lowered, args } => all_selfless(args),
            ExprView::Node { shape, children } => all_selfless(children),
        }
    }
}

/// [`ExprView::rewritten`], of every expression in a list.
pub open spec fn rewritten_all(exprs: Seq<ExprView>, methods: Seq<NameView>) -> Seq<ExprView>
    decreases exprs,
{
    if exprs.len() == 0 {
        Seq::empty()
    } else {
        rewritten_all(exprs.drop_last(), methods).push(exprs.last().rewritten(methods))
    }
}

/// [`ExprView::is_selfless`], of every expression in a list.
pub open spec fn all_selfless(exprs: Seq<ExprView>) -> bool
    decreases exprs,
{
    exprs.len() == 0 || (all_selfless(exprs.drop_last()) && exprs.last().is_selfless())
}

/// Rewrites an expression in the body of a method of an actor with the actor
/// methods `methods`.
pub fn rewrite_body(expr: &Expr, methods: &Vec<Name>) -> (rewritten: Expr)
    ensures
        rewritten.view() == expr.view().rewritten(names_view(methods@)),
    decreases expr,
{
    match expr {
        Expr::SelfValue { shape } => Expr::Context { shape: *shape },
        Expr::Context { shape } => Expr::Context { shape: *shape },
        Expr::MethodCall { shape, before, receiver, method, between, args } => {
            if is_self_expr(receiver) && contains_name(methods, method) {
                Expr::Inline {
                    lowered: method.prefixed("__stage_method_"),
                    args: rewrite_all(args, methods),
                }
            } else {
                Expr::MethodCall {
                    shape: *shape,
                    before: rewrite_all(before, methods),
                    receiver: Box::new(rewrite_body(receiver, methods)),
                    method: method.copy(),
                    between: rewrite_all(between, methods),
                    args: rewrite_all(args, methods),
                }
            }
        },
        Expr::Inline { lowered, args } => Expr::Inline {
            lowered: lowered.clone(),
            args: rewrite_all(args, methods),
        },
        Expr::Node { shape, children } => Expr::Node {
            shape: *shape,
            children: rewrite_all(children, methods),
        },
    }
}

/// Rewrites every expression in a list.
pub fn rewrite_all(exprs: &Vec<Expr>, methods: &Vec<Name>) -> (rewritten: Vec<Expr>)
    ensures
        exprs_view(rewritten@) == rewritten_all(exprs_view(exprs@), names_view(methods@)),
    decreases exprs,
{
    let mut rewritten: Vec<Expr> = Vec::new();
    let mut i: usize = 0;
    while i < exprs.len()
        invariant
            i <= exprs@.len(),
            exprs_view(rewritten@) == rewritten_all(
                exprs_view(exprs@.take(i as int)),
                names_view(methods@),
            ),
        decreases exprs@.len() - i,
    {
        assert(decreases_to!(exprs => exprs@[i as int]));
        let next: Expr = rewrite_body(&exprs[i], methods);
        let ghost done = rewritten@;
        rewritten.push(next);
        assert(rewritten@.drop_last() =~= done);
        assert(exprs@.take(i + 1).drop_last() =~= exprs@.take(i as int));
        i = i + 1;
        assert(exprs_view(exprs@.take(i as int)).drop_last() =~= exprs_view(exprs@.take(i - 1)));
    }
    assert(exprs@.take(i as int) =~= exprs@);
    rewritten
}

/// Whether an expression is exactly `self`.
pub fn is_self_expr(expr: &Expr) -> (is_self: bool)
    ensures
        is_self == (expr.view() is SelfValue),
{
    match expr {
        Expr::SelfValue { .. } => true,
        _ => false,
    }
}

/// Whether a path is exactly `self`. `qualified` tells whether it starts with a type in
/// angle brackets, and `rooted` whether it starts with `::`.
pub fn is_self_path(qualified: bool, rooted: bool, segments: &Vec<Segment>) -> (yes: bool)
    ensures
        yes == (!qualified && !rooted && segments@.len() == 1 && segments@[0]@.name == (NameView {
            raw: false,
            text: "self"@,
        }) && segments@[0]@.args is Absent),
{
    if qualified || rooted || segments.len() != 1 {
        return false;
    }
    let bare: bool = match &segments[0].args {
        PathArgs::Absent => true,
        _ => false,
    };
    bare && segments[0].name.same(&Name { raw: false, text: "self".to_string() })
}

/// A token among the arguments of a macro, which are not parsed.
pub enum Token {
    Ident(Name),
    Colon,
    /// Any other token. What stands in a group is a sequence of tokens of its own.
    Other,
}

/// Whether token number `i` is `self`, and not the start of a path like `self::helper`.
pub open spec fn is_self_use(tokens: Seq<Token>, i: int) -> bool {
    &&& tokens[i] matches Token::Ident(name)
    &&& name@ == (NameView { raw: false, text: "self"@ })
    &&& !(i + 2 < tokens.len() && tokens[i + 1] is Colon && tokens[i + 2] is Colon)
}

/// Tells for each token among the arguments of a macro whether it is a use of `self`,
/// which is rewritten there too.
pub fn self_uses(tokens: &Vec<Token>) -> (uses: Vec<bool>)
    ensures
        uses@.len() == tokens@.len(),
        forall|i: int| 0 <= i < tokens@.len() ==> #[trigger] uses@[i] == is_self_use(tokens@, i),
{
    let this: Name = Name { raw: false, text: "self".to_string() };
    let mut uses: Vec<bool> = Vec::new();
    let mut i: usize = 0;
    while i < tokens.len()
        invariant
            i <= tokens@.len(),
            uses@.len() == i,
            this@ == (NameView { raw: false, text: "self"@ }),
            forall|k: int| 0 <= k < i ==> #[trigger] uses@[k] == is_self_use(tokens@, k),
        decreases tokens@.len() - i,
    {
        let named: bool = match &tokens[i] {
            Token::Ident(name) => name.same(&this),
            _ => false,
        };
        let is_path: bool = tokens.len() - i > 2 && matches!(tokens[i + 1], Token::Colon)
            && matches!(tokens[i + 2], Token::Colon);
        uses.push(named && !is_path);
        i = i + 1;
    }
    uses
}

/// Nothing is left of `self` in a rewritten body: it runs with the context alone.
pub proof fn no_self_remains(expr: ExprView, methods: Seq<NameView>)
    ensures
        expr.rewritten(methods).is_selfless(),
    decreases expr,
{
    match expr {
        ExprView::SelfValue { .. } => {},
        ExprView::Context { .. } => {},
        ExprView::MethodCall { shape, before, receiver, method, between, args } => {
            lemma_none_remains(before, methods);
            no_self_remains(*receiver, methods);
            lemma_none_remains(between, methods);
            lemma_none_remains(args, methods);
        },
        ExprView::Inline { lowered, args } => lemma_none_remains(args, methods),
        ExprView::Node { shape, children } => lemma_none_remains(children, methods),
    }
}

proof fn lemma_none_remains(exprs: Seq<ExprView>, methods: Seq<NameView>)
    ensures
        all_selfless(rewritten_all(exprs, methods)),
    decreases exprs,
{
    if exprs.len() > 0 {
        lemma_none_remains(exprs.drop_last(), methods);
        no_self_remains(exprs.last(), methods);
        let all = rewritten_all(exprs, methods);
        assert(all.drop_last() =~= rewritten_all(exprs.drop_last(), methods));
    }
}

/// What does not speak of `self` is left as it is.
pub proof fn selfless_is_unchanged(expr: ExprView, methods: Seq<NameView>)
    requires
        expr.is_selfless(),
    ensures
        expr.rewritten(methods) == expr,
    decreases expr,
{
    match expr {
        ExprView::SelfValue { .. } => {},
        ExprView::Context { .. } => {},
        ExprView::MethodCall { shape, before, receiver, method, between, args } => {
            lemma_all_unchanged(before, methods);
            selfless_is_unchanged(*receiver, methods);
            lemma_all_unchanged(between, methods);
            lemma_all_unchanged(args, methods);
        },
        ExprView::Inline { lowered, args } => lemma_all_unchanged(args, methods),
        ExprView::Node { shape, children } => lemma_all_unchanged(children, methods),
    }
}

proof fn lemma_all_unchanged(exprs: Seq<ExprView>, methods: Seq<NameView>)
    requires
        all_selfless(exprs),
    ensures
        rewritten_all(exprs, methods) == exprs,
    decreases exprs,
{
    if exprs.len() > 0 {
        lemma_all_unchanged(exprs.drop_last(), methods);
        selfless_is_unchanged(exprs.last(), methods);
        assert(exprs.drop_last().push(exprs.last()) =~= exprs);
    }
}

/// Whether an expression is the actor: `self`, or the context in its place.
pub open spec fn is_the_actor(expr: ExprView) -> bool {
    expr is SelfValue || expr is Context
}

impl ExprView {
    /// Whether `method` is called on the actor, in the expression or anywhere inside
    /// it.
    pub open spec fn calls_on_actor(self, method: NameView) -> bool
        decreases self,
    {
        match self {
            ExprView::SelfValue { .. } => false,
            ExprView::Context { .. } => false,
            ExprView::MethodCall { shape, before, receiver, method: called, between, args } => {
                ||| called == method && is_the_actor(*receiver)
                ||| any_calls_on_actor(before, method)
                ||| receiver.calls_on_actor(method)
                ||| any_calls_on_actor(between, method)
                ||| any_calls_on_actor(args, method)
            },
            ExprView::Inline { lowered, args } => any_calls_on_actor(args, method),
            ExprView::Node { shape, children } => any_calls_on_actor(children, method),
        }
    }

    /// Whether there is no context in the expression.
    pub open spec fn is_contextless(self) -> bool
        decreases self,
    {
        match self {
            ExprView::SelfValue { .. } => true,
            ExprView::Context { .. } => false,
            ExprView::MethodCall { shape, before, receiver, method, between, args } => {
                &&& all_contextless(before)
                &&& receiver.is_contextless()
                &&& all_contextless(between)
                &&& all_contextless(args)
            },
            ExprView::Inline { lowered, args } => all_contextless(args),
            ExprView::Node { shape, children } => all_contextless(children),
        }
    }

    /// How often the body with the name `lowered` is called directly.
    pub open spec fn direct_calls(self, lowered: Seq<char>) -> nat
        decreases self,
    {
        match self {
            ExprView::SelfValue { .. } => 0,
            ExprView::Context { .. } => 0,
            ExprView::MethodCall { shape, before, receiver, method, between, args } => {
                all_direct_calls(before, lowered) + receiver.direct_calls(lowered)
                    + all_direct_calls(between, lowered) + all_direct_calls(args, lowered)
            },
            ExprView::Inline { lowered: called, args } => (if called == lowered {
                1nat
            } else {
                0nat
            }) + all_direct_calls(args, lowered),
            ExprView::Node { shape, children } => all_direct_calls(children, lowered),
        }
    }

    /// How often `self.method(..)` is written for a method with the identifier `text`
    /// that is one of `methods`. The attributes and the turbofish of such a call do not
    /// count.
    pub open spec fn calls_on_self(self, methods: Seq<NameView>, text: Seq<char>) -> nat
        decreases self,
    {
        match self {
            ExprView::SelfValue { .. } => 0,
            ExprView::Context { .. } => 0,
            ExprView::MethodCall { shape, before, receiver, method, between, args } => {
                if *receiver is SelfValue && methods.contains(method) {
                    (if method.text == text {
                        1nat
                    } else {
                        0nat
                    }) + all_calls_on_self(args, methods, text)
                } else {
                    all_calls_on_self(before, methods, text) + receiver.calls_on_self(
                        methods,
                        text,
                    ) + all_calls_on_self(between, methods, text) + all_calls_on_self(
                        args,
                        methods,
                        text,
                    )
                }
            },
            ExprView::Inline { lowered, args } => all_calls_on_self(args, methods, text),
            ExprView::Node { shape, children } => all_calls_on_self(children, methods, text),
        }
    }
}

/// [`ExprView::calls_on_actor`], of any expression in a list.
pub open spec fn any_calls_on_actor(exprs: Seq<ExprView>, method: NameView) -> bool
    decreases exprs,
{
    exprs.len() > 0 && (any_calls_on_actor(exprs.drop_last(), method)
        || exprs.last().calls_on_actor(method))
}

/// [`ExprView::is_contextless`], of every expression in a list.
pub open spec fn all_contextless(exprs: Seq<ExprView>) -> bool
    decreases exprs,
{
    exprs.len() == 0 || (all_contextless(exprs.drop_last()) && exprs.last().is_contextless())
}

/// [`ExprView::direct_calls`], of all expressions in a list.
pub open spec fn all_direct_calls(exprs: Seq<ExprView>, lowered: Seq<char>) -> nat
    decreases exprs,
{
    if exprs.len() == 0 {
        0
    } else {
        all_direct_calls(exprs.drop_last(), lowered) + exprs.last().direct_calls(lowered)
    }
}

/// [`ExprView::calls_on_self`], of all expressions in a list.
pub open spec fn all_calls_on_self(
    exprs: Seq<ExprView>,
    methods: Seq<NameView>,
    text: Seq<char>,
) -> nat
    decreases exprs,
{
    if exprs.len() == 0 {
        0
    } else {
        all_calls_on_self(exprs.drop_last(), methods, text) + exprs.last().calls_on_self(
            methods,
            text,
        )
    }
}

/// At whatever depth a call of an actor method on `self` stands, it is inlined: none is
/// left in a rewritten expression, neither on `self` nor on the context.
pub proof fn no_actor_method_is_called_through_the_context(
    expr: ExprView,
    methods: Seq<NameView>,
    method: NameView,
)
    requires
        expr.is_contextless(),
        methods.contains(method),
    ensures
        !expr.rewritten(methods).calls_on_actor(method),
    decreases expr,
{
    match expr {
        ExprView::SelfValue { .. } => {},
        ExprView::Context { .. } => {},
        ExprView::MethodCall { shape, before, receiver, method: called, between, args } => {
            lemma_none_called_through_the_context(before, methods, method);
            no_actor_method_is_called_through_the_context(*receiver, methods, method);
            lemma_none_called_through_the_context(between, methods, method);
            lemma_none_called_through_the_context(args, methods, method);
            reveal_with_fuel(ExprView::rewritten, 2);
            reveal_with_fuel(ExprView::is_contextless, 2);
        },
        ExprView::Inline { lowered, args } => {
            lemma_none_called_through_the_context(args, methods, method)
        },
        ExprView::Node { shape, children } => {
            lemma_none_called_through_the_context(children, methods, method)
        },
    }
}

proof fn lemma_none_called_through_the_context(
    exprs: Seq<ExprView>,
    methods: Seq<NameView>,
    method: NameView,
)
    requires
        all_contextless(exprs),
        methods.contains(method),
    ensures
        !any_calls_on_actor(rewritten_all(exprs, methods), method),
    decreases exprs,
{
    if exprs.len() > 0 {
        lemma_none_called_through_the_context(exprs.drop_last(), methods, method);
        no_actor_method_is_called_through_the_context(exprs.last(), methods, method);
        let all = rewritten_all(exprs, methods);
        assert(all.drop_last() =~= rewritten_all(exprs.drop_last(), methods));
    }
}

/// Every call of an actor method on `self` becomes one direct call of its body, at
/// whatever depth it stands, and nothing else becomes one: the direct calls in the
/// rewritten expression are those that were there and the calls on `self`.
pub proof fn every_call_on_self_is_inlined_once(
    expr: ExprView,
    methods: Seq<NameView>,
    text: Seq<char>,
)
    ensures
        expr.rewritten(methods).direct_calls("__stage_method_"@ + text) == kept_direct_calls(
            expr,
            methods,
            "__stage_method_"@ + text,
        ) + expr.calls_on_self(methods, text),
    decreases expr,
{
    let lowered = "__stage_method_"@ + text;
    match expr {
        ExprView::SelfValue { .. } => {},
        ExprView::Context { .. } => {},
        ExprView::MethodCall { shape, before, receiver, method, between, args } => {
            lemma_inlined_once(before, methods, text);
            every_call_on_self_is_inlined_once(*receiver, methods, text);
            lemma_inlined_once(between, methods, text);
            lemma_inlined_once(args, methods, text);
            let prefix = "__stage_method_"@;
            assert(lowered.skip(prefix.len() as int) =~= text);
            assert((prefix + method.text).skip(prefix.len() as int) =~= method.text);
        },
        ExprView::Inline { lowered: called, args } => lemma_inlined_once(args, methods, text),
        ExprView::Node { shape, children } => lemma_inlined_once(children, methods, text),
    }
}

/// How often the body with the name `lowered` is called directly in what is kept of an
/// expression: all of it but the attributes and the turbofish of calls of actor methods
/// on `self`.
pub open spec fn kept_direct_calls(
    expr: ExprView,
    methods: Seq<NameView>,
    lowered: Seq<char>,
) -> nat
    decreases expr,
{
    match expr {
        ExprView::SelfValue { .. } => 0,
        ExprView::Context { .. } => 0,
        ExprView::MethodCall { shape, before, receiver, method, between, args } => {
            if *receiver is SelfValue && methods.contains(method) {
                all_kept_direct_calls(args, methods, lowered)
            } else {
                all_kept_direct_calls(before, methods, lowered) + kept_direct_calls(
                    *receiver,
                    methods,
                    lowered,
                ) + all_kept_direct_calls(between, methods, lowered) + all_kept_direct_calls(
                    args,
                    methods,
                    lowered,
                )
            }
        },
        ExprView::Inline { lowered: called, args } => (if called == lowered {
            1nat
        } else {
            0nat
        }) + all_kept_direct_calls(args, methods, lowered),
        ExprView::Node { shape, children } => all_kept_direct_calls(children, methods, lowered),
    }
}

/// [`kept_direct_calls`], of all expressions in a list.
pub open spec fn all_kept_direct_calls(
    exprs: Seq<ExprView>,
    methods: Seq<NameView>,
    lowered: Seq<char>,
) -> nat
    decreases exprs,
{
    if exprs.len() == 0 {
        0
    } else {
        all_kept_direct_calls(exprs.drop_last(), methods, lowered) + kept_direct_calls(
            exprs.last(),
            methods,
            lowered,
        )
    }
}

proof fn lemma_inlined_once(exprs: Seq<ExprView>, methods: Seq<NameView>, text: Seq<char>)
    ensures
        all_direct_calls(rewritten_all(exprs, methods), "__stage_method_"@ + text)
            == all_kept_direct_calls(exprs, methods, "__stage_method_"@ + text)
            + all_calls_on_self(exprs, methods, text),
    decreases exprs,
{
    if exprs.len() > 0 {
        lemma_inlined_once(exprs.drop_last(), methods, text);
        every_call_on_self_is_inlined_once(exprs.last(), methods, text);
        let all = rewritten_all(exprs, methods);
        assert(all.drop_last() =~= rewritten_all(exprs.drop_last(), methods));
    }
}

/// What an expression says, whether actor methods are called on `self` or inlined, and
/// whether the actor is written as `self` or as the context.
pub enum Outline {
    Actor { shape: usize },
    ActorCall { lowered: Seq<char>, args: Seq<Outline> },
    MethodCall {
        shape: usize,
        before: Seq<Outline>,
        receiver: Box<Outline>,
        method: NameView,
        between: Seq<Outline>,
        args: Seq<Outline>,
    },
    Node { shape: usize, children: Seq<Outline> },
}

/// The outline of an expression in the body of a method of an actor with the actor
/// methods `methods`.
pub open spec fn outline(expr: ExprView, methods: Seq<NameView>) -> Outline
    decreases expr,
{
    match expr {
        ExprView::SelfValue { shape } => Outline::Actor { shape },
        ExprView::Context { shape } => Outline::Actor { shape },
        ExprView::MethodCall { shape, before, receiver, method, between, args } => {
            if is_the_actor(*receiver) && methods.contains(method) {
                Outline::ActorCall {
                    lowered: "__stage_method_"@ + method.text,
                    args: outlines(args, methods),
                }
            } else {
                Outline::MethodCall {
                    shape,
                    before: outlines(before, methods),
                    receiver: Box::new(outline(*receiver, methods)),
                    method,
                    between: outlines(between, methods),
                    args: outlines(args, methods),
                }
            }
        },
        ExprView::Inline { lowered, args } => Outline::ActorCall {
            lowered,
            args: outlines(args, methods),
        },
        ExprView::Node { shape, children } => Outline::Node {
            shape,
            children: outlines(children, methods),
        },
    }
}

/// The outlines of the expressions in a list.
pub open spec fn outlines(exprs: Seq<ExprView>, methods: Seq<NameView>) -> Seq<Outline>
    decreases exprs,
{
    if exprs.len() == 0 {
        Seq::empty()
    } else {
        outlines(exprs.drop_last(), methods).push(outline(exprs.last(), methods))
    }
}

/// Rewriting changes nothing but how the actor and its methods are referred to: every
/// other expression stays where it is, with its arguments in their order.
pub proof fn rewriting_keeps_the_outline(expr: ExprView, methods: Seq<NameView>)
    ensures
        outline(expr.rewritten(methods), methods) == outline(expr, methods),
    decreases expr,
{
    match expr {
        ExprView::SelfValue { .. } => {},
        ExprView::Context { .. } => {},
        ExprView::MethodCall { shape, before, receiver, method, between, args } => {
            lemma_outlines_kept(before, methods);
            rewriting_keeps_the_outline(*receiver, methods);
            lemma_outlines_kept(between, methods);
            lemma_outlines_kept(args, methods);
        },
        ExprView::Inline { lowered, args } => lemma_outlines_kept(args, methods),
        ExprView::Node { shape, children } => lemma_outlines_kept(children, methods),
    }
}

proof fn lemma_outlines_kept(exprs: Seq<ExprView>, methods: Seq<NameView>)
    ensures
        outlines(rewritten_all(exprs, methods), methods) == outlines(exprs, methods),
    decreases exprs,
{
    if exprs.len() > 0 {
        lemma_outlines_kept(exprs.drop_last(), methods);
        rewriting_keeps_the_outline(exprs.last(), methods);
        let all = rewritten_all(exprs, methods);
        assert(all.drop_last() =~= rewritten_all(exprs.drop_last(), methods));
    }
}

/// The expressions of a body are rewritten one by one, in their order.
pub proof fn bodies_are_rewritten_in_order(exprs: Seq<ExprView>, methods: Seq<NameView>, i: int)
    requires
        0 <= i < exprs.len(),
    ensures
        rewritten_all(exprs, methods).len() == exprs.len(),
        rewritten_all(exprs, methods)[i] == exprs[i].rewritten(methods),
    decreases exprs.len(),
{
    reveal_with_fuel(rewritten_all, 2);
    if i < exprs.len() - 1 {
        bodies_are_rewritten_in_order(exprs.drop_last(), methods, i);
    } else if exprs.len() > 1 {
        bodies_are_rewritten_in_order(exprs.drop_last(), methods, i - 1);
    }
}

/// What is rewritten once is not changed by rewriting again.
pub proof fn rewriting_twice_changes_nothing_more(expr: ExprView, methods: Seq<NameView>)
    ensures
        expr.rewritten(methods).rewritten(methods) == expr.rewritten(methods),
{
    no_self_remains(expr, methods);
    selfless_is_unchanged(expr.rewritten(methods), methods);
}

/// Contracts speak of all of an expression: nothing is left out of its view.
pub proof fn views_leave_no_expression_out(exprs: Seq<Expr>, i: int)
    requires
        0 <= i < exprs.len(),
    ensures
        exprs_view(exprs).len() == exprs.len(),
        exprs_view(exprs)[i] == exprs[i].view(),
        match exprs[i] {
            Expr::SelfValue { shape } => exprs[i].view() == (ExprView::SelfValue { shape }),
            Expr::Context { shape } => exprs[i].view() == (ExprView::Context { shape }),
            Expr::MethodCall { shape, before, receiver, method, between, args } => {
                exprs[i].view() matches ExprView::MethodCall {
                    shape: s,
                    before: b,
                    receiver: r,
                    method: m,
                    between: t,
                    args: a,
                } && s == shape && b == exprs_view(before@) && *r == receiver.view() && m
                    == method@ && t == exprs_view(between@) && a == exprs_view(args@)
            },
            Expr::Inline { lowered, args } => exprs[i].view() matches ExprView::Inline {
                lowered: l,
                args: a,
            } && l == lowered@ && a == exprs_view(args@),
            Expr::Node { shape, children } => exprs[i].view() matches ExprView::Node {
                shape: s,
                children: c,
            } && s == shape && c == exprs_view(children@),
        },
    decreases exprs.len(),
{
    reveal_with_fuel(exprs_view, 2);
    if i < exprs.len() - 1 {
        views_leave_no_expression_out(exprs.drop_last(), i);
    } else if exprs.len() > 1 {
        views_leave_no_expression_out(exprs.drop_last(), i - 1);
    }
}

} // verus!
