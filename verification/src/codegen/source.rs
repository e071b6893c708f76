//! Annotated items as they come: tokens, which `syn` parses.
//!
//! What is read of a syntax tree is listed in [`WrittenSignature`],
//! [`WrittenSegment`] and the functions that give these. Everything else in it is
//! carried through, to be spliced into the generated code.

use crate::codegen::expand::{
    actor_expanded, expand_actor, expand_actor_fn, helper_expanded, Expansion, MacroError,
};
use crate::codegen::syntax::{
    written_name, AnnotatedItem, AnnotatedItemView, Function, FunctionView, GenericArg,
    GenericParam, Head, HeadView, ImplBlock, ImplBlockView, Member, MemberView, Name, Param,
    ParamView, PathArgs, PathArgsView, Segment, SegmentView, Ty, TyView,
};
use crate::codegen::tokens::Tokens;
use proc_macro2::TokenStream;
use vstd::prelude::*;

verus! {

/// The tokens of an item.
#[verifier::external_type_specification]
#[verifier::external_body]
pub struct ExTokenStream(TokenStream);

/// Why tokens cannot be parsed.
#[verifier::external_type_specification]
#[verifier::external_body]
pub struct ExError(syn::Error);

/// An item.
#[verifier::external_type_specification]
#[verifier::external_body]
pub struct ExItem(syn::Item);

/// A free function.
#[verifier::external_type_specification]
#[verifier::external_body]
pub struct ExItemFn(syn::ItemFn);

/// A struct.
#[verifier::external_type_specification]
#[verifier::external_body]
pub struct ExItemStruct(syn::ItemStruct);

/// An impl block.
#[verifier::external_type_specification]
#[verifier::external_body]
pub struct ExItemImpl(syn::ItemImpl);

/// The head of a method or function.
#[verifier::external_type_specification]
#[verifier::external_body]
pub struct ExSignature(syn::Signature);

/// A type.
#[verifier::external_type_specification]
#[verifier::external_body]
pub struct ExType(syn::Type);

/// What `syn::parse2` makes of tokens that are to be a free function.
pub uninterp spec fn parsed_fn(item: TokenStream) -> Result<syn::ItemFn, syn::Error>;

/// What `syn::parse2` makes of tokens that are to be an item.
pub uninterp spec fn parsed_item(item: TokenStream) -> Result<syn::Item, syn::Error>;

/// The variant of an item, as far as it matters.
pub uninterp spec fn item_kind(item: syn::Item) -> ItemKind;

/// The number of generic parameters of a struct.
pub uninterp spec fn struct_generics(item: syn::ItemStruct) -> usize;

/// The type of an impl block, and the heads of its members: none for a member that
/// is no function.
pub uninterp spec fn impl_parts(item: syn::ItemImpl) -> (syn::Type, Seq<Option<syn::Signature>>);

/// The head of a free function.
pub uninterp spec fn fn_signature(item: syn::ItemFn) -> syn::Signature;

/// What is read of the head of a method or function.
pub uninterp spec fn signature_parts(sig: syn::Signature) -> WrittenSignatureView;

/// The segments of a path type. Other types have none.
pub uninterp spec fn type_path(ty: syn::Type) -> Option<Seq<WrittenSegmentView>>;

/// An item, sorted by what it is.
pub enum ItemKind {
    Struct(syn::ItemStruct),
    Impl(syn::ItemImpl),
    Other(syn::Item),
}

/// A parameter, as it is written.
pub enum Input {
    /// `self`, in any form.
    Receiver,
    /// A pattern with its type; `named` tells whether the pattern is an identifier.
    Typed { named: bool, ty: syn::Type },
}

/// The head of a method or function, as it is written.
pub struct WrittenSignature {
    pub ident: String,
    pub is_async: bool,
    pub inputs: Vec<Input>,
    pub has_output: bool,
    pub generics: Vec<GenericParam>,
}

/// A [`WrittenSignature`], as contracts speak of it.
pub struct WrittenSignatureView {
    pub ident: Seq<char>,
    pub is_async: bool,
    pub inputs: Seq<Input>,
    pub has_output: bool,
    pub generics: Seq<GenericParam>,
}

impl View for WrittenSignature {
    type V = WrittenSignatureView;

    open spec fn view(&self) -> WrittenSignatureView {
        WrittenSignatureView {
            ident: self.ident@,
            is_async: self.is_async,
            inputs: self.inputs@,
            has_output: self.has_output,
            generics: self.generics@,
        }
    }
}

/// A segment of a path, as it is written.
pub struct WrittenSegment {
    pub ident: String,
    pub args: PathArgs,
}

/// A [`WrittenSegment`], as contracts speak of it.
pub struct WrittenSegmentView {
    pub ident: Seq<char>,
    pub args: PathArgsView,
}

impl View for WrittenSegment {
    type V = WrittenSegmentView;

    open spec fn view(&self) -> WrittenSegmentView {
        WrittenSegmentView { ident: self.ident@, args: self.args@ }
    }
}

/// The segments in a list, as contracts speak of them.
pub open spec fn segments_view(segments: Option<Vec<WrittenSegment>>) -> Option<
    Seq<WrittenSegmentView>,
> {
    match segments {
        Some(segments) => Some(segments@.map_values(|segment: WrittenSegment| segment@)),
        None => None,
    }
}

/// `syn::parse2`, for a free function: the syntax tree of the tokens, or why they are
/// none.
#[verifier::external_body]
fn parse_fn(item: TokenStream) -> (parsed: Result<syn::ItemFn, syn::Error>)
    ensures
        parsed == parsed_fn(item),
{
    syn::parse2(item)
}

/// `syn::parse2`, for an item: the syntax tree of the tokens, or why they are none.
#[verifier::external_body]
fn parse_item(item: TokenStream) -> (parsed: Result<syn::Item, syn::Error>)
    ensures
        parsed == parsed_item(item),
{
    syn::parse2(item)
}

/// Tells the variants of `syn::Item` apart.
#[verifier::external_body]
fn sort_item(item: syn::Item) -> (kind: ItemKind)
    ensures
        kind == item_kind(item),
{
    match item {
        syn::Item::Struct(item) => ItemKind::Struct(item),
        syn::Item::Impl(item) => ItemKind::Impl(item),
        item => ItemKind::Other(item),
    }
}

/// `Punctuated::len`, of the generic parameters of a `syn::ItemStruct`.
#[verifier::external_body]
fn count_generics(item: &syn::ItemStruct) -> (n: usize)
    ensures
        n == struct_generics(*item),
{
    item.generics.params.len()
}

/// The fields `self_ty` and `items` of a `syn::ItemImpl`: of an item that is a
/// function, its head.
#[verifier::external_body]
fn take_impl(item: &syn::ItemImpl) -> (parts: (syn::Type, Vec<Option<syn::Signature>>))
    ensures
        (parts.0, parts.1@) == impl_parts(*item),
{
    let sigs = item.items.iter().map(|member| match member {
        syn::ImplItem::Fn(method) => Some(method.sig.clone()),
        _ => None,
    });
    ((*item.self_ty).clone(), sigs.collect())
}

/// The field `sig` of a `syn::ItemFn`.
#[verifier::external_body]
fn take_fn(item: &syn::ItemFn) -> (sig: syn::Signature)
    ensures
        sig == fn_signature(*item),
{
    item.sig.clone()
}

/// The fields of a `syn::Signature` that are read: the identifier as
/// `Ident::to_string` writes it, whether `async` and a return type are there, the
/// parameters and the generic parameters.
#[verifier::external_body]
fn take_signature(sig: &syn::Signature) -> (parts: WrittenSignature)
    ensures
        parts@ == signature_parts(*sig),
{
    let inputs = sig.inputs.iter().map(|input| match input {
        syn::FnArg::Receiver(_) => Input::Receiver,
        syn::FnArg::Typed(typed) => {
            let named = matches!(*typed.pat, syn::Pat::Ident(_));
            Input::Typed { named, ty: (*typed.ty).clone() }
        },
    }).collect();
    let generics = sig.generics.params.iter().map(|param| match param {
        syn::GenericParam::Lifetime(_) => GenericParam::Lifetime,
        _ => GenericParam::Other,
    }).collect();
    let has_output = matches!(sig.output, syn::ReturnType::Type(..));
    let (ident, is_async) = (sig.ident.to_string(), sig.asyncness.is_some());
    WrittenSignature { ident, is_async, inputs, has_output, generics }
}

/// The segments of the path in a `syn::Type::Path`: the identifiers as
/// `Ident::to_string` writes them, and which of the arguments are types.
#[verifier::external_body]
fn take_path(ty: &syn::Type) -> (segments: Option<Vec<WrittenSegment>>)
    ensures
        segments_view(segments) == type_path(*ty),
{
    let syn::Type::Path(path) = ty else { return None };
    Some(path.path.segments.iter().map(|segment| {
        let args = match &segment.arguments {
            syn::PathArguments::None => PathArgs::Absent,
            syn::PathArguments::AngleBracketed(args) => PathArgs::Angle(
                args.args.iter().map(|arg| match arg {
                    syn::GenericArgument::Type(_) => GenericArg::Type,
                    _ => GenericArg::Other,
                }).collect()),
            syn::PathArguments::Parenthesized(_) => PathArgs::Parenthesized,
        };
        WrittenSegment { ident: segment.ident.to_string(), args }
    }).collect())
}

/// A segment of a path.
pub open spec fn segment_of(segment: WrittenSegmentView) -> SegmentView {
    SegmentView { name: written_name(segment.ident), args: segment.args }
}

/// A type.
pub open spec fn ty_of(ty: syn::Type) -> TyView {
    match type_path(ty) {
        Some(segments) => TyView::Path(
            segments.map_values(|segment: WrittenSegmentView| segment_of(segment)),
        ),
        None => TyView::Other,
    }
}

/// A parameter.
pub open spec fn param_of(input: Input) -> ParamView {
    match input {
        Input::Receiver => ParamView::Receiver,
        Input::Typed { named, ty } => ParamView::Typed { named, ty: ty_of(ty) },
    }
}

/// The head of a method or function.
pub open spec fn signature_of(sig: syn::Signature) -> HeadView {
    let parts = signature_parts(sig);
    HeadView {
        name: written_name(parts.ident),
        is_async: parts.is_async,
        params: parts.inputs.map_values(|input: Input| param_of(input)),
        returns: parts.has_output,
    }
}

/// A free function.
pub open spec fn function_of(item: syn::ItemFn) -> FunctionView {
    FunctionView {
        sig: signature_of(fn_signature(item)),
        generics: signature_parts(fn_signature(item)).generics,
    }
}

/// A member of an impl block.
pub open spec fn member_of(sig: Option<syn::Signature>) -> MemberView {
    match sig {
        Some(sig) => MemberView::Method { sig: signature_of(sig) },
        None => MemberView::Other,
    }
}

/// An item.
pub open spec fn item_of(item: ItemKind) -> AnnotatedItemView {
    match item {
        ItemKind::Struct(item) => AnnotatedItemView::Struct { generic_params: struct_generics(item) },
        ItemKind::Impl(item) => AnnotatedItemView::Impl(
            ImplBlockView {
                self_ty: ty_of(impl_parts(item).0),
                members: impl_parts(item).1.map_values(
                    |sig: Option<syn::Signature>| member_of(sig),
                ),
            },
        ),
        ItemKind::Other(_) => AnnotatedItemView::Other,
    }
}

fn read_ty(ty: &syn::Type) -> (read: Ty)
    ensures
        read@ == ty_of(*ty),
{
    let written: Vec<WrittenSegment> = match take_path(ty) {
        Some(written) => written,
        None => {
            return Ty::Other;
        },
    };
    let ghost all = written@;
    let mut written: Vec<WrittenSegment> = written;
    let mut segments: Vec<Segment> = Vec::new();
    while written.len() > 0
        invariant
            written@.len() + segments@.len() == all.len(),
            written@ == all.skip(segments@.len() as int),
            forall|k: int|
                0 <= k < segments@.len() ==> (#[trigger] segments@[k])@ == segment_of(all[k]@),
        decreases written@.len(),
    {
        let next: WrittenSegment = written.remove(0);
        let name: Name = Name::written(next.ident.as_str());
        segments.push(Segment { name, args: next.args });
        assert(written@ =~= all.skip(segments@.len() as int));
    }
    let read: Ty = Ty::Path(segments);
    assert(read@->Path_0 =~= ty_of(*ty)->Path_0);
    read
}

fn read_params(inputs: &Vec<Input>) -> (params: Vec<Param>)
    ensures
        params@.map_values(|param: Param| param@) == inputs@.map_values(
            |input: Input| param_of(input),
        ),
{
    let mut params: Vec<Param> = Vec::new();
    let mut i: usize = 0;
    while i < inputs.len()
        invariant
            i <= inputs@.len(),
            params@.len() == i,
            forall|k: int| 0 <= k < i ==> (#[trigger] params@[k])@ == param_of(inputs@[k]),
        decreases inputs@.len() - i,
    {
        params.push(
            match &inputs[i] {
                Input::Receiver => Param::Receiver,
                Input::Typed { named, ty } => Param::Typed { named: *named, ty: read_ty(ty) },
            },
        );
        i = i + 1;
    }
    assert(params@.map_values(|param: Param| param@) =~= inputs@.map_values(
        |input: Input| param_of(input),
    ));
    params
}

fn read_signature(sig: &syn::Signature) -> (read: Function)
    ensures
        read@.sig == signature_of(*sig),
        read@.generics == signature_parts(*sig).generics,
{
    let parts: WrittenSignature = take_signature(sig);
    Function {
        sig: Head {
            name: Name::written(parts.ident.as_str()),
            is_async: parts.is_async,
            params: read_params(&parts.inputs),
            returns: parts.has_output,
        },
        generics: parts.generics,
    }
}

fn read_members(sigs: &Vec<Option<syn::Signature>>) -> (members: Vec<Member>)
    ensures
        members@.map_values(|member: Member| member@) == sigs@.map_values(
            |sig: Option<syn::Signature>| member_of(sig),
        ),
{
    let mut members: Vec<Member> = Vec::new();
    let mut i: usize = 0;
    while i < sigs.len()
        invariant
            i <= sigs@.len(),
            members@.len() == i,
            forall|k: int| 0 <= k < i ==> (#[trigger] members@[k])@ == member_of(sigs@[k]),
        decreases sigs@.len() - i,
    {
        members.push(
            match &sigs[i] {
                Some(sig) => Member::Method { sig: read_signature(sig).sig },
                None => Member::Other,
            },
        );
        i = i + 1;
    }
    assert(members@.map_values(|member: Member| member@) =~= sigs@.map_values(
        |sig: Option<syn::Signature>| member_of(sig),
    ));
    members
}

fn read_item(item: &ItemKind) -> (read: AnnotatedItem)
    ensures
        read@ == item_of(*item),
{
    match item {
        ItemKind::Struct(item) => AnnotatedItem::Struct { generic_params: count_generics(item) },
        ItemKind::Impl(item) => {
            let (self_ty, sigs) = take_impl(item);
            AnnotatedItem::Impl(ImplBlock { self_ty: read_ty(&self_ty), members: read_members(&sigs) })
        },
        ItemKind::Other(_) => AnnotatedItem::Other,
    }
}

/// An item that is annotated as an actor: its syntax tree, and what takes its place.
pub struct ActorItem {
    pub source: ItemKind,
    pub expanded: Result<Expansion, MacroError>,
}

/// The attribute `actor`: parses the annotated item, which is to be a struct or an
/// impl block, and expands it. Tokens that are no item give `syn`'s error.
pub fn actor(_attr: TokenStream, item: TokenStream) -> (annotated: Result<ActorItem, syn::Error>)
    ensures
        match parsed_item(item) {
            Ok(parsed) => annotated matches Ok(annotated) && {
                &&& annotated.source == item_kind(parsed)
                &&& actor_expanded(item_of(item_kind(parsed)), annotated.expanded)
                &&& exists|read: AnnotatedItem| #[trigger]
                    call_ensures(expand_actor, (&read,), annotated.expanded) && read@ == item_of(
                        item_kind(parsed),
                    )
            },
            Err(error) => annotated == Err::<ActorItem, syn::Error>(error),
        },
{
    match parse_item(item) {
        Ok(parsed) => {
            let source: ItemKind = sort_item(parsed);
            let read: AnnotatedItem = read_item(&source);
            let expanded: Result<Expansion, MacroError> = expand_actor(&read);
            assert(call_ensures(expand_actor, (&read,), expanded));
            Ok(ActorItem { source, expanded })
        },
        Err(error) => Err(error),
    }
}

/// A function that is annotated as a helper: its syntax tree, and what takes its
/// place.
pub struct ActorFn {
    pub source: syn::ItemFn,
    pub expanded: Result<Tokens, MacroError>,
}

/// The attribute `actor_fn`: parses the annotated item, which is to be a function, and
/// expands it. Tokens that are no function give `syn`'s error.
pub fn actor_fn(_attr: TokenStream, item: TokenStream) -> (annotated: Result<ActorFn, syn::Error>)
    ensures
        match parsed_fn(item) {
            Ok(parsed) => annotated matches Ok(annotated) && {
                &&& annotated.source == parsed
                &&& helper_expanded(function_of(parsed), annotated.expanded)
                &&& exists|read: Function| #[trigger]
                    call_ensures(expand_actor_fn, (&read,), annotated.expanded) && read@
                        == function_of(parsed)
            },
            Err(error) => annotated == Err::<ActorFn, syn::Error>(error),
        },
{
    match parse_fn(item) {
        Ok(source) => {
            let function: Function = read_signature(&take_fn(&source));
            let expanded: Result<Tokens, MacroError> = expand_actor_fn(&function);
            assert(call_ensures(expand_actor_fn, (&function,), expanded));
            Ok(ActorFn { source, expanded })
        },
        Err(error) => Err(error),
    }
}

/// A type is read segment by segment: each keeps its place, its identifier as it is
/// written and its arguments. A type that is no path is none.
pub proof fn paths_are_read_segment_by_segment(ty: syn::Type, i: int)
    ensures
        ty_of(ty) is Path <==> type_path(ty) is Some,
        type_path(ty) matches Some(segments) ==> {
            &&& ty_of(ty)->Path_0.len() == segments.len()
            &&& 0 <= i < segments.len() ==> {
                &&& ty_of(ty)->Path_0[i].args == segments[i].args
                &&& ty_of(ty)->Path_0[i].name == written_name(segments[i].ident)
            }
        },
{
}

/// The head of a method or function is read as it is written: its name, whether it is
/// async, whether it returns something, and its parameters, each in its place.
pub proof fn heads_are_read_parameter_by_parameter(sig: syn::Signature, i: int)
    ensures
        ({
            let written = signature_parts(sig);
            let read = signature_of(sig);
            &&& read.name == written_name(written.ident)
            &&& read.is_async == written.is_async
            &&& read.returns == written.has_output
            &&& read.params.len() == written.inputs.len()
            &&& 0 <= i < written.inputs.len() ==> {
                &&& read.params[i] is Receiver <==> written.inputs[i] is Receiver
                &&& read.params[i] is Typed ==> {
                    &&& read.params[i]->named == written.inputs[i]->named
                    &&& read.params[i]->ty == ty_of(written.inputs[i]->ty)
                }
            }
        }),
{
}

/// An item is read as what it is: a struct with its number of generic parameters, an impl
/// block with its type and its members, each in its place, or something else. A function
/// keeps its head and its generic parameters.
pub proof fn items_are_read_member_by_member(item: ItemKind, function: syn::ItemFn, i: int)
    ensures
        match item {
            ItemKind::Struct(item) => item_of(ItemKind::Struct(item)) == (
            AnnotatedItemView::Struct { generic_params: struct_generics(item) }),
            ItemKind::Impl(block) => item_of(item) matches AnnotatedItemView::Impl(read) && {
                &&& read.self_ty == ty_of(impl_parts(block).0)
                &&& read.members.len() == impl_parts(block).1.len()
                &&& 0 <= i < read.members.len() ==> {
                    &&& read.members[i] is Method <==> impl_parts(block).1[i] is Some
                    &&& read.members[i] is Method ==> read.members[i]->sig == signature_of(
                        impl_parts(block).1[i]->Some_0,
                    )
                }
            },
            ItemKind::Other(_) => item_of(item) is Other,
        },
        function_of(function).sig == signature_of(fn_signature(function)),
        function_of(function).generics == signature_parts(fn_signature(function)).generics,
{
}

} // verus!
