//! The parts of an annotated item that decide what becomes of it.

use vstd::prelude::*;

verus! {

/// An identifier; `raw` tells whether it is written with `r#`, which is no part
/// of `text`.
pub struct Name {
    pub raw: bool,
    pub text: String,
}

/// An identifier, as contracts speak of it.
pub struct NameView {
    pub raw: bool,
    pub text: Seq<char>,
}

impl View for Name {
    type V = NameView;

    open spec fn view(&self) -> NameView {
        NameView { raw: self.raw, text: self.text@ }
    }
}

/// The identifier that is written like this.
pub open spec fn written_name(written: Seq<char>) -> NameView {
    if written.len() >= 2 && written[0] == 'r' && written[1] == '#' {
        NameView { raw: true, text: written.skip(2) }
    } else {
        NameView { raw: false, text: written }
    }
}

impl Name {
    /// The identifier that is written as `written`.
    pub fn written(written: &str) -> (name: Name)
        ensures
            name@ == written_name(written@),
    {
        let n: usize = written.unicode_len();
        if n >= 2 && written.get_char(0) == 'r' && written.get_char(1) == '#' {
            let text: &str = written.substring_char(2, n);
            assert(text@ =~= written@.skip(2));
            Name { raw: true, text: text.to_string() }
        } else {
            Name { raw: false, text: written.to_string() }
        }
    }

    /// Whether two identifiers are the same.
    pub fn same(&self, other: &Name) -> (same: bool)
        ensures
            same == (self@ == other@),
    {
        self.raw == other.raw && self.text == other.text
    }

    /// A copy of the identifier.
    pub fn copy(&self) -> (name: Name)
        ensures
            name@ == self@,
    {
        Name { raw: self.raw, text: self.text.clone() }
    }

    /// `prefix` with the identifier behind it. A `r#` is left out.
    pub fn prefixed(&self, prefix: &str) -> (text: String)
        ensures
            text@ == prefix@ + self@.text,
    {
        prefix.to_string().concat(self.text.as_str())
    }
}

/// The identifiers in a list.
pub open spec fn names_view(names: Seq<Name>) -> Seq<NameView> {
    names.map_values(|name: Name| name@)
}

/// Whether `names` holds `name`.
pub fn contains_name(names: &Vec<Name>, name: &Name) -> (found: bool)
    ensures
        found == names_view(names@).contains(name@),
{
    let mut i: usize = 0;
    while i < names.len()
        invariant
            i <= names@.len(),
            forall|k: int| 0 <= k < i ==> (#[trigger] names@[k])@ != name@,
        decreases names@.len() - i,
    {
        if names[i].same(name) {
            assert(names_view(names@)[i as int] == name@);
            return true;
        }
        i = i + 1;
    }
    assert forall|k: int| 0 <= k < names_view(names@).len() implies names_view(names@)[k]
        != name@ by {
        assert(names_view(names@)[k] == names@[k]@);
    }
    false
}

/// One argument in the angle brackets of a path.
#[derive(Clone, Copy, Debug, PartialEq, Eq, Structural)]
pub enum GenericArg {
    Type,
    /// A lifetime, a constant or a constraint.
    Other,
}

/// What stands behind a segment of a path.
pub enum PathArgs {
    Absent,
    /// `<..>`
    Angle(Vec<GenericArg>),
    /// `(..)`
    Parenthesized,
}

/// One segment of a path.
pub struct Segment {
    pub name: Name,
    pub args: PathArgs,
}

/// A type.
pub enum Ty {
    Path(Vec<Segment>),
    Other,
}

/// A parameter of a method or function.
pub enum Param {
    /// `self`, in any form.
    Receiver,
    /// A pattern with its type; `named` tells whether the pattern is an
    /// identifier.
    Typed { named: bool, ty: Ty },
}

/// A method or function.
pub struct Head {
    pub name: Name,
    pub is_async: bool,
    pub params: Vec<Param>,
    /// Whether a return type is written.
    pub returns: bool,
}

/// One member of an impl block.
pub enum Member {
    Method { sig: Head },
    Other,
}

/// An impl block.
pub struct ImplBlock {
    pub self_ty: Ty,
    pub members: Vec<Member>,
}

/// One generic parameter of a function.
#[derive(Clone, Copy, Debug, PartialEq, Eq, Structural)]
pub enum GenericParam {
    Lifetime,
    /// A type or a constant.
    Other,
}

/// A free function.
pub struct Function {
    pub sig: Head,
    pub generics: Vec<GenericParam>,
}

/// An annotated item.
pub enum AnnotatedItem {
    /// A struct, with the number of its generic parameters.
    Struct { generic_params: usize },
    Impl(ImplBlock),
    Other,
}

/// A [`PathArgs`], as contracts speak of it.
pub enum PathArgsView {
    Absent,
    Angle(Seq<GenericArg>),
    Parenthesized,
}

/// A [`Segment`], as contracts speak of it.
pub struct SegmentView {
    pub name: NameView,
    pub args: PathArgsView,
}

/// A [`Ty`], as contracts speak of it.
pub enum TyView {
    Path(Seq<SegmentView>),
    Other,
}

/// A [`Param`], as contracts speak of it.
pub enum ParamView {
    Receiver,
    Typed { named: bool, ty: TyView },
}

/// A [`Head`], as contracts speak of it.
pub struct HeadView {
    pub name: NameView,
    pub is_async: bool,
    pub params: Seq<ParamView>,
    pub returns: bool,
}

/// A [`Member`], as contracts speak of it.
pub enum MemberView {
    Method { sig: HeadView },
    Other,
}

/// An [`ImplBlock`], as contracts speak of it.
pub struct ImplBlockView {
    pub self_ty: TyView,
    pub members: Seq<MemberView>,
}

/// A [`Function`], as contracts speak of it.
pub struct FunctionView {
    pub sig: HeadView,
    pub generics: Seq<GenericParam>,
}

/// An [`AnnotatedItem`], as contracts speak of it.
pub enum AnnotatedItemView {
    Struct { generic_params: usize },
    Impl(ImplBlockView),
    Other,
}

impl View for PathArgs {
    type V = PathArgsView;

    open spec fn view(&self) -> PathArgsView {
        match self {
            PathArgs::Absent => PathArgsView::Absent,
            PathArgs::Angle(args) => PathArgsView::Angle(args@),
            PathArgs::Parenthesized => PathArgsView::Parenthesized,
        }
    }
}

impl View for Segment {
    type V = SegmentView;

    open spec fn view(&self) -> SegmentView {
        SegmentView { name: self.name@, args: self.args@ }
    }
}

impl View for Ty {
    type V = TyView;

    open spec fn view(&self) -> TyView {
        match self {
            Ty::Path(segments) => TyView::Path(segments@.map_values(|segment: Segment| segment@)),
            Ty::Other => TyView::Other,
        }
    }
}

impl View for Param {
    type V = ParamView;

    open spec fn view(&self) -> ParamView {
        match self {
            Param::Receiver => ParamView::Receiver,
            Param::Typed { named, ty } => ParamView::Typed { named: *named, ty: ty@ },
        }
    }
}

/// The parameters in a list.
pub open spec fn params_view(params: Seq<Param>) -> Seq<ParamView> {
    params.map_values(|param: Param| param@)
}

impl View for Head {
    type V = HeadView;

    open spec fn view(&self) -> HeadView {
        HeadView {
            name: self.name@,
            is_async: self.is_async,
            params: params_view(self.params@),
            returns: self.returns,
        }
    }
}

impl View for Member {
    type V = MemberView;

    open spec fn view(&self) -> MemberView {
        match self {
            Member::Method { sig } => MemberView::Method { sig: sig@ },
            Member::Other => MemberView::Other,
        }
    }
}

/// The members in a list.
pub open spec fn members_view(members: Seq<Member>) -> Seq<MemberView> {
    members.map_values(|member: Member| member@)
}

impl View for ImplBlock {
    type V = ImplBlockView;

    open spec fn view(&self) -> ImplBlockView {
        ImplBlockView { self_ty: self.self_ty@, members: members_view(self.members@) }
    }
}

impl View for Function {
    type V = FunctionView;

    open spec fn view(&self) -> FunctionView {
        FunctionView { sig: self.sig@, generics: self.generics@ }
    }
}

impl View for AnnotatedItem {
    type V = AnnotatedItemView;

    open spec fn view(&self) -> AnnotatedItemView {
        match self {
            AnnotatedItem::Struct { generic_params } => AnnotatedItemView::Struct {
                generic_params: *generic_params,
            },
            AnnotatedItem::Impl(block) => AnnotatedItemView::Impl(block@),
            AnnotatedItem::Other => AnnotatedItemView::Other,
        }
    }
}

} // verus!
