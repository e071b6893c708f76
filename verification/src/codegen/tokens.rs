//! Generated code: a flat sequence of pieces.

use vstd::prelude::*;

verus! {

/// The delimiters of a group.
#[derive(Clone, Copy, Debug, PartialEq, Eq, Structural)]
pub enum Delimiter {
    Parenthesis,
    Brace,
}

/// A part of the annotated item. `method` counts the members of an impl block,
/// and is zero for a function; `param` counts the parameters, a receiver too.
#[derive(Clone, Copy, Debug, PartialEq, Eq, Structural)]
pub enum Fragment {
    /// The whole item.
    Item,
    /// The name of a struct or function.
    ItemName,
    /// The name of a method.
    MethodName { method: usize },
    /// The generic parameters of a struct or function, in their angle brackets.
    Generics,
    /// One generic parameter.
    GenericParam { index: usize },
    /// The `where` clause of a function.
    WhereClause,
    /// The visibility of a function.
    Visibility,
    /// The type of an impl block.
    SelfType,
    /// A member of an impl block.
    Member { index: usize },
    /// A parameter with its type.
    Param { method: usize, param: usize },
    /// The identifier that a parameter's pattern binds.
    ParamName { method: usize, param: usize },
    /// The pattern of a parameter.
    ParamPattern { method: usize, param: usize },
    /// The type of a parameter.
    ParamType { method: usize, param: usize },
    /// An argument in the angle brackets of the last path segment of the first
    /// parameter's type.
    ContextArg { arg: usize },
    /// The return type with its arrow, as far as one is written.
    Return { method: usize },
    /// The return type.
    ReturnType { method: usize },
    /// The body, rewritten if it is a method's.
    Body { method: usize },
    /// An argument of a call.
    Argument { index: usize },
}

/// A piece of generated code.
pub enum Piece {
    /// Tokens, with balanced delimiters.
    Text(&'static str),
    /// A generated identifier.
    Name(String),
    /// The start of a group.
    Open(Delimiter),
    /// The end of a group.
    Close(Delimiter),
    /// A part of the annotated item.
    Splice(Fragment),
    /// A compile error that points at a part of the annotated item.
    Error { at: Fragment, message: &'static str },
}

/// A piece of generated code, as contracts speak of it.
pub enum PieceView {
    Text(Seq<char>),
    Name(Seq<char>),
    Open(Delimiter),
    Close(Delimiter),
    Splice(Fragment),
    Error { at: Fragment, message: Seq<char> },
}

impl View for Piece {
    type V = PieceView;

    open spec fn view(&self) -> PieceView {
        match self {
            Piece::Text(text) => PieceView::Text(text@),
            Piece::Name(name) => PieceView::Name(name@),
            Piece::Open(delimiter) => PieceView::Open(*delimiter),
            Piece::Close(delimiter) => PieceView::Close(*delimiter),
            Piece::Splice(fragment) => PieceView::Splice(*fragment),
            Piece::Error { at, message } => PieceView::Error { at: *at, message: message@ },
        }
    }
}

/// Some tokens.
pub open spec fn text(text: Seq<char>) -> Seq<PieceView> {
    seq![PieceView::Text(text)]
}

/// A generated identifier.
pub open spec fn name(name: Seq<char>) -> Seq<PieceView> {
    seq![PieceView::Name(name)]
}

/// A part of the annotated item.
pub open spec fn splice(fragment: Fragment) -> Seq<PieceView> {
    seq![PieceView::Splice(fragment)]
}

/// `inner`, delimited.
pub open spec fn group(delimiter: Delimiter, inner: Seq<PieceView>) -> Seq<PieceView> {
    seq![PieceView::Open(delimiter)] + inner + seq![PieceView::Close(delimiter)]
}

/// `list` with commas in between.
pub open spec fn commas(list: Seq<PieceView>) -> Seq<PieceView>
    decreases list.len(),
{
    if list.len() <= 1 {
        list
    } else {
        commas(list.drop_last()) + text(","@) + seq![list.last()]
    }
}

/// Generated code.
pub struct Tokens {
    pub pieces: Vec<Piece>,
}

impl View for Tokens {
    type V = Seq<PieceView>;

    open spec fn view(&self) -> Seq<PieceView> {
        self.pieces@.map_values(|piece: Piece| piece@)
    }
}

impl Tokens {
    /// No code.
    pub fn new() -> (tokens: Tokens)
        ensures
            tokens@ == Seq::<PieceView>::empty(),
    {
        let tokens: Tokens = Tokens { pieces: Vec::new() };
        assert(tokens@ =~= Seq::<PieceView>::empty());
        tokens
    }

    /// Code that starts with `start`.
    pub fn text(start: &'static str) -> (tokens: Tokens)
        ensures
            tokens@ == text(start@),
    {
        let tokens: Tokens = Tokens::new().with_piece(Piece::Text(start));
        assert(tokens@ =~= text(start@));
        tokens
    }

    /// Code that starts with a part of the annotated item.
    pub fn splice(start: Fragment) -> (tokens: Tokens)
        ensures
            tokens@ == splice(start),
    {
        let tokens: Tokens = Tokens::new().with_piece(Piece::Splice(start));
        assert(tokens@ =~= splice(start));
        tokens
    }

    /// Code that starts with a generated identifier.
    pub fn name(start: &String) -> (tokens: Tokens)
        ensures
            tokens@ == name(start@),
    {
        let tokens: Tokens = Tokens::new().with_piece(Piece::Name(start.clone()));
        assert(tokens@ =~= name(start@));
        tokens
    }

    /// One more piece.
    pub fn with_piece(self, piece: Piece) -> (tokens: Tokens)
        ensures
            tokens@ == self@ + seq![piece@],
    {
        let mut pieces: Vec<Piece> = self.pieces;
        pieces.push(piece);
        let tokens: Tokens = Tokens { pieces };
        assert(tokens@ =~= self@ + seq![piece@]);
        tokens
    }

    /// Some tokens behind.
    pub fn with_text(self, next: &'static str) -> (tokens: Tokens)
        ensures
            tokens@ == self@ + text(next@),
    {
        self.with_piece(Piece::Text(next))
    }

    /// A generated identifier behind.
    pub fn with_name(self, next: &String) -> (tokens: Tokens)
        ensures
            tokens@ == self@ + name(next@),
    {
        self.with_piece(Piece::Name(next.clone()))
    }

    /// A part of the annotated item behind.
    pub fn with_splice(self, next: Fragment) -> (tokens: Tokens)
        ensures
            tokens@ == self@ + splice(next),
    {
        self.with_piece(Piece::Splice(next))
    }

    /// More code behind.
    pub fn with(self, next: Tokens) -> (tokens: Tokens)
        ensures
            tokens@ == self@ + next@,
    {
        let mut pieces: Vec<Piece> = self.pieces;
        let mut more: Vec<Piece> = next.pieces;
        pieces.append(&mut more);
        let tokens: Tokens = Tokens { pieces };
        assert(tokens@ =~= self@ + next@);
        tokens
    }

    /// A group behind.
    pub fn with_group(self, delimiter: Delimiter, inner: Tokens) -> (tokens: Tokens)
        ensures
            tokens@ == self@ + group(delimiter, inner@),
    {
        let tokens: Tokens = self.with_piece(Piece::Open(delimiter)).with(inner).with_piece(
            Piece::Close(delimiter),
        );
        assert(tokens@ =~= self@ + group(delimiter, inner@));
        tokens
    }

    /// The pieces of `list`, with commas in between.
    pub fn commas(list: Tokens) -> (tokens: Tokens)
        ensures
            tokens@ == commas(list@),
        decreases list.pieces@.len(),
    {
        let mut pieces: Vec<Piece> = list.pieces;
        if pieces.len() <= 1 {
            return Tokens { pieces };
        }
        match pieces.pop() {
            Some(last) => {
                let rest: Tokens = Tokens { pieces };
                assert(rest@ =~= list@.drop_last());
                assert(last@ == list@.last());
                Tokens::commas(rest).with_text(",").with_piece(last)
            },
            None => Tokens { pieces },
        }
    }
}

} // verus!
