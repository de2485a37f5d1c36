//! Names of remotes, bookmarks and refs, and what the commands write about commits.

use vstd::prelude::*;

use crate::ids::CommitId;

verus! {

/// A name together with its symbol, the form in which messages show it: quoted where the name
/// could be misread.
#[derive(Debug, PartialEq, Eq)]
pub struct Name {
    pub name: String,
    pub symbol: String,
}

/// [`Name`] with its texts as sequences of characters.
pub struct NameView {
    pub name: Seq<char>,
    pub symbol: Seq<char>,
}

impl View for Name {
    type V = NameView;

    open spec fn view(&self) -> NameView {
        NameView { name: self.name@, symbol: self.symbol@ }
    }
}

impl Clone for Name {
    fn clone(&self) -> (copy: Self)
        ensures
            copy == *self,
    {
        Name { name: self.name.clone(), symbol: self.symbol.clone() }
    }
}

/// The texts of a name that may be missing.
pub open spec fn opt_name(name: Option<Name>) -> Option<NameView> {
    match name {
        Some(name) => Some(name@),
        None => None,
    }
}

/// A part of a status message: text as it stands, or the summary of a commit.
#[derive(Debug, PartialEq, Eq)]
pub enum Piece {
    Text(String),
    Summary(CommitId),
}

/// [`Piece`] with its text as a sequence of characters and its ID as bytes.
pub enum PieceView {
    Text(Seq<char>),
    Summary(Seq<u8>),
}

impl View for Piece {
    type V = PieceView;

    open spec fn view(&self) -> PieceView {
        match *self {
            Piece::Text(text) => PieceView::Text(text@),
            Piece::Summary(id) => PieceView::Summary(id@),
        }
    }
}

/// The parts of a status message.
pub open spec fn pieces_view(pieces: Seq<Piece>) -> Seq<PieceView> {
    pieces.map_values(|p: Piece| p@)
}

/// A status line: `before`, the summary of the commit, `after`.
pub open spec fn summary_line(before: Seq<char>, commit: Seq<u8>, after: Seq<char>) -> Seq<
    PieceView,
> {
    seq![PieceView::Text(before), PieceView::Summary(commit), PieceView::Text(after)]
}

/// Makes a status line of a text, the summary of a commit, and another text.
pub fn make_summary_line(before: String, commit: &CommitId, after: String) -> (pieces: Vec<Piece>)
    ensures
        pieces_view(pieces@) == summary_line(before@, commit@, after@),
{
    let mut pieces: Vec<Piece> = Vec::new();
    pieces.push(Piece::Text(before));
    pieces.push(Piece::Summary(commit.clone()));
    pieces.push(Piece::Text(after));
    assert(pieces_view(pieces@) =~= summary_line(before@, commit@, after@));
    pieces
}

/// A status line is a text, the summary of a commit, and another text.
pub proof fn law_summary_line(before: Seq<char>, commit: Seq<u8>, after: Seq<char>)
    ensures
        summary_line(before, commit, after).len() == 3,
        summary_line(before, commit, after)[0] == PieceView::Text(before),
        summary_line(before, commit, after)[1] == PieceView::Summary(commit),
        summary_line(before, commit, after)[2] == PieceView::Text(after),
{
}

} // verus!
