//! The reactions the bot offers and recognises on its messages.
use vstd::prelude::*;

verus! {

/// The reactions used by the bot.
#[derive(Debug, PartialEq, Clone)]
pub enum Reactions {
    Entry,
    ModEntry,
    Confirm,
    Stop,
    NextPage,
    PreviousPage,
    Custom(String),
}

/// A reaction as plain values.
pub enum ReactionView {
    Entry,
    ModEntry,
    Confirm,
    Stop,
    NextPage,
    PreviousPage,
    Custom(Seq<char>),
}

impl View for Reactions {
    type V = ReactionView;

    open spec fn view(&self) -> ReactionView {
        match self {
            Reactions::Entry => ReactionView::Entry,
            Reactions::ModEntry => ReactionView::ModEntry,
            Reactions::Confirm => ReactionView::Confirm,
            Reactions::Stop => ReactionView::Stop,
            Reactions::NextPage => ReactionView::NextPage,
            Reactions::PreviousPage => ReactionView::PreviousPage,
            Reactions::Custom(s) => ReactionView::Custom(s@),
        }
    }
}

/// The emoji text of a reaction.
pub open spec fn reaction_text(r: ReactionView) -> Seq<char> {
    match r {
        ReactionView::Entry => "\u{2705}"@,
        ReactionView::ModEntry => "\u{1f1f2}"@,
        ReactionView::Confirm => "\u{1f197}"@,
        ReactionView::Stop => "\u{1f6d1}"@,
        ReactionView::NextPage => "\u{1f449}"@,
        ReactionView::PreviousPage => "\u{1f448}"@,
        ReactionView::Custom(s) => s,
    }
}

impl Reactions {
    /// The emoji text of this reaction.
    pub fn to_str(&self) -> (r: &str)
        ensures
            r@ == reaction_text(self@),
    {
        match self {
            Reactions::Entry => "\u{2705}",
            Reactions::ModEntry => "\u{1f1f2}",
            Reactions::Confirm => "\u{1f197}",
            Reactions::Stop => "\u{1f6d1}",
            Reactions::NextPage => "\u{1f449}",
            Reactions::PreviousPage => "\u{1f448}",
            Reactions::Custom(val) => val.as_str(),
        }
    }

    /// Whether `emoji` is this reaction's emoji.
    pub fn matches_emoji(&self, emoji: &String) -> (b: bool)
        ensures
            b == (emoji@ == reaction_text(self@)),
    {
        let own = self.to_str().to_owned();
        own == *emoji
    }
}

} // verus!
