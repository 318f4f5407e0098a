//! The kind of a bundle.

use crate::error::{ValueError, ValueErrorView};
use crate::scalar::TextValue;
use vstd::prelude::*;
use vstd::string::StringExecFns;

verus! {

/// What a bundle holds. The text form of a kind is the name of its variant.
#[derive(Clone, Copy, Debug, PartialEq, Eq, Structural)]
pub enum BundleType {
    Game,
    Application,
    LauncherOnly,
}

impl View for BundleType {
    type V = BundleType;

    open spec fn view(&self) -> BundleType {
        *self
    }
}

/// The name of a kind.
pub open spec fn kind_text(kind: BundleType) -> Seq<char> {
    match kind {
        BundleType::Game => "Game"@,
        BundleType::Application => "Application"@,
        BundleType::LauncherOnly => "LauncherOnly"@,
    }
}

/// The kind that a text names: the three names are matched exactly, and any
/// other text is refused.
pub open spec fn parse_kind(text: Seq<char>) -> Result<BundleType, ValueErrorView> {
    if text == "Game"@ {
        Ok(BundleType::Game)
    } else if text == "Application"@ {
        Ok(BundleType::Application)
    } else if text == "LauncherOnly"@ {
        Ok(BundleType::LauncherOnly)
    } else {
        Err(ValueErrorView::InvalidKind { text })
    }
}

/// The name of a kind names that kind.
pub proof fn lemma_kind_round_trip(kind: BundleType)
    ensures
        parse_kind(kind_text(kind)) == Ok::<BundleType, ValueErrorView>(kind),
{
    reveal_strlit("Game");
    reveal_strlit("Application");
    reveal_strlit("LauncherOnly");
    assert("Game"@.len() == 4);
    assert("Application"@.len() == 11);
    assert("LauncherOnly"@.len() == 12);
}

impl BundleType {
    /// The name of the kind.
    pub fn name(&self) -> (name: &'static str)
        ensures
            name@ == kind_text(*self),
    {
        match self {
            BundleType::Game => "Game",
            BundleType::Application => "Application",
            BundleType::LauncherOnly => "LauncherOnly",
        }
    }
}

impl TextValue for BundleType {
    open spec fn parse_spec(text: Seq<char>) -> Result<BundleType, ValueErrorView> {
        parse_kind(text)
    }

    open spec fn text_spec(value: BundleType) -> Seq<char> {
        kind_text(value)
    }

    fn from_text(text: &str) -> (r: Result<BundleType, ValueError>) {
        if text.eq("Game") {
            Ok(BundleType::Game)
        } else if text.eq("Application") {
            Ok(BundleType::Application)
        } else if text.eq("LauncherOnly") {
            Ok(BundleType::LauncherOnly)
        } else {
            Err(ValueError::InvalidKind { text: String::from_str(text) })
        }
    }

    fn to_text(&self) -> (text: String) {
        String::from_str(self.name())
    }

    proof fn lemma_round_trip(value: BundleType) {
        lemma_kind_round_trip(value);
    }
}

} // verus!
