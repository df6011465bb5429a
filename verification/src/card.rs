//! The identity a task carries: which game or component it belongs to,
//! and the display metadata derived from it.

use vstd::prelude::*;
use vstd::string::StringExecFns;

verus! {

/// Identifier correlating a task to a specific game or component across
/// the queue, the presentation layer and the caller's bookkeeping sets.
#[derive(Debug, Clone, Copy, PartialEq, Eq, Structural)]
pub enum CardVariant {
    Genshin,
    Wine,
    Dxvk,
    WinePrefix,
}

impl CardVariant {
    /// Default display title of the variant.
    pub open spec fn title_spec(self) -> Seq<char> {
        match self {
            CardVariant::Genshin => "Genshin Impact"@,
            CardVariant::Wine => "Wine"@,
            CardVariant::Dxvk => "DXVK"@,
            CardVariant::WinePrefix => "Wine prefix"@,
        }
    }

    /// Default display author of the variant.
    pub open spec fn author_spec(self) -> Seq<char> {
        match self {
            CardVariant::Genshin => "HoYoverse"@,
            CardVariant::Wine => "Wine-GE"@,
            CardVariant::Dxvk => "doitsujin"@,
            CardVariant::WinePrefix => "Wine-GE"@,
        }
    }

    /// Get the variant's display title.
    pub fn get_title(&self) -> (r: String)
        ensures
            r@ == self.title_spec(),
    {
        match self {
            CardVariant::Genshin => String::from_str("Genshin Impact"),
            CardVariant::Wine => String::from_str("Wine"),
            CardVariant::Dxvk => String::from_str("DXVK"),
            CardVariant::WinePrefix => String::from_str("Wine prefix"),
        }
    }

    /// Get the variant's display author.
    pub fn get_author(&self) -> (r: String)
        ensures
            r@ == self.author_spec(),
    {
        match self {
            CardVariant::Genshin => String::from_str("HoYoverse"),
            CardVariant::Wine => String::from_str("Wine-GE"),
            CardVariant::Dxvk => String::from_str("doitsujin"),
            CardVariant::WinePrefix => String::from_str("Wine-GE"),
        }
    }
}

} // verus!
