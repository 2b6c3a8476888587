//! The legacy font catalog: a fixed, ordered table from legacy font names to
//! the family, weight and style that each stands for.
//!
//! Names are unique in the table and compared letter for letter. One name,
//! `Unknown`, is reserved: it is in the table without a mapping, and so
//! resolves to nothing, as a name that is not in the table at all.

use vstd::prelude::*;
use vstd::string::StringExecFns;

use crate::font::{FontDescriptor, FontView};
use crate::style::StyleKind;
use crate::text::str_eq;
use crate::weight::WeightScale;

verus! {

/// The number of rows of the catalog.
pub const CATALOG_LEN: usize = 47;

/// What a legacy name stands for.
#[derive(Debug, Clone, Copy)]
pub struct LegacyMapping {
    pub family: &'static str,
    pub weight: WeightScale,
    pub style: StyleKind,
}

/// One row of the catalog: a legacy name and, unless the name is reserved,
/// what it stands for.
#[derive(Debug, Clone, Copy)]
pub struct LegacyEntry {
    pub name: &'static str,
    pub mapping: Option<LegacyMapping>,
}

/// What a [`LegacyEntry`] is, with text as sequences of characters.
pub struct LegacyEntryView {
    pub name: Seq<char>,
    pub mapping: Option<FontView>,
}

impl View for LegacyMapping {
    type V = FontView;

    open spec fn view(&self) -> FontView {
        FontView { family: self.family@, weight: self.weight, style: self.style }
    }
}

impl View for LegacyEntry {
    type V = LegacyEntryView;

    open spec fn view(&self) -> LegacyEntryView {
        LegacyEntryView {
            name: self.name@,
            mapping: match self.mapping {
                Some(mapping) => Some(mapping@),
                None => None,
            },
        }
    }
}

/// A row with a mapping.
pub open spec fn spec_mapped(
    name: Seq<char>,
    family: Seq<char>,
    weight: WeightScale,
    style: StyleKind,
) -> LegacyEntryView {
    LegacyEntryView { name, mapping: Some(FontView { family, weight, style }) }
}

/// A row for a reserved name.
pub open spec fn spec_reserved(name: Seq<char>) -> LegacyEntryView {
    LegacyEntryView { name, mapping: None }
}

/// The row at `index`, for an index below [`CATALOG_LEN`].
pub open spec fn spec_entry(index: int) -> LegacyEntryView {
    if index == 0 {
        spec_mapped(
            "Legacy"@,
            "rbxasset://fonts/families/LegacyArial.json"@,
            WeightScale::Regular,
            StyleKind::Normal,
        )
    } else if index == 1 {
        spec_mapped(
            "Arial"@,
            "rbxasset://fonts/families/Arial.json"@,
            WeightScale::Regular,
            StyleKind::Normal,
        )
    } else if index == 2 {
        spec_mapped(
            "ArialBold"@,
            "rbxasset://fonts/families/Arial.json"@,
            WeightScale::Bold,
            StyleKind::Normal,
        )
    } else if index == 3 {
        spec_mapped(
            "SourceSans"@,
            "rbxasset://fonts/families/SourceSansPro.json"@,
            WeightScale::Regular,
            StyleKind::Normal,
        )
    } else if index == 4 {
        spec_mapped(
            "SourceSansBold"@,
            "rbxasset://fonts/families/SourceSansPro.json"@,
            WeightScale::Bold,
            StyleKind::Normal,
        )
    } else if index == 5 {
        spec_mapped(
            "SourceSansSemibold"@,
            "rbxasset://fonts/families/SourceSansPro.json"@,
            WeightScale::SemiBold,
            StyleKind::Normal,
        )
    } else if index == 6 {
        spec_mapped(
            "SourceSansLight"@,
            "rbxasset://fonts/families/SourceSansPro.json"@,
            WeightScale::Light,
            StyleKind::Normal,
        )
    } else if index == 7 {
        spec_mapped(
            "SourceSansItalic"@,
            "rbxasset://fonts/families/SourceSansPro.json"@,
            WeightScale::Regular,
            StyleKind::Italic,
        )
    } else if index == 8 {
        spec_mapped(
            "Bodoni"@,
            "rbxasset://fonts/families/AccanthisADFStd.json"@,
            WeightScale::Regular,
            StyleKind::Normal,
        )
    } else if index == 9 {
        spec_mapped(
            "Garamond"@,
            "rbxasset://fonts/families/Guru.json"@,
            WeightScale::Regular,
            StyleKind::Normal,
        )
    } else if index == 10 {
        spec_mapped(
            "Cartoon"@,
            "rbxasset://fonts/families/ComicNeueAngular.json"@,
            WeightScale::Regular,
            StyleKind::Normal,
        )
    } else if index == 11 {
        spec_mapped(
            "Code"@,
            "rbxasset://fonts/families/Inconsolata.json"@,
            WeightScale::Regular,
            StyleKind::Normal,
        )
    } else if index == 12 {
        spec_mapped(
            "Highway"@,
            "rbxasset://fonts/families/HighwayGothic.json"@,
            WeightScale::Regular,
            StyleKind::Normal,
        )
    } else if index == 13 {
        spec_mapped(
            "SciFi"@,
            "rbxasset://fonts/families/Zekton.json"@,
            WeightScale::Regular,
            StyleKind::Normal,
        )
    } else if index == 14 {
        spec_mapped(
            "Arcade"@,
            "rbxasset://fonts/families/PressStart2P.json"@,
            WeightScale::Regular,
            StyleKind::Normal,
        )
    } else if index == 15 {
        spec_mapped(
            "Fantasy"@,
            "rbxasset://fonts/families/Balthazar.json"@,
            WeightScale::Regular,
            StyleKind::Normal,
        )
    } else if index == 16 {
        spec_mapped(
            "Antique"@,
            "rbxasset://fonts/families/RomanAntique.json"@,
            WeightScale::Regular,
            StyleKind::Normal,
        )
    } else if index == 17 {
        spec_mapped(
            "Gotham"@,
            "rbxasset://fonts/families/GothamSSm.json"@,
            WeightScale::Regular,
            StyleKind::Normal,
        )
    } else if index == 18 {
        spec_mapped(
            "GothamMedium"@,
            "rbxasset://fonts/families/GothamSSm.json"@,
            WeightScale::Medium,
            StyleKind::Normal,
        )
    } else if index == 19 {
        spec_mapped(
            "GothamBold"@,
            "rbxasset://fonts/families/GothamSSm.json"@,
            WeightScale::Bold,
            StyleKind::Normal,
        )
    } else if index == 20 {
        spec_mapped(
            "GothamBlack"@,
            "rbxasset://fonts/families/GothamSSm.json"@,
            WeightScale::Heavy,
            StyleKind::Normal,
        )
    } else if index == 21 {
        spec_mapped(
            "AmaticSC"@,
            "rbxasset://fonts/families/AmaticSC.json"@,
            WeightScale::Regular,
            StyleKind::Normal,
        )
    } else if index == 22 {
        spec_mapped(
            "Bangers"@,
            "rbxasset://fonts/families/Bangers.json"@,
            WeightScale::Regular,
            StyleKind::Normal,
        )
    } else if index == 23 {
        spec_mapped(
            "Creepster"@,
            "rbxasset://fonts/families/Creepster.json"@,
            WeightScale::Regular,
            StyleKind::Normal,
        )
    } else if index == 24 {
        spec_mapped(
            "DenkOne"@,
            "rbxasset://fonts/families/DenkOne.json"@,
            WeightScale::Regular,
            StyleKind::Normal,
        )
    } else if index == 25 {
        spec_mapped(
            "Fondamento"@,
            "rbxasset://fonts/families/Fondamento.json"@,
            WeightScale::Regular,
            StyleKind::Normal,
        )
    } else if index == 26 {
        spec_mapped(
            "FredokaOne"@,
            "rbxasset://fonts/families/FredokaOne.json"@,
            WeightScale::Regular,
            StyleKind::Normal,
        )
    } else if index == 27 {
        spec_mapped(
            "GrenzeGotisch"@,
            "rbxasset://fonts/families/GrenzeGotisch.json"@,
            WeightScale::Regular,
            StyleKind::Normal,
        )
    } else if index == 28 {
        spec_mapped(
            "IndieFlower"@,
            "rbxasset://fonts/families/IndieFlower.json"@,
            WeightScale::Regular,
            StyleKind::Normal,
        )
    } else if index == 29 {
        spec_mapped(
            "JosefinSans"@,
            "rbxasset://fonts/families/JosefinSans.json"@,
            WeightScale::Regular,
            StyleKind::Normal,
        )
    } else if index == 30 {
        spec_mapped(
            "Jura"@,
            "rbxasset://fonts/families/Jura.json"@,
            WeightScale::Regular,
            StyleKind::Normal,
        )
    } else if index == 31 {
        spec_mapped(
            "Kalam"@,
            "rbxasset://fonts/families/Kalam.json"@,
            WeightScale::Regular,
            StyleKind::Normal,
        )
    } else if index == 32 {
        spec_mapped(
            "LuckiestGuy"@,
            "rbxasset://fonts/families/LuckiestGuy.json"@,
            WeightScale::Regular,
            StyleKind::Normal,
        )
    } else if index == 33 {
        spec_mapped(
            "Merriweather"@,
            "rbxasset://fonts/families/Merriweather.json"@,
            WeightScale::Regular,
            StyleKind::Normal,
        )
    } else if index == 34 {
        spec_mapped(
            "Michroma"@,
            "rbxasset://fonts/families/Michroma.json"@,
            WeightScale::Regular,
            StyleKind::Normal,
        )
    } else if index == 35 {
        spec_mapped(
            "Nunito"@,
            "rbxasset://fonts/families/Nunito.json"@,
            WeightScale::Regular,
            StyleKind::Normal,
        )
    } else if index == 36 {
        spec_mapped(
            "Oswald"@,
            "rbxasset://fonts/families/Oswald.json"@,
            WeightScale::Regular,
            StyleKind::Normal,
        )
    } else if index == 37 {
        spec_mapped(
            "PatrickHand"@,
            "rbxasset://fonts/families/PatrickHand.json"@,
            WeightScale::Regular,
            StyleKind::Normal,
        )
    } else if index == 38 {
        spec_mapped(
            "PermanentMarker"@,
            "rbxasset://fonts/families/PermanentMarker.json"@,
            WeightScale::Regular,
            StyleKind::Normal,
        )
    } else if index == 39 {
        spec_mapped(
            "Roboto"@,
            "rbxasset://fonts/families/Roboto.json"@,
            WeightScale::Regular,
            StyleKind::Normal,
        )
    } else if index == 40 {
        spec_mapped(
            "RobotoCondensed"@,
            "rbxasset://fonts/families/RobotoCondensed.json"@,
            WeightScale::Regular,
            StyleKind::Normal,
        )
    } else if index == 41 {
        spec_mapped(
            "RobotoMono"@,
            "rbxasset://fonts/families/RobotoMono.json"@,
            WeightScale::Regular,
            StyleKind::Normal,
        )
    } else if index == 42 {
        spec_mapped(
            "Sarpanch"@,
            "rbxasset://fonts/families/Sarpanch.json"@,
            WeightScale::Regular,
            StyleKind::Normal,
        )
    } else if index == 43 {
        spec_mapped(
            "SpecialElite"@,
            "rbxasset://fonts/families/SpecialElite.json"@,
            WeightScale::Regular,
            StyleKind::Normal,
        )
    } else if index == 44 {
        spec_mapped(
            "TitilliumWeb"@,
            "rbxasset://fonts/families/TitilliumWeb.json"@,
            WeightScale::Regular,
            StyleKind::Normal,
        )
    } else if index == 45 {
        spec_mapped(
            "Ubuntu"@,
            "rbxasset://fonts/families/Ubuntu.json"@,
            WeightScale::Regular,
            StyleKind::Normal,
        )
    } else {
        spec_reserved("Unknown"@)
    }
}

/// The catalog, in order.
pub open spec fn spec_catalog() -> Seq<LegacyEntryView> {
    Seq::new(CATALOG_LEN as nat, |index: int| spec_entry(index))
}

/// Whether the row at `index` carries `name` and a mapping.
pub open spec fn resolves_at(name: Seq<char>, index: int) -> bool {
    &&& 0 <= index < spec_catalog().len()
    &&& spec_catalog()[index].name == name
    &&& spec_catalog()[index].mapping is Some
}

/// Whether `index` is the first row that carries `name` and a mapping.
pub open spec fn first_resolves_at(name: Seq<char>, index: int) -> bool {
    &&& resolves_at(name, index)
    &&& forall|earlier: int| 0 <= earlier < index ==> !resolves_at(name, earlier)
}

/// What a legacy name resolves to: the mapping of the first row that carries
/// the name and a mapping; nothing where there is no such row.
pub open spec fn spec_resolve(name: Seq<char>) -> Option<FontView> {
    if exists|index: int| first_resolves_at(name, index) {
        spec_catalog()[choose|index: int| first_resolves_at(name, index)].mapping
    } else {
        None
    }
}

fn mapped(
    name: &'static str,
    family: &'static str,
    weight: WeightScale,
    style: StyleKind,
) -> (entry: LegacyEntry)
    ensures
        entry@ == spec_mapped(name@, family@, weight, style),
{
    LegacyEntry { name, mapping: Some(LegacyMapping { family, weight, style }) }
}

fn reserved(name: &'static str) -> (entry: LegacyEntry)
    ensures
        entry@ == spec_reserved(name@),
{
    LegacyEntry { name, mapping: None }
}

/// The row of the catalog at `index`; `None` from [`CATALOG_LEN`] on.
pub fn catalog_entry(index: usize) -> (entry: Option<LegacyEntry>)
    ensures
        match entry {
            Some(row) => index < CATALOG_LEN && row@ == spec_catalog()[index as int],
            None => index >= CATALOG_LEN,
        },
{
    let entry = match index {
        0 => mapped(
            "Legacy",
            "rbxasset://fonts/families/LegacyArial.json",
            WeightScale::Regular,
            StyleKind::Normal,
        ),
        1 => mapped(
            "Arial",
            "rbxasset://fonts/families/Arial.json",
            WeightScale::Regular,
            StyleKind::Normal,
        ),
        2 => mapped(
            "ArialBold",
            "rbxasset://fonts/families/Arial.json",
            WeightScale::Bold,
            StyleKind::Normal,
        ),
        3 => mapped(
            "SourceSans",
            "rbxasset://fonts/families/SourceSansPro.json",
            WeightScale::Regular,
            StyleKind::Normal,
        ),
        4 => mapped(
            "SourceSansBold",
            "rbxasset://fonts/families/SourceSansPro.json",
            WeightScale::Bold,
            StyleKind::Normal,
        ),
        5 => mapped(
            "SourceSansSemibold",
            "rbxasset://fonts/families/SourceSansPro.json",
            WeightScale::SemiBold,
            StyleKind::Normal,
        ),
        6 => mapped(
            "SourceSansLight",
            "rbxasset://fonts/families/SourceSansPro.json",
            WeightScale::Light,
            StyleKind::Normal,
        ),
        7 => mapped(
            "SourceSansItalic",
            "rbxasset://fonts/families/SourceSansPro.json",
            WeightScale::Regular,
            StyleKind::Italic,
        ),
        8 => mapped(
            "Bodoni",
            "rbxasset://fonts/families/AccanthisADFStd.json",
            WeightScale::Regular,
            StyleKind::Normal,
        ),
        9 => mapped(
            "Garamond",
            "rbxasset://fonts/families/Guru.json",
            WeightScale::Regular,
            StyleKind::Normal,
        ),
        10 => mapped(
            "Cartoon",
            "rbxasset://fonts/families/ComicNeueAngular.json",
            WeightScale::Regular,
            StyleKind::Normal,
        ),
        11 => mapped(
            "Code",
            "rbxasset://fonts/families/Inconsolata.json",
            WeightScale::Regular,
            StyleKind::Normal,
        ),
        12 => mapped(
            "Highway",
            "rbxasset://fonts/families/HighwayGothic.json",
            WeightScale::Regular,
            StyleKind::Normal,
        ),
        13 => mapped(
            "SciFi",
            "rbxasset://fonts/families/Zekton.json",
            WeightScale::Regular,
            StyleKind::Normal,
        ),
        14 => mapped(
            "Arcade",
            "rbxasset://fonts/families/PressStart2P.json",
            WeightScale::Regular,
            StyleKind::Normal,
        ),
        15 => mapped(
            "Fantasy",
            "rbxasset://fonts/families/Balthazar.json",
            WeightScale::Regular,
            StyleKind::Normal,
        ),
        16 => mapped(
            "Antique",
            "rbxasset://fonts/families/RomanAntique.json",
            WeightScale::Regular,
            StyleKind::Normal,
        ),
        17 => mapped(
            "Gotham",
            "rbxasset://fonts/families/GothamSSm.json",
            WeightScale::Regular,
            StyleKind::Normal,
        ),
        18 => mapped(
            "GothamMedium",
            "rbxasset://fonts/families/GothamSSm.json",
            WeightScale::Medium,
            StyleKind::Normal,
        ),
        19 => mapped(
            "GothamBold",
            "rbxasset://fonts/families/GothamSSm.json",
            WeightScale::Bold,
            StyleKind::Normal,
        ),
        20 => mapped(
            "GothamBlack",
            "rbxasset://fonts/families/GothamSSm.json",
            WeightScale::Heavy,
            StyleKind::Normal,
        ),
        21 => mapped(
            "AmaticSC",
            "rbxasset://fonts/families/AmaticSC.json",
            WeightScale::Regular,
            StyleKind::Normal,
        ),
        22 => mapped(
            "Bangers",
            "rbxasset://fonts/families/Bangers.json",
            WeightScale::Regular,
            StyleKind::Normal,
        ),
        23 => mapped(
            "Creepster",
            "rbxasset://fonts/families/Creepster.json",
            WeightScale::Regular,
            StyleKind::Normal,
        ),
        24 => mapped(
            "DenkOne",
            "rbxasset://fonts/families/DenkOne.json",
            WeightScale::Regular,
            StyleKind::Normal,
        ),
        25 => mapped(
            "Fondamento",
            "rbxasset://fonts/families/Fondamento.json",
            WeightScale::Regular,
            StyleKind::Normal,
        ),
        26 => mapped(
            "FredokaOne",
            "rbxasset://fonts/families/FredokaOne.json",
            WeightScale::Regular,
            StyleKind::Normal,
        ),
        27 => mapped(
            "GrenzeGotisch",
            "rbxasset://fonts/families/GrenzeGotisch.json",
            WeightScale::Regular,
            StyleKind::Normal,
        ),
        28 => mapped(
            "IndieFlower",
            "rbxasset://fonts/families/IndieFlower.json",
            WeightScale::Regular,
            StyleKind::Normal,
        ),
        29 => mapped(
            "JosefinSans",
            "rbxasset://fonts/families/JosefinSans.json",
            WeightScale::Regular,
            StyleKind::Normal,
        ),
        30 => mapped(
            "Jura",
            "rbxasset://fonts/families/Jura.json",
            WeightScale::Regular,
            StyleKind::Normal,
        ),
        31 => mapped(
            "Kalam",
            "rbxasset://fonts/families/Kalam.json",
            WeightScale::Regular,
            StyleKind::Normal,
        ),
        32 => mapped(
            "LuckiestGuy",
            "rbxasset://fonts/families/LuckiestGuy.json",
            WeightScale::Regular,
            StyleKind::Normal,
        ),
        33 => mapped(
            "Merriweather",
            "rbxasset://fonts/families/Merriweather.json",
            WeightScale::Regular,
            StyleKind::Normal,
        ),
        34 => mapped(
            "Michroma",
            "rbxasset://fonts/families/Michroma.json",
            WeightScale::Regular,
            StyleKind::Normal,
        ),
        35 => mapped(
            "Nunito",
            "rbxasset://fonts/families/Nunito.json",
            WeightScale::Regular,
            StyleKind::Normal,
        ),
        36 => mapped(
            "Oswald",
            "rbxasset://fonts/families/Oswald.json",
            WeightScale::Regular,
            StyleKind::Normal,
        ),
        37 => mapped(
            "PatrickHand",
            "rbxasset://fonts/families/PatrickHand.json",
            WeightScale::Regular,
            StyleKind::Normal,
        ),
        38 => mapped(
            "PermanentMarker",
            "rbxasset://fonts/families/PermanentMarker.json",
            WeightScale::Regular,
            StyleKind::Normal,
        ),
        39 => mapped(
            "Roboto",
            "rbxasset://fonts/families/Roboto.json",
            WeightScale::Regular,
            StyleKind::Normal,
        ),
        40 => mapped(
            "RobotoCondensed",
            "rbxasset://fonts/families/RobotoCondensed.json",
            WeightScale::Regular,
            StyleKind::Normal,
        ),
        41 => mapped(
            "RobotoMono",
            "rbxasset://fonts/families/RobotoMono.json",
            WeightScale::Regular,
            StyleKind::Normal,
        ),
        42 => mapped(
            "Sarpanch",
            "rbxasset://fonts/families/Sarpanch.json",
            WeightScale::Regular,
            StyleKind::Normal,
        ),
        43 => mapped(
            "SpecialElite",
            "rbxasset://fonts/families/SpecialElite.json",
            WeightScale::Regular,
            StyleKind::Normal,
        ),
        44 => mapped(
            "TitilliumWeb",
            "rbxasset://fonts/families/TitilliumWeb.json",
            WeightScale::Regular,
            StyleKind::Normal,
        ),
        45 => mapped(
            "Ubuntu",
            "rbxasset://fonts/families/Ubuntu.json",
            WeightScale::Regular,
            StyleKind::Normal,
        ),
        46 => reserved("Unknown"),
        _ => {
            return None;
        },
    };
    Some(entry)
}

/// Resolves a legacy name: a scan of the catalog from its first row for a
/// row that carries the name and a mapping.
pub fn resolve(name: &str) -> (found: Option<FontDescriptor>)
    ensures
        match found {
            Some(font) => spec_resolve(name@) == Some(font@),
            None => spec_resolve(name@) is None,
        },
{
    let mut index: usize = 0;
    while index < CATALOG_LEN
        invariant
            index <= CATALOG_LEN,
            forall|earlier: int| 0 <= earlier < index ==> !resolves_at(name@, earlier),
        decreases CATALOG_LEN - index,
    {
        if let Some(entry) = catalog_entry(index) {
            if str_eq(entry.name, name) {
                if let Some(mapping) = entry.mapping {
                    proof {
                        assert(first_resolves_at(name@, index as int));
                        lemma_first_is_unique(
                            name@,
                            index as int,
                            choose|first: int| first_resolves_at(name@, first),
                        );
                    }
                    let family = String::from_str(mapping.family);
                    return Some(FontDescriptor::new(family, mapping.weight, mapping.style));
                }
            }
        }
        index = index + 1;
    }
    None
}

/// A name has at most one first row.
proof fn lemma_first_is_unique(name: Seq<char>, a: int, b: int)
    requires
        first_resolves_at(name, a),
        first_resolves_at(name, b),
    ensures
        a == b,
{
}

/// The length and the first two letters of a name.
spec fn name_key(name: Seq<char>) -> (nat, char, char) {
    (name.len(), name[0], name[1])
}

/// The key of the name of each row.
spec fn entry_key(index: int) -> (nat, char, char) {
    if index == 0 {
        (6, 'L', 'e')
    } else if index == 1 {
        (5, 'A', 'r')
    } else if index == 2 {
        (9, 'A', 'r')
    } else if index == 3 {
        (10, 'S', 'o')
    } else if index == 4 {
        (14, 'S', 'o')
    } else if index == 5 {
        (18, 'S', 'o')
    } else if index == 6 {
        (15, 'S', 'o')
    } else if index == 7 {
        (16, 'S', 'o')
    } else if index == 8 {
        (6, 'B', 'o')
    } else if index == 9 {
        (8, 'G', 'a')
    } else if index == 10 {
        (7, 'C', 'a')
    } else if index == 11 {
        (4, 'C', 'o')
    } else if index == 12 {
        (7, 'H', 'i')
    } else if index == 13 {
        (5, 'S', 'c')
    } else if index == 14 {
        (6, 'A', 'r')
    } else if index == 15 {
        (7, 'F', 'a')
    } else if index == 16 {
        (7, 'A', 'n')
    } else if index == 17 {
        (6, 'G', 'o')
    } else if index == 18 {
        (12, 'G', 'o')
    } else if index == 19 {
        (10, 'G', 'o')
    } else if index == 20 {
        (11, 'G', 'o')
    } else if index == 21 {
        (8, 'A', 'm')
    } else if index == 22 {
        (7, 'B', 'a')
    } else if index == 23 {
        (9, 'C', 'r')
    } else if index == 24 {
        (7, 'D', 'e')
    } else if index == 25 {
        (10, 'F', 'o')
    } else if index == 26 {
        (10, 'F', 'r')
    } else if index == 27 {
        (13, 'G', 'r')
    } else if index == 28 {
        (11, 'I', 'n')
    } else if index == 29 {
        (11, 'J', 'o')
    } else if index == 30 {
        (4, 'J', 'u')
    } else if index == 31 {
        (5, 'K', 'a')
    } else if index == 32 {
        (11, 'L', 'u')
    } else if index == 33 {
        (12, 'M', 'e')
    } else if index == 34 {
        (8, 'M', 'i')
    } else if index == 35 {
        (6, 'N', 'u')
    } else if index == 36 {
        (6, 'O', 's')
    } else if index == 37 {
        (11, 'P', 'a')
    } else if index == 38 {
        (15, 'P', 'e')
    } else if index == 39 {
        (6, 'R', 'o')
    } else if index == 40 {
        (15, 'R', 'o')
    } else if index == 41 {
        (10, 'R', 'o')
    } else if index == 42 {
        (8, 'S', 'a')
    } else if index == 43 {
        (12, 'S', 'p')
    } else if index == 44 {
        (12, 'T', 'i')
    } else if index == 45 {
        (6, 'U', 'b')
    } else {
        (7, 'U', 'n')
    }
}

proof fn lemma_entry_key(index: int)
    requires
        0 <= index < CATALOG_LEN,
    ensures
        name_key(spec_entry(index).name) == entry_key(index),
{
    reveal_strlit("Legacy");
    reveal_strlit("Arial");
    reveal_strlit("ArialBold");
    reveal_strlit("SourceSans");
    reveal_strlit("SourceSansBold");
    reveal_strlit("SourceSansSemibold");
    reveal_strlit("SourceSansLight");
    reveal_strlit("SourceSansItalic");
    reveal_strlit("Bodoni");
    reveal_strlit("Garamond");
    reveal_strlit("Cartoon");
    reveal_strlit("Code");
    reveal_strlit("Highway");
    reveal_strlit("SciFi");
    reveal_strlit("Arcade");
    reveal_strlit("Fantasy");
    reveal_strlit("Antique");
    reveal_strlit("Gotham");
    reveal_strlit("GothamMedium");
    reveal_strlit("GothamBold");
    reveal_strlit("GothamBlack");
    reveal_strlit("AmaticSC");
    reveal_strlit("Bangers");
    reveal_strlit("Creepster");
    reveal_strlit("DenkOne");
    reveal_strlit("Fondamento");
    reveal_strlit("FredokaOne");
    reveal_strlit("GrenzeGotisch");
    reveal_strlit("IndieFlower");
    reveal_strlit("JosefinSans");
    reveal_strlit("Jura");
    reveal_strlit("Kalam");
    reveal_strlit("LuckiestGuy");
    reveal_strlit("Merriweather");
    reveal_strlit("Michroma");
    reveal_strlit("Nunito");
    reveal_strlit("Oswald");
    reveal_strlit("PatrickHand");
    reveal_strlit("PermanentMarker");
    reveal_strlit("Roboto");
    reveal_strlit("RobotoCondensed");
    reveal_strlit("RobotoMono");
    reveal_strlit("Sarpanch");
    reveal_strlit("SpecialElite");
    reveal_strlit("TitilliumWeb");
    reveal_strlit("Ubuntu");
    reveal_strlit("Unknown");
}

proof fn lemma_entry_keys_differ(a: int, b: int)
    requires
        0 <= a < b < CATALOG_LEN,
    ensures
        entry_key(a) != entry_key(b),
{
}

/// No name stands in two rows of the catalog.
pub proof fn lemma_names_unique(a: int, b: int)
    requires
        0 <= a < CATALOG_LEN,
        0 <= b < CATALOG_LEN,
        spec_catalog()[a].name == spec_catalog()[b].name,
    ensures
        a == b,
{
    lemma_entry_key(a);
    lemma_entry_key(b);
    if a < b {
        lemma_entry_keys_differ(a, b);
    } else if b < a {
        lemma_entry_keys_differ(b, a);
    }
}

/// Every row decides what its name resolves to. A row with a mapping is
/// found again: its name resolves to exactly the family, weight and style of
/// the row. The name of a row without a mapping resolves to nothing.
pub proof fn lemma_rows_resolve(index: int)
    requires
        0 <= index < CATALOG_LEN,
    ensures
        spec_resolve(spec_catalog()[index].name) == spec_catalog()[index].mapping,
{
    let name = spec_catalog()[index].name;
    assert forall|other: int| resolves_at(name, other) implies other == index by {
        lemma_names_unique(other, index);
    }
    if spec_catalog()[index].mapping is Some {
        assert(first_resolves_at(name, index));
        lemma_first_is_unique(name, index, choose|first: int| first_resolves_at(name, first));
    }
}

/// A name that no row of the catalog carries resolves to nothing.
pub proof fn lemma_absent_names_resolve_to_nothing(name: Seq<char>)
    requires
        forall|index: int|
            0 <= index < CATALOG_LEN ==> (#[trigger] spec_catalog()[index]).name != name,
    ensures
        spec_resolve(name) is None,
{
}

/// The reserved name `Unknown` is in the catalog, in its last row, and
/// resolves to nothing.
pub proof fn lemma_unknown_is_reserved()
    ensures
        spec_catalog()[CATALOG_LEN - 1] == spec_reserved("Unknown"@),
        spec_resolve("Unknown"@) is None,
{
    lemma_rows_resolve(CATALOG_LEN - 1);
}

} // verus!
