//! Enumeration families and the tagged enumerators that scripts hand over.

use vstd::prelude::*;
use vstd::string::StringExecFns;

use crate::text::str_eq;

verus! {

/// The enumeration that an enumerator belongs to.
///
/// The three families that font descriptors deal with have a variant of their
/// own; every other family is carried by name.
#[derive(Debug, PartialEq, Eq)]
pub enum EnumFamily {
    /// Legacy font names.
    Font,
    /// Weight names.
    FontWeight,
    /// Style names.
    FontStyle,
    /// Any other enumeration, by its name.
    Other(String),
}

/// What an [`EnumFamily`] is, with text as a sequence of characters.
pub enum EnumFamilyView {
    Font,
    FontWeight,
    FontStyle,
    Other(Seq<char>),
}

impl View for EnumFamily {
    type V = EnumFamilyView;

    open spec fn view(&self) -> EnumFamilyView {
        match self {
            EnumFamily::Font => EnumFamilyView::Font,
            EnumFamily::FontWeight => EnumFamilyView::FontWeight,
            EnumFamily::FontStyle => EnumFamilyView::FontStyle,
            EnumFamily::Other(name) => EnumFamilyView::Other(name@),
        }
    }
}

impl Clone for EnumFamily {
    fn clone(&self) -> (copy: Self)
        ensures
            copy@ == self@,
    {
        match self {
            EnumFamily::Font => EnumFamily::Font,
            EnumFamily::FontWeight => EnumFamily::FontWeight,
            EnumFamily::FontStyle => EnumFamily::FontStyle,
            EnumFamily::Other(name) => EnumFamily::Other(name.clone()),
        }
    }
}

impl EnumFamilyView {
    /// The name of a family.
    pub open spec fn name(self) -> Seq<char> {
        match self {
            EnumFamilyView::Font => "Font"@,
            EnumFamilyView::FontWeight => "FontWeight"@,
            EnumFamilyView::FontStyle => "FontStyle"@,
            EnumFamilyView::Other(name) => name,
        }
    }

    /// Whether the family is tagged as its name says: a family that is
    /// carried by name is none of the three that have a variant of their own.
    pub open spec fn wf(self) -> bool {
        self matches EnumFamilyView::Other(name) ==> name != "Font"@ && name != "FontWeight"@
            && name != "FontStyle"@
    }

    /// The family that a name stands for: one of the three known families on
    /// an exact match, else the name itself as another family.
    pub open spec fn from_name(name: Seq<char>) -> EnumFamilyView {
        if name == "Font"@ {
            EnumFamilyView::Font
        } else if name == "FontWeight"@ {
            EnumFamilyView::FontWeight
        } else if name == "FontStyle"@ {
            EnumFamilyView::FontStyle
        } else {
            EnumFamilyView::Other(name)
        }
    }
}

impl EnumFamily {
    /// The name of the family.
    pub fn name(&self) -> (text: String)
        ensures
            text@ == self@.name(),
    {
        match self {
            EnumFamily::Font => String::from_str("Font"),
            EnumFamily::FontWeight => String::from_str("FontWeight"),
            EnumFamily::FontStyle => String::from_str("FontStyle"),
            EnumFamily::Other(name) => name.clone(),
        }
    }

    /// The family with the name `name`, compared letter for letter. The
    /// result is well-formed and has that name.
    pub fn from_name(name: &str) -> (family: Self)
        ensures
            family@ == EnumFamilyView::from_name(name@),
            family@.wf(),
            family@.name() == name@,
    {
        if str_eq(name, "Font") {
            EnumFamily::Font
        } else if str_eq(name, "FontWeight") {
            EnumFamily::FontWeight
        } else if str_eq(name, "FontStyle") {
            EnumFamily::FontStyle
        } else {
            EnumFamily::Other(String::from_str(name))
        }
    }
}

/// The three known families have three different names.
pub proof fn lemma_family_names_distinct()
    ensures
        "Font"@ != "FontWeight"@,
        "Font"@ != "FontStyle"@,
        "FontWeight"@ != "FontStyle"@,
{
    reveal_strlit("Font");
    reveal_strlit("FontWeight");
    reveal_strlit("FontStyle");
    assert("Font"@.len() == 4);
    assert("FontWeight"@.len() == 10);
    assert("FontStyle"@.len() == 9);
}

/// Names and families correspond one to one: the family of a name has that
/// name, and a well-formed family is the family of its name.
pub proof fn lemma_family_name_round_trip(name: Seq<char>, family: EnumFamilyView)
    ensures
        EnumFamilyView::from_name(name).name() == name,
        EnumFamilyView::from_name(name).wf(),
        family.wf() ==> EnumFamilyView::from_name(family.name()) == family,
{
    lemma_family_names_distinct();
}

/// An enumerator as scripts hand it over: the family it belongs to and its
/// name within that family.
#[derive(Debug, PartialEq, Eq)]
pub struct EnumItem {
    pub family: EnumFamily,
    pub name: String,
}

/// What an [`EnumItem`] is, with text as a sequence of characters.
pub struct EnumItemView {
    pub family: EnumFamilyView,
    pub name: Seq<char>,
}

impl View for EnumItem {
    type V = EnumItemView;

    open spec fn view(&self) -> EnumItemView {
        EnumItemView { family: self.family@, name: self.name@ }
    }
}

impl Clone for EnumItem {
    fn clone(&self) -> (copy: Self)
        ensures
            copy@ == self@,
    {
        EnumItem { family: self.family.clone(), name: self.name.clone() }
    }
}

impl EnumItem {
    /// The enumerator `name` of `family`.
    pub fn new(family: EnumFamily, name: &str) -> (item: Self)
        ensures
            item@ == (EnumItemView { family: family@, name: name@ }),
    {
        EnumItem { family, name: String::from_str(name) }
    }
}

} // verus!
