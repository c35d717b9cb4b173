//! The icons of the interface and the files that hold them.

use vstd::prelude::*;
use vstd::string::StringExecFns;

verus! {

/// An icon of the interface.
#[derive(Clone, Copy, Debug, PartialEq, Eq, Structural)]
pub enum IconName {
    House,
    BookMarked,
    LoaderCircle,
    Reply,
    MessageCircle,
    ChevronLeft,
    ChevronRight,
    Plus,
    Minus,
    Eye,
}

/// The icon's name in snake case, the stem of its file's name.
pub open spec fn stem_of(i: IconName) -> Seq<char> {
    match i {
        IconName::House => "house"@,
        IconName::BookMarked => "book_marked"@,
        IconName::LoaderCircle => "loader_circle"@,
        IconName::Reply => "reply"@,
        IconName::MessageCircle => "message_circle"@,
        IconName::ChevronLeft => "chevron_left"@,
        IconName::ChevronRight => "chevron_right"@,
        IconName::Plus => "plus"@,
        IconName::Minus => "minus"@,
        IconName::Eye => "eye"@,
    }
}

impl IconName {
    /// The icon's name in snake case.
    pub fn file_stem(&self) -> (r: &'static str)
        ensures
            r@ == stem_of(*self),
    {
        match self {
            IconName::House => "house",
            IconName::BookMarked => "book_marked",
            IconName::LoaderCircle => "loader_circle",
            IconName::Reply => "reply",
            IconName::MessageCircle => "message_circle",
            IconName::ChevronLeft => "chevron_left",
            IconName::ChevronRight => "chevron_right",
            IconName::Plus => "plus",
            IconName::Minus => "minus",
            IconName::Eye => "eye",
        }
    }

    /// The asset path of the icon: `icons/<stem>.svg`.
    pub fn path(&self) -> (r: String)
        ensures
            r@ == "icons/"@ + stem_of(*self) + ".svg"@,
    {
        let mut p = String::from_str("icons/");
        p.append(self.file_stem());
        p.append(".svg");
        p
    }
}

} // verus!
