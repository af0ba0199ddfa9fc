//! The two lists the site ranks demons and nations on.
use crate::error::CoreError;
use crate::text::{case_fixed_from, lemma_case_fixed_from, lowercase, owned, str_eq, to_lowercase};
use vstd::prelude::*;

verus! {

#[derive(Debug, PartialEq, Eq, Structural, Clone, Copy)]
pub enum List {
    /// Only consists of rated demons.
    Demonlist,
    /// Consists of all demons.
    RatedPlus,
}

/// The name of a list, as requests and responses spell it.
pub open spec fn list_name(list: List) -> Seq<char> {
    match list {
        List::Demonlist => "demonlist"@,
        List::RatedPlus => "ratedplus"@,
    }
}

/// The key a list is stored under.
pub open spec fn list_key(list: List) -> Seq<char> {
    match list {
        List::Demonlist => "list-demonlist"@,
        List::RatedPlus => "list-ratedplus"@,
    }
}

/// The list a (lower-cased) name spells, if any.
pub open spec fn list_of_name(name: Seq<char>) -> Option<List> {
    if name == "demonlist"@ {
        Some(List::Demonlist)
    } else if name == "ratedplus"@ {
        Some(List::RatedPlus)
    } else {
        None
    }
}

impl List {
    pub fn as_str(&self) -> (r: &'static str)
        ensures
            r@ == list_name(*self),
    {
        match self {
            List::Demonlist => "demonlist",
            List::RatedPlus => "ratedplus",
        }
    }

    pub fn to_key(&self) -> (r: &'static str)
        ensures
            r@ == list_key(*self),
    {
        match self {
            List::Demonlist => "list-demonlist",
            List::RatedPlus => "list-ratedplus",
        }
    }

    /// The name of the list as an owned string.
    pub fn to_string(&self) -> (r: String)
        ensures
            r@ == list_name(*self),
    {
        owned(self.as_str())
    }

    /// Reads a list from its name, in any case; the name `as_str` gives reads back as the
    /// list.
    pub fn from_str(s: &str) -> (r: Result<List, CoreError>)
        ensures
            match list_of_name(lowercase(s@)) {
                Some(l) => r == Ok::<List, CoreError>(l),
                None => r == Err::<List, CoreError>(CoreError::UnprocessableEntity),
            },
            forall|l: List| #[trigger] list_name(l) == s@ ==> r == Ok::<List, CoreError>(l),
    {
        proof {
            reveal_strlit("demonlist");
            reveal_strlit("ratedplus");
            reveal_with_fuel(case_fixed_from, 10);
            lemma_case_fixed_from("demonlist"@, 0);
            lemma_case_fixed_from("ratedplus"@, 0);
            law_list_name_roundtrip(List::Demonlist);
            law_list_name_roundtrip(List::RatedPlus);
        }
        let lower = to_lowercase(s);
        if str_eq(lower.as_str(), "demonlist") {
            Ok(List::Demonlist)
        } else if str_eq(lower.as_str(), "ratedplus") {
            Ok(List::RatedPlus)
        } else {
            Err(CoreError::UnprocessableEntity)
        }
    }
}

impl Default for List {
    fn default() -> (r: Self)
        ensures
            r == List::Demonlist,
    {
        List::Demonlist
    }
}

/// Law: reading a list's name gives the list back.
pub proof fn law_list_name_roundtrip(list: List)
    ensures
        list_of_name(list_name(list)) == Some(list),
{
    reveal_strlit("demonlist");
    reveal_strlit("ratedplus");
    assert("demonlist"@[0] != "ratedplus"@[0]);
}

} // verus!
