//! The listing of a catalog: the JSON text that the GitHub API returns for a
//! directory, an array of records that each have a `name`. Reading the JSON
//! is the work of the `json` crate.

use vstd::prelude::*;
use crate::provider::texts;
use crate::text::{has_run, holds_run};

verus! {

/// The number of decimal digits in a row that is too many for the JSON
/// parser, which counts the digits of a fraction in 16 bits.
pub const DIGIT_LIMIT: usize = 32768;

/// What the `json` crate reads from a text under a key: `None` where the
/// text is no JSON value; else, for each member of the value if it is an
/// array, and for no member if it is not, the string under the key, or
/// `None` where the member is no object with a string there.
pub uninterp spec fn json_member_strings(body: Seq<char>, key: Seq<char>) -> Option<
    Seq<Option<Seq<char>>>,
>;

/// Whether a text can be handed to the JSON parser: it nowhere holds
/// `DIGIT_LIMIT` decimal digits in a row.
pub open spec fn within_digits(body: Seq<char>) -> bool {
    !has_run(body, '0', '9', DIGIT_LIMIT as nat)
}

/// `json::parse` on `body`, then `JsonValue::members`, and of each member
/// the string that indexing by `key` and `JsonValue::as_str` give. The
/// contract only names the outcome. The parser takes one from a 16-bit
/// exponent for every digit of a fraction, which is why texts with longer
/// rows of digits are kept from it.
#[verifier::external_body]
fn member_strings(body: &str, key: &str) -> (r: Option<Vec<Option<String>>>)
    requires
        within_digits(body@),
    ensures
        r.deep_view() == json_member_strings(body@, key@),
{
    let listing = json::parse(body).ok()?;
    Some(listing.members().map(|item| item[key].as_str().map(|text| text.to_owned())).collect())
}

/// The file names of a listing, in order: there are none unless the text
/// was read and every member has a name.
pub open spec fn listed_names(found: Option<Seq<Option<Seq<char>>>>) -> Option<Seq<Seq<char>>> {
    match found {
        Some(members) => if forall|i: int| 0 <= i < members.len() ==> (#[trigger] members[i]) is Some {
            Some(Seq::new(members.len(), |i: int| members[i]->0))
        } else {
            None
        },
        None => None,
    }
}

/// What this library reads from the text of a listing: the strings that
/// its members hold under `name`, and nothing where the text is beyond the
/// parser's limit.
pub open spec fn readable_listing(body: Seq<char>) -> Option<Seq<Option<Seq<char>>>> {
    if within_digits(body) {
        json_member_strings(body, "name"@)
    } else {
        None
    }
}

/// The texts of an optional vector of strings.
pub open spec fn optional_texts(names: Option<Vec<String>>) -> Option<Seq<Seq<char>>> {
    match names {
        Some(v) => Some(texts(v@)),
        None => None,
    }
}

/// The file names among what was read from a listing, or `None` where the
/// listing is malformed.
#[verifier::loop_isolation(false)]
pub fn names_of_members(found: &Option<Vec<Option<String>>>) -> (r: Option<Vec<String>>)
    ensures
        optional_texts(r) == listed_names(found.deep_view()),
{
    match found {
        None => None,
        Some(members) => {
            let ghost model = members.deep_view();
            let mut names: Vec<String> = Vec::new();
            let mut i: usize = 0;
            while i < members.len()
                invariant
                    i <= members@.len(),
                    model == members.deep_view(),
                    names@.len() == i,
                    forall|k: int| 0 <= k < i ==> (#[trigger] model[k]) is Some,
                    forall|k: int| 0 <= k < i ==> (#[trigger] names@[k])@ == model[k]->0,
                decreases members@.len() - i,
            {
                assert(model[i as int] == members@[i as int].deep_view());
                match &members[i] {
                    Some(name) => {
                        names.push(name.clone());
                    },
                    None => {
                        assert(model[i as int] is None);
                        return None;
                    },
                }
                i += 1;
            }
            assert(texts(names@) =~= Seq::new(model.len(), |k: int| model[k]->0));
            Some(names)
        },
    }
}

/// The file names in the text of a listing, or `None` where the listing is
/// malformed or beyond the parser's limit.
pub fn listed_files(body: &str) -> (r: Option<Vec<String>>)
    ensures
        optional_texts(r) == listed_names(readable_listing(body@)),
{
    if holds_run(body, '0', '9', DIGIT_LIMIT) {
        return None;
    }
    let found = member_strings(body, "name");
    names_of_members(&found)
}

} // verus!
