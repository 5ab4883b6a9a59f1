//! The options a user gives to a foreign server or a foreign table.
//!
//! During a scan the host hands the options over as a map from name to
//! value. When a server or a table is defined, it hands them over as a list
//! of `name=value` texts.

use vstd::prelude::*;
use vstd::hash_map::StringHashMap;
use crate::text::str_starts_with;

verus! {

/// A required option is missing.
#[derive(Debug, PartialEq, Eq)]
pub enum OptionsError {
    /// No option of this name was given.
    OptionNameNotFound(String),
}

impl OptionsError {
    /// The name of the option that the error is about.
    pub open spec fn spec_option_name(&self) -> Seq<char> {
        match self {
            OptionsError::OptionNameNotFound(name) => name@,
        }
    }

    /// The text of the diagnostic.
    pub open spec fn spec_message(&self) -> Seq<char> {
        "required option `"@ + self.spec_option_name() + "` is not specified"@
    }

    /// The name of the option that the error is about.
    pub fn option_name(&self) -> (name: &str)
        ensures
            name@ == self.spec_option_name(),
    {
        match self {
            OptionsError::OptionNameNotFound(name) => name.as_str(),
        }
    }

    /// The text of the diagnostic. It names the missing option.
    pub fn message(&self) -> (text: String)
        ensures
            text@ == self.spec_message(),
    {
        let mut text = String::from_str("required option `");
        text.append(self.option_name());
        text.append("` is not specified");
        text
    }
}

/// The options of a server or of a table, by name.
pub struct Options {
    entries: StringHashMap<String>,
}

impl View for Options {
    type V = Map<Seq<char>, Seq<char>>;

    closed spec fn view(&self) -> Map<Seq<char>, Seq<char>> {
        Map::new(
            |name: Seq<char>| self.entries@.contains_key(name),
            |name: Seq<char>| self.entries@[name]@,
        )
    }
}

impl Options {
    /// No options.
    pub fn new() -> (options: Options)
        ensures
            options@ == Map::<Seq<char>, Seq<char>>::empty(),
    {
        let options = Options { entries: StringHashMap::new() };
        assert(options@ =~= Map::<Seq<char>, Seq<char>>::empty());
        options
    }

    /// Sets the option `name` to `value`, in place of an earlier value.
    pub fn insert(&mut self, name: &str, value: &str)
        ensures
            final(self)@ == old(self)@.insert(name@, value@),
    {
        self.entries.insert(String::from_str(name), String::from_str(value));
        assert(self@ =~= old(self)@.insert(name@, value@));
    }
}

/// The value of the option `opt_name`, which must have been given.
pub fn require_option<'a>(opt_name: &str, options: &'a Options) -> (outcome: Result<
    &'a str,
    OptionsError,
>)
    ensures
        (match outcome {
            Ok(value) => options@.contains_key(opt_name@) && value@ == options@[opt_name@],
            Err(error) => !options@.contains_key(opt_name@) && error.spec_option_name()
                == opt_name@,
        }),
{
    match options.entries.get(opt_name) {
        Some(value) => Ok(value.as_str()),
        None => Err(OptionsError::OptionNameNotFound(String::from_str(opt_name))),
    }
}

/// Whether one text of the list gives the option `name`, that is, starts
/// with the name and an equals sign.
pub open spec fn list_gives(opt_list: Seq<Option<String>>, name: Seq<char>) -> bool {
    exists|i: int|
        0 <= i < opt_list.len() && gives(#[trigger] opt_list[i], name)
}

/// Whether the text `entry` is there and starts with `name` and an equals
/// sign.
pub open spec fn gives(entry: Option<String>, name: Seq<char>) -> bool {
    match entry {
        Some(text) => (name + "="@).is_prefix_of(text@),
        None => false,
    }
}

/// Checks that the option list of a definition gives the option `tgt`.
pub fn check_options_contain(opt_list: &[Option<String>], tgt: &str) -> (outcome: Result<
    (),
    OptionsError,
>)
    ensures
        outcome is Ok <==> list_gives(opt_list@, tgt@),
        outcome matches Err(error) ==> error.spec_option_name() == tgt@,
{
    let mut search_key = String::from_str(tgt);
    search_key.append("=");
    let mut i: usize = 0;
    while i < opt_list.len()
        invariant
            i <= opt_list.len(),
            search_key@ == tgt@ + "="@,
            forall|j: int| 0 <= j < i ==> !gives(#[trigger] opt_list@[j], tgt@),
        decreases opt_list.len() - i,
    {
        match &opt_list[i] {
            Some(text) => {
                if str_starts_with(text.as_str(), search_key.as_str()) {
                    assert(gives(opt_list@[i as int], tgt@));
                    return Ok(());
                }
            },
            None => {},
        }
        i += 1;
    }
    Err(OptionsError::OptionNameNotFound(String::from_str(tgt)))
}

} // verus!
