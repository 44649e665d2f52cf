//! The two fields of the editor's settings that the language server reads.
use vstd::prelude::*;
use vstd::string::*;
use crate::resolver::{start, ActionView, ResolveStateView};

verus! {

/// The output level used where the settings name none.
pub const DEFAULT_OUTPUT_LEVEL: &'static str = "quiet-with-errors";

/// The settings key of the output level.
pub const OUTPUT_LEVEL_KEY: &'static str = "lspOutputLevel";

/// The settings key of the path that overrides the installed server.
pub const PATH_TO_RELAY_KEY: &'static str = "pathToRelay";

/// The value of the first entry whose key is `key`, if any.
pub open spec fn lookup(entries: Seq<(Seq<char>, Seq<char>)>, key: Seq<char>) -> Option<Seq<char>>
    decreases entries.len(),
{
    if entries.len() == 0 {
        None
    } else if entries[0].0 == key {
        Some(entries[0].1)
    } else {
        lookup(entries.drop_first(), key)
    }
}

/// The output level that `entries` ask for.
pub open spec fn output_level_of(entries: Seq<(Seq<char>, Seq<char>)>) -> Seq<char> {
    match lookup(entries, OUTPUT_LEVEL_KEY@) {
        Some(level) => level,
        None => DEFAULT_OUTPUT_LEVEL@,
    }
}

/// What the settings ask of the language server.
#[derive(Clone, Debug, PartialEq, Eq)]
pub struct Settings {
    /// The verbosity label handed to the server, as given.
    pub lsp_output_level: String,
    /// A script to run in place of the installed one.
    pub path_to_relay: Option<String>,
}

/// The value of the first of `entries` whose key is `key`.
pub fn find_entry(entries: &Vec<(String, String)>, key: &str) -> (r: Option<String>)
    ensures
        r.deep_view() == lookup(entries.deep_view(), key@),
{
    let wanted = String::from_str(key);
    let mut i: usize = 0;
    assert(entries.deep_view().skip(0) =~= entries.deep_view());
    while i < entries.len()
        invariant
            i <= entries.len(),
            wanted@ == key@,
            lookup(entries.deep_view(), key@) == lookup(entries.deep_view().skip(i as int), key@),
        decreases entries.len() - i,
    {
        assert(entries.deep_view().skip(i as int).drop_first() =~= entries.deep_view().skip(i + 1));
        if entries[i].0 == wanted {
            return Some(entries[i].1.clone());
        }
        i = i + 1;
    }
    None
}

impl Settings {
    /// Reads the settings from the string-valued entries of the language
    /// server's settings object. A missing output level falls back to
    /// `DEFAULT_OUTPUT_LEVEL`; a missing path means no override.
    pub fn from_entries(entries: &Vec<(String, String)>) -> (s: Settings)
        ensures
            s.lsp_output_level@ == output_level_of(entries.deep_view()),
            s.path_to_relay.deep_view() == lookup(entries.deep_view(), PATH_TO_RELAY_KEY@),
    {
        let lsp_output_level = match find_entry(entries, OUTPUT_LEVEL_KEY) {
            Some(level) => level,
            None => String::from_str(DEFAULT_OUTPUT_LEVEL),
        };
        let path_to_relay = find_entry(entries, PATH_TO_RELAY_KEY);
        Settings { lsp_output_level, path_to_relay }
    }
}

/// Settings without an output level ask for `DEFAULT_OUTPUT_LEVEL`, and
/// settings without a path leave resolution to look for the installed
/// script.
pub proof fn lemma_missing_keys_use_defaults(entries: Seq<(Seq<char>, Seq<char>)>)
    ensures
        lookup(entries, OUTPUT_LEVEL_KEY@) is None ==> output_level_of(entries)
            == DEFAULT_OUTPUT_LEVEL@,
        lookup(entries, PATH_TO_RELAY_KEY@) is None ==> start(lookup(entries, PATH_TO_RELAY_KEY@))
            == (ResolveStateView::Checking, ActionView::CheckServer),
{
}

} // verus!
