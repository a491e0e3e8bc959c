//! The configuration of the poller: named lists of texts.

use crate::decimal::{parse_seconds, seconds_of};
use crate::error::{StartupError, StartupErrorView};
use vstd::hash_map::StringHashMap;
use vstd::prelude::*;

verus! {

/// The key whose first value is the number of seconds between two requests.
pub const DELAY_KEY: &'static str = "delay";

/// The key whose values are the addresses to poll, in polling order.
pub const TARGETS_KEY: &'static str = "robotsUrls";

/// The number of seconds to wait where the configured one cannot be read.
pub const DEFAULT_DELAY: u64 = 1;

/// A mapping from keys to lists of texts.
pub struct Configuration {
    entries: StringHashMap<Vec<String>>,
}

impl View for Configuration {
    type V = Map<Seq<char>, Seq<Seq<char>>>;

    closed spec fn view(&self) -> Map<Seq<char>, Seq<Seq<char>>> {
        Map::new(
            |key: Seq<char>| self.entries@.contains_key(key),
            |key: Seq<char>| self.entries@[key].deep_view(),
        )
    }
}

/// What the `delay` key of a configuration says.
#[derive(Debug, PartialEq, Eq)]
pub enum DelaySetting {
    /// The configuration has no such key.
    Absent,
    /// The key has no value.
    Empty,
    /// The key's first value is no number of seconds.
    Unreadable { text: String },
    /// The key's first value is this number of seconds.
    Seconds { value: u64 },
}

/// The mathematical value of a [`DelaySetting`].
pub enum DelaySettingView {
    Absent,
    Empty,
    Unreadable { text: Seq<char> },
    Seconds { value: u64 },
}

impl View for DelaySetting {
    type V = DelaySettingView;

    open spec fn view(&self) -> DelaySettingView {
        match self {
            DelaySetting::Absent => DelaySettingView::Absent,
            DelaySetting::Empty => DelaySettingView::Empty,
            DelaySetting::Unreadable { text } => DelaySettingView::Unreadable { text: text@ },
            DelaySetting::Seconds { value } => DelaySettingView::Seconds { value: *value },
        }
    }
}

impl DelaySettingView {
    /// The number of seconds to wait between two requests: the configured
    /// one, or [`DEFAULT_DELAY`] where the key is there and gives no number.
    /// Without the key there is no such number.
    pub open spec fn seconds(self) -> Option<u64> {
        match self {
            DelaySettingView::Absent => None,
            DelaySettingView::Empty => Some(DEFAULT_DELAY),
            DelaySettingView::Unreadable { .. } => Some(DEFAULT_DELAY),
            DelaySettingView::Seconds { value } => Some(value),
        }
    }
}

impl DelaySetting {
    /// The number of seconds to wait between two requests, if there is one.
    pub fn seconds(&self) -> (r: Option<u64>)
        ensures
            r == self@.seconds(),
    {
        match self {
            DelaySetting::Absent => None,
            DelaySetting::Empty => Some(DEFAULT_DELAY),
            DelaySetting::Unreadable { .. } => Some(DEFAULT_DELAY),
            DelaySetting::Seconds { value } => Some(*value),
        }
    }
}

/// What the `delay` key of a configuration says.
pub open spec fn delay_setting(config: Map<Seq<char>, Seq<Seq<char>>>) -> DelaySettingView {
    if !config.contains_key(DELAY_KEY@) {
        DelaySettingView::Absent
    } else if config[DELAY_KEY@].len() == 0 {
        DelaySettingView::Empty
    } else {
        match seconds_of(config[DELAY_KEY@][0]) {
            Some(value) => DelaySettingView::Seconds { value },
            None => DelaySettingView::Unreadable { text: config[DELAY_KEY@][0] },
        }
    }
}

/// The mapping that a list of entries builds: each entry sets the values of
/// its key, so of two entries with one key the later one stays.
pub open spec fn entries_map(entries: Seq<(Seq<char>, Seq<Seq<char>>)>) -> Map<
    Seq<char>,
    Seq<Seq<char>>,
>
    decreases entries.len(),
{
    if entries.len() == 0 {
        Map::empty()
    } else {
        entries_map(entries.drop_last()).insert(entries.last().0, entries.last().1)
    }
}

/// What `serde_json::from_str` makes of a text when it is asked for a
/// `HashMap<String, Vec<String>>`: the mapping that the text denotes, or the
/// message of the parser's error.
pub uninterp spec fn json_string_lists(text: Seq<char>) -> Result<
    Map<Seq<char>, Seq<Seq<char>>>,
    Seq<char>,
>;

/// Whether a list of entries holds a mapping's keys, each once and with its
/// values.
pub open spec fn lists_mapping(
    entries: Seq<(Seq<char>, Seq<Seq<char>>)>,
    mapping: Map<Seq<char>, Seq<Seq<char>>>,
) -> bool {
    &&& forall|i: int, j: int|
        0 <= i < j < entries.len() ==> (#[trigger] entries[i]).0 != (#[trigger] entries[j]).0
    &&& forall|i: int|
        0 <= i < entries.len() ==> mapping.contains_key((#[trigger] entries[i]).0)
            && mapping[entries[i].0] == entries[i].1
    &&& forall|key: Seq<char>| #[trigger]
        mapping.contains_key(key) ==> exists|i: int|
            0 <= i < entries.len() && (#[trigger] entries[i]).0 == key
}

/// What a file's content, if it could be read, gives as a configuration.
pub open spec fn loaded(content: Option<Seq<char>>) -> Result<
    Map<Seq<char>, Seq<Seq<char>>>,
    StartupErrorView,
> {
    match content {
        None => Err(StartupErrorView::Unreadable),
        Some(text) => match json_string_lists(text) {
            Ok(mapping) => Ok(mapping),
            Err(message) => Err(StartupErrorView::Malformed { message }),
        },
    }
}

/// Calls `serde_json::from_str` for a `HashMap<String, Vec<String>>` and
/// hands out the entries of the map, in the order in which the map yields
/// them, or the text of the error. Trusted: the outcome depends on the text
/// alone, which is all that [`json_string_lists`] says; the entries are those
/// of the map, each key once.
#[verifier::external_body]
fn parse_string_lists(text: &str) -> (r: Result<Vec<(String, Vec<String>)>, String>)
    ensures
        match r {
            Ok(entries) => json_string_lists(text@) is Ok && lists_mapping(
                entries.deep_view(),
                json_string_lists(text@)->Ok_0,
            ),
            Err(message) => json_string_lists(text@) == Err::<
                Map<Seq<char>, Seq<Seq<char>>>,
                Seq<char>,
            >(message@),
        },
{
    match serde_json::from_str::<std::collections::HashMap<String, Vec<String>>>(text) {
        Ok(map) => Ok(map.into_iter().collect()),
        Err(error) => Err(error.to_string()),
    }
}

/// A key is in the mapping built from entries exactly if an entry has it.
pub proof fn lemma_entries_map_keys(entries: Seq<(Seq<char>, Seq<Seq<char>>)>, key: Seq<char>)
    ensures
        entries_map(entries).contains_key(key) <==> exists|i: int|
            0 <= i < entries.len() && (#[trigger] entries[i]).0 == key,
    decreases entries.len(),
{
    if entries.len() > 0 {
        let front = entries.drop_last();
        lemma_entries_map_keys(front, key);
        if entries.last().0 != key && exists|i: int|
            0 <= i < entries.len() && (#[trigger] entries[i]).0 == key {
            let i = choose|i: int| 0 <= i < entries.len() && (#[trigger] entries[i]).0 == key;
            assert(front[i].0 == key);
        }
    }
}

/// Where no key occurs twice, the mapping built from entries gives each key
/// the values of its entry.
pub proof fn lemma_entries_map_values(entries: Seq<(Seq<char>, Seq<Seq<char>>)>, i: int)
    requires
        0 <= i < entries.len(),
        forall|a: int, b: int|
            0 <= a < b < entries.len() ==> (#[trigger] entries[a]).0 != (#[trigger] entries[b]).0,
    ensures
        entries_map(entries).contains_key(entries[i].0),
        entries_map(entries)[entries[i].0] == entries[i].1,
    decreases entries.len(),
{
    if i < entries.len() - 1 {
        lemma_entries_map_values(entries.drop_last(), i);
    }
}

/// A list that holds a mapping's keys, each once and with its values,
/// builds that mapping.
pub proof fn lemma_listing_builds_mapping(
    entries: Seq<(Seq<char>, Seq<Seq<char>>)>,
    mapping: Map<Seq<char>, Seq<Seq<char>>>,
)
    requires
        lists_mapping(entries, mapping),
    ensures
        entries_map(entries) == mapping,
{
    assert forall|key: Seq<char>|
        entries_map(entries).contains_key(key) == mapping.contains_key(key) by {
        lemma_entries_map_keys(entries, key);
    }
    assert forall|key: Seq<char>| entries_map(entries).contains_key(key) implies entries_map(
        entries,
    )[key] == mapping[key] by {
        lemma_entries_map_keys(entries, key);
        let i = choose|i: int| 0 <= i < entries.len() && (#[trigger] entries[i]).0 == key;
        lemma_entries_map_values(entries, i);
    }
}

impl Configuration {
    /// A configuration without any key.
    pub fn new() -> (r: Configuration)
        ensures
            r@ == Map::<Seq<char>, Seq<Seq<char>>>::empty(),
    {
        Configuration { entries: StringHashMap::new() }
    }

    /// Sets the values of `key`, replacing those it had.
    pub fn insert(&mut self, key: String, values: Vec<String>)
        ensures
            final(self)@ == old(self)@.insert(key@, values.deep_view()),
    {
        self.entries.insert(key, values);
    }

    /// The configuration that a list of entries builds.
    pub fn from_entries(entries: Vec<(String, Vec<String>)>) -> (r: Configuration)
        ensures
            r@ == entries_map(entries.deep_view()),
    {
        let ghost all = entries.deep_view();
        let mut config = Configuration::new();
        for entry in it: entries.into_iter()
            invariant
                it.seq().len() == all.len(),
                forall|i: int|
                    0 <= i < all.len() ==> (#[trigger] it.seq()[i]).deep_view() == all[i],
                config@ == entries_map(all.subrange(0, it.index() as int)),
        {
            let ghost done = it.index() as int;
            proof {
                assert(all.subrange(0, done + 1).drop_last() =~= all.subrange(0, done));
            }
            let (key, values) = entry;
            config.insert(key, values);
        }
        proof {
            assert(all.subrange(0, all.len() as int) =~= all);
        }
        config
    }

    /// Reads a configuration from the content of its file, a JSON object
    /// whose values are lists of strings. `None` stands for a file that
    /// could not be read.
    pub fn load(content: Option<String>) -> (r: Result<Configuration, StartupError>)
        ensures
            match r {
                Ok(config) => loaded(content.deep_view()) == Ok::<_, StartupErrorView>(config@),
                Err(error) => loaded(content.deep_view()) == Err::<
                    Map<Seq<char>, Seq<Seq<char>>>,
                    _,
                >(error@),
            },
    {
        match content {
            None => Err(StartupError::Unreadable),
            Some(text) => match parse_string_lists(text.as_str()) {
                Ok(entries) => {
                    proof {
                        lemma_listing_builds_mapping(
                            entries.deep_view(),
                            json_string_lists(text@)->Ok_0,
                        );
                    }
                    Ok(Configuration::from_entries(entries))
                },
                Err(message) => Err(StartupError::Malformed { message }),
            },
        }
    }

    /// What the `delay` key says.
    pub fn delay(&self) -> (r: DelaySetting)
        ensures
            r@ == delay_setting(self@),
    {
        match self.get(DELAY_KEY) {
            None => DelaySetting::Absent,
            Some(values) => {
                if values.len() == 0 {
                    DelaySetting::Empty
                } else {
                    let first: &String = &values[0];
                    match parse_seconds(first.as_str()) {
                        Some(value) => DelaySetting::Seconds { value },
                        None => DelaySetting::Unreadable { text: first.clone() },
                    }
                }
            },
        }
    }

    /// The addresses to poll, in polling order, if the configuration names
    /// any.
    pub fn targets(&self) -> (r: Option<&Vec<String>>)
        ensures
            match r {
                Some(urls) => self@.contains_key(TARGETS_KEY@) && urls.deep_view()
                    == self@[TARGETS_KEY@],
                None => !self@.contains_key(TARGETS_KEY@),
            },
    {
        self.get(TARGETS_KEY)
    }

    /// The values of `key`, if the configuration has that key.
    pub fn get(&self, key: &str) -> (r: Option<&Vec<String>>)
        ensures
            match r {
                Some(values) => self@.contains_key(key@) && values.deep_view() == self@[key@],
                None => !self@.contains_key(key@),
            },
    {
        self.entries.get(key)
    }
}

} // verus!
