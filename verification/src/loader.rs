//! Loading the authentication of every connector that a document names.

use crate::auth::{classify_value, AuthView, ConnectorAuthType};
use crate::document::{
    parse_document, parsed_document, table_entries, table_view, value_view, ValueView,
};
use vstd::hash_map::StringHashMap;
use vstd::prelude::*;

verus! {

/// What came of finding and reading the configuration file.
pub enum ConfigSource {
    /// The setting that names the file's path is not there.
    PathNotSet,
    /// The path is set, but the file could not be read.
    Unreadable,
    /// The text of the file.
    Contents(String),
}

/// A `ConfigSource` with the file's text as the sequence of its characters.
pub enum SourceView {
    PathNotSet,
    Unreadable,
    Contents(Seq<char>),
}

impl View for ConfigSource {
    type V = SourceView;

    open spec fn view(&self) -> SourceView {
        match *self {
            ConfigSource::PathNotSet => SourceView::PathNotSet,
            ConfigSource::Unreadable => SourceView::Unreadable,
            ConfigSource::Contents(contents) => SourceView::Contents(contents@),
        }
    }
}

/// Why a load was given up. Each of these ends the whole load.
#[derive(Debug)]
pub enum LoadError {
    /// The setting that names the file's path is not there.
    PathNotSet,
    /// The file could not be read.
    FileNotRead,
    /// The file's text is no TOML document; the parser's own report comes
    /// with it.
    Malformed(toml::de::Error),
}

/// Which step of a load failed.
pub enum Failure {
    PathNotSet,
    FileNotRead,
    Malformed,
}

impl View for LoadError {
    type V = Failure;

    open spec fn view(&self) -> Failure {
        match *self {
            LoadError::PathNotSet => Failure::PathNotSet,
            LoadError::FileNotRead => Failure::FileNotRead,
            LoadError::Malformed(_) => Failure::Malformed,
        }
    }
}

impl LoadError {
    /// The message that `message` gives for this error.
    pub open spec fn message_text(&self) -> Seq<char> {
        match *self {
            LoadError::PathNotSet => "connector authentication file path not set"@,
            LoadError::FileNotRead => "Failed to read connector authentication file"@,
            LoadError::Malformed(_) => "Failed to deserialize TOML file"@,
        }
    }

    /// Says which step of the load failed.
    pub fn message(&self) -> (r: &'static str)
        ensures
            r@ == self.message_text(),
    {
        match self {
            LoadError::PathNotSet => "connector authentication file path not set",
            LoadError::FileNotRead => "Failed to read connector authentication file",
            LoadError::Malformed(_) => "Failed to deserialize TOML file",
        }
    }
}

/// Each authentication value of `map` as its view.
pub open spec fn auth_views(map: Map<Seq<char>, ConnectorAuthType>) -> Map<Seq<char>, AuthView> {
    Map::new(|name: Seq<char>| map.dom().contains(name), |name: Seq<char>| map[name]@)
}

/// The authentication of every connector of `document`: the same names, each
/// with what its entry classifies as.
pub open spec fn classify_document(document: Map<Seq<char>, ValueView>) -> Map<
    Seq<char>,
    AuthView,
> {
    Map::new(
        |name: Seq<char>| document.dom().contains(name),
        |name: Seq<char>| classify_value(document[name]),
    )
}

/// What loading from `source` comes to: the failure of the first step that
/// failed, or the authentication of every connector of the document.
pub open spec fn load_result(source: SourceView) -> Result<Map<Seq<char>, AuthView>, Failure> {
    match source {
        SourceView::PathNotSet => Err(Failure::PathNotSet),
        SourceView::Unreadable => Err(Failure::FileNotRead),
        SourceView::Contents(contents) => match parsed_document(contents) {
            Some(document) => Ok(classify_document(document)),
            None => Err(Failure::Malformed),
        },
    }
}

/// Loading is repeatable: two sources that say the same thing, the same
/// failure to read or the same text, load to the same outcome.
pub proof fn lemma_load_repeatable(first: ConfigSource, second: ConfigSource)
    requires
        first@ == second@,
    ensures
        load_result(first@) == load_result(second@),
{
}

/// The authentication of each connector, by the connector's name.
pub struct ConnectorAuthenticationMap(StringHashMap<ConnectorAuthType>);

impl View for ConnectorAuthenticationMap {
    type V = Map<Seq<char>, AuthView>;

    closed spec fn view(&self) -> Map<Seq<char>, AuthView> {
        auth_views(self.0@)
    }
}

impl ConnectorAuthenticationMap {
    /// The whole mapping, to read.
    pub fn inner(&self) -> (r: &StringHashMap<ConnectorAuthType>)
        ensures
            auth_views(r@) == self@,
    {
        &self.0
    }

    /// Classifies every entry of a parsed document.
    pub fn from_table(table: toml::Table) -> (r: Self)
        ensures
            r@ == classify_document(table_view(table)),
    {
        let ghost document = table_view(table);
        let entries = table_entries(table);
        let mut map: StringHashMap<ConnectorAuthType> = StringHashMap::new();
        let mut i: usize = 0;
        while i < entries.len()
            invariant
                i <= entries.len(),
                forall|j: int|
                    #![trigger entries[j]]
                    0 <= j < entries.len() ==> document.dom().contains(entries[j].0@)
                        && value_view(entries[j].1) == document[entries[j].0@],
                forall|name: Seq<char>| #[trigger]
                    map@.dom().contains(name) ==> document.dom().contains(name) && map@[name]@
                        == classify_value(document[name]),
                forall|j: int|
                    #![trigger entries[j]]
                    0 <= j < i ==> map@.dom().contains(entries[j].0@),
            decreases entries.len() - i,
        {
            let entry = &entries[i];
            let auth = ConnectorAuthType::from_value(&entry.1);
            map.insert(entry.0.clone(), auth);
            i += 1;
        }
        assert(auth_views(map@) =~= classify_document(document));
        ConnectorAuthenticationMap(map)
    }

    /// Loads the authentication of every connector from what was read of the
    /// configuration file. A missing setting or an unreadable file fails
    /// before anything is parsed; a text that does not parse fails before
    /// any entry is classified.
    pub fn new(source: ConfigSource) -> (r: Result<Self, LoadError>)
        ensures
            match r {
                Ok(map) => load_result(source@) == Ok::<Map<Seq<char>, AuthView>, Failure>(map@),
                Err(error) => load_result(source@) == Err::<Map<Seq<char>, AuthView>, Failure>(
                    error@,
                ),
            },
    {
        match source {
            ConfigSource::PathNotSet => Err(LoadError::PathNotSet),
            ConfigSource::Unreadable => Err(LoadError::FileNotRead),
            ConfigSource::Contents(contents) => match parse_document(contents.as_str()) {
                Ok(table) => Ok(Self::from_table(table)),
                Err(error) => Err(LoadError::Malformed(error)),
            },
        }
    }
}

} // verus!
