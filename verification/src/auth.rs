//! The uniform authentication value, and how a configuration table becomes
//! one.

use crate::document::{table_get, table_view, value_view, ValueView};
use vstd::prelude::*;

verus! {

/// The credentials a connector authenticates with, by shape.
///
/// The shapes nest: each holds the fields of the one before it and one more.
#[derive(Debug, PartialEq, Eq)]
pub enum ConnectorAuthType {
    NoKey,
    HeaderKey { api_key: String },
    BodyKey { api_key: String, key1: String },
    SignatureKey { api_key: String, key1: String, api_secret: String },
    MultiAuthKey { api_key: String, key1: String, api_secret: String, key2: String },
}

impl Clone for ConnectorAuthType {
    /// A second value of the same shape with the same text.
    fn clone(&self) -> (r: Self)
        ensures
            r == *self,
    {
        match self {
            ConnectorAuthType::NoKey => ConnectorAuthType::NoKey,
            ConnectorAuthType::HeaderKey { api_key } => ConnectorAuthType::HeaderKey {
                api_key: api_key.clone(),
            },
            ConnectorAuthType::BodyKey { api_key, key1 } => ConnectorAuthType::BodyKey {
                api_key: api_key.clone(),
                key1: key1.clone(),
            },
            ConnectorAuthType::SignatureKey {
                api_key,
                key1,
                api_secret,
            } => ConnectorAuthType::SignatureKey {
                api_key: api_key.clone(),
                key1: key1.clone(),
                api_secret: api_secret.clone(),
            },
            ConnectorAuthType::MultiAuthKey {
                api_key,
                key1,
                api_secret,
                key2,
            } => ConnectorAuthType::MultiAuthKey {
                api_key: api_key.clone(),
                key1: key1.clone(),
                api_secret: api_secret.clone(),
                key2: key2.clone(),
            },
        }
    }
}

/// A `ConnectorAuthType` with each string as the sequence of its characters.
pub enum AuthView {
    NoKey,
    HeaderKey { api_key: Seq<char> },
    BodyKey { api_key: Seq<char>, key1: Seq<char> },
    SignatureKey { api_key: Seq<char>, key1: Seq<char>, api_secret: Seq<char> },
    MultiAuthKey { api_key: Seq<char>, key1: Seq<char>, api_secret: Seq<char>, key2: Seq<char> },
}

impl View for ConnectorAuthType {
    type V = AuthView;

    open spec fn view(&self) -> AuthView {
        match *self {
            ConnectorAuthType::NoKey => AuthView::NoKey,
            ConnectorAuthType::HeaderKey { api_key } => AuthView::HeaderKey { api_key: api_key@ },
            ConnectorAuthType::BodyKey { api_key, key1 } => AuthView::BodyKey {
                api_key: api_key@,
                key1: key1@,
            },
            ConnectorAuthType::SignatureKey { api_key, key1, api_secret } => AuthView::SignatureKey {
                api_key: api_key@,
                key1: key1@,
                api_secret: api_secret@,
            },
            ConnectorAuthType::MultiAuthKey {
                api_key,
                key1,
                api_secret,
                key2,
            } => AuthView::MultiAuthKey {
                api_key: api_key@,
                key1: key1@,
                api_secret: api_secret@,
                key2: key2@,
            },
        }
    }
}

/// The name of the first credential field.
pub const API_KEY: &'static str = "api_key";

/// The name of the second credential field.
pub const KEY1: &'static str = "key1";

/// The name of the third credential field.
pub const API_SECRET: &'static str = "api_secret";

/// The name of the fourth credential field.
pub const KEY2: &'static str = "key2";

/// The four recognised fields as read from one configuration table: nothing
/// for a field that the table lacks, and for one that it has, the text of
/// its value.
pub struct CredentialFields {
    pub api_key: Option<String>,
    pub key1: Option<String>,
    pub api_secret: Option<String>,
    pub key2: Option<String>,
}

/// `CredentialFields` with each string as the sequence of its characters.
pub struct FieldsView {
    pub api_key: Option<Seq<char>>,
    pub key1: Option<Seq<char>>,
    pub api_secret: Option<Seq<char>>,
    pub key2: Option<Seq<char>>,
}

impl View for CredentialFields {
    type V = FieldsView;

    open spec fn view(&self) -> FieldsView {
        FieldsView {
            api_key: self.api_key.deep_view(),
            key1: self.key1.deep_view(),
            api_secret: self.api_secret.deep_view(),
            key2: self.key2.deep_view(),
        }
    }
}

/// The shape that a presence pattern stands for. The four nested patterns
/// each give their shape; every other pattern gives `NoKey`.
pub open spec fn classify_fields(fields: FieldsView) -> AuthView {
    match (fields.api_key, fields.key1, fields.api_secret, fields.key2) {
        (Some(api_key), None, None, None) => AuthView::HeaderKey { api_key },
        (Some(api_key), Some(key1), None, None) => AuthView::BodyKey { api_key, key1 },
        (Some(api_key), Some(key1), Some(api_secret), None) => AuthView::SignatureKey {
            api_key,
            key1,
            api_secret,
        },
        (Some(api_key), Some(key1), Some(api_secret), Some(key2)) => AuthView::MultiAuthKey {
            api_key,
            key1,
            api_secret,
            key2,
        },
        _ => AuthView::NoKey,
    }
}

/// The text that a field's value counts as: its own if it is a string, the
/// empty text if it is of any other type.
pub open spec fn text_or_empty(value: ValueView) -> Seq<char> {
    match value {
        ValueView::Text(text) => text,
        _ => Seq::empty(),
    }
}

/// The field `name` of `table`: absent, or present with the text it counts
/// as.
pub open spec fn field_of(table: Map<Seq<char>, ValueView>, name: Seq<char>) -> Option<Seq<char>> {
    if table.dom().contains(name) {
        Some(text_or_empty(table[name]))
    } else {
        None
    }
}

/// The four recognised fields of `table`.
pub open spec fn fields_of(table: Map<Seq<char>, ValueView>) -> FieldsView {
    FieldsView {
        api_key: field_of(table, API_KEY@),
        key1: field_of(table, KEY1@),
        api_secret: field_of(table, API_SECRET@),
        key2: field_of(table, KEY2@),
    }
}

/// The authentication value that a connector's configuration entry stands
/// for: that of its recognised fields if it is a table, `NoKey` otherwise.
pub open spec fn classify_value(value: ValueView) -> AuthView {
    match value {
        ValueView::Table(table) => classify_fields(fields_of(table)),
        _ => AuthView::NoKey,
    }
}

/// Which of the four recognised fields `table` has, in the order `api_key`,
/// `key1`, `api_secret`, `key2`.
pub open spec fn presence(table: Map<Seq<char>, ValueView>) -> (bool, bool, bool, bool) {
    (
        table.dom().contains(API_KEY@),
        table.dom().contains(KEY1@),
        table.dom().contains(API_SECRET@),
        table.dom().contains(KEY2@),
    )
}

/// Whether a presence pattern is one of the four that nest: `api_key` is
/// there, `api_secret` only with `key1`, and `key2` only with `api_secret`.
pub open spec fn nested(pattern: (bool, bool, bool, bool)) -> bool {
    pattern.0 && (pattern.2 ==> pattern.1) && (pattern.3 ==> pattern.2)
}

/// The four recognised names are four different names.
pub proof fn lemma_field_names_distinct()
    ensures
        API_KEY@ != KEY1@,
        API_KEY@ != API_SECRET@,
        API_KEY@ != KEY2@,
        KEY1@ != API_SECRET@,
        KEY1@ != KEY2@,
        API_SECRET@ != KEY2@,
{
    reveal_strlit("api_key");
    reveal_strlit("key1");
    reveal_strlit("api_secret");
    reveal_strlit("key2");
    assert(API_KEY@.len() == 7 && API_SECRET@.len() == 10);
    assert(KEY1@.len() == 4 && KEY1@[3] == '1');
    assert(KEY2@.len() == 4 && KEY2@[3] == '2');
}

/// A table that holds the fields of one shape and no field besides has the
/// presence pattern of that shape.
pub proof fn lemma_presence_of_exact_table(table: Map<Seq<char>, ValueView>)
    ensures
        table.dom() == set![API_KEY@] ==> presence(table) == (true, false, false, false),
        table.dom() == set![API_KEY@, KEY1@] ==> presence(table) == (true, true, false, false),
        table.dom() == set![API_KEY@, KEY1@, API_SECRET@] ==> presence(table) == (
            true,
            true,
            true,
            false,
        ),
        table.dom() == set![API_KEY@, KEY1@, API_SECRET@, KEY2@] ==> presence(table) == (
            true,
            true,
            true,
            true,
        ),
{
    lemma_field_names_distinct();
}

/// A table with `api_key` and none of the other three classifies as
/// `HeaderKey` with the text of that field.
pub proof fn lemma_header_key_shape(table: Map<Seq<char>, ValueView>)
    requires
        presence(table) == (true, false, false, false),
    ensures
        classify_value(ValueView::Table(table)) == (AuthView::HeaderKey {
            api_key: text_or_empty(table[API_KEY@]),
        }),
{
}

/// A table with `api_key` and `key1` and neither of the other two classifies
/// as `BodyKey` with the text of those two fields.
pub proof fn lemma_body_key_shape(table: Map<Seq<char>, ValueView>)
    requires
        presence(table) == (true, true, false, false),
    ensures
        classify_value(ValueView::Table(table)) == (AuthView::BodyKey {
            api_key: text_or_empty(table[API_KEY@]),
            key1: text_or_empty(table[KEY1@]),
        }),
{
}

/// A table with `api_key`, `key1` and `api_secret` but no `key2` classifies
/// as `SignatureKey` with the text of those three fields.
pub proof fn lemma_signature_key_shape(table: Map<Seq<char>, ValueView>)
    requires
        presence(table) == (true, true, true, false),
    ensures
        classify_value(ValueView::Table(table)) == (AuthView::SignatureKey {
            api_key: text_or_empty(table[API_KEY@]),
            key1: text_or_empty(table[KEY1@]),
            api_secret: text_or_empty(table[API_SECRET@]),
        }),
{
}

/// A table with all four fields classifies as `MultiAuthKey` with the text
/// of all four.
pub proof fn lemma_multi_auth_key_shape(table: Map<Seq<char>, ValueView>)
    requires
        presence(table) == (true, true, true, true),
    ensures
        classify_value(ValueView::Table(table)) == (AuthView::MultiAuthKey {
            api_key: text_or_empty(table[API_KEY@]),
            key1: text_or_empty(table[KEY1@]),
            api_secret: text_or_empty(table[API_SECRET@]),
            key2: text_or_empty(table[KEY2@]),
        }),
{
}

/// A value that is no table, a table without `api_key`, and a table with
/// `key2` but without `api_secret` each classify as `NoKey`.
pub proof fn lemma_no_key_cases(value: ValueView)
    requires
        value matches ValueView::Table(table) ==> !presence(table).0 || (presence(table).3
            && !presence(table).2),
    ensures
        classify_value(value) == AuthView::NoKey,
{
}

/// A value classifies as something other than `NoKey` exactly when it is a
/// table whose presence pattern nests.
pub proof fn lemma_shape_recognised(value: ValueView)
    ensures
        !(classify_value(value) is NoKey) <==> (value matches ValueView::Table(table) && nested(
            presence(table),
        )),
{
}

/// Reads the field `name` of `table`, taking a value that is not a string
/// as the empty text.
fn read_field(table: &toml::Table, name: &str) -> (r: Option<String>)
    ensures
        r.deep_view() == field_of(table_view(*table), name@),
{
    match table_get(table, name) {
        Some(value) => {
            let text = match value.as_str() {
                Some(text) => text.to_owned(),
                None => String::new(),
            };
            Some(text)
        },
        None => None,
    }
}

impl CredentialFields {
    /// Reads the four recognised fields of `table`.
    pub fn read(table: &toml::Table) -> (r: Self)
        ensures
            r@ == fields_of(table_view(*table)),
    {
        CredentialFields {
            api_key: read_field(table, API_KEY),
            key1: read_field(table, KEY1),
            api_secret: read_field(table, API_SECRET),
            key2: read_field(table, KEY2),
        }
    }
}

impl ConnectorAuthType {
    /// Infers the shape from which fields are present.
    pub fn from_fields(fields: CredentialFields) -> (r: Self)
        ensures
            r@ == classify_fields(fields@),
    {
        match (fields.api_key, fields.key1, fields.api_secret, fields.key2) {
            (Some(api_key), None, None, None) => ConnectorAuthType::HeaderKey { api_key },
            (Some(api_key), Some(key1), None, None) => ConnectorAuthType::BodyKey { api_key, key1 },
            (Some(api_key), Some(key1), Some(api_secret), None) => ConnectorAuthType::SignatureKey {
                api_key,
                key1,
                api_secret,
            },
            (Some(api_key), Some(key1), Some(api_secret), Some(key2)) => {
                ConnectorAuthType::MultiAuthKey { api_key, key1, api_secret, key2 }
            },
            _ => ConnectorAuthType::NoKey,
        }
    }

    /// Classifies one connector's configuration entry.
    pub fn from_value(value: &toml::Value) -> (r: Self)
        ensures
            r@ == classify_value(value_view(*value)),
    {
        match value.as_table() {
            Some(table) => Self::from_fields(CredentialFields::read(table)),
            None => ConnectorAuthType::NoKey,
        }
    }
}

} // verus!
