//! Request options: a mapping from string keys to dynamically typed values.

use vstd::prelude::*;
use vstd::hash_map::StringHashMap;

verus! {

/// A dynamically typed option value. The operations read booleans and strings;
/// every other kind of value is `Other`.
#[derive(Clone, Debug, PartialEq, Eq)]
pub enum OptionValue {
    Bool(bool),
    Str(String),
    Other,
}

/// The mathematical value of an [`OptionValue`].
pub ghost enum OptionValueView {
    Bool(bool),
    Str(Seq<char>),
    Other,
}

impl View for OptionValue {
    type V = OptionValueView;

    open spec fn view(&self) -> OptionValueView {
        match self {
            OptionValue::Bool(b) => OptionValueView::Bool(*b),
            OptionValue::Str(s) => OptionValueView::Str(s@),
            OptionValue::Other => OptionValueView::Other,
        }
    }
}

/// The mapping without a key.
pub open spec fn no_options() -> Map<Seq<char>, OptionValueView> {
    Map::empty()
}

/// `true` exactly when `key` is present in `options` with the boolean value `true`.
/// An absent key and a value of another kind both count as `false`.
pub open spec fn is_set(options: Map<Seq<char>, OptionValueView>, key: Seq<char>) -> bool {
    options.contains_key(key) && options[key] == OptionValueView::Bool(true)
}

/// The string stored under `key`, if the key is present with a string value.
pub open spec fn text_of(options: Map<Seq<char>, OptionValueView>, key: Seq<char>) -> Option<Seq<char>> {
    if options.contains_key(key) && options[key] is Str {
        Some(options[key]->Str_0)
    } else {
        None
    }
}

/// The options of one call: a hash map from keys to values. Its view is the
/// mapping from the keys' texts to the values' views.
pub struct Options {
    entries: StringHashMap<OptionValue>,
}

impl View for Options {
    type V = Map<Seq<char>, OptionValueView>;

    closed spec fn view(&self) -> Map<Seq<char>, OptionValueView> {
        self.entries@.map_values(|value: OptionValue| value@)
    }
}

impl Options {
    /// The empty mapping.
    pub fn new() -> (r: Options)
        ensures
            r@ == no_options(),
    {
        let r = Options { entries: StringHashMap::new() };
        proof {
            assert(r@ =~= no_options());
        }
        r
    }

    /// Stores `value` under `key`, replacing what was stored there.
    pub fn insert(&mut self, key: &str, value: OptionValue)
        ensures
            final(self)@ == old(self)@.insert(key@, value@),
    {
        let ghost before = self@;
        self.entries.insert(key.to_owned(), value);
        proof {
            assert(self@ =~= before.insert(key@, value@));
        }
    }

    /// The value stored under `key`, if any.
    pub fn get(&self, key: &str) -> (r: Option<&OptionValue>)
        ensures
            r is Some <==> self@.contains_key(key@),
            r is Some ==> r->Some_0@ == self@[key@],
    {
        self.entries.get(key)
    }

    /// The number of keys.
    pub fn len(&self) -> (r: usize)
        ensures
            r == self@.dom().len(),
    {
        proof {
            assert(self@.dom() =~= self.entries@.dom());
        }
        self.entries.len()
    }

    /// Whether `key` is present with the boolean value `true`.
    pub fn flag(&self, key: &str) -> (r: bool)
        ensures
            r == is_set(self@, key@),
    {
        match self.get(key) {
            Some(OptionValue::Bool(b)) => *b,
            _ => false,
        }
    }

    /// The string stored under `key`; `None` where the key is absent or holds
    /// a value of another kind.
    pub fn text(&self, key: &str) -> (r: Option<String>)
        ensures
            r is Some <==> text_of(self@, key@) is Some,
            r is Some ==> r->Some_0@ == text_of(self@, key@)->Some_0,
    {
        match self.get(key) {
            Some(OptionValue::Str(s)) => Some(s.clone()),
            _ => None,
        }
    }
}

} // verus!
