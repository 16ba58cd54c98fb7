//! The plain data that the notification logic works on.
use vstd::prelude::*;

use crate::keyed::{has_name, lemma_table_push, lemma_table_update, names_unique, table_of};

verus! {

/// What the notification logic reads of the application's configuration.
#[derive(Clone, Debug)]
pub struct AppConfig {
    /// The application identifier (bundle identifier).
    pub identifier: String,
    /// The product name, used as a title when a notification has none.
    pub product_name: Option<String>,
}

/// The options of a notification.
#[derive(Clone, Debug)]
pub struct NotificationData {
    /// The notification identifier, handed back with every action on it.
    pub id: i32,
    /// The notification title.
    pub title: Option<String>,
    /// The notification body.
    pub body: Option<String>,
    /// The notification icon.
    pub icon: Option<String>,
    /// The notification sound.
    pub sound: Option<String>,
    /// The identifier of the action type of the notification.
    pub action_type_id: Option<String>,
    /// Extra payload: each key with the JSON text of its value.
    pub extra: ExtraPayload,
}

/// A notification that is still shown, as the front end sees it.
#[derive(Clone, Debug)]
pub struct ActiveNotification {
    pub id: i32,
    pub tag: Option<String>,
    pub title: Option<String>,
    pub body: Option<String>,
    pub group: Option<String>,
    pub group_summary: bool,
    pub action_type_id: Option<String>,
    pub sound: Option<String>,
}

/// The permission state of notifications.
#[derive(Clone, Copy, Debug, PartialEq, Eq, Structural)]
pub enum PermissionState {
    /// Permission to show notifications was granted.
    Granted,
    /// Permission to show notifications was denied.
    Denied,
    /// The user has to be asked.
    Prompt,
    /// The user has to be asked, with a rationale.
    PromptWithRationale,
}

/// Errors of the notification plugin.
#[derive(Clone, Debug)]
pub enum Error {
    /// A failure to read something of the running process (such as its path).
    Io(String),
    /// A failure to turn a payload into JSON.
    Json(String),
}

/// An `Option<String>` as the text it holds.
pub open spec fn opt_text(o: Option<String>) -> Option<Seq<char>> {
    match o {
        Some(s) => Some(s@),
        None => None,
    }
}

/// A copy of an optional text.
pub fn copy_text(o: &Option<String>) -> (r: Option<String>)
    ensures
        r == *o,
{
    match o {
        Some(s) => Some(s.clone()),
        None => None,
    }
}

/// (key, JSON text) pairs as texts.
pub open spec fn text_pairs(entries: Seq<(String, String)>) -> Seq<(Seq<char>, Seq<char>)> {
    entries.map_values(|e: (String, String)| (e.0@, e.1@))
}

/// Where `key` stands in `entries`, if it does.
fn key_position(entries: &Vec<(String, String)>, key: &String) -> (r: Option<usize>)
    requires
        names_unique(text_pairs(entries@)),
    ensures
        match r {
            Some(i) => i < entries@.len() && entries@[i as int].0@ == key@,
            None => !table_of(text_pairs(entries@)).contains_key(key@),
        },
{
    let mut i: usize = 0;
    while i < entries.len()
        invariant
            i <= entries@.len(),
            forall|j: int| 0 <= j < i ==> #[trigger] entries@[j].0@ != key@,
        decreases entries@.len() - i,
    {
        if entries[i].0 == *key {
            return Some(i);
        }
        i = i + 1;
    }
    proof {
        let p = text_pairs(entries@);
        if has_name(p, key@) {
            let j = choose|j: int| 0 <= j < p.len() && #[trigger] p[j].0 == key@;
            assert(p[j].0 == entries@[j].0@);
        }
    }
    None
}

/// A copy of (key, JSON text) pairs.
fn copy_pairs(entries: &Vec<(String, String)>) -> (r: Vec<(String, String)>)
    ensures
        text_pairs(r@) == text_pairs(entries@),
{
    let mut r: Vec<(String, String)> = Vec::new();
    let mut i: usize = 0;
    while i < entries.len()
        invariant
            i <= entries@.len(),
            r@ == entries@.take(i as int),
        decreases entries@.len() - i,
    {
        let k = entries[i].0.clone();
        let v = entries[i].1.clone();
        r.push((k, v));
        i = i + 1;
        assert(r@ =~= entries@.take(i as int));
    }
    assert(entries@.take(i as int) =~= entries@);
    r
}

/// The extra payload of a notification: each key at most once, with the
/// JSON text of its value.
#[derive(Debug)]
pub struct ExtraPayload {
    entries: Vec<(String, String)>,
}

impl ExtraPayload {
    /// No key occurs twice.
    #[verifier::type_invariant]
    closed spec fn keys_are_unique(&self) -> bool {
        names_unique(text_pairs(self.entries@))
    }

    /// An extra payload with no key.
    pub fn new() -> (r: Self)
        ensures
            r@ == Map::<Seq<char>, Seq<char>>::empty(),
    {
        let r = ExtraPayload { entries: Vec::new() };
        assert(r@ =~= Map::<Seq<char>, Seq<char>>::empty());
        r
    }

    /// Sets the value of `key` to the JSON text `value`, in place of any
    /// value it had.
    pub fn insert(&mut self, key: String, value: String)
        ensures
            final(self)@ == old(self)@.insert(key@, value@),
    {
        proof {
            use_type_invariant(&*self);
        }
        let mut entries: Vec<(String, String)> = Vec::new();
        std::mem::swap(&mut entries, &mut self.entries);
        let ghost p = text_pairs(entries@);
        match key_position(&entries, &key) {
            Some(i) => {
                let (name, _) = entries.remove(i);
                let ghost v = value@;
                entries.insert(i, (name, value));
                proof {
                    lemma_table_update(p, i as int, v);
                    assert(text_pairs(entries@) =~= p.update(i as int, (p[i as int].0, v)));
                }
            },
            None => {
                let ghost k = key@;
                let ghost v = value@;
                entries.push((key, value));
                proof {
                    lemma_table_push(p, k, v);
                    assert(text_pairs(entries@) =~= p.push((k, v)));
                }
            },
        }
        self.entries = entries;
    }

    /// The (key, JSON text) pairs, each key once.
    pub fn entries(&self) -> (r: Vec<(String, String)>)
        ensures
            names_unique(text_pairs(r@)),
            table_of(text_pairs(r@)) == self@,
    {
        proof {
            use_type_invariant(self);
        }
        copy_pairs(&self.entries)
    }

    /// A copy of the extra payload.
    pub fn duplicate(&self) -> (r: Self)
        ensures
            r@ == self@,
    {
        proof {
            use_type_invariant(self);
        }
        ExtraPayload { entries: copy_pairs(&self.entries) }
    }
}

impl Clone for ExtraPayload {
    /// A copy of the extra payload.
    fn clone(&self) -> (r: Self)
        ensures
            r@ == self@,
    {
        self.duplicate()
    }
}

impl View for ExtraPayload {
    type V = Map<Seq<char>, Seq<char>>;

    /// Each key with the JSON text of its value.
    closed spec fn view(&self) -> Map<Seq<char>, Seq<char>> {
        table_of(text_pairs(self.entries@))
    }
}

impl NotificationData {
    /// Holds of the options of a notification that has nothing set but its id.
    pub open spec fn is_blank(&self, id: i32) -> bool {
        &&& self.id == id
        &&& self.title is None
        &&& self.body is None
        &&& self.icon is None
        &&& self.sound is None
        &&& self.action_type_id is None
        &&& self.extra@ == Map::<Seq<char>, Seq<char>>::empty()
    }
}

impl Default for NotificationData {
    /// Options with nothing set, and id 0.
    fn default() -> (r: Self)
        ensures
            r.is_blank(0),
    {
        NotificationData {
            id: 0,
            title: None,
            body: None,
            icon: None,
            sound: None,
            action_type_id: None,
            extra: ExtraPayload::new(),
        }
    }
}

/// A notification about to be built, with the application it belongs to.
pub struct NotificationBuilder {
    /// The application's configuration.
    pub app: AppConfig,
    /// The notification's options.
    pub data: NotificationData,
}

impl NotificationBuilder {
    /// A builder for `app` whose options have nothing set.
    pub fn new(app: AppConfig) -> (r: Self)
        ensures
            r.app == app,
            r.data.is_blank(0),
    {
        NotificationBuilder { app, data: NotificationData::default() }
    }
}

} // verus!
