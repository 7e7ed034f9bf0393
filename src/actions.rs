//! Mutations of saved items, sent together in one batch.
use vstd::prelude::*;
use crate::json::{JsonValue, JsonModel};
use crate::url::WebUrl;
use crate::requests::{entry, str_value};
use crate::protocol::opt_view;

verus! {

pub open spec fn entries_view(es: Seq<(String, JsonValue)>) -> Seq<(Seq<char>, JsonModel)> {
    es.map_values(|e: (String, JsonValue)| (e.0@, e.1@))
}

pub proof fn lemma_object_view(es: Vec<(String, JsonValue)>)
    ensures
        JsonValue::Object(es)@ == JsonModel::Object(entries_view(es@)),
{
    assert(JsonValue::Object(es)@->Object_0 =~= entries_view(es@));
}

pub proof fn lemma_array_view(a: Vec<JsonValue>)
    ensures
        JsonValue::Array(a)@ == JsonModel::Array(a@.map_values(|x: JsonValue| x@)),
{
    assert(JsonValue::Array(a)@->Array_0 =~= a@.map_values(|x: JsonValue| x@));
}

/// An entry that is there only where its value is.
pub open spec fn opt_entry(name: Seq<char>, v: Option<JsonModel>) -> Seq<(Seq<char>, JsonModel)> {
    match v {
        Some(x) => seq![(name, x)],
        None => Seq::empty(),
    }
}

pub open spec fn opt_u64_json(o: Option<u64>) -> Option<JsonModel> {
    match o {
        Some(n) => Some(JsonModel::U64(n)),
        None => None,
    }
}

pub open spec fn opt_text_json(o: Option<Seq<char>>) -> Option<JsonModel> {
    match o {
        Some(s) => Some(JsonModel::Str(s)),
        None => None,
    }
}

fn push_entry(es: &mut Vec<(String, JsonValue)>, name: &str, v: JsonValue)
    ensures
        entries_view(final(es)@) == entries_view(old(es)@) + seq![(name@, v@)],
{
    es.push(entry(name, v));
    assert(entries_view(final(es)@) =~= entries_view(old(es)@) + seq![(name@, v@)]);
}

fn push_opt_u64(es: &mut Vec<(String, JsonValue)>, name: &str, o: Option<u64>)
    ensures
        entries_view(final(es)@) == entries_view(old(es)@) + opt_entry(name@, opt_u64_json(o)),
{
    match o {
        Some(n) => push_entry(es, name, JsonValue::U64(n)),
        None => {
            assert(entries_view(old(es)@) + opt_entry(name@, opt_u64_json(o)) =~= entries_view(old(es)@));
        },
    }
}

fn push_opt_str(es: &mut Vec<(String, JsonValue)>, name: &str, o: Option<&str>)
    ensures
        entries_view(final(es)@) == entries_view(old(es)@) + opt_entry(name@, opt_text_json(
            match o {
                Some(s) => Some(s@),
                None => None,
            },
        )),
{
    match o {
        Some(s) => push_entry(es, name, str_value(s)),
        None => {
            assert(entries_view(old(es)@) + opt_entry(name@, None) =~= entries_view(old(es)@));
        },
    }
}

fn opt_as_str(o: &Option<String>) -> (r: Option<&str>)
    ensures
        match r {
            Some(s) => opt_view(*o) == Some(s@),
            None => o is None,
        },
{
    match o {
        Some(s) => Some(s.as_str()),
        None => None,
    }
}

/// A mutation that the batch endpoint understands.
pub trait PocketAction {
    /// The wire form of this action.
    spec fn json(&self) -> JsonModel;

    /// The name the service knows this action by.
    fn name(&self) -> &'static str;

    fn to_json(&self) -> (r: JsonValue)
        ensures
            r@ == self.json(),
    ;
}

/// Adds an item, by id or by URL.
#[derive(Clone, Debug)]
pub struct PocketAddAction {
    pub item_id: Option<u64>,
    pub ref_id: Option<String>,
    pub tags: Option<String>,
    pub time: Option<u64>,
    pub title: Option<String>,
    pub url: Option<WebUrl>,
}

impl PocketAction for PocketAddAction {
    open spec fn json(&self) -> JsonModel {
        JsonModel::Object(seq![("name"@, JsonModel::Str("add"@))]
            + opt_entry("item_id"@, opt_u64_json(self.item_id))
            + opt_entry("ref_id"@, opt_text_json(opt_view(self.ref_id)))
            + opt_entry("tags"@, opt_text_json(opt_view(self.tags)))
            + opt_entry("time"@, opt_u64_json(self.time))
            + opt_entry("title"@, opt_text_json(opt_view(self.title)))
            + opt_entry("url"@, match self.url {
                Some(u) => Some(JsonModel::Str(u@)),
                None => None,
            }))
    }

    fn name(&self) -> &'static str {
        "add"
    }

    fn to_json(&self) -> (r: JsonValue) {
        let mut es: Vec<(String, JsonValue)> = Vec::new();
        push_entry(&mut es, "name", str_value("add"));
        push_opt_u64(&mut es, "item_id", self.item_id);
        push_opt_str(&mut es, "ref_id", opt_as_str(&self.ref_id));
        push_opt_str(&mut es, "tags", opt_as_str(&self.tags));
        push_opt_u64(&mut es, "time", self.time);
        push_opt_str(&mut es, "title", opt_as_str(&self.title));
        match &self.url {
            Some(u) => push_opt_str(&mut es, "url", Some(u.as_str())),
            None => push_opt_str(&mut es, "url", None),
        }
        proof { lemma_object_view(es); }
        let ghost x = seq![("name"@, JsonModel::Str("add"@))];
        assert(entries_view(es@) =~= x
            + opt_entry("item_id"@, opt_u64_json(self.item_id))
            + opt_entry("ref_id"@, opt_text_json(opt_view(self.ref_id)))
            + opt_entry("tags"@, opt_text_json(opt_view(self.tags)))
            + opt_entry("time"@, opt_u64_json(self.time))
            + opt_entry("title"@, opt_text_json(opt_view(self.title)))
            + opt_entry("url"@, match self.url {
                Some(u) => Some(JsonModel::Str(u@)),
                None => None,
            }));
        JsonValue::Object(es)
    }
}

/// The actions that name an item and nothing more.
#[derive(Clone, Copy, Debug, PartialEq, Eq, Structural)]
pub enum PocketItemActionKind {
    Archive,
    Readd,
    Favorite,
    Unfavorite,
    Delete,
    TagsClear,
}

pub open spec fn item_action_name(k: PocketItemActionKind) -> Seq<char> {
    match k {
        PocketItemActionKind::Archive => "archive"@,
        PocketItemActionKind::Readd => "readd"@,
        PocketItemActionKind::Favorite => "favorite"@,
        PocketItemActionKind::Unfavorite => "unfavorite"@,
        PocketItemActionKind::Delete => "delete"@,
        PocketItemActionKind::TagsClear => "tags_clear"@,
    }
}

impl PocketItemActionKind {
    pub fn text(&self) -> (r: &'static str)
        ensures
            r@ == item_action_name(*self),
    {
        match self {
            PocketItemActionKind::Archive => "archive",
            PocketItemActionKind::Readd => "readd",
            PocketItemActionKind::Favorite => "favorite",
            PocketItemActionKind::Unfavorite => "unfavorite",
            PocketItemActionKind::Delete => "delete",
            PocketItemActionKind::TagsClear => "tags_clear",
        }
    }
}

/// Archives, re-adds, favorites, unfavorites, deletes or clears the tags of
/// an item.
#[derive(Clone, Copy, Debug, PartialEq, Eq, Structural)]
pub struct PocketItemAction {
    pub kind: PocketItemActionKind,
    pub item_id: u64,
    pub time: Option<u64>,
}

impl PocketAction for PocketItemAction {
    open spec fn json(&self) -> JsonModel {
        JsonModel::Object(seq![("name"@, JsonModel::Str(item_action_name(self.kind))), ("item_id"@, JsonModel::U64(self.item_id))]
            + opt_entry("time"@, opt_u64_json(self.time)))
    }

    fn name(&self) -> &'static str {
        self.kind.text()
    }

    fn to_json(&self) -> (r: JsonValue) {
        let mut es: Vec<(String, JsonValue)> = Vec::new();
        push_entry(&mut es, "name", str_value(self.kind.text()));
        push_entry(&mut es, "item_id", JsonValue::U64(self.item_id));
        push_opt_u64(&mut es, "time", self.time);
        proof { lemma_object_view(es); }
        assert(entries_view(es@) =~= seq![("name"@, JsonModel::Str(item_action_name(self.kind))), ("item_id"@, JsonModel::U64(self.item_id))]
            + opt_entry("time"@, opt_u64_json(self.time)));
        JsonValue::Object(es)
    }
}

/// Adds tags to an item.
#[derive(Clone, Debug)]
pub struct PocketTagsAddAction {
    pub item_id: u64,
    pub tags: String,
    pub time: Option<u64>,
}

impl PocketAction for PocketTagsAddAction {
    open spec fn json(&self) -> JsonModel {
        JsonModel::Object(seq![("name"@, JsonModel::Str("tags_add"@)), ("item_id"@, JsonModel::U64(self.item_id)), ("tags"@, JsonModel::Str(self.tags@))]
            + opt_entry("time"@, opt_u64_json(self.time)))
    }

    fn name(&self) -> &'static str {
        "tags_add"
    }

    fn to_json(&self) -> (r: JsonValue) {
        let mut es: Vec<(String, JsonValue)> = Vec::new();
        push_entry(&mut es, "name", str_value("tags_add"));
        push_entry(&mut es, "item_id", JsonValue::U64(self.item_id));
        push_entry(&mut es, "tags", str_value(self.tags.as_str()));
        push_opt_u64(&mut es, "time", self.time);
        proof { lemma_object_view(es); }
        assert(entries_view(es@) =~= seq![("name"@, JsonModel::Str("tags_add"@)), ("item_id"@, JsonModel::U64(self.item_id)), ("tags"@, JsonModel::Str(self.tags@))]
            + opt_entry("time"@, opt_u64_json(self.time)));
        JsonValue::Object(es)
    }
}

/// Replaces the tags of an item.
#[derive(Clone, Debug)]
pub struct PocketTagsReplaceAction {
    pub item_id: u64,
    pub tags: String,
    pub time: Option<u64>,
}

impl PocketAction for PocketTagsReplaceAction {
    open spec fn json(&self) -> JsonModel {
        JsonModel::Object(seq![("name"@, JsonModel::Str("tags_replace"@)), ("item_id"@, JsonModel::U64(self.item_id)), ("tags"@, JsonModel::Str(self.tags@))]
            + opt_entry("time"@, opt_u64_json(self.time)))
    }

    fn name(&self) -> &'static str {
        "tags_replace"
    }

    fn to_json(&self) -> (r: JsonValue) {
        let mut es: Vec<(String, JsonValue)> = Vec::new();
        push_entry(&mut es, "name", str_value("tags_replace"));
        push_entry(&mut es, "item_id", JsonValue::U64(self.item_id));
        push_entry(&mut es, "tags", str_value(self.tags.as_str()));
        push_opt_u64(&mut es, "time", self.time);
        proof { lemma_object_view(es); }
        assert(entries_view(es@) =~= seq![("name"@, JsonModel::Str("tags_replace"@)), ("item_id"@, JsonModel::U64(self.item_id)), ("tags"@, JsonModel::Str(self.tags@))]
            + opt_entry("time"@, opt_u64_json(self.time)));
        JsonValue::Object(es)
    }
}

/// Renames a tag.
#[derive(Clone, Debug)]
pub struct PocketTagRenameAction {
    pub item_id: u64,
    pub old_tag: String,
    pub new_tag: String,
    pub time: Option<u64>,
}

impl PocketAction for PocketTagRenameAction {
    open spec fn json(&self) -> JsonModel {
        JsonModel::Object(seq![("name"@, JsonModel::Str("tag_rename"@)), ("item_id"@, JsonModel::U64(self.item_id)),
            ("old_tag"@, JsonModel::Str(self.old_tag@)), ("new_tag"@, JsonModel::Str(self.new_tag@))]
            + opt_entry("time"@, opt_u64_json(self.time)))
    }

    fn name(&self) -> &'static str {
        "tag_rename"
    }

    fn to_json(&self) -> (r: JsonValue) {
        let mut es: Vec<(String, JsonValue)> = Vec::new();
        push_entry(&mut es, "name", str_value("tag_rename"));
        push_entry(&mut es, "item_id", JsonValue::U64(self.item_id));
        push_entry(&mut es, "old_tag", str_value(self.old_tag.as_str()));
        push_entry(&mut es, "new_tag", str_value(self.new_tag.as_str()));
        push_opt_u64(&mut es, "time", self.time);
        proof { lemma_object_view(es); }
        assert(entries_view(es@) =~= seq![("name"@, JsonModel::Str("tag_rename"@)), ("item_id"@, JsonModel::U64(self.item_id)),
            ("old_tag"@, JsonModel::Str(self.old_tag@)), ("new_tag"@, JsonModel::Str(self.new_tag@))]
            + opt_entry("time"@, opt_u64_json(self.time)));
        JsonValue::Object(es)
    }
}

/// Any one action of a batch.
#[derive(Clone, Debug)]
pub enum Action {
    Add(PocketAddAction),
    Item(PocketItemAction),
    TagsAdd(PocketTagsAddAction),
    TagsReplace(PocketTagsReplaceAction),
    TagRename(PocketTagRenameAction),
}

impl PocketAction for Action {
    open spec fn json(&self) -> JsonModel {
        match self {
            Action::Add(a) => a.json(),
            Action::Item(a) => a.json(),
            Action::TagsAdd(a) => a.json(),
            Action::TagsReplace(a) => a.json(),
            Action::TagRename(a) => a.json(),
        }
    }

    fn name(&self) -> &'static str {
        match self {
            Action::Add(a) => a.name(),
            Action::Item(a) => a.name(),
            Action::TagsAdd(a) => a.name(),
            Action::TagsReplace(a) => a.name(),
            Action::TagRename(a) => a.name(),
        }
    }

    fn to_json(&self) -> (r: JsonValue) {
        match self {
            Action::Add(a) => a.to_json(),
            Action::Item(a) => a.to_json(),
            Action::TagsAdd(a) => a.to_json(),
            Action::TagsReplace(a) => a.to_json(),
            Action::TagRename(a) => a.to_json(),
        }
    }
}

/// The body of a batch: the session's credentials and the actions, in order.
pub struct PocketSendRequest {
    pub consumer_key: String,
    pub access_token: String,
    pub actions: Vec<Action>,
}

pub open spec fn send_request_json(r: PocketSendRequest) -> JsonModel {
    JsonModel::Object(seq![
        ("consumer_key"@, JsonModel::Str(r.consumer_key@)),
        ("access_token"@, JsonModel::Str(r.access_token@)),
        ("actions"@, JsonModel::Array(r.actions@.map_values(|a: Action| a.json()))),
    ])
}

impl PocketSendRequest {
    pub fn to_json(&self) -> (r: JsonValue)
        ensures
            r@ == send_request_json(*self),
    {
        let mut list: Vec<JsonValue> = Vec::new();
        let mut i: usize = 0;
        while i < self.actions.len()
            invariant
                0 <= i <= self.actions.len(),
                list@.len() == i,
                forall|k: int| 0 <= k < i ==> (#[trigger] list@[k])@ == self.actions@[k].json(),
            decreases self.actions.len() - i,
        {
            list.push(self.actions[i].to_json());
            i = i + 1;
        }
        proof { lemma_array_view(list); }
        assert(list@.map_values(|x: JsonValue| x@) =~= self.actions@.map_values(|a: Action| a.json()));
        let actions = JsonValue::Array(list);
        let mut es: Vec<(String, JsonValue)> = Vec::new();
        es.push(entry("consumer_key", str_value(self.consumer_key.as_str())));
        es.push(entry("access_token", str_value(self.access_token.as_str())));
        es.push(entry("actions", actions));
        let r = JsonValue::Object(es);
        assert(r@->Object_0 =~= send_request_json(*self)->Object_0);
        r
    }
}

} // verus!
