//! The bodies the endpoints answer with.
use vstd::prelude::*;
use crate::json::{JsonValue, JsonModel};
use crate::wire::{
    DecodeError, ExpectedKind, Timestamp, then, first_err, lemma_first_err_extend, field_value,
    list_values, field_unsigned, field_flag, field_str, field_opt_str, field_time, field,
    field_unsigned_value, field_flag_value, field_str_value, field_opt_str_value, field_time_value,
    list_items,
};
use crate::items::{PocketItem, PocketAddedItem, items_check, items_match, added_item_check, added_item_fields};
use crate::media::yields;
use crate::protocol::opt_view;

verus! {

/// Answer to the first authorization step.
#[derive(Debug)]
pub struct PocketOAuthResponse {
    pub code: String,
    pub state: Option<String>,
}

/// Answer to the second authorization step.
#[derive(Debug)]
pub struct PocketAuthorizeResponse {
    pub access_token: String,
    pub username: String,
}

/// Answer to adding a URL.
#[derive(Debug)]
pub struct PocketAddResponse {
    pub item: PocketAddedItem,
    pub status: u16,
}

/// Answer to listing items.
#[derive(Debug)]
pub struct PocketGetResponse {
    pub list: Vec<PocketItem>,
    pub status: u16,
    pub complete: bool,
    pub error: Option<String>,
    pub since: Timestamp,
}

/// Answer to a batch of actions: one success flag per action, in order.
#[derive(Debug)]
pub struct PocketSendResponse {
    pub status: u16,
    pub action_results: Vec<bool>,
}

pub open spec fn oauth_check(v: JsonModel) -> Result<(), DecodeError> {
    then(field_str(v, "code"), then(field_opt_str(v, "state"), Ok(())))
}

pub open spec fn authorize_check(v: JsonModel) -> Result<(), DecodeError> {
    then(field_str(v, "access_token"), then(field_str(v, "username"), Ok(())))
}

/// A required field decoded by `decode` (its first error given by `check`).
pub open spec fn field_item_check(v: JsonModel, name: &'static str) -> Result<(), DecodeError> {
    match field_value(v, name) {
        Ok(Some(x)) => added_item_check(x),
        Ok(None) => Err(DecodeError::MissingField(name)),
        Err(e) => Err(e),
    }
}

pub open spec fn add_check(v: JsonModel) -> Result<(), DecodeError> {
    then(field_item_check(v, "item"), then(field_unsigned(v, "status", 0xffff), Ok(())))
}

pub open spec fn field_items_check(v: JsonModel, name: &'static str) -> Result<(), DecodeError> {
    match field_value(v, name) {
        Ok(Some(x)) => match list_values(x) {
            Ok(s) => items_check(s),
            Err(e) => Err(e),
        },
        Ok(None) => Err(DecodeError::MissingField(name)),
        Err(e) => Err(e),
    }
}

pub open spec fn field_items_match(v: JsonModel, name: &'static str, its: Seq<PocketItem>) -> bool {
    match field_value(v, name) {
        Ok(Some(x)) => match list_values(x) {
            Ok(s) => items_match(s, its),
            Err(_) => false,
        },
        _ => false,
    }
}

pub open spec fn get_check(v: JsonModel) -> Result<(), DecodeError> {
    then(field_items_check(v, "list"),
    then(field_unsigned(v, "status", 0xffff),
    then(field_flag(v, "complete"),
    then(field_opt_str(v, "error"),
    then(field_time(v, "since"), Ok(()))))))
}

pub open spec fn read_bool(v: JsonModel) -> Result<bool, DecodeError> {
    match v {
        JsonModel::Bool(b) => Ok(b),
        _ => Err(DecodeError::Expected(ExpectedKind::Boolean)),
    }
}

pub open spec fn bools_check(vs: Seq<JsonModel>) -> Result<(), DecodeError> {
    first_err(vs.map_values(|x: JsonModel| match read_bool(x) {
        Ok(_) => Ok(()),
        Err(e) => Err(e),
    }))
}

/// The flags of a required list field, in order.
pub open spec fn field_bools(v: JsonModel, name: &'static str) -> Result<Seq<JsonModel>, DecodeError> {
    match field_value(v, name) {
        Ok(Some(x)) => list_values(x),
        Ok(None) => Err(DecodeError::MissingField(name)),
        Err(e) => Err(e),
    }
}

pub open spec fn field_bools_check(v: JsonModel, name: &'static str) -> Result<(), DecodeError> {
    match field_bools(v, name) {
        Ok(s) => bools_check(s),
        Err(e) => Err(e),
    }
}

pub open spec fn send_check(v: JsonModel) -> Result<(), DecodeError> {
    then(field_unsigned(v, "status", 0xffff), then(field_bools_check(v, "action_results"), Ok(())))
}

impl PocketOAuthResponse {
    pub fn decode(v: &JsonValue) -> (r: Result<PocketOAuthResponse, DecodeError>)
        ensures
            match r {
                Ok(o) => oauth_check(v@) is Ok && yields(field_str(v@, "code"), o.code@)
                    && yields(field_opt_str(v@, "state"), opt_view(o.state)),
                Err(e) => oauth_check(v@) == Err::<(), DecodeError>(e),
            },
    {
        let code = field_str_value(v, "code")?;
        let state = field_opt_str_value(v, "state")?;
        Ok(PocketOAuthResponse { code, state })
    }
}

impl PocketAuthorizeResponse {
    pub fn decode(v: &JsonValue) -> (r: Result<PocketAuthorizeResponse, DecodeError>)
        ensures
            match r {
                Ok(a) => authorize_check(v@) is Ok && yields(field_str(v@, "access_token"), a.access_token@)
                    && yields(field_str(v@, "username"), a.username@),
                Err(e) => authorize_check(v@) == Err::<(), DecodeError>(e),
            },
    {
        let access_token = field_str_value(v, "access_token")?;
        let username = field_str_value(v, "username")?;
        Ok(PocketAuthorizeResponse { access_token, username })
    }
}

impl PocketAddResponse {
    pub fn decode(v: &JsonValue) -> (r: Result<PocketAddResponse, DecodeError>)
        ensures
            match r {
                Ok(a) => add_check(v@) is Ok && yields(field_unsigned(v@, "status", 0xffff), a.status as u64)
                    && (field_value(v@, "item") matches Ok(Some(x)) && added_item_fields(x, a.item)),
                Err(e) => add_check(v@) == Err::<(), DecodeError>(e),
            },
    {
        let item = match field(v, "item")? {
            Some(x) => PocketAddedItem::decode(x)?,
            None => return Err(DecodeError::MissingField("item")),
        };
        let status = field_unsigned_value(v, "status", 0xffff)?;
        Ok(PocketAddResponse { item, status: status as u16 })
    }
}

impl PocketGetResponse {
    pub fn decode(v: &JsonValue) -> (r: Result<PocketGetResponse, DecodeError>)
        ensures
            match r {
                Ok(g) => get_check(v@) is Ok && field_items_match(v@, "list", g.list@)
                    && yields(field_unsigned(v@, "status", 0xffff), g.status as u64)
                    && yields(field_flag(v@, "complete"), g.complete)
                    && yields(field_opt_str(v@, "error"), opt_view(g.error))
                    && yields(field_time(v@, "since"), g.since),
                Err(e) => get_check(v@) == Err::<(), DecodeError>(e),
            },
    {
        let list = match field(v, "list")? {
            Some(x) => {
                let items = list_items(x)?;
                PocketItem::decode_all(&items)?
            },
            None => return Err(DecodeError::MissingField("list")),
        };
        let status = field_unsigned_value(v, "status", 0xffff)?;
        let complete = field_flag_value(v, "complete")?;
        let error = field_opt_str_value(v, "error")?;
        let since = field_time_value(v, "since")?;
        Ok(PocketGetResponse { list, status: status as u16, complete, error, since })
    }
}

pub fn read_bools(vs: &Vec<&JsonValue>) -> (r: Result<Vec<bool>, DecodeError>)
    ensures
        match r {
            Ok(bs) => bools_check(vs@.map_values(|x: &JsonValue| x@)) is Ok && bs.len() == vs.len()
                && forall|i: int| 0 <= i < vs.len() ==> read_bool(vs@[i]@) == Ok::<bool, DecodeError>(#[trigger] bs@[i]),
            Err(e) => bools_check(vs@.map_values(|x: &JsonValue| x@)) == Err::<(), DecodeError>(e),
        },
{
    let ghost model = vs@.map_values(|x: &JsonValue| x@);
    let ghost rs = model.map_values(|x: JsonModel| match read_bool(x) {
        Ok(_) => Ok(()),
        Err(e) => Err(e),
    });
    let mut out: Vec<bool> = Vec::new();
    let mut i: usize = 0;
    while i < vs.len()
        invariant
            0 <= i <= vs.len(),
            model == vs@.map_values(|x: &JsonValue| x@),
            rs == model.map_values(|x: JsonModel| match read_bool(x) {
                Ok(_) => Ok(()),
                Err(e) => Err(e),
            }),
            first_err(rs.take(i as int)) is Ok,
            out@.len() == i,
            forall|k: int| 0 <= k < i ==> read_bool(vs@[k]@) == Ok::<bool, DecodeError>(#[trigger] out@[k]),
        decreases vs.len() - i,
    {
        assert(rs.take(i + 1).drop_last() =~= rs.take(i as int));
        match vs[i] {
            JsonValue::Bool(b) => {
                out.push(*b);
            },
            _ => {
                proof { lemma_first_err_extend(rs, i + 1); }
                return Err(DecodeError::Expected(ExpectedKind::Boolean));
            },
        }
        i = i + 1;
    }
    assert(rs.take(vs.len() as int) =~= rs);
    Ok(out)
}

impl PocketSendResponse {
    pub fn decode(v: &JsonValue) -> (r: Result<PocketSendResponse, DecodeError>)
        ensures
            match r {
                Ok(s) => send_check(v@) is Ok && yields(field_unsigned(v@, "status", 0xffff), s.status as u64)
                    && (field_bools(v@, "action_results") matches Ok(bs) && s.action_results.len() == bs.len()
                    && forall|i: int| 0 <= i < bs.len() ==> read_bool(bs[i]) == Ok::<bool, DecodeError>(#[trigger] s.action_results@[i])),
                Err(e) => send_check(v@) == Err::<(), DecodeError>(e),
            },
    {
        let status = field_unsigned_value(v, "status", 0xffff)?;
        let action_results = match field(v, "action_results")? {
            Some(x) => {
                let items = list_items(x)?;
                read_bools(&items)?
            },
            None => return Err(DecodeError::MissingField("action_results")),
        };
        Ok(PocketSendResponse { status: status as u16, action_results })
    }
}

} // verus!
