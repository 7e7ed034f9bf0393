//! Saved items, as the listing and the add endpoints return them.
use vstd::prelude::*;
use crate::json::{JsonValue, JsonModel};
use crate::url::WebUrl;
use crate::wire::{
    DecodeError, first_err, lemma_first_err_extend, PocketItemHas, PocketItemStatus, Timestamp, then, field_unsigned, field_flag,
    field_has, field_status, field_time, field_str, field_unsigned_value, field_usize_value,
    field_flag_value, field_has_value, field_status_value, field_time_value, field_str_value,
};
use crate::media::{
    ItemImage, ItemVideo, yields, field_url, field_url_value, field_u16_value, field_images,
    field_videos, field_images_check, field_videos_check, field_images_match, field_videos_match,
    opt_seq, field_list, images_match, videos_match,
};

verus! {

/// A saved item, as the listing endpoint returns it.
#[derive(Clone, Debug, PartialEq, Eq)]
pub struct PocketItem {
    pub item_id: u64,
    pub given_url: WebUrl,
    pub given_title: String,
    pub word_count: usize,
    pub excerpt: String,
    pub time_added: Timestamp,
    pub time_read: Timestamp,
    pub time_updated: Timestamp,
    pub time_favorited: Timestamp,
    pub favorite: bool,
    pub is_index: bool,
    pub is_article: bool,
    pub has_image: PocketItemHas,
    pub has_video: PocketItemHas,
    pub resolved_id: u64,
    pub resolved_title: String,
    pub resolved_url: WebUrl,
    pub sort_id: usize,
    pub status: PocketItemStatus,
    pub images: Option<Vec<ItemImage>>,
    pub videos: Option<Vec<ItemVideo>>,
}

/// The first error, in field order, of decoding an item from `v`.
pub open spec fn item_check(v: JsonModel) -> Result<(), DecodeError> {
    then(field_unsigned(v, "item_id", u64::MAX),
    then(field_url(v, "given_url"),
    then(field_str(v, "given_title"),
    then(field_unsigned(v, "word_count", usize::MAX as u64),
    then(field_str(v, "excerpt"),
    then(field_time(v, "time_added"),
    then(field_time(v, "time_read"),
    then(field_time(v, "time_updated"),
    then(field_time(v, "time_favorited"),
    then(field_flag(v, "favorite"),
    then(field_flag(v, "is_index"),
    then(field_flag(v, "is_article"),
    then(field_has(v, "has_image"),
    then(field_has(v, "has_video"),
    then(field_unsigned(v, "resolved_id", u64::MAX),
    then(field_str(v, "resolved_title"),
    then(field_url(v, "resolved_url"),
    then(field_unsigned(v, "sort_id", usize::MAX as u64),
    then(field_status(v, "status"),
    then(field_videos_check(v, "videos"),
    then(field_images_check(v, "images"), Ok(()))))))))))))))))))))))
}

/// `it` holds the fields decoded from `v`.
pub open spec fn item_fields(v: JsonModel, it: PocketItem) -> bool {
    &&& yields(field_unsigned(v, "item_id", u64::MAX), it.item_id)
    &&& yields(field_url(v, "given_url"), it.given_url@)
    &&& yields(field_str(v, "given_title"), it.given_title@)
    &&& yields(field_unsigned(v, "word_count", usize::MAX as u64), it.word_count as u64)
    &&& yields(field_str(v, "excerpt"), it.excerpt@)
    &&& yields(field_time(v, "time_added"), it.time_added)
    &&& yields(field_time(v, "time_read"), it.time_read)
    &&& yields(field_time(v, "time_updated"), it.time_updated)
    &&& yields(field_time(v, "time_favorited"), it.time_favorited)
    &&& yields(field_flag(v, "favorite"), it.favorite)
    &&& yields(field_flag(v, "is_index"), it.is_index)
    &&& yields(field_flag(v, "is_article"), it.is_article)
    &&& yields(field_has(v, "has_image"), it.has_image)
    &&& yields(field_has(v, "has_video"), it.has_video)
    &&& yields(field_unsigned(v, "resolved_id", u64::MAX), it.resolved_id)
    &&& yields(field_str(v, "resolved_title"), it.resolved_title@)
    &&& yields(field_url(v, "resolved_url"), it.resolved_url@)
    &&& yields(field_unsigned(v, "sort_id", usize::MAX as u64), it.sort_id as u64)
    &&& yields(field_status(v, "status"), it.status)
    &&& field_videos_match(v, "videos", opt_seq(it.videos))
    &&& field_images_match(v, "images", opt_seq(it.images))
}

impl PocketItem {
    /// Decodes an item; any field that fails fails the whole item.
    #[verifier::rlimit(40)]
    pub fn decode(v: &JsonValue) -> (r: Result<PocketItem, DecodeError>)
        ensures
            match r {
                Ok(it) => item_check(v@) is Ok && item_fields(v@, it),
                Err(e) => item_check(v@) == Err::<(), DecodeError>(e),
            },
    {
        let item_id = field_unsigned_value(v, "item_id", u64::MAX)?;
        let given_url = field_url_value(v, "given_url")?;
        let given_title = field_str_value(v, "given_title")?;
        let word_count = field_usize_value(v, "word_count")?;
        let excerpt = field_str_value(v, "excerpt")?;
        let time_added = field_time_value(v, "time_added")?;
        let time_read = field_time_value(v, "time_read")?;
        let time_updated = field_time_value(v, "time_updated")?;
        let time_favorited = field_time_value(v, "time_favorited")?;
        let favorite = field_flag_value(v, "favorite")?;
        let is_index = field_flag_value(v, "is_index")?;
        let is_article = field_flag_value(v, "is_article")?;
        let has_image = field_has_value(v, "has_image")?;
        let has_video = field_has_value(v, "has_video")?;
        let resolved_id = field_unsigned_value(v, "resolved_id", u64::MAX)?;
        let resolved_title = field_str_value(v, "resolved_title")?;
        let resolved_url = field_url_value(v, "resolved_url")?;
        let sort_id = field_usize_value(v, "sort_id")?;
        let status = field_status_value(v, "status")?;
        let videos = field_videos(v, "videos")?;
        let images = field_images(v, "images")?;
        Ok(PocketItem {
            item_id,
            given_url,
            given_title,
            word_count,
            excerpt,
            time_added,
            time_read,
            time_updated,
            time_favorited,
            favorite,
            is_index,
            is_article,
            has_image,
            has_video,
            resolved_id,
            resolved_title,
            resolved_url,
            sort_id,
            status,
            images,
            videos,
        })
    }
}

/// A saved item, as the add endpoint returns it right after adding a URL.
#[derive(Clone, Debug, PartialEq, Eq)]
pub struct PocketAddedItem {
    pub item_id: u64,
    pub extended_item_id: u64,
    pub given_url: WebUrl,
    pub normal_url: WebUrl,
    pub content_length: usize,
    pub word_count: usize,
    pub encoding: String,
    pub mime_type: String,
    pub lang: String,
    pub title: String,
    pub excerpt: String,
    pub date_published: String,
    pub date_resolved: String,
    pub resolved_id: u64,
    pub resolved_url: WebUrl,
    pub resolved_normal_url: WebUrl,
    pub login_required: bool,
    pub response_code: u16,
    pub used_fallback: bool,
    pub domain_id: u64,
    pub origin_domain_id: u64,
    pub innerdomain_redirect: bool,
    pub is_index: bool,
    pub is_article: bool,
    pub has_image: PocketItemHas,
    pub has_video: PocketItemHas,
    pub videos: Vec<ItemVideo>,
    pub images: Vec<ItemImage>,
}

/// `imgs` holds the images of field `name`; none where it is absent or `null`.
pub open spec fn images_or_empty(v: JsonModel, name: &'static str, imgs: Seq<ItemImage>) -> bool {
    match field_list(v, name) {
        Ok(Some(s)) => images_match(s, imgs),
        Ok(None) => imgs.len() == 0,
        Err(_) => false,
    }
}

pub open spec fn videos_or_empty(v: JsonModel, name: &'static str, vids: Seq<ItemVideo>) -> bool {
    match field_list(v, name) {
        Ok(Some(s)) => videos_match(s, vids),
        Ok(None) => vids.len() == 0,
        Err(_) => false,
    }
}

/// The first error among the first thirteen fields of an added item.
pub open spec fn added_item_head_check(v: JsonModel) -> Result<(), DecodeError> {
    then(field_unsigned(v, "item_id", u64::MAX),
    then(field_unsigned(v, "extended_item_id", u64::MAX),
    then(field_url(v, "given_url"),
    then(field_url(v, "normal_url"),
    then(field_unsigned(v, "content_length", usize::MAX as u64),
    then(field_unsigned(v, "word_count", usize::MAX as u64),
    then(field_str(v, "encoding"),
    then(field_str(v, "mime_type"),
    then(field_str(v, "lang"),
    then(field_str(v, "title"),
    then(field_str(v, "excerpt"),
    then(field_str(v, "date_published"),
    then(field_str(v, "date_resolved"),
    Ok(()))))))))))))))
}

/// The first error among the remaining fields of an added item.
pub open spec fn added_item_tail_check(v: JsonModel) -> Result<(), DecodeError> {
    then(field_unsigned(v, "resolved_id", u64::MAX),
    then(field_url(v, "resolved_url"),
    then(field_url(v, "resolved_normal_url"),
    then(field_flag(v, "login_required"),
    then(field_unsigned(v, "response_code", 0xffff),
    then(field_flag(v, "used_fallback"),
    then(field_unsigned(v, "domain_id", u64::MAX),
    then(field_unsigned(v, "origin_domain_id", u64::MAX),
    then(field_flag(v, "innerdomain_redirect"),
    then(field_flag(v, "is_index"),
    then(field_flag(v, "is_article"),
    then(field_has(v, "has_image"),
    then(field_has(v, "has_video"),
    then(field_videos_check(v, "videos"),
    then(field_images_check(v, "images"), Ok(()))))))))))))))))
}

/// The first error, in field order, of decoding an added item from `v`.
pub open spec fn added_item_check(v: JsonModel) -> Result<(), DecodeError> {
    then(added_item_head_check(v), added_item_tail_check(v))
}

/// `it` holds the fields decoded from `v`.
pub open spec fn added_item_fields(v: JsonModel, it: PocketAddedItem) -> bool {
    &&& yields(field_unsigned(v, "item_id", u64::MAX), it.item_id)
    &&& yields(field_unsigned(v, "extended_item_id", u64::MAX), it.extended_item_id)
    &&& yields(field_url(v, "given_url"), it.given_url@)
    &&& yields(field_url(v, "normal_url"), it.normal_url@)
    &&& yields(field_unsigned(v, "content_length", usize::MAX as u64), it.content_length as u64)
    &&& yields(field_unsigned(v, "word_count", usize::MAX as u64), it.word_count as u64)
    &&& yields(field_str(v, "encoding"), it.encoding@)
    &&& yields(field_str(v, "mime_type"), it.mime_type@)
    &&& yields(field_str(v, "lang"), it.lang@)
    &&& yields(field_str(v, "title"), it.title@)
    &&& yields(field_str(v, "excerpt"), it.excerpt@)
    &&& yields(field_str(v, "date_published"), it.date_published@)
    &&& yields(field_str(v, "date_resolved"), it.date_resolved@)
    &&& yields(field_unsigned(v, "resolved_id", u64::MAX), it.resolved_id)
    &&& yields(field_url(v, "resolved_url"), it.resolved_url@)
    &&& yields(field_url(v, "resolved_normal_url"), it.resolved_normal_url@)
    &&& yields(field_flag(v, "login_required"), it.login_required)
    &&& yields(field_unsigned(v, "response_code", 0xffff), it.response_code as u64)
    &&& yields(field_flag(v, "used_fallback"), it.used_fallback)
    &&& yields(field_unsigned(v, "domain_id", u64::MAX), it.domain_id)
    &&& yields(field_unsigned(v, "origin_domain_id", u64::MAX), it.origin_domain_id)
    &&& yields(field_flag(v, "innerdomain_redirect"), it.innerdomain_redirect)
    &&& yields(field_flag(v, "is_index"), it.is_index)
    &&& yields(field_flag(v, "is_article"), it.is_article)
    &&& yields(field_has(v, "has_image"), it.has_image)
    &&& yields(field_has(v, "has_video"), it.has_video)
    &&& videos_or_empty(v, "videos", it.videos@)
    &&& images_or_empty(v, "images", it.images@)
}

impl PocketAddedItem {
    /// Decodes an added item; any field that fails fails the whole item.
    #[verifier::rlimit(60)]
    pub fn decode(v: &JsonValue) -> (r: Result<PocketAddedItem, DecodeError>)
        ensures
            match r {
                Ok(it) => added_item_check(v@) is Ok && added_item_fields(v@, it),
                Err(e) => added_item_check(v@) == Err::<(), DecodeError>(e),
            },
    {
        let item_id = field_unsigned_value(v, "item_id", u64::MAX)?;
        let extended_item_id = field_unsigned_value(v, "extended_item_id", u64::MAX)?;
        let given_url = field_url_value(v, "given_url")?;
        let normal_url = field_url_value(v, "normal_url")?;
        let content_length = field_usize_value(v, "content_length")?;
        let word_count = field_usize_value(v, "word_count")?;
        let encoding = field_str_value(v, "encoding")?;
        let mime_type = field_str_value(v, "mime_type")?;
        let lang = field_str_value(v, "lang")?;
        let title = field_str_value(v, "title")?;
        let excerpt = field_str_value(v, "excerpt")?;
        let date_published = field_str_value(v, "date_published")?;
        let date_resolved = field_str_value(v, "date_resolved")?;
        let resolved_id = field_unsigned_value(v, "resolved_id", u64::MAX)?;
        let resolved_url = field_url_value(v, "resolved_url")?;
        let resolved_normal_url = field_url_value(v, "resolved_normal_url")?;
        let login_required = field_flag_value(v, "login_required")?;
        let response_code = field_u16_value(v, "response_code")?;
        let used_fallback = field_flag_value(v, "used_fallback")?;
        let domain_id = field_unsigned_value(v, "domain_id", u64::MAX)?;
        let origin_domain_id = field_unsigned_value(v, "origin_domain_id", u64::MAX)?;
        let innerdomain_redirect = field_flag_value(v, "innerdomain_redirect")?;
        let is_index = field_flag_value(v, "is_index")?;
        let is_article = field_flag_value(v, "is_article")?;
        let has_image = field_has_value(v, "has_image")?;
        let has_video = field_has_value(v, "has_video")?;
        let videos = match field_videos(v, "videos")? {
            Some(l) => l,
            None => Vec::new(),
        };
        let images = match field_images(v, "images")? {
            Some(l) => l,
            None => Vec::new(),
        };
        Ok(PocketAddedItem {
            item_id,
            extended_item_id,
            given_url,
            normal_url,
            content_length,
            word_count,
            encoding,
            mime_type,
            lang,
            title,
            excerpt,
            date_published,
            date_resolved,
            resolved_id,
            resolved_url,
            resolved_normal_url,
            login_required,
            response_code,
            used_fallback,
            domain_id,
            origin_domain_id,
            innerdomain_redirect,
            is_index,
            is_article,
            has_image,
            has_video,
            videos,
            images,
        })
    }
}

pub open spec fn items_check(vs: Seq<JsonModel>) -> Result<(), DecodeError> {
    first_err(vs.map_values(|x: JsonModel| item_check(x)))
}

pub open spec fn items_match(vs: Seq<JsonModel>, its: Seq<PocketItem>) -> bool {
    its.len() == vs.len() && forall|i: int| 0 <= i < vs.len() ==> item_fields(vs[i], #[trigger] its[i])
}

impl PocketItem {
    /// Decodes a list of items, in order; the first that fails fails the list.
    pub fn decode_all(vs: &Vec<&JsonValue>) -> (r: Result<Vec<PocketItem>, DecodeError>)
        ensures
            match r {
                Ok(its) => items_check(vs@.map_values(|x: &JsonValue| x@)) is Ok
                    && items_match(vs@.map_values(|x: &JsonValue| x@), its@),
                Err(e) => items_check(vs@.map_values(|x: &JsonValue| x@)) == Err::<(), DecodeError>(e),
            },
    {
        let ghost model = vs@.map_values(|x: &JsonValue| x@);
        let ghost rs = model.map_values(|x: JsonModel| item_check(x));
        let mut out: Vec<PocketItem> = Vec::new();
        let mut i: usize = 0;
        while i < vs.len()
            invariant
                0 <= i <= vs.len(),
                model == vs@.map_values(|x: &JsonValue| x@),
                rs == model.map_values(|x: JsonModel| item_check(x)),
                first_err(rs.take(i as int)) is Ok,
                out@.len() == i,
                forall|k: int| 0 <= k < i ==> item_fields(model[k], #[trigger] out@[k]),
            decreases vs.len() - i,
        {
            assert(rs.take(i + 1).drop_last() =~= rs.take(i as int));
            match PocketItem::decode(vs[i]) {
                Ok(it) => {
                    out.push(it);
                },
                Err(e) => {
                    proof { lemma_first_err_extend(rs, i + 1); }
                    return Err(e);
                },
            }
            i = i + 1;
        }
        assert(rs.take(vs.len() as int) =~= rs);
        Ok(out)
    }
}

} // verus!
