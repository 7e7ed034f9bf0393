//! Images and videos attached to a saved item.
use vstd::prelude::*;
use crate::json::{JsonValue, JsonModel};
use crate::url::{WebUrl, parsed_url};
use crate::wire::{
    DecodeError, field_value, first_err, list_values, lemma_first_err_extend, read_str, read_unsigned,
    then, field_unsigned, field_str, field, field_unsigned_value, field_str_value, list_items,
    read_str_value, read_unsigned_value, viewed,
};

verus! {

/// `r` succeeded with `t`.
pub open spec fn yields<T>(r: Result<T, DecodeError>, t: T) -> bool {
    r == Ok::<T, DecodeError>(t)
}

pub open spec fn read_url(v: JsonModel) -> Result<Seq<char>, DecodeError> {
    match read_str(v) {
        Ok(s) => match parsed_url(s) {
            Some(u) => Ok(u),
            None => Err(DecodeError::InvalidUrl),
        },
        Err(e) => Err(e),
    }
}

pub open spec fn field_url(v: JsonModel, name: &'static str) -> Result<Seq<char>, DecodeError> {
    match field_value(v, name) {
        Ok(Some(x)) => read_url(x),
        Ok(None) => Err(DecodeError::MissingField(name)),
        Err(e) => Err(e),
    }
}

/// An optional unsigned field: absent and `null` both mean `None`.
pub open spec fn field_opt_unsigned(v: JsonModel, name: &'static str, max: u64) -> Result<Option<u64>, DecodeError> {
    match field_value(v, name) {
        Ok(Some(JsonModel::Null)) | Ok(None) => Ok(None),
        Ok(Some(x)) => match read_unsigned(x, max) {
            Ok(n) => Ok(Some(n)),
            Err(e) => Err(e),
        },
        Err(e) => Err(e),
    }
}

/// The elements of an optional list field: absent and `null` both mean `None`.
pub open spec fn field_list(v: JsonModel, name: &'static str) -> Result<Option<Seq<JsonModel>>, DecodeError> {
    match field_value(v, name) {
        Ok(Some(JsonModel::Null)) | Ok(None) => Ok(None),
        Ok(Some(x)) => match list_values(x) {
            Ok(s) => Ok(Some(s)),
            Err(e) => Err(e),
        },
        Err(e) => Err(e),
    }
}

pub fn read_url_value(v: &JsonValue) -> (r: Result<WebUrl, DecodeError>)
    ensures
        viewed(r) == read_url(v@),
{
    match read_str_value(v) {
        Ok(s) => match WebUrl::parse(s.as_str()) {
            Some(u) => Ok(u),
            None => Err(DecodeError::InvalidUrl),
        },
        Err(e) => Err(e),
    }
}

pub fn field_url_value(v: &JsonValue, name: &'static str) -> (r: Result<WebUrl, DecodeError>)
    ensures
        viewed(r) == field_url(v@, name),
{
    match field(v, name) {
        Ok(Some(x)) => read_url_value(x),
        Ok(None) => Err(DecodeError::MissingField(name)),
        Err(e) => Err(e),
    }
}

pub fn field_u16_value(v: &JsonValue, name: &'static str) -> (r: Result<u16, DecodeError>)
    ensures
        match r {
            Ok(n) => yields(field_unsigned(v@, name, 0xffff), n as u64),
            Err(e) => field_unsigned(v@, name, 0xffff) == Err::<u64, DecodeError>(e),
        },
{
    match field_unsigned_value(v, name, 0xffff) {
        Ok(n) => Ok(n as u16),
        Err(e) => Err(e),
    }
}

pub fn field_opt_usize_value(v: &JsonValue, name: &'static str) -> (r: Result<Option<usize>, DecodeError>)
    ensures
        match r {
            Ok(Some(n)) => yields(field_opt_unsigned(v@, name, usize::MAX as u64), Some(n as u64)),
            Ok(None) => yields(field_opt_unsigned(v@, name, usize::MAX as u64), None),
            Err(e) => field_opt_unsigned(v@, name, usize::MAX as u64) == Err::<Option<u64>, DecodeError>(e),
        },
{
    match field(v, name) {
        Ok(Some(JsonValue::Null)) | Ok(None) => Ok(None),
        Ok(Some(x)) => match read_unsigned_value(x, usize::MAX as u64) {
            Ok(n) => Ok(Some(n as usize)),
            Err(e) => Err(e),
        },
        Err(e) => Err(e),
    }
}

/// The elements of an optional list field, in order.
pub fn field_list_items<'a>(v: &'a JsonValue, name: &'static str) -> (r: Result<Option<Vec<&'a JsonValue>>, DecodeError>)
    ensures
        match r {
            Ok(Some(items)) => yields(field_list(v@, name), Some(items@.map_values(|x: &JsonValue| x@))),
            Ok(None) => yields(field_list(v@, name), None),
            Err(e) => field_list(v@, name) == Err::<Option<Seq<JsonModel>>, DecodeError>(e),
        },
{
    match field(v, name) {
        Ok(Some(JsonValue::Null)) | Ok(None) => Ok(None),
        Ok(Some(x)) => match list_items(x) {
            Ok(items) => Ok(Some(items)),
            Err(e) => Err(e),
        },
        Err(e) => Err(e),
    }
}

/// An image embedded in a saved item.
#[derive(Clone, Debug, PartialEq, Eq)]
pub struct ItemImage {
    pub item_id: u64,
    pub image_id: u64,
    pub src: WebUrl,
    pub width: u16,
    pub height: u16,
    pub caption: String,
    pub credit: String,
}

/// A video embedded in a saved item.
#[derive(Clone, Debug, PartialEq, Eq)]
pub struct ItemVideo {
    pub item_id: u64,
    pub video_id: u64,
    pub src: WebUrl,
    pub width: u16,
    pub height: u16,
    pub length: Option<usize>,
    pub vid: String,
    pub vtype: u16,
}

/// The first error, in field order, of decoding an image from `v`.
pub open spec fn image_check(v: JsonModel) -> Result<(), DecodeError> {
    then(field_unsigned(v, "item_id", u64::MAX),
    then(field_unsigned(v, "image_id", u64::MAX),
    then(field_url(v, "src"),
    then(field_unsigned(v, "width", 0xffff),
    then(field_unsigned(v, "height", 0xffff),
    then(field_str(v, "caption"),
    then(field_str(v, "credit"), Ok(()))))))))
}

/// `img` holds the fields decoded from `v`.
pub open spec fn image_fields(v: JsonModel, img: ItemImage) -> bool {
    &&& yields(field_unsigned(v, "item_id", u64::MAX), img.item_id)
    &&& yields(field_unsigned(v, "image_id", u64::MAX), img.image_id)
    &&& yields(field_url(v, "src"), img.src@)
    &&& yields(field_unsigned(v, "width", 0xffff), img.width as u64)
    &&& yields(field_unsigned(v, "height", 0xffff), img.height as u64)
    &&& yields(field_str(v, "caption"), img.caption@)
    &&& yields(field_str(v, "credit"), img.credit@)
}

pub open spec fn video_check(v: JsonModel) -> Result<(), DecodeError> {
    then(field_unsigned(v, "item_id", u64::MAX),
    then(field_unsigned(v, "video_id", u64::MAX),
    then(field_url(v, "src"),
    then(field_unsigned(v, "width", 0xffff),
    then(field_unsigned(v, "height", 0xffff),
    then(field_opt_unsigned(v, "length", usize::MAX as u64),
    then(field_str(v, "vid"),
    then(field_unsigned(v, "type", 0xffff), Ok(())))))))))
}

pub open spec fn video_fields(v: JsonModel, vid: ItemVideo) -> bool {
    &&& yields(field_unsigned(v, "item_id", u64::MAX), vid.item_id)
    &&& yields(field_unsigned(v, "video_id", u64::MAX), vid.video_id)
    &&& yields(field_url(v, "src"), vid.src@)
    &&& yields(field_unsigned(v, "width", 0xffff), vid.width as u64)
    &&& yields(field_unsigned(v, "height", 0xffff), vid.height as u64)
    &&& yields(field_opt_unsigned(v, "length", usize::MAX as u64), match vid.length {
        Some(n) => Some(n as u64),
        None => None,
    })
    &&& yields(field_str(v, "vid"), vid.vid@)
    &&& yields(field_unsigned(v, "type", 0xffff), vid.vtype as u64)
}

pub open spec fn images_check(vs: Seq<JsonModel>) -> Result<(), DecodeError> {
    first_err(vs.map_values(|x: JsonModel| image_check(x)))
}

pub open spec fn images_match(vs: Seq<JsonModel>, imgs: Seq<ItemImage>) -> bool {
    imgs.len() == vs.len() && forall|i: int| 0 <= i < vs.len() ==> image_fields(vs[i], #[trigger] imgs[i])
}

pub open spec fn videos_check(vs: Seq<JsonModel>) -> Result<(), DecodeError> {
    first_err(vs.map_values(|x: JsonModel| video_check(x)))
}

pub open spec fn videos_match(vs: Seq<JsonModel>, vids: Seq<ItemVideo>) -> bool {
    vids.len() == vs.len() && forall|i: int| 0 <= i < vs.len() ==> video_fields(vs[i], #[trigger] vids[i])
}

impl ItemImage {
    pub fn decode(v: &JsonValue) -> (r: Result<ItemImage, DecodeError>)
        ensures
            match r {
                Ok(img) => image_check(v@) is Ok && image_fields(v@, img),
                Err(e) => image_check(v@) == Err::<(), DecodeError>(e),
            },
    {
        let item_id = field_unsigned_value(v, "item_id", u64::MAX)?;
        let image_id = field_unsigned_value(v, "image_id", u64::MAX)?;
        let src = field_url_value(v, "src")?;
        let width = field_u16_value(v, "width")?;
        let height = field_u16_value(v, "height")?;
        let caption = field_str_value(v, "caption")?;
        let credit = field_str_value(v, "credit")?;
        Ok(ItemImage { item_id, image_id, src, width, height, caption, credit })
    }

    /// Decodes a list of images, in order; the first that fails fails the list.
    pub fn decode_all(vs: &Vec<&JsonValue>) -> (r: Result<Vec<ItemImage>, DecodeError>)
        ensures
            match r {
                Ok(imgs) => images_check(vs@.map_values(|x: &JsonValue| x@)) is Ok
                    && images_match(vs@.map_values(|x: &JsonValue| x@), imgs@),
                Err(e) => images_check(vs@.map_values(|x: &JsonValue| x@)) == Err::<(), DecodeError>(e),
            },
    {
        let ghost model = vs@.map_values(|x: &JsonValue| x@);
        let ghost rs = model.map_values(|x: JsonModel| image_check(x));
        let mut out: Vec<ItemImage> = Vec::new();
        let mut i: usize = 0;
        while i < vs.len()
            invariant
                0 <= i <= vs.len(),
                model == vs@.map_values(|x: &JsonValue| x@),
                rs == model.map_values(|x: JsonModel| image_check(x)),
                first_err(rs.take(i as int)) is Ok,
                out@.len() == i,
                forall|k: int| 0 <= k < i ==> image_fields(model[k], #[trigger] out@[k]),
            decreases vs.len() - i,
        {
            assert(rs.take(i + 1).drop_last() =~= rs.take(i as int));
            match ItemImage::decode(vs[i]) {
                Ok(img) => {
                    out.push(img);
                },
                Err(e) => {
                    proof { lemma_first_err_extend(rs, i + 1); }
                    return Err(e);
                },
            }
            i = i + 1;
        }
        assert(rs.take(vs.len() as int) =~= rs);
        Ok(out)
    }
}

impl ItemVideo {
    pub fn decode(v: &JsonValue) -> (r: Result<ItemVideo, DecodeError>)
        ensures
            match r {
                Ok(vid) => video_check(v@) is Ok && video_fields(v@, vid),
                Err(e) => video_check(v@) == Err::<(), DecodeError>(e),
            },
    {
        let item_id = field_unsigned_value(v, "item_id", u64::MAX)?;
        let video_id = field_unsigned_value(v, "video_id", u64::MAX)?;
        let src = field_url_value(v, "src")?;
        let width = field_u16_value(v, "width")?;
        let height = field_u16_value(v, "height")?;
        let length = field_opt_usize_value(v, "length")?;
        let vid = field_str_value(v, "vid")?;
        let vtype = field_u16_value(v, "type")?;
        Ok(ItemVideo { item_id, video_id, src, width, height, length, vid, vtype })
    }

    /// Decodes a list of videos, in order; the first that fails fails the list.
    pub fn decode_all(vs: &Vec<&JsonValue>) -> (r: Result<Vec<ItemVideo>, DecodeError>)
        ensures
            match r {
                Ok(vids) => videos_check(vs@.map_values(|x: &JsonValue| x@)) is Ok
                    && videos_match(vs@.map_values(|x: &JsonValue| x@), vids@),
                Err(e) => videos_check(vs@.map_values(|x: &JsonValue| x@)) == Err::<(), DecodeError>(e),
            },
    {
        let ghost model = vs@.map_values(|x: &JsonValue| x@);
        let ghost rs = model.map_values(|x: JsonModel| video_check(x));
        let mut out: Vec<ItemVideo> = Vec::new();
        let mut i: usize = 0;
        while i < vs.len()
            invariant
                0 <= i <= vs.len(),
                model == vs@.map_values(|x: &JsonValue| x@),
                rs == model.map_values(|x: JsonModel| video_check(x)),
                first_err(rs.take(i as int)) is Ok,
                out@.len() == i,
                forall|k: int| 0 <= k < i ==> video_fields(model[k], #[trigger] out@[k]),
            decreases vs.len() - i,
        {
            assert(rs.take(i + 1).drop_last() =~= rs.take(i as int));
            match ItemVideo::decode(vs[i]) {
                Ok(vid) => {
                    out.push(vid);
                },
                Err(e) => {
                    proof { lemma_first_err_extend(rs, i + 1); }
                    return Err(e);
                },
            }
            i = i + 1;
        }
        assert(rs.take(vs.len() as int) =~= rs);
        Ok(out)
    }
}

pub open spec fn field_images_check(v: JsonModel, name: &'static str) -> Result<(), DecodeError> {
    match field_list(v, name) {
        Ok(Some(s)) => images_check(s),
        Ok(None) => Ok(()),
        Err(e) => Err(e),
    }
}

/// `imgs` holds the images decoded from field `name`; `None` where it is absent.
pub open spec fn field_images_match(v: JsonModel, name: &'static str, imgs: Option<Seq<ItemImage>>) -> bool {
    match field_list(v, name) {
        Ok(Some(s)) => imgs matches Some(l) && images_match(s, l),
        Ok(None) => imgs is None,
        Err(_) => false,
    }
}

pub open spec fn field_videos_check(v: JsonModel, name: &'static str) -> Result<(), DecodeError> {
    match field_list(v, name) {
        Ok(Some(s)) => videos_check(s),
        Ok(None) => Ok(()),
        Err(e) => Err(e),
    }
}

pub open spec fn field_videos_match(v: JsonModel, name: &'static str, vids: Option<Seq<ItemVideo>>) -> bool {
    match field_list(v, name) {
        Ok(Some(s)) => vids matches Some(l) && videos_match(s, l),
        Ok(None) => vids is None,
        Err(_) => false,
    }
}

pub open spec fn opt_seq<T>(o: Option<Vec<T>>) -> Option<Seq<T>> {
    match o {
        Some(l) => Some(l@),
        None => None,
    }
}

/// The images of field `name`, in order; `None` where the field is absent or `null`.
pub fn field_images(v: &JsonValue, name: &'static str) -> (r: Result<Option<Vec<ItemImage>>, DecodeError>)
    ensures
        match r {
            Ok(imgs) => field_images_check(v@, name) is Ok && field_images_match(v@, name, opt_seq(imgs)),
            Err(e) => field_images_check(v@, name) == Err::<(), DecodeError>(e),
        },
{
    match field_list_items(v, name)? {
        Some(items) => {
            let imgs = ItemImage::decode_all(&items)?;
            Ok(Some(imgs))
        },
        None => Ok(None),
    }
}

/// The videos of field `name`, in order; `None` where the field is absent or `null`.
pub fn field_videos(v: &JsonValue, name: &'static str) -> (r: Result<Option<Vec<ItemVideo>>, DecodeError>)
    ensures
        match r {
            Ok(vids) => field_videos_check(v@, name) is Ok && field_videos_match(v@, name, opt_seq(vids)),
            Err(e) => field_videos_check(v@, name) == Err::<(), DecodeError>(e),
        },
{
    match field_list_items(v, name)? {
        Some(items) => {
            let vids = ItemVideo::decode_all(&items)?;
            Ok(Some(vids))
        },
        None => Ok(None),
    }
}

} // verus!
