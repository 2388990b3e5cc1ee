use vstd::prelude::*;

verus! {

/// One stored row per token URI: what the crawler learnt of it so far.
pub struct UriRecord {
    pub token_uri: String,
    pub raw_image_uri: Option<String>,
    pub raw_animation_uri: Option<String>,
    pub cdn_json_uri: Option<String>,
    pub cdn_image_uri: Option<String>,
    pub cdn_animation_uri: Option<String>,
    pub json_parser_retry_count: u64,
    pub image_optimizer_retry_count: u64,
    pub animation_optimizer_retry_count: u64,
}

/// The mathematical value of a [`UriRecord`].
pub struct RecordView {
    pub token_uri: Seq<char>,
    pub raw_image_uri: Option<Seq<char>>,
    pub raw_animation_uri: Option<Seq<char>>,
    pub cdn_json_uri: Option<Seq<char>>,
    pub cdn_image_uri: Option<Seq<char>>,
    pub cdn_animation_uri: Option<Seq<char>>,
    pub json_parser_retry_count: u64,
    pub image_optimizer_retry_count: u64,
    pub animation_optimizer_retry_count: u64,
}

pub open spec fn opt_view(o: Option<String>) -> Option<Seq<char>> {
    match o {
        Some(s) => Some(s@),
        None => None,
    }
}

/// A retry counter after one more failure; it stays at its largest value.
pub open spec fn bumped(n: u64) -> u64 {
    if n < u64::MAX {
        (n + 1) as u64
    } else {
        n
    }
}

/// The record of a token URI that nothing has been learnt of yet.
pub open spec fn fresh_record(token_uri: Seq<char>) -> RecordView {
    RecordView {
        token_uri,
        raw_image_uri: None,
        raw_animation_uri: None,
        cdn_json_uri: None,
        cdn_image_uri: None,
        cdn_animation_uri: None,
        json_parser_retry_count: 0,
        image_optimizer_retry_count: 0,
        animation_optimizer_retry_count: 0,
    }
}

impl View for UriRecord {
    type V = RecordView;

    open spec fn view(&self) -> RecordView {
        RecordView {
            token_uri: self.token_uri@,
            raw_image_uri: opt_view(self.raw_image_uri),
            raw_animation_uri: opt_view(self.raw_animation_uri),
            cdn_json_uri: opt_view(self.cdn_json_uri),
            cdn_image_uri: opt_view(self.cdn_image_uri),
            cdn_animation_uri: opt_view(self.cdn_animation_uri),
            json_parser_retry_count: self.json_parser_retry_count,
            image_optimizer_retry_count: self.image_optimizer_retry_count,
            animation_optimizer_retry_count: self.animation_optimizer_retry_count,
        }
    }
}

impl UriRecord {
    pub fn new(token_uri: String) -> (r: UriRecord)
        ensures
            r@ == fresh_record(token_uri@),
    {
        UriRecord {
            token_uri,
            raw_image_uri: None,
            raw_animation_uri: None,
            cdn_json_uri: None,
            cdn_image_uri: None,
            cdn_animation_uri: None,
            json_parser_retry_count: 0,
            image_optimizer_retry_count: 0,
            animation_optimizer_retry_count: 0,
        }
    }

    /// A copy of the record, field for field.
    pub fn duplicate(&self) -> (r: UriRecord)
        ensures
            r@ == self@,
    {
        UriRecord {
            token_uri: self.token_uri.clone(),
            raw_image_uri: clone_opt(&self.raw_image_uri),
            raw_animation_uri: clone_opt(&self.raw_animation_uri),
            cdn_json_uri: clone_opt(&self.cdn_json_uri),
            cdn_image_uri: clone_opt(&self.cdn_image_uri),
            cdn_animation_uri: clone_opt(&self.cdn_animation_uri),
            json_parser_retry_count: self.json_parser_retry_count,
            image_optimizer_retry_count: self.image_optimizer_retry_count,
            animation_optimizer_retry_count: self.animation_optimizer_retry_count,
        }
    }
}

pub fn clone_opt(o: &Option<String>) -> (r: Option<String>)
    ensures
        opt_view(r) == opt_view(*o),
{
    match o {
        Some(s) => Some(s.clone()),
        None => None,
    }
}

pub fn bump(n: u64) -> (r: u64)
    ensures
        r == bumped(n),
{
    n.saturating_add(1)
}

} // verus!
