use vstd::prelude::*;
use crate::config::ParserConfig;
use crate::entry::Timestamp;
use crate::record::{bump, bumped, fresh_record, opt_view, RecordView, UriRecord};

verus! {

#[verifier::external_type_specification]
#[verifier::external_body]
pub struct ExJsonValue(serde_json::Value);

#[verifier::external_type_specification]
#[verifier::external_body]
pub struct ExImageFormat(image::ImageFormat);

/// The three stages of the parse of one entry.
#[derive(Clone, Copy, Debug, PartialEq, Eq, Structural)]
pub enum Stage {
    Json,
    Image,
    Animation,
}

/// Where a worker stands: which answer it waits for.
#[derive(Clone, Copy, Debug, PartialEq, Eq, Structural)]
pub enum Phase {
    Start,
    Lookup(Stage),
    Resolve(Stage),
    Fetch,
    Optimize(Stage),
    Write(Stage),
    Commit(Stage),
    Finished,
}

/// Answer of a store lookup by the image or the animation URI.
#[derive(Clone, Copy, Debug, PartialEq, Eq, Structural)]
pub enum Lookup {
    Found,
    Missing,
    Failed,
}

/// Answer of the read of the stored record of a token URI.
pub enum Stored {
    Found(UriRecord),
    Missing,
    Failed,
}

pub enum StoredView {
    Found(RecordView),
    Missing,
    Failed,
}

impl View for Stored {
    type V = StoredView;

    open spec fn view(&self) -> StoredView {
        match self {
            Stored::Found(r) => StoredView::Found(r@),
            Stored::Missing => StoredView::Missing,
            Stored::Failed => StoredView::Failed,
        }
    }
}

/// What the JSON parser extracted; `json` is `None` where the document is null.
pub struct JsonOutput {
    pub raw_image_uri: Option<String>,
    pub raw_animation_uri: Option<String>,
    pub json: Option<serde_json::Value>,
}

/// What the image optimizer produced.
pub struct MediaOutput {
    pub bytes: Vec<u8>,
    pub format: image::ImageFormat,
}

/// The outcome of the work that a worker asked for; a failure is `None`.
pub enum Event {
    Begin,
    Read(Stored),
    Looked(Lookup),
    Resolved(Option<String>),
    JsonParsed(Option<JsonOutput>),
    Optimized(Option<MediaOutput>),
    Uploaded(Option<String>),
    Committed,
}

/// The work that a worker asks its driver to do next.
pub enum Action {
    FindByTokenUri(String),
    FindByRawImageUri(String),
    FindByRawAnimationUri(String),
    ResolveUri(String),
    FetchJson { uri: String, max_file_size_bytes: u32 },
    WriteJson { bucket: String, token_data_id: String, json: serde_json::Value },
    Optimize { uri: String, max_file_size_bytes: u32, image_quality: u8 },
    WriteImage { format: image::ImageFormat, bucket: String, token_data_id: String, bytes: Vec<u8> },
    Upsert(UriRecord),
    Done,
}

pub enum EventView {
    Begin,
    Read(StoredView),
    Looked(Lookup),
    Resolved(Option<Seq<char>>),
    JsonParsed(Option<(Option<Seq<char>>, Option<Seq<char>>, Option<serde_json::Value>)>),
    Optimized(Option<(Seq<u8>, image::ImageFormat)>),
    Uploaded(Option<Seq<char>>),
    Committed,
}

pub enum ActionView {
    FindByTokenUri(Seq<char>),
    FindByRawImageUri(Seq<char>),
    FindByRawAnimationUri(Seq<char>),
    ResolveUri(Seq<char>),
    FetchJson { uri: Seq<char>, max_file_size_bytes: u32 },
    WriteJson { bucket: Seq<char>, token_data_id: Seq<char>, json: serde_json::Value },
    Optimize { uri: Seq<char>, max_file_size_bytes: u32, image_quality: u8 },
    WriteImage { format: image::ImageFormat, bucket: Seq<char>, token_data_id: Seq<char>, bytes: Seq<u8> },
    Upsert(RecordView),
    Done,
}

impl View for Event {
    type V = EventView;

    open spec fn view(&self) -> EventView {
        match self {
            Event::Begin => EventView::Begin,
            Event::Read(r) => EventView::Read(r@),
            Event::Looked(l) => EventView::Looked(*l),
            Event::Resolved(o) => EventView::Resolved(opt_view(*o)),
            Event::JsonParsed(None) => EventView::JsonParsed(None),
            Event::JsonParsed(Some(j)) => EventView::JsonParsed(
                Some((opt_view(j.raw_image_uri), opt_view(j.raw_animation_uri), j.json)),
            ),
            Event::Optimized(None) => EventView::Optimized(None),
            Event::Optimized(Some(m)) => EventView::Optimized(Some((m.bytes@, m.format))),
            Event::Uploaded(o) => EventView::Uploaded(opt_view(*o)),
            Event::Committed => EventView::Committed,
        }
    }
}

impl View for Action {
    type V = ActionView;

    open spec fn view(&self) -> ActionView {
        match self {
            Action::FindByTokenUri(u) => ActionView::FindByTokenUri(u@),
            Action::FindByRawImageUri(u) => ActionView::FindByRawImageUri(u@),
            Action::FindByRawAnimationUri(u) => ActionView::FindByRawAnimationUri(u@),
            Action::ResolveUri(u) => ActionView::ResolveUri(u@),
            Action::FetchJson { uri, max_file_size_bytes } => ActionView::FetchJson {
                uri: uri@,
                max_file_size_bytes: *max_file_size_bytes,
            },
            Action::WriteJson { bucket, token_data_id, json } => ActionView::WriteJson {
                bucket: bucket@,
                token_data_id: token_data_id@,
                json: *json,
            },
            Action::Optimize { uri, max_file_size_bytes, image_quality } => ActionView::Optimize {
                uri: uri@,
                max_file_size_bytes: *max_file_size_bytes,
                image_quality: *image_quality,
            },
            Action::WriteImage { format, bucket, token_data_id, bytes } => ActionView::WriteImage {
                format: *format,
                bucket: bucket@,
                token_data_id: token_data_id@,
                bytes: bytes@,
            },
            Action::Upsert(r) => ActionView::Upsert(r@),
            Action::Done => ActionView::Done,
        }
    }
}

/// The mathematical value of a [`Worker`].
pub struct WorkerView {
    pub phase: Phase,
    pub record: RecordView,
    pub bucket: Seq<char>,
    pub token_data_id: Seq<char>,
    pub last_transaction_version: i32,
    pub force: bool,
    pub max_file_size_bytes: u32,
    pub image_quality: u8,
}

/// The URI that a stage works on, and falls back to where resolving it fails.
pub open spec fn source_uri(r: RecordView, s: Stage) -> Seq<char> {
    match (s, r.raw_image_uri, r.raw_animation_uri) {
        (Stage::Image, Some(u), _) => u,
        (Stage::Animation, _, Some(u)) => u,
        _ => r.token_uri,
    }
}

/// The record after one more failure of a stage's transformation.
pub open spec fn with_failure(r: RecordView, s: Stage) -> RecordView {
    match s {
        Stage::Json => RecordView { json_parser_retry_count: bumped(r.json_parser_retry_count), ..r },
        Stage::Image => RecordView {
            image_optimizer_retry_count: bumped(r.image_optimizer_retry_count),
            ..r
        },
        Stage::Animation => RecordView {
            animation_optimizer_retry_count: bumped(r.animation_optimizer_retry_count),
            ..r
        },
    }
}

/// The record after a stage's upload returned `uri`.
pub open spec fn with_cdn(r: RecordView, s: Stage, uri: Seq<char>) -> RecordView {
    match s {
        Stage::Json => RecordView { cdn_json_uri: Some(uri), ..r },
        Stage::Image => RecordView { cdn_image_uri: Some(uri), ..r },
        Stage::Animation => RecordView { cdn_animation_uri: Some(uri), ..r },
    }
}

pub open spec fn at(w: WorkerView, p: Phase) -> WorkerView {
    WorkerView { phase: p, ..w }
}

pub open spec fn finish(w: WorkerView) -> (WorkerView, ActionView) {
    (at(w, Phase::Finished), ActionView::Done)
}

pub open spec fn resolve_in(w: WorkerView, s: Stage) -> (WorkerView, ActionView) {
    (at(w, Phase::Resolve(s)), ActionView::ResolveUri(source_uri(w.record, s)))
}

pub open spec fn commit_in(w: WorkerView, s: Stage) -> (WorkerView, ActionView) {
    (at(w, Phase::Commit(s)), ActionView::Upsert(w.record))
}

/// Entry into a stage: its dedup check, or its work where the check is
/// bypassed or has nothing to check. The JSON stage always reads the stored
/// record first: the run goes on from it.
pub open spec fn begin_stage(w: WorkerView, s: Stage) -> (WorkerView, ActionView) {
    match s {
        Stage::Json => (
            at(w, Phase::Lookup(Stage::Json)),
            ActionView::FindByTokenUri(w.record.token_uri),
        ),
        Stage::Image => match w.record.raw_image_uri {
            Some(u) if !w.force => (
                at(w, Phase::Lookup(Stage::Image)),
                ActionView::FindByRawImageUri(u),
            ),
            _ => resolve_in(w, Stage::Image),
        },
        Stage::Animation => match w.record.raw_animation_uri {
            None => finish(w),
            Some(u) => if w.force {
                resolve_in(w, Stage::Animation)
            } else {
                (at(w, Phase::Lookup(Stage::Animation)), ActionView::FindByRawAnimationUri(u))
            },
        },
    }
}

/// What follows the commit of a stage.
pub open spec fn after_commit(w: WorkerView, s: Stage) -> (WorkerView, ActionView) {
    match s {
        Stage::Json => begin_stage(w, Stage::Image),
        Stage::Image => begin_stage(w, Stage::Animation),
        Stage::Animation => finish(w),
    }
}

/// The stored record of a token URI, taken as the start of a run.
pub open spec fn adopted(stored: RecordView, token_uri: Seq<char>) -> RecordView {
    RecordView { token_uri, ..stored }
}

/// One transition of the parse: the next state and the work it asks for, or
/// `None` where the event does not answer the work that the worker waits for.
/// The run goes on from the stored record that the token read hands back. A
/// token read that fails skips the JSON stage, as any failed lookup of the
/// token or image stage skips its stage, unless the run is forced; the run
/// then goes on from the worker's own record. An upsert replaces the stored
/// row, so such a run may write lower retry counters than the row held: that
/// is an open question of the store's design, not settled here. An animation
/// lookup that fails lets its stage go on.
pub open spec fn step(w: WorkerView, e: EventView) -> Option<(WorkerView, ActionView)> {
    match (w.phase, e) {
        (Phase::Start, EventView::Begin) => Some(begin_stage(w, Stage::Json)),
        (Phase::Lookup(Stage::Json), EventView::Read(stored)) => Some(
            match stored {
                StoredView::Found(r0) => {
                    let w2 = WorkerView { record: adopted(r0, w.record.token_uri), ..w };
                    if w.force {
                        resolve_in(w2, Stage::Json)
                    } else {
                        after_commit(w2, Stage::Json)
                    }
                },
                StoredView::Missing => resolve_in(w, Stage::Json),
                StoredView::Failed => if w.force {
                    resolve_in(w, Stage::Json)
                } else {
                    after_commit(w, Stage::Json)
                },
            },
        ),
        (Phase::Lookup(s), EventView::Looked(l)) => if s == Stage::Json {
            None
        } else {
            Some(
                if s == Stage::Animation {
                    if l == Lookup::Found {
                        finish(w)
                    } else {
                        resolve_in(w, s)
                    }
                } else if l == Lookup::Missing {
                    resolve_in(w, s)
                } else {
                    after_commit(w, s)
                },
            )
        },
        (Phase::Resolve(s), EventView::Resolved(o)) => {
            let uri = match o {
                Some(u) => u,
                None => source_uri(w.record, s),
            };
            Some(
                if s == Stage::Json {
                    (
                        at(w, Phase::Fetch),
                        ActionView::FetchJson { uri, max_file_size_bytes: w.max_file_size_bytes },
                    )
                } else {
                    (
                        at(w, Phase::Optimize(s)),
                        ActionView::Optimize {
                            uri,
                            max_file_size_bytes: w.max_file_size_bytes,
                            image_quality: w.image_quality,
                        },
                    )
                },
            )
        },
        (Phase::Fetch, EventView::JsonParsed(o)) => Some(
            match o {
                None => commit_in(
                    WorkerView {
                        record: RecordView {
                            raw_image_uri: None,
                            raw_animation_uri: None,
                            ..with_failure(w.record, Stage::Json)
                        },
                        ..w
                    },
                    Stage::Json,
                ),
                Some((img, anim, json)) => {
                    let w2 = WorkerView {
                        record: RecordView { raw_image_uri: img, raw_animation_uri: anim, ..w.record },
                        ..w
                    };
                    match json {
                        Some(v) => (
                            at(w2, Phase::Write(Stage::Json)),
                            ActionView::WriteJson {
                                bucket: w.bucket,
                                token_data_id: w.token_data_id,
                                json: v,
                            },
                        ),
                        None => commit_in(w2, Stage::Json),
                    }
                },
            },
        ),
        (Phase::Optimize(s), EventView::Optimized(o)) => Some(
            match o {
                None => commit_in(WorkerView { record: with_failure(w.record, s), ..w }, s),
                Some((bytes, format)) => if bytes.len() > 0 {
                    (
                        at(w, Phase::Write(s)),
                        ActionView::WriteImage {
                            format,
                            bucket: w.bucket,
                            token_data_id: w.token_data_id,
                            bytes,
                        },
                    )
                } else {
                    commit_in(w, s)
                },
            },
        ),
        (Phase::Write(s), EventView::Uploaded(o)) => Some(
            match o {
                Some(u) => commit_in(WorkerView { record: with_cdn(w.record, s, u), ..w }, s),
                None => commit_in(w, s),
            },
        ),
        (Phase::Commit(s), EventView::Committed) => Some(after_commit(w, s)),
        _ => None,
    }
}

/// The parser of one queue entry: a state machine that asks for one piece of
/// outside work at a time and takes its outcome back.
pub struct Worker {
    config: ParserConfig,
    model: UriRecord,
    token_data_id: String,
    last_transaction_version: i32,
    last_transaction_timestamp: Timestamp,
    force: bool,
    max_file_size_bytes: u32,
    image_quality: u8,
    phase: Phase,
}

impl View for Worker {
    type V = WorkerView;

    closed spec fn view(&self) -> WorkerView {
        WorkerView {
            phase: self.phase,
            record: self.model@,
            bucket: self.config.bucket@,
            token_data_id: self.token_data_id@,
            last_transaction_version: self.last_transaction_version,
            force: self.force,
            max_file_size_bytes: self.max_file_size_bytes,
            image_quality: self.image_quality,
        }
    }
}

/// A worker that has not begun.
pub open spec fn fresh_worker(
    bucket: Seq<char>,
    token_data_id: Seq<char>,
    token_uri: Seq<char>,
    last_transaction_version: i32,
    force: bool,
    max_file_size_bytes: u32,
    image_quality: u8,
) -> WorkerView {
    WorkerView {
        phase: Phase::Start,
        record: fresh_record(token_uri),
        bucket,
        token_data_id,
        last_transaction_version,
        force,
        max_file_size_bytes,
        image_quality,
    }
}

impl Worker {
    pub fn new(
        config: ParserConfig,
        token_data_id: String,
        token_uri: String,
        last_transaction_version: i32,
        last_transaction_timestamp: Timestamp,
        force: bool,
        max_file_size_bytes: u32,
        image_quality: u8,
    ) -> (r: Worker)
        ensures
            r@ == fresh_worker(
                config.bucket@,
                token_data_id@,
                token_uri@,
                last_transaction_version,
                force,
                max_file_size_bytes,
                image_quality,
            ),
            r.last_transaction_timestamp() == last_transaction_timestamp,
    {
        let model = UriRecord::new(token_uri);
        Worker {
            config,
            model,
            token_data_id,
            last_transaction_version,
            last_transaction_timestamp,
            force,
            max_file_size_bytes,
            image_quality,
            phase: Phase::Start,
        }
    }

    /// The record as the worker has built it so far.
    pub fn record(&self) -> (r: &UriRecord)
        ensures
            r@ == self@.record,
    {
        &self.model
    }

    pub fn phase(&self) -> (r: Phase)
        ensures
            r == self@.phase,
    {
        self.phase
    }

    pub fn token_data_id(&self) -> (r: &String)
        ensures
            r@ == self@.token_data_id,
    {
        &self.token_data_id
    }

    pub fn last_transaction_version(&self) -> (r: i32)
        ensures
            r == self@.last_transaction_version,
    {
        self.last_transaction_version
    }

    pub closed spec fn last_transaction_timestamp_spec(&self) -> Timestamp {
        self.last_transaction_timestamp
    }

    #[verifier::when_used_as_spec(last_transaction_timestamp_spec)]
    pub fn last_transaction_timestamp(&self) -> (r: Timestamp)
        ensures
            r == self.last_transaction_timestamp_spec(),
    {
        self.last_transaction_timestamp
    }

    fn source_uri(&self, s: Stage) -> (r: String)
        ensures
            r@ == source_uri(self@.record, s),
    {
        match (s, &self.model.raw_image_uri, &self.model.raw_animation_uri) {
            (Stage::Image, Some(u), _) => u.clone(),
            (Stage::Animation, _, Some(u)) => u.clone(),
            _ => self.model.token_uri.clone(),
        }
    }

    fn finish(&mut self) -> (a: Action)
        ensures
            (final(self)@, a@) == finish(old(self)@),
    {
        self.phase = Phase::Finished;
        Action::Done
    }

    fn resolve_in(&mut self, s: Stage) -> (a: Action)
        ensures
            (final(self)@, a@) == resolve_in(old(self)@, s),
    {
        let uri = self.source_uri(s);
        self.phase = Phase::Resolve(s);
        Action::ResolveUri(uri)
    }

    fn commit_in(&mut self, s: Stage) -> (a: Action)
        ensures
            (final(self)@, a@) == commit_in(old(self)@, s),
    {
        self.phase = Phase::Commit(s);
        Action::Upsert(self.model.duplicate())
    }

    fn begin_stage(&mut self, s: Stage) -> (a: Action)
        ensures
            (final(self)@, a@) == begin_stage(old(self)@, s),
    {
        match s {
            Stage::Json => {
                self.phase = Phase::Lookup(Stage::Json);
                Action::FindByTokenUri(self.model.token_uri.clone())
            },
            Stage::Image => {
                if !self.force {
                    if let Some(u) = &self.model.raw_image_uri {
                        let u = u.clone();
                        self.phase = Phase::Lookup(Stage::Image);
                        return Action::FindByRawImageUri(u);
                    }
                }
                self.resolve_in(Stage::Image)
            },
            Stage::Animation => {
                let found = match &self.model.raw_animation_uri {
                    None => None,
                    Some(u) => Some(u.clone()),
                };
                match found {
                    None => self.finish(),
                    Some(u) => {
                        if self.force {
                            self.resolve_in(Stage::Animation)
                        } else {
                            self.phase = Phase::Lookup(Stage::Animation);
                            Action::FindByRawAnimationUri(u)
                        }
                    },
                }
            },
        }
    }

    fn after_commit(&mut self, s: Stage) -> (a: Action)
        ensures
            (final(self)@, a@) == after_commit(old(self)@, s),
    {
        match s {
            Stage::Json => self.begin_stage(Stage::Image),
            Stage::Image => self.begin_stage(Stage::Animation),
            Stage::Animation => self.finish(),
        }
    }

    fn record_failure(&mut self, s: Stage)
        ensures
            final(self)@ == (WorkerView { record: with_failure(old(self)@.record, s), ..old(self)@ }),
    {
        match s {
            Stage::Json => {
                self.model.json_parser_retry_count = bump(self.model.json_parser_retry_count);
            },
            Stage::Image => {
                self.model.image_optimizer_retry_count = bump(
                    self.model.image_optimizer_retry_count,
                );
            },
            Stage::Animation => {
                self.model.animation_optimizer_retry_count = bump(
                    self.model.animation_optimizer_retry_count,
                );
            },
        }
    }

    fn record_cdn(&mut self, s: Stage, uri: String)
        ensures
            final(self)@ == (WorkerView { record: with_cdn(old(self)@.record, s, uri@), ..old(self)@ }),
    {
        match s {
            Stage::Json => {
                self.model.cdn_json_uri = Some(uri);
            },
            Stage::Image => {
                self.model.cdn_image_uri = Some(uri);
            },
            Stage::Animation => {
                self.model.cdn_animation_uri = Some(uri);
            },
        }
    }

    /// Advances the parse by one event: takes the outcome of the work last
    /// asked for and returns the work to do next, `Action::Done` once the
    /// entry is through. An event that does not answer the pending work is
    /// refused with `None` and changes nothing.
    pub fn parse(&mut self, e: Event) -> (r: Option<Action>)
        ensures
            match step(old(self)@, e@) {
                None => r is None && final(self)@ == old(self)@,
                Some((w, a)) => r is Some && final(self)@ == w && r->0@ == a,
            },
    {
        match (self.phase, e) {
            (Phase::Start, Event::Begin) => Some(self.begin_stage(Stage::Json)),
            (Phase::Lookup(Stage::Json), Event::Read(stored)) => {
                let a = match stored {
                    Stored::Found(r0) => {
                        let token_uri = self.model.token_uri.clone();
                        self.model = r0;
                        self.model.token_uri = token_uri;
                        if self.force {
                            self.resolve_in(Stage::Json)
                        } else {
                            self.after_commit(Stage::Json)
                        }
                    },
                    Stored::Missing => self.resolve_in(Stage::Json),
                    Stored::Failed => {
                        if self.force {
                            self.resolve_in(Stage::Json)
                        } else {
                            self.after_commit(Stage::Json)
                        }
                    },
                };
                Some(a)
            },
            (Phase::Lookup(s), Event::Looked(l)) => {
                if s == Stage::Json {
                    return None;
                }
                let a = if s == Stage::Animation {
                    if l == Lookup::Found {
                        self.finish()
                    } else {
                        self.resolve_in(s)
                    }
                } else if l == Lookup::Missing {
                    self.resolve_in(s)
                } else {
                    self.after_commit(s)
                };
                Some(a)
            },
            (Phase::Resolve(s), Event::Resolved(o)) => {
                let uri = match o {
                    Some(u) => u,
                    None => self.source_uri(s),
                };
                if s == Stage::Json {
                    self.phase = Phase::Fetch;
                    Some(Action::FetchJson { uri, max_file_size_bytes: self.max_file_size_bytes })
                } else {
                    self.phase = Phase::Optimize(s);
                    Some(
                        Action::Optimize {
                            uri,
                            max_file_size_bytes: self.max_file_size_bytes,
                            image_quality: self.image_quality,
                        },
                    )
                }
            },
            (Phase::Fetch, Event::JsonParsed(o)) => {
                match o {
                    None => {
                        self.record_failure(Stage::Json);
                        self.model.raw_image_uri = None;
                        self.model.raw_animation_uri = None;
                        Some(self.commit_in(Stage::Json))
                    },
                    Some(out) => {
                        self.model.raw_image_uri = out.raw_image_uri;
                        self.model.raw_animation_uri = out.raw_animation_uri;
                        match out.json {
                            Some(v) => {
                                self.phase = Phase::Write(Stage::Json);
                                Some(
                                    Action::WriteJson {
                                        bucket: self.config.bucket.clone(),
                                        token_data_id: self.token_data_id.clone(),
                                        json: v,
                                    },
                                )
                            },
                            None => Some(self.commit_in(Stage::Json)),
                        }
                    },
                }
            },
            (Phase::Optimize(s), Event::Optimized(o)) => {
                match o {
                    None => {
                        self.record_failure(s);
                        Some(self.commit_in(s))
                    },
                    Some(m) => {
                        if m.bytes.len() > 0 {
                            self.phase = Phase::Write(s);
                            Some(
                                Action::WriteImage {
                                    format: m.format,
                                    bucket: self.config.bucket.clone(),
                                    token_data_id: self.token_data_id.clone(),
                                    bytes: m.bytes,
                                },
                            )
                        } else {
                            Some(self.commit_in(s))
                        }
                    },
                }
            },
            (Phase::Write(s), Event::Uploaded(o)) => {
                if let Some(u) = o {
                    self.record_cdn(s, u);
                }
                Some(self.commit_in(s))
            },
            (Phase::Commit(s), Event::Committed) => Some(self.after_commit(s)),
            _ => None,
        }
    }
}

} // verus!
