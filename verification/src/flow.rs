use crate::auth::{authorize_request, authorized_by, missing_key_text, opt_bytes, unauthorized_text};
use crate::clock::{
    format_utc, formatted_utc, is_valid_instant, millis_between, parse_utc, parsed_utc,
    utc_millis_between, read_clock, is_clock_reading, UtcInstant, DB_TIME_FORMAT,
};
use crate::cooldown::{minutes_left, minutes_left_spec, slow_down_message, slow_down_text, BUMP_COOLDOWN_MS};
use crate::model::{copy_opt_text, PatchServerInput, SyncServerInput};
use crate::response::{ApiError, Status};
use vstd::prelude::*;
use vstd::utf8::encode_utf8;

verus! {

/// A request to one of the mutating endpoints: sync a listing, bump it, or
/// patch its moderation fields.
#[derive(Debug)]
pub enum WriteRequest {
    Sync(SyncServerInput),
    Bump { server_id: String },
    Patch { server_id: String, input: PatchServerInput },
}

/// Where a write flow stands: what it waits for next.
#[derive(Clone, Copy, Debug, PartialEq, Eq, Structural)]
pub enum WritePhase {
    AwaitingKey,
    AwaitingBanStatus,
    AwaitingLastBump,
    AwaitingWrite,
    Finished,
}

/// The handling of one mutating request: the request, the `x-api-key`
/// header it came with, and the phase it has reached.
#[derive(Debug)]
pub struct WriteFlow {
    pub request: WriteRequest,
    pub api_key: Option<Vec<u8>>,
    pub phase: WritePhase,
}

/// The values a sync writes: the listing as reported, with a missing member
/// count and a missing NSFW flag written as 0.
#[derive(Debug)]
pub struct ServerUpsert {
    pub server_id: String,
    pub server_name: String,
    pub icon_url: Option<String>,
    pub banner_url: Option<String>,
    pub invite_link: String,
    pub members: i64,
    pub description: Option<String>,
    pub is_nsfw: i64,
    pub owner: Option<String>,
    pub owner_id: Option<String>,
}

/// The values a patch writes; an absent value keeps the stored one.
#[derive(Debug)]
pub struct ServerPatch {
    pub server_id: String,
    pub is_verified: Option<i64>,
    pub is_nsfw: Option<i64>,
    pub description: Option<String>,
}

/// What a write flow asks its runner to do next.
#[derive(Debug)]
pub enum WriteAction {
    /// Read the configured API key (`DISCOVERY_API_KEY`).
    ReadConfiguredKey,
    /// Read the ban flag of the listing.
    QueryBanStatus { server_id: String },
    /// Read the time of the listing's last bump.
    QueryLastBumped { server_id: String },
    /// Insert the listing, or update it when it exists.
    Upsert(ServerUpsert),
    /// Store a new time of last bump.
    SetLastBumped { server_id: String, last_bumped: String },
    /// Update the listing's moderation fields.
    ApplyPatch(ServerPatch),
    /// Answer the request: a success text, or an error.
    Respond(Result<String, ApiError>),
}

/// What the runner reports back after doing an action.
#[derive(Debug)]
pub enum WriteEvent {
    /// The configured API key, if set.
    ConfiguredKey(Option<String>),
    /// The listing's ban flag (none when the listing does not exist), or the
    /// database's error text.
    BanStatus(Result<Option<i64>, String>),
    /// The listing's stored time of last bump (none when the listing does
    /// not exist), or the database's error text.
    LastBumped(Result<Option<String>, String>),
    /// The outcome of the write.
    Written(Result<(), String>),
}

/// An action as contracts speak of it: texts by their characters.
pub enum ActionView {
    ReadConfiguredKey,
    QueryBanStatus(String),
    QueryLastBumped(String),
    Upsert(ServerUpsert),
    SetLastBumped(String, Seq<char>),
    ApplyPatch(ServerPatch),
    Respond(Result<Seq<char>, (Status, Seq<char>)>),
}

impl View for WriteAction {
    type V = ActionView;

    open spec fn view(&self) -> ActionView {
        match self {
            WriteAction::ReadConfiguredKey => ActionView::ReadConfiguredKey,
            WriteAction::QueryBanStatus { server_id } => ActionView::QueryBanStatus(*server_id),
            WriteAction::QueryLastBumped { server_id } => ActionView::QueryLastBumped(*server_id),
            WriteAction::Upsert(u) => ActionView::Upsert(*u),
            WriteAction::SetLastBumped { server_id, last_bumped } => ActionView::SetLastBumped(
                *server_id,
                last_bumped@,
            ),
            WriteAction::ApplyPatch(p) => ActionView::ApplyPatch(*p),
            WriteAction::Respond(Ok(text)) => ActionView::Respond(Ok(text@)),
            WriteAction::Respond(Err(e)) => ActionView::Respond(Err((e.status, e.message@))),
        }
    }
}

impl ActionView {
    /// The action changes the database.
    pub open spec fn is_write(self) -> bool {
        self is Upsert || self is SetLastBumped || self is ApplyPatch
    }

    /// The listing that a write action changes.
    pub open spec fn written_server(self) -> String {
        match self {
            ActionView::Upsert(u) => u.server_id,
            ActionView::SetLastBumped(id, _) => id,
            ActionView::ApplyPatch(p) => p.server_id,
            _ => arbitrary(),
        }
    }
}

pub open spec fn banned_text() -> Seq<char> {
    "This listing is banned from discovery."@
}

pub open spec fn not_listed_text() -> Seq<char> {
    "Server not found in discovery."@
}

pub open spec fn opt_vec(v: Option<Vec<u8>>) -> Option<Seq<u8>> {
    match v {
        Some(b) => Some(b@),
        None => None,
    }
}

/// The ban flag that marks a banned listing.
pub open spec fn is_banned_flag(flag: Option<i64>) -> bool {
    flag == Some(1i64)
}

impl WriteRequest {
    /// The listing the request is about.
    pub open spec fn target(self) -> String {
        match self {
            WriteRequest::Sync(input) => input.server_id,
            WriteRequest::Bump { server_id } => server_id,
            WriteRequest::Patch { server_id, .. } => server_id,
        }
    }

    /// The text of a successful answer.
    pub open spec fn success_text(self) -> Seq<char> {
        match self {
            WriteRequest::Sync(_) => "Server listing synced successfully."@,
            WriteRequest::Bump { .. } => "Server bumped to the top!"@,
            WriteRequest::Patch { .. } => "Updated successfully."@,
        }
    }

    /// The status of the answer when the write fails: a refused sync is the
    /// client's error, a failed bump or patch the server's.
    pub open spec fn write_failure_status(self) -> Status {
        match self {
            WriteRequest::Sync(_) => Status::BadRequest,
            _ => Status::InternalServerError,
        }
    }
}

/// The values a sync writes for its input.
pub open spec fn upsert_of(input: SyncServerInput) -> ServerUpsert {
    ServerUpsert {
        server_id: input.server_id,
        server_name: input.server_name,
        icon_url: input.icon_url,
        banner_url: input.banner_url,
        invite_link: input.invite_link,
        members: input.members.unwrap_or(0),
        description: input.description,
        is_nsfw: input.is_nsfw.unwrap_or(0),
        owner: input.owner,
        owner_id: input.owner_id,
    }
}

/// The values a patch writes.
pub open spec fn patch_of(server_id: String, input: PatchServerInput) -> ServerPatch {
    ServerPatch {
        server_id,
        is_verified: input.is_verified,
        is_nsfw: input.is_nsfw,
        description: input.description,
    }
}

/// The flow of a request that has just arrived.
pub open spec fn started(request: WriteRequest, api_key: Option<Vec<u8>>) -> WriteFlow {
    WriteFlow { request, api_key, phase: WritePhase::AwaitingKey }
}

pub open spec fn refusal(status: Status, text: Seq<char>) -> ActionView {
    ActionView::Respond(Err((status, text)))
}

/// What a bump does once the listing's last bump time `stored` is read, at
/// the time `now`: a time that does not parse is an internal error; within
/// the cooldown the bump is refused with the minutes left; after it, `now`
/// is stored in the database's time format.
pub open spec fn bump_after(server_id: String, stored: Seq<char>, now: UtcInstant) -> ActionView {
    match parsed_utc(stored, DB_TIME_FORMAT@) {
        Err(text) => refusal(Status::InternalServerError, text),
        Ok((secs, nanos)) => {
            let elapsed = utc_millis_between(now.secs, now.nanos, secs, nanos);
            if elapsed < BUMP_COOLDOWN_MS {
                refusal(Status::TooManyRequests, slow_down_text(minutes_left_spec(elapsed as int) as nat))
            } else {
                ActionView::SetLastBumped(server_id, formatted_utc(now.secs, now.nanos, DB_TIME_FORMAT@))
            }
        },
    }
}

impl WriteFlow {
    pub open spec fn with_phase(self, phase: WritePhase) -> WriteFlow {
        WriteFlow { phase, ..self }
    }

    /// The event the flow waits for is of the kind of `event`.
    pub open spec fn expects(self, event: WriteEvent) -> bool {
        match self.phase {
            WritePhase::AwaitingKey => event is ConfiguredKey,
            WritePhase::AwaitingBanStatus => event is BanStatus,
            WritePhase::AwaitingLastBump => event is LastBumped,
            WritePhase::AwaitingWrite => event is Written,
            WritePhase::Finished => false,
        }
    }

    /// The next flow and action, for an event the flow expects, at the time
    /// `now` (read only when a bump's last bump time comes in).
    pub open spec fn next(self, event: WriteEvent, now: UtcInstant) -> (WriteFlow, ActionView) {
        let done = self.with_phase(WritePhase::Finished);
        match event {
            WriteEvent::ConfiguredKey(None) => (done, refusal(Status::InternalServerError, missing_key_text())),
            WriteEvent::ConfiguredKey(Some(key)) => if authorized_by(opt_vec(self.api_key), encode_utf8(key@)) {
                (self.with_phase(WritePhase::AwaitingBanStatus), ActionView::QueryBanStatus(self.request.target()))
            } else {
                (done, refusal(Status::Unauthorized, unauthorized_text()))
            },
            WriteEvent::BanStatus(Err(text)) => (done, refusal(Status::InternalServerError, text@)),
            WriteEvent::BanStatus(Ok(flag)) => if is_banned_flag(flag) {
                (done, refusal(Status::Forbidden, banned_text()))
            } else {
                match self.request {
                    WriteRequest::Sync(input) => (self.with_phase(WritePhase::AwaitingWrite), ActionView::Upsert(upsert_of(input))),
                    WriteRequest::Bump { server_id } => (self.with_phase(WritePhase::AwaitingLastBump), ActionView::QueryLastBumped(server_id)),
                    WriteRequest::Patch { server_id, input } => (self.with_phase(WritePhase::AwaitingWrite), ActionView::ApplyPatch(patch_of(server_id, input))),
                }
            },
            WriteEvent::LastBumped(Err(text)) => (done, refusal(Status::InternalServerError, text@)),
            WriteEvent::LastBumped(Ok(None)) => (done, refusal(Status::NotFound, not_listed_text())),
            WriteEvent::LastBumped(Ok(Some(stored))) => {
                let action = bump_after(self.request.target(), stored@, now);
                if action is SetLastBumped {
                    (self.with_phase(WritePhase::AwaitingWrite), action)
                } else {
                    (done, action)
                }
            },
            WriteEvent::Written(Ok(())) => (done, ActionView::Respond(Ok(self.request.success_text()))),
            WriteEvent::Written(Err(text)) => (done, refusal(self.request.write_failure_status(), text@)),
        }
    }
}


fn key_slice(v: &Option<Vec<u8>>) -> (r: Option<&[u8]>)
    ensures
        opt_bytes(r) == opt_vec(*v),
{
    match v {
        Some(b) => Some(b.as_slice()),
        None => None,
    }
}

fn target_of(request: &WriteRequest) -> (s: String)
    ensures
        s == request.target(),
{
    match request {
        WriteRequest::Sync(input) => input.server_id.clone(),
        WriteRequest::Bump { server_id } => server_id.clone(),
        WriteRequest::Patch { server_id, .. } => server_id.clone(),
    }
}

fn upsert_from(input: &SyncServerInput) -> (u: ServerUpsert)
    ensures
        u == upsert_of(*input),
        u.server_id == input.server_id,
        u.server_name == input.server_name,
        u.icon_url == input.icon_url,
        u.banner_url == input.banner_url,
        u.invite_link == input.invite_link,
        u.members == (match input.members {
            Some(m) => m,
            None => 0i64,
        }),
        u.description == input.description,
        u.is_nsfw == (match input.is_nsfw {
            Some(f) => f,
            None => 0i64,
        }),
        u.owner == input.owner,
        u.owner_id == input.owner_id,
{
    ServerUpsert {
        server_id: input.server_id.clone(),
        server_name: input.server_name.clone(),
        icon_url: copy_opt_text(&input.icon_url),
        banner_url: copy_opt_text(&input.banner_url),
        invite_link: input.invite_link.clone(),
        members: input.members.unwrap_or(0),
        description: copy_opt_text(&input.description),
        is_nsfw: input.is_nsfw.unwrap_or(0),
        owner: copy_opt_text(&input.owner),
        owner_id: copy_opt_text(&input.owner_id),
    }
}

fn patch_from(server_id: &String, input: &PatchServerInput) -> (p: ServerPatch)
    ensures
        p == patch_of(*server_id, *input),
        p.server_id == *server_id,
        p.is_verified == input.is_verified,
        p.is_nsfw == input.is_nsfw,
        p.description == input.description,
{
    ServerPatch {
        server_id: server_id.clone(),
        is_verified: input.is_verified,
        is_nsfw: input.is_nsfw,
        description: copy_opt_text(&input.description),
    }
}

fn refuse(status: Status, message: String) -> (a: WriteAction)
    ensures
        a@ == refusal(status, message@),
{
    WriteAction::Respond(Err(ApiError { status, message }))
}

/// The cooldown check of a bump, given the milliseconds since the listing's
/// last bump: within the two-hour cooldown the bump is refused as too many
/// requests, with the whole minutes left (rounded up) in the text.
pub fn bump_verdict(elapsed_ms: i64) -> (r: Result<(), ApiError>)
    ensures
        elapsed_ms >= BUMP_COOLDOWN_MS <==> r is Ok,
        r matches Err(e) ==> e.status == Status::TooManyRequests
            && e.message@ == slow_down_text(minutes_left_spec(elapsed_ms as int) as nat),
{
    if elapsed_ms < BUMP_COOLDOWN_MS {
        let minutes = minutes_left(elapsed_ms);
        Err(ApiError { status: Status::TooManyRequests, message: slow_down_message(minutes) })
    } else {
        Ok(())
    }
}

/// What a bump does once the listing's stored time of last bump is read,
/// at the time `now`.
pub fn bump_after_read(server_id: String, stored: &str, now: UtcInstant) -> (a: WriteAction)
    requires
        is_valid_instant(now),
    ensures
        a@ == bump_after(server_id, stored@, now),
{
    match parse_utc(stored, DB_TIME_FORMAT) {
        Err(text) => refuse(Status::InternalServerError, text),
        Ok(last) => {
            let elapsed = millis_between(now, last);
            match bump_verdict(elapsed) {
                Err(e) => WriteAction::Respond(Err(e)),
                Ok(()) => WriteAction::SetLastBumped {
                    server_id,
                    last_bumped: format_utc(now, DB_TIME_FORMAT),
                },
            }
        },
    }
}

impl WriteFlow {
    /// Takes the event the flow waits for and gives the next action, with
    /// `now` as the current time. The flow moves on as `next` says.
    pub fn step_at(&mut self, event: WriteEvent, now: UtcInstant) -> (action: WriteAction)
        requires
            old(self).expects(event),
            event is LastBumped ==> is_valid_instant(now),
        ensures
            (*final(self), action@) == old(self).next(event, now),
    {
        match event {
            WriteEvent::ConfiguredKey(key) => {
                let configured = match &key {
                    Some(k) => Some(k.as_str()),
                    None => None,
                };
                match authorize_request(configured, key_slice(&self.api_key)) {
                    Ok(()) => {
                        self.phase = WritePhase::AwaitingBanStatus;
                        WriteAction::QueryBanStatus { server_id: target_of(&self.request) }
                    },
                    Err(e) => {
                        self.phase = WritePhase::Finished;
                        WriteAction::Respond(Err(e))
                    },
                }
            },
            WriteEvent::BanStatus(Err(text)) => {
                self.phase = WritePhase::Finished;
                refuse(Status::InternalServerError, text)
            },
            WriteEvent::BanStatus(Ok(flag)) => {
                if let Some(1) = flag {
                    self.phase = WritePhase::Finished;
                    refuse(Status::Forbidden, String::from_str("This listing is banned from discovery."))
                } else {
                    match &self.request {
                        WriteRequest::Sync(input) => {
                            let u = upsert_from(input);
                            self.phase = WritePhase::AwaitingWrite;
                            WriteAction::Upsert(u)
                        },
                        WriteRequest::Bump { server_id } => {
                            let id = server_id.clone();
                            self.phase = WritePhase::AwaitingLastBump;
                            WriteAction::QueryLastBumped { server_id: id }
                        },
                        WriteRequest::Patch { server_id, input } => {
                            let p = patch_from(server_id, input);
                            self.phase = WritePhase::AwaitingWrite;
                            WriteAction::ApplyPatch(p)
                        },
                    }
                }
            },
            WriteEvent::LastBumped(Err(text)) => {
                self.phase = WritePhase::Finished;
                refuse(Status::InternalServerError, text)
            },
            WriteEvent::LastBumped(Ok(None)) => {
                self.phase = WritePhase::Finished;
                refuse(Status::NotFound, String::from_str("Server not found in discovery."))
            },
            WriteEvent::LastBumped(Ok(Some(stored))) => {
                let action = bump_after_read(target_of(&self.request), stored.as_str(), now);
                if let WriteAction::SetLastBumped { .. } = action {
                    self.phase = WritePhase::AwaitingWrite;
                } else {
                    self.phase = WritePhase::Finished;
                }
                action
            },
            WriteEvent::Written(Ok(())) => {
                self.phase = WritePhase::Finished;
                let text = match &self.request {
                    WriteRequest::Sync(_) => String::from_str("Server listing synced successfully."),
                    WriteRequest::Bump { .. } => String::from_str("Server bumped to the top!"),
                    WriteRequest::Patch { .. } => String::from_str("Updated successfully."),
                };
                WriteAction::Respond(Ok(text))
            },
            WriteEvent::Written(Err(text)) => {
                self.phase = WritePhase::Finished;
                let status = match &self.request {
                    WriteRequest::Sync(_) => Status::BadRequest,
                    _ => Status::InternalServerError,
                };
                refuse(status, text)
            },
        }
    }

    /// Takes the event the flow waits for and gives the next action; the
    /// current time is read from the clock when a bump's stored time comes
    /// in. The flow moves on as `next` says for that time.
    pub fn step(&mut self, event: WriteEvent) -> (action: WriteAction)
        requires
            old(self).expects(event),
        ensures
            exists|now: UtcInstant|
                #![trigger old(self).next(event, now)]
                (event is LastBumped ==> is_valid_instant(now) && is_clock_reading(now))
                    && (*final(self), action@) == old(self).next(event, now),
    {
        let now = if let WriteEvent::LastBumped(_) = event {
            read_clock()
        } else {
            UtcInstant { secs: 0, nanos: 0 }
        };
        let ghost ev = event;
        let action = self.step_at(event, now);
        assert((ev is LastBumped ==> is_valid_instant(now) && is_clock_reading(now))
            && (*final(self), action@) == old(self).next(ev, now));
        action
    }
}


/// Starts the handling of `POST /api/servers`, a sync of the listing in
/// `input`, for a request that came with the `x-api-key` header `api_key`.
/// The first action is to read the configured key.
pub fn sync_server(input: SyncServerInput, api_key: Option<Vec<u8>>) -> (r: (WriteFlow, WriteAction))
    ensures
        r.0 == started(WriteRequest::Sync(input), api_key),
        r.1 is ReadConfiguredKey,
{
    (WriteFlow { request: WriteRequest::Sync(input), api_key, phase: WritePhase::AwaitingKey }, WriteAction::ReadConfiguredKey)
}

/// Starts the handling of `POST /api/servers/:sid/bump` for the listing
/// `server_id`, for a request that came with the `x-api-key` header
/// `api_key`. The first action is to read the configured key.
pub fn bump_server(server_id: String, api_key: Option<Vec<u8>>) -> (r: (WriteFlow, WriteAction))
    ensures
        r.0 == started(WriteRequest::Bump { server_id }, api_key),
        r.1 is ReadConfiguredKey,
{
    (WriteFlow { request: WriteRequest::Bump { server_id }, api_key, phase: WritePhase::AwaitingKey }, WriteAction::ReadConfiguredKey)
}

/// Starts the handling of `PATCH /api/servers/:sid` for the listing
/// `server_id` with the changes in `input`, for a request that came with
/// the `x-api-key` header `api_key`. The first action is to read the
/// configured key.
pub fn patch_server(server_id: String, input: PatchServerInput, api_key: Option<Vec<u8>>) -> (r: (WriteFlow, WriteAction))
    ensures
        r.0 == started(WriteRequest::Patch { server_id, input }, api_key),
        r.1 is ReadConfiguredKey,
{
    (
        WriteFlow { request: WriteRequest::Patch { server_id, input }, api_key, phase: WritePhase::AwaitingKey },
        WriteAction::ReadConfiguredKey,
    )
}

/// The flow and the actions after a sequence of events, with one clock
/// reading `now` for the run.
pub open spec fn run(flow: WriteFlow, events: Seq<WriteEvent>, now: UtcInstant) -> (WriteFlow, Seq<ActionView>)
    decreases events.len(),
{
    if events.len() == 0 {
        (flow, Seq::empty())
    } else {
        let (after, action) = flow.next(events[0], now);
        let (last, rest) = run(after, events.drop_first(), now);
        (last, seq![action] + rest)
    }
}

/// Each event of the sequence is one the flow waits for when it comes.
pub open spec fn accepts(flow: WriteFlow, events: Seq<WriteEvent>, now: UtcInstant) -> bool
    decreases events.len(),
{
    events.len() == 0 || (flow.expects(events[0]) && accepts(flow.next(events[0], now).0, events.drop_first(), now))
}

/// No write without clearance: in any run of a mutating request, a write
/// comes only after the configured key was read and authorizes the
/// request's header, and after the listing's ban flag was read and is not
/// set; the write changes the listing that the request names.
pub proof fn writes_follow_clearance(request: WriteRequest, api_key: Option<Vec<u8>>, events: Seq<WriteEvent>, now: UtcInstant, i: int)
    requires
        accepts(started(request, api_key), events, now),
        0 <= i < run(started(request, api_key), events, now).1.len(),
        run(started(request, api_key), events, now).1[i].is_write(),
    ensures
        events[0] matches WriteEvent::ConfiguredKey(Some(key)) && authorized_by(opt_vec(api_key), encode_utf8(key@)),
        events[1] matches WriteEvent::BanStatus(Ok(flag)) && !is_banned_flag(flag),
        run(started(request, api_key), events, now).1[i].written_server() == request.target(),
{
    reveal_with_fuel(run, 5);
    reveal_with_fuel(accepts, 5);
}

/// One answer, and nothing after it: in any run of a mutating request, an
/// answer is the last action, a run whose flow has finished ends with an
/// answer, and at most one write is made.
pub proof fn one_answer_at_the_end(request: WriteRequest, api_key: Option<Vec<u8>>, events: Seq<WriteEvent>, now: UtcInstant)
    requires
        accepts(started(request, api_key), events, now),
    ensures
        forall|i: int|
            0 <= i < run(started(request, api_key), events, now).1.len()
                && (#[trigger] run(started(request, api_key), events, now).1[i]) is Respond
                ==> i == run(started(request, api_key), events, now).1.len() - 1,
        run(started(request, api_key), events, now).0.phase == WritePhase::Finished
            ==> run(started(request, api_key), events, now).1.last() is Respond,
        forall|i: int, j: int|
            0 <= i < run(started(request, api_key), events, now).1.len()
                && 0 <= j < run(started(request, api_key), events, now).1.len()
                && (#[trigger] run(started(request, api_key), events, now).1[i]).is_write()
                && (#[trigger] run(started(request, api_key), events, now).1[j]).is_write()
                ==> i == j,
{
    reveal_with_fuel(run, 5);
    reveal_with_fuel(accepts, 5);
}

/// A bump is stored only after the cooldown: in any run of a bump, the new
/// time of last bump is written only when the stored time parsed and at
/// least two hours have passed since it, and what is written is the current
/// time in the database's format.
pub proof fn bump_waits_for_cooldown(server_id: String, api_key: Option<Vec<u8>>, events: Seq<WriteEvent>, now: UtcInstant, i: int)
    requires
        accepts(started(WriteRequest::Bump { server_id }, api_key), events, now),
        0 <= i < run(started(WriteRequest::Bump { server_id }, api_key), events, now).1.len(),
        run(started(WriteRequest::Bump { server_id }, api_key), events, now).1[i] is SetLastBumped,
    ensures
        events[2] matches WriteEvent::LastBumped(Ok(Some(stored)))
            && parsed_utc(stored@, DB_TIME_FORMAT@) matches Ok((secs, nanos))
            && utc_millis_between(now.secs, now.nanos, secs, nanos) >= BUMP_COOLDOWN_MS
            && run(started(WriteRequest::Bump { server_id }, api_key), events, now).1[i] == ActionView::SetLastBumped(
                server_id,
                formatted_utc(now.secs, now.nanos, DB_TIME_FORMAT@),
            ),
{
    reveal_with_fuel(run, 5);
    reveal_with_fuel(accepts, 5);
}

/// A sync writes the listing as its bot reported it: every reported field
/// goes to its own column unchanged, and only a missing member count or
/// NSFW flag is replaced, by 0.
pub proof fn sync_writes_reported_listing(input: SyncServerInput, api_key: Option<Vec<u8>>, events: Seq<WriteEvent>, now: UtcInstant, i: int)
    requires
        accepts(started(WriteRequest::Sync(input), api_key), events, now),
        0 <= i < run(started(WriteRequest::Sync(input), api_key), events, now).1.len(),
        run(started(WriteRequest::Sync(input), api_key), events, now).1[i].is_write(),
    ensures
        run(started(WriteRequest::Sync(input), api_key), events, now).1[i] matches ActionView::Upsert(u)
            && u.server_id == input.server_id
            && u.server_name == input.server_name
            && u.icon_url == input.icon_url
            && u.banner_url == input.banner_url
            && u.invite_link == input.invite_link
            && u.description == input.description
            && u.owner == input.owner
            && u.owner_id == input.owner_id
            && (input.members matches Some(m) ==> u.members == m)
            && (input.members is None ==> u.members == 0)
            && (input.is_nsfw matches Some(f) ==> u.is_nsfw == f)
            && (input.is_nsfw is None ==> u.is_nsfw == 0),
{
    reveal_with_fuel(run, 5);
    reveal_with_fuel(accepts, 5);
}

/// A patch writes the moderation values it was sent, unchanged and for the
/// listing it names: an absent value is written as absent (the stored one
/// stays), a present one as itself.
pub proof fn patch_writes_requested_values(server_id: String, input: PatchServerInput, api_key: Option<Vec<u8>>, events: Seq<WriteEvent>, now: UtcInstant, i: int)
    requires
        accepts(started(WriteRequest::Patch { server_id, input }, api_key), events, now),
        0 <= i < run(started(WriteRequest::Patch { server_id, input }, api_key), events, now).1.len(),
        run(started(WriteRequest::Patch { server_id, input }, api_key), events, now).1[i].is_write(),
    ensures
        run(started(WriteRequest::Patch { server_id, input }, api_key), events, now).1[i] matches ActionView::ApplyPatch(p)
            && p.server_id == server_id
            && p.is_verified == input.is_verified
            && p.is_nsfw == input.is_nsfw
            && p.description == input.description,
{
    reveal_with_fuel(run, 5);
    reveal_with_fuel(accepts, 5);
}

/// A cleared request goes on: once the configured key authorizes the
/// header and the ban flag is not set, a sync or a patch writes next, and a
/// bump reads the listing's last bump time next.
pub proof fn cleared_requests_proceed(request: WriteRequest, api_key: Option<Vec<u8>>, key: String, flag: Option<i64>, now: UtcInstant)
    requires
        authorized_by(opt_vec(api_key), encode_utf8(key@)),
        flag != Some(1i64),
    ensures
        ({
            let events = seq![WriteEvent::ConfiguredKey(Some(key)), WriteEvent::BanStatus(Ok(flag))];
            let acts = run(started(request, api_key), events, now).1;
            &&& accepts(started(request, api_key), events, now)
            &&& acts.len() == 2
            &&& acts[0] == ActionView::QueryBanStatus(request.target())
            &&& (request is Bump ==> acts[1] == ActionView::QueryLastBumped(request.target()))
            &&& (!(request is Bump) ==> acts[1].is_write())
        }),
{
    reveal_with_fuel(run, 3);
    reveal_with_fuel(accepts, 3);
}

} // verus!
