//! The mail poller: which requests a fetch of unread mail makes, what the
//! answers mean, which messages are new, and the order in which they are
//! handed on.
//!
//! The poller does no input or output. `GmailClient::fetch_unread` and the
//! steps of a `FetchCycle` say which request comes next; whoever drives them
//! sends it and hands the answer back.

use crate::dedup::{holds, inserted, removed, touched, DedupCache, Entries, DEDUP_CAPACITY};
use crate::error::{texts, OAuthError, OAuthErrorView};
use crate::message::{spec_notification, GmailNotification, Message, NotificationView};
use crate::text::concat;
use vstd::prelude::*;
use vstd::string::*;

verus! {

/// How many messages one listing asks for.
pub const LIST_PAGE_SIZE: u32 = 10;

/// The base of the provider's REST interface.
pub open spec fn spec_api_base() -> Seq<char> {
    "https://gmail.googleapis.com/gmail/v1/users/me"@
}

/// The address of the message list.
pub open spec fn spec_list_url() -> Seq<char> {
    spec_api_base() + "/messages"@
}

/// The address of one message.
pub open spec fn spec_message_api_url(id: Seq<char>) -> Seq<char> {
    spec_api_base() + "/messages/"@ + id
}

/// The address at which the labels of one message are changed.
pub open spec fn spec_modify_url(id: Seq<char>) -> Seq<char> {
    spec_api_base() + "/messages/"@ + id + "/modify"@
}

/// The body of the request that takes the unread label off a message.
pub open spec fn spec_mark_read_body() -> Seq<char> {
    "{\"removeLabelIds\":[\"UNREAD\"]}"@
}

/// The address of one message.
pub fn message_api_url(id: &str) -> (url: String)
    ensures
        url@ == spec_message_api_url(id@),
{
    let mut url = concat("https://gmail.googleapis.com/gmail/v1/users/me", "/messages/");
    url.append(id);
    url
}

// ---------------------------------------------------------------------------
// Requests and answers
// ---------------------------------------------------------------------------

/// The listing of unread messages: a GET of `url` with the bearer token and
/// the query parameters `q`, `maxResults` and `labelIds`.
#[derive(Debug)]
pub struct ListRequest {
    pub url: String,
    pub bearer: String,
    pub q: String,
    pub max_results: u32,
    pub label_ids: String,
}

/// The fetch of one message: a GET of `url` with the bearer token and the
/// query parameter `format`.
#[derive(Debug)]
pub struct MessageRequest {
    pub id: String,
    pub url: String,
    pub bearer: String,
    pub format: String,
}

/// The removal of the unread label: a POST of `body`, which is JSON, to
/// `url` with the bearer token.
#[derive(Debug)]
pub struct ModifyRequest {
    pub url: String,
    pub bearer: String,
    pub body: String,
}

/// How the provider answered: the status code, the status as it is written
/// out for the user, and the body as text.
#[derive(Debug)]
pub struct HttpReply {
    pub status: u16,
    pub status_text: String,
    pub body: String,
}

/// Whether a status is the one by which the provider refuses the session.
pub open spec fn is_unauthorised(status: u16) -> bool {
    status == 401
}

/// Whether a status reports success.
pub open spec fn is_success(status: u16) -> bool {
    200 <= status <= 299
}

/// Whether a status reports an error of the client.
pub open spec fn is_client_error(status: u16) -> bool {
    400 <= status <= 499
}

/// The text that reports an answer with a bad status.
pub open spec fn spec_status_failure(what: Seq<char>, reply: HttpReply) -> Seq<char> {
    what + " returned status "@ + reply.status_text@ + " body="@ + reply.body@
}

fn status_failure(what: &str, reply: &HttpReply) -> (e: OAuthError)
    ensures
        e@ == OAuthErrorView::Other(spec_status_failure(what@, *reply)),
{
    let mut text = concat(what, " returned status ");
    text.append(reply.status_text.as_str());
    text.append(" body=");
    text.append(reply.body.as_str());
    OAuthError::Other(text)
}

/// What the answer to a listing comes to: the identifiers listed, or the
/// failure. `ids` is absent where the body could not be read as a list.
pub open spec fn spec_list_outcome(reply: HttpReply, ids: Option<Seq<Seq<char>>>) -> Result<
    Seq<Seq<char>>,
    OAuthErrorView,
> {
    if is_unauthorised(reply.status) {
        Err(OAuthErrorView::NotAuthorised)
    } else if is_client_error(reply.status) {
        Err(OAuthErrorView::Other(spec_status_failure("gmail list"@, reply)))
    } else {
        match ids {
            Some(ids) => Ok(ids),
            None => Err(OAuthErrorView::Other("invalid gmail list response"@)),
        }
    }
}

/// What the answer to a change of labels comes to.
pub open spec fn spec_modify_outcome(reply: HttpReply) -> Result<(), OAuthErrorView> {
    if is_unauthorised(reply.status) {
        Err(OAuthErrorView::NotAuthorised)
    } else if !is_success(reply.status) {
        Err(OAuthErrorView::Other(spec_status_failure("gmail modify"@, reply)))
    } else {
        Ok(())
    }
}

/// What the answer to the fetch of one message comes to.
pub enum MessageOutcome {
    /// The provider refuses the session: the cycle ends.
    Unauthorised,
    /// This message is passed over: the answer reports no success, or its
    /// body could not be read as a message.
    Skipped,
    /// The message is new and gives this notification.
    Fetched(NotificationView),
}

/// What the answer to the fetch of one message comes to. `message` is
/// absent where the body could not be read as a message.
pub open spec fn spec_message_outcome(status: u16, message: Option<Message>) -> MessageOutcome {
    if is_unauthorised(status) {
        MessageOutcome::Unauthorised
    } else if !is_success(status) {
        MessageOutcome::Skipped
    } else {
        match message {
            Some(m) => MessageOutcome::Fetched(spec_notification(m)),
            None => MessageOutcome::Skipped,
        }
    }
}

// ---------------------------------------------------------------------------
// Order of delivery
// ---------------------------------------------------------------------------

/// The views of a list of notifications.
pub open spec fn notes(list: Seq<GmailNotification>) -> Seq<NotificationView> {
    list.map_values(|n: GmailNotification| n@)
}

/// Whether a message received at `a` is delivered no later than one
/// received at `b`. A message without a time comes before any with one.
pub open spec fn not_after(a: Option<i64>, b: Option<i64>) -> bool {
    match (a, b) {
        (None, _) => true,
        (Some(_), None) => false,
        (Some(x), Some(y)) => x <= y,
    }
}

/// A list in order of delivery with one more notification put in: behind
/// every one that is not after it.
pub open spec fn spec_insert_by_time(sorted: Seq<NotificationView>, n: NotificationView) -> Seq<
    NotificationView,
>
    decreases sorted.len(),
{
    if sorted.len() == 0 {
        seq![n]
    } else if not_after(sorted.last().received_at, n.received_at) {
        sorted.push(n)
    } else {
        spec_insert_by_time(sorted.drop_last(), n).push(sorted.last())
    }
}

/// A list of notifications in order of delivery: ascending by time of
/// receipt, those of equal time in the order in which they stood.
pub open spec fn spec_sort_by_time(list: Seq<NotificationView>) -> Seq<NotificationView>
    decreases list.len(),
{
    if list.len() == 0 {
        list
    } else {
        spec_insert_by_time(spec_sort_by_time(list.drop_last()), list.last())
    }
}

/// Whether a list is in order of delivery.
pub open spec fn in_order(list: Seq<NotificationView>) -> bool {
    forall|i: int, j: int|
        0 <= i < j < list.len() ==> not_after(
            (#[trigger] list[i]).received_at,
            (#[trigger] list[j]).received_at,
        )
}

proof fn lemma_insert_at(sorted: Seq<NotificationView>, n: NotificationView, at: int)
    requires
        0 <= at <= sorted.len(),
        at > 0 ==> not_after(sorted[at - 1].received_at, n.received_at),
        forall|k: int| at <= k < sorted.len() ==> !not_after(sorted[k].received_at, n.received_at),
    ensures
        spec_insert_by_time(sorted, n) == sorted.insert(at, n),
    decreases sorted.len() - at,
{
    if sorted.len() == 0 {
        assert(sorted.insert(at, n) == seq![n]);
    } else if at == sorted.len() {
        assert(sorted.insert(at, n) == sorted.push(n));
    } else {
        lemma_insert_at(sorted.drop_last(), n, at);
        assert(sorted.drop_last().insert(at, n).push(sorted.last()) == sorted.insert(at, n));
    }
}

/// Putting a notification into a list that is in order gives a list that is
/// in order and holds what the list held, and the notification.
pub proof fn lemma_insert_keeps_order(sorted: Seq<NotificationView>, n: NotificationView)
    requires
        in_order(sorted),
    ensures
        in_order(spec_insert_by_time(sorted, n)),
        spec_insert_by_time(sorted, n).to_multiset() == sorted.to_multiset().insert(n),
        spec_insert_by_time(sorted, n).len() == sorted.len() + 1,
    decreases sorted.len(),
{
    broadcast use vstd::seq_lib::group_to_multiset_ensures;

    let after = spec_insert_by_time(sorted, n);
    if sorted.len() == 0 {
        assert(seq![n] == Seq::<NotificationView>::empty().push(n));
        assert(sorted == Seq::<NotificationView>::empty());
    } else if not_after(sorted.last().received_at, n.received_at) {
        assert forall|i: int, j: int| 0 <= i < j < after.len() implies not_after(
            (#[trigger] after[i]).received_at,
            (#[trigger] after[j]).received_at,
        ) by {
            if j == sorted.len() {
                assert(not_after(sorted[i].received_at, sorted.last().received_at) || i
                    == sorted.len() - 1);
            }
        }
    } else {
        let front = sorted.drop_last();
        lemma_insert_keeps_order(front, n);
        let mid = spec_insert_by_time(front, n);
        assert(sorted == front.push(sorted.last()));
        assert forall|i: int, j: int| 0 <= i < j < after.len() implies not_after(
            (#[trigger] after[i]).received_at,
            (#[trigger] after[j]).received_at,
        ) by {
            if j == mid.len() {
                // after[i] is `n` or stands in `front`
                assert(mid.to_multiset().count(mid[i]) > 0);
                if mid[i] != n {
                    assert(front.to_multiset().count(mid[i]) > 0);
                    assert(front.contains(mid[i]));
                    let k = choose|k: int| 0 <= k < front.len() && front[k] == mid[i];
                    assert(not_after(sorted[k].received_at, sorted.last().received_at));
                }
            }
        }
    }
}

/// The order of delivery is an order, and it keeps every notification.
pub proof fn lemma_sort_by_time(list: Seq<NotificationView>)
    ensures
        in_order(spec_sort_by_time(list)),
        spec_sort_by_time(list).to_multiset() == list.to_multiset(),
        spec_sort_by_time(list).len() == list.len(),
    decreases list.len(),
{
    broadcast use vstd::seq_lib::group_to_multiset_ensures;

    if list.len() > 0 {
        lemma_sort_by_time(list.drop_last());
        lemma_insert_keeps_order(spec_sort_by_time(list.drop_last()), list.last());
        assert(list == list.drop_last().push(list.last()));
    }
}

fn is_not_after(a: Option<i64>, b: Option<i64>) -> (r: bool)
    ensures
        r == not_after(a, b),
{
    match (a, b) {
        (None, _) => true,
        (Some(_), None) => false,
        (Some(x), Some(y)) => x <= y,
    }
}

/// Puts notifications in order of delivery.
pub fn sort_by_time(list: Vec<GmailNotification>) -> (sorted: Vec<GmailNotification>)
    ensures
        notes(sorted@) == spec_sort_by_time(notes(list@)),
{
    let mut sorted: Vec<GmailNotification> = Vec::new();
    let mut i: usize = 0;
    assert(notes(list@).take(0) == Seq::<NotificationView>::empty());
    while i < list.len()
        invariant
            i <= list.len(),
            sorted.len() == i,
            notes(sorted@) == spec_sort_by_time(notes(list@).take(i as int)),
        decreases list.len() - i,
    {
        let n = list[i].clone();
        let mut at: usize = sorted.len();
        while at > 0 && !is_not_after(sorted[at - 1].received_at, n.received_at)
            invariant
                at <= sorted.len(),
                forall|k: int|
                    at <= k < sorted.len() ==> !not_after(
                        notes(sorted@)[k].received_at,
                        n@.received_at,
                    ),
            decreases at,
        {
            at -= 1;
        }
        proof {
            lemma_insert_at(notes(sorted@), n@, at as int);
            assert(notes(list@).take(i + 1).drop_last() == notes(list@).take(i as int));
            assert(notes(list@).take(i + 1).last() == n@);
        }
        let ghost before = notes(sorted@);
        sorted.insert(at, n);
        assert(notes(sorted@) == before.insert(at as int, n@));
        i += 1;
    }
    assert(notes(list@).take(list.len() as int) == notes(list@));
    sorted
}

// ---------------------------------------------------------------------------
// The client
// ---------------------------------------------------------------------------

/// The mail poller's lasting state: which messages were already notified.
pub struct GmailClient {
    dedup: DedupCache,
}

impl View for GmailClient {
    type V = Entries;

    /// The remembered identifiers, most recently used first.
    closed spec fn view(&self) -> Entries {
        self.dedup@
    }
}

/// The identifiers that come up for a fetch: starting at `next`, those that
/// the cache holds are passed over, each such look counting as a use. The
/// result is the cache after that and the position of the first identifier
/// that it does not hold, or the length of the list.
pub open spec fn spec_pass_known(entries: Entries, ids: Seq<Seq<char>>, next: int) -> (Entries, int)
    decreases ids.len() - next,
{
    if 0 <= next < ids.len() && holds(entries, ids[next]) {
        spec_pass_known(touched(entries, ids[next]), ids, next + 1)
    } else {
        (entries, next)
    }
}

impl GmailClient {
    /// The invariant of the client: that of its cache.
    pub closed spec fn wf(&self) -> bool {
        self.dedup.wf()
    }

    /// What the invariant gives.
    pub proof fn lemma_wf(&self)
        requires
            self.wf(),
        ensures
            self@.len() <= DEDUP_CAPACITY,
    {
        self.dedup.lemma_wf();
    }

    /// A client that remembers nothing.
    pub fn new() -> (client: GmailClient)
        ensures
            client.wf(),
            client@.len() == 0,
    {
        GmailClient { dedup: DedupCache::new() }
    }

    /// Starts a fetch of unread mail: with a token, the listing to request;
    /// without one, the failure that kept it away.
    pub fn fetch_unread(&self, token: Result<String, OAuthError>, query: &str) -> (r: Result<
        ListRequest,
        OAuthError,
    >)
        ensures
            match token {
                Ok(bearer) => {
                    &&& r matches Ok(request)
                    &&& request.url@ == spec_list_url()
                    &&& request.bearer@ == bearer@
                    &&& request.q@ == query@
                    &&& request.max_results == LIST_PAGE_SIZE
                    &&& request.label_ids@ == "UNREAD"@
                },
                Err(e) => r matches Err(err) && err@ == e@,
            },
    {
        match token {
            Ok(bearer) => Ok(
                ListRequest {
                    url: concat("https://gmail.googleapis.com/gmail/v1/users/me", "/messages"),
                    bearer,
                    q: query.to_owned(),
                    max_results: LIST_PAGE_SIZE,
                    label_ids: "UNREAD".to_owned(),
                },
            ),
            Err(e) => Err(e),
        }
    }

    /// Takes the answer to the listing. A refusal of the session, an error
    /// of the client and a body that is no list each end the fetch;
    /// otherwise the cycle over the listed identifiers begins.
    pub fn listed(&self, bearer: String, reply: &HttpReply, ids: Option<Vec<String>>) -> (r: Result<
        FetchCycle,
        OAuthError,
    >)
        ensures
            match spec_list_outcome(
                *reply,
                match ids {
                    Some(list) => Some(texts(list@)),
                    None => None,
                },
            ) {
                Ok(listed) => {
                    &&& r matches Ok(cycle)
                    &&& texts(cycle.ids@) == listed
                    &&& cycle.next == 0
                    &&& cycle.collected@.len() == 0
                    &&& cycle.bearer@ == bearer@
                    &&& cycle.wf()
                },
                Err(e) => r matches Err(err) && err@ == e,
            },
    {
        if reply.status == 401 {
            return Err(OAuthError::NotAuthorised);
        }
        if 400 <= reply.status && reply.status <= 499 {
            return Err(status_failure("gmail list", reply));
        }
        match ids {
            Some(list) => Ok(FetchCycle { bearer, ids: list, next: 0, collected: Vec::new() }),
            None => Err(OAuthError::Other("invalid gmail list response".to_owned())),
        }
    }

    /// The request that takes the unread label off a message.
    pub fn mark_read_request(&self, bearer: String, id: &str) -> (request: ModifyRequest)
        ensures
            request.url@ == spec_modify_url(id@),
            request.bearer@ == bearer@,
            request.body@ == spec_mark_read_body(),
    {
        let mut url = message_api_url(id);
        url.append("/modify");
        ModifyRequest { url, bearer, body: "{\"removeLabelIds\":[\"UNREAD\"]}".to_owned() }
    }

    /// What the answer to that request comes to.
    pub fn mark_read(&self, reply: &HttpReply) -> (r: Result<(), OAuthError>)
        ensures
            match spec_modify_outcome(*reply) {
                Ok(_) => r is Ok,
                Err(e) => r matches Err(err) && err@ == e,
            },
    {
        if reply.status == 401 {
            return Err(OAuthError::NotAuthorised);
        }
        if !(200 <= reply.status && reply.status <= 299) {
            return Err(status_failure("gmail modify", reply));
        }
        Ok(())
    }

    /// Whether a message was already notified. Asking counts as a use of
    /// its identifier.
    pub fn is_known(&mut self, id: &str) -> (known: bool)
        requires
            old(self).wf(),
        ensures
            final(self).wf(),
            known == holds(old(self)@, id@),
            final(self)@ == touched(old(self)@, id@),
    {
        self.dedup.is_known(id)
    }

    /// Remembers a message as notified at `now`.
    pub fn mark_seen(&mut self, id: &str, now: u64)
        requires
            old(self).wf(),
        ensures
            final(self).wf(),
            final(self)@ == inserted(old(self)@, DEDUP_CAPACITY as nat, id@, now),
            holds(final(self)@, id@),
    {
        self.dedup.mark_seen(id, now)
    }

    /// Forgets one message, so that a later fetch brings it up again.
    pub fn forget(&mut self, id: &str)
        requires
            old(self).wf(),
        ensures
            final(self).wf(),
            final(self)@ == removed(old(self)@, id@),
            !holds(final(self)@, id@),
    {
        self.dedup.forget(id)
    }

    /// Forgets every message, so that the next fetch takes all as new.
    pub fn clear_cache(&mut self)
        requires
            old(self).wf(),
        ensures
            final(self).wf(),
            final(self)@.len() == 0,
    {
        self.dedup.clear()
    }
}

// ---------------------------------------------------------------------------
// One fetch cycle
// ---------------------------------------------------------------------------

/// A fetch in progress: the identifiers listed, how far the cycle has come,
/// and the notifications gathered so far.
#[derive(Debug)]
pub struct FetchCycle {
    pub bearer: String,
    pub ids: Vec<String>,
    pub next: usize,
    pub collected: Vec<GmailNotification>,
}

impl FetchCycle {
    /// The invariant of a cycle: its position lies within its list.
    pub open spec fn wf(&self) -> bool {
        self.next <= self.ids.len()
    }

    /// The next message to fetch: the first identifier from the cycle's
    /// position on that the client does not know. Without one the cycle is
    /// over.
    pub fn next_request(&mut self, client: &mut GmailClient) -> (request: Option<MessageRequest>)
        requires
            old(self).wf(),
            old(client).wf(),
        ensures
            final(self).wf(),
            final(client).wf(),
            final(self).ids == old(self).ids,
            final(self).bearer == old(self).bearer,
            final(self).collected == old(self).collected,
            ({
                let (entries, at) = spec_pass_known(
                    old(client)@,
                    texts(old(self).ids@),
                    old(self).next as int,
                );
                &&& final(client)@ == entries
                &&& match request {
                    Some(r) => {
                        &&& at < old(self).ids.len()
                        &&& final(self).next == at + 1
                        &&& r.id@ == old(self).ids[at]@
                        &&& r.url@ == spec_message_api_url(r.id@)
                        &&& r.bearer@ == old(self).bearer@
                        &&& r.format@ == "full"@
                    },
                    None => at == old(self).ids.len() && final(self).next == at,
                }
            }),
    {
        while self.next < self.ids.len()
            invariant
                self.wf(),
                client.wf(),
                self.ids == old(self).ids,
                self.bearer == old(self).bearer,
                self.collected == old(self).collected,
                spec_pass_known(old(client)@, texts(old(self).ids@), old(self).next as int)
                    == spec_pass_known(client@, texts(self.ids@), self.next as int),
            decreases self.ids.len() - self.next,
        {
            let at = self.next;
            assert(texts(self.ids@)[at as int] == self.ids[at as int]@);
            if !client.is_known(self.ids[at].as_str()) {
                self.next = at + 1;
                let id = self.ids[at].clone();
                let url = message_api_url(id.as_str());
                return Some(
                    MessageRequest {
                        id,
                        url,
                        bearer: self.bearer.clone(),
                        format: "full".to_owned(),
                    },
                );
            }
            self.next = at + 1;
        }
        None
    }

    /// Takes the answer to the fetch of one message. A refusal of the
    /// session ends the cycle with an error. An answer without success, or
    /// with a body that is no message, passes the message over. Otherwise
    /// the message's notification joins those gathered, and its identifier
    /// is remembered as seen at `now`.
    pub fn record(
        &mut self,
        client: &mut GmailClient,
        status: u16,
        message: Option<Message>,
        now: u64,
    ) -> (r: Result<(), OAuthError>)
        requires
            old(client).wf(),
        ensures
            final(client).wf(),
            final(self).ids == old(self).ids,
            final(self).next == old(self).next,
            final(self).bearer == old(self).bearer,
            match spec_message_outcome(status, message) {
                MessageOutcome::Unauthorised => {
                    &&& r matches Err(e)
                    &&& e@ == OAuthErrorView::NotAuthorised
                    &&& final(client)@ == old(client)@
                    &&& final(self).collected == old(self).collected
                },
                MessageOutcome::Skipped => {
                    &&& r is Ok
                    &&& final(client)@ == old(client)@
                    &&& final(self).collected == old(self).collected
                },
                MessageOutcome::Fetched(n) => {
                    &&& r is Ok
                    &&& final(client)@ == inserted(old(client)@, DEDUP_CAPACITY as nat, n.id, now)
                    &&& notes(final(self).collected@) == notes(old(self).collected@).push(n)
                },
            },
    {
        if status == 401 {
            return Err(OAuthError::NotAuthorised);
        }
        if !(200 <= status && status <= 299) {
            return Ok(());
        }
        match message {
            Some(m) => {
                let n = m.into_notification();
                client.mark_seen(n.id.as_str(), now);
                let ghost before = notes(self.collected@);
                self.collected.push(n);
                assert(notes(self.collected@) == before.push(n@));
                Ok(())
            },
            None => Ok(()),
        }
    }

    /// Ends the cycle: the notifications gathered, in order of delivery.
    pub fn finish(self) -> (notifications: Vec<GmailNotification>)
        ensures
            notes(notifications@) == spec_sort_by_time(notes(self.collected@)),
    {
        sort_by_time(self.collected)
    }
}

} // verus!
