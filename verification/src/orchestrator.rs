//! The poll orchestrator: the snooze deadline, the one-shot authorization
//! prompt, and what a poll cycle does before and after the fetch.
//!
//! Times count seconds on a clock that never goes back.

use crate::dedup::{removed, Entries};
use crate::error::{OAuthError, OAuthErrorView};
use crate::gmail::{notes, GmailClient};
use crate::message::{GmailNotification, NotificationView};
use crate::notifier::{
    spec_complete, spec_complete_action, AlertAction, AlertView, NotificationQueue, QueueView,
};
use crate::oauth::AccessTokenProvider;
use crate::text::opt_view;
use vstd::prelude::*;

verus! {

/// Shortest interval, in seconds, between two scheduled poll cycles.
pub const MIN_POLL_INTERVAL_SECS: u64 = 15;

/// The interval between two scheduled poll cycles for a configured one.
pub open spec fn spec_effective_poll_interval(configured: u64) -> u64 {
    if configured < MIN_POLL_INTERVAL_SECS {
        MIN_POLL_INTERVAL_SECS
    } else {
        configured
    }
}

/// Applies the floor to the configured poll interval.
pub fn effective_poll_interval(configured: u64) -> (secs: u64)
    ensures
        secs == spec_effective_poll_interval(configured),
{
    if configured < MIN_POLL_INTERVAL_SECS {
        MIN_POLL_INTERVAL_SECS
    } else {
        configured
    }
}

/// What the user is told when the provider does not accept the session.
pub open spec fn spec_auth_required_message() -> Seq<char> {
    "Авторизация в Gmail недоступна. Откройте окно настроек и выполните вход."@
}

/// What the user is told while no client identifier is configured.
pub open spec fn spec_auth_config_message() -> Seq<char> {
    "Укажите OAuth Client ID и выполните авторизацию в настройках, чтобы продолжить."@
}

fn auth_required_message() -> (text: String)
    ensures
        text@ == spec_auth_required_message(),
{
    "Авторизация в Gmail недоступна. Откройте окно настроек и выполните вход.".to_owned()
}

fn auth_config_message() -> (text: String)
    ensures
        text@ == spec_auth_config_message(),
{
    "Укажите OAuth Client ID и выполните авторизацию в настройках, чтобы продолжить.".to_owned()
}

// ---------------------------------------------------------------------------
// Plans and reports
// ---------------------------------------------------------------------------

/// What a poll cycle is to do.
#[derive(Debug)]
pub enum PollPlan {
    /// No client is configured: no fetch. The prompt, where one is due.
    Unconfigured { prompt: Option<String> },
    /// The snooze deadline lies ahead: nothing is done.
    Snoozed,
    /// The snooze has ended with a notification still on display: it is
    /// displayed again, and no fetch is made.
    Replay(GmailNotification),
    /// Unread mail is fetched.
    Fetch,
}

/// The mathematical content of a `PollPlan`.
pub enum PollPlanView {
    Unconfigured { prompt: Option<Seq<char>> },
    Snoozed,
    Replay(NotificationView),
    Fetch,
}

impl View for PollPlan {
    type V = PollPlanView;

    open spec fn view(&self) -> PollPlanView {
        match self {
            PollPlan::Unconfigured { prompt } => PollPlanView::Unconfigured {
                prompt: opt_view(*prompt),
            },
            PollPlan::Snoozed => PollPlanView::Snoozed,
            PollPlan::Replay(n) => PollPlanView::Replay(n@),
            PollPlan::Fetch => PollPlanView::Fetch,
        }
    }
}

/// What a manual check is to do.
#[derive(Debug)]
pub enum CheckPlan {
    /// The user is prompted to authorise, and nothing is fetched.
    Prompt(String),
    /// The check fails with this text.
    Fail(String),
    /// Unread mail is fetched.
    Fetch,
}

/// The mathematical content of a `CheckPlan`.
pub enum CheckPlanView {
    Prompt(Seq<char>),
    Fail(Seq<char>),
    Fetch,
}

impl View for CheckPlan {
    type V = CheckPlanView;

    open spec fn view(&self) -> CheckPlanView {
        match self {
            CheckPlan::Prompt(text) => CheckPlanView::Prompt(text@),
            CheckPlan::Fail(text) => CheckPlanView::Fail(text@),
            CheckPlan::Fetch => CheckPlanView::Fetch,
        }
    }
}

/// What the presentation layer is asked to do after a fetch.
#[derive(Debug)]
pub struct PollReport {
    /// The notification to display, where the fetch put one on display.
    pub show: AlertAction,
    /// The authorization prompt, where one is due.
    pub prompt: Option<String>,
}

/// The mathematical content of a `PollReport`.
pub struct PollReportView {
    pub show: AlertView,
    pub prompt: Option<Seq<char>>,
}

impl View for PollReport {
    type V = PollReportView;

    open spec fn view(&self) -> PollReportView {
        PollReportView { show: self.show@, prompt: opt_view(self.prompt) }
    }
}

// ---------------------------------------------------------------------------
// The model
// ---------------------------------------------------------------------------

/// The mathematical content of the orchestrator.
pub struct OrchestratorView {
    pub queue: QueueView,
    pub snooze_until: Option<u64>,
    pub auth_prompted: bool,
}

/// The prompt that is due for a message: none once the user was prompted
/// and no fetch has succeeded since.
pub open spec fn spec_prompt_once(auth_prompted: bool, message: Seq<char>) -> Option<Seq<char>> {
    if auth_prompted {
        None
    } else {
        Some(message)
    }
}

/// The queue after a list of notifications is taken in, in order.
pub open spec fn spec_enqueue_all(queue: QueueView, list: Seq<NotificationView>) -> QueueView {
    if list.len() == 0 {
        queue
    } else if queue.current is None {
        QueueView { current: Some(list[0]), pending: queue.pending + list.drop_first() }
    } else {
        QueueView { current: queue.current, pending: queue.pending + list }
    }
}

/// What is displayed after a list of notifications is taken in: the first
/// of them, where the queue was idle.
pub open spec fn spec_shown_first(queue: QueueView, list: Seq<NotificationView>) -> AlertView {
    if list.len() > 0 && queue.current is None {
        AlertView::Show(list[0])
    } else {
        AlertView::Nothing
    }
}

/// A poll cycle before the fetch: the state it leaves, what the mail
/// poller remembers after it, and the plan.
///
/// Without configuration nothing is fetched and the user is prompted once.
/// Before the snooze deadline nothing at all is done. At or after it the
/// deadline is cleared; a notification still on display is displayed again,
/// and without one the mail poller forgets what it has seen and a fetch
/// follows. Without a deadline a fetch follows.
pub open spec fn spec_poll_once(
    state: OrchestratorView,
    seen: Entries,
    configured: bool,
    now: u64,
) -> (OrchestratorView, Entries, PollPlanView) {
    if !configured {
        (
            OrchestratorView { auth_prompted: true, ..state },
            seen,
            PollPlanView::Unconfigured {
                prompt: spec_prompt_once(state.auth_prompted, spec_auth_config_message()),
            },
        )
    } else {
        match state.snooze_until {
            Some(until) => if now < until {
                (state, seen, PollPlanView::Snoozed)
            } else {
                match state.queue.current {
                    Some(n) => (
                        OrchestratorView { snooze_until: None, ..state },
                        seen,
                        PollPlanView::Replay(n),
                    ),
                    None => (
                        OrchestratorView { snooze_until: None, ..state },
                        Seq::empty(),
                        PollPlanView::Fetch,
                    ),
                }
            },
            None => (state, seen, PollPlanView::Fetch),
        }
    }
}

/// A poll cycle after the fetch: the state it leaves, and the report.
///
/// New notifications join the queue, and the prompt is due again from now
/// on. A session that is not authorised empties the queue and prompts the
/// user once; a misconfigured one prompts once with its reason. Any other
/// failure leaves everything as it is.
pub open spec fn spec_poll_fetched(
    state: OrchestratorView,
    fetched: Result<Seq<NotificationView>, OAuthErrorView>,
) -> (OrchestratorView, PollReportView) {
    match fetched {
        Ok(list) => (
            OrchestratorView {
                queue: spec_enqueue_all(state.queue, list),
                auth_prompted: false,
                ..state
            },
            PollReportView { show: spec_shown_first(state.queue, list), prompt: None },
        ),
        Err(OAuthErrorView::NotAuthorised) => (
            OrchestratorView {
                queue: QueueView { current: None, pending: Seq::empty() },
                auth_prompted: true,
                ..state
            },
            PollReportView {
                show: AlertView::Nothing,
                prompt: spec_prompt_once(state.auth_prompted, spec_auth_required_message()),
            },
        ),
        Err(OAuthErrorView::Misconfigured(reason)) => (
            OrchestratorView { auth_prompted: true, ..state },
            PollReportView {
                show: AlertView::Nothing,
                prompt: spec_prompt_once(state.auth_prompted, reason),
            },
        ),
        Err(OAuthErrorView::Other(_)) => (
            state,
            PollReportView { show: AlertView::Nothing, prompt: None },
        ),
    }
}

/// What a manual check does first, whatever follows: an active snooze is
/// cleared, and where one was active the mail poller forgets what it has
/// seen.
pub open spec fn spec_unsnoozed(state: OrchestratorView, seen: Entries) -> (
    OrchestratorView,
    Entries,
) {
    (
        OrchestratorView { snooze_until: None, ..state },
        if state.snooze_until is Some {
            Seq::empty()
        } else {
            seen
        },
    )
}

/// A manual check: the state it leaves, what the mail poller remembers
/// after it, and the plan. `token` is what the session gave when it was
/// asked for a token; it counts only where a client is configured.
///
/// The snooze is cleared first, by `spec_unsnoozed`, with or without a
/// configuration and whatever the session gave. A missing configuration and
/// a session that gives no token then prompt the user, whether or not the
/// user was prompted before; a failure that is neither ends the check with
/// its text. Otherwise a fetch follows.
pub open spec fn spec_check_now(
    state: OrchestratorView,
    seen: Entries,
    configured: bool,
    token: Option<Result<Seq<char>, OAuthErrorView>>,
) -> (OrchestratorView, Entries, CheckPlanView) {
    let (awake, remembered) = spec_unsnoozed(state, seen);
    if !configured {
        (
            OrchestratorView { auth_prompted: true, ..awake },
            remembered,
            CheckPlanView::Prompt(spec_auth_config_message()),
        )
    } else {
        match token {
            Some(Err(OAuthErrorView::NotAuthorised)) => (
                OrchestratorView { auth_prompted: true, ..awake },
                remembered,
                CheckPlanView::Prompt(spec_auth_required_message()),
            ),
            Some(Err(OAuthErrorView::Misconfigured(reason))) => (
                OrchestratorView { auth_prompted: true, ..awake },
                remembered,
                CheckPlanView::Prompt(reason),
            ),
            Some(Err(OAuthErrorView::Other(text))) => (
                awake,
                remembered,
                CheckPlanView::Fail(text),
            ),
            _ => (awake, remembered, CheckPlanView::Fetch),
        }
    }
}

/// The state after polling is suppressed for `duration_mins` minutes from
/// `now`: the deadline is set, and nothing else changes.
pub open spec fn spec_snooze(state: OrchestratorView, duration_mins: u64, now: u64) -> OrchestratorView
    recommends
        now + duration_mins * 60 <= u64::MAX,
{
    OrchestratorView { snooze_until: Some((now + duration_mins * 60) as u64), ..state }
}

/// What a manual check can learn from a provider: whether a client is
/// configured and, where one is and only there, what came of asking for a
/// token.
pub open spec fn spec_provider_answers(
    configured: bool,
    token: Option<Result<Seq<char>, OAuthErrorView>>,
) -> bool {
    configured == (token is Some)
}

/// The view of what a session gave when it was asked for a token.
pub open spec fn token_view(token: Option<Result<String, OAuthError>>) -> Option<
    Result<Seq<char>, OAuthErrorView>,
> {
    match token {
        Some(Ok(t)) => Some(Ok(t@)),
        Some(Err(e)) => Some(Err(e@)),
        None => None,
    }
}

/// The view of what a fetch gave.
pub open spec fn fetched_view(fetched: Result<Vec<GmailNotification>, OAuthError>) -> Result<
    Seq<NotificationView>,
    OAuthErrorView,
> {
    match fetched {
        Ok(list) => Ok(notes(list@)),
        Err(e) => Err(e@),
    }
}

// ---------------------------------------------------------------------------
// The orchestrator
// ---------------------------------------------------------------------------

/// The state that ties the session, the mail poller and the queue
/// together.
pub struct PollOrchestrator {
    notifier: NotificationQueue,
    snooze_until: Option<u64>,
    auth_prompted: bool,
}

impl View for PollOrchestrator {
    type V = OrchestratorView;

    closed spec fn view(&self) -> OrchestratorView {
        OrchestratorView {
            queue: self.notifier@,
            snooze_until: self.snooze_until,
            auth_prompted: self.auth_prompted,
        }
    }
}

impl PollOrchestrator {
    /// The invariant of the orchestrator: that of its queue.
    pub open spec fn wf(&self) -> bool {
        self@.queue.current is None ==> self@.queue.pending.len() == 0
    }

    /// An orchestrator with an empty queue, no snooze and no prompt made.
    pub fn new() -> (orchestrator: PollOrchestrator)
        ensures
            orchestrator.wf(),
            orchestrator@.queue.current is None,
            orchestrator@.queue.pending.len() == 0,
            orchestrator@.snooze_until is None,
            !orchestrator@.auth_prompted,
    {
        PollOrchestrator { notifier: NotificationQueue::new(), snooze_until: None, auth_prompted: false }
    }

    /// Lets the next failure prompt the user again.
    pub fn reset_auth_prompt(&mut self)
        ensures
            final(self)@ == (OrchestratorView { auth_prompted: false, ..old(self)@ }),
    {
        self.auth_prompted = false;
    }

    /// The prompt for a message, unless the user was prompted since the last
    /// success.
    pub fn prompt_auth_once(&mut self, message: &str) -> (prompt: Option<String>)
        ensures
            final(self)@ == (OrchestratorView { auth_prompted: true, ..old(self)@ }),
            opt_view(prompt) == spec_prompt_once(old(self)@.auth_prompted, message@),
    {
        if self.auth_prompted {
            None
        } else {
            self.auth_prompted = true;
            Some(message.to_owned())
        }
    }

    /// The prompt for a message, whatever went before.
    pub fn prompt_auth_force(&mut self, message: &str) -> (prompt: String)
        ensures
            final(self)@ == (OrchestratorView { auth_prompted: true, ..old(self)@ }),
            prompt@ == message@,
    {
        self.auth_prompted = true;
        message.to_owned()
    }

    /// Suppresses polling for `duration_mins` minutes from `now`, and asks
    /// for the alert to be hidden. The queue stays as it is.
    pub fn snooze(&mut self, duration_mins: u64, now: u64) -> (action: AlertAction)
        requires
            now + duration_mins * 60 <= u64::MAX,
        ensures
            final(self)@ == spec_snooze(old(self)@, duration_mins, now),
            action@ == AlertView::Hide,
    {
        self.snooze_until = Some(now + duration_mins * 60);
        AlertAction::Hide
    }

    /// Whether `snooze` can represent the deadline.
    pub fn snooze_fits(duration_mins: u64, now: u64) -> (fits: bool)
        ensures
            fits == (now + duration_mins * 60 <= u64::MAX),
    {
        match duration_mins.checked_mul(60) {
            Some(secs) => now.checked_add(secs).is_some(),
            None => false,
        }
    }

    /// The snooze deadline.
    pub fn snooze_until(&self) -> (deadline: Option<u64>)
        ensures
            deadline == self@.snooze_until,
    {
        self.snooze_until
    }

    /// The notification on display.
    pub fn current_notification(&self) -> (r: Option<GmailNotification>)
        ensures
            match r {
                Some(n) => self@.queue.current == Some(n@),
                None => self@.queue.current is None,
            },
    {
        self.notifier.current()
    }

    /// How many notifications wait behind the one on display.
    pub fn pending_len(&self) -> (n: usize)
        ensures
            n == self@.queue.pending.len(),
    {
        self.notifier.pending_len()
    }

    /// The first part of a poll cycle at `now`: whether to fetch.
    pub fn poll_once(&mut self, gmail: &mut GmailClient, configured: bool, now: u64) -> (plan:
        PollPlan)
        requires
            old(self).wf(),
            old(gmail).wf(),
        ensures
            final(self).wf(),
            final(gmail).wf(),
            (final(self)@, final(gmail)@, plan@) == spec_poll_once(
                old(self)@,
                old(gmail)@,
                configured,
                now,
            ),
    {
        if !configured {
            let message = auth_config_message();
            let prompt = self.prompt_auth_once(message.as_str());
            return PollPlan::Unconfigured { prompt };
        }
        match self.snooze_until {
            Some(until) => {
                if now < until {
                    return PollPlan::Snoozed;
                }
                self.snooze_until = None;
                match self.notifier.replay_current() {
                    AlertAction::Show(n) => {
                        return PollPlan::Replay(n);
                    },
                    _ => {
                        gmail.clear_cache();
                        assert(gmail@ == Seq::<(Seq<char>, u64)>::empty());
                    },
                }
            },
            None => {},
        }
        PollPlan::Fetch
    }

    /// The notification that a poll cycle meant to display again could not
    /// be displayed. The cycle goes on as if nothing had been on display:
    /// the mail poller forgets what it has seen, and a fetch follows. The
    /// queue, the deadline, which the cycle has cleared already, and the
    /// prompt flag stay as they are.
    pub fn replay_failed(&mut self, gmail: &mut GmailClient) -> (plan: PollPlan)
        requires
            old(self).wf(),
            old(gmail).wf(),
        ensures
            final(self).wf(),
            final(gmail).wf(),
            final(self)@ == old(self)@,
            final(gmail)@ == Seq::<(Seq<char>, u64)>::empty(),
            plan@ == PollPlanView::Fetch,
    {
        gmail.clear_cache();
        assert(gmail@ == Seq::<(Seq<char>, u64)>::empty());
        PollPlan::Fetch
    }

    fn enqueue_all(&mut self, list: Vec<GmailNotification>) -> (show: AlertAction)
        requires
            old(self).wf(),
        ensures
            final(self).wf(),
            final(self)@ == (OrchestratorView {
                queue: spec_enqueue_all(old(self)@.queue, notes(list@)),
                ..old(self)@
            }),
            show@ == spec_shown_first(old(self)@.queue, notes(list@)),
    {
        let mut show = AlertAction::Nothing;
        let mut i: usize = 0;
        assert(notes(list@).take(0) == Seq::<NotificationView>::empty());
        assert(old(self)@.queue.pending + Seq::<NotificationView>::empty() == old(
            self,
        )@.queue.pending);
        while i < list.len()
            invariant
                i <= list.len(),
                self.wf(),
                self@ == (OrchestratorView {
                    queue: spec_enqueue_all(old(self)@.queue, notes(list@).take(i as int)),
                    ..old(self)@
                }),
                show@ == spec_shown_first(old(self)@.queue, notes(list@).take(i as int)),
            decreases list.len() - i,
        {
            let n = list[i].clone();
            let ghost before = notes(list@).take(i as int);
            let ghost after = notes(list@).take(i + 1);
            assert(after == before.push(n@));
            let action = self.notifier.enqueue(n);
            proof {
                let start = old(self)@.queue;
                if before.len() == 0 {
                    assert(after.drop_first() == Seq::<NotificationView>::empty());
                    assert(start.pending + after.drop_first() == start.pending);
                    assert(start.pending + after == start.pending.push(n@));
                } else {
                    assert(after.drop_first() == before.drop_first().push(n@));
                    assert(start.pending + after.drop_first() == (start.pending
                        + before.drop_first()).push(n@));
                    assert(start.pending + after == (start.pending + before).push(n@));
                    assert(after[0] == before[0]);
                }
            }
            if i == 0 {
                show = action;
            }
            i += 1;
        }
        assert(notes(list@).take(list.len() as int) == notes(list@));
        show
    }

    /// The second part of a poll cycle: what the fetch gave.
    pub fn poll_fetched(&mut self, fetched: Result<Vec<GmailNotification>, OAuthError>) -> (report:
        PollReport)
        requires
            old(self).wf(),
        ensures
            final(self).wf(),
            (final(self)@, report@) == spec_poll_fetched(old(self)@, fetched_view(fetched)),
    {
        match fetched {
            Ok(list) => {
                self.auth_prompted = false;
                let show = self.enqueue_all(list);
                PollReport { show, prompt: None }
            },
            Err(OAuthError::NotAuthorised) => {
                self.notifier.clear();
                assert(self.notifier@.pending == Seq::<NotificationView>::empty());
                let message = auth_required_message();
                let prompt = self.prompt_auth_once(message.as_str());
                PollReport { show: AlertAction::Nothing, prompt }
            },
            Err(OAuthError::Misconfigured(reason)) => {
                let prompt = self.prompt_auth_once(reason.as_str());
                PollReport { show: AlertAction::Nothing, prompt }
            },
            Err(OAuthError::Other(_)) => PollReport { show: AlertAction::Nothing, prompt: None },
        }
    }

    /// A manual check, given whether a client is configured and what the
    /// session gave when it was asked for a token.
    pub fn check_now_with(
        &mut self,
        gmail: &mut GmailClient,
        configured: bool,
        token: Option<Result<String, OAuthError>>,
    ) -> (plan: CheckPlan)
        requires
            old(self).wf(),
            old(gmail).wf(),
        ensures
            final(self).wf(),
            final(gmail).wf(),
            (final(self)@, final(gmail)@, plan@) == spec_check_now(
                old(self)@,
                old(gmail)@,
                configured,
                token_view(token),
            ),
    {
        let was_snoozed = self.snooze_until.is_some();
        self.snooze_until = None;
        if was_snoozed {
            gmail.clear_cache();
            assert(gmail@ == Seq::<(Seq<char>, u64)>::empty());
        }
        if !configured {
            let message = auth_config_message();
            return CheckPlan::Prompt(self.prompt_auth_force(message.as_str()));
        }
        match token {
            Some(Err(OAuthError::NotAuthorised)) => {
                let message = auth_required_message();
                CheckPlan::Prompt(self.prompt_auth_force(message.as_str()))
            },
            Some(Err(OAuthError::Misconfigured(reason))) => {
                CheckPlan::Prompt(self.prompt_auth_force(reason.as_str()))
            },
            Some(Err(OAuthError::Other(text))) => CheckPlan::Fail(text),
            _ => CheckPlan::Fetch,
        }
    }

    /// A manual check: asks the provider whether it is configured and, if
    /// so, for a token, and decides by `check_now_with`. Whatever the
    /// provider answers, the check is the one that `spec_check_now` gives
    /// for some answers that a provider can give.
    pub fn check_now<P: AccessTokenProvider>(&mut self, gmail: &mut GmailClient, provider: &P) -> (plan:
        CheckPlan)
        requires
            old(self).wf(),
            old(gmail).wf(),
        ensures
            final(self).wf(),
            final(gmail).wf(),
            final(self)@.queue == old(self)@.queue,
            exists|configured: bool, token: Option<Result<Seq<char>, OAuthErrorView>>|
                spec_provider_answers(configured, token) && (final(self)@, final(gmail)@, plan@)
                    == #[trigger] spec_check_now(old(self)@, old(gmail)@, configured, token),
    {
        let configured = provider.is_configured();
        let token = if configured {
            Some(provider.access_token())
        } else {
            None
        };
        let ghost answered = token_view(token);
        assert(spec_provider_answers(configured, answered));
        self.check_now_with(gmail, configured, token)
    }

    /// Finishes with the notification on display; the next one, if any,
    /// takes its place.
    pub fn complete_current(&mut self) -> (action: AlertAction)
        requires
            old(self).wf(),
        ensures
            final(self).wf(),
            final(self)@ == (OrchestratorView {
                queue: spec_complete(old(self)@.queue),
                ..old(self)@
            }),
            action@ == spec_complete_action(old(self)@.queue),
    {
        self.notifier.complete_current()
    }

    /// The user has read a message, and the provider has answered the
    /// request to mark it so. After a failure nothing changes. After
    /// success the message is forgotten by the mail poller and the
    /// notification on display is finished with.
    pub fn mark_message_read(
        &mut self,
        gmail: &mut GmailClient,
        id: &str,
        marked: Result<(), OAuthError>,
    ) -> (r: Result<AlertAction, OAuthError>)
        requires
            old(self).wf(),
            old(gmail).wf(),
        ensures
            final(self).wf(),
            final(gmail).wf(),
            match marked {
                Ok(_) => {
                    &&& r matches Ok(action)
                    &&& action@ == spec_complete_action(old(self)@.queue)
                    &&& final(gmail)@ == removed(old(gmail)@, id@)
                    &&& final(self)@ == (OrchestratorView {
                        queue: spec_complete(old(self)@.queue),
                        ..old(self)@
                    })
                },
                Err(e) => {
                    &&& r matches Err(err)
                    &&& err@ == e@
                    &&& final(self)@ == old(self)@
                    &&& final(gmail)@ == old(gmail)@
                },
            },
    {
        match marked {
            Ok(_) => {
                gmail.forget(id);
                Ok(self.complete_current())
            },
            Err(e) => Err(e),
        }
    }

    /// The user has dismissed the alert: the message, where it is named, is
    /// forgotten by the mail poller, and the notification on display is
    /// finished with.
    pub fn dismiss_notification(&mut self, gmail: &mut GmailClient, id: &Option<String>) -> (action:
        AlertAction)
        requires
            old(self).wf(),
            old(gmail).wf(),
        ensures
            final(self).wf(),
            final(gmail).wf(),
            match *id {
                Some(text) => final(gmail)@ == removed(old(gmail)@, text@),
                None => final(gmail)@ == old(gmail)@,
            },
            final(self)@ == (OrchestratorView {
                queue: spec_complete(old(self)@.queue),
                ..old(self)@
            }),
            action@ == spec_complete_action(old(self)@.queue),
    {
        match id {
            Some(text) => {
                gmail.forget(text.as_str());
            },
            None => {},
        }
        self.complete_current()
    }

    /// The user has signed out: the queue is emptied, silently.
    pub fn clear_notifications(&mut self)
        ensures
            final(self).wf(),
            final(self)@ == (OrchestratorView {
                queue: QueueView { current: None, pending: Seq::empty() },
                ..old(self)@
            }),
    {
        self.notifier.clear();
    }
}

// ---------------------------------------------------------------------------
// Laws
// ---------------------------------------------------------------------------

/// While the snooze deadline lies ahead, a poll cycle does nothing: no
/// fetch, and no change of any state.
pub proof fn lemma_snooze_suppresses(state: OrchestratorView, seen: Entries, now: u64)
    requires
        state.snooze_until matches Some(until) && now < until,
    ensures
        spec_poll_once(state, seen, true, now) == (state, seen, PollPlanView::Snoozed),
{
}

/// Once the snooze deadline has come, a poll cycle clears it. It then
/// displays the notification that is still on display again and fetches
/// nothing; or, with none on display, it has the mail poller forget what
/// it has seen, and fetches.
pub proof fn lemma_snooze_ends(state: OrchestratorView, seen: Entries, now: u64)
    requires
        state.snooze_until matches Some(until) && now >= until,
    ensures
        spec_poll_once(state, seen, true, now).0.snooze_until is None,
        spec_poll_once(state, seen, true, now).0.queue == state.queue,
        match state.queue.current {
            Some(n) => {
                &&& spec_poll_once(state, seen, true, now).2 == PollPlanView::Replay(n)
                &&& spec_poll_once(state, seen, true, now).1 == seen
            },
            None => {
                &&& spec_poll_once(state, seen, true, now).2 == PollPlanView::Fetch
                &&& spec_poll_once(state, seen, true, now).1.len() == 0
            },
        },
{
}

/// A snooze of `duration_mins` minutes set at `set_at` suppresses every
/// poll cycle before `set_at` plus that many minutes: such a cycle fetches
/// nothing and changes nothing. The first cycle at or after that time
/// clears the deadline; it displays again what is on display, or has the
/// mail poller forget what it has seen and fetches. The queue is the one
/// that was there when the snooze was set. A snooze of ten minutes is in
/// force five minutes later and over eleven minutes later.
pub proof fn lemma_snooze_then_poll(
    state: OrchestratorView,
    seen: Entries,
    duration_mins: u64,
    set_at: u64,
    now: u64,
)
    requires
        set_at + duration_mins * 60 <= u64::MAX,
    ensures
        spec_snooze(state, duration_mins, set_at).queue == state.queue,
        spec_snooze(state, duration_mins, set_at).snooze_until == Some(
            (set_at + duration_mins * 60) as u64,
        ),
        now < set_at + duration_mins * 60 ==> spec_poll_once(
            spec_snooze(state, duration_mins, set_at),
            seen,
            true,
            now,
        ) == (spec_snooze(state, duration_mins, set_at), seen, PollPlanView::Snoozed),
        now >= set_at + duration_mins * 60 ==> {
            let after = spec_poll_once(spec_snooze(state, duration_mins, set_at), seen, true, now);
            &&& after.0 == (OrchestratorView { snooze_until: None, ..state })
            &&& match state.queue.current {
                Some(n) => after.2 == PollPlanView::Replay(n) && after.1 == seen,
                None => after.2 == PollPlanView::Fetch && after.1.len() == 0,
            }
        },
        duration_mins == 10 && now == set_at + 300 ==> spec_poll_once(
            spec_snooze(state, duration_mins, set_at),
            seen,
            true,
            now,
        ).2 == PollPlanView::Snoozed,
        duration_mins == 10 && now == set_at + 660 ==> spec_poll_once(
            spec_snooze(state, duration_mins, set_at),
            seen,
            true,
            now,
        ).0.snooze_until is None,
{
}

/// A manual check leaves no snooze in force, whether a client is configured
/// or not and whatever the session gave; and where a snooze was in force
/// the mail poller remembers nothing after it.
pub proof fn lemma_check_now_clears_snooze(
    state: OrchestratorView,
    seen: Entries,
    configured: bool,
    token: Option<Result<Seq<char>, OAuthErrorView>>,
)
    ensures
        spec_check_now(state, seen, configured, token).0.snooze_until is None,
        spec_check_now(state, seen, configured, token).0.queue == state.queue,
        state.snooze_until is Some ==> spec_check_now(state, seen, configured, token).1.len() == 0,
        state.snooze_until is None ==> spec_check_now(state, seen, configured, token).1 == seen,
        spec_poll_once(
            spec_check_now(state, seen, configured, token).0,
            spec_check_now(state, seen, configured, token).1,
            true,
            0,
        ).2 == PollPlanView::Fetch,
{
}

/// Taking notifications in never leaves one waiting behind an empty
/// display, and keeps the order in which they came.
pub proof fn lemma_enqueue_all_fifo(queue: QueueView, list: Seq<NotificationView>)
    requires
        queue.current is None ==> queue.pending.len() == 0,
    ensures
        spec_enqueue_all(queue, list).current is None ==> spec_enqueue_all(
            queue,
            list,
        ).pending.len() == 0,
        (match queue.current {
            Some(n) => seq![n],
            None => Seq::empty(),
        }) + queue.pending + list == (match spec_enqueue_all(queue, list).current {
            Some(n) => seq![n],
            None => Seq::empty(),
        }) + spec_enqueue_all(queue, list).pending,
{
    if list.len() > 0 && queue.current is None {
        assert(seq![list[0]] + list.drop_first() == list);
        assert(queue.pending == Seq::<NotificationView>::empty());
        assert(Seq::<NotificationView>::empty() + queue.pending + list == list);
        assert(seq![list[0]] + (queue.pending + list.drop_first()) == list);
    } else if list.len() > 0 {
        let n = queue.current->0;
        assert(seq![n] + queue.pending + list == seq![n] + (queue.pending + list));
    } else {
        assert(queue.pending + list == queue.pending);
        let head = match queue.current {
            Some(n) => seq![n],
            None => Seq::empty(),
        };
        assert(head + queue.pending + list == head + queue.pending);
    }
}

} // verus!
