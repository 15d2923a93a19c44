//! The delivery queue: one notification on display, the others waiting in
//! the order in which they came.

use crate::message::{GmailNotification, NotificationView};
use std::collections::VecDeque;
use vstd::prelude::*;

verus! {

/// What the presentation layer is asked to do after a queue operation.
#[derive(Debug)]
pub enum AlertAction {
    /// Display this notification.
    Show(GmailNotification),
    /// Hide the alert window.
    Hide,
    /// Leave the display as it is.
    Nothing,
}

/// The mathematical content of an `AlertAction`.
pub enum AlertView {
    Show(NotificationView),
    Hide,
    Nothing,
}

impl View for AlertAction {
    type V = AlertView;

    open spec fn view(&self) -> AlertView {
        match self {
            AlertAction::Show(n) => AlertView::Show(n@),
            AlertAction::Hide => AlertView::Hide,
            AlertAction::Nothing => AlertView::Nothing,
        }
    }
}

impl AlertAction {
    /// Whether the action displays a notification.
    pub fn is_show(&self) -> (r: bool)
        ensures
            r == (self@ is Show),
    {
        match self {
            AlertAction::Show(_) => true,
            _ => false,
        }
    }
}

/// The mathematical content of the queue: what is on display and what
/// waits, oldest first.
pub struct QueueView {
    pub current: Option<NotificationView>,
    pub pending: Seq<NotificationView>,
}

/// The notifications of a queue in the order in which they are displayed:
/// the one on display, then those that wait.
pub open spec fn line(queue: QueueView) -> Seq<NotificationView> {
    match queue.current {
        Some(n) => seq![n] + queue.pending,
        None => queue.pending,
    }
}

/// The queue after the notification on display is finished with: the
/// oldest waiting one takes its place; without one the queue is idle.
pub open spec fn spec_complete(queue: QueueView) -> QueueView {
    if queue.pending.len() > 0 {
        QueueView { current: Some(queue.pending[0]), pending: queue.pending.drop_first() }
    } else {
        QueueView { current: None, pending: Seq::empty() }
    }
}

/// What the presentation layer is asked to do then: to display the
/// notification that has taken the place, or to hide the alert.
pub open spec fn spec_complete_action(queue: QueueView) -> AlertView {
    if queue.pending.len() > 0 {
        AlertView::Show(queue.pending[0])
    } else {
        AlertView::Hide
    }
}

/// A single display slot with a first-in, first-out backlog.
pub struct NotificationQueue {
    current: Option<GmailNotification>,
    pending: VecDeque<GmailNotification>,
}

impl View for NotificationQueue {
    type V = QueueView;

    closed spec fn view(&self) -> QueueView {
        QueueView {
            current: match self.current {
                Some(n) => Some(n@),
                None => None,
            },
            pending: self.pending@.map_values(|n: GmailNotification| n@),
        }
    }
}

impl NotificationQueue {
    /// The invariant of the queue: nothing waits while nothing is on
    /// display.
    pub open spec fn wf(&self) -> bool {
        self@.current is None ==> self@.pending.len() == 0
    }

    /// Whether nothing is on display.
    pub open spec fn is_idle(&self) -> bool {
        self@.current is None
    }

    /// An empty queue.
    pub fn new() -> (queue: NotificationQueue)
        ensures
            queue.wf(),
            queue@.current is None,
            queue@.pending.len() == 0,
    {
        NotificationQueue { current: None, pending: VecDeque::new() }
    }

    /// Takes a notification in. On an idle queue it goes on display at once;
    /// otherwise it joins the end of the backlog.
    pub fn enqueue(&mut self, notification: GmailNotification) -> (action: AlertAction)
        requires
            old(self).wf(),
        ensures
            final(self).wf(),
            old(self).is_idle() ==> {
                &&& final(self)@.current == Some(notification@)
                &&& final(self)@.pending == old(self)@.pending
                &&& action@ == AlertView::Show(notification@)
            },
            !old(self).is_idle() ==> {
                &&& final(self)@.current == old(self)@.current
                &&& final(self)@.pending == old(self)@.pending.push(notification@)
                &&& action@ == AlertView::Nothing
            },
            line(final(self)@) == line(old(self)@).push(notification@),
    {
        if self.current.is_none() {
            let shown = notification.clone();
            self.current = Some(notification);
            assert(self@.pending.len() == 0);
            assert(line(self@) == Seq::<NotificationView>::empty().push(notification@));
            AlertAction::Show(shown)
        } else {
            let ghost before = self.pending@;
            self.pending.push_back(notification);
            assert(self.pending@.map_values(|n: GmailNotification| n@) == before.map_values(
                |n: GmailNotification| n@,
            ).push(notification@));
            assert(line(self@) == line(old(self)@).push(notification@));
            AlertAction::Nothing
        }
    }

    /// The notification on display.
    pub fn current(&self) -> (r: Option<GmailNotification>)
        ensures
            match r {
                Some(n) => self@.current == Some(n@),
                None => self@.current is None,
            },
    {
        match &self.current {
            Some(n) => Some(n.clone()),
            None => None,
        }
    }

    /// How many notifications wait behind the one on display.
    pub fn pending_len(&self) -> (n: usize)
        ensures
            n == self@.pending.len(),
    {
        self.pending.len()
    }

    /// Asks for the notification on display to be displayed again. The
    /// queue does not change. The action is `Show` where something is on
    /// display, `Nothing` where not.
    pub fn replay_current(&self) -> (action: AlertAction)
        ensures
            match self@.current {
                Some(n) => action@ == AlertView::Show(n),
                None => action@ == AlertView::Nothing,
            },
    {
        match &self.current {
            Some(n) => AlertAction::Show(n.clone()),
            None => AlertAction::Nothing,
        }
    }

    /// Finishes with the notification on display. The oldest waiting one
    /// takes its place and is displayed; where none waits, the queue
    /// becomes idle and the alert is hidden.
    pub fn complete_current(&mut self) -> (action: AlertAction)
        requires
            old(self).wf(),
        ensures
            final(self).wf(),
            final(self)@ == spec_complete(old(self)@),
            action@ == spec_complete_action(old(self)@),
            line(old(self)@).len() > 0 ==> line(final(self)@) == line(old(self)@).drop_first(),
            line(old(self)@).len() == 0 ==> line(final(self)@).len() == 0,
    {
        let ghost before = self.pending@;
        match self.pending.pop_front() {
            Some(next) => {
                assert(self.pending@.map_values(|n: GmailNotification| n@) == before.map_values(
                    |n: GmailNotification| n@,
                ).drop_first());
                let shown = next.clone();
                self.current = Some(next);
                AlertAction::Show(shown)
            },
            None => {
                self.current = None;
                assert(self@.pending == Seq::<NotificationView>::empty());
                AlertAction::Hide
            },
        }
    }

    /// Empties the queue. Nothing is asked of the presentation layer.
    pub fn clear(&mut self)
        ensures
            final(self).wf(),
            final(self)@ == (QueueView { current: None, pending: Seq::empty() }),
    {
        self.current = None;
        self.pending.clear();
        assert(self@.pending == Seq::<NotificationView>::empty());
    }
}

/// What the presentation layer is told when the user is done with an alert.
#[derive(Debug, Clone, Copy)]
pub struct NotificationResult {
    pub handled: bool,
}

/// The payload of the event that reports a dismissal.
pub fn notify_dismissed(handled: bool) -> (result: NotificationResult)
    ensures
        result.handled == handled,
{
    NotificationResult { handled }
}

/// Distance kept between the alert window and the edges of the monitor.
pub const ALERT_MARGIN: i32 = 64;

/// Where one coordinate of the alert window goes: `ALERT_MARGIN` before the
/// far edge of the monitor, and never before its near edge.
pub open spec fn spec_alert_origin(monitor_origin: i32, monitor_extent: u32, window_extent: u32) -> int {
    let far = monitor_origin + monitor_extent - window_extent - ALERT_MARGIN;
    if far < monitor_origin {
        monitor_origin as int
    } else {
        far
    }
}

/// Computes `spec_alert_origin` along one axis.
pub fn alert_origin(monitor_origin: i32, monitor_extent: u32, window_extent: u32) -> (origin: i32)
    requires
        monitor_origin + monitor_extent <= i32::MAX,
    ensures
        origin == spec_alert_origin(monitor_origin, monitor_extent, window_extent),
{
    let far: i64 = monitor_origin as i64 + monitor_extent as i64 - window_extent as i64
        - ALERT_MARGIN as i64;
    if far < monitor_origin as i64 {
        monitor_origin
    } else {
        far as i32
    }
}

/// The top left corner of the alert window: the bottom right of the
/// monitor, less the margin.
pub fn place_alert_window(
    monitor_x: i32,
    monitor_y: i32,
    monitor_width: u32,
    monitor_height: u32,
    width: u32,
    height: u32,
) -> (corner: (i32, i32))
    requires
        monitor_x + monitor_width <= i32::MAX,
        monitor_y + monitor_height <= i32::MAX,
    ensures
        corner.0 == spec_alert_origin(monitor_x, monitor_width, width),
        corner.1 == spec_alert_origin(monitor_y, monitor_height, height),
{
    (alert_origin(monitor_x, monitor_width, width), alert_origin(monitor_y, monitor_height, height))
}

} // verus!
