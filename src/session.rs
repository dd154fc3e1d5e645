//! The navigation of a displayed paginated response, as a state machine.
//!
//! A session is driven by its owner: the owner performs each action that a
//! step returns (rendering, reacting, subscribing, deleting) and hands back
//! what happened as the next event. Reaction events come from a broadcast
//! bus with bounded lag: a subscriber that falls behind loses events, and the
//! owner reports each such loss as a `Lagged` event, which the session counts.

use vstd::prelude::*;
use vstd::arithmetic::div_mod::lemma_fundamental_div_mod_converse;

use crate::pagination::{
    next_page, previous_page, spec_next_page, spec_previous_page, PageChangePermission, PageView,
    PaginatedList,
};

verus! {

/// The emoji of the "previous page" reaction.
pub const PREVIOUS_EMOJI: char = '\u{2B05}';

/// The emoji of the "next page" reaction.
pub const NEXT_EMOJI: char = '\u{27A1}';

/// A reaction on a message.
#[derive(Clone, Debug)]
pub struct Reaction {
    pub channel_id: u64,
    pub message_id: u64,
    /// The user who reacted, where the platform names one.
    pub user_id: Option<u64>,
    /// The emoji, as text.
    pub emoji: String,
}

/// A reaction event from the platform.
#[derive(Clone, Debug)]
pub enum ReactionUpdate {
    Added(Reaction),
    Removed(Reaction),
    /// Every reaction was removed from message `.1` in channel `.0`.
    Wiped(u64, u64),
}

/// A message as the lifecycle events name it.
#[derive(Clone, Copy, Debug, PartialEq, Eq, Structural)]
pub struct MessageRef {
    pub channel_id: u64,
    pub message_id: u64,
}

/// A message lifecycle event from the platform.
#[derive(Clone, Copy, Debug, PartialEq, Eq, Structural)]
pub enum MessageUpdate {
    Sent(MessageRef),
    Edited(MessageRef),
    Deleted(MessageRef),
}

/// Where a session is in its life.
#[derive(Clone, Copy, Debug, PartialEq, Eq, Structural)]
pub enum Phase {
    /// The first page is being rendered.
    Rendering,
    /// The message carries the navigation reactions and listens for them.
    Navigating,
    /// The session has ended.
    Closed,
}

/// What a session's owner reports to it.
#[derive(Clone, Debug)]
pub enum SessionEvent {
    /// The first page was rendered as message `message_id`.
    Rendered { message_id: u64 },
    /// The cancellation handle was signalled.
    Cancelled,
    /// The navigation deadline passed.
    TimedOut,
    /// A reaction event arrived from the bus.
    Update(ReactionUpdate),
    /// The subscriber fell behind the bus and lost this many events.
    Lagged(u64),
}

/// What a session asks its owner to do.
#[derive(Clone, Debug)]
pub enum SessionAction {
    /// Add the previous and next reactions to the message, subscribe to the
    /// bus and start the deadline.
    AttachNavigation,
    /// The response has a single page: the session ends with no navigation.
    Finish,
    /// Nothing to do; wait for the next event.
    Wait,
    /// Remove the reaction that came in; the page stays.
    RemoveReaction,
    /// Remove the reaction that came in, then edit the message to show this page.
    TurnPage { page: usize, view: PageView },
    /// Navigation ends; delete the message first where asked.
    Close { delete_message: bool },
}

/// The kind of a session action, without what it renders.
#[derive(Clone, Copy, Debug, PartialEq, Eq, Structural)]
pub enum ActionKind {
    AttachNavigation,
    Finish,
    Wait,
    RemoveReaction,
    TurnPage(usize),
    Close(bool),
}

impl SessionAction {
    pub open spec fn kind(self) -> ActionKind {
        match self {
            SessionAction::AttachNavigation => ActionKind::AttachNavigation,
            SessionAction::Finish => ActionKind::Finish,
            SessionAction::Wait => ActionKind::Wait,
            SessionAction::RemoveReaction => ActionKind::RemoveReaction,
            SessionAction::TurnPage { page, .. } => ActionKind::TurnPage(page),
            SessionAction::Close { delete_message } => ActionKind::Close(delete_message),
        }
    }
}

/// Whether `emoji` is the "previous page" emoji.
pub open spec fn is_previous(emoji: Seq<char>) -> bool {
    emoji == seq![PREVIOUS_EMOJI]
}

/// Whether `emoji` is the "next page" emoji.
pub open spec fn is_next(emoji: Seq<char>) -> bool {
    emoji == seq![NEXT_EMOJI]
}

fn is_single(emoji: &String, c: char) -> (r: bool)
    ensures
        r == (emoji@ == seq![c]),
{
    let s = emoji.as_str();
    if s.unicode_len() != 1 {
        proof {
            assert(emoji@.len() != seq![c].len());
        }
        return false;
    }
    let first = s.get_char(0);
    proof {
        if first == c {
            assert(emoji@ =~= seq![c]);
        }
    }
    first == c
}

/// One live paginated response bound to one message.
pub struct Session {
    pub list: PaginatedList,
    pub required_pages: usize,
    /// The page shown, counted from one.
    pub current_page: usize,
    pub phase: Phase,
    /// The rendered message, once there is one.
    pub message_id: Option<u64>,
    /// The user whose command produced the response.
    pub invoker: u64,
    /// The bot's own user.
    pub bot_id: u64,
    /// How many bus events this session lost by falling behind.
    pub dropped_events: u64,
}

/// `a + b`, held at `u64::MAX`.
pub open spec fn saturating_sum(a: u64, b: u64) -> u64 {
    if a + b > u64::MAX {
        u64::MAX
    } else {
        (a + b) as u64
    }
}

impl Session {
    pub open spec fn wf(self) -> bool {
        &&& self.list.wf()
        &&& self.required_pages == self.list.pages()
        &&& 1 <= self.current_page <= self.required_pages
        &&& (self.phase == Phase::Navigating ==> self.message_id is Some && self.required_pages > 1)
    }

    /// Whether a reaction event concerns this session's message and may turn its pages.
    pub open spec fn reaction_verdict(self, r: Reaction) -> ActionKind {
        if self.message_id != Some(r.message_id) {
            ActionKind::Wait
        } else if r.user_id == Some(self.bot_id) {
            ActionKind::Wait
        } else if r.user_id is Some && self.list.page_change_perm == PageChangePermission::Interactor
            && r.user_id != Some(self.invoker) {
            ActionKind::RemoveReaction
        } else if is_previous(r.emoji@) {
            ActionKind::TurnPage(
                spec_previous_page(self.current_page as int, self.required_pages as int) as usize,
            )
        } else if is_next(r.emoji@) {
            ActionKind::TurnPage(
                spec_next_page(self.current_page as int, self.required_pages as int) as usize,
            )
        } else {
            ActionKind::Wait
        }
    }

    /// What the session asks for on event `e`.
    pub open spec fn action_for(self, e: SessionEvent) -> ActionKind {
        match e {
            SessionEvent::Rendered { .. } => if self.phase == Phase::Rendering {
                if self.required_pages == 1 {
                    ActionKind::Finish
                } else {
                    ActionKind::AttachNavigation
                }
            } else {
                ActionKind::Wait
            },
            SessionEvent::Cancelled | SessionEvent::TimedOut => if self.phase == Phase::Navigating {
                ActionKind::Close(self.list.delete_when_dropped)
            } else {
                ActionKind::Wait
            },
            SessionEvent::Update(ReactionUpdate::Added(r)) => if self.phase == Phase::Navigating {
                self.reaction_verdict(r)
            } else {
                ActionKind::Wait
            },
            _ => ActionKind::Wait,
        }
    }

    /// The session after event `e`.
    pub open spec fn after(self, e: SessionEvent) -> Session {
        match e {
            SessionEvent::Rendered { message_id } => if self.phase == Phase::Rendering {
                Session {
                    phase: if self.required_pages == 1 {
                        Phase::Closed
                    } else {
                        Phase::Navigating
                    },
                    message_id: Some(message_id),
                    ..self
                }
            } else {
                self
            },
            SessionEvent::Cancelled | SessionEvent::TimedOut => if self.phase == Phase::Navigating {
                Session { phase: Phase::Closed, ..self }
            } else {
                self
            },
            SessionEvent::Lagged(n) => Session {
                dropped_events: saturating_sum(self.dropped_events, n),
                ..self
            },
            _ => match self.action_for(e) {
                ActionKind::TurnPage(p) => Session { current_page: p, ..self },
                _ => self,
            },
        }
    }

    /// Whether the navigation reactions were attached and the bus subscribed.
    pub fn is_navigating(&self) -> (r: bool)
        ensures
            r == (self.phase == Phase::Navigating),
    {
        self.phase == Phase::Navigating
    }

    fn on_reaction(&mut self, r: &Reaction) -> (a: SessionAction)
        requires
            old(self).wf(),
            old(self).phase == Phase::Navigating,
        ensures
            a.kind() == old(self).reaction_verdict(*r),
            *final(self) == (match a.kind() {
                ActionKind::TurnPage(p) => Session { current_page: p, ..*old(self) },
                _ => *old(self),
            }),
            final(self).wf(),
            a matches SessionAction::TurnPage { page, view } ==> view.view() == old(self).list.page_content(page as int),
    {
        match self.message_id {
            Some(m) => {
                if m != r.message_id {
                    return SessionAction::Wait;
                }
            },
            None => {
                return SessionAction::Wait;
            },
        }
        if let Some(user) = r.user_id {
            if user == self.bot_id {
                return SessionAction::Wait;
            }
            if self.list.page_change_perm == PageChangePermission::Interactor && user != self.invoker {
                return SessionAction::RemoveReaction;
            }
        }
        let page = if is_single(&r.emoji, PREVIOUS_EMOJI) {
            previous_page(self.current_page, self.required_pages)
        } else if is_single(&r.emoji, NEXT_EMOJI) {
            next_page(self.current_page, self.required_pages)
        } else {
            return SessionAction::Wait;
        };
        self.current_page = page;
        let view = self.list.create_page(page, self.required_pages);
        SessionAction::TurnPage { page, view }
    }

    /// Handles one event and says what the owner must do next.
    pub fn step(&mut self, e: SessionEvent) -> (a: SessionAction)
        requires
            old(self).wf(),
        ensures
            final(self).wf(),
            *final(self) == old(self).after(e),
            a.kind() == old(self).action_for(e),
            a matches SessionAction::TurnPage { page, view } ==> view.view() == old(self).list.page_content(page as int),
    {
        match e {
            SessionEvent::Rendered { message_id } => {
                if self.phase != Phase::Rendering {
                    return SessionAction::Wait;
                }
                self.message_id = Some(message_id);
                if self.required_pages == 1 {
                    self.phase = Phase::Closed;
                    SessionAction::Finish
                } else {
                    self.phase = Phase::Navigating;
                    SessionAction::AttachNavigation
                }
            },
            SessionEvent::Cancelled | SessionEvent::TimedOut => {
                if self.phase != Phase::Navigating {
                    return SessionAction::Wait;
                }
                self.phase = Phase::Closed;
                SessionAction::Close { delete_message: self.list.delete_when_dropped }
            },
            SessionEvent::Update(ReactionUpdate::Added(r)) => {
                if self.phase != Phase::Navigating {
                    return SessionAction::Wait;
                }
                self.on_reaction(&r)
            },
            SessionEvent::Update(_) => SessionAction::Wait,
            SessionEvent::Lagged(n) => {
                self.dropped_events = self.dropped_events.saturating_add(n);
                SessionAction::Wait
            },
        }
    }
}

/// The session after each of `events` in turn.
pub open spec fn run(s: Session, events: Seq<SessionEvent>) -> Session
    decreases events.len(),
{
    if events.len() == 0 {
        s
    } else {
        run(s, events.drop_last()).after(events.last())
    }
}

/// The page reached from `page` after `n` presses of "next".
pub open spec fn after_next_presses(page: int, pages: int, n: nat) -> int
    decreases n,
{
    if n == 0 {
        page
    } else {
        spec_next_page(after_next_presses(page, pages, (n - 1) as nat), pages)
    }
}

/// Pressing "next" `n` times from the first of `pages` pages lands on page
/// `1 + n mod pages`, and pressing "previous" on the first page lands on the
/// last.
pub proof fn lemma_next_presses_wrap(pages: int, n: nat)
    requires
        pages >= 1,
    ensures
        after_next_presses(1, pages, n) == 1 + (n as int) % pages,
        spec_previous_page(1, pages) == pages,
    decreases n,
{
    if n == 0 {
        assert(0int % pages == 0) by (nonlinear_arith) requires pages >= 1;
    } else {
        let m = (n - 1) as nat;
        lemma_next_presses_wrap(pages, m);
        let q = (m as int) / pages;
        let r = (m as int) % pages;
        assert(m == q * pages + r && 0 <= r < pages) by (nonlinear_arith)
            requires pages >= 1, q == (m as int) / pages, r == (m as int) % pages;
        if r + 1 < pages {
            lemma_fundamental_div_mod_converse(n as int, pages, q, r + 1);
        } else {
            assert(n == (q + 1) * pages + 0) by (nonlinear_arith)
                requires n == m + 1, m == q * pages + r, r + 1 == pages;
            lemma_fundamental_div_mod_converse(n as int, pages, q + 1, 0);
        }
    }
}

/// Whether `r` is a "next" press on the message of navigating session `s`
/// by a user who may turn its pages.
pub open spec fn is_accepted_next_press(s: Session, r: Reaction) -> bool {
    &&& s.message_id == Some(r.message_id)
    &&& r.user_id != Some(s.bot_id)
    &&& (r.user_id is Some && s.list.page_change_perm == PageChangePermission::Interactor
        ==> r.user_id == Some(s.invoker))
    &&& is_next(r.emoji@)
}

/// Presses of "next" by a user who may turn the pages move a navigating
/// session that shows its first page to page `1 + n mod required_pages`
/// after `n` presses.
pub proof fn lemma_session_next_presses(s: Session, r: Reaction, n: nat)
    requires
        s.wf(),
        s.phase == Phase::Navigating,
        s.current_page == 1,
        is_accepted_next_press(s, r),
    ensures
        run(s, Seq::new(n, |i: int| SessionEvent::Update(ReactionUpdate::Added(r)))).current_page
            == 1 + (n as int) % (s.required_pages as int),
{
    lemma_next_press_run(s, r, n);
    lemma_next_presses_wrap(s.required_pages as int, n);
}

proof fn lemma_next_press_run(s: Session, r: Reaction, n: nat)
    requires
        s.wf(),
        s.phase == Phase::Navigating,
        s.current_page == 1,
        is_accepted_next_press(s, r),
    ensures
        run(s, Seq::new(n, |i: int| SessionEvent::Update(ReactionUpdate::Added(r)))) == (Session {
            current_page: after_next_presses(1, s.required_pages as int, n) as usize,
            ..s
        }),
        1 <= after_next_presses(1, s.required_pages as int, n) <= s.required_pages,
    decreases n,
{
    let e = SessionEvent::Update(ReactionUpdate::Added(r));
    let events = Seq::new(n, |i: int| e);
    if n > 0 {
        let m = (n - 1) as nat;
        lemma_next_press_run(s, r, m);
        assert(events.drop_last() =~= Seq::new(m, |i: int| e));
        let prev = run(s, events.drop_last());
        assert(events.last() == e);
        assert(r.emoji@[0] == NEXT_EMOJI);
        assert(!is_previous(r.emoji@));
        assert(prev.reaction_verdict(r) == ActionKind::TurnPage(
            spec_next_page(prev.current_page as int, prev.required_pages as int) as usize,
        ));
    }
}

/// A session whose items fit on one page never attaches the navigation
/// reactions nor subscribes to the bus, whatever events come.
pub proof fn lemma_single_page_never_navigates(s: Session, events: Seq<SessionEvent>)
    requires
        s.wf(),
        s.phase == Phase::Rendering,
        s.required_pages == 1,
    ensures
        forall|i: int| 0 <= i < events.len() ==>
            #[trigger] run(s, events.subrange(0, i)).action_for(events[i]) != ActionKind::AttachNavigation,
        run(s, events).phase != Phase::Navigating,
{
    lemma_single_page_run(s, events);
    assert forall|i: int| 0 <= i < events.len() implies
        #[trigger] run(s, events.subrange(0, i)).action_for(events[i]) != ActionKind::AttachNavigation by {
        lemma_single_page_run(s, events.subrange(0, i));
    }
}

proof fn lemma_single_page_run(s: Session, events: Seq<SessionEvent>)
    requires
        s.wf(),
        s.phase == Phase::Rendering,
        s.required_pages == 1,
    ensures
        run(s, events).phase != Phase::Navigating,
        run(s, events).required_pages == 1,
    decreases events.len(),
{
    if events.len() > 0 {
        lemma_single_page_run(s, events.drop_last());
    }
}

/// A reaction event whose actor is the bot itself leaves the session as it
/// was and asks for nothing.
pub proof fn lemma_own_reactions_ignored(s: Session, r: Reaction)
    requires
        s.wf(),
        r.user_id == Some(s.bot_id),
    ensures
        s.after(SessionEvent::Update(ReactionUpdate::Added(r))) == s,
        s.action_for(SessionEvent::Update(ReactionUpdate::Added(r))) == ActionKind::Wait,
        s.after(SessionEvent::Update(ReactionUpdate::Removed(r))) == s,
        s.action_for(SessionEvent::Update(ReactionUpdate::Removed(r))) == ActionKind::Wait,
{
}

/// Where only the invoker may turn pages, a reaction on the session's message
/// by another user (not the bot) is removed and the page stays.
pub proof fn lemma_interactor_only(s: Session, r: Reaction, user: u64)
    requires
        s.wf(),
        s.phase == Phase::Navigating,
        s.list.page_change_perm == PageChangePermission::Interactor,
        s.message_id == Some(r.message_id),
        r.user_id == Some(user),
        user != s.invoker,
        user != s.bot_id,
    ensures
        s.action_for(SessionEvent::Update(ReactionUpdate::Added(r))) == ActionKind::RemoveReaction,
        s.after(SessionEvent::Update(ReactionUpdate::Added(r))).current_page == s.current_page,
        s.after(SessionEvent::Update(ReactionUpdate::Added(r))) == s,
{
}

impl PaginatedList {
    /// Displays the list to `invoker` on behalf of the bot `bot_id`: renders
    /// the first page and starts the session that waits for it to be sent.
    pub fn display(self, invoker: u64, bot_id: u64) -> (r: (Session, PageView))
        requires
            self.wf(),
        ensures
            r.0.wf(),
            r.0.list == self,
            r.0.required_pages == self.pages(),
            r.0.current_page == 1,
            r.0.phase == Phase::Rendering,
            r.0.message_id is None,
            r.0.invoker == invoker,
            r.0.bot_id == bot_id,
            r.0.dropped_events == 0,
            r.1.view() == self.page_content(1),
    {
        let required_pages = self.required_pages();
        let first = self.create_page(1, required_pages);
        let session = Session {
            list: self,
            required_pages,
            current_page: 1,
            phase: Phase::Rendering,
            message_id: None,
            invoker,
            bot_id,
            dropped_events: 0,
        };
        (session, first)
    }
}

} // verus!
