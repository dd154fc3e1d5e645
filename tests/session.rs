use holo_bot::pagination::{PageChangePermission, PageLayout, PaginatedList};
use holo_bot::session::{
    Phase, Reaction, ReactionUpdate, Session, SessionAction, SessionEvent, NEXT_EMOJI,
    PREVIOUS_EMOJI,
};

const INVOKER: u64 = 10;
const BOT: u64 = 99;
const MESSAGE: u64 = 500;

fn list(n: usize) -> PaginatedList {
    let mut l = PaginatedList::new();
    l.data = (1..=n).map(|i| format!("{}\n", i)).collect();
    l
}

fn navigating(n: usize) -> Session {
    let (mut s, _) = list(n).display(INVOKER, BOT);
    assert!(matches!(
        s.step(SessionEvent::Rendered { message_id: MESSAGE }),
        SessionAction::AttachNavigation
    ));
    s
}

fn press(user: Option<u64>, emoji: char) -> SessionEvent {
    SessionEvent::Update(ReactionUpdate::Added(Reaction {
        channel_id: 1,
        message_id: MESSAGE,
        user_id: user,
        emoji: emoji.to_string(),
    }))
}

#[test]
fn first_page_is_rendered_at_start() {
    let (s, page) = list(12).display(INVOKER, BOT);
    assert_eq!(s.current_page, 1);
    assert_eq!(s.required_pages, 3);
    assert_eq!(s.phase, Phase::Rendering);
    assert_eq!(page.description.as_deref(), Some("1\n2\n3\n4\n5\n"));
    assert_eq!(page.footer.as_deref(), Some("page 1 of 3"));
}

#[test]
fn single_page_never_navigates() {
    let (mut s, _) = list(4).display(INVOKER, BOT);
    assert_eq!(s.required_pages, 1);
    assert!(matches!(
        s.step(SessionEvent::Rendered { message_id: MESSAGE }),
        SessionAction::Finish
    ));
    assert!(!s.is_navigating());
    for e in [
        press(Some(INVOKER), NEXT_EMOJI),
        SessionEvent::Rendered { message_id: MESSAGE },
        SessionEvent::TimedOut,
    ] {
        assert!(matches!(s.step(e), SessionAction::Wait));
    }
    assert_eq!(s.phase, Phase::Closed);
}

#[test]
fn next_and_previous_turn_pages_with_wrap() {
    let mut s = navigating(23);
    match s.step(press(Some(INVOKER), NEXT_EMOJI)) {
        SessionAction::TurnPage { page, view } => {
            assert_eq!(page, 2);
            assert_eq!(view.footer.as_deref(), Some("page 2 of 5"));
        }
        other => panic!("unexpected {:?}", other),
    }
    for _ in 0..4 {
        s.step(press(Some(INVOKER), NEXT_EMOJI));
    }
    assert_eq!(s.current_page, 1);
    match s.step(press(None, PREVIOUS_EMOJI)) {
        SessionAction::TurnPage { page, .. } => assert_eq!(page, 5),
        other => panic!("unexpected {:?}", other),
    }
    assert_eq!(s.current_page, 5);
}

#[test]
fn bot_reactions_change_nothing() {
    let mut s = navigating(23);
    assert!(matches!(s.step(press(Some(BOT), NEXT_EMOJI)), SessionAction::Wait));
    assert_eq!(s.current_page, 1);
}

#[test]
fn interactor_only_removes_foreign_reactions() {
    let mut l = list(23);
    l.page_change_perm = PageChangePermission::Interactor;
    let (mut s, _) = l.display(INVOKER, BOT);
    s.step(SessionEvent::Rendered { message_id: MESSAGE });
    assert!(matches!(s.step(press(Some(77), NEXT_EMOJI)), SessionAction::RemoveReaction));
    assert_eq!(s.current_page, 1);
    assert!(matches!(
        s.step(press(Some(INVOKER), NEXT_EMOJI)),
        SessionAction::TurnPage { page: 2, .. }
    ));
}

#[test]
fn other_messages_and_emoji_are_ignored() {
    let mut s = navigating(23);
    let elsewhere = SessionEvent::Update(ReactionUpdate::Added(Reaction {
        channel_id: 1,
        message_id: MESSAGE + 1,
        user_id: Some(INVOKER),
        emoji: NEXT_EMOJI.to_string(),
    }));
    assert!(matches!(s.step(elsewhere), SessionAction::Wait));
    assert!(matches!(s.step(press(Some(INVOKER), 'x')), SessionAction::Wait));
    let removed = SessionEvent::Update(ReactionUpdate::Removed(Reaction {
        channel_id: 1,
        message_id: MESSAGE,
        user_id: Some(INVOKER),
        emoji: NEXT_EMOJI.to_string(),
    }));
    assert!(matches!(s.step(removed), SessionAction::Wait));
    assert!(matches!(
        s.step(SessionEvent::Update(ReactionUpdate::Wiped(1, MESSAGE))),
        SessionAction::Wait
    ));
    assert_eq!(s.current_page, 1);
}

#[test]
fn timeout_and_cancellation_close() {
    let mut s = navigating(23);
    assert!(matches!(
        s.step(SessionEvent::TimedOut),
        SessionAction::Close { delete_message: false }
    ));
    assert_eq!(s.phase, Phase::Closed);
    assert!(matches!(s.step(press(Some(INVOKER), NEXT_EMOJI)), SessionAction::Wait));

    let mut l = list(23);
    l.delete_when_dropped = true;
    let (mut s, _) = l.display(INVOKER, BOT);
    s.step(SessionEvent::Rendered { message_id: MESSAGE });
    assert!(matches!(
        s.step(SessionEvent::Cancelled),
        SessionAction::Close { delete_message: true }
    ));
}

#[test]
fn lost_events_are_counted() {
    let mut s = navigating(23);
    s.step(SessionEvent::Lagged(3));
    s.step(SessionEvent::Lagged(4));
    assert_eq!(s.dropped_events, 7);
    s.step(SessionEvent::Lagged(u64::MAX));
    assert_eq!(s.dropped_events, u64::MAX);
}

#[test]
fn chunked_session_turns_to_labelled_page() {
    let mut l = list(7);
    l.layout = PageLayout::Chunked { chunk_size: 2, chunks_per_page: 2 };
    let (mut s, first) = l.display(INVOKER, BOT);
    assert_eq!(first.fields.len(), 2);
    s.step(SessionEvent::Rendered { message_id: MESSAGE });
    match s.step(press(Some(INVOKER), PREVIOUS_EMOJI)) {
        SessionAction::TurnPage { page, view } => {
            assert_eq!(page, 2);
            assert_eq!(view.fields[0].name, "5\u{2013}6");
            assert_eq!(view.fields[1].name, "7\u{2013}7");
        }
        other => panic!("unexpected {:?}", other),
    }
}
