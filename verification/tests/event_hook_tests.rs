use lib::event_hook::{Event, EventHooker, EventKind};

/// What a test handler does when it runs.
#[derive(Clone, Copy, Debug)]
enum Action {
    Increment,
    HookUnhookerThenIncrement(usize),
    UnhookThenIncrement(usize),
}

/// Runs the handlers as the kernel's dispatcher does.
struct Dispatcher {
    hooker: EventHooker<Action>,
    x: usize,
}

impl Dispatcher {
    fn new() -> Self {
        Dispatcher { hooker: EventHooker::new(), x: 0 }
    }

    fn run(&mut self, action: Action) {
        match action {
            Action::Increment => self.x += 1,
            Action::HookUnhookerThenIncrement(id) => {
                self.hook_event(EventKind::Timer, Action::UnhookThenIncrement(id));
                self.x += 1;
            },
            Action::UnhookThenIncrement(id) => {
                self.unhook_event(id, EventKind::Timer);
                self.x += 1;
            },
        }
    }

    fn run_handlers(&mut self, event: Event) {
        let kind = EventKind::from_event(event);
        for i in 0..self.hooker.handler_count(kind) {
            let action = *self.hooker.handler_func(kind, i);
            self.run(action);
        }
    }

    fn run_missed_events(&mut self) {
        while let Some(event) = self.hooker.next_missed_event() {
            self.run_handlers(event);
        }
        self.hooker.unlock();
    }

    fn send_event(&mut self, event: Event) {
        if self.hooker.send_event(event) {
            self.run_handlers(event);
            self.hooker.finish_send();
        }
    }

    fn hook_event(&mut self, kind: EventKind, action: Action) -> usize {
        let (id, acquired) = self.hooker.hook_event(kind, action);
        if acquired {
            self.run_missed_events();
        }
        id
    }

    fn unhook_event(&mut self, id: usize, kind: EventKind) {
        if self.hooker.unhook_event(id, kind) {
            self.run_missed_events();
        }
    }
}

#[test]
fn test_using_event_hooks_inside_event_hooks() {
    let mut d = Dispatcher::new();
    let hook1_id = d.hook_event(EventKind::Timer, Action::Increment);
    d.hook_event(EventKind::Timer, Action::HookUnhookerThenIncrement(hook1_id));
    d.send_event(Event::Timer);
    assert_eq!(d.x, 2);

    let hook1_id_in_handlers = d.hooker.handler_exists(EventKind::Timer, hook1_id).unwrap();
    assert!(hook1_id_in_handlers);

    d.send_event(Event::Timer);
    assert_eq!(d.x, 2 + 3);

    let hook1_id_in_handlers = d.hooker.handler_exists(EventKind::Timer, hook1_id).unwrap();
    assert!(!hook1_id_in_handlers);
}

#[test]
fn hook_ids_count_up_from_zero() {
    let mut d = Dispatcher::new();
    assert_eq!(d.hook_event(EventKind::Timer, Action::Increment), 0);
    assert_eq!(d.hook_event(EventKind::Sound, Action::Increment), 1);
    assert_eq!(d.hook_event(EventKind::Keyboard, Action::Increment), 2);
}

#[test]
fn unhooked_handler_no_longer_runs() {
    let mut d = Dispatcher::new();
    d.x = 1;
    let idx = d.hook_event(EventKind::Timer, Action::Increment);
    d.unhook_event(idx, EventKind::Timer);
    d.send_event(Event::Timer);
    assert_eq!(d.x, 1);
    // The id no longer names a handler, so this unhook has no effect.
    d.unhook_event(idx, EventKind::Timer);
    d.send_event(Event::Timer);
    assert_eq!(d.x, 1);
}

#[test]
fn events_only_reach_their_kind() {
    let mut d = Dispatcher::new();
    d.hook_event(EventKind::Sound, Action::Increment);
    d.send_event(Event::Timer);
    assert_eq!(d.x, 0);
    d.send_event(Event::Sound);
    assert_eq!(d.x, 1);
    assert_eq!(d.hooker.handler_count(EventKind::Sound), 1);
    assert_eq!(d.hooker.handler_count(EventKind::Timer), 0);
}

#[test]
fn requests_wait_while_locked() {
    let mut hooker: EventHooker<u8> = EventHooker::new();
    assert!(hooker.send_event(Event::Timer));
    assert_eq!(hooker.handler_exists(EventKind::Timer, 0), None);
    let (id, acquired) = hooker.hook_event(EventKind::Timer, 7);
    assert_eq!(id, 0);
    assert!(!acquired);
    assert_eq!(hooker.handler_count(EventKind::Timer), 0);
    assert!(!hooker.send_event(Event::Sound));
    hooker.finish_send();
    assert_eq!(hooker.handler_count(EventKind::Timer), 1);
    assert_eq!(hooker.next_missed_event(), Some(Event::Sound));
    assert_eq!(hooker.next_missed_event(), None);
}

#[test]
fn hook_ids_count_only_the_hooks_before() {
    let mut d = Dispatcher::new();
    assert_eq!(d.hook_event(EventKind::Timer, Action::Increment), 0);
    d.send_event(Event::Timer);
    d.unhook_event(0, EventKind::Timer);
    assert_eq!(d.hook_event(EventKind::Timer, Action::Increment), 1);
    d.send_event(Event::Timer);
    assert_eq!(d.hook_event(EventKind::Sound, Action::Increment), 2);
}
