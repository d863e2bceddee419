//! The bookkeeping of event handlers: which handlers are hooked to which kind
//! of event, and what happens to hooks, unhooks and events that arrive while
//! the handlers are in use.
//!
//! Handlers run while the handler lists are locked; a handler may hook,
//! unhook or send in turn, and those requests wait in queues until the lock
//! holder has finished. Running the handlers is left to the caller: the
//! functions here say when to run which handlers, and keep the lists.
use vstd::prelude::*;
use std::collections::VecDeque;
use crate::keyboard::{KeyCode, KeyDirection, KeyModifiers};

verus! {

/// Something that happened.
#[derive(Clone, Copy, Debug, PartialEq, Eq, Structural)]
pub enum Event {
    Timer,
    Keyboard(KeyCode, KeyDirection, KeyModifiers),
    Sound,
}

/// The kinds of events, each with its own list of handlers.
#[derive(Clone, Copy, Debug, PartialEq, Eq, Structural)]
pub enum EventKind {
    Timer,
    Keyboard,
    Sound,
}

/// The kind of an event.
pub open spec fn kind_of(event: Event) -> EventKind {
    match event {
        Event::Timer => EventKind::Timer,
        Event::Keyboard(_, _, _) => EventKind::Keyboard,
        Event::Sound => EventKind::Sound,
    }
}

impl EventKind {
    /// The kind of `event`.
    pub fn from_event(event: Event) -> (r: EventKind)
        ensures
            r == kind_of(event),
    {
        match event {
            Event::Timer => EventKind::Timer,
            Event::Keyboard(_, _, _) => EventKind::Keyboard,
            Event::Sound => EventKind::Sound,
        }
    }
}

/// The position of a kind's list among the handler lists.
pub open spec fn kind_index(kind: EventKind) -> int {
    match kind {
        EventKind::Timer => 0,
        EventKind::Keyboard => 1,
        EventKind::Sound => 2,
    }
}

/// A function hooked to a kind of event, with the id that unhooks it.
#[derive(Clone, Debug)]
pub struct Handler<F> {
    pub idx: usize,
    pub func: F,
}

/// A hook that waits for the handler lists.
#[derive(Clone, Debug)]
pub struct HookArgs<F> {
    pub event_kind: EventKind,
    pub handler_id: usize,
    pub func: F,
}

/// An unhook that waits for the handler lists.
#[derive(Clone, Copy, Debug, PartialEq, Eq, Structural)]
pub struct UnhookArgs {
    pub event_kind: EventKind,
    pub handler_id: usize,
}

/// The errors of the event hooker.
#[derive(Clone, Copy, Debug, PartialEq, Eq, Structural)]
pub enum Error {
    /// No handler has the id.
    IdxNotFound,
}

/// The position of the first handler with id `id`, or the length of `s`.
pub open spec fn first_with_id<F>(s: Seq<Handler<F>>, id: usize) -> int
    decreases s.len(),
{
    if s.len() == 0 {
        0
    } else if s[0].idx == id {
        0
    } else {
        1 + first_with_id(s.drop_first(), id)
    }
}

/// The list without its first handler with id `id`; the list itself when no
/// handler has that id.
pub open spec fn without_id<F>(s: Seq<Handler<F>>, id: usize) -> Seq<Handler<F>> {
    let i = first_with_id(s, id);
    if i < s.len() {
        s.remove(i)
    } else {
        s
    }
}

/// The handler lists once a hook is applied.
pub open spec fn after_hook<F>(hs: Seq<Seq<Handler<F>>>, args: HookArgs<F>) -> Seq<Seq<Handler<F>>> {
    let k = kind_index(args.event_kind);
    hs.update(k, hs[k].push(Handler { idx: args.handler_id, func: args.func }))
}

/// The handler lists once an unhook is applied.
pub open spec fn after_unhook<F>(hs: Seq<Seq<Handler<F>>>, args: UnhookArgs) -> Seq<Seq<Handler<F>>> {
    let k = kind_index(args.event_kind);
    hs.update(k, without_id(hs[k], args.handler_id))
}

/// The handler lists once the hooks are applied in order.
pub open spec fn after_hooks<F>(hs: Seq<Seq<Handler<F>>>, hooks: Seq<HookArgs<F>>) -> Seq<Seq<Handler<F>>>
    decreases hooks.len(),
{
    if hooks.len() == 0 {
        hs
    } else {
        after_hooks(after_hook(hs, hooks[0]), hooks.drop_first())
    }
}

/// The handler lists once the unhooks are applied in order.
pub open spec fn after_unhooks<F>(hs: Seq<Seq<Handler<F>>>, unhooks: Seq<UnhookArgs>) -> Seq<Seq<Handler<F>>>
    decreases unhooks.len(),
{
    if unhooks.len() == 0 {
        hs
    } else {
        after_unhooks(after_unhook(hs, unhooks[0]), unhooks.drop_first())
    }
}

} // verus!

verus! {

/// The handler lists of the three kinds of events, the lock on them, and the
/// requests that wait for the lock.
pub struct EventHooker<F> {
    timer: std::vec::Vec<Handler<F>>,
    keyboard: std::vec::Vec<Handler<F>>,
    sound: std::vec::Vec<Handler<F>>,
    locked: bool,
    next_idx: usize,
    missed_hooks: VecDeque<HookArgs<F>>,
    missed_unhooks: VecDeque<UnhookArgs>,
    missed_events: VecDeque<Event>,
}

impl<F> EventHooker<F> {
    /// The handler lists: timer, keyboard and sound.
    pub closed spec fn lists(&self) -> Seq<Seq<Handler<F>>> {
        seq![self.timer@, self.keyboard@, self.sound@]
    }

    /// The handlers of a kind of event, in the order they were hooked.
    pub open spec fn handlers_of(&self, kind: EventKind) -> Seq<Handler<F>> {
        self.lists()[kind_index(kind)]
    }

    /// Whether a caller holds the handler lists.
    pub closed spec fn is_locked(&self) -> bool {
        self.locked
    }

    /// The id the next hook gets.
    pub closed spec fn spec_next_idx(&self) -> usize {
        self.next_idx
    }

    /// The hooks that wait for the lock, oldest first.
    pub closed spec fn pending_hooks(&self) -> Seq<HookArgs<F>> {
        self.missed_hooks@
    }

    /// The unhooks that wait for the lock, oldest first.
    pub closed spec fn pending_unhooks(&self) -> Seq<UnhookArgs> {
        self.missed_unhooks@
    }

    /// The events that wait for the lock, oldest first.
    pub closed spec fn pending_events(&self) -> Seq<Event> {
        self.missed_events@
    }

    /// Every id in use, hooked or waiting, is below the next id.
    pub open spec fn wf(&self) -> bool {
        &&& forall|k: int, i: int|
            0 <= k < 3 && 0 <= i < self.lists()[k].len() ==> #[trigger] self.lists()[k][i].idx < self.spec_next_idx()
        &&& forall|i: int| 0 <= i < self.pending_hooks().len() ==> #[trigger] self.pending_hooks()[i].handler_id
            < self.spec_next_idx()
    }

    /// An event hooker with no handlers.
    pub fn new() -> (r: EventHooker<F>)
        ensures
            r.wf(),
            !r.is_locked(),
            r.spec_next_idx() == 0,
            r.lists() == seq![Seq::<Handler<F>>::empty(), Seq::<Handler<F>>::empty(), Seq::<Handler<F>>::empty()],
            r.pending_hooks() == Seq::<HookArgs<F>>::empty(),
            r.pending_unhooks() == Seq::<UnhookArgs>::empty(),
            r.pending_events() == Seq::<Event>::empty(),
    {
        EventHooker {
            timer: std::vec::Vec::new(),
            keyboard: std::vec::Vec::new(),
            sound: std::vec::Vec::new(),
            locked: false,
            next_idx: 0,
            missed_hooks: VecDeque::new(),
            missed_unhooks: VecDeque::new(),
            missed_events: VecDeque::new(),
        }
    }

    /// Appends a handler to the list of its kind.
    fn hook(&mut self, args: HookArgs<F>)
        ensures
            final(self).lists() == after_hook(old(self).lists(), args),
            final(self).locked == old(self).locked,
            final(self).next_idx == old(self).next_idx,
            final(self).missed_hooks@ == old(self).missed_hooks@,
            final(self).missed_unhooks@ == old(self).missed_unhooks@,
            final(self).missed_events@ == old(self).missed_events@,
    {
        let h = Handler { idx: args.handler_id, func: args.func };
        match args.event_kind {
            EventKind::Timer => self.timer.push(h),
            EventKind::Keyboard => self.keyboard.push(h),
            EventKind::Sound => self.sound.push(h),
        }
        assert(self.lists() =~= after_hook(old(self).lists(), args));
    }
}

} // verus!

verus! {

/// The first handler with id `id` is at `i` when none before `i` has it and
/// the one at `i` has it (or `i` is the end).
proof fn lemma_first_with_id<F>(s: Seq<Handler<F>>, id: usize, i: int)
    requires
        0 <= i <= s.len(),
        forall|j: int| 0 <= j < i ==> #[trigger] s[j].idx != id,
        i == s.len() || s[i].idx == id,
    ensures
        first_with_id(s, id) == i,
    decreases i,
{
    if i > 0 {
        let t = s.drop_first();
        assert forall|j: int| 0 <= j < i - 1 implies #[trigger] t[j].idx != id by {
            assert(t[j] == s[j + 1]);
        }
        lemma_first_with_id(t, id, i - 1);
    }
}

/// Removes the first handler with id `id` from `v`, if any.
fn remove_first_with_id<F>(v: &mut std::vec::Vec<Handler<F>>, id: usize)
    ensures
        final(v)@ == without_id(old(v)@, id),
{
    let mut i: usize = 0;
    while i < v.len()
        invariant
            v@ == old(v)@,
            i <= v.len(),
            forall|j: int| 0 <= j < i ==> #[trigger] v@[j].idx != id,
        decreases v.len() - i,
    {
        if v[i].idx == id {
            proof {
                lemma_first_with_id(v@, id, i as int);
            }
            v.remove(i);
            return;
        }
        i = i + 1;
    }
    proof {
        lemma_first_with_id(v@, id, i as int);
    }
}

impl<F> EventHooker<F> {
    /// Removes the first handler with the id from the list of its kind.
    fn unhook(&mut self, args: UnhookArgs)
        ensures
            final(self).lists() == after_unhook(old(self).lists(), args),
            final(self).locked == old(self).locked,
            final(self).next_idx == old(self).next_idx,
            final(self).missed_hooks@ == old(self).missed_hooks@,
            final(self).missed_unhooks@ == old(self).missed_unhooks@,
            final(self).missed_events@ == old(self).missed_events@,
    {
        match args.event_kind {
            EventKind::Timer => remove_first_with_id(&mut self.timer, args.handler_id),
            EventKind::Keyboard => remove_first_with_id(&mut self.keyboard, args.handler_id),
            EventKind::Sound => remove_first_with_id(&mut self.sound, args.handler_id),
        }
        assert(self.lists() =~= after_unhook(old(self).lists(), args));
    }

    /// Applies the waiting hooks, oldest first.
    fn apply_missed_hooks(&mut self)
        ensures
            final(self).lists() == after_hooks(old(self).lists(), old(self).missed_hooks@),
            final(self).missed_hooks@ == Seq::<HookArgs<F>>::empty(),
            final(self).locked == old(self).locked,
            final(self).next_idx == old(self).next_idx,
            final(self).missed_unhooks@ == old(self).missed_unhooks@,
            final(self).missed_events@ == old(self).missed_events@,
    {
        while self.missed_hooks.len() > 0
            invariant
                after_hooks(self.lists(), self.missed_hooks@) == after_hooks(old(self).lists(), old(self).missed_hooks@),
                self.locked == old(self).locked,
                self.next_idx == old(self).next_idx,
                self.missed_unhooks@ == old(self).missed_unhooks@,
                self.missed_events@ == old(self).missed_events@,
            decreases self.missed_hooks@.len(),
        {
            let ghost before = self.missed_hooks@;
            match self.missed_hooks.pop_front() {
                Some(args) => {
                    self.hook(args);
                    assert(before.drop_first() == self.missed_hooks@);
                },
                None => {},
            }
        }
        assert(self.missed_hooks@ =~= Seq::<HookArgs<F>>::empty());
    }

    /// Applies the waiting unhooks, oldest first.
    fn apply_missed_unhooks(&mut self)
        ensures
            final(self).lists() == after_unhooks(old(self).lists(), old(self).missed_unhooks@),
            final(self).missed_unhooks@ == Seq::<UnhookArgs>::empty(),
            final(self).locked == old(self).locked,
            final(self).next_idx == old(self).next_idx,
            final(self).missed_hooks@ == old(self).missed_hooks@,
            final(self).missed_events@ == old(self).missed_events@,
    {
        while self.missed_unhooks.len() > 0
            invariant
                after_unhooks(self.lists(), self.missed_unhooks@) == after_unhooks(
                    old(self).lists(),
                    old(self).missed_unhooks@,
                ),
                self.locked == old(self).locked,
                self.next_idx == old(self).next_idx,
                self.missed_hooks@ == old(self).missed_hooks@,
                self.missed_events@ == old(self).missed_events@,
            decreases self.missed_unhooks@.len(),
        {
            let ghost before = self.missed_unhooks@;
            match self.missed_unhooks.pop_front() {
                Some(args) => {
                    self.unhook(args);
                    assert(before.drop_first() == self.missed_unhooks@);
                },
                None => {},
            }
        }
        assert(self.missed_unhooks@ =~= Seq::<UnhookArgs>::empty());
    }
}

} // verus!

verus! {

/// Whether the lists are three and every id in them is below `n`.
pub open spec fn ids_below<F>(hs: Seq<Seq<Handler<F>>>, n: usize) -> bool {
    &&& hs.len() == 3
    &&& forall|k: int, i: int| 0 <= k < 3 && 0 <= i < hs[k].len() ==> #[trigger] hs[k][i].idx < n
}

proof fn lemma_first_with_id_range<F>(s: Seq<Handler<F>>, id: usize)
    ensures
        0 <= first_with_id(s, id) <= s.len(),
        first_with_id(s, id) < s.len() ==> s[first_with_id(s, id)].idx == id,
    decreases s.len(),
{
    if s.len() > 0 && s[0].idx != id {
        lemma_first_with_id_range(s.drop_first(), id);
    }
}

proof fn lemma_without_id_ids<F>(s: Seq<Handler<F>>, id: usize, n: usize)
    requires
        forall|i: int| 0 <= i < s.len() ==> #[trigger] s[i].idx < n,
    ensures
        forall|i: int| 0 <= i < without_id(s, id).len() ==> #[trigger] without_id(s, id)[i].idx < n,
{
    lemma_first_with_id_range(s, id);
    let i = first_with_id(s, id);
    if i < s.len() {
        assert forall|j: int| 0 <= j < s.remove(i).len() implies #[trigger] s.remove(i)[j].idx < n by {
            if j < i {
                assert(s.remove(i)[j] == s[j]);
            } else {
                assert(s.remove(i)[j] == s[j + 1]);
            }
        }
    }
}

proof fn lemma_after_hooks_ids<F>(hs: Seq<Seq<Handler<F>>>, hooks: Seq<HookArgs<F>>, n: usize)
    requires
        ids_below(hs, n),
        forall|i: int| 0 <= i < hooks.len() ==> #[trigger] hooks[i].handler_id < n,
    ensures
        ids_below(after_hooks(hs, hooks), n),
    decreases hooks.len(),
{
    if hooks.len() > 0 {
        let h1 = after_hook(hs, hooks[0]);
        let k = kind_index(hooks[0].event_kind);
        assert forall|k2: int, i: int| 0 <= k2 < 3 && 0 <= i < h1[k2].len() implies #[trigger] h1[k2][i].idx < n by {
            if k2 == k && i == hs[k].len() {
            } else {
                assert(h1[k2][i] == hs[k2][i]);
            }
        }
        let rest = hooks.drop_first();
        assert forall|i: int| 0 <= i < rest.len() implies #[trigger] rest[i].handler_id < n by {
            assert(rest[i] == hooks[i + 1]);
        }
        lemma_after_hooks_ids(h1, rest, n);
    }
}

proof fn lemma_after_unhooks_ids<F>(hs: Seq<Seq<Handler<F>>>, unhooks: Seq<UnhookArgs>, n: usize)
    requires
        ids_below(hs, n),
    ensures
        ids_below(after_unhooks(hs, unhooks), n),
    decreases unhooks.len(),
{
    if unhooks.len() > 0 {
        let h1 = after_unhook(hs, unhooks[0]);
        let k = kind_index(unhooks[0].event_kind);
        lemma_without_id_ids(hs[k], unhooks[0].handler_id, n);
        assert forall|k2: int, i: int| 0 <= k2 < 3 && 0 <= i < h1[k2].len() implies #[trigger] h1[k2][i].idx < n by {
            if k2 != k {
                assert(h1[k2] == hs[k2]);
            }
        }
        lemma_after_unhooks_ids(h1, unhooks.drop_first(), n);
    }
}

impl<F> EventHooker<F> {
    /// Hooks `func` to the events of `event_kind` under the next id, which is
    /// returned. When the lists are free they are locked, the hook and then
    /// the waiting unhooks are applied, and `true` comes back: the caller then
    /// runs the handlers of each waiting event (`next_missed_event`) and calls
    /// `unlock`. When they are in use the hook waits, and `false` comes back.
    pub fn hook_event(&mut self, event_kind: EventKind, func: F) -> (r: (usize, bool))
        requires
            old(self).wf(),
            old(self).spec_next_idx() + 1 < usize::MAX,
        ensures
            final(self).wf(),
            r.0 == old(self).spec_next_idx(),
            final(self).spec_next_idx() == old(self).spec_next_idx() + 1,
            final(self).is_locked(),
            final(self).pending_events() == old(self).pending_events(),
            r.1 == !old(self).is_locked(),
            !old(self).is_locked() ==> {
                &&& final(self).lists() == after_unhooks(
                    after_hook(old(self).lists(), HookArgs { event_kind, handler_id: r.0, func }),
                    old(self).pending_unhooks(),
                )
                &&& final(self).pending_unhooks() == Seq::<UnhookArgs>::empty()
                &&& final(self).pending_hooks() == old(self).pending_hooks()
            },
            old(self).is_locked() ==> {
                &&& final(self).lists() == old(self).lists()
                &&& final(self).pending_hooks() == old(self).pending_hooks().push(
                    HookArgs { event_kind, handler_id: r.0, func },
                )
                &&& final(self).pending_unhooks() == old(self).pending_unhooks()
            },
    {
        let next_idx = self.next_idx;
        let args = HookArgs { event_kind, handler_id: next_idx, func };
        if !self.locked {
            self.locked = true;
            self.hook(args);
            self.apply_missed_unhooks();
            self.next_idx = next_idx + 1;
            proof {
                let h1 = after_hook(old(self).lists(), args);
                assert(ids_below(old(self).lists(), self.next_idx));
                lemma_after_hooks_ids(old(self).lists(), seq![args], self.next_idx);
                assert(after_hooks(old(self).lists(), seq![args]) == h1) by {
                    assert(seq![args].drop_first() =~= Seq::<HookArgs<F>>::empty());
                    reveal_with_fuel(after_hooks, 2);
                }
                lemma_after_unhooks_ids(h1, old(self).missed_unhooks@, self.next_idx);
                assert(self.pending_hooks() == old(self).pending_hooks());
                assert forall|i: int| 0 <= i < self.pending_hooks().len() implies #[trigger] self.pending_hooks()[i].handler_id
                    < self.spec_next_idx() by {
                    assert(self.pending_hooks()[i] == old(self).pending_hooks()[i]);
                }
            }
            (next_idx, true)
        } else {
            self.missed_hooks.push_back(args);
            self.next_idx = next_idx + 1;
            assert(self.lists() == old(self).lists());
            assert forall|k: int, i: int| 0 <= k < 3 && 0 <= i < self.lists()[k].len() implies #[trigger] self.lists()[k][i].idx
                < self.spec_next_idx() by {
                assert(old(self).lists()[k][i].idx < old(self).spec_next_idx());
            }
            assert forall|i: int| 0 <= i < self.pending_hooks().len() implies #[trigger] self.pending_hooks()[i].handler_id
                < self.spec_next_idx() by {
                if i < old(self).pending_hooks().len() {
                    assert(self.pending_hooks()[i] == old(self).pending_hooks()[i]);
                }
            }
            (next_idx, false)
        }
    }

    /// Sends `event`. When the lists are free they are locked and `true`
    /// comes back: the caller runs the handlers of the event's kind and then
    /// calls `finish_send`. When they are in use the event waits, and `false`
    /// comes back.
    pub fn send_event(&mut self, event: Event) -> (r: bool)
        requires
            old(self).wf(),
        ensures
            final(self).wf(),
            r == !old(self).is_locked(),
            final(self).is_locked(),
            final(self).lists() == old(self).lists(),
            final(self).spec_next_idx() == old(self).spec_next_idx(),
            final(self).pending_hooks() == old(self).pending_hooks(),
            final(self).pending_unhooks() == old(self).pending_unhooks(),
            r ==> final(self).pending_events() == old(self).pending_events(),
            !r ==> final(self).pending_events() == old(self).pending_events().push(event),
    {
        if !self.locked {
            self.locked = true;
            assert(self.lists() == old(self).lists());
            assert(self.pending_hooks() == old(self).pending_hooks());
            true
        } else {
            self.missed_events.push_back(event);
            assert(self.lists() == old(self).lists());
            assert(self.pending_hooks() == old(self).pending_hooks());
            false
        }
    }

    /// Ends a send: applies the hooks and then the unhooks that waited, and
    /// frees the lists.
    pub fn finish_send(&mut self)
        requires
            old(self).wf(),
        ensures
            final(self).wf(),
            !final(self).is_locked(),
            final(self).lists() == after_unhooks(
                after_hooks(old(self).lists(), old(self).pending_hooks()),
                old(self).pending_unhooks(),
            ),
            final(self).pending_hooks() == Seq::<HookArgs<F>>::empty(),
            final(self).pending_unhooks() == Seq::<UnhookArgs>::empty(),
            final(self).pending_events() == old(self).pending_events(),
            final(self).spec_next_idx() == old(self).spec_next_idx(),
    {
        self.apply_missed_hooks();
        self.apply_missed_unhooks();
        self.locked = false;
        proof {
            lemma_after_hooks_ids(old(self).lists(), old(self).missed_hooks@, self.next_idx);
            lemma_after_unhooks_ids(
                after_hooks(old(self).lists(), old(self).missed_hooks@),
                old(self).missed_unhooks@,
                self.next_idx,
            );
        }
    }

    /// Unhooks the first handler of `event_kind` with id `idx`; nothing when
    /// there is none. When the lists are free they are locked, the unhook and
    /// then the waiting hooks are applied, and `true` comes back: the caller
    /// then runs the handlers of each waiting event and calls `unlock`. When
    /// they are in use the unhook waits, and `false` comes back.
    pub fn unhook_event(&mut self, idx: usize, event_kind: EventKind) -> (r: bool)
        requires
            old(self).wf(),
        ensures
            final(self).wf(),
            r == !old(self).is_locked(),
            final(self).is_locked(),
            final(self).spec_next_idx() == old(self).spec_next_idx(),
            final(self).pending_events() == old(self).pending_events(),
            r ==> {
                &&& final(self).lists() == after_hooks(
                    after_unhook(old(self).lists(), UnhookArgs { event_kind, handler_id: idx }),
                    old(self).pending_hooks(),
                )
                &&& final(self).pending_hooks() == Seq::<HookArgs<F>>::empty()
                &&& final(self).pending_unhooks() == old(self).pending_unhooks()
            },
            !r ==> {
                &&& final(self).lists() == old(self).lists()
                &&& final(self).pending_unhooks() == old(self).pending_unhooks().push(
                    UnhookArgs { event_kind, handler_id: idx },
                )
                &&& final(self).pending_hooks() == old(self).pending_hooks()
            },
    {
        let args = UnhookArgs { event_kind, handler_id: idx };
        if !self.locked {
            self.locked = true;
            self.unhook(args);
            self.apply_missed_hooks();
            proof {
                lemma_after_unhooks_ids(old(self).lists(), seq![args], self.next_idx);
                assert(after_unhooks(old(self).lists(), seq![args]) == after_unhook(old(self).lists(), args)) by {
                    assert(seq![args].drop_first() =~= Seq::<UnhookArgs>::empty());
                    reveal_with_fuel(after_unhooks, 2);
                }
                lemma_after_hooks_ids(after_unhook(old(self).lists(), args), old(self).missed_hooks@, self.next_idx);
            }
            true
        } else {
            self.missed_unhooks.push_back(args);
            assert(self.lists() == old(self).lists());
            assert(self.pending_hooks() == old(self).pending_hooks());
            false
        }
    }

    /// Takes the oldest waiting event, if any.
    pub fn next_missed_event(&mut self) -> (r: Option<Event>)
        requires
            old(self).wf(),
        ensures
            final(self).wf(),
            old(self).pending_events().len() == 0 ==> r is None && final(self).pending_events() == old(
                self,
            ).pending_events(),
            old(self).pending_events().len() > 0 ==> r == Some(old(self).pending_events()[0])
                && final(self).pending_events() == old(self).pending_events().drop_first(),
            final(self).lists() == old(self).lists(),
            final(self).is_locked() == old(self).is_locked(),
            final(self).spec_next_idx() == old(self).spec_next_idx(),
            final(self).pending_hooks() == old(self).pending_hooks(),
            final(self).pending_unhooks() == old(self).pending_unhooks(),
    {
        let r = self.missed_events.pop_front();
        assert(self.lists() == old(self).lists());
        assert(self.pending_hooks() == old(self).pending_hooks());
        r
    }

    /// Frees the lists.
    pub fn unlock(&mut self)
        requires
            old(self).wf(),
        ensures
            final(self).wf(),
            !final(self).is_locked(),
            final(self).lists() == old(self).lists(),
            final(self).spec_next_idx() == old(self).spec_next_idx(),
            final(self).pending_hooks() == old(self).pending_hooks(),
            final(self).pending_unhooks() == old(self).pending_unhooks(),
            final(self).pending_events() == old(self).pending_events(),
    {
        self.locked = false;
        assert(self.lists() == old(self).lists());
        assert(self.pending_hooks() == old(self).pending_hooks());
    }

    /// The id the next hook gets.
    pub fn next_idx(&self) -> (r: usize)
        ensures
            r == self.spec_next_idx(),
    {
        self.next_idx
    }

    /// The number of handlers of a kind.
    pub fn handler_count(&self, event_kind: EventKind) -> (r: usize)
        ensures
            r == self.handlers_of(event_kind).len(),
    {
        match event_kind {
            EventKind::Timer => self.timer.len(),
            EventKind::Keyboard => self.keyboard.len(),
            EventKind::Sound => self.sound.len(),
        }
    }

    /// The function of the handler at position `i` of a kind's list.
    pub fn handler_func(&self, event_kind: EventKind, i: usize) -> (r: &F)
        requires
            i < self.handlers_of(event_kind).len(),
        ensures
            *r == self.handlers_of(event_kind)[i as int].func,
    {
        match event_kind {
            EventKind::Timer => &self.timer[i].func,
            EventKind::Keyboard => &self.keyboard[i].func,
            EventKind::Sound => &self.sound[i].func,
        }
    }

    /// Whether a handler of the kind has the id; `None` while the lists are in use.
    pub fn handler_exists(&self, event_kind: EventKind, idx: usize) -> (r: Option<bool>)
        ensures
            self.is_locked() ==> r is None,
            !self.is_locked() ==> r == Some(
                exists|i: int| 0 <= i < self.handlers_of(event_kind).len() && #[trigger] self.handlers_of(event_kind)[i].idx
                    == idx,
            ),
    {
        if self.locked {
            return None;
        }
        let n = self.handler_count(event_kind);
        let mut i: usize = 0;
        while i < n
            invariant
                n == self.handlers_of(event_kind).len(),
                !self.is_locked(),
                i <= n,
                forall|j: int| 0 <= j < i ==> #[trigger] self.handlers_of(event_kind)[j].idx != idx,
            decreases n - i,
        {
            let found = match event_kind {
                EventKind::Timer => self.timer[i].idx == idx,
                EventKind::Keyboard => self.keyboard[i].idx == idx,
                EventKind::Sound => self.sound[i].idx == idx,
            };
            if found {
                return Some(true);
            }
            i = i + 1;
        }
        Some(false)
    }
}

} // verus!

verus! {

/// Unhooking the id of a hook undoes the hook: when no handler of the kind
/// had the id, hooking and then unhooking it leaves the lists as they were.
pub proof fn law_unhook_undoes_hook<F>(hs: Seq<Seq<Handler<F>>>, kind: EventKind, id: usize, func: F)
    requires
        hs.len() == 3,
        forall|i: int| 0 <= i < hs[kind_index(kind)].len() ==> #[trigger] hs[kind_index(kind)][i].idx != id,
    ensures
        after_unhook(
            after_hook(hs, HookArgs { event_kind: kind, handler_id: id, func }),
            UnhookArgs { event_kind: kind, handler_id: id },
        ) == hs,
{
    let k = kind_index(kind);
    let pushed = hs[k].push(Handler { idx: id, func });
    assert forall|j: int| 0 <= j < hs[k].len() implies #[trigger] pushed[j].idx != id by {
        assert(pushed[j] == hs[k][j]);
    }
    lemma_first_with_id(pushed, id, hs[k].len() as int);
    assert(pushed.remove(hs[k].len() as int) =~= hs[k]);
    assert(after_unhook(
        after_hook(hs, HookArgs { event_kind: kind, handler_id: id, func }),
        UnhookArgs { event_kind: kind, handler_id: id },
    ) =~= hs);
}

/// The number of `true`s in `s`.
pub open spec fn count_true(s: Seq<bool>) -> nat
    decreases s.len(),
{
    if s.len() == 0 {
        0
    } else {
        count_true(s.drop_last()) + if s.last() { 1nat } else { 0nat }
    }
}

/// A hook gets as its id the number of hooks made before it: over the
/// states `hs` of a hooker that starts with next id 0, as `new` makes it,
/// where call `j` (a hook when `hooked[j]`) adds one to the next id if it is
/// a hook and keeps it otherwise, as `hook_event` and the other calls do,
/// the next id before call `j`, which a hook there returns, is the number of
/// hooks among the calls before it.
pub proof fn law_hook_ids_count_hooks<F>(hs: Seq<EventHooker<F>>, hooked: Seq<bool>)
    requires
        hs.len() == hooked.len() + 1,
        hs[0].spec_next_idx() == 0,
        forall|j: int|
            0 <= j < hooked.len() ==> #[trigger] hs[j + 1].spec_next_idx() == hs[j].spec_next_idx() + if hooked[j] {
                1int
            } else {
                0int
            },
    ensures
        forall|j: int| 0 <= j <= hooked.len() ==> #[trigger] hs[j].spec_next_idx() == count_true(hooked.take(j)),
    decreases hooked.len(),
{
    if hooked.len() > 0 {
        let m = hooked.len() - 1;
        law_hook_ids_count_hooks(hs.take(m + 1), hooked.take(m));
        assert forall|j: int| 0 <= j <= hooked.len() implies #[trigger] hs[j].spec_next_idx() == count_true(
            hooked.take(j),
        ) by {
            if j <= m {
                assert(hs.take(m + 1)[j] == hs[j]);
                assert(hooked.take(m).take(j) =~= hooked.take(j));
            } else {
                assert(hs.take(m + 1)[m] == hs[m]);
                assert(hooked.take(m).take(m) =~= hooked.take(m));
                assert(hooked.take(j).drop_last() =~= hooked.take(m));
                assert(hs[m + 1].spec_next_idx() == hs[m].spec_next_idx() + if hooked[m] { 1int } else { 0int });
            }
        }
    } else {
        assert(hooked.take(0) =~= Seq::<bool>::empty());
    }
}

/// Unhooking an id that no handler of the kind has leaves the lists as they
/// were.
pub proof fn law_unhook_unknown_id<F>(hs: Seq<Seq<Handler<F>>>, kind: EventKind, id: usize)
    requires
        hs.len() == 3,
        forall|i: int| 0 <= i < hs[kind_index(kind)].len() ==> #[trigger] hs[kind_index(kind)][i].idx != id,
    ensures
        after_unhook(hs, UnhookArgs { event_kind: kind, handler_id: id }) == hs,
{
    let k = kind_index(kind);
    lemma_first_with_id(hs[k], id, hs[k].len() as int);
    assert(after_unhook(hs, UnhookArgs { event_kind: kind, handler_id: id }) =~= hs);
}

} // verus!
