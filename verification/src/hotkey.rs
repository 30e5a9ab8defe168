//! Watching the fn (Globe) key: the system reports modifier-flag changes,
//! and a key-down or key-up is announced when the fn flag changes.
use vstd::prelude::*;

verus! {

/// The modifier flag that the system sets while the fn key is held.
pub const FN_KEY_FLAG: u64 = 0x0080_0000;

/// A change of the fn key.
#[derive(Debug, Clone, Copy, PartialEq, Eq, Structural)]
pub enum FnKeyEvent {
    Down,
    Up,
}

impl FnKeyEvent {
    /// The name under which the change is announced to the interface.
    pub fn event_name(&self) -> (r: String)
        ensures
            r@ == match self {
                FnKeyEvent::Down => "fn-key-down"@,
                FnKeyEvent::Up => "fn-key-up"@,
            },
    {
        match self {
            FnKeyEvent::Down => String::from_str("fn-key-down"),
            FnKeyEvent::Up => String::from_str("fn-key-up"),
        }
    }
}

/// Whether the flags report the fn key as held.
pub open spec fn fn_held(flags: u64) -> bool {
    flags & FN_KEY_FLAG != 0
}

/// What one flag report announces, given whether the fn key was held before.
pub open spec fn fn_event(was_down: bool, flags: u64) -> Option<FnKeyEvent> {
    if fn_held(flags) && !was_down {
        Some(FnKeyEvent::Down)
    } else if !fn_held(flags) && was_down {
        Some(FnKeyEvent::Up)
    } else {
        None
    }
}

/// Remembers whether the fn key was held at the last report.
pub struct FnKeyMonitor {
    fn_was_down: bool,
}

impl FnKeyMonitor {
    /// A monitor that has seen the fn key up.
    pub fn new() -> (r: Self)
        ensures
            !r.was_down(),
    {
        FnKeyMonitor { fn_was_down: false }
    }

    /// Whether the fn key was held at the last report.
    pub closed spec fn was_down(&self) -> bool {
        self.fn_was_down
    }

    /// Takes one flag report: announces a key-down when the key becomes held,
    /// a key-up when it is released, nothing otherwise; afterwards the monitor
    /// remembers whether the key is held.
    pub fn on_flags_changed(&mut self, flags: u64) -> (r: Option<FnKeyEvent>)
        ensures
            r == fn_event(old(self).was_down(), flags),
            final(self).was_down() == fn_held(flags),
    {
        let fn_down = (flags & FN_KEY_FLAG) != 0;
        if fn_down && !self.fn_was_down {
            self.fn_was_down = true;
            Some(FnKeyEvent::Down)
        } else if !fn_down && self.fn_was_down {
            self.fn_was_down = false;
            Some(FnKeyEvent::Up)
        } else {
            None
        }
    }
}

/// The announcements for a run of flag reports, given whether the key was
/// held before the first.
pub open spec fn fn_events(was_down: bool, reports: Seq<u64>) -> Seq<FnKeyEvent>
    decreases reports.len(),
{
    if reports.len() == 0 {
        Seq::empty()
    } else {
        let f = reports[0];
        let rest = fn_events(fn_held(f), reports.drop_first());
        match fn_event(was_down, f) {
            Some(e) => seq![e] + rest,
            None => rest,
        }
    }
}

/// Whether the fn key is held after a run of flag reports, given whether it
/// was held before the first.
pub open spec fn held_after(was_down: bool, reports: Seq<u64>) -> bool {
    if reports.len() == 0 {
        was_down
    } else {
        fn_held(reports.last())
    }
}

/// An announcement as a run of at most one event.
pub open spec fn event_seq(e: Option<FnKeyEvent>) -> Seq<FnKeyEvent> {
    match e {
        Some(x) => seq![x],
        None => Seq::empty(),
    }
}

/// Successive calls of `on_flags_changed` announce the events of the run:
/// one more report after a run announces what the report gives in the state
/// the run left (as `on_flags_changed` does), after the run's own
/// announcements, and leaves the key held exactly when that report holds it.
pub proof fn law_fn_events_step(was_down: bool, reports: Seq<u64>, f: u64)
    ensures
        fn_events(was_down, reports.push(f)) == fn_events(was_down, reports) + event_seq(
            fn_event(held_after(was_down, reports), f),
        ),
        held_after(was_down, reports.push(f)) == fn_held(f),
    decreases reports.len(),
{
    let all = reports.push(f);
    if reports.len() == 0 {
        assert(all.drop_first() =~= Seq::<u64>::empty());
        assert(all[0] == f);
        assert(fn_events(was_down, reports) =~= Seq::<FnKeyEvent>::empty());
        assert(fn_events(fn_held(f), all.drop_first()) =~= Seq::<FnKeyEvent>::empty());
        match fn_event(was_down, f) {
            Some(x) => assert(fn_events(was_down, all) =~= seq![x]),
            None => assert(fn_events(was_down, all) =~= Seq::<FnKeyEvent>::empty()),
        }
    } else {
        let r0 = reports[0];
        let tail = reports.drop_first();
        law_fn_events_step(fn_held(r0), tail, f);
        assert(all.drop_first() =~= tail.push(f));
        assert(all[0] == r0);
        assert(held_after(fn_held(r0), tail) == held_after(was_down, reports)) by {
            if tail.len() > 0 {
                assert(tail.last() == reports.last());
            }
        }
        let e = event_seq(fn_event(held_after(was_down, reports), f));
        match fn_event(was_down, r0) {
            Some(x) => {
                assert(seq![x] + (fn_events(fn_held(r0), tail) + e) =~= (seq![x] + fn_events(
                    fn_held(r0),
                    tail,
                )) + e);
            },
            None => {},
        }
    }
}

/// Key-downs and key-ups alternate: the first announcement is a key-down
/// when the key was up (a key-up when it was held), and no two announcements
/// in a row are the same.
pub proof fn law_fn_events_alternate(was_down: bool, reports: Seq<u64>)
    ensures
        fn_events(was_down, reports).len() > 0 ==> fn_events(was_down, reports)[0] == (if was_down {
            FnKeyEvent::Up
        } else {
            FnKeyEvent::Down
        }),
        forall|i: int|
            0 <= i < fn_events(was_down, reports).len() - 1 ==> #[trigger] fn_events(
                was_down,
                reports,
            )[i] != fn_events(was_down, reports)[i + 1],
    decreases reports.len(),
{
    if reports.len() > 0 {
        let f = reports[0];
        let held = fn_held(f);
        let rest = fn_events(held, reports.drop_first());
        law_fn_events_alternate(held, reports.drop_first());
        match fn_event(was_down, f) {
            Some(e) => {
                let all = seq![e] + rest;
                assert(all[0] == e);
                assert forall|i: int| 0 <= i < all.len() - 1 implies #[trigger] all[i] != all[i
                    + 1] by {
                    if i == 0 {
                        assert(all[1] == rest[0]);
                    } else {
                        assert(all[i] == rest[i - 1]);
                        assert(all[i + 1] == rest[i]);
                    }
                }
            },
            None => {
                assert(held == was_down);
            },
        }
    }
}

} // verus!
