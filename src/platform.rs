//! The callback registry and the dispatch bridge: single-slot handlers that
//! the UI runtime installs, and the decisions taken when a native lifecycle
//! event, menu activation or file-open notification arrives.
use vstd::prelude::*;
use vstd::utf8::{decode_utf8, valid_utf8};
use crate::menu::{Menu, NativeMenu, build_menu_table, menu_entries, native_menu_matches};
use crate::text::decode_strict;

verus! {

/// The handler slots, and the action table of the current menu bar.
///
/// `V` is a lifecycle handler (become or resign active), `E` an input-event
/// handler, `M` a menu-command handler, `F` an open-files handler, `L` the
/// one-shot finish-launching handler and `A` the argument of a menu command.
pub struct MacForegroundPlatformState<V, E, M, F, L, A> {
    pub become_active: Option<V>,
    pub resign_active: Option<V>,
    pub event: Option<E>,
    pub menu_command: Option<M>,
    pub open_files: Option<F>,
    pub finish_launching: Option<L>,
    pub menu_actions: Vec<(String, Option<A>)>,
}

impl<V, E, M, F, L, A> MacForegroundPlatformState<V, E, M, F, L, A> {
    /// Every slot empty and no menu actions.
    pub open spec fn is_empty(&self) -> bool {
        &&& self.become_active is None
        &&& self.resign_active is None
        &&& self.event is None
        &&& self.menu_command is None
        &&& self.open_files is None
        &&& self.finish_launching is None
        &&& self.menu_actions@.len() == 0
    }

    pub fn new() -> (r: Self)
        ensures
            r.is_empty(),
    {
        MacForegroundPlatformState {
            become_active: None,
            resign_active: None,
            event: None,
            menu_command: None,
            open_files: None,
            finish_launching: None,
            menu_actions: Vec::new(),
        }
    }
}

impl<V, E, M, F, L, A> Default for MacForegroundPlatformState<V, E, M, F, L, A> {
    fn default() -> (r: Self)
        ensures
            r.is_empty(),
    {
        Self::new()
    }
}

/// The slot after the handler was taken out to be invoked.
pub open spec fn slot_after_take<H>(slot: Option<H>) -> Option<H> {
    None
}

/// The slot after `h` was installed: the previous handler is discarded.
pub open spec fn slot_after_install<H>(slot: Option<H>, h: H) -> Option<H> {
    Some(h)
}

/// The slot after a persistent handler `h` is put back once invoked: a
/// handler installed while `h` ran stays; otherwise `h` returns.
pub open spec fn slot_after_restore<H>(slot: Option<H>, h: H) -> Option<H> {
    match slot {
        Some(_) => slot,
        None => Some(h),
    }
}

/// Whether the native default handling of an input event goes on: unless the
/// event was translated and the installed handler reported it consumed.
pub open spec fn falls_through(handled: Option<bool>) -> bool {
    handled != Some(true)
}

/// The paths that a file-open notification delivers: each raw path that is
/// valid UTF-8, decoded, in order; the others are skipped.
pub open spec fn decoded_paths(raw: Seq<Seq<u8>>) -> Seq<Seq<char>>
    decreases raw.len(),
{
    if raw.len() == 0 {
        Seq::empty()
    } else {
        let rest = decoded_paths(raw.drop_last());
        if valid_utf8(raw.last()) {
            rest.push(decode_utf8(raw.last()))
        } else {
            rest
        }
    }
}

/// The platform's registry, with the operations of the dispatch bridge.
pub struct MacForegroundPlatform<V, E, M, F, L, A> {
    pub state: MacForegroundPlatformState<V, E, M, F, L, A>,
}

impl<V, E, M, F, L, A> MacForegroundPlatform<V, E, M, F, L, A> {
    /// Every slot but the menu-command one, and the action table, as in `other`.
    pub open spec fn same_except_menu_command(&self, other: &Self) -> bool {
        &&& self.state.become_active == other.state.become_active
        &&& self.state.resign_active == other.state.resign_active
        &&& self.state.event == other.state.event
        &&& self.state.open_files == other.state.open_files
        &&& self.state.finish_launching == other.state.finish_launching
        &&& self.state.menu_actions@ == other.state.menu_actions@
    }

    pub fn new() -> (r: Self)
        ensures
            r.state.is_empty(),
    {
        MacForegroundPlatform { state: MacForegroundPlatformState::new() }
    }

    pub fn on_become_active(&mut self, callback: V)
        ensures
            final(self).state.become_active == slot_after_install(
                old(self).state.become_active,
                callback,
            ),
            final(self).state.resign_active == old(self).state.resign_active,
            final(self).state.event == old(self).state.event,
            final(self).state.menu_command == old(self).state.menu_command,
            final(self).state.open_files == old(self).state.open_files,
            final(self).state.finish_launching == old(self).state.finish_launching,
            final(self).state.menu_actions@ == old(self).state.menu_actions@,
    {
        self.state.become_active = Some(callback);
    }

    pub fn on_resign_active(&mut self, callback: V)
        ensures
            final(self).state.resign_active == slot_after_install(
                old(self).state.resign_active,
                callback,
            ),
            final(self).state.become_active == old(self).state.become_active,
            final(self).state.event == old(self).state.event,
            final(self).state.menu_command == old(self).state.menu_command,
            final(self).state.open_files == old(self).state.open_files,
            final(self).state.finish_launching == old(self).state.finish_launching,
            final(self).state.menu_actions@ == old(self).state.menu_actions@,
    {
        self.state.resign_active = Some(callback);
    }

    pub fn on_event(&mut self, callback: E)
        ensures
            final(self).state.event == slot_after_install(old(self).state.event, callback),
            final(self).state.become_active == old(self).state.become_active,
            final(self).state.resign_active == old(self).state.resign_active,
            final(self).state.menu_command == old(self).state.menu_command,
            final(self).state.open_files == old(self).state.open_files,
            final(self).state.finish_launching == old(self).state.finish_launching,
            final(self).state.menu_actions@ == old(self).state.menu_actions@,
    {
        self.state.event = Some(callback);
    }

    pub fn on_open_files(&mut self, callback: F)
        ensures
            final(self).state.open_files == slot_after_install(
                old(self).state.open_files,
                callback,
            ),
            final(self).state.become_active == old(self).state.become_active,
            final(self).state.resign_active == old(self).state.resign_active,
            final(self).state.event == old(self).state.event,
            final(self).state.menu_command == old(self).state.menu_command,
            final(self).state.finish_launching == old(self).state.finish_launching,
            final(self).state.menu_actions@ == old(self).state.menu_actions@,
    {
        self.state.open_files = Some(callback);
    }

    pub fn on_menu_command(&mut self, callback: M)
        ensures
            final(self).state.menu_command == slot_after_install(
                old(self).state.menu_command,
                callback,
            ),
            final(self).same_except_menu_command(old(self)),
    {
        self.state.menu_command = Some(callback);
    }

    /// Installs the one-shot handler that runs once native launch completes;
    /// `None` leaves the slot empty.
    pub fn on_finish_launching(&mut self, callback: Option<L>)
        ensures
            final(self).state.finish_launching == callback,
            final(self).state.become_active == old(self).state.become_active,
            final(self).state.resign_active == old(self).state.resign_active,
            final(self).state.event == old(self).state.event,
            final(self).state.menu_command == old(self).state.menu_command,
            final(self).state.open_files == old(self).state.open_files,
            final(self).state.menu_actions@ == old(self).state.menu_actions@,
    {
        self.state.finish_launching = callback;
    }

    /// Native launch completed: the one-shot handler is taken out (the slot
    /// is cleared) and handed back to be invoked, if there was one.
    pub fn take_finish_launching(&mut self) -> (r: Option<L>)
        ensures
            r == old(self).state.finish_launching,
            final(self).state.finish_launching == slot_after_take(
                old(self).state.finish_launching,
            ),
            final(self).state.become_active == old(self).state.become_active,
            final(self).state.resign_active == old(self).state.resign_active,
            final(self).state.event == old(self).state.event,
            final(self).state.menu_command == old(self).state.menu_command,
            final(self).state.open_files == old(self).state.open_files,
            final(self).state.menu_actions@ == old(self).state.menu_actions@,
    {
        self.state.finish_launching.take()
    }

    /// Rebuilds the menu action table from `menus` and describes the native
    /// menu bar whose item tags index it. The handlers are left as they were.
    pub fn set_menus(&mut self, menus: Vec<Menu<A>>) -> (r: Vec<NativeMenu>)
        ensures
            final(self).state.menu_actions@ == menu_entries(menus@),
            r@.len() == menus@.len(),
            forall|m: int| 0 <= m < r@.len() ==> native_menu_matches(#[trigger] r@[m], menus@, m),
            final(self).state.become_active == old(self).state.become_active,
            final(self).state.resign_active == old(self).state.resign_active,
            final(self).state.event == old(self).state.event,
            final(self).state.menu_command == old(self).state.menu_command,
            final(self).state.open_files == old(self).state.open_files,
            final(self).state.finish_launching == old(self).state.finish_launching,
    {
        build_menu_table(&mut self.state.menu_actions, menus)
    }

    /// Menu activation, first step: the command handler is taken out of its
    /// slot, so that while it runs it may install another.
    pub fn take_menu_command(&mut self) -> (r: Option<M>)
        ensures
            r == old(self).state.menu_command,
            final(self).state.menu_command == slot_after_take(old(self).state.menu_command),
            final(self).same_except_menu_command(old(self)),
    {
        self.state.menu_command.take()
    }

    /// The command and argument that a native tag stands for; none for a
    /// tag outside the table (a stale tag from before a rebuild).
    pub fn menu_action(&self, tag: usize) -> (r: Option<&(String, Option<A>)>)
        ensures
            r.is_some() == (tag < self.state.menu_actions@.len()),
            r.is_some() ==> *r.unwrap() == self.state.menu_actions@[tag as int],
    {
        if tag < self.state.menu_actions.len() {
            Some(&self.state.menu_actions[tag])
        } else {
            None
        }
    }

    /// Menu activation, last step: the handler that ran goes back to its
    /// slot, unless it installed another meanwhile.
    pub fn restore_menu_command(&mut self, callback: M)
        ensures
            final(self).state.menu_command == slot_after_restore(
                old(self).state.menu_command,
                callback,
            ),
            final(self).same_except_menu_command(old(self)),
    {
        if self.state.menu_command.is_none() {
            self.state.menu_command = Some(callback);
        }
    }

    /// Whether an input event goes on to the native default handling, given
    /// what the installed handler returned for its translation (`None` where
    /// the event had no translation or no handler is installed).
    pub fn falls_through(handled: Option<bool>) -> (r: bool)
        ensures
            r == falls_through(handled),
    {
        match handled {
            Some(consumed) => !consumed,
            None => true,
        }
    }

    /// The paths of a file-open notification: each raw path that decodes as
    /// UTF-8, in order; the others are skipped.
    pub fn decode_open_paths(raw: &Vec<Vec<u8>>) -> (r: Vec<String>)
        ensures
            r@.map_values(|p: String| p@) == decoded_paths(raw@.map_values(|b: Vec<u8>| b@)),
    {
        let ghost views = raw@.map_values(|b: Vec<u8>| b@);
        let mut out: Vec<String> = Vec::new();
        let mut i: usize = 0;
        while i < raw.len()
            invariant
                i <= raw@.len(),
                views == raw@.map_values(|b: Vec<u8>| b@),
                out@.map_values(|p: String| p@) == decoded_paths(views.take(i as int)),
            decreases raw@.len() - i,
        {
            assert(views.take(i as int + 1).drop_last() =~= views.take(i as int));
            match decode_strict(raw[i].as_slice()) {
                Some(path) => {
                    out.push(path);
                    assert(out@.map_values(|p: String| p@) =~= decoded_paths(
                        views.take(i as int + 1),
                    ));
                },
                None => {},
            }
            i = i + 1;
        }
        assert(views.take(raw@.len() as int) =~= views);
        out
    }
}

/// A handler that installs another while it runs is not lost: it was handed
/// out whole when taken, and the one it installed stays for the next event.
/// Without such an install the handler that ran returns to its slot.
pub proof fn lemma_reentrant_install<H>(installed: H, replacement: H)
    ensures
        slot_after_restore(
            slot_after_install(slot_after_take(Some(installed)), replacement),
            installed,
        ) == Some(replacement),
        slot_after_restore(slot_after_take(Some(installed)), installed) == Some(installed),
{
}

/// The finish-launching handler fires at most once: once it was taken the
/// slot is empty, so a later take (say after an install of no handler, which
/// leaves the slot empty too) hands out nothing.
pub proof fn lemma_finish_launching_once<H>(slot: Option<H>)
    ensures
        slot_after_take(slot) is None,
        slot_after_take(slot_after_take(slot)) is None,
{
}

} // verus!
