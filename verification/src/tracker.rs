//! The tracker state machine: holds the id of the currently tracked window,
//! if any, re-evaluates it on window lifecycle events, and issues a move
//! command when a workspace gains focus.

use vstd::prelude::*;

use crate::WindowDescriptor;
use crate::matcher::{Matcher, descriptor_matches};

verus! {

/// A compositor notification, reduced to what the tracker consumes. Every
/// notification the tracker does not act on maps to `Other`.
pub enum TrackerEvent {
    /// A workspace became active on its output; `focused` says whether it
    /// also became the single focused workspace.
    WorkspaceActivated { workspace: u64, focused: bool },
    /// A toplevel window was opened, or an open window's attributes changed.
    WindowOpenedOrChanged { window: WindowDescriptor },
    /// A toplevel window was closed.
    WindowClosed { id: u64 },
    /// Any other notification; the tracker ignores it.
    Other,
}

/// The one outgoing command the tracker ever issues: move window `window_id`
/// to workspace `workspace_id`. `focus` says whether input focus should
/// follow the window; the tracker always sets it to false.
#[derive(Clone, Copy, PartialEq, Eq, Structural, Debug)]
pub struct MoveCommand {
    pub window_id: u64,
    pub workspace_id: u64,
    pub focus: bool,
}

/// The tracked window after one event: an open-or-changed event for a
/// qualifying window tracks that window; closing the tracked window returns
/// to idle; every other event leaves the state alone. In particular a
/// non-qualifying open-or-changed event never untracks: tracking is sticky
/// until the tracked window closes.
pub open spec fn next_state(
    current: Option<u64>,
    title_pat: Seq<char>,
    app_id_pat: Seq<char>,
    event: TrackerEvent,
) -> Option<u64> {
    match event {
        TrackerEvent::WindowOpenedOrChanged { window } => if descriptor_matches(
            title_pat,
            app_id_pat,
            window,
        ) {
            Option::Some(window.id)
        } else {
            current
        },
        TrackerEvent::WindowClosed { id } => if current == Option::Some(id) {
            Option::None
        } else {
            current
        },
        _ => current,
    }
}

/// The command one event produces: exactly one move command, for the tracked
/// window, without focus, when a workspace becomes focused while a window is
/// tracked; none otherwise.
pub open spec fn command_for(current: Option<u64>, event: TrackerEvent) -> Option<MoveCommand> {
    match event {
        TrackerEvent::WorkspaceActivated { workspace, focused } => match current {
            Option::Some(id) => if focused {
                Option::Some(
                    (MoveCommand { window_id: id, workspace_id: workspace, focus: false }),
                )
            } else {
                Option::None
            },
            Option::None => Option::None,
        },
        _ => Option::None,
    }
}

/// The id of the first window in `windows` that qualifies, if any:
/// first-match-wins, not best-match.
pub open spec fn first_match(
    title_pat: Seq<char>,
    app_id_pat: Seq<char>,
    windows: Seq<WindowDescriptor>,
) -> Option<u64>
    decreases windows.len(),
{
    if windows.len() == 0 {
        Option::None
    } else if descriptor_matches(title_pat, app_id_pat, windows[0]) {
        Option::Some(windows[0].id)
    } else {
        first_match(title_pat, app_id_pat, windows.drop_first())
    }
}

/// The tracked window after seeding from a snapshot: the first qualifying
/// window of the snapshot, or the previous state when none qualifies.
pub open spec fn seeded(
    current: Option<u64>,
    title_pat: Seq<char>,
    app_id_pat: Seq<char>,
    windows: Seq<WindowDescriptor>,
) -> Option<u64> {
    match first_match(title_pat, app_id_pat, windows) {
        Option::Some(id) => Option::Some(id),
        Option::None => current,
    }
}

/// The tracker: the matching predicate plus the id of the currently tracked
/// window, if any. At most one window is tracked at a time.
pub struct Tracker {
    matcher: Matcher,
    current: Option<u64>,
}

impl Tracker {
    /// The pattern of the matcher's title rule.
    pub closed spec fn title_pat(&self) -> Seq<char> {
        self.matcher.title_pat()
    }

    /// The pattern of the matcher's app-id rule.
    pub closed spec fn app_id_pat(&self) -> Seq<char> {
        self.matcher.app_id_pat()
    }

    /// The currently tracked window, if any.
    pub closed spec fn current_window(&self) -> Option<u64> {
        self.current
    }

    /// A fresh tracker: idle, with the given matcher.
    pub fn new(matcher: Matcher) -> (t: Tracker)
        ensures
            t.current_window() is None,
            t.title_pat() == matcher.title_pat(),
            t.app_id_pat() == matcher.app_id_pat(),
    {
        Tracker { matcher, current: Option::None }
    }

    /// The currently tracked window, if any.
    pub fn current(&self) -> (r: Option<u64>)
        ensures
            r == self.current_window(),
    {
        self.current
    }

    /// Seeds the tracker from a snapshot of the currently open windows,
    /// scanning in the order given: the first qualifying window becomes
    /// tracked, the rest are ignored; when none qualifies the state is left
    /// as it was.
    pub fn seed(&mut self, windows: &Vec<WindowDescriptor>)
        ensures
            final(self).current_window() == seeded(
                old(self).current_window(),
                old(self).title_pat(),
                old(self).app_id_pat(),
                windows@,
            ),
            final(self).title_pat() == old(self).title_pat(),
            final(self).app_id_pat() == old(self).app_id_pat(),
    {
        let n = windows.len();
        let mut i: usize = 0;
        proof {
            assert(windows@.skip(0) =~= windows@);
        }
        while i < n
            invariant
                n == windows@.len(),
                0 <= i <= n,
                *self == *old(self),
                first_match(self.title_pat(), self.app_id_pat(), windows@) == first_match(
                    self.title_pat(),
                    self.app_id_pat(),
                    windows@.skip(i as int),
                ),
            decreases n - i,
        {
            if self.matcher.matches(&windows[i]) {
                proof {
                    assert(windows@.skip(i as int)[0] == windows@[i as int]);
                }
                self.current = Option::Some(windows[i].id);
                return ;
            }
            proof {
                assert(windows@.skip(i as int)[0] == windows@[i as int]);
                assert(windows@.skip(i as int).drop_first() =~= windows@.skip(i + 1));
            }
            i = i + 1;
        }
        proof {
            assert(windows@.skip(n as int).len() == 0);
        }
    }

    /// Processes one event: updates the tracked window as `next_state`
    /// says and returns the command `command_for` says, if any.
    pub fn handle(&mut self, event: &TrackerEvent) -> (cmd: Option<MoveCommand>)
        ensures
            final(self).current_window() == next_state(
                old(self).current_window(),
                old(self).title_pat(),
                old(self).app_id_pat(),
                *event,
            ),
            final(self).title_pat() == old(self).title_pat(),
            final(self).app_id_pat() == old(self).app_id_pat(),
            cmd == command_for(old(self).current_window(), *event),
    {
        match event {
            TrackerEvent::WorkspaceActivated { workspace, focused } => {
                match self.current {
                    Option::Some(id) => if *focused {
                        Option::Some(
                            MoveCommand {
                                window_id: id,
                                workspace_id: *workspace,
                                focus: false,
                            },
                        )
                    } else {
                        Option::None
                    },
                    Option::None => Option::None,
                }
            },
            TrackerEvent::WindowOpenedOrChanged { window } => {
                if self.matcher.matches(window) {
                    self.current = Option::Some(window.id);
                }
                Option::None
            },
            TrackerEvent::WindowClosed { id } => {
                match self.current {
                    Option::Some(t) => if t == *id {
                        self.current = Option::None;
                    },
                    Option::None => {},
                }
                Option::None
            },
            TrackerEvent::Other => Option::None,
        }
    }
}

/// First match wins: seeding scans the snapshot in order, so when window `i`
/// is the first that qualifies, a later qualifying window `j` is ignored and
/// window `i` becomes tracked.
pub proof fn lemma_seed_first_match_wins(
    title_pat: Seq<char>,
    app_id_pat: Seq<char>,
    windows: Seq<WindowDescriptor>,
    i: int,
    j: int,
)
    requires
        0 <= i < j < windows.len(),
        forall|k: int| 0 <= k < i ==> !descriptor_matches(title_pat, app_id_pat, windows[k]),
        descriptor_matches(title_pat, app_id_pat, windows[i]),
        descriptor_matches(title_pat, app_id_pat, windows[j]),
    ensures
        first_match(title_pat, app_id_pat, windows) == Option::Some(windows[i].id),
    decreases i,
{
    if i > 0 {
        lemma_seed_first_match_wins(title_pat, app_id_pat, windows.drop_first(), i - 1, j - 1);
    }
}

/// From idle, an open-or-changed event for a qualifying window starts
/// tracking that window.
pub proof fn lemma_idle_tracks_matching_window(
    title_pat: Seq<char>,
    app_id_pat: Seq<char>,
    w: WindowDescriptor,
)
    requires
        descriptor_matches(title_pat, app_id_pat, w),
    ensures
        next_state(
            Option::None,
            title_pat,
            app_id_pat,
            (TrackerEvent::WindowOpenedOrChanged { window: w }),
        ) == Option::Some(w.id),
{
}

/// Tracking is sticky: an open-or-changed event for a different,
/// non-qualifying window leaves the tracked window alone.
pub proof fn lemma_tracking_is_sticky(
    title_pat: Seq<char>,
    app_id_pat: Seq<char>,
    a: u64,
    w: WindowDescriptor,
)
    requires
        !descriptor_matches(title_pat, app_id_pat, w),
        w.id != a,
    ensures
        next_state(
            Option::Some(a),
            title_pat,
            app_id_pat,
            (TrackerEvent::WindowOpenedOrChanged { window: w }),
        ) == Option::Some(a),
{
}

/// Closing the tracked window returns the tracker to idle; closing any
/// other window leaves the state unchanged.
pub proof fn lemma_close(title_pat: Seq<char>, app_id_pat: Seq<char>, a: u64, b: u64)
    ensures
        next_state(Option::Some(a), title_pat, app_id_pat, (TrackerEvent::WindowClosed { id: a }))
            is None,
        b != a ==> next_state(
            Option::Some(a),
            title_pat,
            app_id_pat,
            (TrackerEvent::WindowClosed { id: b }),
        ) == Option::Some(a),
{
}

/// While a window is tracked, a focused workspace activation produces
/// exactly one move command — for the tracked window, to that workspace,
/// without shifting focus — and an unfocused activation produces none;
/// neither changes the state.
pub proof fn lemma_focused_workspace_moves_tracked(
    title_pat: Seq<char>,
    app_id_pat: Seq<char>,
    a: u64,
    w: u64,
)
    ensures
        command_for(Option::Some(a), (TrackerEvent::WorkspaceActivated { workspace: w, focused: true }))
            == Option::Some((MoveCommand { window_id: a, workspace_id: w, focus: false })),
        command_for(
            Option::Some(a),
            (TrackerEvent::WorkspaceActivated { workspace: w, focused: false }),
        ) is None,
        forall|f: bool|
            next_state(
                Option::Some(a),
                title_pat,
                app_id_pat,
                (TrackerEvent::WorkspaceActivated { workspace: w, focused: f }),
            ) == Option::Some(a),
{
}

/// While idle, workspace activations produce no command and change nothing.
pub proof fn lemma_idle_never_moves(title_pat: Seq<char>, app_id_pat: Seq<char>, w: u64, f: bool)
    ensures
        command_for(
            Option::<u64>::None,
            (TrackerEvent::WorkspaceActivated { workspace: w, focused: f }),
        ) is None,
        next_state(
            Option::None,
            title_pat,
            app_id_pat,
            (TrackerEvent::WorkspaceActivated { workspace: w, focused: f }),
        ) is None,
{
}

} // verus!

