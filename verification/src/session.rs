//! The interactive settings-menu session: a bounded wait loop over UI
//! component interactions tied to one sent message. The transient selection
//! state of all concurrently open sessions lives in one shared concurrent
//! map keyed by message and user identity, and each session's entry is
//! removed when its wait loop ends. The waiting itself suspends outside this
//! crate; every decision the loop takes is here.

use vstd::prelude::*;

verus! {

use crate::language::Language;
use crate::text::str_eq;

#[verifier::external_type_specification]
#[verifier::external_body]
#[verifier::reject_recursive_types(K)]
#[verifier::reject_recursive_types(V)]
#[verifier::reject_recursive_types(S)]
pub struct ExDashMap<K, V, S>(dashmap::DashMap<K, V, S>);

/// The selection state of all open sessions, shared across concurrent
/// invocations. Two different messages or users never collide: their keys
/// differ.
pub struct SelectionMap {
    inner: dashmap::DashMap<(u64, u64), String>,
}

/// What the concurrent map holds: the chosen option text for each open
/// session, keyed by message and user identity.
pub uninterp spec fn selection_entries(m: SelectionMap) -> Map<(u64, u64), Seq<char>>;

impl SelectionMap {
    /// Relies on `dashmap::DashMap::new` creating a map with no entries.
    #[verifier::external_body]
    pub fn new() -> (r: Self)
        ensures
            forall|k: (u64, u64)| !selection_entries(r).contains_key(k),
    {
        SelectionMap { inner: dashmap::DashMap::new() }
    }

    /// Relies on `dashmap::DashMap::insert` mapping the key to the new
    /// value, replacing any earlier one.
    #[verifier::external_body]
    pub fn insert(&mut self, message_id: u64, user_id: u64, value: String)
        ensures
            selection_entries(*final(self)) == selection_entries(*old(self)).insert(
                (message_id, user_id),
                value@,
            ),
    {
        let _ = self.inner.insert((message_id, user_id), value);
    }

    /// Relies on `dashmap::DashMap::get` returning the value stored under
    /// the key, if any.
    #[verifier::external_body]
    pub fn get(&self, message_id: u64, user_id: u64) -> (r: Option<String>)
        ensures
            match r {
                Some(v) => selection_entries(*self).contains_key((message_id, user_id)) && v@
                    == selection_entries(*self)[(message_id, user_id)],
                None => !selection_entries(*self).contains_key((message_id, user_id)),
            },
    {
        self.inner.get(&(message_id, user_id)).map(|entry| entry.value().clone())
    }

    /// Relies on `dashmap::DashMap::remove` deleting the entry under the
    /// key, if any.
    #[verifier::external_body]
    pub fn remove(&mut self, message_id: u64, user_id: u64)
        ensures
            selection_entries(*final(self)) == selection_entries(*old(self)).remove(
                (message_id, user_id),
            ),
    {
        let _ = self.inner.remove(&(message_id, user_id));
    }
}

/// How long, in seconds, each wait for an interaction lasts before the
/// session's wait loop gives up.
pub const SESSION_TIMEOUT_SECS: u64 = 120;

/// Where one settings-menu session stands.
#[derive(Debug, Clone, Copy, PartialEq, Eq, Structural)]
pub enum SessionState {
    /// The top-level menu, view button and edit button are shown.
    AwaitingTopLevelChoice,
    /// The menu of valid values for the selected setting is shown.
    AwaitingValueChoice,
    /// The wait loop has exited; the session takes no further events.
    Ended,
}

/// One interaction delivered to the session, or the end of its wait window.
#[derive(Debug)]
pub enum SessionEvent {
    /// The select menu of the current state delivered a chosen option.
    MenuSelect(String),
    /// The view button was pressed.
    ViewButton,
    /// The edit button was pressed.
    EditButton,
    /// The wait window elapsed with no interaction.
    Timeout,
}

/// What the caller must do after one step; every store write and map change
/// the step itself makes has already happened.
#[derive(Debug, PartialEq, Eq, Structural)]
pub enum SessionAction {
    /// Acknowledge the interaction; the selection is now stored.
    Acknowledge,
    /// Report the language setting and its current value.
    ShowLanguageSetting,
    /// Tell the user that nothing is selected yet.
    ReportNoSelection,
    /// Present the menu of valid language values.
    PresentLanguageValues,
    /// Persist this language for the user and confirm the edit.
    UpdateLanguage(Language),
    /// Keep waiting at the top-level menu.
    KeepWaiting,
    /// The session's entry is removed and its wait loop is over.
    EndSession,
    /// The event names a component this session never created or a value its
    /// menus never offer: an internal invariant is broken; fail loudly.
    FailInvalidInteraction,
}

/// Take one step of the session state machine. The selection map is read and
/// written only under this session's own key.
pub fn session_step(
    state: SessionState,
    event: SessionEvent,
    selections: &mut SelectionMap,
    message_id: u64,
    user_id: u64,
) -> (r: (SessionState, SessionAction))
    ensures
        ({
            let (next, action) = r;
            let k = (message_id, user_id);
            let entries0 = selection_entries(*old(selections));
            let entries1 = selection_entries(*final(selections));
            match (state, event) {
                (SessionState::AwaitingTopLevelChoice, SessionEvent::MenuSelect(v)) => next
                    == SessionState::AwaitingTopLevelChoice && action == SessionAction::Acknowledge
                    && entries1 == entries0.insert(k, v@),
                (SessionState::AwaitingTopLevelChoice, SessionEvent::ViewButton) => entries1
                    == entries0 && next == SessionState::AwaitingTopLevelChoice && (
                if entries0.contains_key(k) {
                    if entries0[k] == "language"@ {
                        action == SessionAction::ShowLanguageSetting
                    } else {
                        action == SessionAction::FailInvalidInteraction
                    }
                } else {
                    action == SessionAction::ReportNoSelection
                }),
                (SessionState::AwaitingTopLevelChoice, SessionEvent::EditButton) => entries1
                    == entries0 && (
                if entries0.contains_key(k) {
                    if entries0[k] == "language"@ {
                        next == SessionState::AwaitingValueChoice && action
                            == SessionAction::PresentLanguageValues
                    } else {
                        next == SessionState::AwaitingTopLevelChoice && action
                            == SessionAction::FailInvalidInteraction
                    }
                } else {
                    next == SessionState::AwaitingTopLevelChoice && action
                        == SessionAction::ReportNoSelection
                }),
                (SessionState::AwaitingTopLevelChoice, SessionEvent::Timeout) => next
                    == SessionState::Ended && action == SessionAction::EndSession && entries1
                    == entries0.remove(k),
                (SessionState::AwaitingValueChoice, SessionEvent::MenuSelect(v)) => entries1
                    == entries0 && next == SessionState::AwaitingValueChoice && (
                if v@ == "en"@ {
                    action == SessionAction::UpdateLanguage(Language::English)
                } else if v@ == "es"@ {
                    action == SessionAction::UpdateLanguage(Language::Spanish)
                } else {
                    action == SessionAction::FailInvalidInteraction
                }),
                (SessionState::AwaitingValueChoice, SessionEvent::Timeout) => entries1 == entries0
                    && next == SessionState::AwaitingTopLevelChoice && action
                    == SessionAction::KeepWaiting,
                (SessionState::AwaitingValueChoice, _) => entries1 == entries0 && next
                    == SessionState::AwaitingValueChoice && action
                    == SessionAction::FailInvalidInteraction,
                (SessionState::Ended, _) => entries1 == entries0 && next == SessionState::Ended
                    && action == SessionAction::FailInvalidInteraction,
            }
        }),
{
    match state {
        SessionState::AwaitingTopLevelChoice => match event {
            SessionEvent::MenuSelect(v) => {
                selections.insert(message_id, user_id, v);
                (SessionState::AwaitingTopLevelChoice, SessionAction::Acknowledge)
            },
            SessionEvent::ViewButton => {
                let action = match selections.get(message_id, user_id) {
                    Some(v) => {
                        if str_eq(v.as_str(), "language") {
                            SessionAction::ShowLanguageSetting
                        } else {
                            SessionAction::FailInvalidInteraction
                        }
                    },
                    None => SessionAction::ReportNoSelection,
                };
                (SessionState::AwaitingTopLevelChoice, action)
            },
            SessionEvent::EditButton => {
                match selections.get(message_id, user_id) {
                    Some(v) => {
                        if str_eq(v.as_str(), "language") {
                            (SessionState::AwaitingValueChoice, SessionAction::PresentLanguageValues)
                        } else {
                            (
                                SessionState::AwaitingTopLevelChoice,
                                SessionAction::FailInvalidInteraction,
                            )
                        }
                    },
                    None => (
                        SessionState::AwaitingTopLevelChoice,
                        SessionAction::ReportNoSelection,
                    ),
                }
            },
            SessionEvent::Timeout => {
                selections.remove(message_id, user_id);
                (SessionState::Ended, SessionAction::EndSession)
            },
        },
        SessionState::AwaitingValueChoice => match event {
            SessionEvent::MenuSelect(v) => {
                let action = match Language::from_storage_code(v.as_str()) {
                    Some(l) => SessionAction::UpdateLanguage(l),
                    None => SessionAction::FailInvalidInteraction,
                };
                (SessionState::AwaitingValueChoice, action)
            },
            SessionEvent::Timeout => (
                SessionState::AwaitingTopLevelChoice,
                SessionAction::KeepWaiting,
            ),
            _ => (SessionState::AwaitingValueChoice, SessionAction::FailInvalidInteraction),
        },
        SessionState::Ended => (SessionState::Ended, SessionAction::FailInvalidInteraction),
    }
}

/// A session that times out at the top level ends, and its selection entry
/// is gone from the shared map, whatever it held before.
pub proof fn lemma_timeout_cleans_up(
    entries0: Map<(u64, u64), Seq<char>>,
    entries1: Map<(u64, u64), Seq<char>>,
    message_id: u64,
    user_id: u64,
)
    requires
        entries1 == entries0.remove((message_id, user_id)),
    ensures
        !entries1.contains_key((message_id, user_id)),
        forall|k: (u64, u64)| k != (message_id, user_id) && entries0.contains_key(k)
            ==> entries1.contains_key(k) && entries1[k] == entries0[k],
{
}

} // verus!
