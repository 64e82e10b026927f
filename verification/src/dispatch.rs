use vstd::prelude::*;

use crate::signal::Signal;

verus! {

/// The allow-list: the identifiers of the application-defined menu
/// entries, as a mathematical set. It is a spec-level constant, fixed for
/// the life of the process; no executable code can add to it or remove
/// from it.
pub open spec fn allow_list() -> Set<Seq<char>> {
    set!["preferences"@, "sign_out"@]
}

/// Whether `id` is an allow-listed menu identifier.
pub open spec fn is_allowed(id: Seq<char>) -> bool {
    id == "preferences"@ || id == "sign_out"@
}

/// `is_allowed` decides exactly membership in the allow-list, and the
/// allow-list holds exactly the two application-defined identifiers:
/// it never grows or shrinks while the process runs.
pub proof fn lemma_allow_list_exact(id: Seq<char>)
    ensures
        is_allowed(id) <==> allow_list().contains(id),
        allow_list() == Set::empty().insert("preferences"@).insert("sign_out"@),
{
}

/// Character-for-character string equality, stated over the string views.
pub fn str_eq(a: &str, b: &str) -> (r: bool)
    ensures
        r == (a@ == b@),
{
    let a_len = a.unicode_len();
    let b_len = b.unicode_len();
    if a_len != b_len {
        return false;
    }
    let mut i: usize = 0;
    while i < a_len
        invariant
            a_len == a@.len(),
            a@.len() == b@.len(),
            i <= a_len,
            forall|j: int| 0 <= j < i ==> a@[j] == b@[j],
        decreases a_len - i,
    {
        if a.get_char(i) != b.get_char(i) {
            return false;
        }
        i = i + 1;
    }
    proof {
        assert(a@ =~= b@);
    }
    true
}

/// Validates that a menu event identifier is in the allow-list. This
/// rejects forged, future, or host-internal identifiers that were never
/// meant to trigger application behaviour.
pub fn is_valid_menu_id(id: &str) -> (r: bool)
    ensures
        r == is_allowed(id@),
{
    str_eq(id, "preferences") || str_eq(id, "sign_out")
}

/// The outcome of dispatching one menu-activation event: at most one
/// signal to emit, or a silent discard. Every discard is non-fatal; the
/// host keeps running whichever outcome comes back.
#[derive(Clone, Copy, Debug, PartialEq, Eq, Structural)]
pub enum MenuDispatch {
    /// The identifier is not allow-listed: discard silently.
    DiscardInvalidId,
    /// No window with the expected label exists (it may have closed
    /// between event generation and handling): discard silently.
    DiscardNoWindow,
    /// The resolved window's label is not the expected one (defence
    /// against misrouting in a multi-window extension): discard, worth
    /// logging distinctly from a missing window.
    DiscardWrongLabel,
    /// The identifier is allow-listed but has no handler: a deliberate
    /// no-op, so that future growth of the allow-list cannot silently
    /// misfire.
    DiscardUnhandled,
    /// Emit the signal to the main window.
    Emit(Signal),
}

/// The signal assigned to an allow-listed menu identifier, if a handler
/// exists for it.
pub open spec fn signal_for(id: Seq<char>) -> Option<Signal> {
    if id == "preferences"@ {
        Some(Signal::NavigateToPreferences)
    } else if id == "sign_out"@ {
        Some(Signal::SignOutUser)
    } else {
        None
    }
}

/// The label the dispatcher expects of the window it emits to.
pub open spec fn expected_label() -> Seq<char> {
    "main"@
}

/// The view of the resolved window's label, `None` when no window was
/// found.
pub open spec fn label_view(window_label: Option<&str>) -> Option<Seq<char>> {
    match window_label {
        Some(l) => Some(l@),
        None => None,
    }
}

/// What dispatching an identifier against a resolved window label must
/// decide: the two guards in order (allow-list, then target identity),
/// then the handler for the identifier.
pub open spec fn spec_dispatch(id: Seq<char>, window_label: Option<Seq<char>>) -> MenuDispatch {
    if !is_allowed(id) {
        MenuDispatch::DiscardInvalidId
    } else {
        match window_label {
            None => MenuDispatch::DiscardNoWindow,
            Some(label) => if label != expected_label() {
                MenuDispatch::DiscardWrongLabel
            } else {
                match signal_for(id) {
                    Some(s) => MenuDispatch::Emit(s),
                    None => MenuDispatch::DiscardUnhandled,
                }
            },
        }
    }
}

/// The signal an outcome emits, if any.
pub open spec fn emitted(d: MenuDispatch) -> Option<Signal> {
    match d {
        MenuDispatch::Emit(s) => Some(s),
        _ => None,
    }
}

/// Dispatches one menu-activation event.
///
/// `id` is the untrusted identifier the native menu system delivered;
/// `window_label` is the label of the window the host resolved for the
/// event, or `None` when no window was found. The caller emits the signal
/// of an `Emit` outcome to the main window and does nothing otherwise.
pub fn dispatch_menu_event(id: &str, window_label: Option<&str>) -> (d: MenuDispatch)
    ensures
        d == spec_dispatch(id@, label_view(window_label)),
{
    if !is_valid_menu_id(id) {
        return MenuDispatch::DiscardInvalidId;
    }
    match window_label {
        None => MenuDispatch::DiscardNoWindow,
        Some(label) => {
            if !str_eq(label, "main") {
                MenuDispatch::DiscardWrongLabel
            } else if str_eq(id, "preferences") {
                MenuDispatch::Emit(Signal::NavigateToPreferences)
            } else if str_eq(id, "sign_out") {
                MenuDispatch::Emit(Signal::SignOutUser)
            } else {
                MenuDispatch::DiscardUnhandled
            }
        },
    }
}

/// Decides the explicit sign-out command: it always emits the `sign-out`
/// signal to the invoking window, whatever the allow-list holds, because
/// the caller is the trusted front end, not an untrusted native event.
/// A failed emission is non-fatal; the caller logs it and continues.
pub fn sign_out_command() -> (s: Signal)
    ensures
        s == Signal::SignOut,
{
    Signal::SignOut
}

/// An identifier outside the allow-list is discarded and never causes an
/// emission, whatever window was resolved.
pub proof fn lemma_unlisted_never_emits(id: Seq<char>, window_label: Option<Seq<char>>)
    requires
        !is_allowed(id),
    ensures
        spec_dispatch(id, window_label) == MenuDispatch::DiscardInvalidId,
        emitted(spec_dispatch(id, window_label)) is None,
{
}

/// When no window was resolved, no identifier causes an emission.
pub proof fn lemma_missing_window_never_emits(id: Seq<char>)
    ensures
        emitted(spec_dispatch(id, None)) is None,
{
}

/// A window labelled anything but the expected label never receives an
/// emission.
pub proof fn lemma_wrong_label_never_emits(id: Seq<char>, label: Seq<char>)
    requires
        label != expected_label(),
    ensures
        emitted(spec_dispatch(id, Some(label))) is None,
{
}

/// Against the window with the expected label, each allow-listed
/// identifier emits exactly the one signal assigned to it, and nothing
/// else is ever emitted.
pub proof fn lemma_emission_exact(id: Seq<char>, window_label: Option<Seq<char>>)
    ensures
        emitted(spec_dispatch(id, window_label)) == (if is_allowed(id) && window_label
            == Some(expected_label()) {
            signal_for(id)
        } else {
            None::<Signal>
        }),
{
}

} // verus!
