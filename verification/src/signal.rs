use vstd::prelude::*;

verus! {

/// A named, payload-less message emitted from the native shell to the web
/// front end's event bus. Delivery is fire-and-forget: best effort, no
/// acknowledgement, no retry.
#[derive(Clone, Copy, Debug, PartialEq, Eq, Structural)]
pub enum Signal {
    /// Asks the front end to open the preferences page (menu path).
    NavigateToPreferences,
    /// Asks the front end to sign the user out (menu path).
    SignOutUser,
    /// Asks the front end to sign the user out (explicit command path).
    SignOut,
}

impl Signal {
    /// The name under which the signal travels on the event bus.
    pub open spec fn spec_name(self) -> Seq<char> {
        match self {
            Signal::NavigateToPreferences => "navigate-to-preferences"@,
            Signal::SignOutUser => "sign-out-user"@,
            Signal::SignOut => "sign-out"@,
        }
    }

    /// Returns the event-bus name of this signal.
    pub fn name(&self) -> (s: String)
        ensures
            s@ == self.spec_name(),
    {
        match self {
            Signal::NavigateToPreferences => "navigate-to-preferences".to_owned(),
            Signal::SignOutUser => "sign-out-user".to_owned(),
            Signal::SignOut => "sign-out".to_owned(),
        }
    }
}

} // verus!
