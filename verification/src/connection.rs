//! The connect button of the main window: whether the window is connected
//! to the port typed by the user, and what each press of the button does.

use vstd::prelude::*;
use crate::config::{ColorTheme, action_class_of};

verus! {

/// What the window does in answer to a press of the connect button.
#[derive(Clone, Copy, Debug, PartialEq, Eq, Structural)]
pub enum ConnectAction {
    /// Open the port at the path typed in the port entry.
    OpenEnteredPort,
    /// Reopen the placeholder pseudo-terminal that stands in for a device.
    OpenPlaceholderPort,
    /// Reveal the banner that says the typed path was not found.
    RevealMissingPathBanner,
}

/// The connection state and the action after a press of the connect button,
/// given whether the window was connected and whether the typed path exists.
pub open spec fn after_click(connected: bool, entered_path_exists: bool) -> (bool, ConnectAction) {
    if connected {
        (false, ConnectAction::OpenPlaceholderPort)
    } else if entered_path_exists {
        (true, ConnectAction::OpenEnteredPort)
    } else {
        (false, ConnectAction::RevealMissingPathBanner)
    }
}

/// Text of the connect button while the window is, or is not, connected.
pub open spec fn button_label_of(connected: bool) -> Seq<char> {
    if connected {
        "Disconnect"@
    } else {
        "Connect"@
    }
}

/// CSS class of the connect button while the window is, or is not,
/// connected, under colour scheme `theme`.
pub open spec fn button_class_of(connected: bool, theme: ColorTheme) -> Seq<char> {
    if connected {
        "destructive-action"@
    } else {
        action_class_of(theme)
    }
}

/// Whether the main window is connected to the port the user typed in.
pub struct ConnectionState {
    connected: bool,
}

impl View for ConnectionState {
    type V = bool;

    closed spec fn view(&self) -> bool {
        self.connected
    }
}

impl ConnectionState {
    /// A window that starts out on the placeholder port, not connected.
    pub fn new() -> (state: Self)
        ensures
            !state@,
    {
        ConnectionState { connected: false }
    }

    /// Whether the window is connected to the typed port.
    pub fn is_connected(&self) -> (connected: bool)
        ensures
            connected == self@,
    {
        self.connected
    }

    /// Handles a press of the connect button. A connected window goes back to
    /// the placeholder port; otherwise it connects to the typed path if that
    /// path exists, and else only reveals the missing-path banner.
    pub fn click(&mut self, entered_path_exists: bool) -> (action: ConnectAction)
        ensures
            (final(self)@, action) == after_click(old(self)@, entered_path_exists),
    {
        if self.connected {
            self.connected = false;
            ConnectAction::OpenPlaceholderPort
        } else if entered_path_exists {
            self.connected = true;
            ConnectAction::OpenEnteredPort
        } else {
            ConnectAction::RevealMissingPathBanner
        }
    }
}

/// Text of the connect button while the window is, or is not, connected.
pub fn connect_button_label(connected: bool) -> (label: &'static str)
    ensures
        label@ == button_label_of(connected),
{
    if connected {
        "Disconnect"
    } else {
        "Connect"
    }
}

/// CSS class of the connect button while the window is, or is not, connected.
pub fn connect_button_class(connected: bool, theme: ColorTheme) -> (class: &'static str)
    ensures
        class@ == button_class_of(connected, theme),
{
    if connected {
        "destructive-action"
    } else {
        theme.action_class()
    }
}

/// A press that finds the window disconnected and the typed path missing
/// changes nothing but revealing the banner.
pub proof fn refused_click_changes_nothing(connected: bool, entered_path_exists: bool)
    requires
        !connected,
        !entered_path_exists,
    ensures
        after_click(connected, entered_path_exists) == (connected, ConnectAction::RevealMissingPathBanner),
{
}

/// After any press the window is connected exactly when that press opened
/// the typed port.
pub proof fn connected_iff_entered_port_opened(connected: bool, entered_path_exists: bool)
    ensures
        after_click(connected, entered_path_exists).0 <==> after_click(connected, entered_path_exists).1
            == ConnectAction::OpenEnteredPort,
{
}

/// Connecting and then disconnecting, or disconnecting and then connecting
/// while the typed path exists, returns the window to the state it started in.
pub proof fn two_clicks_restore_state(connected: bool, first_exists: bool, second_exists: bool)
    requires
        connected ==> second_exists,
        !connected ==> first_exists,
    ensures
        after_click(after_click(connected, first_exists).0, second_exists).0 == connected,
{
}

/// The button offers to disconnect exactly while the window is connected.
pub proof fn label_offers_opposite_action(connected: bool)
    ensures
        button_label_of(connected) == "Disconnect"@ <==> connected,
{
    reveal_strlit("Disconnect");
    reveal_strlit("Connect");
    if !connected {
        assert(button_label_of(connected).len() != "Disconnect"@.len());
    }
}

/// The button wears the destructive style exactly while the window is
/// connected, whatever the colour scheme.
pub proof fn destructive_style_iff_connected(connected: bool, theme: ColorTheme)
    ensures
        button_class_of(connected, theme) == "destructive-action"@ <==> connected,
{
    reveal_strlit("destructive-action");
    reveal_strlit("suggested-action");
    reveal_strlit("yel");
    if !connected {
        assert(button_class_of(connected, theme).len() != "destructive-action"@.len());
    }
}

/// Pressing the button while connected always disconnects and reopens the
/// placeholder port, whether or not the typed path still exists.
pub proof fn disconnect_ignores_typed_path(entered_path_exists: bool)
    ensures
        after_click(true, entered_path_exists) == (false, ConnectAction::OpenPlaceholderPort),
        after_click(true, true) == after_click(true, false),
{
}

/// Pressing the button while disconnected opens the typed port when its
/// path exists, and otherwise only reveals the banner; it never reopens
/// the placeholder port.
pub proof fn connect_depends_only_on_typed_path(entered_path_exists: bool)
    ensures
        entered_path_exists ==> after_click(false, entered_path_exists) == (true, ConnectAction::OpenEnteredPort),
        !entered_path_exists ==> after_click(false, entered_path_exists) == (false, ConnectAction::RevealMissingPathBanner),
        after_click(false, entered_path_exists).1 != ConnectAction::OpenPlaceholderPort,
{
}

/// The placeholder port is reopened exactly on the presses that find the
/// window connected.
pub proof fn placeholder_reopened_iff_was_connected(connected: bool, entered_path_exists: bool)
    ensures
        after_click(connected, entered_path_exists).1 == ConnectAction::OpenPlaceholderPort <==> connected,
        after_click(connected, entered_path_exists).1 == ConnectAction::RevealMissingPathBanner
            <==> (!connected && !entered_path_exists),
{
}

} // verus!
