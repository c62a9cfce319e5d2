use vstd::prelude::*;

use crate::text::str_eq;

verus! {

/// How the ERP page is reloaded.
#[derive(Debug, Clone, Copy, PartialEq, Eq, Structural)]
pub enum Reload {
    /// An ordinary reload.
    Soft,
    /// Navigate to the current address again (a reload that skips the cache).
    Hard,
}

/// The reload a menu item asks for: the tray's and the View menu's reload
/// items reload the ERP page, the View menu's hard reload reloads it hard.
pub fn reload_for_menu_id(id: &str) -> (r: Option<Reload>)
    ensures
        r == if id@ == "reload_erp"@ || id@ == "view_reload_erp"@ || id@ == "view_reload_erp_f5"@ {
            Some(Reload::Soft)
        } else if id@ == "view_hard_reload_erp"@ {
            Some(Reload::Hard)
        } else {
            None
        },
{
    if str_eq(id, "reload_erp") || str_eq(id, "view_reload_erp") || str_eq(id, "view_reload_erp_f5") {
        Some(Reload::Soft)
    } else if str_eq(id, "view_hard_reload_erp") {
        Some(Reload::Hard)
    } else {
        None
    }
}

/// What a tray menu item does.
#[derive(Debug, Clone, Copy, PartialEq, Eq, Structural)]
pub enum TrayCommand {
    /// Show and focus the ERP window.
    OpenErp,
    /// Reload the ERP page.
    ReloadErp,
    /// Show and focus the tracker window.
    OpenTracker,
    /// Quit the app.
    Quit,
}

/// The command of a tray menu item, if it has one.
pub fn tray_command(id: &str) -> (r: Option<TrayCommand>)
    ensures
        r == if id@ == "open_erp"@ {
            Some(TrayCommand::OpenErp)
        } else if id@ == "reload_erp"@ {
            Some(TrayCommand::ReloadErp)
        } else if id@ == "open_tracker"@ {
            Some(TrayCommand::OpenTracker)
        } else if id@ == "quit"@ {
            Some(TrayCommand::Quit)
        } else {
            None
        },
{
    if str_eq(id, "open_erp") {
        Some(TrayCommand::OpenErp)
    } else if str_eq(id, "reload_erp") {
        Some(TrayCommand::ReloadErp)
    } else if str_eq(id, "open_tracker") {
        Some(TrayCommand::OpenTracker)
    } else if str_eq(id, "quit") {
        Some(TrayCommand::Quit)
    } else {
        None
    }
}

} // verus!
