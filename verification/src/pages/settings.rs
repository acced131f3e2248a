//! The settings page's tabs.
use vstd::prelude::*;

verus! {

/// The settings panels.
#[derive(Debug, Clone, Copy, PartialEq, Eq, Structural)]
pub enum SettingsTab {
    Profile,
    Notifications,
    Preferences,
    Content,
    Deactivate,
}

impl SettingsTab {
    /// The menu label of a tab; the deactivation panel is reached through
    /// its own link and has no menu entry.
    pub fn menu_label(&self) -> (r: Option<&'static str>)
        ensures
            match *self {
                SettingsTab::Profile => r matches Some(l) && l@ == "Profile Settings"@,
                SettingsTab::Notifications => r matches Some(l) && l@ == "Notification Settings"@,
                SettingsTab::Preferences => r matches Some(l) && l@ == "Preferences"@,
                SettingsTab::Content => r matches Some(l) && l@ == "Content Settings"@,
                SettingsTab::Deactivate => r is None,
            },
    {
        match self {
            SettingsTab::Profile => Some("Profile Settings"),
            SettingsTab::Notifications => Some("Notification Settings"),
            SettingsTab::Preferences => Some("Preferences"),
            SettingsTab::Content => Some("Content Settings"),
            SettingsTab::Deactivate => None,
        }
    }
}

/// The tab shown when a panel's back button is pressed: the profile tab.
pub fn back_tab() -> (r: SettingsTab)
    ensures
        r == SettingsTab::Profile,
{
    SettingsTab::Profile
}

/// Tabs of the referral board.
#[derive(Debug, Clone, Copy, PartialEq, Eq, Structural)]
pub enum ReferralTab {
    Invited,
    Inviter,
}

impl Default for ReferralTab {
    fn default() -> (r: Self)
        ensures
            r == ReferralTab::Invited,
    {
        ReferralTab::Invited
    }
}

} // verus!
