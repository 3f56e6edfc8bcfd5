use crate::models::common::opt_view;
use crate::settings::{default_settings, Settings, SettingsView};
use crate::text::{spec_trim, trim};
use vstd::prelude::*;
use vstd::string::StringExecFns;

verus! {

/// The tabs of the personal settings window.
#[derive(Debug, Clone, Copy, PartialEq, Eq, Structural)]
pub enum SelectedTab {
    General,
    Privacy,
}

/// The personal settings window: the settings being edited, the user's
/// display name (when signed in) and the privacy choice.
pub struct PersonalSettings {
    pub display_name: Option<String>,
    pub server: String,
    pub nexus_url: String,
    pub config_server: String,
    pub check_for_updates: bool,
    pub notify_sign_ins: bool,
    pub notify_added_by: bool,
    pub only_in_contact_list: bool,
    pub selected_tab: SelectedTab,
    pub selected_contact: Option<String>,
}

/// The value of the privacy setting sent to the server: "BL" when only the
/// allow list may see the user, else "AL".
pub open spec fn blp_value(only_in_contact_list: bool) -> Seq<char> {
    if only_in_contact_list {
        "BL"@
    } else {
        "AL"@
    }
}

/// The privacy value restricts the user to the allow list ("BL") exactly
/// when only contacts on the list may see the user, and otherwise lets
/// everyone not blocked see them ("AL"); the two choices never send the same
/// value.
pub proof fn lemma_blp_value(only_in_contact_list: bool)
    ensures
        (blp_value(only_in_contact_list) == "BL"@) <==> only_in_contact_list,
        (blp_value(only_in_contact_list) == "AL"@) <==> !only_in_contact_list,
        blp_value(true) != blp_value(false),
{
    reveal_strlit("BL");
    reveal_strlit("AL");
    assert("BL"@[0] != "AL"@[0]);
}

impl PersonalSettings {
    /// The settings as the window would save them.
    pub open spec fn spec_settings(self) -> SettingsView {
        SettingsView {
            server: self.server@,
            nexus_url: self.nexus_url@,
            config_server: self.config_server@,
            check_for_updates: self.check_for_updates,
            notify_sign_ins: self.notify_sign_ins,
            notify_added_by: self.notify_added_by,
        }
    }

    /// The window opens on the general tab with the saved settings; the
    /// privacy choice is the one the server reported, if any.
    pub fn new(display_name: Option<String>, settings: Settings, blp_bl: Option<bool>) -> (p:
        PersonalSettings)
        ensures
            opt_view(p.display_name) == opt_view(display_name),
            p.spec_settings() == settings@,
            p.only_in_contact_list == (blp_bl == Some(true)),
            p.selected_tab == SelectedTab::General,
            p.selected_contact is None,
    {
        PersonalSettings {
            display_name,
            server: settings.server,
            nexus_url: settings.nexus_url,
            config_server: settings.config_server,
            check_for_updates: settings.check_for_updates,
            notify_sign_ins: settings.notify_sign_ins,
            notify_added_by: settings.notify_added_by,
            only_in_contact_list: match blp_bl {
                Some(b) => b,
                None => false,
            },
            selected_tab: SelectedTab::General,
            selected_contact: None,
        }
    }

    fn current(&self) -> (s: Settings)
        ensures
            s@ == self.spec_settings(),
    {
        Settings {
            server: self.server.clone(),
            nexus_url: self.nexus_url.clone(),
            config_server: self.config_server.clone(),
            check_for_updates: self.check_for_updates,
            notify_sign_ins: self.notify_sign_ins,
            notify_added_by: self.notify_added_by,
        }
    }

    /// "Save" on the general tab: the server and Nexus addresses lose their
    /// surrounding white space; the result is the settings to save and, when
    /// the user is signed in (`signed_in`) and has a display name, the
    /// display name to set.
    pub fn save_general(&mut self, signed_in: bool) -> (r: (Settings, Option<String>))
        ensures
            *final(self) == (PersonalSettings { server: final(self).server, nexus_url: final(self).nexus_url, ..*old(self) }),
            final(self).server@ == spec_trim(old(self).server@),
            final(self).nexus_url@ == spec_trim(old(self).nexus_url@),
            final(self).config_server == old(self).config_server,
            final(self).display_name == old(self).display_name,
            r.0@ == final(self).spec_settings(),
            signed_in && old(self).display_name is Some ==> opt_view(r.1) == opt_view(
                old(self).display_name,
            ),
            !(signed_in && old(self).display_name is Some) ==> r.1 is None,
    {
        self.server = trim(self.server.as_str());
        self.nexus_url = trim(self.nexus_url.as_str());
        let settings = self.current();
        let display_name = if signed_in {
            match &self.display_name {
                Some(d) => Some(d.clone()),
                None => None,
            }
        } else {
            None
        };
        (settings, display_name)
    }

    /// "Restore Defaults" on the general tab: everything but the notice of
    /// being added by someone goes back to its default.
    pub fn restore_general_defaults(&mut self)
        ensures
            *final(self) == (PersonalSettings { server: final(self).server, nexus_url: final(self).nexus_url, config_server: final(self).config_server, check_for_updates: final(self).check_for_updates, notify_sign_ins: final(self).notify_sign_ins, ..*old(self) }),
            final(self).server@ == default_settings().server,
            final(self).nexus_url@ == default_settings().nexus_url,
            final(self).config_server@ == default_settings().config_server,
            final(self).check_for_updates == default_settings().check_for_updates,
            final(self).notify_sign_ins == default_settings().notify_sign_ins,
            final(self).notify_added_by == old(self).notify_added_by,
            final(self).only_in_contact_list == old(self).only_in_contact_list,
            final(self).display_name == old(self).display_name,
    {
        let defaults = Settings::default();
        self.server = defaults.server;
        self.nexus_url = defaults.nexus_url;
        self.config_server = defaults.config_server;
        self.check_for_updates = defaults.check_for_updates;
        self.notify_sign_ins = defaults.notify_sign_ins;
    }

    /// "Save" on the privacy tab: the result is the settings to save and,
    /// when the user is signed in, the privacy value to send.
    pub fn save_privacy(&self, signed_in: bool) -> (r: (Settings, Option<String>))
        ensures
            r.0@ == self.spec_settings(),
            signed_in ==> opt_view(r.1) == Some(blp_value(self.only_in_contact_list)),
            !signed_in ==> r.1 is None,
    {
        let blp = if signed_in {
            Some(
                if self.only_in_contact_list {
                    String::from_str("BL")
                } else {
                    String::from_str("AL")
                },
            )
        } else {
            None
        };
        (self.current(), blp)
    }

    /// "Restore Defaults" on the privacy tab.
    pub fn restore_privacy_defaults(&mut self)
        ensures
            *final(self) == (PersonalSettings { notify_added_by: final(self).notify_added_by, ..*old(self) }),
            final(self).notify_added_by == default_settings().notify_added_by,
            final(self).spec_settings() == (SettingsView {
                notify_added_by: default_settings().notify_added_by,
                ..old(self).spec_settings()
            }),
            final(self).only_in_contact_list == old(self).only_in_contact_list,
    {
        let defaults = Settings::default();
        self.notify_added_by = defaults.notify_added_by;
    }

    /// Switching tabs.
    pub fn select_tab(&mut self, tab: SelectedTab)
        ensures
            *final(self) == (PersonalSettings { selected_tab: final(self).selected_tab, ..*old(self) }),
            final(self).selected_tab == tab,
            final(self).spec_settings() == old(self).spec_settings(),
    {
        self.selected_tab = tab;
    }
}

} // verus!
