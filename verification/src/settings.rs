use vstd::prelude::*;
use vstd::string::StringExecFns;

verus! {

/// The client's settings: the servers it talks to and what it notifies.
pub struct Settings {
    pub server: String,
    pub nexus_url: String,
    pub config_server: String,
    pub check_for_updates: bool,
    pub notify_sign_ins: bool,
    pub notify_added_by: bool,
}

pub ghost struct SettingsView {
    pub server: Seq<char>,
    pub nexus_url: Seq<char>,
    pub config_server: Seq<char>,
    pub check_for_updates: bool,
    pub notify_sign_ins: bool,
    pub notify_added_by: bool,
}

impl View for Settings {
    type V = SettingsView;

    open spec fn view(&self) -> SettingsView {
        SettingsView {
            server: self.server@,
            nexus_url: self.nexus_url@,
            config_server: self.config_server@,
            check_for_updates: self.check_for_updates,
            notify_sign_ins: self.notify_sign_ins,
            notify_added_by: self.notify_added_by,
        }
    }
}

/// The settings a new installation starts with.
pub open spec fn default_settings() -> SettingsView {
    SettingsView {
        server: "ms.msgrsvcs.ctsrv.gay"@,
        nexus_url: "https://pp.login.ugnet.gay/rdr/pprdr.asp"@,
        config_server: "https://conf.msgrsvcs.ctsrv.gay/Config/MsgrConfig.asmx"@,
        check_for_updates: true,
        notify_sign_ins: true,
        notify_added_by: true,
    }
}

impl Default for Settings {
    fn default() -> (s: Settings)
        ensures
            s@ == default_settings(),
    {
        Settings {
            server: String::from_str("ms.msgrsvcs.ctsrv.gay"),
            nexus_url: String::from_str("https://pp.login.ugnet.gay/rdr/pprdr.asp"),
            config_server: String::from_str(
                "https://conf.msgrsvcs.ctsrv.gay/Config/MsgrConfig.asmx",
            ),
            check_for_updates: true,
            notify_sign_ins: true,
            notify_added_by: true,
        }
    }
}

impl Settings {
    pub fn duplicate(&self) -> (r: Settings)
        ensures
            r@ == self@,
    {
        Settings {
            server: self.server.clone(),
            nexus_url: self.nexus_url.clone(),
            config_server: self.config_server.clone(),
            check_for_updates: self.check_for_updates,
            notify_sign_ins: self.notify_sign_ins,
            notify_added_by: self.notify_added_by,
        }
    }
}

} // verus!
