use vstd::prelude::*;
use vstd::string::*;

use crate::error::InstallError;

verus! {

/// Number of characters of the origin's scheme prefix (as in `app://`),
/// which the application's identity leaves out.
pub const SCHEME_PREFIX_LEN: usize = 6;

/// The fields of an application manifest that installation reads.
#[derive(Clone, Debug)]
pub struct Manifest {
    pub name: String,
    pub version: String,
    pub origin: String,
}

/// Placeholder for an application's additional languages: empty at install.
#[derive(Clone, Copy, Debug, PartialEq, Eq, Structural)]
pub struct AdditionalLanguages {}

/// One installed application, as the registry records it.
#[derive(Clone, Debug)]
pub struct RegistryEntry {
    pub origin: String,
    pub install_origin: String,
    pub manifest_url: String,
    pub app_status: i32,
    pub receipts: Vec<String>,
    pub kind: String,
    pub install_time: u128,
    pub install_state: String,
    pub removable: bool,
    pub id: String,
    pub base_path: String,
    pub local_id: i64,
    pub sideloaded: bool,
    pub enabled: bool,
    pub blocked_status: i32,
    pub name: String,
    pub csp: String,
    pub role: String,
    pub redirects: Option<String>,
    pub widget_pages: Vec<String>,
    pub user_agent_info: String,
    pub installer_app_id: i32,
    pub installer_is_browser: bool,
    pub store_id: String,
    pub store_version: i32,
    pub downloading: bool,
    pub ready_to_apply_download: bool,
    pub old_version: String,
    pub additional_languages: AdditionalLanguages,
}

/// The identity of an application whose manifest has this origin: the
/// origin without its scheme prefix.
pub open spec fn identity_of(origin: Seq<char>) -> Seq<char> {
    origin.skip(SCHEME_PREFIX_LEN as int)
}

/// An origin leaves an identity when it is longer than the scheme prefix.
pub open spec fn origin_has_identity(origin: Seq<char>) -> bool {
    origin.len() > SCHEME_PREFIX_LEN
}

/// The status code of an installed application.
pub const INSTALLED_STATUS: i32 = 3;

/// `e` is the entry of a fresh install of the application `m` under the
/// identity `id`, with the local id, registry root and install time given.
pub open spec fn is_fresh_entry(
    e: RegistryEntry,
    m: Manifest,
    id: Seq<char>,
    local_id: i64,
    base_path: Seq<char>,
    install_time: u128,
) -> bool {
    &&& e.origin@ == m.origin@
    &&& e.install_origin@ == m.origin@
    &&& e.manifest_url@ == m.origin@ + "/manifest.webapp"@
    &&& e.app_status == INSTALLED_STATUS
    &&& e.receipts@.len() == 0
    &&& e.kind@ == "packaged"@
    &&& e.install_time == install_time
    &&& e.install_state@ == "installed"@
    &&& e.removable
    &&& e.id@ == id
    &&& e.base_path@ == base_path
    &&& e.local_id == local_id
    &&& !e.sideloaded
    &&& e.enabled
    &&& e.blocked_status == 0
    &&& e.name@ == m.name@
    &&& e.csp@.len() == 0
    &&& e.role@.len() == 0
    &&& e.redirects is None
    &&& e.widget_pages@.len() == 0
    &&& e.user_agent_info@.len() == 0
    &&& e.installer_app_id == 0
    &&& !e.installer_is_browser
    &&& e.store_id@.len() == 0
    &&& e.store_version == 0
    &&& !e.downloading
    &&& !e.ready_to_apply_download
    &&& e.old_version@ == m.version@
}

/// The identity of the application whose manifest has this origin: the
/// characters after the scheme prefix. An origin no longer than the prefix
/// leaves no identity and is refused.
pub fn app_id(origin: &str) -> (r: Result<String, InstallError>)
    ensures
        match r {
            Ok(id) => origin_has_identity(origin@) && id@ == identity_of(origin@),
            Err(e) => !origin_has_identity(origin@) && e == InstallError::InvalidOrigin,
        },
{
    let n = origin.unicode_len();
    if n <= SCHEME_PREFIX_LEN {
        Err(InstallError::InvalidOrigin)
    } else {
        let rest = origin.substring_char(SCHEME_PREFIX_LEN, n);
        Ok(rest.to_owned())
    }
}

/// The registry entry of a fresh install of `manifest` under `id`.
pub fn build_entry(
    manifest: &Manifest,
    id: &str,
    local_id: i64,
    base_path: &str,
    install_time: u128,
) -> (r: RegistryEntry)
    ensures
        is_fresh_entry(r, *manifest, id@, local_id, base_path@, install_time),
{
    RegistryEntry {
        origin: manifest.origin.clone(),
        install_origin: manifest.origin.clone(),
        manifest_url: manifest.origin.clone().concat("/manifest.webapp"),
        app_status: INSTALLED_STATUS,
        receipts: Vec::new(),
        kind: "packaged".to_owned(),
        install_time,
        install_state: "installed".to_owned(),
        removable: true,
        id: id.to_owned(),
        base_path: base_path.to_owned(),
        local_id,
        sideloaded: false,
        enabled: true,
        blocked_status: 0,
        name: manifest.name.clone(),
        csp: String::new(),
        role: String::new(),
        redirects: None,
        widget_pages: Vec::new(),
        user_agent_info: String::new(),
        installer_app_id: 0,
        installer_is_browser: false,
        store_id: String::new(),
        store_version: 0,
        downloading: false,
        ready_to_apply_download: false,
        old_version: manifest.version.clone(),
        additional_languages: AdditionalLanguages {},
    }
}

} // verus!
