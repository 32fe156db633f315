//! Menu-item identifiers for the desktop shell's tray: one installed
//! application per item, addressed by runtime version and application id.
//! The shell itself is an external collaborator; the encoding and decoding of
//! its identifiers is here, where it can be stated and checked.

use vstd::prelude::*;

use std::collections::HashMap;

use crate::versions::parse_version;
use crate::versions::str_equal;
use crate::versions::HolochainVersion;

verus! {

/// Which runtime an application runs under: a managed version, or a custom
/// binary supplied by the user.
#[derive(Clone, Copy, Debug, PartialEq, Eq, Structural)]
pub enum HolochainId {
    HolochainVersion(HolochainVersion),
    CustomBinary,
}

/// How an installed application's interface is served: not at all, or as a
/// web application from a directory on one port.
pub enum WebUiInfo {
    Headless,
    WebApp { path_to_web_app: String, app_ui_port: u16 },
}

/// One installed application: its id and how its interface is served.
pub struct InstalledWebAppInfo {
    pub installed_app_id: String,
    pub web_ui_info: WebUiInfo,
}

/// Every installed application, grouped by the runtime it runs under.
pub struct AllInstalledApps {
    pub by_version: HashMap<HolochainVersion, Vec<InstalledWebAppInfo>>,
    pub custom_binary: Option<Vec<InstalledWebAppInfo>>,
}

/// The menu-item identifier for an application under a runtime: the runtime's
/// label (or the custom-binary marker), a colon, and the application id.
pub fn collapse_holochain_and_app_id(holochain_id: HolochainId, app_id: String) -> (r: String)
    ensures
        holochain_id matches HolochainId::HolochainVersion(v) ==> r@ == v.label() + ":"@ + app_id@,
        holochain_id is CustomBinary ==> r@ == "custom_binary"@ + ":"@ + app_id@,
{
    match holochain_id {
        HolochainId::HolochainVersion(holochain_version) => {
            let s = holochain_version.version_string();
            let s = s.concat(":");
            s.concat(app_id.as_str())
        },
        HolochainId::CustomBinary => {
            let s = String::from_str("custom_binary");
            let s = s.concat(":");
            s.concat(app_id.as_str())
        },
    }
}

/// A menu-item identifier splits at its first colon into a prefix and the
/// application id (everything after that colon, further colons included);
/// an identifier without a colon is all prefix and an empty application id.
pub open spec fn splits_into(s: Seq<char>, prefix: Seq<char>, app_id: Seq<char>) -> bool {
    ||| (exists|k: int|
        0 <= k < s.len() && s[k] == ':' && (forall|j: int| 0 <= j < k ==> s[j] != ':') && prefix
            == s.subrange(0, k) && app_id == #[trigger] s.subrange(k + 1, s.len() as int))
    ||| ((forall|j: int| 0 <= j < s.len() ==> s[j] != ':') && prefix == s && app_id == Seq::<
        char,
    >::empty())
}

/// The identifier's prefix names a runtime: the custom-binary marker, or a
/// supported version's label.
pub open spec fn prefix_denotes(prefix: Seq<char>, id: HolochainId) -> bool {
    match id {
        HolochainId::CustomBinary => prefix == "custom"@,
        HolochainId::HolochainVersion(v) => prefix == v.label(),
    }
}

/// Decode a menu-item identifier back into the runtime it names and the
/// application id. The accepted custom-binary marker is the bare `custom`
/// prefix; the encoder's `custom_binary` marker is not a runtime label here.
pub fn expand_holochain_and_app_id(menu_item_id: String) -> (r: Result<
    (HolochainId, String),
    String,
>)
    ensures
        r matches Ok(pair) ==> exists|prefix: Seq<char>| #[trigger] splits_into(
            menu_item_id@,
            prefix,
            pair.1@,
        ) && prefix_denotes(prefix, pair.0),
        r matches Err(msg) ==> msg@ == "Invalid version"@,
{
    let n = menu_item_id.as_str().unicode_len();
    let mut k: usize = 0;
    let mut found: bool = false;
    while k < n && !found
        invariant
            0 <= k <= n,
            n == menu_item_id@.len(),
            found ==> k < n && menu_item_id@[k as int] == ':',
            forall|j: int| 0 <= j < k ==> menu_item_id@[j] != ':',
        decreases n - k, (if found { 0int } else { 1int }),
    {
        if menu_item_id.as_str().get_char(k) == ':' {
            found = true;
        } else {
            k = k + 1;
        }
    }
    let prefix: &str = if found {
        menu_item_id.as_str().substring_char(0, k)
    } else {
        menu_item_id.as_str()
    };
    let app_id: String = if found {
        String::from_str(menu_item_id.as_str().substring_char(k + 1, n))
    } else {
        String::new()
    };
    proof {
        if found {
            assert(prefix@ =~= menu_item_id@.subrange(0, k as int));
            assert(app_id@ =~= menu_item_id@.subrange(k + 1 as int, menu_item_id@.len() as int));
            assert(0 <= k < menu_item_id@.len() && menu_item_id@[k as int] == ':' && (forall|
                j: int,
            | 0 <= j < k ==> menu_item_id@[j] != ':') && prefix@ == menu_item_id@.subrange(
                0,
                k as int,
            ) && app_id@ == menu_item_id@.subrange(k + 1 as int, menu_item_id@.len() as int));
            assert(splits_into(menu_item_id@, prefix@, app_id@));
        } else {
            assert(k == n);
            assert(prefix@ =~= menu_item_id@);
            assert(app_id@ =~= Seq::<char>::empty());
            assert(splits_into(menu_item_id@, prefix@, app_id@));
        }
    }
    let ghost pview = prefix@;
    let r: Result<(HolochainId, String), String> = if str_equal(prefix, "custom") {
        Ok((HolochainId::CustomBinary, app_id))
    } else {
        match parse_version(prefix) {
            Some(version) => Ok((HolochainId::HolochainVersion(version), app_id)),
            None => Err(String::from_str("Invalid version")),
        }
    };
    proof {
        if r is Ok {
            let pair = r->Ok_0;
            assert(splits_into(menu_item_id@, pview, pair.1@));
            assert(prefix_denotes(pview, pair.0));
            assert(exists|p: Seq<char>| #[trigger] splits_into(menu_item_id@, p, pair.1@)
                && prefix_denotes(p, pair.0));
        }
    }
    r
}

} // verus!
