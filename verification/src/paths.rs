//! The path layout under the platform's configuration and data directories.
//!
//! Where those two base directories live is platform I/O and comes from the
//! caller, as does the development-profile flag that keeps the two profiles'
//! state apart; everything below a base is laid out here. Paths are plain
//! `/`-separated strings.

use vstd::prelude::*;

use crate::versions::HolochainVersion;

verus! {

/// The directory-component name for one of this system's parts: the plain
/// name, with a `-dev` suffix under a development profile so the two
/// profiles never share state.
pub fn component_name(name: &str, dev: bool) -> (r: String)
    ensures
        dev ==> r@ == name@ + "-dev"@,
        !dev ==> r@ == name@,
{
    if dev {
        let s = String::from_str(name);
        s.concat("-dev")
    } else {
        String::from_str(name)
    }
}

/// One path below another.
pub fn path_join(base: &str, child: &str) -> (r: String)
    ensures
        r@ == base@ + "/"@ + child@,
{
    let s = String::from_str(base);
    let s = s.concat("/");
    s.concat(child)
}

/// The configuration directory of one runtime version, below the root
/// configuration directory.
pub fn holochain_config_path(root_config: &str, holochain_version: HolochainVersion) -> (r: String)
    ensures
        r@ == root_config@ + "/"@ + holochain_version.label(),
{
    let version = holochain_version.version_string();
    path_join(root_config, version.as_str())
}

/// The conductor-environment directory of one runtime version: the same
/// place as its configuration.
pub fn config_environment_path(root_config: &str, holochain_version: HolochainVersion) -> (r:
    String)
    ensures
        r@ == root_config@ + "/"@ + holochain_version.label(),
{
    holochain_config_path(root_config, holochain_version)
}

/// The launcher's own configuration file, below the root configuration
/// directory.
pub fn launcher_config_path(root_config: &str) -> (r: String)
    ensures
        r@ == root_config@ + "/"@ + "launcher-config.yaml"@,
{
    path_join(root_config, "launcher-config.yaml")
}

/// The folder that holds the launcher's logs, below the platform data
/// directory.
pub fn logs_folder_path(data_dir: &str, dev: bool) -> (r: String)
    ensures
        dev ==> r@ == data_dir@ + "/"@ + ("holochain-launcher"@ + "-dev"@),
        !dev ==> r@ == data_dir@ + "/"@ + "holochain-launcher"@,
{
    let name = component_name("holochain-launcher", dev);
    path_join(data_dir, name.as_str())
}

/// The launcher's log file, inside the logs folder.
pub fn logs_path(data_dir: &str, dev: bool) -> (r: String)
    ensures
        dev ==> r@ == (data_dir@ + "/"@ + ("holochain-launcher"@ + "-dev"@)) + "/"@
            + "launcher.log"@,
        !dev ==> r@ == (data_dir@ + "/"@ + "holochain-launcher"@) + "/"@ + "launcher.log"@,
{
    let folder = logs_folder_path(data_dir, dev);
    path_join(folder.as_str(), "launcher.log")
}

/// The root of all runtime data, below the platform data directory.
pub fn root_holochain_data_path(data_dir: &str, dev: bool) -> (r: String)
    ensures
        dev ==> r@ == data_dir@ + "/"@ + ("holochain"@ + "-dev"@),
        !dev ==> r@ == data_dir@ + "/"@ + "holochain"@,
{
    let name = component_name("holochain", dev);
    path_join(data_dir, name.as_str())
}

/// The data directory of one runtime version, below the runtime data root.
pub fn data_path_for_holochain_version(
    data_dir: &str,
    dev: bool,
    holochain_version: HolochainVersion,
) -> (r: String)
    ensures
        dev ==> r@ == (data_dir@ + "/"@ + ("holochain"@ + "-dev"@)) + "/"@
            + holochain_version.label(),
        !dev ==> r@ == (data_dir@ + "/"@ + "holochain"@) + "/"@ + holochain_version.label(),
{
    let root = root_holochain_data_path(data_dir, dev);
    let version = holochain_version.version_string();
    path_join(root.as_str(), version.as_str())
}

/// The root of all keystore data, below the platform data directory.
pub fn root_lair_path(data_dir: &str, dev: bool) -> (r: String)
    ensures
        dev ==> r@ == data_dir@ + "/"@ + ("lair"@ + "-dev"@),
        !dev ==> r@ == data_dir@ + "/"@ + "lair"@,
{
    let name = component_name("lair", dev);
    path_join(data_dir, name.as_str())
}

} // verus!
