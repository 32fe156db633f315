//! The supported runtime and toolkit version labels, and the mapping from a
//! version to its manager. The managers that launch and supervise processes
//! are external collaborators; here each is an opaque marker, so the mapping
//! itself can be stated and checked.

use vstd::prelude::*;

verus! {

/// The supported toolkit versions.
#[derive(Clone, Copy, Debug, PartialEq, Eq, Hash, Structural)]
pub enum HdkVersion {
    V0_0_136,
    V0_0_142,
}

/// The supported runtime versions.
#[derive(Clone, Copy, Debug, PartialEq, Eq, Hash, Structural)]
pub enum HolochainVersion {
    V0_0_143,
    V0_0_150,
}

/// Marker for the manager of version 0.0.143.
pub struct HolochainV0_0_143;

/// Marker for the manager of version 0.0.150.
pub struct HolochainV0_0_150;

/// One manager per supported runtime version.
pub enum HolochainVersionManager {
    HolochainV0_0_143(HolochainV0_0_143),
    HolochainV0_0_150(HolochainV0_0_150),
}

impl HdkVersion {
    /// The text label of this toolkit version.
    pub open spec fn label(&self) -> Seq<char> {
        match self {
            HdkVersion::V0_0_136 => "0.0.136"@,
            HdkVersion::V0_0_142 => "0.0.142"@,
        }
    }

    /// The text label of this toolkit version.
    pub fn version_string(&self) -> (r: String)
        ensures
            r@ == self.label(),
    {
        match self {
            HdkVersion::V0_0_136 => String::from_str("0.0.136"),
            HdkVersion::V0_0_142 => String::from_str("0.0.142"),
        }
    }
}

impl HolochainVersion {
    /// The text label of this runtime version.
    pub open spec fn label(&self) -> Seq<char> {
        match self {
            HolochainVersion::V0_0_143 => "0.0.143"@,
            HolochainVersion::V0_0_150 => "0.0.150"@,
        }
    }

    /// The version run when nothing else is asked for (where the built-in
    /// tooling lives); not necessarily the newest.
    pub fn default() -> (r: HolochainVersion)
        ensures
            r == HolochainVersion::V0_0_143,
    {
        HolochainVersion::V0_0_143
    }

    /// The newest supported version (used with a custom runtime binary).
    pub fn latest() -> (r: HolochainVersion)
        ensures
            r == HolochainVersion::V0_0_150,
    {
        HolochainVersion::V0_0_150
    }

    /// Every supported version, oldest first.
    pub fn supported_versions() -> (r: Vec<HolochainVersion>)
        ensures
            r@ == seq![HolochainVersion::V0_0_143, HolochainVersion::V0_0_150],
    {
        let mut out: Vec<HolochainVersion> = Vec::new();
        out.push(HolochainVersion::V0_0_143);
        out.push(HolochainVersion::V0_0_150);
        proof {
            assert(out@ =~= seq![HolochainVersion::V0_0_143, HolochainVersion::V0_0_150]);
        }
        out
    }

    /// The manager in charge of this version.
    pub fn manager(&self) -> (r: HolochainVersionManager)
        ensures
            *self == HolochainVersion::V0_0_143 ==> r is HolochainV0_0_143,
            *self == HolochainVersion::V0_0_150 ==> r is HolochainV0_0_150,
    {
        match self {
            HolochainVersion::V0_0_143 => HolochainVersionManager::HolochainV0_0_143(
                HolochainV0_0_143,
            ),
            HolochainVersion::V0_0_150 => HolochainVersionManager::HolochainV0_0_150(
                HolochainV0_0_150,
            ),
        }
    }

    /// The text label of this runtime version.
    pub fn version_string(&self) -> (r: String)
        ensures
            r@ == self.label(),
    {
        match self {
            HolochainVersion::V0_0_143 => String::from_str("0.0.143"),
            HolochainVersion::V0_0_150 => String::from_str("0.0.150"),
        }
    }
}

/// Two strings hold the same characters.
pub fn str_equal(a: &str, b: &str) -> (r: bool)
    ensures
        r == (a@ == b@),
{
    let n = a.unicode_len();
    if n != b.unicode_len() {
        proof {
            assert(a@ != b@);
        }
        return false;
    }
    let mut i: usize = 0;
    while i < n
        invariant
            i <= n,
            n == a@.len(),
            n == b@.len(),
            forall|j: int| 0 <= j < i ==> a@[j] == b@[j],
        decreases n - i,
    {
        if a.get_char(i) != b.get_char(i) {
            return false;
        }
        i = i + 1;
    }
    proof {
        assert(a@ =~= b@);
    }
    true
}

/// Parse a runtime version from its text label; exactly the two supported
/// labels are accepted.
pub fn parse_version(s: &str) -> (r: Option<HolochainVersion>)
    ensures
        r matches Some(v) ==> s@ == v.label(),
        s@ == HolochainVersion::V0_0_143.label() ==> r == Some(HolochainVersion::V0_0_143),
        s@ == HolochainVersion::V0_0_150.label() ==> r == Some(HolochainVersion::V0_0_150),
        r is None ==> s@ != HolochainVersion::V0_0_143.label() && s@
            != HolochainVersion::V0_0_150.label(),
{
    proof {
        reveal_strlit("0.0.143");
        reveal_strlit("0.0.150");
        assert("0.0.143"@[5] != "0.0.150"@[5]);
        assert("0.0.143"@ != "0.0.150"@);
    }
    if str_equal(s, "0.0.143") {
        Some(HolochainVersion::V0_0_143)
    } else if str_equal(s, "0.0.150") {
        Some(HolochainVersion::V0_0_150)
    } else {
        None
    }
}

} // verus!
