use vstd::prelude::*;

verus! {

/// The operating systems the engine tells apart.
#[derive(Clone, Copy, Debug, PartialEq, Eq, Structural)]
pub enum OS {
    Windows,
    MacOS,
    Linux,
    FreeBSD,
    Unknown,
}

/// The operating system named by a target name such as `"linux"`.
pub open spec fn os_named(name: Seq<char>) -> OS {
    if name == seq!['w', 'i', 'n', 'd', 'o', 'w', 's'] {
        OS::Windows
    } else if name == seq!['m', 'a', 'c', 'o', 's'] {
        OS::MacOS
    } else if name == seq!['l', 'i', 'n', 'u', 'x'] {
        OS::Linux
    } else if name == seq!['f', 'r', 'e', 'e', 'b', 's', 'd'] {
        OS::FreeBSD
    } else {
        OS::Unknown
    }
}

/// Classifies the target operating system from its name (as given by the
/// platform, e.g. `"windows"`, `"macos"`, `"linux"`, `"freebsd"`); any other
/// name is `OS::Unknown`.
pub fn get_os(target_os: &str) -> (r: OS)
    ensures
        r == os_named(target_os@),
{
    let name = target_os.to_owned();
    let windows = "windows".to_owned();
    let macos = "macos".to_owned();
    let linux = "linux".to_owned();
    let freebsd = "freebsd".to_owned();
    proof {
        reveal_strlit("windows");
        reveal_strlit("macos");
        reveal_strlit("linux");
        reveal_strlit("freebsd");
        assert(windows@ =~= seq!['w', 'i', 'n', 'd', 'o', 'w', 's']);
        assert(macos@ =~= seq!['m', 'a', 'c', 'o', 's']);
        assert(linux@ =~= seq!['l', 'i', 'n', 'u', 'x']);
        assert(freebsd@ =~= seq!['f', 'r', 'e', 'e', 'b', 's', 'd']);
    }
    if name == windows {
        OS::Windows
    } else if name == macos {
        OS::MacOS
    } else if name == linux {
        OS::Linux
    } else if name == freebsd {
        OS::FreeBSD
    } else {
        OS::Unknown
    }
}

} // verus!
