use vstd::prelude::*;

verus! {

/// The operating system the host was built for. It decides the file name of
/// the sidecar executable and whether spawning needs a flag to keep a
/// console window from appearing.
#[derive(Clone, Copy, Debug, PartialEq, Eq, Structural)]
pub enum Platform {
    Windows,
    Linux,
    MacOs,
}

/// Process creation flag of the Windows API that starts a console program
/// without opening a console window (`CREATE_NO_WINDOW`).
pub const CREATE_NO_WINDOW: u32 = 0x0800_0000;

/// File name of the sidecar executable for each platform.
pub open spec fn spec_sidecar_name(p: Platform) -> Seq<char> {
    match p {
        Platform::Windows => "nautilus-backend-x86_64-pc-windows-msvc.exe"@,
        Platform::Linux => "nautilus-backend-x86_64-unknown-linux-gnu"@,
        Platform::MacOs => "nautilus-backend-x86_64-apple-darwin"@,
    }
}

/// Process creation flags that spawning applies on each platform: none but
/// on Windows, where the child gets no console window.
pub open spec fn spec_creation_flags(p: Platform) -> u32 {
    if p == Platform::Windows {
        CREATE_NO_WINDOW
    } else {
        0
    }
}

impl Platform {
    /// The file name of the sidecar executable built for this platform.
    pub fn sidecar_name(self) -> (r: String)
        ensures
            r@ == spec_sidecar_name(self),
    {
        match self {
            Platform::Windows => "nautilus-backend-x86_64-pc-windows-msvc.exe".to_owned(),
            Platform::Linux => "nautilus-backend-x86_64-unknown-linux-gnu".to_owned(),
            Platform::MacOs => "nautilus-backend-x86_64-apple-darwin".to_owned(),
        }
    }

    /// The process creation flags to spawn the sidecar with.
    pub fn creation_flags(self) -> (r: u32)
        ensures
            r == spec_creation_flags(self),
            r != 0 <==> self == Platform::Windows,
    {
        match self {
            Platform::Windows => CREATE_NO_WINDOW,
            _ => 0,
        }
    }
}

} // verus!
