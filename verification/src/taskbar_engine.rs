//! The external transparency engine used on Windows 11: which process is
//! ours, when its files need writing again, and the start/stop bookkeeping.
//! Only the engine started in this session is stopped by its process id;
//! leftovers of a crash are recognised by their full image path.
use vstd::prelude::*;
use crate::text::{eq_ignore_ascii_case, lower, str_eq};

verus! {

/// The engine's executable name.
pub open spec fn engine_exe_name() -> Seq<char> {
    "TranslucentTB.exe"@
}

/// Name of the directory the engine is unpacked to.
pub open spec fn engine_dir_name() -> Seq<char> {
    "taskbar-engine"@
}

/// A process is one of our engine instances when its executable name is the
/// engine's and its full image path is the unpacked engine's (both compared
/// ignoring ASCII case); a TranslucentTB the user installed is left alone.
pub open spec fn spec_is_engine_process(name: Seq<char>, image_path: Option<Seq<char>>, engine_exe: Seq<char>) -> bool {
    lower(name) == lower(engine_exe_name()) && match image_path {
        Some(p) => lower(p) == lower(engine_exe),
        None => false,
    }
}

/// Whether a running process is an engine instance unpacked by us.
pub fn is_engine_process(name: &str, image_path: Option<&str>, engine_exe: &str) -> (b: bool)
    ensures
        b == spec_is_engine_process(name@, match image_path { Some(p) => Some(p@), None => None }, engine_exe@),
{
    if !eq_ignore_ascii_case(name, "TranslucentTB.exe") {
        return false;
    }
    match image_path {
        Some(p) => eq_ignore_ascii_case(p, engine_exe),
        None => false,
    }
}

/// Length of a NUL-terminated UTF-16 buffer: up to the first NUL, or the whole
/// buffer when there is none.
pub fn nul_terminated_len(buf: &[u16]) -> (n: usize)
    ensures
        n <= buf@.len(),
        forall|i: int| 0 <= i < n ==> buf@[i] != 0,
        n < buf@.len() ==> buf@[n as int] == 0,
{
    let mut i: usize = 0;
    while i < buf.len()
        invariant
            i <= buf@.len(),
            forall|j: int| 0 <= j < i ==> buf@[j] != 0,
        decreases buf.len() - i,
    {
        if buf[i] == 0 {
            return i;
        }
        i += 1;
    }
    i
}

/// An unpacked engine file is kept when it exists with the embedded size;
/// otherwise it is written again.
pub fn is_up_to_date(existing_len: Option<u64>, data_len: u64) -> (b: bool)
    ensures
        b == (existing_len == Some(data_len)),
{
    match existing_len {
        Some(n) => n == data_len,
        None => false,
    }
}

/// The engine directory is only removed when it lies under the local
/// application data directory and has the engine directory's own name.
pub fn is_removable_engine_dir(under_local_app_data: bool, file_name: Option<&str>) -> (b: bool)
    ensures
        b == (under_local_app_data && match file_name { Some(n) => n@ == engine_dir_name(), None => false }),
{
    if !under_local_app_data {
        return false;
    }
    match file_name {
        Some(n) => str_eq(n, "taskbar-engine"),
        None => false,
    }
}

/// What a switch of the engine asks for.
#[derive(Clone, Copy, Debug, PartialEq, Eq, Structural)]
pub enum EngineAction {
    /// Unpack the engine and start it; report the process id back.
    Start,
    /// Stop: terminate the given process of this session (if still alive),
    /// then any leftover instance, then remove the unpacked files.
    Stop(Option<u32>),
}

/// The engine process started in this session, if any.
pub struct EngineState {
    pub pid: Option<u32>,
}

impl EngineState {
    pub fn new() -> (s: Self)
        ensures
            s.pid.is_none(),
    {
        EngineState { pid: None }
    }

    /// Turning the engine on starts it; turning it off stops the process of
    /// this session, which is forgotten at once.
    pub fn set(&mut self, enabled: bool) -> (a: EngineAction)
        ensures
            enabled ==> a == EngineAction::Start && final(self).pid == old(self).pid,
            !enabled ==> a == EngineAction::Stop(old(self).pid) && final(self).pid.is_none(),
    {
        if enabled {
            EngineAction::Start
        } else {
            self.stop()
        }
    }

    /// Stops the engine: the process of this session is handed out to be
    /// terminated and forgotten.
    pub fn stop(&mut self) -> (a: EngineAction)
        ensures
            a == EngineAction::Stop(old(self).pid),
            final(self).pid.is_none(),
    {
        let pid = self.pid;
        self.pid = None;
        EngineAction::Stop(pid)
    }

    /// The engine was started (`Some(pid)`) or could not be (`None`, the
    /// unpacking or the spawn failed); returns whether the switch succeeded.
    pub fn started(&mut self, pid: Option<u32>) -> (ok: bool)
        ensures
            ok == pid.is_some(),
            final(self).pid == (if pid.is_some() { pid } else { old(self).pid }),
    {
        match pid {
            Some(p) => {
                self.pid = Some(p);
                true
            },
            None => false,
        }
    }
}

} // verus!
