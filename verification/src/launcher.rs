//! Bookkeeping for the single child app the panel launches: which app runs
//! under which process id, and the command line it is started with.
use vstd::prelude::*;
use vstd::string::StringExecFns;

verus! {

/// Notification sent when a launched app exits.
#[derive(Debug, Clone, PartialEq, Eq)]
pub struct AppExited {
    pub name: String,
    pub status: Option<i32>,
}

/// State of the single child app: its process id while one runs, and its
/// name.
///
/// The process itself is owned by a watcher task outside this type; the
/// launcher only keeps what it needs to signal it and to report it.
#[derive(Debug)]
pub struct AppLauncher {
    pid: Option<u32>,
    app_name: String,
}

impl AppLauncher {
    /// Process id of the running app, if any.
    pub closed spec fn running_pid(self) -> Option<u32> {
        self.pid
    }

    /// Name recorded for the current app.
    pub closed spec fn name(self) -> Seq<char> {
        self.app_name@
    }

    pub fn new() -> (l: AppLauncher)
        ensures
            l.running_pid() is None,
            l.name() == Seq::<char>::empty(),
    {
        AppLauncher { pid: None, app_name: String::new() }
    }

    /// Whether an app is currently running.
    pub fn is_running(&self) -> (b: bool)
        ensures
            b == self.running_pid() is Some,
    {
        self.pid.is_some()
    }

    /// The name of the currently running app, if any.
    pub fn running_name(&self) -> (r: Option<&str>)
        ensures
            match r {
                Some(n) => self.running_pid() is Some && n@ == self.name(),
                None => self.running_pid() is None,
            },
    {
        if self.is_running() {
            Some(self.app_name.as_str())
        } else {
            None
        }
    }

    /// Record an app that was just spawned, with the process id the OS
    /// reported for it (none if the child was already reaped).
    pub fn record_spawn(&mut self, name: &str, pid: Option<u32>)
        ensures
            final(self).running_pid() == pid,
            final(self).name() == name@,
    {
        self.pid = pid;
        self.app_name = String::from_str(name);
    }

    /// Start closing the running app: forget its process id and name and
    /// hand both back for signalling and reporting. Nothing changes when no
    /// app runs.
    pub fn take_running(&mut self) -> (r: Option<(u32, String)>)
        ensures
            final(self).running_pid() is None,
            match old(self).running_pid() {
                Some(pid) => r matches Some((p, n)) && p == pid && n@ == old(self).name()
                    && final(self).name() == Seq::<char>::empty(),
                None => r is None && final(self).name() == old(self).name(),
            },
    {
        match self.pid {
            None => None,
            Some(pid) => {
                self.pid = None;
                let mut name = String::new();
                std::mem::swap(&mut name, &mut self.app_name);
                Some((pid, name))
            },
        }
    }

    /// Called when we receive an AppExited notification — clears local state.
    pub fn on_exited(&mut self)
        ensures
            final(self).running_pid() is None,
            final(self).name() == Seq::<char>::empty(),
    {
        self.pid = None;
        self.app_name = String::new();
    }
}

/// The shell command line for an app: its command, followed by a space and
/// the URL when a non-empty URL is given.
pub open spec fn launch_command_line(command: Seq<char>, url: Option<Seq<char>>) -> Seq<char> {
    match url {
        Some(u) => if u.len() > 0 {
            command + " "@ + u
        } else {
            command
        },
        None => command,
    }
}

pub fn launch_command(command: &str, url: Option<&str>) -> (r: String)
    ensures
        r@ == launch_command_line(
            command@,
            match url {
                Some(u) => Some(u@),
                None => None,
            },
        ),
{
    match url {
        Some(u) => {
            if u.is_empty() {
                String::from_str(command)
            } else {
                String::from_str(command).concat(" ").concat(u)
            }
        },
        None => String::from_str(command),
    }
}

/// The `kill(2)` target that signals the whole process group the app leads
/// (the negated process id, computed in 32-bit signed arithmetic as the
/// conversion `-(pid as i32)` does).
pub fn process_group_target(pid: u32) -> (r: i32)
    requires
        pid != 0x8000_0000,
    ensures
        pid <= i32::MAX ==> r == -(pid as int),
        pid > 0x8000_0000 ==> r == 0x1_0000_0000 - pid,
{
    if pid <= 0x7fff_ffff {
        let p: i32 = pid as i32;
        -p
    } else {
        (0xffff_ffffu32 - pid + 1) as i32
    }
}

} // verus!

verus! {

/// With a non-empty URL the command line is the command, exactly one space,
/// and the URL, whatever characters the command holds; with no URL or an
/// empty one it is the command alone.
pub proof fn lemma_launch_command_line(command: Seq<char>, url: Option<Seq<char>>)
    ensures
        ({
            let line = launch_command_line(command, url);
            match url {
                Some(u) => if u.len() > 0 {
                    &&& line.len() == command.len() + 1 + u.len()
                    &&& line.subrange(0, command.len() as int) == command
                    &&& line[command.len() as int] == ' '
                    &&& line.subrange((command.len() + 1) as int, line.len() as int) == u
                } else {
                    line == command
                },
                None => line == command,
            }
        }),
{
    reveal_strlit(" ");
    match url {
        Some(u) => {
            if u.len() > 0 {
                let line = launch_command_line(command, url);
                assert(line =~= command + seq![' '] + u);
                assert(line.subrange(0, command.len() as int) =~= command);
                assert(line.subrange((command.len() + 1) as int, line.len() as int) =~= u);
            }
        },
        None => {},
    }
}

} // verus!
