//! The operator client's decision logic: command vocabulary, argument
//! parsing, the admin session tracker, and the client's own small
//! configuration. Reading lines, sending requests and printing replies
//! happen outside the crate.

use crate::text::{
    dec_str, is_numeral, numeral_val, parse_usize, seq_matches_ci, str_matches_ci, usize_to_string,
};
use vstd::prelude::*;

verus! {

/// A client-side fault (bad argument, unreachable server, unparseable
/// reply). Two such errors always compare equal; the carried message is
/// display-only.
#[derive(Debug, Clone)]
pub struct CLIError {
    msg: String,
}

impl CLIError {
    /// The characters of the carried message.
    pub closed spec fn text(&self) -> Seq<char> {
        self.msg@
    }

    pub fn new(msg: String) -> (e: CLIError)
        ensures
            e.text() == msg@,
    {
        CLIError { msg }
    }

    pub fn message(&self) -> (m: &String)
        ensures
            m@ == self.text(),
    {
        &self.msg
    }
}

impl PartialEq for CLIError {
    fn eq(&self, _other: &CLIError) -> bool {
        true
    }
}

impl Eq for CLIError {

}

impl vstd::std_specs::cmp::PartialEqSpecImpl for CLIError {
    open spec fn obeys_eq_spec() -> bool {
        true
    }

    open spec fn eq_spec(&self, _other: &CLIError) -> bool {
        true
    }
}

/// The commands of the interactive prompt, in the order the help
/// listing walks them.
#[derive(Debug, Clone, Copy, PartialEq, Eq, Structural)]
pub enum Command {
    Help,
    List,
    Info,
    Exit,
    Sleep,
    Wake,
    Plan,
    Exec,
    Login,
    Shutdown,
    Dos,
    Loop,
}

/// The client's configuration: where the engine is reachable.
#[derive(Debug, Clone, PartialEq, Eq)]
pub struct Config {
    pub server_host: String,
}

/// The shape of the `[cli]` table of the client's configuration file.
#[derive(Debug, Clone, PartialEq, Eq)]
pub struct CLIToml {
    pub server_host: String,
}

/// The host that a list of `[cli]` key/value pairs selects: the value
/// under the last "server_host" key, or the empty string when the table
/// has no such key.
pub open spec fn pick_host(params: Seq<(String, String)>) -> Seq<char>
    decreases params.len(),
{
    if params.len() == 0 {
        Seq::empty()
    } else if params.last().0@ == "server_host"@ {
        params.last().1@
    } else {
        pick_host(params.drop_last())
    }
}

impl Config {
    /// Builds the client configuration from the configuration file's
    /// `[cli]` table, or the localhost default when the file has none.
    pub fn from_params(params: Option<Vec<(String, String)>>) -> (c: Config)
        ensures
            params is None ==> c.server_host@ == "localhost:8000"@,
            params matches Some(ps) ==> c.server_host@ == pick_host(ps@),
    {
        match params {
            None => Config { server_host: String::from_str("localhost:8000") },
            Some(ps) => {
                let key = String::from_str("server_host");
                let mut host = String::new();
                let n = ps.len();
                let mut i: usize = 0;
                while i < n
                    invariant
                        0 <= i <= n,
                        n == ps@.len(),
                        key@ == "server_host"@,
                        host@ == pick_host(ps@.take(i as int)),
                    decreases n - i,
                {
                    if ps[i].0 == key {
                        host = ps[i].1.clone();
                    }
                    proof {
                        assert(ps@.take(i as int + 1).drop_last() =~= ps@.take(i as int));
                        assert(ps@.take(i as int + 1).last() == ps@[i as int]);
                    }
                    i = i + 1;
                }
                proof {
                    assert(ps@.take(n as int) =~= ps@);
                }
                Config { server_host: host }
            },
        }
    }
}

/// What `parse_cmd` makes of a token: the first command whose name it
/// matches up to ASCII case.
pub open spec fn parse_cmd_spec(s: Seq<char>) -> Option<Command> {
    if seq_matches_ci(s, "help"@) {
        Some(Command::Help)
    } else if seq_matches_ci(s, "list"@) {
        Some(Command::List)
    } else if seq_matches_ci(s, "info"@) {
        Some(Command::Info)
    } else if seq_matches_ci(s, "exit"@) {
        Some(Command::Exit)
    } else if seq_matches_ci(s, "sleep"@) {
        Some(Command::Sleep)
    } else if seq_matches_ci(s, "wake"@) {
        Some(Command::Wake)
    } else if seq_matches_ci(s, "plan"@) {
        Some(Command::Plan)
    } else if seq_matches_ci(s, "exec"@) {
        Some(Command::Exec)
    } else if seq_matches_ci(s, "login"@) {
        Some(Command::Login)
    } else if seq_matches_ci(s, "shutdown"@) {
        Some(Command::Shutdown)
    } else if seq_matches_ci(s, "dos"@) {
        Some(Command::Dos)
    } else if seq_matches_ci(s, "loop"@) {
        Some(Command::Loop)
    } else {
        None
    }
}

/// The client's admin session: at most one (device index, credential)
/// pair, gained by a successful login.
#[derive(Debug)]
pub struct CLI {
    config: Config,
    password: Option<(usize, String)>,
}

/// What the client reports around one login attempt.
#[derive(Debug, Clone, Copy, PartialEq, Eq)]
pub struct LoginReport {
    /// The device whose session was dropped for the new one, if the
    /// previous session pointed elsewhere.
    pub previous_logout: Option<usize>,
    /// Whether a session now exists for the attempted device.
    pub logged_in: bool,
}

/// The session note a fresh login leaves behind: the old device's
/// index, when the old session pointed at a different device.
pub open spec fn prior_logout(sess: Option<(usize, Seq<char>)>, index: usize) -> Option<usize> {
    match sess {
        Some(p) => if p.0 != index {
            Some(p.0)
        } else {
            None
        },
        None => None,
    }
}

impl CLI {
    /// The server address the client talks to.
    pub closed spec fn host(&self) -> Seq<char> {
        self.config.server_host@
    }

    /// The current admin session, if any.
    pub closed spec fn session(&self) -> Option<(usize, Seq<char>)> {
        match self.password {
            Some(p) => Some((p.0, p.1@)),
            None => None,
        }
    }

    /// A fresh client with no admin session.
    pub fn new(config: Config) -> (c: CLI)
        ensures
            c.host() == config.server_host@,
            c.session() is None,
    {
        CLI { config, password: None }
    }

    /// The server address, for building requests.
    pub fn server_host(&self) -> (h: &String)
        ensures
            h@ == self.host(),
    {
        &self.config.server_host
    }

    /// The device index of the current session, if any.
    pub fn session_index(&self) -> (r: Option<usize>)
        ensures
            r == (match self.session() {
                Some(p) => Some(p.0),
                None => None::<usize>,
            }),
    {
        match &self.password {
            Some(p) => Some(p.0),
            None => None,
        }
    }

    /// Records the outcome of a login attempt: a success overwrites the
    /// session (reporting the replaced device when it differs), a
    /// failure changes nothing.
    pub fn note_login(&mut self, index: usize, credential: String, accepted: bool) -> (r:
        LoginReport)
        ensures
            final(self).host() == old(self).host(),
            !accepted ==> final(self).session() == old(self).session() && r == (LoginReport {
                previous_logout: None,
                logged_in: false,
            }),
            accepted ==> final(self).session() == Some((index, credential@)) && r == (LoginReport {
                previous_logout: prior_logout(old(self).session(), index),
                logged_in: true,
            }),
    {
        if !accepted {
            return LoginReport { previous_logout: None, logged_in: false };
        }
        let previous_logout = match &self.password {
            Some(p) => if p.0 != index {
                Some(p.0)
            } else {
                None
            },
            None => None,
        };
        self.password = Some((index, credential));
        LoginReport { previous_logout, logged_in: true }
    }

    /// How many arguments each command takes.
    pub fn get_command_arguments(cmd: Command) -> (n: usize)
        ensures
            n == (match cmd {
                Command::Help => 0usize,
                Command::List => 0usize,
                Command::Info => 1usize,
                Command::Plan => 2usize,
                Command::Sleep => 1usize,
                Command::Wake => 1usize,
                Command::Exit => 0usize,
                Command::Exec => 2usize,
                Command::Login => 2usize,
                Command::Shutdown => 2usize,
                Command::Dos => 1usize,
                Command::Loop => 0usize,
            }),
    {
        match cmd {
            Command::Help => 0,
            Command::List => 0,
            Command::Info => 1,
            Command::Plan => 2,
            Command::Sleep => 1,
            Command::Wake => 1,
            Command::Exit => 0,
            Command::Exec => 2,
            Command::Login => 2,
            Command::Shutdown => 2,
            Command::Dos => 1,
            Command::Loop => 0,
        }
    }

    /// Whether the command is listed only while an admin session
    /// exists.
    pub fn is_admin_command(cmd: Command) -> (r: bool)
        ensures
            r == (cmd is Plan),
    {
        match cmd {
            Command::Plan => true,
            _ => false,
        }
    }

    /// Whether the command is marked as debug-only in the listing.
    pub fn is_debug_command(cmd: Command) -> (r: bool)
        ensures
            r == (cmd is Exec),
    {
        match cmd {
            Command::Exec => true,
            _ => false,
        }
    }

    /// Whether the command is kept out of the help listing entirely.
    pub fn is_hidden_command(cmd: Command) -> (r: bool)
        ensures
            r == (cmd is Shutdown || cmd is Dos || cmd is Loop),
    {
        match cmd {
            Command::Shutdown => true,
            Command::Dos => true,
            Command::Loop => true,
            _ => false,
        }
    }

    /// Reads a numeric code argument.
    pub fn parse_code(s: String) -> (r: Result<usize, CLIError>)
        ensures
            r is Ok <==> is_numeral(s@) && numeral_val(s@) <= usize::MAX,
            r matches Ok(v) ==> v == numeral_val(s@),
            r matches Err(e) ==> e.text() == "Cannot parse '"@ + s@
                + "' as code. Code must be an integer."@,
    {
        match parse_usize(s.as_str()) {
            Some(code) => Ok(code),
            None => {
                let msg = String::from_str("Cannot parse '").concat(s.as_str()).concat(
                    "' as code. Code must be an integer.",
                );
                Err(CLIError::new(msg))
            },
        }
    }

    /// Reads a device-index argument and holds it against the fleet
    /// size.
    pub fn parse_sat_index(sats_len: usize, s: String) -> (r: Result<usize, CLIError>)
        ensures
            r is Ok <==> is_numeral(s@) && numeral_val(s@) < sats_len,
            r matches Ok(v) ==> v == numeral_val(s@),
            r matches Err(e) ==> e.text() == "Cannot parse '"@ + s@
                + "' as index. Index must be an integer 0 < x < "@ + dec_str(sats_len as int),
    {
        let parsed = parse_usize(s.as_str());
        match parsed {
            Some(index) if index < sats_len => Ok(index),
            _ => {
                let msg = String::from_str("Cannot parse '").concat(s.as_str()).concat(
                    "' as index. Index must be an integer 0 < x < ",
                ).concat(usize_to_string(sats_len).as_str());
                Err(CLIError::new(msg))
            },
        }
    }

    /// Reads a command token, up to ASCII case.
    pub fn parse_cmd(s: String) -> (r: Result<Command, CLIError>)
        ensures
            r is Ok <==> parse_cmd_spec(s@) is Some,
            r matches Ok(c) ==> parse_cmd_spec(s@) == Some(c),
            r matches Err(e) ==> parse_cmd_spec(s@) is None && e.text() == "Cannot parse command '"@
                + s@ + "'. Enter 'help' for list of valid commands"@,
    {
        if str_matches_ci(s.as_str(), "help") {
            Ok(Command::Help)
        } else if str_matches_ci(s.as_str(), "list") {
            Ok(Command::List)
        } else if str_matches_ci(s.as_str(), "info") {
            Ok(Command::Info)
        } else if str_matches_ci(s.as_str(), "exit") {
            Ok(Command::Exit)
        } else if str_matches_ci(s.as_str(), "sleep") {
            Ok(Command::Sleep)
        } else if str_matches_ci(s.as_str(), "wake") {
            Ok(Command::Wake)
        } else if str_matches_ci(s.as_str(), "plan") {
            Ok(Command::Plan)
        } else if str_matches_ci(s.as_str(), "exec") {
            Ok(Command::Exec)
        } else if str_matches_ci(s.as_str(), "login") {
            Ok(Command::Login)
        } else if str_matches_ci(s.as_str(), "shutdown") {
            Ok(Command::Shutdown)
        } else if str_matches_ci(s.as_str(), "dos") {
            Ok(Command::Dos)
        } else if str_matches_ci(s.as_str(), "loop") {
            Ok(Command::Loop)
        } else {
            let msg = String::from_str("Cannot parse command '").concat(s.as_str()).concat(
                "'. Enter 'help' for list of valid commands",
            );
            Err(CLIError::new(msg))
        }
    }
}

/// The description shown for each command in the help listing: its
/// argument sketch and purpose.
pub open spec fn command_base_text(cmd: Command) -> Seq<char> {
    match cmd {
        Command::Help => "\t\t\t -- display this output"@,
        Command::List => "\t\t\t -- list all satellites and ground terminals"@,
        Command::Info => " [sat]\t\t -- get info for a satellite or ground terminal"@,
        Command::Sleep => " [sat]\t\t -- force sleep a satellite for"@,
        Command::Wake => " [sat]\t\t -- force wakeup a sleeping satellite"@,
        Command::Plan => " [sat] [filename]\t -- set a satellite's mission plan to filename"@,
        Command::Exit => "\t\t\t -- exit this application"@,
        Command::Exec => " [sat] [filename]\t -- exec a python script on a remote satellite system"@,
        Command::Login => " [sat] [password]\t -- login to a satellite to perform admin commands"@,
        Command::Shutdown => " -- unknown operation"@,
        Command::Dos => " -- unknown operation"@,
        Command::Loop => " -- unknown operation"@,
    }
}

/// The full help line for one command: its description, then the
/// admin-only or debug-only tag where one applies.
pub open spec fn command_details_text(cmd: Command) -> Seq<char> {
    command_base_text(cmd) + (if cmd is Plan {
        "(ADMIN ONLY)"@
    } else {
        Seq::<char>::empty()
    }) + (if cmd is Exec {
        "(DEBUG ONLY)"@
    } else {
        Seq::<char>::empty()
    })
}

impl CLI {
    /// The help-listing line for `cmd`.
    pub fn get_command_details(cmd: Command) -> (t: String)
        ensures
            t@ == command_details_text(cmd),
    {
        let base = match cmd {
            Command::Help => String::from_str("\t\t\t -- display this output"),
            Command::List => String::from_str("\t\t\t -- list all satellites and ground terminals"),
            Command::Info => String::from_str(
                " [sat]\t\t -- get info for a satellite or ground terminal",
            ),
            Command::Sleep => String::from_str(" [sat]\t\t -- force sleep a satellite for"),
            Command::Wake => String::from_str(" [sat]\t\t -- force wakeup a sleeping satellite"),
            Command::Plan => String::from_str(
                " [sat] [filename]\t -- set a satellite's mission plan to filename",
            ),
            Command::Exit => String::from_str("\t\t\t -- exit this application"),
            Command::Exec => String::from_str(
                " [sat] [filename]\t -- exec a python script on a remote satellite system",
            ),
            Command::Login => String::from_str(
                " [sat] [password]\t -- login to a satellite to perform admin commands",
            ),
            Command::Shutdown => String::from_str(" -- unknown operation"),
            Command::Dos => String::from_str(" -- unknown operation"),
            Command::Loop => String::from_str(" -- unknown operation"),
        };
        let mut ret = base;
        if CLI::is_admin_command(cmd) {
            ret = ret.concat("(ADMIN ONLY)");
        }
        if CLI::is_debug_command(cmd) {
            ret = ret.concat("(DEBUG ONLY)");
        }
        proof {
            assert(ret@ =~= command_details_text(cmd));
        }
        ret
    }
}

/// Every command, in listing order.
pub fn all_commands() -> (v: Vec<Command>)
    ensures
        v@ == seq![
            Command::Help,
            Command::List,
            Command::Info,
            Command::Exit,
            Command::Sleep,
            Command::Wake,
            Command::Plan,
            Command::Exec,
            Command::Login,
            Command::Shutdown,
            Command::Dos,
            Command::Loop,
        ],
{
    let mut v: Vec<Command> = Vec::new();
    v.push(Command::Help);
    v.push(Command::List);
    v.push(Command::Info);
    v.push(Command::Exit);
    v.push(Command::Sleep);
    v.push(Command::Wake);
    v.push(Command::Plan);
    v.push(Command::Exec);
    v.push(Command::Login);
    v.push(Command::Shutdown);
    v.push(Command::Dos);
    v.push(Command::Loop);
    proof {
        assert(v@ =~= seq![
            Command::Help,
            Command::List,
            Command::Info,
            Command::Exit,
            Command::Sleep,
            Command::Wake,
            Command::Plan,
            Command::Exec,
            Command::Login,
            Command::Shutdown,
            Command::Dos,
            Command::Loop,
        ]);
    }
    v
}

/// The command's display name, as the prompt and the listing show it.
pub fn command_name(cmd: Command) -> (t: &'static str)
    ensures
        t@ == (match cmd {
            Command::Help => "Help"@,
            Command::List => "List"@,
            Command::Info => "Info"@,
            Command::Exit => "Exit"@,
            Command::Sleep => "Sleep"@,
            Command::Wake => "Wake"@,
            Command::Plan => "Plan"@,
            Command::Exec => "Exec"@,
            Command::Login => "Login"@,
            Command::Shutdown => "Shutdown"@,
            Command::Dos => "Dos"@,
            Command::Loop => "Loop"@,
        }),
{
    match cmd {
        Command::Help => "Help",
        Command::List => "List",
        Command::Info => "Info",
        Command::Exit => "Exit",
        Command::Sleep => "Sleep",
        Command::Wake => "Wake",
        Command::Plan => "Plan",
        Command::Exec => "Exec",
        Command::Login => "Login",
        Command::Shutdown => "Shutdown",
        Command::Dos => "Dos",
        Command::Loop => "Loop",
    }
}

} // verus!
