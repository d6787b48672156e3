//! How a supervisor is started: its arguments, and the launchd agent that
//! keeps it running.

use crate::domain::Agent;
use crate::path;
use crate::text;
use vstd::prelude::*;
use vstd::string::*;

verus! {

/// The log that launchd writes of a supervisor.
pub const LAUNCHD_LOG_NAME: &'static str = "launchd.log";

/// How a supervisor is kept running.
#[derive(Debug, Clone, Copy, PartialEq, Eq, Structural)]
pub enum SupervisorMode {
    /// As a launchd agent, restarted after any exit.
    Launchd,
    /// Inside a cmux workspace, restarted by nothing.
    InCmux,
}

impl SupervisorMode {
    /// Its name on the queue.
    pub open spec fn name(self) -> Seq<char> {
        match self {
            SupervisorMode::Launchd => "launchd"@,
            SupervisorMode::InCmux => "in_cmux"@,
        }
    }

    /// Its name on the queue.
    pub fn as_str(self) -> (r: &'static str)
        ensures
            r@ == self.name(),
    {
        match self {
            SupervisorMode::Launchd => "launchd",
            SupervisorMode::InCmux => "in_cmux",
        }
    }
}

/// What `up` reads from the process that runs it.
pub struct UpEnvironment {
    /// `DAGQ_ROLE`, if set.
    pub role: Option<String>,
    /// `DAGQ_QUEUE`, if set.
    pub queue: Option<String>,
    /// `PATH`, copied into the agent so the supervisor finds what this shell
    /// finds.
    pub path: String,
    /// `CMUX_SOCKET_PASSWORD`, if this shell exported it; it is then copied
    /// into the agent too.
    pub socket_password: Option<String>,
    /// The binary launchd runs: this one, by absolute path.
    pub current_exe: String,
    /// The agent that the sessions run.
    pub agent: Agent,
    /// The agent's global config, which records the folder trust of each
    /// repository; none trusts nothing.
    pub claude_config: Option<String>,
}

/// Where the queue `up` and `down` work on lives: its database, its hash (the
/// external ID of its workspace group), and the label, plist and log
/// directory of its supervisor's launchd agent.
pub struct QueuePaths {
    pub db: String,
    pub hash: String,
    pub label: String,
    pub launch_agent: String,
    pub log_dir: String,
}

/// The repository `up` starts the supervisor for: the checkout it was
/// inspected from and its Git common directory.
pub struct RepositoryPaths {
    pub root: String,
    pub common_dir: String,
}

/// How `up` was called.
pub struct UpOptions {
    pub parallel: u16,
    /// The supervisor's `--max-waiting`.
    pub max_waiting: u16,
    /// Start the supervisor inside a cmux workspace instead of as a launchd
    /// agent.
    pub in_cmux: bool,
    /// Refuse to wait for a supervisor of another version to drain.
    pub no_wait: bool,
    /// The plugin directory, resolved.
    pub plugin_dir: Option<String>,
    /// Resolved executables.
    pub cmux: String,
    pub claude: String,
    /// How long a started supervisor may take to register, in seconds.
    pub startup_timeout: u64,
    /// How long a supervisor asked to hand off may take to come back, in
    /// seconds.
    pub handoff_timeout: u64,
    /// Have the supervisor update its own binary.
    pub auto_update: bool,
}

/// How `down` was called.
#[derive(Debug, Clone, Copy, PartialEq, Eq, Structural)]
pub struct DownOptions {
    /// Block until the supervisor's registration is gone or its process died.
    pub wait: bool,
    /// Kill after the unload and drop the registration rows.
    pub force: bool,
}

/// The arguments that keep a supervisor of this queue going.
pub open spec fn arguments(
    location: QueuePaths,
    db: Seq<char>,
    environment: UpEnvironment,
    options: UpOptions,
    default_waiting: nat,
    mode: SupervisorMode,
) -> Seq<Seq<char>> {
    let base = seq![
        environment.current_exe@,
        "--db"@,
        db,
        "supervise"@,
        "--parallel"@,
        text::decimal(options.parallel as nat),
        "--log-dir"@,
        location.log_dir@,
        "--cmux"@,
        options.cmux@,
        environment.agent.flag(),
        options.claude@,
        "--mode"@,
        mode.name(),
    ];
    let plugin = match options.plugin_dir {
        Some(dir) => base.push("--plugin-dir"@).push(dir@),
        None => base,
    };
    let waiting = if options.max_waiting as nat != default_waiting {
        plugin.push("--max-waiting"@).push(text::decimal(options.max_waiting as nat))
    } else {
        plugin
    };
    if options.auto_update {
        waiting.push("--auto-update"@)
    } else {
        waiting
    }
}

/// Add a word to a list of them.
fn word(list: &mut Vec<String>, what: &str)
    ensures
        text::views(final(list)@) == text::views(old(list)@).push(what@),
{
    let ghost had = list@;
    list.push(what.to_owned());
    assert(text::views(list@) =~= text::views(had).push(what@));
}

/// `<this binary> --db <db> supervise --parallel N --log-dir <queue logs>
/// --cmux <resolved> --<agent> <resolved> --mode <mode> [--plugin-dir <dir>]`:
/// what keeps a supervisor of this queue going, in either mode. The
/// executables are absolute so neither launchd's PATH nor the terminal's
/// decides which ones run. The default number of waiting runs is left out.
pub fn supervise_arguments(
    location: &QueuePaths,
    db: &str,
    environment: &UpEnvironment,
    options: &UpOptions,
    default_waiting: usize,
    mode: SupervisorMode,
) -> (r: Vec<String>)
    ensures
        text::views(r@) == arguments(
            *location,
            db@,
            *environment,
            *options,
            default_waiting as nat,
            mode,
        ),
{
    let parallel = text::number(options.parallel as u64);
    let mut out: Vec<String> = Vec::new();
    assert(text::views(out@) =~= Seq::empty());
    word(&mut out, environment.current_exe.as_str());
    word(&mut out, "--db");
    word(&mut out, db);
    word(&mut out, "supervise");
    word(&mut out, "--parallel");
    word(&mut out, parallel.as_str());
    word(&mut out, "--log-dir");
    word(&mut out, location.log_dir.as_str());
    word(&mut out, "--cmux");
    word(&mut out, options.cmux.as_str());
    let flag = environment.agent.option();
    word(&mut out, flag.as_str());
    word(&mut out, options.claude.as_str());
    word(&mut out, "--mode");
    word(&mut out, mode.as_str());
    if let Some(dir) = &options.plugin_dir {
        word(&mut out, "--plugin-dir");
        word(&mut out, dir.as_str());
    }
    if options.max_waiting as usize != default_waiting {
        let waiting = text::number(options.max_waiting as u64);
        word(&mut out, "--max-waiting");
        word(&mut out, waiting.as_str());
    }
    if options.auto_update {
        word(&mut out, "--auto-update");
    }
    out
}

/// The words of the supervisor workspace's command: this binary running
/// `supervise` on this queue, with the same arguments the launchd agent would
/// carry. cmux types them into a login shell, so each is quoted on its own.
pub fn supervise_command(
    location: &QueuePaths,
    db: &str,
    environment: &UpEnvironment,
    options: &UpOptions,
    default_waiting: usize,
) -> (r: Vec<String>)
    ensures
        text::views(r@) == arguments(
            *location,
            db@,
            *environment,
            *options,
            default_waiting as nat,
            SupervisorMode::InCmux,
        ),
{
    supervise_arguments(
        location,
        db,
        environment,
        options,
        default_waiting,
        SupervisorMode::InCmux,
    )
}

/// The words of a session's command.
pub open spec fn session_words(
    claude: Seq<char>,
    plugin_dir: Option<Seq<char>>,
    prompt: Seq<char>,
) -> Seq<Seq<char>> {
    match plugin_dir {
        Some(dir) => seq![claude, "--plugin-dir"@, dir, "--"@, prompt],
        None => seq![claude, "--"@, prompt],
    }
}

/// The words of a session's command: the agent with the prompt as its first
/// message.
pub fn session_command(claude: &str, plugin_dir: &Option<String>, prompt: &str) -> (r: Vec<String>)
    ensures
        text::views(r@) == session_words(claude@, text::opt_view(*plugin_dir), prompt@),
{
    let mut out: Vec<String> = Vec::new();
    assert(text::views(out@) =~= Seq::empty());
    word(&mut out, claude);
    if let Some(dir) = plugin_dir {
        word(&mut out, "--plugin-dir");
        word(&mut out, dir.as_str());
    }
    word(&mut out, "--");
    word(&mut out, prompt);
    assert(text::views(out@) =~= session_words(claude@, text::opt_view(*plugin_dir), prompt@));
    out
}

/// The words of the inbox workspace's command. The role and queue are the
/// workspace's own environment, not a prefix of this command, so an agent
/// started again in that workspace still has them. `prompt` is the inbox's
/// first message.
pub fn inbox_command(claude: &str, plugin_dir: &Option<String>, prompt: &str) -> (r: Vec<String>)
    ensures
        text::views(r@) == session_words(claude@, text::opt_view(*plugin_dir), prompt@),
{
    session_command(claude, plugin_dir, prompt)
}

/// What the supervisor's process gets of the shell that ran `up`.
pub struct SupervisorEnvironment {
    pub path: String,
    pub socket_password: Option<String>,
}

/// Everything that goes into the agent's plist.
pub struct LaunchAgentSpec {
    pub label: String,
    pub plist: String,
    pub program_arguments: Vec<String>,
    pub working_directory: String,
    /// PATH of the shell that ran `up` (launchd's own is too small for the
    /// executables) and the socket password when that shell exported it.
    pub environment: SupervisorEnvironment,
    pub log: String,
}

/// The agent definition: this binary running `supervise` on this queue from
/// the repository root, with the caller's PATH (and exported socket password)
/// and the queue's log directory.
pub fn launch_agent_spec(
    location: &QueuePaths,
    db: &str,
    repo_root: &str,
    environment: &UpEnvironment,
    options: &UpOptions,
    default_waiting: usize,
) -> (r: LaunchAgentSpec)
    ensures
        r.label == location.label,
        r.plist == location.launch_agent,
        text::views(r.program_arguments@) == arguments(
            *location,
            db@,
            *environment,
            *options,
            default_waiting as nat,
            SupervisorMode::Launchd,
        ),
        r.working_directory@ == repo_root@,
        r.environment.path == environment.path,
        r.environment.socket_password == environment.socket_password,
        r.log@ == path::under(location.log_dir@, LAUNCHD_LOG_NAME@),
{
    LaunchAgentSpec {
        label: location.label.clone(),
        plist: location.launch_agent.clone(),
        program_arguments: supervise_arguments(
            location,
            db,
            environment,
            options,
            default_waiting,
            SupervisorMode::Launchd,
        ),
        working_directory: repo_root.to_owned(),
        environment: SupervisorEnvironment {
            path: environment.path.clone(),
            socket_password: crate::domain::same_text(&environment.socket_password),
        },
        log: path::join_path(location.log_dir.as_str(), LAUNCHD_LOG_NAME),
    }
}

/// A character as a plist holds it.
pub open spec fn entity(c: char) -> Seq<char> {
    if c == '&' {
        "&amp;"@
    } else if c == '<' {
        "&lt;"@
    } else if c == '>' {
        "&gt;"@
    } else {
        seq![c]
    }
}

/// A text as a plist holds it.
pub open spec fn escaped(s: Seq<char>) -> Seq<char>
    decreases s.len(),
{
    if s.len() == 0 {
        Seq::empty()
    } else {
        escaped(s.drop_last()) + entity(s.last())
    }
}

/// The text as a plist holds it: its ampersands and angle brackets as
/// entities.
pub fn escape(plain: &str) -> (r: String)
    ensures
        r@ == escaped(plain@),
{
    let chars = text::chars_of(plain);
    let mut out = String::new();
    let mut i: usize = 0;
    while i < chars.len()
        invariant
            i <= chars@.len(),
            chars@ == plain@,
            out@ == escaped(plain@.take(i as int)),
        decreases chars@.len() - i,
    {
        let c = chars[i];
        proof {
            assert(plain@.take(i + 1).drop_last() =~= plain@.take(i as int));
            assert(plain@.take(i + 1).last() == c);
        }
        if c == '&' {
            out.append("&amp;");
        } else if c == '<' {
            out.append("&lt;");
        } else if c == '>' {
            out.append("&gt;");
        } else {
            let ghost had = out@;
            out.push(c);
            assert(out@ =~= had + seq![c]);
        }
        i += 1;
    }
    assert(plain@.take(plain@.len() as int) =~= plain@);
    out
}

/// An escaped text holds no angle bracket, so it cannot end the element it
/// stands in.
pub proof fn escaped_text_stays_inside(s: Seq<char>)
    ensures
        forall|i: int| 0 <= i < escaped(s).len() ==> #[trigger] escaped(s)[i] != '<' && escaped(s)[i]
            != '>',
    decreases s.len(),
{
    reveal_strlit("&amp;");
    reveal_strlit("&lt;");
    reveal_strlit("&gt;");
    if s.len() > 0 {
        escaped_text_stays_inside(s.drop_last());
        let before = escaped(s.drop_last());
        assert forall|i: int| 0 <= i < escaped(s).len() implies #[trigger] escaped(s)[i] != '<'
            && escaped(s)[i] != '>' by {
            if i < before.len() {
                assert(escaped(s)[i] == before[i]);
            } else {
                assert(escaped(s)[i] == entity(s.last())[i - before.len()]);
            }
        }
    }
}

/// Two texts that are escaped alike are the same: what a plist holds names
/// one text.
pub proof fn escaping_is_injective(a: Seq<char>, b: Seq<char>)
    requires
        escaped(a) == escaped(b),
    ensures
        a == b,
    decreases a.len(),
{
    reveal_strlit("&amp;");
    reveal_strlit("&lt;");
    reveal_strlit("&gt;");
    if a.len() == 0 {
        if b.len() > 0 {
            assert(escaped(b).len() > 0);
        }
        assert(a =~= b);
    } else if b.len() == 0 {
        assert(escaped(a).len() > 0);
    } else {
        let x = a.last();
        let y = b.last();
        let ex = escaped(a);
        assert(ex.last() == entity(x).last());
        assert(ex.last() == entity(y).last());
        last_of_escaped(a.drop_last());
        last_of_escaped(b.drop_last());
        same_ends(escaped(a.drop_last()), escaped(b.drop_last()), x, y);
        assert(escaped(a.drop_last()) =~= ex.take(ex.len() - entity(x).len()));
        assert(escaped(b.drop_last()) =~= ex.take(ex.len() - entity(y).len()));
        escaping_is_injective(a.drop_last(), b.drop_last());
        assert(a =~= a.drop_last().push(x));
        assert(b =~= b.drop_last().push(y));
    }
}

/// Whether a text ends within an entity: after an ampersand, and before the
/// semicolon that would close it.
pub open spec fn ends_open(s: Seq<char>) -> bool {
    ||| s.len() >= 1 && s[s.len() - 1] == '&'
    ||| s.len() >= 2 && s[s.len() - 2] == '&' && s[s.len() - 1] != ';'
    ||| s.len() >= 3 && s[s.len() - 3] == '&' && s[s.len() - 2] != ';' && s[s.len() - 1] != ';'
    ||| s.len() >= 4 && s[s.len() - 4] == '&' && s[s.len() - 3] != ';' && s[s.len() - 2] != ';'
        && s[s.len() - 1] != ';'
}

/// An escaped text does not end within an entity.
proof fn last_of_escaped(s: Seq<char>)
    ensures
        !ends_open(escaped(s)),
    decreases s.len(),
{
    reveal_strlit("&amp;");
    reveal_strlit("&lt;");
    reveal_strlit("&gt;");
    if s.len() > 0 {
        last_of_escaped(s.drop_last());
        let before = escaped(s.drop_last());
        let all = escaped(s);
        let n = all.len() as int;
        let e = entity(s.last());
        assert(all[n - 1] == e[e.len() - 1]);
        if e.len() == 1 {
            whole_entities(s);
        }
    }
}

/// After an ampersand of an escaped text a semicolon follows within four
/// characters.
proof fn whole_entities(s: Seq<char>)
    ensures
        !ends_open(escaped(s)),
        forall|i: int|
            0 <= i < escaped(s).len() && #[trigger] escaped(s)[i] == '&' ==> exists|j: int|
                i < j <= i + 4 && j < escaped(s).len() && #[trigger] escaped(s)[j] == ';',
    decreases s.len(),
{
    reveal_strlit("&amp;");
    reveal_strlit("&lt;");
    reveal_strlit("&gt;");
    if s.len() > 0 {
        whole_entities(s.drop_last());
        let before = escaped(s.drop_last());
        let all = escaped(s);
        let e = entity(s.last());
        let n = before.len() as int;
        assert forall|i: int| 0 <= i < all.len() && #[trigger] all[i] == '&' implies exists|j: int|
            i < j <= i + 4 && j < all.len() && #[trigger] all[j] == ';' by {
            if i < n {
                assert(before[i] == '&');
                let j = choose|j: int|
                    i < j <= i + 4 && j < before.len() && #[trigger] before[j] == ';';
                assert(all[j] == ';');
            } else {
                assert(all[i] == e[i - n]);
                assert(i == n);
                assert(all[n + e.len() - 1] == e[e.len() - 1]);
            }
        }
    }
}

/// The end of an escaped text names the character it stands for.
proof fn same_ends(before_x: Seq<char>, before_y: Seq<char>, x: char, y: char)
    requires
        before_x + entity(x) == before_y + entity(y),
        !ends_open(before_x),
        !ends_open(before_y),
    ensures
        x == y,
{
    reveal_strlit("&amp;");
    reveal_strlit("&lt;");
    reveal_strlit("&gt;");
    let s = before_x + entity(x);
    let t = before_y + entity(y);
    let n = s.len() as int;
    assert(s[n - 1] == entity(x)[entity(x).len() - 1]);
    assert(t[n - 1] == entity(y)[entity(y).len() - 1]);
    if entity(x).len() == 1 && entity(y).len() == 1 {
    } else if entity(x).len() == 1 {
        if y != x {
            assert(x == ';');
            assert(before_x.push(';') =~= before_y + entity(y));
            ends_inside(before_x, before_y, y);
        }
    } else if entity(y).len() == 1 {
        if x != y {
            assert(y == ';');
            assert(before_y.push(';') =~= before_x + entity(x));
            ends_inside(before_y, before_x, x);
        }
    } else {
        assert(s[n - 2] == entity(x)[entity(x).len() - 2]);
        assert(t[n - 2] == entity(y)[entity(y).len() - 2]);
        assert(s[n - 3] == entity(x)[entity(x).len() - 3]);
        assert(t[n - 3] == entity(y)[entity(y).len() - 3]);
    }
}

/// A text that ends where an entity lacks its semicolon ends within it.
proof fn ends_inside(short: Seq<char>, before: Seq<char>, c: char)
    requires
        entity(c).len() > 1,
        short.push(';') == before + entity(c),
    ensures
        ends_open(short),
{
    reveal_strlit("&amp;");
    reveal_strlit("&lt;");
    reveal_strlit("&gt;");
    let whole = before + entity(c);
    let e = entity(c);
    let m = short.len() as int;
    assert(short.push(';').len() == whole.len());
    assert(m == before.len() + e.len() - 1);
    assert forall|k: int| 0 <= k < e.len() - 1 implies short[before.len() + k] == #[trigger] e[k] by {
        assert(short.push(';')[before.len() + k] == whole[before.len() + k]);
    }
    assert(short[before.len() as int] == e[0]);
    assert(short[before.len() as int + 1] == e[1]);
    assert(short[before.len() as int + 2] == e[2]);
    if e.len() == 5 {
        assert(short[before.len() as int + 3] == e[3]);
    }
}

/// The agent's arguments as the plist lists them.
pub open spec fn argument_lines(list: Seq<Seq<char>>) -> Seq<char>
    decreases list.len(),
{
    if list.len() == 0 {
        Seq::empty()
    } else {
        argument_lines(list.drop_last()) + "\t\t<string>"@ + escaped(list.last()) + "</string>\n"@
    }
}

/// The environment of the agent's process as the plist lists it.
pub open spec fn environment_lines(environment: SupervisorEnvironment) -> Seq<char> {
    let base =
        "\t<key>EnvironmentVariables</key>\n\t<dict>\n\t\t<key>PATH</key>\n\t\t<string>"@ + escaped(
        environment.path@,
    ) + "</string>\n"@;
    match environment.socket_password {
        Some(password) => base + "\t\t<key>CMUX_SOCKET_PASSWORD</key>\n\t\t<string>"@ + escaped(
            password@,
        ) + "</string>\n"@,
        None => base,
    }
}

/// What stands before the agent's arguments in its plist.
pub open spec fn plist_head(label: Seq<char>) -> Seq<char> {
    "<?xml version=\"1.0\" encoding=\"UTF-8\"?>\n<!DOCTYPE plist PUBLIC \"-//Apple//DTD PLIST 1.0//EN\" \"http://www.apple.com/DTDs/PropertyList-1.0.dtd\">\n<plist version=\"1.0\">\n<dict>\n"@
        + "\t<key>Label</key>\n\t<string>"@ + escaped(label) + "</string>\n"@
}

/// What stands after the agent's arguments in its plist.
pub open spec fn plist_rest(spec: LaunchAgentSpec) -> Seq<char> {
    let log = escaped(spec.log@);
    "\t</array>\n\t<key>WorkingDirectory</key>\n\t<string>"@ + escaped(spec.working_directory@)
        + "</string>\n"@ + environment_lines(spec.environment)
        + "\t</dict>\n\t<key>KeepAlive</key>\n\t<true/>\n\t<key>RunAtLoad</key>\n\t<true/>\n\t<key>ExitTimeOut</key>\n\t<integer>86400</integer>\n\t<key>StandardOutPath</key>\n\t<string>"@
        + log + "</string>\n\t<key>StandardErrorPath</key>\n\t<string>"@ + log
        + "</string>\n</dict>\n</plist>\n"@
}

/// The plist of an agent.
pub open spec fn plist_of(spec: LaunchAgentSpec) -> Seq<char> {
    plist_head(spec.label@) + "\t<key>ProgramArguments</key>\n\t<array>\n"@ + argument_lines(
        text::views(spec.program_arguments@),
    ) + plist_rest(spec)
}

impl LaunchAgentSpec {
    /// The plist as launchd reads it: `KeepAlive` and `RunAtLoad` so the
    /// supervisor starts now and restarts after any exit, stdout and stderr
    /// appended to one file, and a long `ExitTimeOut` for the drain.
    pub fn xml(&self) -> (r: String)
        ensures
            r@ == plist_of(*self),
    {
        let label = escape(self.label.as_str());
        let mut lines = String::new();
        let ghost all = text::views(self.program_arguments@);
        let mut i: usize = 0;
        assert(argument_lines(all.take(0)) =~= Seq::empty());
        while i < self.program_arguments.len()
            invariant
                i <= self.program_arguments@.len(),
                all == text::views(self.program_arguments@),
                lines@ == argument_lines(all.take(i as int)),
            decreases self.program_arguments@.len() - i,
        {
            proof {
                assert(all.take(i + 1).drop_last() =~= all.take(i as int));
                assert(all.take(i + 1).last() == self.program_arguments@[i as int]@);
            }
            let argument = escape(self.program_arguments[i].as_str());
            lines.append("\t\t<string>");
            lines.append(argument.as_str());
            lines.append("</string>\n");
            i += 1;
        }
        assert(all.take(all.len() as int) =~= all);
        let path = escape(self.environment.path.as_str());
        let base =
            "\t<key>EnvironmentVariables</key>\n\t<dict>\n\t\t<key>PATH</key>\n\t\t<string>".to_owned().concat(
            path.as_str()).concat("</string>\n");
        let variables = match &self.environment.socket_password {
            Some(password) => {
                let password = escape(password.as_str());
                base.concat("\t\t<key>CMUX_SOCKET_PASSWORD</key>\n\t\t<string>").concat(
                    password.as_str(),
                ).concat("</string>\n")
            },
            None => base,
        };
        let log = escape(self.log.as_str());
        let directory = escape(self.working_directory.as_str());
        let rest =
            "\t</array>\n\t<key>WorkingDirectory</key>\n\t<string>".to_owned().concat(
            directory.as_str()).concat("</string>\n").concat(variables.as_str()).concat(
            "\t</dict>\n\t<key>KeepAlive</key>\n\t<true/>\n\t<key>RunAtLoad</key>\n\t<true/>\n\t<key>ExitTimeOut</key>\n\t<integer>86400</integer>\n\t<key>StandardOutPath</key>\n\t<string>",
        ).concat(log.as_str()).concat(
            "</string>\n\t<key>StandardErrorPath</key>\n\t<string>",
        ).concat(log.as_str()).concat("</string>\n</dict>\n</plist>\n");
        let head =
            "<?xml version=\"1.0\" encoding=\"UTF-8\"?>\n<!DOCTYPE plist PUBLIC \"-//Apple//DTD PLIST 1.0//EN\" \"http://www.apple.com/DTDs/PropertyList-1.0.dtd\">\n<plist version=\"1.0\">\n<dict>\n".to_owned().concat(
            "\t<key>Label</key>\n\t<string>").concat(label.as_str()).concat("</string>\n");
        head.concat("\t<key>ProgramArguments</key>\n\t<array>\n").concat(lines.as_str()).concat(
            rest.as_str(),
        )
    }
}

/// How a plist starts the arguments of an agent that runs `exe`.
pub open spec fn runs_fragment(exe: Seq<char>) -> Seq<char> {
    "<key>ProgramArguments</key>\n\t<array>\n\t\t<string>"@ + escaped(exe) + "</string>"@
}

/// Whether a plist starts its agent's arguments with `exe`.
pub fn agent_runs(plist: &str, exe: &str) -> (r: bool)
    ensures
        r == text::has_part(plist@, runs_fragment(exe@)),
{
    let name = escape(exe);
    let fragment =
        "<key>ProgramArguments</key>\n\t<array>\n\t\t<string>".to_owned().concat(
        name.as_str()).concat("</string>");
    text::contains(plist, fragment.as_str())
}

/// The lines of a list of arguments start with the first one's.
proof fn first_line(list: Seq<Seq<char>>) -> (rest: Seq<char>)
    requires
        list.len() > 0,
    ensures
        argument_lines(list) == "\t\t<string>"@ + escaped(list[0]) + "</string>\n"@ + rest,
    decreases list.len(),
{
    let line = "\t\t<string>"@ + escaped(list[0]) + "</string>\n"@;
    if list.len() == 1 {
        assert(list.drop_last() =~= Seq::empty());
        assert(argument_lines(list.drop_last()) =~= Seq::empty());
        assert(argument_lines(list) =~= line + Seq::<char>::empty());
        Seq::empty()
    } else {
        let before = first_line(list.drop_last());
        let more = "\t\t<string>"@ + escaped(list.last()) + "</string>\n"@;
        assert(argument_lines(list) =~= line + (before + more));
        before + more
    }
}

/// The plist `up` writes for an agent is known again as running the binary it
/// was written for.
pub proof fn written_agent_is_recognised(spec: LaunchAgentSpec)
    requires
        spec.program_arguments@.len() > 0,
    ensures
        text::has_part(plist_of(spec), runs_fragment(spec.program_arguments@[0]@)),
{
    let list = text::views(spec.program_arguments@);
    let exe = list[0];
    let rest = first_line(list);
    let fragment = runs_fragment(exe);
    reveal_strlit("\t<key>ProgramArguments</key>\n\t<array>\n");
    reveal_strlit("<key>ProgramArguments</key>\n\t<array>\n\t\t<string>");
    reveal_strlit("\t\t<string>");
    reveal_strlit("</string>\n");
    reveal_strlit("</string>");
    let before = plist_head(spec.label@) + seq!['\t'];
    let after = seq!['\n'] + rest + plist_rest(spec);
    assert("\t<key>ProgramArguments</key>\n\t<array>\n"@ + "\t\t<string>"@ =~= seq!['\t']
        + "<key>ProgramArguments</key>\n\t<array>\n\t\t<string>"@);
    assert("</string>\n"@ =~= "</string>"@ + seq!['\n']);
    assert(plist_of(spec) =~= plist_head(spec.label@) + (
    "\t<key>ProgramArguments</key>\n\t<array>\n"@ + "\t\t<string>"@) + escaped(exe)
        + "</string>\n"@ + rest + plist_rest(spec));
    assert(plist_of(spec) =~= before + fragment + after);
    text::part_is_found(before, fragment, after);
}

/// The arguments start with the binary and name the queue's database, in
/// either mode and whatever the options.
pub proof fn arguments_start_with_the_binary(
    location: QueuePaths,
    db: Seq<char>,
    environment: UpEnvironment,
    options: UpOptions,
    default_waiting: nat,
    mode: SupervisorMode,
)
    ensures
        ({
            let all = arguments(location, db, environment, options, default_waiting, mode);
            &&& all.len() >= 14
            &&& all[0] == environment.current_exe@
            &&& all[1] == "--db"@
            &&& all[2] == db
            &&& all[13] == mode.name()
        }),
{
}

/// A supervisor is run on the queue, with the limits, programs and mode it was
/// asked for; what has a default is passed only where it differs, and the
/// updates only where they were asked for.
pub proof fn a_supervisor_runs_as_asked(
    location: &QueuePaths,
    db: &str,
    environment: &UpEnvironment,
    options: &UpOptions,
    default_waiting: usize,
    mode: SupervisorMode,
    r: Vec<String>,
)
    requires
        call_ensures(
            supervise_arguments,
            (location, db, environment, options, default_waiting, mode),
            r,
        ),
    ensures
        r@.len() == 14 + (if options.plugin_dir is Some {
            2int
        } else {
            0
        }) + (if options.max_waiting as int != default_waiting {
            2int
        } else {
            0
        }) + (if options.auto_update {
            1int
        } else {
            0
        }),
        r@[0]@ == environment.current_exe@,
        r@[1]@ == "--db"@ && r@[2]@ == db@,
        r@[3]@ == "supervise"@,
        r@[4]@ == "--parallel"@ && r@[5]@ == text::decimal(options.parallel as nat),
        r@[6]@ == "--log-dir"@ && r@[7]@ == location.log_dir@,
        r@[8]@ == "--cmux"@ && r@[9]@ == options.cmux@,
        r@[10]@ == "--"@ + environment.agent.program@ && r@[11]@ == options.claude@,
        r@[12]@ == "--mode"@,
        mode == SupervisorMode::Launchd ==> r@[13]@ == "launchd"@,
        mode == SupervisorMode::InCmux ==> r@[13]@ == "in_cmux"@,
        options.plugin_dir is Some ==> r@[14]@ == "--plugin-dir"@ && r@[15]@
            == options.plugin_dir->0@,
        options.plugin_dir is None && options.max_waiting as int != default_waiting ==> r@[14]@
            == "--max-waiting"@ && r@[15]@ == text::decimal(options.max_waiting as nat),
        options.plugin_dir is Some && options.max_waiting as int != default_waiting ==> r@[16]@
            == "--max-waiting"@ && r@[17]@ == text::decimal(options.max_waiting as nat),
        options.auto_update ==> r@.last()@ == "--auto-update"@,
{
    let words = text::views(r@);
    assert(words.len() == r@.len());
    assert forall|i: int| 0 <= i < words.len() implies (#[trigger] r@[i])@ == words[i] by {}
}

/// The command of a workspace is that of a supervisor in cmux.
pub proof fn a_workspace_runs_a_supervisor_in_cmux(
    location: &QueuePaths,
    db: &str,
    environment: &UpEnvironment,
    options: &UpOptions,
    default_waiting: usize,
    r: Vec<String>,
)
    requires
        call_ensures(supervise_command, (location, db, environment, options, default_waiting), r),
    ensures
        r@.len() >= 14,
        r@[0]@ == environment.current_exe@,
        r@[12]@ == "--mode"@ && r@[13]@ == "in_cmux"@,
{
    let words = text::views(r@);
    assert(words.len() == r@.len());
    assert(r@[0]@ == words[0] && r@[12]@ == words[12] && r@[13]@ == words[13]);
}

/// A session's command is its agent's, with the plugins where there are any, and
/// the prompt last, behind the end of the options.
pub proof fn a_sessions_prompt_comes_last(
    claude: &str,
    plugin_dir: &Option<String>,
    prompt: &str,
    r: Vec<String>,
)
    requires
        call_ensures(session_command, (claude, plugin_dir, prompt), r) || call_ensures(
            inbox_command,
            (claude, plugin_dir, prompt),
            r,
        ),
    ensures
        r@[0]@ == claude@,
        r@.last()@ == prompt@,
        r@[r@.len() - 2]@ == "--"@,
        r@.len() == (if *plugin_dir is Some {
            5int
        } else {
            3
        }),
        *plugin_dir is Some ==> r@[1]@ == "--plugin-dir"@ && r@[2]@ == plugin_dir->0@,
{
    let words = text::views(r@);
    assert(words.len() == r@.len());
    assert forall|i: int| 0 <= i < words.len() implies (#[trigger] r@[i])@ == words[i] by {}
}

/// The agent that launchd runs starts a supervisor in its mode, in the
/// repository, with the path and the password of the environment.
pub proof fn launchd_runs_the_supervisor_of_the_queue(
    location: &QueuePaths,
    db: &str,
    repo_root: &str,
    environment: &UpEnvironment,
    options: &UpOptions,
    default_waiting: usize,
    r: LaunchAgentSpec,
)
    requires
        call_ensures(
            launch_agent_spec,
            (location, db, repo_root, environment, options, default_waiting),
            r,
        ),
    ensures
        r.label == location.label,
        r.plist == location.launch_agent,
        r.program_arguments@.len() >= 14,
        r.program_arguments@[0]@ == environment.current_exe@,
        r.program_arguments@[2]@ == db@,
        r.program_arguments@[13]@ == "launchd"@,
        r.working_directory@ == repo_root@,
        r.environment.path == environment.path,
        r.environment.socket_password == environment.socket_password,
        r.log@ == path::under(location.log_dir@, "launchd.log"@),
{
    let words = text::views(r.program_arguments@);
    assert(words.len() == r.program_arguments@.len());
    assert(r.program_arguments@[0]@ == words[0] && r.program_arguments@[2]@ == words[2]
        && r.program_arguments@[13]@ == words[13]);
}

/// Text without markup is written as it is.
pub proof fn plain_text_is_not_escaped(s: Seq<char>)
    requires
        forall|i: int| 0 <= i < s.len() ==> #[trigger] s[i] != '&' && s[i] != '<' && s[i] != '>',
    ensures
        escaped(s) == s,
    decreases s.len(),
{
    if s.len() > 0 {
        let front = s.drop_last();
        assert forall|i: int| 0 <= i < front.len() implies #[trigger] front[i] != '&' && front[i]
            != '<' && front[i] != '>' by {
            assert(front[i] == s[i]);
        }
        plain_text_is_not_escaped(front);
        assert(s.last() == s[s.len() - 1]);
        assert(escaped(s) =~= s);
    }
}

/// The property list of an agent names its label, its working directory, its
/// path and its log, and keeps the supervisor alive; it holds a password only
/// where there is one.
pub proof fn a_property_list_says_what_is_run(spec: LaunchAgentSpec)
    ensures
        text::has_part(
            plist_of(spec),
            "\t<key>Label</key>\n\t<string>"@ + escaped(spec.label@) + "</string>\n"@,
        ),
        text::has_part(
            plist_of(spec),
            "\t</array>\n\t<key>WorkingDirectory</key>\n\t<string>"@ + escaped(
                spec.working_directory@,
            ) + "</string>\n"@,
        ),
        text::has_part(
            plist_of(spec),
            "\t<key>EnvironmentVariables</key>\n\t<dict>\n\t\t<key>PATH</key>\n\t\t<string>"@
                + escaped(spec.environment.path@) + "</string>\n"@,
        ),
        spec.environment.socket_password is Some ==> text::has_part(
            plist_of(spec),
            "\t\t<key>CMUX_SOCKET_PASSWORD</key>\n\t\t<string>"@ + escaped(
                spec.environment.socket_password->0@,
            ) + "</string>\n"@,
        ),
{
    let whole = plist_of(spec);
    let label = "\t<key>Label</key>\n\t<string>"@ + escaped(spec.label@) + "</string>\n"@;
    let head = plist_head(spec.label@);
    let opening = head.take(head.len() - label.len());
    let lines = "\t<key>ProgramArguments</key>\n\t<array>\n"@ + argument_lines(
        text::views(spec.program_arguments@),
    );
    let rest = plist_rest(spec);
    assert(head =~= opening + label);
    assert(whole =~= opening + label + (lines + rest));
    text::part_is_found(opening, label, lines + rest);
    let work = "\t</array>\n\t<key>WorkingDirectory</key>\n\t<string>"@ + escaped(
        spec.working_directory@,
    ) + "</string>\n"@;
    let after_work = rest.skip(work.len() as int);
    assert(rest =~= work + after_work);
    assert(whole =~= (head + lines) + work + after_work);
    text::part_is_found(head + lines, work, after_work);
    let env = environment_lines(spec.environment);
    let path =
        "\t<key>EnvironmentVariables</key>\n\t<dict>\n\t\t<key>PATH</key>\n\t\t<string>"@
        + escaped(spec.environment.path@) + "</string>\n"@;
    let after_env = rest.skip((work.len() + env.len()) as int);
    assert(rest =~= work + env + after_env);
    let after_path = env.skip(path.len() as int);
    assert(env =~= path + after_path);
    assert(whole =~= (head + lines + work) + path + (after_path + after_env));
    text::part_is_found(head + lines + work, path, after_path + after_env);
    if spec.environment.socket_password is Some {
        let password = "\t\t<key>CMUX_SOCKET_PASSWORD</key>\n\t\t<string>"@ + escaped(
            spec.environment.socket_password->0@,
        ) + "</string>\n"@;
        assert(env =~= path + password);
        assert(whole =~= (head + lines + work + path) + password + after_env);
        text::part_is_found(head + lines + work + path, password, after_env);
    }
}

} // verus!
