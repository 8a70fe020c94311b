//! The plugin: its state, its entry points and its prompt-variable callbacks.
//! Entry points return plain values; writing to the terminal and keeping the
//! state behind a lock is the job of the exported layer around them.
use vstd::prelude::*;
use vstd::string::StringExecFns;
use vstd::utf8::encode_utf8;
use crate::abi::{
    carries, plugin_args_t, plugin_error_t, plugin_info_t, plugin_setting_t, plugin_string_from,
    plugin_string_t, error_code, PLUGIN_INTERFACE_VERSION,
};
use crate::clock::{elapsed_secs, instant_now, local_time_text};
use crate::quotes::{quotes, random_quote};
use crate::settings::{
    default_setting_list, default_settings, find_setting, is_declared_key, keys_unique, pairs,
    put, put_all, put_setting,
};
use crate::text::{copy_from, decimal, decimal_string, join, join_strings, owned, views};

verus! {

/// The state that the plugin keeps between calls.
pub struct PluginState {
    pub settings: Vec<plugin_setting_t>,
    pub command_history: Vec<String>,
    pub start_time: std::time::Instant,
    pub background_thread_running: bool,
}

impl PluginState {
    /// Setting keys are unique.
    pub open spec fn wf(&self) -> bool {
        keys_unique(pairs(self.settings@))
    }

    /// The settings as text.
    pub open spec fn settings_view(&self) -> Seq<(Seq<char>, Seq<char>)> {
        pairs(self.settings@)
    }

    /// The commands handled since the last initialization, oldest first.
    pub open spec fn history(&self) -> Seq<Seq<char>> {
        views(self.command_history@)
    }

    /// A fresh state: no settings, no history, no background work.
    pub fn new() -> (r: PluginState)
        ensures
            r.wf(),
            r.settings_view().len() == 0,
            r.history().len() == 0,
            !r.background_thread_running,
    {
        let r = PluginState {
            settings: Vec::new(),
            command_history: Vec::new(),
            start_time: instant_now(),
            background_thread_running: false,
        };
        assert(r.settings_view() =~= Seq::empty());
        assert(r.history() =~= Seq::empty());
        r
    }
}

/// The plugin's metadata.
pub open spec fn info_name() -> Seq<char> {
    "example_rust_plugin"@
}

/// The commands that the plugin declares.
pub open spec fn commands() -> Seq<Seq<char>> {
    seq!["hello"@, "echo"@, "settings"@, "history"@, "quote"@, "time"@, "uptime"@, "help"@]
}

/// The events that the plugin subscribes to.
pub open spec fn subscribed_events() -> Seq<Seq<char>> {
    seq![
        "main_process_pre_run"@,
        "main_process_start"@,
        "main_process_end"@,
        "main_process_command_processed"@,
        "plugin_enabled"@,
        "plugin_disabled"@,
    ]
}

/// The prompt variables that the plugin provides.
pub open spec fn prompt_variables() -> Seq<Seq<char>> {
    seq!["CURRENT_TIME"@, "PLUGIN_UPTIME"@, "RANDOM_QUOTE"@]
}

/// The setting that switches the background work on and off.
pub open spec fn background_key() -> Seq<char> {
    "enable_background_tasks"@
}

/// The metadata of this plugin. Its strings live as long as the plugin does:
/// the host borrows them and never releases them.
pub fn plugin_get_info() -> (r: plugin_info_t)
    ensures
        r.name@ == info_name(),
        r.version@ == "1.0.0"@,
        r.description@ == "A comprehensive plugin demonstrating all CJSH plugin features in Rust"@,
        r.author@ == "Caden Finley"@,
        r.interface_version == PLUGIN_INTERFACE_VERSION,
{
    plugin_info_t {
        name: owned("example_rust_plugin"),
        version: owned("1.0.0"),
        description: owned("A comprehensive plugin demonstrating all CJSH plugin features in Rust"),
        author: owned("Caden Finley"),
        interface_version: PLUGIN_INTERFACE_VERSION,
    }
}

/// The names of the prompt variables to register, in the order of
/// registration.
pub fn prompt_variable_names() -> (r: Vec<String>)
    ensures
        views(r@) == prompt_variables(),
{
    let r = vec![owned("CURRENT_TIME"), owned("PLUGIN_UPTIME"), owned("RANDOM_QUOTE")];
    assert(views(r@) =~= prompt_variables());
    r
}

/// Starts the plugin: the history is cleared, the uptime clock restarts and
/// the background work is switched on. Settings are kept.
pub fn plugin_initialize(state: &mut PluginState) -> (r: i32)
    requires
        old(state).wf(),
    ensures
        r == error_code(plugin_error_t::PLUGIN_SUCCESS),
        final(state).wf(),
        final(state).history().len() == 0,
        final(state).background_thread_running,
        final(state).settings_view() == old(state).settings_view(),
{
    state.command_history.clear();
    state.start_time = instant_now();
    state.background_thread_running = true;
    assert(state.history() =~= Seq::empty());
    plugin_error_t::PLUGIN_SUCCESS.code()
}

/// Stops the plugin: the background work is switched off and the history is
/// released. Settings are kept.
pub fn plugin_shutdown(state: &mut PluginState)
    requires
        old(state).wf(),
    ensures
        final(state).wf(),
        !final(state).background_thread_running,
        final(state).history().len() == 0,
        final(state).settings_view() == old(state).settings_view(),
{
    state.background_thread_running = false;
    state.command_history.clear();
    assert(state.history() =~= Seq::empty());
}

/// The names of the commands that the plugin declares.
pub fn plugin_get_commands() -> (r: Vec<String>)
    ensures
        views(r@) == commands(),
{
    let r = vec![
        owned("hello"),
        owned("echo"),
        owned("settings"),
        owned("history"),
        owned("quote"),
        owned("time"),
        owned("uptime"),
        owned("help"),
    ];
    assert(views(r@) =~= commands());
    r
}

/// The names of the events that the plugin subscribes to.
pub fn plugin_get_subscribed_events() -> (r: Vec<String>)
    ensures
        views(r@) == subscribed_events(),
{
    let r = vec![
        owned("main_process_pre_run"),
        owned("main_process_start"),
        owned("main_process_end"),
        owned("main_process_command_processed"),
        owned("plugin_enabled"),
        owned("plugin_disabled"),
    ];
    assert(views(r@) =~= subscribed_events());
    r
}

/// The declared settings with their defaults; each is also written into the
/// plugin's own store, in order.
pub fn plugin_get_default_settings(state: &mut PluginState) -> (r: Vec<plugin_setting_t>)
    requires
        old(state).wf(),
    ensures
        pairs(r@) == default_settings(),
        final(state).wf(),
        final(state).settings_view() == put_all(old(state).settings_view(), default_settings()),
        final(state).history() == old(state).history(),
        final(state).background_thread_running == old(state).background_thread_running,
{
    let defaults = default_setting_list();
    let ghost start = state.settings_view();
    let mut i: usize = 0;
    while i < defaults.len()
        invariant
            pairs(defaults@) == default_settings(),
            i <= defaults@.len(),
            state.wf(),
            state.settings_view() == put_all(start, pairs(defaults@).subrange(0, i as int)),
            state.history() == old(state).history(),
            state.background_thread_running == old(state).background_thread_running,
        decreases defaults@.len() - i,
    {
        let s = defaults[i].copy();
        put_setting(&mut state.settings, s.key, s.value);
        assert(pairs(defaults@).subrange(0, i + 1).drop_last()
            =~= pairs(defaults@).subrange(0, i as int));
        i = i + 1;
    }
    assert(pairs(defaults@).subrange(0, i as int) =~= pairs(defaults@));
    defaults
}

/// Whether `k` is one of the declared setting keys.
pub fn is_declared_setting(k: &String) -> (r: bool)
    ensures
        r == is_declared_key(k@),
{
    let list = default_setting_list();
    match find_setting(&list, k) {
        Some(i) => {
            assert(pairs(list@)[i as int].0 == k@);
            true
        },
        None => false,
    }
}

/// Writes one setting. A missing key or value, and a key that the plugin
/// does not declare, are refused with `PLUGIN_ERROR_INVALID_ARGS` and change
/// nothing. Writing the background setting switches the background work on
/// exactly when the value is "true".
pub fn plugin_update_setting(state: &mut PluginState, key: Option<String>, value: Option<String>) -> (r: i32)
    requires
        old(state).wf(),
    ensures
        final(state).wf(),
        final(state).history() == old(state).history(),
        (key is None || value is None || !is_declared_key(key->0@)) ==> {
            &&& r == error_code(plugin_error_t::PLUGIN_ERROR_INVALID_ARGS)
            &&& final(state).settings_view() == old(state).settings_view()
            &&& final(state).background_thread_running == old(state).background_thread_running
        },
        (key is Some && value is Some && is_declared_key(key->0@)) ==> {
            &&& r == error_code(plugin_error_t::PLUGIN_SUCCESS)
            &&& final(state).settings_view() == put(old(state).settings_view(), key->0@, value->0@)
            &&& final(state).background_thread_running == (if key->0@ == background_key() {
                value->0@ == "true"@
            } else {
                old(state).background_thread_running
            })
        },
{
    match (key, value) {
        (Some(k), Some(v)) => {
            if !is_declared_setting(&k) {
                return plugin_error_t::PLUGIN_ERROR_INVALID_ARGS.code();
            }
            let is_background = k == owned("enable_background_tasks");
            let enable = v == owned("true");
            put_setting(&mut state.settings, k, v);
            if is_background {
                state.background_thread_running = enable;
            }
            plugin_error_t::PLUGIN_SUCCESS.code()
        },
        _ => plugin_error_t::PLUGIN_ERROR_INVALID_ARGS.code(),
    }
}

/// `n` seconds of uptime as text: "42s".
pub open spec fn uptime_view(n: nat) -> Seq<char> {
    decimal(n) + "s"@
}

/// The uptime text for `secs` seconds.
pub fn uptime_text(secs: u64) -> (r: String)
    ensures
        r@ == uptime_view(secs as nat),
{
    let mut s = decimal_string(secs);
    s.append("s");
    s
}

/// The prompt variable of the local date and time.
pub fn current_time_callback() -> (r: plugin_string_t)
    ensures
        r.wf(),
{
    let t = local_time_text();
    plugin_string_from(t.as_str())
}

/// The prompt variable of the time since the plugin was initialized.
pub fn uptime_callback(state: &PluginState) -> (r: plugin_string_t)
    ensures
        r.wf(),
        exists|n: nat| carries(r, encode_utf8(#[trigger] uptime_view(n))),
{
    let secs = elapsed_secs(&state.start_time);
    let t = uptime_text(secs);
    let r = plugin_string_from(t.as_str());
    assert(carries(r, encode_utf8(uptime_view(secs as nat))));
    r
}

/// The prompt variable of a random quote.
pub fn random_quote_callback() -> (r: plugin_string_t)
    ensures
        r.wf(),
        exists|i: int| 0 <= i < quotes().len() && carries(r, encode_utf8(#[trigger] quotes()[i])),
{
    let q = random_quote();
    let r = plugin_string_from(q.as_str());
    let ghost i = choose|i: int| 0 <= i < quotes().len() && quotes()[i] == q@;
    assert(carries(r, encode_utf8(quotes()[i])));
    r
}

/// The commands that the handler tells apart.
#[derive(Clone, Copy, Debug, PartialEq, Eq, Structural)]
pub enum CommandKind {
    Hello,
    Echo,
    Settings,
    History,
    Quote,
    Time,
    Uptime,
    Help,
    Event,
    Unknown,
}

/// Which command the name `c` stands for.
pub open spec fn command_kind(c: Seq<char>) -> CommandKind {
    if c == "hello"@ {
        CommandKind::Hello
    } else if c == "echo"@ {
        CommandKind::Echo
    } else if c == "settings"@ {
        CommandKind::Settings
    } else if c == "history"@ {
        CommandKind::History
    } else if c == "quote"@ {
        CommandKind::Quote
    } else if c == "time"@ {
        CommandKind::Time
    } else if c == "uptime"@ {
        CommandKind::Uptime
    } else if c == "help"@ {
        CommandKind::Help
    } else if c == "event"@ {
        CommandKind::Event
    } else {
        CommandKind::Unknown
    }
}

/// Which command `c` names.
pub fn classify(c: &String) -> (r: CommandKind)
    ensures
        r == command_kind(c@),
{
    if *c == owned("hello") {
        CommandKind::Hello
    } else if *c == owned("echo") {
        CommandKind::Echo
    } else if *c == owned("settings") {
        CommandKind::Settings
    } else if *c == owned("history") {
        CommandKind::History
    } else if *c == owned("quote") {
        CommandKind::Quote
    } else if *c == owned("time") {
        CommandKind::Time
    } else if *c == owned("uptime") {
        CommandKind::Uptime
    } else if *c == owned("help") {
        CommandKind::Help
    } else if *c == owned("event") {
        CommandKind::Event
    } else {
        CommandKind::Unknown
    }
}

/// What a command produced, for the caller to show.
pub enum CommandReply {
    /// No command name was given.
    MissingCommand,
    /// The greeting.
    Greeting,
    /// The operands, joined by single spaces.
    Echo { text: String },
    /// The current settings, in store order.
    Settings { entries: Vec<plugin_setting_t> },
    /// The commands handled so far, oldest first, this one included.
    History { commands: Vec<String> },
    Quote { text: String },
    Time { text: String },
    Uptime { text: String },
    /// The list of commands.
    Help,
    /// An event with its name and free-form arguments.
    Event { name: String, args: Vec<String> },
    /// An event command without an event name: nothing to show.
    EventWithoutName,
    /// A name that is none of the plugin's commands.
    Unknown { command: String },
}

/// The status that goes with a reply.
pub open spec fn reply_status(r: CommandReply) -> plugin_error_t {
    match r {
        CommandReply::MissingCommand => plugin_error_t::PLUGIN_ERROR_INVALID_ARGS,
        CommandReply::Unknown { .. } => plugin_error_t::PLUGIN_ERROR_INVALID_ARGS,
        _ => plugin_error_t::PLUGIN_SUCCESS,
    }
}

impl CommandReply {
    /// The status code of this reply.
    pub fn status(&self) -> (r: i32)
        ensures
            r == error_code(reply_status(*self)),
    {
        match self {
            CommandReply::MissingCommand => plugin_error_t::PLUGIN_ERROR_INVALID_ARGS.code(),
            CommandReply::Unknown { .. } => plugin_error_t::PLUGIN_ERROR_INVALID_ARGS.code(),
            _ => plugin_error_t::PLUGIN_SUCCESS.code(),
        }
    }
}

/// `r` is the reply that the command `kind` owes for the arguments `a`, given
/// the settings `st` and the history `h` after this command was recorded.
pub open spec fn reply_for(
    kind: CommandKind,
    a: Seq<Seq<char>>,
    st: Seq<(Seq<char>, Seq<char>)>,
    h: Seq<Seq<char>>,
    r: CommandReply,
) -> bool {
    match kind {
        CommandKind::Hello => r is Greeting,
        CommandKind::Echo => r matches CommandReply::Echo { text } && text@ == (if a.len() > 1 {
            join(a.subrange(1, a.len() as int), " "@)
        } else {
            Seq::empty()
        }),
        CommandKind::Settings => r matches CommandReply::Settings { entries } && pairs(entries@) == st,
        CommandKind::History => r matches CommandReply::History { commands } && views(commands@) == h,
        CommandKind::Quote => r matches CommandReply::Quote { text } && quotes().contains(text@),
        CommandKind::Time => r is Time,
        CommandKind::Uptime => r matches CommandReply::Uptime { text } && exists|n: nat| text@ == #[trigger] uptime_view(n),
        CommandKind::Help => r is Help,
        CommandKind::Event => if a.len() > 1 {
            r matches CommandReply::Event { name, args } && name@ == a[1] && views(args@) == a.subrange(2, a.len() as int)
        } else {
            r is EventWithoutName
        },
        CommandKind::Unknown => r matches CommandReply::Unknown { command } && command@ == a[0],
    }
}

/// Handles one command. Without a command name the reply is `MissingCommand`
/// and nothing changes; otherwise the name is recorded in the history and the
/// reply is the one that its command owes.
pub fn plugin_handle_command(state: &mut PluginState, args: &plugin_args_t) -> (r: CommandReply)
    requires
        old(state).wf(),
        args.wf(),
    ensures
        final(state).wf(),
        final(state).settings_view() == old(state).settings_view(),
        final(state).background_thread_running == old(state).background_thread_running,
        args.count < 1 ==> r is MissingCommand && final(state).history() == old(state).history(),
        args.count >= 1 ==> {
            &&& final(state).history() == old(state).history().push(args.args@[0]@)
            &&& reply_for(
                command_kind(args.args@[0]@),
                views(args.args@),
                final(state).settings_view(),
                final(state).history(),
                r,
            )
        },
{
    if args.args.len() < 1 {
        return CommandReply::MissingCommand;
    }
    let cmd = args.args[0].clone();
    let ghost h0 = state.history();
    state.command_history.push(cmd.clone());
    assert(state.history() =~= h0.push(args.args@[0]@));
    let ghost a = views(args.args@);
    assert(a.len() == args.args@.len());
    assert(a[0] == args.args@[0]@);
    assert(a.len() > 1 ==> a[1] == args.args@[1]@);
    match classify(&cmd) {
        CommandKind::Hello => CommandReply::Greeting,
        CommandKind::Echo => {
            let text = join_args(args, 1, " ");
            proof {
                if a.len() <= 1 {
                    assert(text@ =~= Seq::<char>::empty());
                }
            }
            CommandReply::Echo { text }
        },
        CommandKind::Settings => {
            let entries = copy_settings(&state.settings);
            CommandReply::Settings { entries }
        },
        CommandKind::History => {
            let commands = copy_from(&state.command_history, 0);
            assert(views(state.command_history@).subrange(0, state.command_history@.len() as int)
                =~= state.history());
            CommandReply::History { commands }
        },
        CommandKind::Quote => CommandReply::Quote { text: random_quote() },
        CommandKind::Time => CommandReply::Time { text: local_time_text() },
        CommandKind::Uptime => {
            let secs = elapsed_secs(&state.start_time);
            let text = uptime_text(secs);
            assert(text@ == uptime_view(secs as nat));
            CommandReply::Uptime { text }
        },
        CommandKind::Help => CommandReply::Help,
        CommandKind::Event => {
            if args.args.len() > 1 {
                let name = args.args[1].clone();
                let rest = copy_from(&args.args, 2);
                CommandReply::Event { name, args: rest }
            } else {
                CommandReply::EventWithoutName
            }
        },
        CommandKind::Unknown => CommandReply::Unknown { command: cmd },
    }
}

/// Copies of the pairs of `v`.
pub fn copy_settings(v: &Vec<plugin_setting_t>) -> (r: Vec<plugin_setting_t>)
    ensures
        pairs(r@) == pairs(v@),
{
    let mut r: Vec<plugin_setting_t> = Vec::new();
    let mut i: usize = 0;
    while i < v.len()
        invariant
            i <= v@.len(),
            pairs(r@) == pairs(v@).subrange(0, i as int),
        decreases v@.len() - i,
    {
        let ghost before = r@;
        r.push(v[i].copy());
        assert(pairs(r@) =~= pairs(before).push(v@[i as int].view_pair()));
        assert(pairs(v@)[i as int] == v@[i as int].view_pair());
        assert(pairs(r@) =~= pairs(v@).subrange(0, i + 1));
        i = i + 1;
    }
    assert(pairs(v@).subrange(0, i as int) =~= pairs(v@));
    r
}

/// The arguments from `start_pos` on, with `separator` between each two.
pub fn join_args(args: &plugin_args_t, start_pos: usize, separator: &str) -> (r: String)
    requires
        args.wf(),
    ensures
        start_pos >= args.args@.len() ==> r@.len() == 0,
        start_pos < args.args@.len() ==> r@ == join(
            views(args.args@).subrange(start_pos as int, args.args@.len() as int),
            separator@,
        ),
{
    let r = join_strings(&args.args, start_pos, separator);
    assert(start_pos < args.args@.len() ==> views(args.args@.subrange(start_pos as int, args.args@.len() as int))
        =~= views(args.args@).subrange(start_pos as int, args.args@.len() as int));
    r
}

} // verus!
