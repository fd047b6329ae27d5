//! The application facade: builder-style configuration, command
//! registration, and the dispatch step that ties tokenizer, registry lookup,
//! execution context and help rendering together.
//!
//! Reading the raw line from the input stream is the caller's concern; the
//! dispatch step itself takes the line and an environment snapshot as plain
//! values, so the whole decision is a function of the application state and
//! its arguments.

use crate::command::CommandEntry;
use crate::config::AppConfig;
use crate::config::CargoConfig;
use crate::context::Context;
use crate::context::Environment;
use crate::help::DefaultHelpStructure;
use crate::help::HelpMessage;
use crate::help::HelpText;
use crate::help::help_colored;
use crate::help::help_plain;
use crate::parser::Input;
use crate::parser::InputPart;
use crate::parser::TokenizeError;
use crate::parser::classify;
use crate::parser::parts_view;
use crate::parser::shell_split;
use crate::parser::tokens_of;
use vstd::prelude::*;

verus! {

/// The commands that remain for resolution and help: the registry restricted
/// to its enabled entries, in registration order.
pub open spec fn enabled_of(cmds: Seq<CommandEntry>) -> Seq<CommandEntry>
    decreases cmds.len(),
{
    if cmds.len() == 0 {
        Seq::empty()
    } else {
        let rest = enabled_of(cmds.drop_last());
        if !cmds.last().disabled {
            rest.push(cmds.last())
        } else {
            rest
        }
    }
}

/// Registering one more command extends the enabled snapshot by exactly that
/// command when it is enabled, and leaves the snapshot unchanged when it is
/// disabled. Applied along any sequence of register calls, this pins the
/// help body lines to registration order restricted to enabled commands.
pub proof fn lemma_snapshot_follows_registration(cmds: Seq<CommandEntry>, e: CommandEntry)
    ensures
        enabled_of(cmds.push(e)) == if e.disabled {
            enabled_of(cmds)
        } else {
            enabled_of(cmds).push(e)
        },
{
    assert(cmds.push(e).drop_last() =~= cmds);
}

/// Every command of the enabled snapshot is enabled.
pub proof fn lemma_snapshot_all_enabled(cmds: Seq<CommandEntry>)
    ensures
        forall|k: int|
            0 <= k < enabled_of(cmds).len() ==> !(#[trigger] enabled_of(cmds)[k]).disabled,
    decreases cmds.len(),
{
    if cmds.len() > 0 {
        lemma_snapshot_all_enabled(cmds.drop_last());
        let rest = enabled_of(cmds.drop_last());
        assert forall|k: int|
            0 <= k < enabled_of(cmds).len() implies !(enabled_of(cmds)[k]).disabled by {
            if !cmds.last().disabled {
                if k < rest.len() {
                    assert(enabled_of(cmds)[k] == rest[k]);
                } else {
                    assert(enabled_of(cmds)[k] == cmds.last());
                }
            } else {
                assert(enabled_of(cmds)[k] == rest[k]);
            }
        }
    }
}

/// Whether this entry answers a lookup for `name`: the names agree and the
/// entry is enabled.
pub open spec fn answers_lookup(e: CommandEntry, name: Seq<char>) -> bool {
    e.name@ == name && !e.disabled
}

/// The registry index resolution yields for `name`: the first entry, in
/// registration order, whose name matches and which is enabled.
pub open spec fn resolve_idx(cmds: Seq<CommandEntry>, name: Seq<char>) -> Option<int>
    decreases cmds.len(),
{
    if cmds.len() == 0 {
        None
    } else if answers_lookup(cmds[0], name) {
        Some(0)
    } else {
        match resolve_idx(cmds.subrange(1, cmds.len() as int), name) {
            Some(i) => Some(i + 1),
            None => None,
        }
    }
}

/// What resolution returns: the first answering index when one exists, and
/// nothing when no entry answers.
pub proof fn lemma_resolve_idx(cmds: Seq<CommandEntry>, name: Seq<char>)
    ensures
        match resolve_idx(cmds, name) {
            Some(i) => 0 <= i < cmds.len() && answers_lookup(cmds[i], name) && (forall|j: int|
                0 <= j < i ==> !answers_lookup(#[trigger] cmds[j], name)),
            None => forall|j: int|
                0 <= j < cmds.len() ==> !answers_lookup(#[trigger] cmds[j], name),
        },
    decreases cmds.len(),
{
    if cmds.len() > 0 && !answers_lookup(cmds[0], name) {
        let tail = cmds.subrange(1, cmds.len() as int);
        lemma_resolve_idx(tail, name);
        assert forall|j: int| 1 <= j < cmds.len() implies #[trigger] cmds[j] == tail[j - 1] by {
            assert(tail[j - 1] == cmds[j]);
        }
        match resolve_idx(tail, name) {
            Some(i) => {
                assert(resolve_idx(cmds, name) == Some(i + 1));
                assert forall|j: int| 0 <= j < i + 1 implies !answers_lookup(
                    #[trigger] cmds[j],
                    name,
                ) by {
                    if j > 0 {
                        assert(!answers_lookup(tail[j - 1], name));
                    }
                }
            },
            None => {
                assert forall|j: int| 0 <= j < cmds.len() implies !answers_lookup(
                    #[trigger] cmds[j],
                    name,
                ) by {
                    if j > 0 {
                        assert(!answers_lookup(tail[j - 1], name));
                    }
                }
            },
        }
    }
}

/// Resolution never yields a disabled command: when every command bearing
/// the requested name is disabled, lookup fails, wherever those commands
/// stand in the registration order.
pub proof fn lemma_resolve_skips_disabled(cmds: Seq<CommandEntry>, name: Seq<char>)
    ensures
        resolve_idx(cmds, name) matches Some(i) ==> 0 <= i < cmds.len() && cmds[i].name@ == name
            && !cmds[i].disabled,
        (forall|j: int|
            0 <= j < cmds.len() ==> ((#[trigger] cmds[j]).name@ == name ==> cmds[j].disabled))
            ==> resolve_idx(cmds, name) is None,
{
    lemma_resolve_idx(cmds, name);
}

/// The position of the first command-name token after the program token,
/// scanning the words from position `i` on.
pub open spec fn first_command_word(ws: Seq<Seq<char>>, i: int) -> Option<int>
    decreases ws.len() - i,
{
    if i < 0 || i >= ws.len() {
        None
    } else if classify(ws[i]) is Command {
        Some(i)
    } else {
        first_command_word(ws, i + 1)
    }
}

/// What the scan returns: the first command word at or after `lo`, when one
/// exists.
pub proof fn lemma_first_command_word(ws: Seq<Seq<char>>, lo: int)
    requires
        0 <= lo,
    ensures
        match first_command_word(ws, lo) {
            Some(i) => lo <= i < ws.len() && classify(ws[i]) is Command && (forall|j: int|
                lo <= j < i ==> !(classify(#[trigger] ws[j]) is Command)),
            None => forall|j: int| lo <= j < ws.len() ==> !(classify(#[trigger] ws[j]) is Command),
        },
    decreases ws.len() - lo,
{
    if lo < ws.len() && !(classify(ws[lo]) is Command) {
        lemma_first_command_word(ws, lo + 1);
    }
}

/// The command name a token sequence requests: the text of its first
/// command-name token after the program token.
pub open spec fn requested_name(ws: Seq<Seq<char>>) -> Option<Seq<char>> {
    match first_command_word(ws, 1) {
        Some(i) => Some(ws[i]),
        None => None,
    }
}

/// Pre-rendered help text, plain or colored, as the dispatcher would show
/// it for the application in its current state.
pub open spec fn help_text_view(app: App, colored: bool) -> Seq<char> {
    match app.help {
        Some(ht) => if colored {
            ht.colored@
        } else {
            ht.plain@
        },
        None => if colored {
            help_colored(app.config@, enabled_of(app.commands@))
        } else {
            help_plain(app.config@, enabled_of(app.commands@))
        },
    }
}

/// The registry after invoking the command at index `i`: that entry's
/// invocation count grows by one and everything else is untouched.
pub open spec fn invoked_once(pre: Seq<CommandEntry>, post: Seq<CommandEntry>, i: int) -> bool {
    &&& post.len() == pre.len()
    &&& forall|j: int| 0 <= j < pre.len() && j != i ==> post[j] == #[trigger] pre[j]
    &&& post[i].name == pre[i].name
    &&& post[i].description == pre[i].description
    &&& post[i].disabled == pre[i].disabled
    &&& post[i].calls == pre[i].calls + 1
}

/// The position of the first command-name token after the leading program
/// token of a classified token list.
fn first_command_token(parts: &Vec<InputPart>) -> (r: Option<usize>)
    ensures
        match r {
            Some(k) => 1 <= k < parts@.len() && parts@[k as int]@ is Command && (forall|j: int|
                1 <= j < k ==> !((#[trigger] parts@[j]@) is Command)),
            None => forall|j: int| 1 <= j < parts@.len() ==> !((#[trigger] parts@[j]@) is Command),
        },
{
    let mut k: usize = 1;
    while k < parts.len()
        invariant
            k >= 1,
            forall|j: int| 1 <= j < k ==> !((#[trigger] parts@[j]@) is Command),
        decreases parts@.len() - k,
    {
        let stop = match &parts[k] {
            InputPart::Command(_) => true,
            _ => false,
        };
        if stop {
            return Some(k);
        }
        k = k + 1;
    }
    None
}

/// What one dispatch step produced.
#[derive(Debug)]
pub enum RunOutcome {
    /// The command at this registry index was resolved and invoked.
    Invoked(usize),
    /// No enabled command was resolved — either no command-name token was
    /// present or the name answered to nothing. The condition is recovered
    /// locally: this help text was produced and nothing was invoked.
    HelpShown(String),
    /// The raw line could not be tokenized; nothing was invoked.
    Failed(TokenizeError),
}

/// Represents an application: its configuration, the ordered registry of
/// command descriptors, and the help renderer's output when a caller has
/// replaced the default renderer.
pub struct App {
    /// Configuration of the application.
    pub config: AppConfig,
    /// Commands registered to the application, in registration order.
    pub commands: Vec<CommandEntry>,
    /// Replacement help text, when a custom renderer was installed.
    pub help: Option<HelpText>,
}

impl Default for App {
    /// An application with an empty configuration, an empty registry, and
    /// the default help renderer.
    fn default() -> (r: App)
        ensures
            r.config@.name is None,
            r.config@.description is None,
            r.config@.authors is None,
            r.config@.version is None,
            r.commands@ == Seq::<CommandEntry>::empty(),
            r.help is None,
    {
        let r = App { config: AppConfig::new(), commands: Vec::new(), help: None };
        proof {
            assert(r.commands@ =~= Seq::<CommandEntry>::empty());
        }
        r
    }
}

impl App {
    /// Manual constructor: every configuration value is set afterwards
    /// through the respective setter.
    pub fn new() -> (r: App)
        ensures
            r.config@.name is None,
            r.config@.description is None,
            r.config@.authors is None,
            r.config@.version is None,
            r.commands@ == Seq::<CommandEntry>::empty(),
            r.help is None,
    {
        let r = App { config: AppConfig::new(), commands: Vec::new(), help: None };
        proof {
            assert(r.commands@ =~= Seq::<CommandEntry>::empty());
        }
        r
    }

    /// Preferred constructor: the configuration values are taken from an
    /// already-parsed crate descriptor.
    pub fn from_crate(config: CargoConfig) -> (r: App)
        ensures
            r.config.name == config.package.name,
            r.config.description == config.package.description,
            r.config.authors == config.package.authors,
            r.config.version == config.package.version,
            r.commands@ == Seq::<CommandEntry>::empty(),
            r.help is None,
    {
        let r = App { config: AppConfig::from_crate(config), commands: Vec::new(), help: None };
        proof {
            assert(r.commands@ =~= Seq::<CommandEntry>::empty());
        }
        r
    }

    /// Sets the name of the application.
    pub fn set_name(self, name: &str) -> (r: App)
        ensures
            r.config@.name == Some(name@),
            r.config.description == self.config.description,
            r.config.authors == self.config.authors,
            r.config.version == self.config.version,
            r.commands == self.commands,
            r.help == self.help,
    {
        let mut out = self;
        out.config.name = Some(String::from_str(name));
        out
    }

    /// Sets the description of the application.
    pub fn set_description(self, description: &str) -> (r: App)
        ensures
            r.config@.description == Some(description@),
            r.config.name == self.config.name,
            r.config.authors == self.config.authors,
            r.config.version == self.config.version,
            r.commands == self.commands,
            r.help == self.help,
    {
        let mut out = self;
        out.config.description = Some(String::from_str(description));
        out
    }

    /// Sets the authors of the application.
    pub fn set_authors(self, authors: Vec<String>) -> (r: App)
        ensures
            r.config.authors == Some(authors),
            r.config.name == self.config.name,
            r.config.description == self.config.description,
            r.config.version == self.config.version,
            r.commands == self.commands,
            r.help == self.help,
    {
        let mut out = self;
        out.config.authors = Some(authors);
        out
    }

    /// Sets the version of the application.
    pub fn set_version(self, version: &str) -> (r: App)
        ensures
            r.config@.version == Some(version@),
            r.config.name == self.config.name,
            r.config.description == self.config.description,
            r.config.authors == self.config.authors,
            r.commands == self.commands,
            r.help == self.help,
    {
        let mut out = self;
        out.config.version = Some(String::from_str(version));
        out
    }

    /// Registers a command: appends its descriptor to the registry. Name
    /// collisions are not checked; resolution takes the first match in
    /// registration order.
    pub fn register_command(self, command: CommandEntry) -> (r: App)
        ensures
            r.commands@ == self.commands@.push(command),
            r.config == self.config,
            r.help == self.help,
    {
        let mut out = self;
        out.commands.push(command);
        out
    }

    /// Installs a caller-supplied help renderer in place of the default one
    /// for the remainder of the application's life.
    pub fn set_help_command<H: HelpMessage>(self, command: H) -> (r: App)
        ensures
            r.help matches Some(ht) && ht.plain@ == command.plain_view() && ht.colored@
                == command.colored_view(),
            r.config == self.config,
            r.commands == self.commands,
    {
        let plain = command.get_help();
        let colored = command.get_help_colored();
        let mut out = self;
        out.help = Some(HelpText { plain, colored });
        out
    }

    /// Looks the name up in the registry: the first enabled command with
    /// that name, in registration order, or nothing when no enabled command
    /// bears it.
    pub fn resolve(&self, name: &str) -> (r: Option<usize>)
        ensures
            match r {
                Some(i) => resolve_idx(self.commands@, name@) == Some(i as int),
                None => resolve_idx(self.commands@, name@) is None,
            },
    {
        let wanted = String::from_str(name);
        let mut i: usize = 0;
        while i < self.commands.len()
            invariant
                i <= self.commands.len(),
                wanted@ == name@,
                forall|j: int| 0 <= j < i ==> !answers_lookup(#[trigger] self.commands@[j], name@),
            decreases self.commands.len() - i,
        {
            if !self.commands[i].disabled && self.commands[i].name == wanted {
                proof {
                    lemma_resolve_idx(self.commands@, name@);
                }
                return Some(i);
            }
            i = i + 1;
        }
        proof {
            lemma_resolve_idx(self.commands@, name@);
        }
        None
    }

    /// The ordered snapshot of the enabled commands, each independently
    /// copied: later registry changes do not affect it.
    pub fn enabled_snapshot(&self) -> (r: Vec<CommandEntry>)
        ensures
            r@ == enabled_of(self.commands@),
    {
        let mut out: Vec<CommandEntry> = Vec::new();
        let mut i: usize = 0;
        proof {
            assert(out@ =~= enabled_of(self.commands@.take(0)));
        }
        while i < self.commands.len()
            invariant
                i <= self.commands.len(),
                out@ == enabled_of(self.commands@.take(i as int)),
            decreases self.commands.len() - i,
        {
            if !self.commands[i].disabled {
                out.push(self.commands[i].duplicate());
            }
            proof {
                assert(self.commands@.take(i + 1).drop_last() =~= self.commands@.take(i as int));
                assert(self.commands@.take(i + 1).last() == self.commands@[i as int]);
            }
            i = i + 1;
        }
        proof {
            assert(self.commands@.take(self.commands@.len() as int) =~= self.commands@);
        }
        out
    }

    /// The default help renderer for the current state: the configuration
    /// and the enabled snapshot, constructed lazily at the point of use.
    pub fn generate_default_help(&self) -> (r: DefaultHelpStructure)
        ensures
            r.config@ == self.config@,
            r.commands@ == enabled_of(self.commands@),
    {
        DefaultHelpStructure::new(self.config.duplicate(), self.enabled_snapshot())
    }

    /// The help text the dispatcher shows: the installed renderer's output
    /// when one was set, the default renderer's output otherwise.
    pub fn help_text(&self, colored: bool) -> (t: String)
        ensures
            t@ == help_text_view(*self, colored),
    {
        match &self.help {
            Some(ht) => if colored {
                ht.colored.clone()
            } else {
                ht.plain.clone()
            },
            None => {
                let h = self.generate_default_help();
                if colored {
                    h.get_help_colored()
                } else {
                    h.get_help()
                }
            },
        }
    }

    /// One dispatch step over a complete raw input line.
    ///
    /// The line is tokenized; a tokenization failure ends the step. The
    /// first command-name token after the program token is resolved against
    /// the registry; when an enabled command answers, an execution context
    /// is built around an independent copy of it and the command is invoked
    /// exactly once. Otherwise the help text is produced and nothing is
    /// invoked. Configuration and registry order survive the step unchanged.
    pub fn run(&mut self, input: &str, env: Environment, colored: bool) -> (r: RunOutcome)
        requires
            forall|j: int|
                0 <= j < old(self).commands@.len() ==> (#[trigger] old(self).commands@[j]).calls < u64::MAX,
        ensures
            final(self).config == old(self).config,
            final(self).help == old(self).help,
            match shell_split(input@) {
                None => r == RunOutcome::Failed(TokenizeError::UnbalancedQuote) && final(self).commands == old(self).commands,
                Some(ws) => if ws.len() == 0 {
                    r == RunOutcome::Failed(TokenizeError::EmptyInput) && final(self).commands
                        == old(self).commands
                } else {
                    match requested_name(ws) {
                        None => (r matches RunOutcome::HelpShown(t) && t@ == help_text_view(
                            *old(self),
                            colored,
                        )) && final(self).commands == old(self).commands,
                        Some(name) => match resolve_idx(old(self).commands@, name) {
                            Some(i) => r == RunOutcome::Invoked(i as usize) && invoked_once(
                                old(self).commands@,
                                final(self).commands@,
                                i,
                            ),
                            None => (r matches RunOutcome::HelpShown(t) && t@ == help_text_view(
                                *old(self),
                                colored,
                            )) && final(self).commands == old(self).commands,
                        },
                    }
                },
            },
    {
        let inp = match Input::new(input) {
            Ok(inp) => inp,
            Err(e) => {
                return RunOutcome::Failed(e);
            },
        };
        let ghost ws = shell_split(input@)->Some_0;
        let found = first_command_token(&inp.lexed);
        proof {
            lemma_first_command_word(ws, 1);
            assert(parts_view(inp.lexed@).len() == inp.lexed@.len());
            assert(tokens_of(ws).len() == ws.len());
            assert forall|j: int|
                1 <= j < ws.len() implies ((inp.lexed@[j]@ is Command) == (classify(
                #[trigger] ws[j],
            ) is Command)) by {
                assert(parts_view(inp.lexed@)[j] == inp.lexed@[j]@);
                assert(tokens_of(ws)[j] == classify(ws[j]));
            }
        }
        match found {
            Some(pos) => {
                proof {
                    assert(parts_view(inp.lexed@)[pos as int] == inp.lexed@[pos as int]@);
                    assert(tokens_of(ws)[pos as int] == classify(ws[pos as int]));
                    assert(first_command_word(ws, 1) == Some(pos as int));
                }
                let name = match &inp.lexed[pos] {
                    InputPart::Command(s) => s.as_str(),
                    _ => unreached(),
                };
                match self.resolve(name) {
                    Some(idx) => {
                        proof {
                            lemma_resolve_idx(self.commands@, name@);
                        }
                        // Per-invocation context: an independent copy of the
                        // resolved descriptor bound to the environment
                        // snapshot; discarded when the invocation returns.
                        let _context = Context::new(
                            self.commands[idx].duplicate(),
                            env,
                            self.config.duplicate(),
                        );
                        self.commands[idx].call();
                        RunOutcome::Invoked(idx)
                    },
                    None => RunOutcome::HelpShown(self.help_text(colored)),
                }
            },
            None => RunOutcome::HelpShown(self.help_text(colored)),
        }
    }
}

} // verus!
