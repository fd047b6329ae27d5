//! Help rendering: a textual listing composed from the application
//! configuration and a snapshot of the enabled commands.
//!
//! The listing has three parts. The header holds the application name and
//! version on one line and the description on the next, an unset field
//! rendering as the empty string. The body holds one line per command of the
//! snapshot, in snapshot order. The footer holds the authors joined by a
//! comma and a space. The plain text is the header, a blank line, the body,
//! and the footer on the following line; the colored text has the same
//! structure with name, version, command names and authors decorated.

use crate::color::paint_blue;
use crate::color::painted_blue;
use crate::command::CommandEntry;
use crate::command::display_colored_line;
use crate::command::display_line;
use crate::config::AppConfig;
use crate::config::ConfigModel;
use crate::config::opt_string_view;
use vstd::prelude::*;

verus! {

/// The given parts joined with a separator between neighbours.
pub open spec fn join_with(parts: Seq<Seq<char>>, sep: Seq<char>) -> Seq<char>
    decreases parts.len(),
{
    if parts.len() == 0 {
        Seq::empty()
    } else if parts.len() == 1 {
        parts[0]
    } else {
        parts[0] + sep + join_with(parts.subrange(1, parts.len() as int), sep)
    }
}

/// Appending one more part extends the joined text by a separator and that
/// part, except on the first part.
pub proof fn lemma_join_push(parts: Seq<Seq<char>>, sep: Seq<char>, x: Seq<char>)
    ensures
        join_with(parts.push(x), sep) == if parts.len() == 0 {
            x
        } else {
            join_with(parts, sep) + sep + x
        },
    decreases parts.len(),
{
    if parts.len() == 0 {
        assert(parts.push(x)[0] == x);
    } else {
        let tail = parts.subrange(1, parts.len() as int);
        lemma_join_push(tail, sep, x);
        assert(parts.push(x).subrange(1, parts.push(x).len() as int) =~= tail.push(x));
        assert(join_with(parts.push(x), sep) =~= join_with(parts, sep) + sep + x);
    }
}

/// The text of an optional field: empty when the field is unset.
pub open spec fn opt_text(o: Option<Seq<char>>) -> Seq<char> {
    match o {
        Some(s) => s,
        None => Seq::empty(),
    }
}

/// Header: name and version on one line, description on the next.
pub open spec fn header_plain(c: ConfigModel) -> Seq<char> {
    opt_text(c.name) + seq![' '] + opt_text(c.version) + seq!['\n'] + opt_text(c.description)
}

/// Colored header: name and version decorated, description plain.
pub open spec fn header_colored(c: ConfigModel) -> Seq<char> {
    painted_blue(opt_text(c.name)) + seq![' '] + painted_blue(opt_text(c.version)) + seq!['\n']
        + opt_text(c.description)
}

/// Body: one line per command of the snapshot, in snapshot order.
pub open spec fn body_plain(cmds: Seq<CommandEntry>) -> Seq<char> {
    join_with(cmds.map_values(|e: CommandEntry| display_line(e)), seq!['\n'])
}

/// Colored body: the same lines with each command name decorated.
pub open spec fn body_colored(cmds: Seq<CommandEntry>) -> Seq<char> {
    join_with(cmds.map_values(|e: CommandEntry| display_colored_line(e)), seq!['\n'])
}

/// Footer: the authors joined by a comma and a space; empty when unset.
pub open spec fn footer_plain(c: ConfigModel) -> Seq<char> {
    match c.authors {
        Some(a) => join_with(a, seq![',', ' ']),
        None => Seq::empty(),
    }
}

/// Colored footer: the joined authors decorated as one piece.
pub open spec fn footer_colored(c: ConfigModel) -> Seq<char> {
    painted_blue(footer_plain(c))
}

/// The full plain listing: header, a blank line, the body, and the footer on
/// the following line.
pub open spec fn help_plain(c: ConfigModel, cmds: Seq<CommandEntry>) -> Seq<char> {
    header_plain(c) + seq!['\n', '\n'] + body_plain(cmds) + seq!['\n'] + footer_plain(c)
}

/// The full colored listing, with the same structure as the plain one.
pub open spec fn help_colored(c: ConfigModel, cmds: Seq<CommandEntry>) -> Seq<char> {
    header_colored(c) + seq!['\n', '\n'] + body_colored(cmds) + seq!['\n'] + footer_colored(c)
}

/// Rendering is a function of the configuration and the snapshot alone:
/// any two renderings from the same pair are byte-identical.
pub proof fn lemma_help_deterministic(
    c: ConfigModel,
    cmds: Seq<CommandEntry>,
    r1: Seq<char>,
    r2: Seq<char>,
)
    requires
        r1 == help_plain(c, cmds),
        r2 == help_plain(c, cmds),
    ensures
        r1 == r2,
{
}

/// The text of an optional field, as a borrowed string.
fn opt_str(o: &Option<String>) -> (r: &str)
    ensures
        r@ == opt_text(opt_string_view(*o)),
{
    match o {
        Some(s) => s.as_str(),
        None => {
            proof {
                reveal_strlit("");
                assert(""@ =~= Seq::<char>::empty());
            }
            ""
        },
    }
}

/// The given strings joined with a separator between neighbours.
fn join_strings(v: &Vec<String>, sep: &str) -> (r: String)
    ensures
        r@ == join_with(v.deep_view(), sep@),
{
    let mut out = String::new();
    let mut i: usize = 0;
    while i < v.len()
        invariant
            i <= v.len(),
            v.deep_view().len() == v@.len(),
            out@ == join_with(v.deep_view().take(i as int), sep@),
        decreases v.len() - i,
    {
        if i > 0 {
            out.append(sep);
        }
        out.append(v[i].as_str());
        proof {
            lemma_join_push(v.deep_view().take(i as int), sep@, v@[i as int]@);
            assert(v.deep_view()[i as int] == v@[i as int]@);
            assert(v.deep_view().take(i + 1) =~= v.deep_view().take(i as int).push(v@[i as int]@));
        }
        i = i + 1;
    }
    proof {
        assert(v.deep_view().take(v@.len() as int) =~= v.deep_view());
    }
    out
}

/// Pre-rendered help text, one variant for plain and one for colored output.
pub struct HelpText {
    pub plain: String,
    pub colored: String,
}

/// The capability set of a help renderer: a plain and a colored rendering,
/// each pinned to the text its implementation promises. A user-supplied
/// renderer implements this to replace the default one.
pub trait HelpMessage {
    /// The plain text this renderer produces.
    spec fn plain_view(&self) -> Seq<char>;

    /// The colored text this renderer produces.
    spec fn colored_view(&self) -> Seq<char>;

    /// Get the default help message.
    fn get_help(&self) -> (r: String)
        ensures
            r@ == self.plain_view(),
    ;

    /// Get the color formatted version of the help message.
    fn get_help_colored(&self) -> (r: String)
        ensures
            r@ == self.colored_view(),
    ;
}

/// Represents the default help message: the configuration and the command
/// snapshot required to construct the listing.
pub struct DefaultHelpStructure {
    pub config: AppConfig,
    pub commands: Vec<CommandEntry>,
}

impl DefaultHelpStructure {
    /// A renderer over the given configuration and command snapshot.
    pub fn new(config: AppConfig, commands: Vec<CommandEntry>) -> (r: DefaultHelpStructure)
        ensures
            r.config == config,
            r.commands == commands,
    {
        DefaultHelpStructure { config, commands }
    }

    /// The header of the listing.
    pub fn build_header(&self) -> (r: String)
        ensures
            r@ == header_plain(self.config@),
    {
        let mut out = String::from_str(opt_str(&self.config.name));
        out.append(" ");
        out.append(opt_str(&self.config.version));
        out.append("\n");
        out.append(opt_str(&self.config.description));
        proof {
            reveal_strlit(" ");
            reveal_strlit("\n");
            assert(" "@ =~= seq![' ']);
            assert("\n"@ =~= seq!['\n']);
            assert(out@ =~= header_plain(self.config@));
        }
        out
    }

    /// The colored header of the listing.
    pub fn build_header_colored(&self) -> (r: String)
        ensures
            r@ == header_colored(self.config@),
    {
        let mut out = paint_blue(opt_str(&self.config.name));
        out.append(" ");
        let painted_version = paint_blue(opt_str(&self.config.version));
        out.append(painted_version.as_str());
        out.append("\n");
        out.append(opt_str(&self.config.description));
        proof {
            reveal_strlit(" ");
            reveal_strlit("\n");
            assert(" "@ =~= seq![' ']);
            assert("\n"@ =~= seq!['\n']);
            assert(out@ =~= header_colored(self.config@));
        }
        out
    }

    /// The body of the listing: one line per command, in snapshot order.
    pub fn build_commands(&self) -> (r: String)
        ensures
            r@ == body_plain(self.commands@),
    {
        let ghost lines = self.commands@.map_values(|e: CommandEntry| display_line(e));
        let mut out = String::new();
        let mut i: usize = 0;
        proof {
            reveal_strlit("\n");
            assert("\n"@ =~= seq!['\n']);
        }
        while i < self.commands.len()
            invariant
                i <= self.commands.len(),
                lines == self.commands@.map_values(|e: CommandEntry| display_line(e)),
                lines.len() == self.commands@.len(),
                out@ == join_with(lines.take(i as int), seq!['\n']),
            decreases self.commands.len() - i,
        {
            if i > 0 {
                out.append("\n");
                proof {
                    reveal_strlit("\n");
                    assert("\n"@ =~= seq!['\n']);
                }
            }
            let line = self.commands[i].display();
            out.append(line.as_str());
            proof {
                lemma_join_push(lines.take(i as int), seq!['\n'], lines[i as int]);
                assert(lines.take(i + 1) =~= lines.take(i as int).push(lines[i as int]));
            }
            i = i + 1;
        }
        proof {
            assert(lines.take(lines.len() as int) =~= lines);
        }
        out
    }

    /// The colored body of the listing.
    pub fn build_commands_colored(&self) -> (r: String)
        ensures
            r@ == body_colored(self.commands@),
    {
        let ghost lines = self.commands@.map_values(|e: CommandEntry| display_colored_line(e));
        let mut out = String::new();
        let mut i: usize = 0;
        while i < self.commands.len()
            invariant
                i <= self.commands.len(),
                lines == self.commands@.map_values(|e: CommandEntry| display_colored_line(e)),
                lines.len() == self.commands@.len(),
                out@ == join_with(lines.take(i as int), seq!['\n']),
            decreases self.commands.len() - i,
        {
            if i > 0 {
                out.append("\n");
                proof {
                    reveal_strlit("\n");
                    assert("\n"@ =~= seq!['\n']);
                }
            }
            let line = self.commands[i].display_colored();
            out.append(line.as_str());
            proof {
                lemma_join_push(lines.take(i as int), seq!['\n'], lines[i as int]);
                assert(lines.take(i + 1) =~= lines.take(i as int).push(lines[i as int]));
            }
            i = i + 1;
        }
        proof {
            assert(lines.take(lines.len() as int) =~= lines);
        }
        out
    }

    /// The footer of the listing.
    pub fn build_footer(&self) -> (r: String)
        ensures
            r@ == footer_plain(self.config@),
    {
        match &self.config.authors {
            Some(a) => {
                let r = join_strings(a, ", ");
                proof {
                    reveal_strlit(", ");
                    assert(", "@ =~= seq![',', ' ']);
                }
                r
            },
            None => String::new(),
        }
    }

    /// The colored footer of the listing.
    pub fn build_footer_colored(&self) -> (r: String)
        ensures
            r@ == footer_colored(self.config@),
    {
        let plain = self.build_footer();
        paint_blue(plain.as_str())
    }
}

impl HelpMessage for DefaultHelpStructure {
    open spec fn plain_view(&self) -> Seq<char> {
        help_plain(self.config@, self.commands@)
    }

    open spec fn colored_view(&self) -> Seq<char> {
        help_colored(self.config@, self.commands@)
    }

    fn get_help(&self) -> (r: String) {
        let mut out = self.build_header();
        out.append("\n\n");
        let body = self.build_commands();
        out.append(body.as_str());
        out.append("\n");
        let footer = self.build_footer();
        out.append(footer.as_str());
        proof {
            reveal_strlit("\n\n");
            reveal_strlit("\n");
            assert("\n\n"@ =~= seq!['\n', '\n']);
            assert("\n"@ =~= seq!['\n']);
            assert(out@ =~= help_plain(self.config@, self.commands@));
        }
        out
    }

    fn get_help_colored(&self) -> (r: String) {
        let mut out = self.build_header_colored();
        out.append("\n\n");
        let body = self.build_commands_colored();
        out.append(body.as_str());
        out.append("\n");
        let footer = self.build_footer_colored();
        out.append(footer.as_str());
        proof {
            reveal_strlit("\n\n");
            reveal_strlit("\n");
            assert("\n\n"@ =~= seq!['\n', '\n']);
            assert("\n"@ =~= seq!['\n']);
            assert(out@ =~= help_colored(self.config@, self.commands@));
        }
        out
    }
}

} // verus!
