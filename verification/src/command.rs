//! Command descriptors and the capability contract they satisfy.
//!
//! A command is described by a plain record: its name, the description shown
//! in the help listing, whether it is disabled, and a count of how often its
//! capability has been invoked. Records can be copied independently, so a
//! registry snapshot is unaffected by later changes to the original.

use crate::color::paint_green;
use crate::color::painted_green;
use vstd::prelude::*;

verus! {

/// The record describing one registrable command.
#[derive(Debug)]
pub struct CommandEntry {
    /// Name under which the command is resolved.
    pub name: String,
    /// Description shown in the help listing; may be empty.
    pub description: String,
    /// A disabled command is skipped by resolution and by the help listing.
    pub disabled: bool,
    /// How often the command's capability has been invoked.
    pub calls: u64,
}

/// The help line of a command: its name and its description, separated by a
/// single space.
pub open spec fn display_line(e: CommandEntry) -> Seq<char> {
    e.name@ + seq![' '] + e.description@
}

/// The colored help line of a command: only the name is decorated.
pub open spec fn display_colored_line(e: CommandEntry) -> Seq<char> {
    painted_green(e.name@) + seq![' '] + e.description@
}

impl CommandEntry {
    /// A fresh descriptor that has never been invoked.
    pub fn new(name: &str, description: &str, disabled: bool) -> (r: CommandEntry)
        ensures
            r.name@ == name@,
            r.description@ == description@,
            r.disabled == disabled,
            r.calls == 0,
    {
        CommandEntry {
            name: String::from_str(name),
            description: String::from_str(description),
            disabled,
            calls: 0,
        }
    }

    /// An independent copy of the descriptor.
    pub fn duplicate(&self) -> (r: CommandEntry)
        ensures
            r == *self,
    {
        CommandEntry {
            name: self.name.clone(),
            description: self.description.clone(),
            disabled: self.disabled,
            calls: self.calls,
        }
    }

    /// The name of the command.
    pub fn name(&self) -> (r: String)
        ensures
            r@ == self.name@,
    {
        self.name.clone()
    }

    /// The description of the command.
    pub fn description(&self) -> (r: String)
        ensures
            r@ == self.description@,
    {
        self.description.clone()
    }

    /// Whether the command is disabled.
    pub fn disabled(&self) -> (r: bool)
        ensures
            r == self.disabled,
    {
        self.disabled
    }

    /// Invokes the command's capability: the invocation is recorded and
    /// nothing else about the descriptor changes.
    pub fn call(&mut self)
        requires
            old(self).calls < u64::MAX,
        ensures
            final(self).calls == old(self).calls + 1,
            final(self).name == old(self).name,
            final(self).description == old(self).description,
            final(self).disabled == old(self).disabled,
    {
        self.calls = self.calls + 1;
    }

    /// The command's line in the plain help listing.
    pub fn display(&self) -> (r: String)
        ensures
            r@ == display_line(*self),
    {
        let mut out = self.name.clone();
        out.append(" ");
        out.append(self.description.as_str());
        proof {
            reveal_strlit(" ");
            assert(" "@ =~= seq![' ']);
            assert(out@ =~= display_line(*self));
        }
        out
    }

    /// The command's line in the colored help listing: the name is painted,
    /// the description is left plain.
    pub fn display_colored(&self) -> (r: String)
        ensures
            r@ == display_colored_line(*self),
    {
        let mut out = paint_green(self.name.as_str());
        out.append(" ");
        out.append(self.description.as_str());
        proof {
            reveal_strlit(" ");
            assert(" "@ =~= seq![' ']);
            assert(out@ =~= display_colored_line(*self));
        }
        out
    }
}

/// The capability contract every registrable command satisfies. User-defined
/// command types implement it; [`CommandEntry`] is the record form used by
/// the registry.
pub trait Command {
    /// The name of the command.
    fn name(&self) -> String;

    /// The description of the command shown in the help listing.
    fn description(&self) -> String;

    /// Whether the command is excluded from resolution and help.
    fn disabled(&self) -> bool;

    /// Invoke the command.
    fn call(&mut self);
}

impl Command for CommandEntry {
    fn name(&self) -> String {
        self.name.clone()
    }

    fn description(&self) -> String {
        self.description.clone()
    }

    fn disabled(&self) -> bool {
        self.disabled
    }

    fn call(&mut self) {
        if self.calls < u64::MAX {
            self.calls = self.calls + 1;
        }
    }
}

} // verus!
