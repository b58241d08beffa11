//! The capabilities that the application's runtime attaches at startup.

use vstd::prelude::*;

verus! {

/// A capability module attached to the runtime.
#[derive(Clone, Copy, Debug, PartialEq, Eq, Structural)]
pub enum Plugin {
    /// Relational storage.
    Sql,
    /// Execution of shell commands.
    Shell,
    /// Distribution of application updates.
    Updater,
}

/// The capabilities attached at startup, in the order of attachment.
pub open spec fn startup_plugins_spec() -> Seq<Plugin> {
    seq![Plugin::Sql, Plugin::Shell, Plugin::Updater]
}

/// Lists the capabilities to attach at startup, in the order in which the
/// runtime attaches them: storage first, then the shell, then the updater.
pub fn startup_plugins() -> (r: Vec<Plugin>)
    ensures
        r@ == startup_plugins_spec(),
{
    let mut r: Vec<Plugin> = Vec::new();
    r.push(Plugin::Sql);
    r.push(Plugin::Shell);
    r.push(Plugin::Updater);
    assert(r@ =~= startup_plugins_spec());
    r
}

} // verus!
