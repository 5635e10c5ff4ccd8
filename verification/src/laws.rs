use vstd::prelude::*;

use crate::config::{scripts_of, ConfigView};
use crate::script::{Script, ScriptView};
use crate::source::spec_candidates;

verus! {

/// A configuration that was just made holds no script under any alias.
pub proof fn law_new_config_is_empty(path: Seq<char>, alias: Seq<char>)
    ensures
        ConfigView::empty(path).fetch_script(alias) is None,
        ConfigView::empty(path).remove_script(alias) is None,
{
}

/// After a script is added under an alias nothing was stored under, fetching
/// that alias gives the script back.
pub proof fn law_fetch_after_add(c: ConfigView, s: ScriptView)
    requires
        !c.scripts.contains_key(s.alias),
    ensures
        c.add_script(s).fetch_script(s.alias) == Some(s),
{
}

/// Adding a script under an alias that is already taken changes nothing:
/// the script stored first stays.
pub proof fn law_add_keeps_existing(c: ConfigView, s: ScriptView)
    requires
        c.scripts.contains_key(s.alias),
    ensures
        c.add_script(s) == c,
        c.add_script(s).fetch_script(s.alias) == c.fetch_script(s.alias),
{
}

/// Adding a script leaves what every other alias holds as it was, and the
/// configuration's path too.
pub proof fn law_add_leaves_others(c: ConfigView, s: ScriptView, other: Seq<char>)
    requires
        other != s.alias,
    ensures
        c.add_script(s).fetch_script(other) == c.fetch_script(other),
        c.add_script(s).path == c.path,
{
}

/// Adding the same script twice is the same as adding it once.
pub proof fn law_add_twice(c: ConfigView, s: ScriptView)
    ensures
        c.add_script(s).add_script(s) == c.add_script(s),
{
}

/// After a script is removed, fetching its alias fails, a second removal
/// fails, and every other alias holds what it held.
pub proof fn law_fetch_after_remove(c: ConfigView, alias: Seq<char>, other: Seq<char>)
    requires
        c.remove_script(alias) is Some,
        other != alias,
    ensures
        c.remove_script(alias).unwrap().fetch_script(alias) is None,
        c.remove_script(alias).unwrap().remove_script(alias) is None,
        c.remove_script(alias).unwrap().fetch_script(other) == c.fetch_script(other),
        c.remove_script(alias).unwrap().path == c.path,
{
}

/// Removing fails exactly when fetching fails.
pub proof fn law_remove_fails_iff_fetch_fails(c: ConfigView, alias: Seq<char>)
    ensures
        c.remove_script(alias) is None <==> c.fetch_script(alias) is None,
{
}

/// Removing a script just added under a fresh alias gives back the
/// configuration as it was before.
pub proof fn law_remove_after_add(c: ConfigView, s: ScriptView)
    requires
        !c.scripts.contains_key(s.alias),
    ensures
        c.add_script(s).remove_script(s.alias) == Some(c),
{
    assert(c.scripts.insert(s.alias, s).remove(s.alias) =~= c.scripts);
}

/// Adding back a script just removed gives back the configuration as it was
/// before.
pub proof fn law_add_after_remove(c: ConfigView, alias: Seq<char>)
    requires
        c.scripts.contains_key(alias),
        c.scripts[alias].alias == alias,
    ensures
        c.remove_script(alias).unwrap().add_script(c.scripts[alias]) == c,
{
    assert(c.scripts.remove(alias).insert(alias, c.scripts[alias]) =~= c.scripts);
}

/// A configuration rebuilt from the entries it hands out, at the same path,
/// is the configuration it was.
pub proof fn law_entries_rebuild(c: ConfigView, entries: Seq<(String, Script)>)
    requires
        scripts_of(entries) == c.scripts,
    ensures
        (ConfigView { scripts: scripts_of(entries), path: c.path }) == c,
{
}

/// Fetching a key gives exactly what the configuration stores under that key,
/// whatever the stored script's own alias is; a key with nothing stored gives
/// nothing.
pub proof fn law_fetch_gives_stored(c: ConfigView, k: Seq<char>)
    ensures
        c.scripts.contains_key(k) ==> c.fetch_script(k) == Some(c.scripts[k]),
        !c.scripts.contains_key(k) ==> c.fetch_script(k) is None,
{
}

/// Removing a key succeeds exactly when something is stored under it, whatever
/// the stored script's own alias is, and drops just that key.
pub proof fn law_remove_drops_stored(c: ConfigView, k: Seq<char>)
    ensures
        c.scripts.contains_key(k) ==> c.remove_script(k) == Some(
            ConfigView { scripts: c.scripts.remove(k), path: c.path },
        ),
        !c.scripts.contains_key(k) ==> c.remove_script(k) is None,
{
}

/// A script made by the `add` subcommand keeps the alias and the command
/// exactly as given, with no notes.
pub proof fn law_new_script_keeps_input(alias: Seq<char>, command: Seq<char>)
    ensures
        Script::spec_new(alias, command).alias == alias,
        Script::spec_new(alias, command).command == command,
        Script::spec_new(alias, command).description is None,
        Script::spec_new(alias, command).reference is None,
        Script::spec_new(alias, command).tags is None,
{
}

/// After `add` under a fresh alias, fetching that alias gives a script with
/// the alias and the command as given.
pub proof fn law_added_command_as_given(c: ConfigView, alias: Seq<char>, command: Seq<char>)
    requires
        !c.scripts.contains_key(alias),
    ensures
        c.add_script(Script::spec_new(alias, command)).fetch_script(alias) matches Some(s)
            && s.alias == alias && s.command == command,
{
}

/// When `$HOME` is set, the last two default locations are always
/// `$HOME/.config/pier/config` and then `$HOME/.pier`, whatever
/// `$XDG_CONFIG_HOME` is; `$XDG_CONFIG_HOME/pier/config` comes first when that
/// variable is set, and nothing else is tried.
pub proof fn law_candidates_from_home(x: Option<Seq<char>>, h: Seq<char>)
    ensures
        spec_candidates(x, Some(h)).len() == (if x is Some { 3int } else { 2int }),
        spec_candidates(x, Some(h))[spec_candidates(x, Some(h)).len() - 2] == h + "/"@
            + ".config/pier/config"@,
        spec_candidates(x, Some(h))[spec_candidates(x, Some(h)).len() - 1] == h + "/"@ + ".pier"@,
        x matches Some(d) ==> spec_candidates(x, Some(h))[0] == d + "/"@ + "pier/config"@,
{
}

/// Without `$HOME`, only `$XDG_CONFIG_HOME/pier/config` is tried, and only when
/// that variable is set.
pub proof fn law_candidates_without_home(x: Option<Seq<char>>)
    ensures
        spec_candidates(x, None).len() == (if x is Some { 1int } else { 0int }),
        x matches Some(d) ==> spec_candidates(x, None)[0] == d + "/"@ + "pier/config"@,
{
}

/// An empty configuration belongs to exactly the path it was made for and
/// stores nothing.
pub proof fn law_empty_keeps_path(p: Seq<char>, k: Seq<char>)
    ensures
        ConfigView::empty(p).path == p,
        !ConfigView::empty(p).scripts.contains_key(k),
{
}

} // verus!
