use vstd::prelude::*;

use crate::pier_error::{InnerPierError, PierError};
use crate::script::texts;

verus! {

/// Where the configuration comes from.
#[derive(Debug, Clone, PartialEq, Eq)]
pub enum ConfigSource {
    /// Read the existing file at this path.
    Load(String),
    /// Start an empty configuration and write it to this path.
    Create(String),
}

/// The default locations of the configuration file, in the order they are tried:
/// under `$XDG_CONFIG_HOME`, then under `$HOME` twice; a location whose variable
/// is unset is left out.
pub open spec fn spec_candidates(xdg_config_home: Option<Seq<char>>, home: Option<Seq<char>>) -> Seq<
    Seq<char>,
> {
    (match xdg_config_home {
        Some(x) => seq![x + "/"@ + "pier/config"@],
        None => Seq::empty(),
    }) + (match home {
        Some(h) => seq![h + "/"@ + ".config/pier/config"@, h + "/"@ + ".pier"@],
        None => Seq::empty(),
    })
}

/// The contents of an optional borrowed text.
pub open spec fn opt_str(o: Option<&str>) -> Option<Seq<char>> {
    match o {
        Some(s) => Some(s@),
        None => None,
    }
}

fn join_path(dir: &str, rel: &str) -> (res: String)
    ensures
        res@ == dir@ + "/"@ + rel@,
{
    let mut res = dir.to_owned();
    res.append("/");
    res.append(rel);
    res
}

/// The default locations of the configuration file, given the values of
/// `$XDG_CONFIG_HOME` and `$HOME`.
pub fn config_candidates(xdg_config_home: Option<&str>, home: Option<&str>) -> (res: Vec<String>)
    ensures
        texts(res@) == spec_candidates(opt_str(xdg_config_home), opt_str(home)),
{
    let mut res: Vec<String> = Vec::new();
    match xdg_config_home {
        Some(x) => {
            res.push(join_path(x, "pier/config"));
        },
        None => {},
    }
    match home {
        Some(h) => {
            res.push(join_path(h, ".config/pier/config"));
            res.push(join_path(h, ".pier"));
        },
        None => {},
    }
    proof {
        assert(texts(res@) =~= spec_candidates(opt_str(xdg_config_home), opt_str(home)));
    }
    res
}

/// Decides where the configuration comes from. A chosen path is read when
/// the file exists and created otherwise; without one, the first default
/// location (with whether it exists) whose file exists is read, and when
/// there is none the configuration cannot be had.
pub fn resolve_config_source(
    selected: Option<&str>,
    selected_exists: bool,
    candidates: &Vec<(String, bool)>,
) -> (res: Result<ConfigSource, PierError>)
    ensures
        match selected {
            Some(p) => if selected_exists {
                res matches Ok(ConfigSource::Load(q)) && q@ == p@
            } else {
                res matches Ok(ConfigSource::Create(q)) && q@ == p@
            },
            None => match res {
                Ok(ConfigSource::Load(q)) => exists|i: int|
                    0 <= i < candidates@.len() && (#[trigger] candidates@[i]).1 && q@
                        == candidates@[i].0@ && forall|j: int|
                        0 <= j < i ==> !(#[trigger] candidates@[j]).1,
                Ok(ConfigSource::Create(_)) => false,
                Err(e) => e.0 == InnerPierError::NoConfigFile && forall|i: int|
                    0 <= i < candidates@.len() ==> !(#[trigger] candidates@[i]).1,
            },
        },
{
    match selected {
        Some(p) => {
            if selected_exists {
                Ok(ConfigSource::Load(p.to_owned()))
            } else {
                Ok(ConfigSource::Create(p.to_owned()))
            }
        },
        None => {
            let mut i: usize = 0;
            while i < candidates.len()
                invariant
                    selected is None,
                    i <= candidates@.len(),
                    forall|j: int| 0 <= j < i ==> !(#[trigger] candidates@[j]).1,
                decreases candidates@.len() - i,
            {
                if candidates[i].1 {
                    let q = candidates[i].0.clone();
                    assert(exists|k: int|
                        0 <= k < candidates@.len() && (#[trigger] candidates@[k]).1 && q@
                            == candidates@[k].0@ && forall|j: int|
                            0 <= j < k ==> !(#[trigger] candidates@[j]).1) by {
                        assert(candidates@[i as int].1);
                    }
                    return Ok(ConfigSource::Load(q));
                }
                i += 1;
            }
            Err(PierError(InnerPierError::NoConfigFile))
        },
    }
}

} // verus!
