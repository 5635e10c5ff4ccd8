use vstd::prelude::*;

verus! {

/// The contents of an optional text field.
pub open spec fn opt_text(o: Option<String>) -> Option<Seq<char>> {
    match o {
        Some(s) => Some(s@),
        None => None,
    }
}

/// The contents of a list of texts.
pub open spec fn texts(v: Seq<String>) -> Seq<Seq<char>> {
    v.map_values(|s: String| s@)
}

/// The contents of an optional list of texts.
pub open spec fn opt_texts(o: Option<Vec<String>>) -> Option<Seq<Seq<char>>> {
    match o {
        Some(v) => Some(texts(v@)),
        None => None,
    }
}

/// What a script holds, as plain text.
pub struct ScriptView {
    pub alias: Seq<char>,
    pub command: Seq<char>,
    pub description: Option<Seq<char>>,
    pub reference: Option<Seq<char>>,
    pub tags: Option<Seq<Seq<char>>>,
}

/// A shell command stored under an alias, with optional notes.
#[derive(Debug, Clone, PartialEq, Eq)]
pub struct Script {
    pub alias: String,
    pub command: String,
    pub description: Option<String>,
    pub reference: Option<String>,
    pub tags: Option<Vec<String>>,
}

impl View for Script {
    type V = ScriptView;

    open spec fn view(&self) -> ScriptView {
        ScriptView {
            alias: self.alias@,
            command: self.command@,
            description: opt_text(self.description),
            reference: opt_text(self.reference),
            tags: opt_texts(self.tags),
        }
    }
}

fn copy_opt_text(o: &Option<String>) -> (res: Option<String>)
    ensures
        opt_text(res) == opt_text(*o),
{
    match o {
        Some(s) => Some(s.clone()),
        None => None,
    }
}

fn copy_texts(v: &Vec<String>) -> (res: Vec<String>)
    ensures
        texts(res@) == texts(v@),
{
    let mut res: Vec<String> = Vec::new();
    let mut i: usize = 0;
    while i < v.len()
        invariant
            i <= v.len(),
            res@.len() == i,
            forall|j: int| 0 <= j < i ==> #[trigger] res@[j]@ == v@[j]@,
        decreases v.len() - i,
    {
        res.push(v[i].clone());
        i += 1;
    }
    assert(texts(res@) =~= texts(v@));
    res
}

impl Script {
    /// A script with only an alias and a command, as the `add` subcommand makes it.
    pub open spec fn spec_new(alias: Seq<char>, command: Seq<char>) -> ScriptView {
        ScriptView { alias, command, description: None, reference: None, tags: None }
    }

    /// Makes a script with only an alias and a command.
    pub fn new(alias: String, command: String) -> (res: Script)
        ensures
            res@ == Script::spec_new(alias@, command@),
            res.alias == alias,
            res.command == command,
            res.description is None,
            res.reference is None,
            res.tags is None,
    {
        Script { alias, command, description: None, reference: None, tags: None }
    }

    /// A copy of the script with the same contents.
    pub fn duplicate(&self) -> (res: Script)
        ensures
            res@ == self@,
    {
        let tags = match &self.tags {
            Some(v) => Some(copy_texts(v)),
            None => None,
        };
        Script {
            alias: self.alias.clone(),
            command: self.command.clone(),
            description: copy_opt_text(&self.description),
            reference: copy_opt_text(&self.reference),
            tags,
        }
    }

    /// The program and arguments that run the script's command, followed by
    /// `arg`, through `default_shell`: the shell, `-c`, and the command line.
    pub fn shell_argv(&self, default_shell: &str, arg: &str) -> (res: Vec<String>)
        ensures
            texts(res@) == seq![default_shell@, "-c"@, self.command@ + " "@ + arg@],
    {
        let mut line = self.command.clone();
        line.append(" ");
        line.append(arg);
        let mut res: Vec<String> = Vec::new();
        res.push(default_shell.to_owned());
        res.push(String::from_str("-c"));
        res.push(line);
        assert(texts(res@) =~= seq![default_shell@, "-c"@, self.command@ + " "@ + arg@]);
        res
    }
}

} // verus!
