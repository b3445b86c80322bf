//! The command tree, the resolver that walks it with one word of lookahead,
//! and the reloader that rebinds an entry in place.

use vstd::prelude::*;
use vstd::string::*;
use crate::text::{split_words, str_eq, views, whitespace_words};

verus! {

/// The logic that a command entry is bound to.
#[derive(Clone, Copy, Debug, PartialEq, Eq, Structural)]
pub enum Handler {
    Help,
    Ping,
    PingUptime,
    Whoami,
    Stop,
    Song,
    PlaylistQueue,
    Script,
}

/// A runnable entry: usage text, the handler it is bound to, and the path of
/// the script behind it (empty for a built-in).
#[derive(Debug)]
pub struct CommandData {
    pub help: String,
    pub handler: Handler,
    pub path: String,
}

impl Clone for CommandData {
    fn clone(&self) -> (copy: Self)
        ensures
            copy == *self,
    {
        CommandData { help: self.help.clone(), handler: self.handler, path: self.path.clone() }
    }
}

/// A node of the tree: named subcommands, an entry, or both.
#[derive(Debug)]
pub struct Command {
    pub commands: Option<Vec<(String, Command)>>,
    pub data: Option<CommandData>,
}

/// Why a reload did not happen.
#[derive(Debug, PartialEq, Eq)]
pub enum ReloadError {
    /// No entry stands where the name leads.
    NotFound,
    /// The entry was found and the updater refused it, for this reason.
    Rejected(String),
}

/// What the caller of a reload is told where no entry was found.
pub fn not_found_text(name: &str) -> (text: String)
    ensures
        text@ == "Command `"@ + name@ + "` wasn't found or isn't scripted"@,
{
    let mut text = "Command `".to_owned();
    text.append(name);
    text.append("` wasn't found or isn't scripted");
    text
}

/// The subcommands of a node; none where it has no mapping.
pub open spec fn sublevel(node: Command) -> Seq<(String, Command)> {
    match node.commands {
        Some(v) => v@,
        None => Seq::empty(),
    }
}

/// Whether `level` has a command called `name`.
pub open spec fn has_name(level: Seq<(String, Command)>, name: Seq<char>) -> bool {
    exists|k: int| 0 <= k < level.len() && (#[trigger] level[k]).0@ == name
}

/// Whether `k` is the first place in `level` that is called `name`.
pub open spec fn first_named(level: Seq<(String, Command)>, name: Seq<char>, k: int) -> bool {
    &&& 0 <= k < level.len()
    &&& level[k].0@ == name
    &&& forall|j: int| 0 <= j < k ==> (#[trigger] level[j]).0@ != name
}

/// The place of the command called `name` in `level`.
pub open spec fn index_of(level: Seq<(String, Command)>, name: Seq<char>) -> int {
    choose|k: int| first_named(level, name, k)
}

/// No two commands of `level` share a name.
pub open spec fn distinct_names(level: Seq<(String, Command)>) -> bool {
    forall|i: int, j: int|
        0 <= i < j < level.len() ==> (#[trigger] level[i]).0@ != (#[trigger] level[j]).0@
}

/// A node is well formed when it has an entry or at least one subcommand, and
/// its subcommands form a well-formed level.
pub open spec fn node_ok(node: Command) -> bool
    decreases node,
{
    match node.commands {
        Some(v) => {
            &&& (node.data is Some || v@.len() > 0)
            &&& distinct_names(v@)
            &&& forall|i: int| 0 <= i < v@.len() ==> node_ok((#[trigger] v@[i]).1)
        },
        None => node.data is Some,
    }
}

/// A level is well formed when its names are distinct and its nodes are well formed.
pub open spec fn well_formed(level: Seq<(String, Command)>) -> bool {
    &&& distinct_names(level)
    &&& forall|i: int| 0 <= i < level.len() ==> node_ok((#[trigger] level[i]).1)
}

/// What the resolver finds for `tokens` from word `i` on, starting at `level`:
/// the entry, and the words after the last one that named a command (`None`
/// where there is none left).
pub open spec fn resolve_spec(
    level: Seq<(String, Command)>,
    tokens: Seq<Seq<char>>,
    i: int,
) -> Option<(CommandData, Option<Seq<Seq<char>>>)>
    decreases tokens.len() - i,
{
    if i < 0 || i >= tokens.len() || !has_name(level, tokens[i]) {
        None
    } else {
        let node = level[index_of(level, tokens[i])].1;
        if i + 1 < tokens.len() && has_name(sublevel(node), tokens[i + 1]) {
            resolve_spec(sublevel(node), tokens, i + 1)
        } else {
            match node.data {
                Some(entry) => Some(
                    (
                        entry,
                        if i + 1 < tokens.len() {
                            Some(tokens.subrange(i + 1, tokens.len() as int))
                        } else {
                            None
                        },
                    ),
                ),
                None => None,
            }
        }
    }
}

/// Whether what the resolver returned is what `resolve_spec` describes.
pub open spec fn same_resolution(
    found: Option<(&CommandData, Option<Vec<&str>>)>,
    expected: Option<(CommandData, Option<Seq<Seq<char>>>)>,
) -> bool {
    match (found, expected) {
        (Some((entry, args)), Some((want, want_args))) => {
            &&& *entry == want
            &&& match (args, want_args) {
                (Some(a), Some(w)) => views(a@) == w,
                (None, None) => true,
                _ => false,
            }
        },
        (None, None) => true,
        _ => false,
    }
}

/// Finds the first command of `level` called `name`.
pub fn lookup(level: &Vec<(String, Command)>, name: &str) -> (found: Option<usize>)
    ensures
        found is Some <==> has_name(level@, name@),
        found is Some ==> first_named(level@, name@, found->0 as int) && found->0 == index_of(
            level@,
            name@,
        ),
{
    let mut k: usize = 0;
    while k < level.len()
        invariant
            k <= level.len(),
            forall|j: int| 0 <= j < k ==> (#[trigger] level@[j]).0@ != name@,
        decreases level.len() - k,
    {
        if str_eq(level[k].0.as_str(), name) {
            assert(first_named(level@, name@, k as int));
            return Some(k);
        }
        k += 1;
    }
    None
}

/// The words of `tokens` from `from` on.
fn tail_of<'a>(tokens: &Vec<&'a str>, from: usize) -> (rest: Vec<&'a str>)
    requires
        from <= tokens.len(),
    ensures
        rest@ == tokens@.subrange(from as int, tokens@.len() as int),
{
    let mut rest: Vec<&'a str> = Vec::new();
    let mut j: usize = from;
    while j < tokens.len()
        invariant
            from <= j <= tokens.len(),
            rest@ == tokens@.subrange(from as int, j as int),
        decreases tokens.len() - j,
    {
        rest.push(tokens[j]);
        assert(rest@ =~= tokens@.subrange(from as int, j + 1));
        j += 1;
    }
    assert(rest@ =~= tokens@.subrange(from as int, tokens@.len() as int));
    rest
}

/// Resolves a line that is already split into words. At each word the current
/// level must know it; the walk descends only where the next word names a
/// subcommand of the node just found, and otherwise stops there: the node's
/// entry is the match and the words after it are the arguments.
pub fn resolve<'t, 'a>(commands: &'t Vec<(String, Command)>, tokens: &Vec<&'a str>) -> (found:
    Option<(&'t CommandData, Option<Vec<&'a str>>)>)
    ensures
        same_resolution(found, resolve_spec(commands@, views(tokens@), 0)),
{
    let ghost words = views(tokens@);
    let mut level = commands;
    let mut i: usize = 0;
    while i < tokens.len()
        invariant
            i <= tokens.len(),
            words == views(tokens@),
            resolve_spec(commands@, words, 0) == resolve_spec(level@, words, i as int),
        decreases tokens.len() - i,
    {
        let k = match lookup(level, tokens[i]) {
            Some(k) => k,
            None => {
                return None;
            },
        };
        let node = &level[k].1;
        if i + 1 < tokens.len() {
            if let Some(sub) = &node.commands {
                if lookup(sub, tokens[i + 1]).is_some() {
                    level = sub;
                    i += 1;
                    continue;
                }
            }
        }
        match &node.data {
            Some(entry) => {
                if i + 1 < tokens.len() {
                    let rest = tail_of(tokens, i + 1);
                    assert(views(rest@) =~= words.subrange(i + 1, words.len() as int));
                    return Some((entry, Some(rest)));
                }
                return Some((entry, None));
            },
            None => {
                return None;
            },
        }
    }
    None
}

/// Resolves a line of text: splits it at whitespace and walks the tree as
/// `resolve` does.
pub fn find_command<'t, 'a>(commands: &'t Vec<(String, Command)>, message: &'a str) -> (found:
    Option<(&'t CommandData, Option<Vec<&'a str>>)>)
    ensures
        same_resolution(found, resolve_spec(commands@, whitespace_words(message@), 0)),
{
    let tokens = split_words(message);
    resolve(commands, &tokens)
}

/// The entry that a reload of `tokens` reaches from word `i` on, starting at
/// `level`. The walk is the greedy one: it descends while a further word names
/// a subcommand, stops at the first node where none does, and does not look at
/// the words behind that node.
pub open spec fn reload_target(
    level: Seq<(String, Command)>,
    tokens: Seq<Seq<char>>,
    i: int,
) -> Option<CommandData>
    decreases tokens.len() - i,
{
    if i < 0 || i >= tokens.len() || !has_name(level, tokens[i]) {
        None
    } else {
        let node = level[index_of(level, tokens[i])].1;
        if i + 1 < tokens.len() && has_name(sublevel(node), tokens[i + 1]) {
            reload_target(sublevel(node), tokens, i + 1)
        } else {
            node.data
        }
    }
}

/// Whether `after` is `before` but for the entry that `tokens` reaches: with
/// `Some(entry)` as `change` that entry is `entry`, with `None` it is what it
/// was. Names, shape and every other entry are the same in both.
pub open spec fn rebound(
    before: Seq<(String, Command)>,
    after: Seq<(String, Command)>,
    tokens: Seq<Seq<char>>,
    i: int,
    change: Option<CommandData>,
) -> bool
    decreases tokens.len() - i,
{
    if i < 0 || i >= tokens.len() || !has_name(before, tokens[i]) {
        after == before
    } else {
        let k = index_of(before, tokens[i]);
        &&& after.len() == before.len()
        &&& forall|j: int| 0 <= j < before.len() && j != k ==> #[trigger] after[j] == before[j]
        &&& after[k].0 == before[k].0
        &&& if i + 1 < tokens.len() && has_name(sublevel(before[k].1), tokens[i + 1]) {
            &&& after[k].1.data == before[k].1.data
            &&& after[k].1.commands is Some
            &&& rebound(sublevel(before[k].1), sublevel(after[k].1), tokens, i + 1, change)
        } else {
            &&& after[k].1.commands == before[k].1.commands
            &&& after[k].1.data == if before[k].1.data is Some && change is Some {
                change
            } else {
                before[k].1.data
            }
        }
    }
}

/// What a reload returns and leaves behind, given what the updater answered
/// for the entry that the walk reached.
pub open spec fn reload_outcome(
    before: Seq<(String, Command)>,
    after: Seq<(String, Command)>,
    tokens: Seq<Seq<char>>,
    i: int,
    answer: Result<CommandData, ReloadError>,
    result: Result<(), ReloadError>,
) -> bool {
    match answer {
        Ok(entry) => result is Ok && rebound(before, after, tokens, i, Some(entry)),
        Err(e) => result == Err::<(), ReloadError>(e) && rebound(before, after, tokens, i, None),
    }
}

/// What a reload of `tokens` with `reloader` may return and leave behind.
pub open spec fn reloaded<F: Fn(&CommandData) -> Result<CommandData, ReloadError>>(
    before: Seq<(String, Command)>,
    after: Seq<(String, Command)>,
    tokens: Seq<Seq<char>>,
    i: int,
    reloader: F,
    result: Result<(), ReloadError>,
) -> bool {
    match reload_target(before, tokens, i) {
        None => result == Err::<(), ReloadError>(ReloadError::NotFound) && rebound(
            before,
            after,
            tokens,
            i,
            None,
        ),
        Some(entry) => exists|answer: Result<CommandData, ReloadError>|
            reloader.ensures((&entry,), answer) && #[trigger] reload_outcome(
                before,
                after,
                tokens,
                i,
                answer,
                result,
            ),
    }
}

/// The reloader's walk from word `i` of `tokens`, starting at `level`.
fn reload_level<F>(
    level: &mut Vec<(String, Command)>,
    tokens: &Vec<&str>,
    i: usize,
    reloader: &F,
) -> (result: Result<(), ReloadError>) where F: Fn(&CommandData) -> Result<CommandData, ReloadError>
    requires
        forall|d: &CommandData| reloader.requires((d,)),
    ensures
        reloaded(old(level)@, final(level)@, views(tokens@), i as int, *reloader, result),
    decreases tokens.len() - i,
{
    let ghost words = views(tokens@);
    if i >= tokens.len() {
        return Err(ReloadError::NotFound);
    }
    let k = match lookup(level, tokens[i]) {
        Some(k) => k,
        None => {
            return Err(ReloadError::NotFound);
        },
    };
    let ghost before = level@;
    let node = &mut level[k];
    let mut descend = false;
    if i + 1 < tokens.len() {
        if let Some(sub) = &node.1.commands {
            descend = lookup(sub, tokens[i + 1]).is_some();
        }
    }
    if descend {
        match &mut node.1.commands {
            Some(sub) => {
                let result = reload_level(sub, tokens, i + 1, reloader);
                proof {
                    let below = sublevel(before[k as int].1);
                    let below_after = sublevel(level@[k as int].1);
                    let target = reload_target(below, words, i + 1);
                    if target is Some {
                        let answer = choose|answer: Result<CommandData, ReloadError>|
                            reloader.ensures((&target->0,), answer) && #[trigger] reload_outcome(
                                below,
                                below_after,
                                words,
                                i + 1,
                                answer,
                                result,
                            );
                        assert(reload_outcome(before, level@, words, i as int, answer, result));
                    }
                }
                result
            },
            None => Err(ReloadError::NotFound),
        }
    } else {
        match &mut node.1.data {
            Some(entry) => {
                let ghost target = *entry;
                match reloader(&*entry) {
                    Ok(fresh) => {
                        *entry = fresh;
                        proof {
                            let answer = Ok::<CommandData, ReloadError>(fresh);
                            assert(reloader.ensures((&target,), answer));
                            assert(reload_outcome(before, level@, words, i as int, answer, Ok(())));
                        }
                        Ok(())
                    },
                    Err(e) => {
                        proof {
                            let answer = Err::<CommandData, ReloadError>(e);
                            assert(reloader.ensures((&target,), answer));
                            assert(reload_outcome(before, level@, words, i as int, answer, Err(e)));
                        }
                        Err(e)
                    },
                }
            },
            None => Err(ReloadError::NotFound),
        }
    }
}

/// Rebinds the entry that a name leads to, the name given as its words. The
/// words are walked greedily; where the walk ends at a node with an entry,
/// `reloader` is asked for the new entry. Its `Ok` replaces the entry in place
/// and leaves the rest of the tree as it was; its `Err` is handed on and
/// nothing changes. Where the walk finds no entry the result is
/// `ReloadError::NotFound`.
pub fn reload<F>(commands: &mut Vec<(String, Command)>, tokens: &Vec<&str>, reloader: F) -> (result:
    Result<(), ReloadError>) where F: Fn(&CommandData) -> Result<CommandData, ReloadError>
    requires
        forall|d: &CommandData| reloader.requires((d,)),
    ensures
        reloaded(old(commands)@, final(commands)@, views(tokens@), 0, reloader, result),
{
    reload_level(commands, tokens, 0, &reloader)
}

/// Rebinds the entry that `name` leads to: splits the name at whitespace and
/// reloads as `reload` does.
pub fn reload_command<F>(commands: &mut Vec<(String, Command)>, name: &str, reloader: F) -> (result:
    Result<(), ReloadError>) where F: Fn(&CommandData) -> Result<CommandData, ReloadError>
    requires
        forall|d: &CommandData| reloader.requires((d,)),
    ensures
        reloaded(old(commands)@, final(commands)@, whitespace_words(name@), 0, reloader, result),
{
    let tokens = split_words(name);
    reload(commands, &tokens, reloader)
}

} // verus!
