//! What holds of the resolver and the reloader on every tree.

use vstd::prelude::*;
use crate::dispatch::{planned_from, Plan};
use crate::text::opens_with;
use crate::command::{
    first_named, has_name, index_of, node_ok, rebound, reload_target, reloaded, resolve_spec,
    sublevel, well_formed, Command, CommandData, ReloadError,
};

verus! {

/// Below any place called `name` there is a first one.
proof fn first_place_exists(level: Seq<(String, Command)>, name: Seq<char>, k: int)
    requires
        0 <= k < level.len(),
        level[k].0@ == name,
    ensures
        exists|m: int| first_named(level, name, m),
    decreases k,
{
    if exists|j: int| 0 <= j < k && (#[trigger] level[j]).0@ == name {
        let j = choose|j: int| 0 <= j < k && (#[trigger] level[j]).0@ == name;
        first_place_exists(level, name, j);
    } else {
        assert(first_named(level, name, k));
    }
}

/// A name that a level has is found at its first place, and only there.
pub proof fn index_of_is_first(level: Seq<(String, Command)>, name: Seq<char>)
    requires
        has_name(level, name),
    ensures
        first_named(level, name, index_of(level, name)),
        forall|k: int| first_named(level, name, k) ==> k == index_of(level, name),
{
    let k = choose|k: int| 0 <= k < level.len() && (#[trigger] level[k]).0@ == name;
    first_place_exists(level, name, k);
    let m = index_of(level, name);
    assert forall|k: int| first_named(level, name, k) implies k == m by {
        if k < m {
            assert(level[k].0@ == name);
        } else if m < k {
            assert(level[m].0@ == name);
        }
    }
}

/// Two levels with the same names, place by place, answer every lookup alike.
pub proof fn same_names_same_place(
    a: Seq<(String, Command)>,
    b: Seq<(String, Command)>,
    name: Seq<char>,
)
    requires
        a.len() == b.len(),
        forall|j: int| 0 <= j < a.len() ==> (#[trigger] a[j]).0@ == (#[trigger] b[j]).0@,
    ensures
        has_name(a, name) == has_name(b, name),
        has_name(a, name) ==> index_of(a, name) == index_of(b, name),
{
    if has_name(a, name) {
        let k = choose|k: int| 0 <= k < a.len() && (#[trigger] a[k]).0@ == name;
        assert(b[k].0@ == name);
    }
    if has_name(b, name) {
        let k = choose|k: int| 0 <= k < b.len() && (#[trigger] b[k]).0@ == name;
        assert(a[k].0@ == name);
    }
    if has_name(a, name) {
        index_of_is_first(a, name);
        index_of_is_first(b, name);
        let m = index_of(a, name);
        assert(b[m].0@ == name);
        assert forall|j: int| 0 <= j < m implies (#[trigger] b[j]).0@ != name by {
            assert(a[j].0@ != name);
        }
        assert(first_named(b, name, m));
    }
}

/// A reload keeps the length of a level and the name at each place.
pub proof fn rebound_keeps_names(
    before: Seq<(String, Command)>,
    after: Seq<(String, Command)>,
    tokens: Seq<Seq<char>>,
    i: int,
    change: Option<CommandData>,
)
    requires
        rebound(before, after, tokens, i, change),
    ensures
        after.len() == before.len(),
        forall|j: int| 0 <= j < before.len() ==> (#[trigger] after[j]).0 == (#[trigger] before[j]).0,
{
    if !(i < 0 || i >= tokens.len() || !has_name(before, tokens[i])) {
        index_of_is_first(before, tokens[i]);
        let k = index_of(before, tokens[i]);
        assert forall|j: int| 0 <= j < before.len() implies (#[trigger] after[j]).0 == (
        #[trigger] before[j]).0 by {
            if j != k {
                assert(after[j] == before[j]);
            }
        }
    }
}

/// The resolver matches exactly where the reloader's walk ends at an entry,
/// and the entry is the same.
pub proof fn resolver_and_reloader_agree(
    level: Seq<(String, Command)>,
    tokens: Seq<Seq<char>>,
    i: int,
)
    ensures
        resolve_spec(level, tokens, i) is Some <==> reload_target(level, tokens, i) is Some,
        resolve_spec(level, tokens, i) is Some ==> resolve_spec(level, tokens, i).unwrap().0
            == reload_target(level, tokens, i)->0,
    decreases tokens.len() - i,
{
    if !(i < 0 || i >= tokens.len() || !has_name(level, tokens[i])) {
        let node = level[index_of(level, tokens[i])].1;
        if i + 1 < tokens.len() && has_name(sublevel(node), tokens[i + 1]) {
            resolver_and_reloader_agree(sublevel(node), tokens, i + 1);
        }
    }
}

/// A command without subcommands, named by the first word: the resolver
/// returns its entry, and as arguments every word after the first (`None`
/// where the first word is the only one).
pub proof fn leaf_command_takes_the_rest(level: Seq<(String, Command)>, tokens: Seq<Seq<char>>)
    requires
        well_formed(level),
        tokens.len() >= 1,
        has_name(level, tokens[0]),
        sublevel(level[index_of(level, tokens[0])].1).len() == 0,
    ensures
        level[index_of(level, tokens[0])].1.data is Some,
        resolve_spec(level, tokens, 0) == Some(
            (
                level[index_of(level, tokens[0])].1.data->0,
                if tokens.len() > 1 {
                    Some(tokens.subrange(1, tokens.len() as int))
                } else {
                    None
                },
            ),
        ),
{
    index_of_is_first(level, tokens[0]);
    let node = level[index_of(level, tokens[0])].1;
    assert(node_ok(node));
    if tokens.len() > 1 {
        assert(!has_name(sublevel(node), tokens[1]));
    }
}

/// After a reload that bound `entry` where `tokens` lead, the reloader's walk
/// and the resolver both find `entry` there, and the resolver hands out the
/// same arguments as before.
pub proof fn reload_then_resolve(
    before: Seq<(String, Command)>,
    after: Seq<(String, Command)>,
    tokens: Seq<Seq<char>>,
    i: int,
    entry: CommandData,
)
    requires
        reload_target(before, tokens, i) is Some,
        rebound(before, after, tokens, i, Some(entry)),
    ensures
        reload_target(after, tokens, i) == Some(entry),
        resolve_spec(before, tokens, i) is Some,
        resolve_spec(after, tokens, i) == Some((entry, resolve_spec(before, tokens, i).unwrap().1)),
    decreases tokens.len() - i,
{
    rebound_keeps_names(before, after, tokens, i, Some(entry));
    same_names_same_place(before, after, tokens[i]);
    index_of_is_first(before, tokens[i]);
    let k = index_of(before, tokens[i]);
    if i + 1 < tokens.len() {
        let below = sublevel(before[k].1);
        let below_after = sublevel(after[k].1);
        if has_name(below, tokens[i + 1]) {
            rebound_keeps_names(below, below_after, tokens, i + 1, Some(entry));
            same_names_same_place(below, below_after, tokens[i + 1]);
            reload_then_resolve(below, below_after, tokens, i + 1, entry);
        }
    }
}

/// A reload leaves a well-formed tree well formed.
pub proof fn rebound_keeps_well_formed(
    before: Seq<(String, Command)>,
    after: Seq<(String, Command)>,
    tokens: Seq<Seq<char>>,
    i: int,
    change: Option<CommandData>,
)
    requires
        well_formed(before),
        rebound(before, after, tokens, i, change),
    ensures
        well_formed(after),
    decreases tokens.len() - i,
{
    if !(i < 0 || i >= tokens.len() || !has_name(before, tokens[i])) {
        rebound_keeps_names(before, after, tokens, i, change);
        index_of_is_first(before, tokens[i]);
        let k = index_of(before, tokens[i]);
        assert(node_ok(before[k].1));
        assert forall|a: int, b: int| 0 <= a < b < after.len() implies (#[trigger] after[a]).0@ != (
        #[trigger] after[b]).0@ by {
            assert(before[a].0@ != before[b].0@);
        }
        if i + 1 < tokens.len() && has_name(sublevel(before[k].1), tokens[i + 1]) {
            let below = sublevel(before[k].1);
            let below_after = sublevel(after[k].1);
            assert(well_formed(below));
            rebound_keeps_well_formed(below, below_after, tokens, i + 1, change);
            rebound_keeps_names(below, below_after, tokens, i + 1, change);
            assert(node_ok(after[k].1));
        } else {
            assert(node_ok(after[k].1));
        }
        assert forall|j: int| 0 <= j < after.len() implies node_ok((#[trigger] after[j]).1) by {
            if j != k {
                assert(after[j] == before[j]);
                assert(node_ok(before[j].1));
            }
        }
    }
}

/// The entry that stands where `tokens`, from word `i` on, name a path of the
/// tree exactly: each word a command of the level that the word before it led
/// to, and no word left over.
pub open spec fn declared_entry(
    level: Seq<(String, Command)>,
    tokens: Seq<Seq<char>>,
    i: int,
) -> Option<CommandData>
    decreases tokens.len() - i,
{
    if i < 0 || i >= tokens.len() || !has_name(level, tokens[i]) {
        None
    } else {
        let node = level[index_of(level, tokens[i])].1;
        if i + 1 == tokens.len() {
            node.data
        } else {
            declared_entry(sublevel(node), tokens, i + 1)
        }
    }
}

/// Resolving the exact path of an entry finds that entry, with no arguments.
pub proof fn declared_path_resolves(level: Seq<(String, Command)>, tokens: Seq<Seq<char>>, i: int)
    requires
        declared_entry(level, tokens, i) is Some,
    ensures
        resolve_spec(level, tokens, i) == Some(
            (declared_entry(level, tokens, i).unwrap(), None::<Seq<Seq<char>>>),
        ),
    decreases tokens.len() - i,
{
    let node = level[index_of(level, tokens[i])].1;
    if i + 1 < tokens.len() {
        declared_path_resolves(sublevel(node), tokens, i + 1);
    }
}

/// A name that stands first at place `k` is known to the level and found there.
pub proof fn found_at(level: Seq<(String, Command)>, name: Seq<char>, k: int)
    requires
        first_named(level, name, k),
    ensures
        has_name(level, name),
        index_of(level, name) == k,
{
    index_of_is_first(level, name);
}

/// After a reload that bound `entry` where the words of a line lead, the
/// dispatch of that line runs the handler of `entry`, with the arguments that
/// the line had before.
pub proof fn reload_then_dispatch(
    before: Seq<(String, Command)>,
    after: Seq<(String, Command)>,
    data: Seq<char>,
    inner: Seq<char>,
    words: Seq<Seq<char>>,
    entry: CommandData,
)
    requires
        opens_with(data, "xD"@),
        inner != "xD"@,
        reload_target(before, words, 0) is Some,
        rebound(before, after, words, 0, Some(entry)),
    ensures
        planned_from(before, data, inner, words) is Invoke,
        planned_from(after, data, inner, words) == Plan::Invoke(
            entry.handler,
            planned_from(before, data, inner, words)->Invoke_1,
        ),
{
    reload_then_resolve(before, after, words, 0, entry);
}

/// A reload that rebinds nothing leaves every resolution, and every entry
/// that a later reload would reach, as it was.
pub proof fn idle_reload_keeps_resolutions(
    before: Seq<(String, Command)>,
    after: Seq<(String, Command)>,
    tokens: Seq<Seq<char>>,
    i: int,
    query: Seq<Seq<char>>,
    j: int,
)
    requires
        rebound(before, after, tokens, i, None),
    ensures
        resolve_spec(after, query, j) == resolve_spec(before, query, j),
        reload_target(after, query, j) == reload_target(before, query, j),
    decreases tokens.len() - i,
{
    if !(i < 0 || i >= tokens.len() || !has_name(before, tokens[i])) && 0 <= j < query.len() {
        rebound_keeps_names(before, after, tokens, i, None);
        same_names_same_place(before, after, query[j]);
        index_of_is_first(before, tokens[i]);
        let k = index_of(before, tokens[i]);
        if has_name(before, query[j]) {
            index_of_is_first(before, query[j]);
            let m = index_of(before, query[j]);
            if m == k {
                let below = sublevel(before[k].1);
                let below_after = sublevel(after[k].1);
                if i + 1 < tokens.len() && has_name(below, tokens[i + 1]) {
                    rebound_keeps_names(below, below_after, tokens, i + 1, None);
                    idle_reload_keeps_resolutions(below, below_after, tokens, i + 1, query, j + 1);
                    if j + 1 < query.len() {
                        same_names_same_place(below, below_after, query[j + 1]);
                    }
                }
            } else {
                assert(after[m] == before[m]);
            }
        }
    }
}

/// A reload that failed, because no entry was found or because the updater
/// refused, leaves every resolution as it was.
pub proof fn failed_reload_keeps_resolutions<F: Fn(&CommandData) -> Result<CommandData, ReloadError>>(
    before: Seq<(String, Command)>,
    after: Seq<(String, Command)>,
    tokens: Seq<Seq<char>>,
    reloader: F,
    result: Result<(), ReloadError>,
    query: Seq<Seq<char>>,
)
    requires
        reloaded(before, after, tokens, 0, reloader, result),
        result is Err,
    ensures
        resolve_spec(after, query, 0) == resolve_spec(before, query, 0),
{
    assert(rebound(before, after, tokens, 0, None));
    idle_reload_keeps_resolutions(before, after, tokens, 0, query, 0);
}

} // verus!
