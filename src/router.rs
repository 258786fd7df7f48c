//! The command grammar and the routing of a message to a registered command.
use vstd::prelude::*;

use crate::dispatch_error::DispatchError;

verus! {

/// A command as registered: its name and the inclusive range of argument counts it takes.
#[derive(Debug)]
pub struct CommandSpec {
    pub name: String,
    pub min_args: u64,
    /// `None` when the command takes any number of arguments from `min_args` up.
    pub max_args: Option<u64>,
}

/// A named, ordered group of commands.
#[derive(Debug)]
pub struct CommandGroup {
    pub name: String,
    pub commands: Vec<CommandSpec>,
}

/// Where a message goes once it has been read.
#[derive(Debug, PartialEq, Eq)]
pub enum Route {
    /// The message does not start with the prefix: it is no command.
    Ignored,
    /// The built-in help command.
    Help,
    /// The command at `commands[command]` of `groups[group]`, with its arguments.
    Run { group: usize, command: usize, args: Vec<String> },
    /// A command that could not be handed to a handler.
    Rejected { error: DispatchError },
}

/// Maps an incoming message to a command of an ordered list of groups.
#[derive(Debug)]
pub struct Router {
    pub prefix: char,
    pub groups: Vec<CommandGroup>,
}

/// The characters that separate words: ASCII whitespace.
pub open spec fn is_space(c: char) -> bool {
    c == ' ' || c == '\t' || c == '\n' || c == '\r' || c == '\x0C'
}

/// Reads `s` left to right: the words completed so far, and the word being read.
pub open spec fn scan(s: Seq<char>) -> (Seq<Seq<char>>, Seq<char>)
    decreases s.len(),
{
    if s.len() == 0 {
        (Seq::empty(), Seq::empty())
    } else {
        let (done, cur) = scan(s.drop_last());
        if is_space(s.last()) {
            if cur.len() == 0 {
                (done, cur)
            } else {
                (done.push(cur), Seq::empty())
            }
        } else {
            (done, cur.push(s.last()))
        }
    }
}

/// The maximal runs of non-space characters of `s`, in order.
pub open spec fn words(s: Seq<char>) -> Seq<Seq<char>> {
    let (done, cur) = scan(s);
    if cur.len() == 0 {
        done
    } else {
        done.push(cur)
    }
}

/// The text of each string of a sequence.
pub open spec fn texts(v: Seq<String>) -> Seq<Seq<char>> {
    v.map_values(|s: String| s@)
}

/// The command name of a command line: its first word, or nothing.
pub open spec fn command_name(ws: Seq<Seq<char>>) -> Seq<char> {
    if ws.len() == 0 {
        Seq::empty()
    } else {
        ws[0]
    }
}

/// The arguments of a command line: the words after the first.
pub open spec fn command_args(ws: Seq<Seq<char>>) -> Seq<Seq<char>> {
    if ws.len() == 0 {
        Seq::empty()
    } else {
        ws.drop_first()
    }
}

/// The verdict of the argument-count check for a command declared with `[min, max]`.
pub open spec fn arg_count_verdict(min: u64, max: Option<u64>, given: u64) -> Result<(), DispatchError> {
    if given < min {
        Err(DispatchError::NotEnoughArguments { min, given })
    } else if max.is_some() && given > max.unwrap() {
        Err(DispatchError::TooManyArguments { max: max.unwrap(), given })
    } else {
        Ok(())
    }
}

/// The index of the first command of `cmds` named `name`.
pub open spec fn find_command(cmds: Seq<CommandSpec>, name: Seq<char>) -> Option<int>
    decreases cmds.len(),
{
    if cmds.len() == 0 {
        None
    } else {
        match find_command(cmds.drop_last(), name) {
            Some(i) => Some(i),
            None => if cmds.last().name@ == name {
                Some(cmds.len() - 1)
            } else {
                None
            },
        }
    }
}

/// The first group of `groups` that holds a command named `name`, and that command's index.
pub open spec fn find_in_groups(groups: Seq<CommandGroup>, name: Seq<char>) -> Option<(int, int)>
    decreases groups.len(),
{
    if groups.len() == 0 {
        None
    } else {
        match find_in_groups(groups.drop_last(), name) {
            Some(p) => Some(p),
            None => match find_command(groups.last().commands@, name) {
                Some(c) => Some((groups.len() - 1, c)),
                None => None,
            },
        }
    }
}

/// Checks an argument count against a command's declared range.
pub fn check_arg_count(min: u64, max: Option<u64>, given: u64) -> (r: Result<(), DispatchError>)
    ensures
        r == arg_count_verdict(min, max, given),
{
    if given < min {
        return Err(DispatchError::NotEnoughArguments { min, given });
    }
    match max {
        Some(m) => if given > m {
            Err(DispatchError::TooManyArguments { max: m, given })
        } else {
            Ok(())
        },
        None => Ok(()),
    }
}

/// Splits `text` from position `from` on into its words.
pub fn split_words(text: &str, from: usize) -> (r: Vec<String>)
    requires
        from <= text@.len(),
    ensures
        texts(r@) == words(text@.subrange(from as int, text@.len() as int)),
{
    let n = text.unicode_len();
    let ghost t = text@;
    let mut out: Vec<String> = Vec::new();
    let mut start: Option<usize> = None;
    let mut i: usize = from;
    while i < n
        invariant
            n == t.len(),
            t == text@,
            from <= i <= n,
            texts(out@) == scan(t.subrange(from as int, i as int)).0,
            match start {
                Some(st) => from <= st < i && scan(t.subrange(from as int, i as int)).1 == t.subrange(
                    st as int,
                    i as int,
                ),
                None => scan(t.subrange(from as int, i as int)).1.len() == 0,
            },
        decreases n - i,
    {
        let c = text.get_char(i);
        let ghost before = t.subrange(from as int, i as int);
        let ghost after = t.subrange(from as int, i + 1);
        assert(after.drop_last() =~= before);
        if c == ' ' || c == '\t' || c == '\n' || c == '\r' || c == '\x0C' {
            match start {
                Some(st) => {
                    let w = String::from_str(text.substring_char(st, i));
                    out.push(w);
                    assert(texts(out@) =~= scan(after).0);
                    start = None;
                },
                None => {},
            }
        } else {
            match start {
                Some(st) => {
                    assert(t.subrange(st as int, i + 1) =~= t.subrange(st as int, i as int).push(c));
                },
                None => {
                    assert(t.subrange(i as int, i + 1) =~= seq![c]);
                    assert(scan(before).1.push(c) =~= seq![c]);
                    start = Some(i);
                },
            }
            assert(texts(out@) =~= scan(after).0);
        }
        i = i + 1;
    }
    let ghost whole = t.subrange(from as int, n as int);
    match start {
        Some(st) => {
            let w = String::from_str(text.substring_char(st, n));
            out.push(w);
            assert(texts(out@) =~= words(whole));
        },
        None => {},
    }
    out
}

/// A command found by name never moves when more commands follow it.
proof fn lemma_find_command_prefix(cmds: Seq<CommandSpec>, name: Seq<char>, k: int)
    requires
        0 <= k <= cmds.len(),
        find_command(cmds.take(k), name) is Some,
    ensures
        find_command(cmds, name) == find_command(cmds.take(k), name),
    decreases cmds.len(),
{
    if k == cmds.len() {
        assert(cmds.take(k) =~= cmds);
    } else {
        assert(cmds.drop_last().take(k) =~= cmds.take(k));
        lemma_find_command_prefix(cmds.drop_last(), name, k);
    }
}

/// A group found by command name never moves when more groups follow it.
proof fn lemma_find_in_groups_prefix(groups: Seq<CommandGroup>, name: Seq<char>, k: int)
    requires
        0 <= k <= groups.len(),
        find_in_groups(groups.take(k), name) is Some,
    ensures
        find_in_groups(groups, name) == find_in_groups(groups.take(k), name),
    decreases groups.len(),
{
    if k == groups.len() {
        assert(groups.take(k) =~= groups);
    } else {
        assert(groups.drop_last().take(k) =~= groups.take(k));
        lemma_find_in_groups_prefix(groups.drop_last(), name, k);
    }
}

/// The index of the first command of `cmds` named `name`.
fn position_of(cmds: &Vec<CommandSpec>, name: &String) -> (r: Option<usize>)
    ensures
        r matches Some(i) ==> i < cmds@.len() && find_command(cmds@, name@) == Some(i as int),
        r is None ==> find_command(cmds@, name@) is None,
{
    let mut c: usize = 0;
    while c < cmds.len()
        invariant
            0 <= c <= cmds@.len(),
            find_command(cmds@.take(c as int), name@) is None,
        decreases cmds@.len() - c,
    {
        assert(cmds@.take(c + 1).drop_last() =~= cmds@.take(c as int));
        if cmds[c].name == *name {
            proof {
                lemma_find_command_prefix(cmds@, name@, c + 1);
            }
            return Some(c);
        }
        c = c + 1;
    }
    assert(cmds@.take(c as int) =~= cmds@);
    None
}

impl Router {
    /// The first group that holds a command named `name`, and that command's index there.
    pub fn find(&self, name: &String) -> (r: Option<(usize, usize)>)
        ensures
            r matches Some((g, c)) ==> g < self.groups@.len() && c < self.groups@[g as int].commands@.len()
                && find_in_groups(self.groups@, name@) == Some((g as int, c as int)),
            r is None ==> find_in_groups(self.groups@, name@) is None,
    {
        let mut g: usize = 0;
        while g < self.groups.len()
            invariant
                0 <= g <= self.groups@.len(),
                find_in_groups(self.groups@.take(g as int), name@) is None,
            decreases self.groups@.len() - g,
        {
            assert(self.groups@.take(g + 1).drop_last() =~= self.groups@.take(g as int));
            match position_of(&self.groups[g].commands, name) {
                Some(c) => {
                    proof {
                        lemma_find_in_groups_prefix(self.groups@, name@, g + 1);
                    }
                    return Some((g, c));
                },
                None => {},
            }
            g = g + 1;
        }
        assert(self.groups@.take(g as int) =~= self.groups@);
        None
    }

    /// Where a message `t` goes: the full statement of the routing rules.
    pub open spec fn routes_as(&self, t: Seq<char>, r: Route) -> bool {
        if t.len() == 0 || t[0] != self.prefix {
            r is Ignored
        } else {
            let ws = words(t.drop_first());
            let name = command_name(ws);
            let args = command_args(ws);
            if name == "help"@ {
                r is Help
            } else {
                match find_in_groups(self.groups@, name) {
                    None => r == Route::Rejected { error: DispatchError::UnknownCommand },
                    Some((g, c)) => {
                        let cmd = self.groups@[g].commands@[c];
                        match arg_count_verdict(cmd.min_args, cmd.max_args, args.len() as u64) {
                            Err(e) => r == Route::Rejected { error: e },
                            Ok(_) => match r {
                                Route::Run { group, command, args: a } => group == g && command
                                    == c && texts(a@) == args,
                                _ => false,
                            },
                        }
                    },
                }
            }
        }
    }

    /// Reads a message and decides where it goes.
    pub fn route(&self, text: &str) -> (r: Route)
        ensures
            self.routes_as(text@, r),
    {
        let n = text.unicode_len();
        if n == 0 {
            return Route::Ignored;
        }
        if text.get_char(0) != self.prefix {
            return Route::Ignored;
        }
        let mut ws = split_words(text, 1);
        assert(text@.subrange(1, text@.len() as int) =~= text@.drop_first());
        let ghost all = texts(ws@);
        let name = if ws.len() == 0 {
            String::new()
        } else {
            ws.remove(0)
        };
        assert(name@ == command_name(all));
        assert(texts(ws@) =~= command_args(all));
        let help = String::from_str("help");
        if name == help {
            return Route::Help;
        }
        match self.find(&name) {
            None => Route::Rejected { error: DispatchError::UnknownCommand },
            Some((g, c)) => {
                let cmd = &self.groups[g].commands[c];
                let given = ws.len() as u64;
                match check_arg_count(cmd.min_args, cmd.max_args, given) {
                    Err(e) => Route::Rejected { error: e },
                    Ok(_) => Route::Run { group: g, command: c, args: ws },
                }
            },
        }
    }
}

/// The names of `cmds`, separated by a comma and a space.
pub open spec fn joined_names(cmds: Seq<CommandSpec>) -> Seq<char>
    decreases cmds.len(),
{
    if cmds.len() == 0 {
        Seq::empty()
    } else if cmds.len() == 1 {
        cmds[0].name@
    } else {
        joined_names(cmds.drop_last()) + ", "@ + cmds.last().name@
    }
}

/// One line per group: its name, a colon and a space, then its commands' names.
pub open spec fn help_listing(groups: Seq<CommandGroup>) -> Seq<char>
    decreases groups.len(),
{
    if groups.len() == 0 {
        Seq::empty()
    } else {
        help_listing(groups.drop_last()) + groups.last().name@ + ": "@ + joined_names(
            groups.last().commands@,
        ) + "\n"@
    }
}

/// Whether `c` is the command `name` taking from `min` to `max` arguments.
pub open spec fn declares(c: CommandSpec, name: Seq<char>, min: u64, max: Option<u64>) -> bool {
    c.name@ == name && c.min_args == min && c.max_args == max
}

fn names_of(cmds: &Vec<CommandSpec>) -> (r: String)
    ensures
        r@ == joined_names(cmds@),
{
    let mut s = String::new();
    let mut i: usize = 0;
    while i < cmds.len()
        invariant
            0 <= i <= cmds@.len(),
            s@ == joined_names(cmds@.take(i as int)),
        decreases cmds@.len() - i,
    {
        assert(cmds@.take(i + 1).drop_last() =~= cmds@.take(i as int));
        if i > 0 {
            s.append(", ");
        } else {
            assert(s@ =~= Seq::<char>::empty());
        }
        s.append(cmds[i].name.as_str());
        i = i + 1;
    }
    assert(cmds@.take(i as int) =~= cmds@);
    s
}

fn command(name: &str, min_args: u64, max_args: Option<u64>) -> (r: CommandSpec)
    ensures
        declares(r, name@, min_args, max_args),
{
    CommandSpec { name: String::from_str(name), min_args, max_args }
}

impl Router {
    /// The agent's own commands under the prefix `<`: group "Config" with `set_team` and
    /// `set_tournament`, then group "Battlefy" with `round` and `team`.
    pub fn standard() -> (r: Router)
        ensures
            r.prefix == '<',
            r.groups@.len() == 2,
            r.groups@[0].name@ == "Config"@,
            r.groups@[0].commands@.len() == 2,
            declares(r.groups@[0].commands@[0], "set_team"@, 1, Some(1)),
            declares(r.groups@[0].commands@[1], "set_tournament"@, 1, Some(1)),
            r.groups@[1].name@ == "Battlefy"@,
            r.groups@[1].commands@.len() == 2,
            declares(r.groups@[1].commands@[0], "round"@, 0, None),
            declares(r.groups@[1].commands@[1], "team"@, 1, Some(1)),
    {
        let mut config: Vec<CommandSpec> = Vec::new();
        config.push(command("set_team", 1, Some(1)));
        config.push(command("set_tournament", 1, Some(1)));
        let mut battlefy: Vec<CommandSpec> = Vec::new();
        battlefy.push(command("round", 0, None));
        battlefy.push(command("team", 1, Some(1)));
        let mut groups: Vec<CommandGroup> = Vec::new();
        groups.push(CommandGroup { name: String::from_str("Config"), commands: config });
        groups.push(CommandGroup { name: String::from_str("Battlefy"), commands: battlefy });
        Router { prefix: '<', groups }
    }

    /// The text of the built-in help command: every registered command, by group.
    pub fn help_text(&self) -> (r: String)
        ensures
            r@ == help_listing(self.groups@),
    {
        let mut s = String::new();
        let mut g: usize = 0;
        while g < self.groups.len()
            invariant
                0 <= g <= self.groups@.len(),
                s@ == help_listing(self.groups@.take(g as int)),
            decreases self.groups@.len() - g,
        {
            assert(self.groups@.take(g + 1).drop_last() =~= self.groups@.take(g as int));
            let group = &self.groups[g];
            s.append(group.name.as_str());
            s.append(": ");
            let names = names_of(&group.commands);
            s.append(names.as_str());
            s.append("\n");
            g = g + 1;
        }
        assert(self.groups@.take(g as int) =~= self.groups@);
        s
    }
}

} // verus!
