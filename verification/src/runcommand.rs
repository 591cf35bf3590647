//! Run command: the phone runs commands that the desktop user configured,
//! by identifier.
use crate::ping::names_view;
use crate::screenshare::no_duplicates;
use crate::text::{owned, str_eq};
use vstd::prelude::*;

verus! {

/// A configured command: a display name and the shell command line.
#[derive(Debug)]
pub struct Command {
    /// Name shown on the phone.
    pub name: String,
    /// Shell command line.
    pub command: String,
}

impl View for Command {
    type V = (Seq<char>, Seq<char>);

    open spec fn view(&self) -> (Seq<char>, Seq<char>) {
        (self.name@, self.command@)
    }
}

impl Command {
    /// A command with this name and command line.
    pub fn new(name: &str, command: &str) -> (r: Self)
        ensures
            r@ == (name@, command@),
    {
        Command { name: owned(name), command: owned(command) }
    }

    /// A copy of the command.
    pub fn duplicate(&self) -> (r: Self)
        ensures
            r@ == self@,
    {
        Command { name: owned(self.name.as_str()), command: owned(self.command.as_str()) }
    }
}

/// A command under its identifier.
#[derive(Debug)]
pub struct CommandEntry {
    id: String,
    command: Command,
}

/// The configured commands, by identifier.
#[derive(Debug)]
pub struct CommandStore {
    entries: Vec<CommandEntry>,
}

impl CommandStore {
    /// The command identifiers, in storage order.
    pub closed spec fn keys(&self) -> Seq<Seq<char>> {
        Seq::new(self.entries@.len(), |i: int| self.entries@[i].id@)
    }

    /// The commands, by identifier.
    pub closed spec fn commands(&self) -> Map<Seq<char>, (Seq<char>, Seq<char>)> {
        Map::new(
            |k: Seq<char>| self.keys().contains(k),
            |k: Seq<char>| self.entries@[self.keys().index_of(k)].command@,
        )
    }

    /// No identifier occurs twice.
    pub closed spec fn wf(&self) -> bool {
        no_duplicates(self.keys())
    }

    /// No commands.
    pub fn new() -> (r: Self)
        ensures
            r.wf(),
            r.commands() == Map::<Seq<char>, (Seq<char>, Seq<char>)>::empty(),
    {
        let r = CommandStore { entries: Vec::new() };
        assert(r.keys() =~= Seq::<Seq<char>>::empty());
        assert(r.commands() =~= Map::<Seq<char>, (Seq<char>, Seq<char>)>::empty());
        r
    }

    fn find(&self, id: &str) -> (r: Option<usize>)
        requires
            self.wf(),
        ensures
            match r {
                Some(i) => i < self.keys().len() && self.keys()[i as int] == id@
                    && self.keys().index_of(id@) == i,
                None => !self.keys().contains(id@),
            },
    {
        let mut i: usize = 0;
        while i < self.entries.len()
            invariant
                self.wf(),
                i <= self.entries@.len(),
                forall|j: int| 0 <= j < i ==> self.entries@[j].id@ != id@,
            decreases self.entries@.len() - i,
        {
            if str_eq(self.entries[i].id.as_str(), id) {
                proof {
                    assert(self.keys()[i as int] == id@);
                    let k = self.keys().index_of(id@);
                    assert(self.keys()[k] == id@);
                    assert(k == i as int);
                }
                return Some(i);
            }
            i = i + 1;
        }
        proof {
            if self.keys().contains(id@) {
                let k = choose|k: int| 0 <= k < self.keys().len() && self.keys()[k] == id@;
                assert(self.entries@[k].id@ == id@);
            }
        }
        None
    }

    /// Stores `command` under `id`, replacing the command stored there.
    pub fn store(&mut self, id: &str, command: Command)
        requires
            old(self).wf(),
        ensures
            final(self).wf(),
            final(self).commands() == old(self).commands().insert(id@, command@),
    {
        let ghost before_keys = self.keys();
        let ghost before = self.commands();
        let ghost c = command@;
        match self.find(id) {
            Some(i) => {
                self.entries.set(i, CommandEntry { id: owned(id), command });
                assert(self.keys() =~= before_keys);
                assert(self.commands() =~= before.insert(id@, c)) by {
                    assert forall|k: Seq<char>| self.keys().contains(k) implies
                        self.commands()[k] == before.insert(id@, c)[k] by {
                        let j = self.keys().index_of(k);
                        assert(self.keys()[j] == k);
                        if k == id@ {
                            assert(j == i);
                        }
                    }
                }
            },
            None => {
                self.entries.push(CommandEntry { id: owned(id), command });
                let ghost n = before_keys.len() as int;
                assert(self.keys() =~= before_keys.push(id@));
                assert(self.commands() =~= before.insert(id@, c)) by {
                    assert forall|k: Seq<char>| self.keys().contains(k) == before.insert(id@, c).contains_key(k) by {
                        if self.keys().contains(k) {
                            let j = choose|j: int| 0 <= j < self.keys().len() && self.keys()[j] == k;
                            if j < n {
                                assert(before_keys[j] == k);
                            }
                        }
                        if before_keys.contains(k) {
                            let j = choose|j: int| 0 <= j < before_keys.len() && before_keys[j] == k;
                            assert(self.keys()[j] == k);
                        }
                        if k == id@ {
                            assert(self.keys()[n] == k);
                        }
                    }
                    assert forall|k: Seq<char>| self.keys().contains(k) implies
                        self.commands()[k] == before.insert(id@, c)[k] by {
                        let j = self.keys().index_of(k);
                        assert(self.keys()[j] == k);
                        if k == id@ {
                            assert(j == n);
                        } else {
                            assert(j < n);
                            assert(before_keys[j] == k);
                            let j0 = before_keys.index_of(k);
                            assert(before_keys[j0] == k);
                            assert(j0 == j);
                        }
                    }
                }
            },
        }
    }

    /// Removes and returns the command stored under `id`.
    pub fn take(&mut self, id: &str) -> (r: Option<Command>)
        requires
            old(self).wf(),
        ensures
            final(self).wf(),
            final(self).commands() == old(self).commands().remove(id@),
            match r {
                Some(c) => old(self).commands().contains_key(id@) && c@ == old(self).commands()[id@],
                None => !old(self).commands().contains_key(id@),
            },
    {
        let ghost before_keys = self.keys();
        let ghost before = self.commands();
        match self.find(id) {
            Some(i) => {
                let e = self.entries.remove(i);
                let ghost after_keys = self.keys();
                assert(after_keys =~= before_keys.remove(i as int));
                assert forall|a: int, b: int| 0 <= a < after_keys.len() && 0 <= b < after_keys.len() && a != b
                    implies after_keys[a] != after_keys[b] by {
                    let a2 = if a < i { a } else { a + 1 };
                    let b2 = if b < i { b } else { b + 1 };
                    assert(after_keys[a] == before_keys[a2]);
                    assert(after_keys[b] == before_keys[b2]);
                }
                assert(self.commands() =~= before.remove(id@)) by {
                    assert forall|k: Seq<char>| self.keys().contains(k) == before.remove(id@).contains_key(k) by {
                        if self.keys().contains(k) {
                            let j = choose|j: int| 0 <= j < after_keys.len() && after_keys[j] == k;
                            let j2 = if j < i { j } else { j + 1 };
                            assert(before_keys[j2] == k);
                            assert(j2 != i);
                        }
                        if before_keys.contains(k) && k != id@ {
                            let j = choose|j: int| 0 <= j < before_keys.len() && before_keys[j] == k;
                            assert(j != i);
                            let j2 = if j < i { j } else { j - 1 };
                            assert(after_keys[j2] == k);
                        }
                    }
                    assert forall|k: Seq<char>| self.keys().contains(k) implies
                        self.commands()[k] == before.remove(id@)[k] by {
                        let j = after_keys.index_of(k);
                        assert(after_keys[j] == k);
                        let j2 = if j < i { j } else { j + 1 };
                        assert(before_keys[j2] == k);
                        let j0 = before_keys.index_of(k);
                        assert(before_keys[j0] == k);
                        assert(j0 == j2);
                    }
                }
                Some(e.command)
            },
            None => {
                assert(before.remove(id@) =~= before);
                None
            },
        }
    }

    /// Drops the command stored under `id`.
    pub fn clear(&mut self, id: &str)
        requires
            old(self).wf(),
        ensures
            final(self).wf(),
            final(self).commands() == old(self).commands().remove(id@),
    {
        let _ = self.take(id);
    }
}


impl CommandStore {
    /// A copy of the command stored under `id`, if any.
    pub fn get(&self, id: &str) -> (r: Option<Command>)
        requires
            self.wf(),
        ensures
            match r {
                Some(c) => self.commands().contains_key(id@) && c@ == self.commands()[id@],
                None => !self.commands().contains_key(id@),
            },
    {
        match self.find(id) {
            Some(i) => Some(self.entries[i].command.duplicate()),
            None => None,
        }
    }

    /// Number of commands.
    pub fn len(&self) -> (r: usize)
        requires
            self.wf(),
        ensures
            r == self.commands().len(),
    {
        proof {
            self.lemma_len();
        }
        self.entries.len()
    }

    proof fn lemma_len(&self)
        requires
            self.wf(),
        ensures
            self.commands().len() == self.keys().len(),
            self.commands().dom() == self.keys().to_set(),
    {
        assert(self.commands().dom() =~= self.keys().to_set());
        self.keys().unique_seq_to_set();
    }

    /// Copies of every identifier and command, in storage order.
    pub fn entries(&self) -> (r: Vec<(String, Command)>)
        requires
            self.wf(),
        ensures
            r@.len() == self.commands().len(),
            forall|i: int| 0 <= i < r@.len() ==> self.commands().contains_key(#[trigger] r@[i].0@)
                && r@[i].1@ == self.commands()[r@[i].0@],
            forall|k: Seq<char>| self.commands().contains_key(k) ==> exists|i: int| 0 <= i < r@.len() && #[trigger] r@[i].0@ == k,
    {
        proof {
            self.lemma_len();
        }
        let mut out: Vec<(String, Command)> = Vec::new();
        let mut i: usize = 0;
        while i < self.entries.len()
            invariant
                self.wf(),
                i <= self.entries@.len(),
                out@.len() == i,
                forall|j: int| 0 <= j < i ==> (#[trigger] out@[j]).0@ == self.keys()[j] && out@[j].1@ == self.entries@[j].command@,
            decreases self.entries@.len() - i,
        {
            out.push((owned(self.entries[i].id.as_str()), self.entries[i].command.duplicate()));
            i = i + 1;
        }
        assert forall|j: int| 0 <= j < out@.len() implies self.commands().contains_key(#[trigger] out@[j].0@)
            && out@[j].1@ == self.commands()[out@[j].0@] by {
            let k = out@[j].0@;
            assert(self.keys()[j] == k);
            let j0 = self.keys().index_of(k);
            assert(self.keys()[j0] == k);
            assert(j0 == j);
        }
        assert forall|k: Seq<char>| self.commands().contains_key(k) implies exists|j: int| 0 <= j < out@.len() && #[trigger] out@[j].0@ == k by {
            let j = choose|j: int| 0 <= j < self.keys().len() && self.keys()[j] == k;
            assert(out@[j].0@ == k);
        }
        out
    }

    /// Drops every command.
    pub fn clear_all(&mut self)
        ensures
            final(self).wf(),
            final(self).commands() == Map::<Seq<char>, (Seq<char>, Seq<char>)>::empty(),
    {
        self.entries.clear();
        assert(self.keys() =~= Seq::<Seq<char>>::empty());
        assert(self.commands() =~= Map::<Seq<char>, (Seq<char>, Seq<char>)>::empty());
    }
}

/// The commands of a loaded list, a later entry winning on a repeated
/// identifier.
pub open spec fn commands_of(s: Seq<(String, Command)>) -> Map<Seq<char>, (Seq<char>, Seq<char>)>
    decreases s.len(),
{
    if s.len() == 0 {
        Map::empty()
    } else {
        commands_of(s.drop_last()).insert(s.last().0@, s.last().1@)
    }
}

/// Why a run-command operation failed.
#[derive(Debug)]
pub enum RunCommandError {
    /// No command has this identifier.
    NotFound(String),
}

/// What the runtime does for a request.
#[derive(Debug)]
pub enum RunCommandStep {
    /// Send the command list (`cconnect.runcommand` with the commands as a
    /// JSON string and `canAddCommand` true).
    SendCommandList,
    /// Run the command line with `/bin/sh -c`, detached; report a
    /// successful start with `command_started`.
    Execute { id: String, command_line: String },
    /// The requested command is unknown: nothing runs.
    UnknownCommand(String),
    /// The request asks for nothing.
    Nothing,
}

/// The shell and its flag running a command line.
pub fn shell() -> (r: (&'static str, &'static str))
    ensures
        r.0@ == "/bin/sh"@,
        r.1@ == "-c"@,
{
    ("/bin/sh", "-c")
}

/// Run-command plugin state.
#[derive(Debug)]
pub struct RunCommandPlugin {
    device_id: Option<String>,
    store: CommandStore,
    commands_executed: u64,
}

impl RunCommandPlugin {
    /// The device the plugin is attached to.
    pub closed spec fn device(&self) -> Option<Seq<char>> {
        match self.device_id {
            Some(d) => Some(d@),
            None => None,
        }
    }

    /// The configured commands.
    pub closed spec fn configured(&self) -> Map<Seq<char>, (Seq<char>, Seq<char>)> {
        self.store.commands()
    }

    /// Commands started so far.
    pub closed spec fn executed(&self) -> u64 {
        self.commands_executed
    }

    /// The store is well formed.
    pub closed spec fn wf(&self) -> bool {
        self.store.wf()
    }

    /// A plugin with no commands.
    pub fn new() -> (r: Self)
        ensures
            r.wf(),
            r.configured() == Map::<Seq<char>, (Seq<char>, Seq<char>)>::empty(),
            r.executed() == 0,
            r.device() is None,
    {
        RunCommandPlugin { device_id: None, store: CommandStore::new(), commands_executed: 0 }
    }

    /// The plugin name.
    pub fn name(&self) -> (r: &'static str)
        ensures
            r@ == "runcommand"@,
    {
        "runcommand"
    }

    /// Packet types the plugin accepts.
    pub fn incoming_capabilities(&self) -> (r: Vec<String>)
        ensures
            names_view(r@) == seq!["cconnect.runcommand.request"@],
    {
        one("cconnect.runcommand.request")
    }

    /// Packet types the plugin sends.
    pub fn outgoing_capabilities(&self) -> (r: Vec<String>)
        ensures
            names_view(r@) == seq!["cconnect.runcommand"@],
    {
        one("cconnect.runcommand")
    }

    /// Attaches the plugin to a device.
    pub fn init(&mut self, device_id: &str)
        requires
            old(self).wf(),
        ensures
            final(self).wf(),
            final(self).device() == Some(device_id@),
            final(self).configured() == old(self).configured(),
            final(self).executed() == old(self).executed(),
    {
        self.device_id = Some(owned(device_id));
    }

    /// Replaces the configured commands with those loaded from the
    /// configuration file, in order (a later one wins on a repeated id).
    pub fn load_commands(&mut self, loaded: Vec<(String, Command)>)
        requires
            old(self).wf(),
        ensures
            final(self).wf(),
            final(self).configured() == commands_of(loaded@),
            final(self).executed() == old(self).executed(),
    {
        self.store.clear_all();
        let mut i: usize = 0;
        while i < loaded.len()
            invariant
                self.store.wf(),
                i <= loaded@.len(),
                self.store.commands() == commands_of(loaded@.take(i as int)),
                self.commands_executed == old(self).commands_executed,
            decreases loaded@.len() - i,
        {
            assert(loaded@.take(i + 1).drop_last() =~= loaded@.take(i as int));
            self.store.store(loaded[i].0.as_str(), loaded[i].1.duplicate());
            i = i + 1;
        }
        assert(loaded@.take(i as int) =~= loaded@);
    }

    /// Stores a command under `id`, replacing the one stored there.
    pub fn add_command(&mut self, id: &str, name: &str, command: &str)
        requires
            old(self).wf(),
        ensures
            final(self).wf(),
            final(self).configured() == old(self).configured().insert(id@, (name@, command@)),
            final(self).executed() == old(self).executed(),
    {
        self.store.store(id, Command::new(name, command));
    }

    /// Removes the command stored under `id`; an error when there is none.
    pub fn remove_command(&mut self, id: &str) -> (r: Result<(), RunCommandError>)
        requires
            old(self).wf(),
        ensures
            final(self).wf(),
            final(self).configured() == old(self).configured().remove(id@),
            final(self).executed() == old(self).executed(),
            r is Ok <==> old(self).configured().contains_key(id@),
            r matches Err(RunCommandError::NotFound(s)) ==> s@ == id@,
    {
        match self.store.take(id) {
            Some(_) => Ok(()),
            None => Err(RunCommandError::NotFound(owned(id))),
        }
    }

    /// A copy of the command stored under `id`.
    pub fn get_command(&self, id: &str) -> (r: Option<Command>)
        requires
            self.wf(),
        ensures
            match r {
                Some(c) => self.configured().contains_key(id@) && c@ == self.configured()[id@],
                None => !self.configured().contains_key(id@),
            },
    {
        self.store.get(id)
    }

    /// Copies of every identifier and command.
    pub fn get_commands(&self) -> (r: Vec<(String, Command)>)
        requires
            self.wf(),
        ensures
            r@.len() == self.configured().len(),
            forall|i: int| 0 <= i < r@.len() ==> self.configured().contains_key(#[trigger] r@[i].0@)
                && r@[i].1@ == self.configured()[r@[i].0@],
            forall|k: Seq<char>| self.configured().contains_key(k) ==> exists|i: int| 0 <= i < r@.len() && #[trigger] r@[i].0@ == k,
    {
        self.store.entries()
    }

    /// Drops every command.
    pub fn clear_commands(&mut self)
        requires
            old(self).wf(),
        ensures
            final(self).wf(),
            final(self).configured() == Map::<Seq<char>, (Seq<char>, Seq<char>)>::empty(),
            final(self).executed() == old(self).executed(),
    {
        self.store.clear_all();
    }

    /// Decides what a request does: a command-list request is answered
    /// with the list; otherwise a request naming a command runs it (when
    /// it is configured); anything else does nothing.
    pub fn handle_request(&self, request_command_list: bool, key: Option<&str>) -> (r: RunCommandStep)
        requires
            self.wf(),
        ensures
            request_command_list ==> r is SendCommandList,
            !request_command_list ==> match key {
                Some(k) => if self.configured().contains_key(k@) {
                    r matches RunCommandStep::Execute { id, command_line } && id@ == k@
                        && command_line@ == self.configured()[k@].1
                } else {
                    r matches RunCommandStep::UnknownCommand(id) && id@ == k@
                },
                None => r is Nothing,
            },
    {
        if request_command_list {
            return RunCommandStep::SendCommandList;
        }
        match key {
            Some(k) => match self.store.get(k) {
                Some(c) => RunCommandStep::Execute { id: owned(k), command_line: c.command },
                None => RunCommandStep::UnknownCommand(owned(k)),
            },
            None => RunCommandStep::Nothing,
        }
    }

    /// Counts a command that started.
    pub fn command_started(&mut self)
        requires
            old(self).wf(),
        ensures
            final(self).wf(),
            final(self).configured() == old(self).configured(),
            final(self).executed() == (if old(self).executed() == u64::MAX { u64::MAX } else { (old(self).executed() + 1) as u64 }),
    {
        self.commands_executed = self.commands_executed.saturating_add(1);
    }

    /// Commands started so far.
    pub fn commands_executed(&self) -> (r: u64)
        ensures
            r == self.executed(),
    {
        self.commands_executed
    }
}

impl Default for RunCommandPlugin {
    fn default() -> (r: Self)
        ensures
            r.wf(),
            r.executed() == 0,
    {
        RunCommandPlugin::new()
    }
}

fn one(s: &str) -> (r: Vec<String>)
    ensures
        names_view(r@) == seq![s@],
{
    let mut v: Vec<String> = Vec::new();
    v.push(owned(s));
    assert(names_view(v@) =~= seq![s@]);
    v
}

/// Creates run-command plugins.
#[derive(Debug, Clone, Copy)]
pub struct RunCommandPluginFactory;

impl RunCommandPluginFactory {
    /// The plugin name.
    pub fn name(&self) -> (r: &'static str)
        ensures
            r@ == "runcommand"@,
    {
        "runcommand"
    }

    /// Packet types the plugin accepts.
    pub fn incoming_capabilities(&self) -> (r: Vec<String>)
        ensures
            names_view(r@) == seq!["cconnect.runcommand.request"@],
    {
        one("cconnect.runcommand.request")
    }

    /// Packet types the plugin sends.
    pub fn outgoing_capabilities(&self) -> (r: Vec<String>)
        ensures
            names_view(r@) == seq!["cconnect.runcommand"@],
    {
        one("cconnect.runcommand")
    }

    /// A new plugin.
    pub fn create(&self) -> (r: RunCommandPlugin)
        ensures
            r.wf(),
            r.executed() == 0,
    {
        RunCommandPlugin::new()
    }
}

} // verus!
