//! The subcommands the tool accepts and the bridge calls each one plans.
//! Handlers here decide *what* to send; the unverified shell performs the
//! network round-trips and sleeps in the order planned.

use vstd::prelude::*;
use vstd::string::StringExecFns;

use crate::light::Light;
use crate::order::{lex_le, sort_by_key, sorted_by_key, Identified};

verus! {

/// Seconds to wait after triggering a scan before fetching new lights.
pub const SCAN_WAIT_SECS: u64 = 40;

/// Seconds between two blink toggles.
pub const BLINK_INTERVAL_SECS: u64 = 1;

/// One subcommand, parsed and validated by the shell.
#[derive(Debug, PartialEq, Eq)]
pub enum Subcommand {
    Register,
    Scan,
    List,
    ListGroups,
    Blink { id: String },
    Name { id: String, name: String },
    AllOn,
    AllOff,
}

/// Registration needs no configuration file: it runs before a username
/// exists. Every other subcommand needs the configured username first.
pub fn requires_config(cmd: &Subcommand) -> (r: bool)
    ensures
        r == !(*cmd is Register),
{
    match cmd {
        Subcommand::Register => false,
        _ => true,
    }
}

/// One state-mutation call to make: set light `id` to `on`.
#[derive(Debug, Clone, PartialEq, Eq)]
pub struct LightStateCommand {
    pub id: String,
    pub on: bool,
}

/// Plans `all-on`/`all-off`: exactly one state-mutation command per light,
/// all with the same target state, in ascending identifier order.
pub fn bulk_state_plan(lights: Vec<Light>, on: bool) -> (r: Vec<LightStateCommand>)
    ensures
        r@.len() == lights@.len(),
        forall|i: int| 0 <= i < r@.len() ==> (#[trigger] r@[i]).on == on,
        forall|i: int, j: int| 0 <= i < j < r@.len() ==> lex_le(r@[i].id@, r@[j].id@),
        exists|s: Seq<Light>|
            #![trigger s.to_multiset()]
            (s.to_multiset() =~= lights@.to_multiset() && s.len() == r@.len() && (forall|i: int|
                0 <= i < s.len() ==> (#[trigger] r@[i]).id == s[i].id)),
{
    let sorted = sort_by_key(lights);
    let ghost s = sorted@;
    let mut rest = sorted;
    let mut r: Vec<LightStateCommand> = Vec::new();
    while rest.len() > 0
        invariant
            r@.len() + rest@.len() == s.len(),
            rest@ =~= s.skip(r@.len() as int),
            forall|i: int| 0 <= i < r@.len() ==> (#[trigger] r@[i]).on == on,
            forall|i: int| 0 <= i < r@.len() ==> (#[trigger] r@[i]).id == s[i].id,
        decreases rest@.len(),
    {
        let ghost n = r@.len() as int;
        let light = rest.remove(0);
        proof {
            assert(light == s.skip(n)[0]);
            assert(s.skip(n)[0] == s[n]);
            assert(rest@ =~= s.skip(n + 1));
        }
        r.push(LightStateCommand { id: light.id, on });
    }
    proof {
        assert(sorted_by_key(s));
        assert forall|i: int, j: int| 0 <= i < j < r@.len() implies lex_le(
            r@[i].id@,
            r@[j].id@,
        ) by {
            assert(r@[i].id == s[i].id);
            assert(r@[j].id == s[j].id);
            assert(lex_le(s[i].sort_key(), s[j].sort_key()));
        }
    }
    r
}

/// A bulk run in progress: the planned commands, how many have been issued,
/// and whether one has failed. Once a command fails, nothing further is
/// pending; commands already issued are never revisited or undone.
pub struct BulkRun {
    pub commands: Vec<LightStateCommand>,
    pub next: usize,
    pub failed: bool,
}

impl BulkRun {
    pub open spec fn wf(&self) -> bool {
        self.next <= self.commands@.len()
    }

    /// The command the run still owes, if any.
    pub open spec fn spec_pending(&self) -> Option<LightStateCommand> {
        if self.failed || self.next >= self.commands@.len() {
            None
        } else {
            Some(self.commands@[self.next as int])
        }
    }

    pub fn start(commands: Vec<LightStateCommand>) -> (r: BulkRun)
        ensures
            r.commands == commands,
            r.next == 0,
            !r.failed,
            r.wf(),
    {
        BulkRun { commands, next: 0, failed: false }
    }

    /// The next command to issue, or `None` when the run is complete or a
    /// previous command failed.
    pub fn pending(&self) -> (r: Option<&LightStateCommand>)
        requires
            self.wf(),
        ensures
            r matches Some(c) ==> self.spec_pending() == Some(*c),
            r is None ==> self.spec_pending() is None,
    {
        if self.failed || self.next >= self.commands.len() {
            None
        } else {
            Some(&self.commands[self.next])
        }
    }

    /// Records the outcome of the pending command: on success the cursor
    /// moves forward one command, on failure the run stops where it is.
    pub fn record(&mut self, ok: bool)
        requires
            old(self).wf(),
            old(self).spec_pending() is Some,
        ensures
            final(self).commands == old(self).commands,
            final(self).wf(),
            ok ==> final(self).next == old(self).next + 1 && !final(self).failed,
            !ok ==> final(self).failed && final(self).next == old(self).next,
    {
        if ok {
            let n: usize = self.commands.len();
            assert(self.next < n);
            self.next = self.next + 1;
        } else {
            self.failed = true;
        }
    }
}

/// Once a state-mutation call has failed, the run pends no further command:
/// later lights are not touched, and lights already switched stay switched,
/// since the cursor never moves backwards.
pub proof fn lemma_bulk_run_stops_after_failure(run: BulkRun)
    requires
        run.failed,
    ensures
        run.spec_pending() is None,
{
}

/// The blink loop's state: the on/off value the next toggle will send.
#[derive(Debug, Clone, Copy, PartialEq, Eq, Structural)]
pub struct BlinkState {
    pub on: bool,
}

/// Blinking starts by switching the light on.
pub fn blink_start() -> (r: BlinkState)
    ensures
        r.on,
{
    BlinkState { on: true }
}

/// The state-mutation command one blink iteration sends.
pub fn blink_command(id: &str, st: &BlinkState) -> (r: LightStateCommand)
    ensures
        r.id@ == id@,
        r.on == st.on,
{
    LightStateCommand { id: id.to_owned(), on: st.on }
}

/// After each toggle the target state flips, so consecutive iterations
/// alternate between on and off.
pub fn blink_toggle(st: &BlinkState) -> (r: BlinkState)
    ensures
        r.on == !st.on,
{
    BlinkState { on: !st.on }
}

/// An attribute-mutation call: give light `id` the display name `name`.
#[derive(Debug, PartialEq, Eq)]
pub struct RenameCommand {
    pub id: String,
    pub name: String,
}

pub fn rename_command(id: &str, name: &str) -> (r: RenameCommand)
    ensures
        r.id@ == id@,
        r.name@ == name@,
{
    RenameCommand { id: id.to_owned(), name: name.to_owned() }
}

/// The line printed when the blink loop starts.
pub fn blink_announcement(id: &str) -> (r: String)
    ensures
        r@ == "Blinking light "@ + id@ + "..."@,
{
    let mut s = String::new();
    s.append("Blinking light ");
    s.append(id);
    s.append("...");
    proof {
        assert(s@ =~= "Blinking light "@ + id@ + "..."@);
    }
    s
}

/// The line printed after a successful registration: the username the
/// bridge handed out, which the user copies into the configuration file.
pub fn registration_message(username: &str) -> (r: String)
    ensures
        r@ == "Username: "@ + username@,
{
    let mut s = String::new();
    s.append("Username: ");
    s.append(username);
    proof {
        assert(s@ =~= "Username: "@ + username@);
    }
    s
}

/// The confirmation line printed after a successful rename.
pub fn rename_confirmation(id: &str, name: &str) -> (r: String)
    ensures
        r@ == "Set light "@ + id@ + " name to \""@ + name@ + "\""@,
{
    let mut s = String::new();
    s.append("Set light ");
    s.append(id);
    s.append(" name to \"");
    s.append(name);
    s.append("\"");
    proof {
        assert(s@ =~= "Set light "@ + id@ + " name to \""@ + name@ + "\""@);
    }
    s
}

} // verus!
