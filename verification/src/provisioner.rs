//! Provisioners: what they hold, the steps a provisioner takes on a machine,
//! and how the outcome of each step is judged.

use vstd::prelude::*;

use vstd::string::StringExecFns;

verus! {

/// A partition of a disk image.
#[derive(Clone, Debug, PartialEq, Eq)]
pub struct Partition {
    pub type_: String,
    pub size: String,
    pub label: String,
    pub format: String,
}

/// Runs an Ansible playbook, where one is given.
#[derive(Clone, Debug, PartialEq, Eq)]
pub struct AnsibleProvisioner {
    pub playbook: Option<String>,
}

/// Runs shell scripts, and an inline command where one is given.
#[derive(Clone, Debug, PartialEq, Eq)]
pub struct ShellProvisioner {
    pub scripts: Vec<String>,
    pub inline: Option<String>,
}

/// A generic provisioner: its type, with the settings of an Ansible and of a
/// shell provisioner side by side.
#[derive(Clone, Debug, PartialEq, Eq)]
pub struct Provisioner {
    pub type_: String,
    pub ansible: AnsibleProvisioner,
    pub shell: ShellProvisioner,
}

/// One step that a provisioner takes on the machine it provisions.
#[derive(Clone, Debug, PartialEq, Eq)]
pub enum ProvisionAction {
    /// Run this command over SSH; it must exit with status 0.
    Exec(String),
    /// Upload the script at this path and run it.
    UploadExec(String),
    /// Run `ansible-playbook` with these arguments; a status other than 0
    /// fails it.
    RunAnsible(Vec<String>),
}

/// The value of a `ProvisionAction`.
pub enum ProvisionStep {
    Exec(Seq<char>),
    UploadExec(Seq<char>),
    RunAnsible(Seq<Seq<char>>),
}

impl View for ProvisionAction {
    type V = ProvisionStep;

    open spec fn view(&self) -> ProvisionStep {
        match self {
            ProvisionAction::Exec(c) => ProvisionStep::Exec(c@),
            ProvisionAction::UploadExec(p) => ProvisionStep::UploadExec(p@),
            ProvisionAction::RunAnsible(args) => ProvisionStep::RunAnsible(
                args@.map_values(|a: String| a@),
            ),
        }
    }
}

/// Why provisioning stopped.
#[derive(Clone, Copy, Debug, PartialEq, Eq, Structural)]
pub enum ProvisionError {
    /// A step ended with a failing status.
    ProvisioningFailed,
}

/// The `--extra-vars` value that hands the SSH credentials to Ansible.
pub open spec fn ansible_credentials(user: Seq<char>, password: Seq<char>) -> Seq<char> {
    "ansible_user="@ + user + " ansible_password="@ + password
}

/// Whether a step that ended with exit status `code` succeeded: a command
/// must exit with 0; an uploaded script's status is not judged; a playbook
/// fails only on a status other than 0 (a run killed by a signal has none).
pub open spec fn step_succeeded(step: ProvisionStep, code: Option<i32>) -> bool {
    match step {
        ProvisionStep::Exec(_) => code == Some(0i32),
        ProvisionStep::UploadExec(_) => true,
        ProvisionStep::RunAnsible(_) => match code {
            Some(c) => c == 0,
            None => true,
        },
    }
}

impl ProvisionAction {
    /// Judges a step by its exit status: `Err` where `step_succeeded` fails.
    pub fn outcome(&self, code: Option<i32>) -> (r: Result<(), ProvisionError>)
        ensures
            r is Ok <==> step_succeeded(self@, code),
            r is Err ==> r == Err::<(), ProvisionError>(ProvisionError::ProvisioningFailed),
    {
        let ok = match self {
            ProvisionAction::Exec(_) => match code {
                Some(c) => c == 0,
                None => false,
            },
            ProvisionAction::UploadExec(_) => true,
            ProvisionAction::RunAnsible(_) => match code {
                Some(c) => c == 0,
                None => true,
            },
        };
        if ok {
            Ok(())
        } else {
            Err(ProvisionError::ProvisioningFailed)
        }
    }
}

impl Default for AnsibleProvisioner {
    fn default() -> (r: Self)
        ensures
            r.playbook is None,
    {
        AnsibleProvisioner { playbook: None }
    }
}

impl Default for ShellProvisioner {
    fn default() -> (r: Self)
        ensures
            r.scripts@.len() == 0,
            r.inline is None,
    {
        ShellProvisioner { scripts: Vec::new(), inline: None }
    }
}

impl ShellProvisioner {
    /// Whether `p` is the shell provisioner that runs `command` inline and
    /// nothing else.
    pub open spec fn is_inline_of(p: Provisioner, command: Seq<char>) -> bool {
        &&& p.type_@ == "shell"@
        &&& p.ansible.playbook is None
        &&& p.shell.scripts@.len() == 0
        &&& p.shell.inline matches Some(c) && c@ == command
    }

    /// Creates a new shell provisioner with inline command.
    pub fn inline(command: &str) -> (r: Provisioner)
        ensures
            Self::is_inline_of(r, command@),
    {
        Provisioner {
            type_: "shell".to_owned(),
            ansible: AnsibleProvisioner::default(),
            shell: ShellProvisioner { inline: Some(command.to_owned()), scripts: Vec::new() },
        }
    }
}

impl Provisioner {
    /// The steps this provisioner takes, given the SSH user and password of
    /// the machine: its inline command first, then each of its scripts in
    /// order, then its playbook.
    pub open spec fn steps(self, user: Seq<char>, password: Seq<char>) -> Seq<ProvisionStep> {
        let inline = match self.shell.inline {
            Some(c) => seq![ProvisionStep::Exec(c@)],
            None => Seq::empty(),
        };
        let scripts = self.shell.scripts@.map_values(|s: String| ProvisionStep::UploadExec(s@));
        let ansible = match self.ansible.playbook {
            Some(p) => seq![
                ProvisionStep::RunAnsible(
                    seq!["--extra-vars"@, ansible_credentials(user, password), p@],
                ),
            ],
            None => Seq::empty(),
        };
        inline + scripts + ansible
    }

    /// The steps this provisioner takes on a machine reached as `user` with
    /// `password`, in the order in which they run.
    pub fn actions(&self, user: &str, password: &str) -> (r: Vec<ProvisionAction>)
        ensures
            r@.map_values(|a: ProvisionAction| a@) == self.steps(user@, password@),
    {
        let mut r: Vec<ProvisionAction> = Vec::new();
        if let Some(command) = &self.shell.inline {
            r.push(ProvisionAction::Exec(command.clone()));
        }
        let ghost inline_steps = match &self.shell.inline {
            Some(c) => seq![ProvisionStep::Exec(c@)],
            None => Seq::<ProvisionStep>::empty(),
        };
        assert(r@.map_values(|a: ProvisionAction| a@) =~= inline_steps);
        let mut i: usize = 0;
        while i < self.shell.scripts.len()
            invariant
                i <= self.shell.scripts@.len(),
                r@.map_values(|a: ProvisionAction| a@) =~= inline_steps + self.shell.scripts@.subrange(
                    0,
                    i as int,
                ).map_values(|s: String| ProvisionStep::UploadExec(s@)),
            decreases self.shell.scripts@.len() - i,
        {
            let ghost before = r@;
            let script = self.shell.scripts[i].clone();
            r.push(ProvisionAction::UploadExec(script));
            assert(r@.map_values(|a: ProvisionAction| a@) =~= before.map_values(|a: ProvisionAction| a@).push(
                ProvisionStep::UploadExec(self.shell.scripts@[i as int]@)));
            assert(self.shell.scripts@.subrange(0, i + 1).map_values(|s: String| ProvisionStep::UploadExec(s@))
                =~= self.shell.scripts@.subrange(0, i as int).map_values(|s: String| ProvisionStep::UploadExec(s@)).push(
                ProvisionStep::UploadExec(self.shell.scripts@[i as int]@)));
            i = i + 1;
        }
        assert(self.shell.scripts@.subrange(0, i as int) =~= self.shell.scripts@);
        if let Some(playbook) = &self.ansible.playbook {
            let credentials = "ansible_user=".to_owned().concat(user).concat(" ansible_password=").concat(password);
            let mut args: Vec<String> = Vec::new();
            args.push("--extra-vars".to_owned());
            args.push(credentials);
            args.push(playbook.clone());
            assert(args@.map_values(|a: String| a@) =~= seq!["--extra-vars"@, ansible_credentials(user@, password@), playbook@]);
            let ghost before = r@;
            r.push(ProvisionAction::RunAnsible(args));
            assert(r@.map_values(|a: ProvisionAction| a@) =~= before.map_values(|a: ProvisionAction| a@).push(
                ProvisionStep::RunAnsible(seq!["--extra-vars"@, ansible_credentials(user@, password@), playbook@])));
        }
        assert(r@.map_values(|a: ProvisionAction| a@) =~= self.steps(user@, password@));
        r
    }
}

/// How far the steps of a provisioner have run: the steps, how many of them
/// succeeded, and whether the step after those failed.
pub struct RunState {
    pub steps: Seq<ProvisionStep>,
    pub position: nat,
    pub failed: bool,
}

/// The run of a provisioner's steps, one at a time, in order, stopping at the
/// first step that fails.
pub struct ProvisionRun {
    actions: Vec<ProvisionAction>,
    position: usize,
    failed: bool,
}

impl View for ProvisionRun {
    type V = RunState;

    closed spec fn view(&self) -> RunState {
        RunState {
            steps: self.actions@.map_values(|a: ProvisionAction| a@),
            position: self.position as nat,
            failed: self.failed,
        }
    }
}

impl ProvisionRun {
    #[verifier::type_invariant]
    spec fn inv(self) -> bool {
        self.position <= self.actions@.len()
    }

    /// Whether a step is still to run.
    pub open spec fn pending(state: RunState) -> bool {
        !state.failed && state.position < state.steps.len()
    }

    /// A run of `actions` in which no step has run yet.
    pub fn new(actions: Vec<ProvisionAction>) -> (r: ProvisionRun)
        ensures
            r@.steps == actions@.map_values(|a: ProvisionAction| a@),
            r@.position == 0,
            !r@.failed,
    {
        ProvisionRun { actions, position: 0, failed: false }
    }

    /// The step to run next, or `None` where a step failed or all succeeded.
    pub fn next_action(&self) -> (r: Option<&ProvisionAction>)
        ensures
            r is Some <==> Self::pending(self@),
            r matches Some(a) ==> a@ == self@.steps[self@.position as int],
    {
        proof {
            use_type_invariant(self);
        }
        if !self.failed && self.position < self.actions.len() {
            Some(&self.actions[self.position])
        } else {
            None
        }
    }

    /// Records the exit status of the step that `next_action` gave: the run
    /// moves past it where it succeeded, and stops for good where it failed.
    /// Where no step is pending nothing changes.
    pub fn record(&mut self, code: Option<i32>) -> (r: Result<(), ProvisionError>)
        ensures
            final(self)@.steps == old(self)@.steps,
            !Self::pending(old(self)@) ==> final(self)@ == old(self)@ && r is Ok,
            Self::pending(old(self)@) && step_succeeded(old(self)@.steps[old(self)@.position as int], code)
                ==> r is Ok && final(self)@.position == old(self)@.position + 1 && !final(self)@.failed,
            Self::pending(old(self)@) && !step_succeeded(old(self)@.steps[old(self)@.position as int], code)
                ==> r == Err::<(), ProvisionError>(ProvisionError::ProvisioningFailed)
                && final(self)@.position == old(self)@.position && final(self)@.failed,
    {
        proof {
            use_type_invariant(&*self);
        }
        if self.failed || self.position >= self.actions.len() {
            return Ok(());
        }
        let judged = self.actions[self.position].outcome(code);
        match judged {
            Ok(()) => {
                self.position = self.position + 1;
                Ok(())
            },
            Err(e) => {
                self.failed = true;
                Err(e)
            },
        }
    }

    /// Whether every step ran and succeeded.
    pub fn succeeded(&self) -> (r: bool)
        ensures
            r == (!self@.failed && self@.position == self@.steps.len()),
    {
        proof {
            use_type_invariant(self);
        }
        !self.failed && self.position == self.actions.len()
    }
}

/// Once a step has failed, the run offers no further step and recording a
/// status leaves it as it is.
pub proof fn lemma_failed_run_stays_stopped(state: RunState)
    requires
        state.failed,
    ensures
        !ProvisionRun::pending(state),
{
}

/// A shell provisioner made by `inline` takes one step: its command.
pub proof fn lemma_inline_takes_one_step(p: Provisioner, command: Seq<char>, user: Seq<char>, password: Seq<char>)
    requires
        ShellProvisioner::is_inline_of(p, command),
    ensures
        p.steps(user, password) == seq![ProvisionStep::Exec(command)],
{
    assert(p.shell.scripts@.map_values(|s: String| ProvisionStep::UploadExec(s@)) =~= Seq::<ProvisionStep>::empty());
    assert(p.steps(user, password) =~= seq![ProvisionStep::Exec(command)]);
}

/// A provisioner takes, in this order: its inline command, where it has one;
/// then one upload-and-run step for each of its scripts, in order, whether or
/// not it has an inline command; then, where it has a playbook, one run of
/// `ansible-playbook` with the SSH credentials and the playbook. It takes no
/// other step.
pub proof fn lemma_steps_in_order(p: Provisioner, user: Seq<char>, password: Seq<char>)
    ensures
        ({
            let steps = p.steps(user, password);
            let n: int = if p.shell.inline is Some { 1 } else { 0 };
            let m: int = p.shell.scripts@.len() as int;
            &&& steps.len() == n + m + (if p.ansible.playbook is Some { 1int } else { 0int })
            &&& (p.shell.inline matches Some(c) ==> steps[0] == ProvisionStep::Exec(c@))
            &&& forall|k: int|
                0 <= k < m ==> #[trigger] steps[n + k] == ProvisionStep::UploadExec(
                    p.shell.scripts@[k]@,
                )
            &&& (p.ansible.playbook matches Some(pb) ==> steps[n + m] == ProvisionStep::RunAnsible(
                seq![
                    "--extra-vars"@,
                    "ansible_user="@ + user + " ansible_password="@ + password,
                    pb@,
                ],
            ))
        }),
{
    let steps = p.steps(user, password);
    let n: int = if p.shell.inline is Some { 1 } else { 0 };
    let m: int = p.shell.scripts@.len() as int;
    assert forall|k: int| 0 <= k < m implies #[trigger] steps[n + k] == ProvisionStep::UploadExec(
        p.shell.scripts@[k]@,
    ) by {
        let scripts = p.shell.scripts@.map_values(|s: String| ProvisionStep::UploadExec(s@));
        assert(scripts[k] == ProvisionStep::UploadExec(p.shell.scripts@[k]@));
    }
}

/// How a step is judged by its exit status: a command succeeds exactly when
/// it exits with 0; an uploaded script succeeds whatever its status; a
/// playbook fails exactly when it exits with a status other than 0.
pub proof fn lemma_step_judgement(step: ProvisionStep, code: Option<i32>)
    ensures
        step is Exec ==> (step_succeeded(step, code) <==> code == Some(0i32)),
        step is UploadExec ==> step_succeeded(step, code),
        step is RunAnsible ==> (!step_succeeded(step, code) <==> (code is Some && code != Some(0i32))),
{
}

} // verus!
