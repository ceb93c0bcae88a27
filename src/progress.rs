//! Per-step progress records and the aggregate completion model.
use vstd::prelude::*;

verus! {

/// The four states a step can be in, as the dashboard sees it.
#[derive(PartialEq, Eq, Structural, Clone, Copy, Debug)]
pub enum StepState {
    Pending,
    InProgress,
    Completed,
    Failed,
}

/// One step as the dashboard shows it: a label and its status flags.
#[derive(Clone, Debug)]
pub struct InstallStep {
    pub name: String,
    pub description: String,
    pub completed: bool,
    pub in_progress: bool,
    pub failed: bool,
}

impl InstallStep {
    /// At most one of the status flags is set.
    pub open spec fn wf(&self) -> bool {
        &&& !(self.completed && self.in_progress)
        &&& !(self.completed && self.failed)
        &&& !(self.in_progress && self.failed)
    }

    /// The state the flags stand for.
    pub open spec fn state(&self) -> StepState {
        if self.completed {
            StepState::Completed
        } else if self.failed {
            StepState::Failed
        } else if self.in_progress {
            StepState::InProgress
        } else {
            StepState::Pending
        }
    }

    pub fn new(name: &str, description: &str) -> (r: Self)
        ensures
            r.name@ == name@,
            r.description@ == description@,
            r.wf(),
            r.state() == StepState::Pending,
    {
        InstallStep {
            name: name.to_owned(),
            description: description.to_owned(),
            completed: false,
            in_progress: false,
            failed: false,
        }
    }

    /// Enters `InProgress` from any state, clearing earlier terminal flags.
    pub fn start(&mut self)
        ensures
            final(self).wf(),
            final(self).state() == StepState::InProgress,
            final(self).name == old(self).name,
            final(self).description == old(self).description,
    {
        self.in_progress = true;
        self.completed = false;
        self.failed = false;
    }

    pub fn complete(&mut self)
        ensures
            final(self).wf(),
            final(self).state() == StepState::Completed,
            final(self).name == old(self).name,
            final(self).description == old(self).description,
    {
        self.in_progress = false;
        self.completed = true;
        self.failed = false;
    }

    pub fn fail(&mut self)
        ensures
            final(self).wf(),
            final(self).state() == StepState::Failed,
            final(self).name == old(self).name,
            final(self).description == old(self).description,
    {
        self.in_progress = false;
        self.completed = false;
        self.failed = true;
    }

    /// A copy of this record with the given state.
    fn with_state(&self, state: StepState) -> (r: Self)
        ensures
            r.wf(),
            r.state() == state,
            r.name == self.name,
            r.description == self.description,
    {
        InstallStep {
            name: self.name.clone(),
            description: self.description.clone(),
            completed: state == StepState::Completed,
            in_progress: state == StepState::InProgress,
            failed: state == StepState::Failed,
        }
    }
}

/// Number of `Completed` entries in `s`.
pub open spec fn count_completed(s: Seq<StepState>) -> nat
    decreases s.len(),
{
    if s.len() == 0 {
        0
    } else {
        count_completed(s.drop_last()) + if s.last() == StepState::Completed {
            1nat
        } else {
            0nat
        }
    }
}

/// Aggregate completion in whole percent: `100 * completed / total`, rounded down
/// (0 for an empty model).
pub open spec fn percent_of(s: Seq<StepState>) -> nat {
    if s.len() == 0 {
        0
    } else {
        (100 * count_completed(s) / s.len()) as nat
    }
}

/// Aggregate completion in tenths of a percent, rounded down.
pub open spec fn tenths_of(s: Seq<StepState>) -> nat {
    if s.len() == 0 {
        0
    } else {
        (1000 * count_completed(s) / s.len()) as nat
    }
}

pub proof fn lemma_count_completed_bounded(s: Seq<StepState>)
    ensures
        count_completed(s) <= s.len(),
    decreases s.len(),
{
    if s.len() > 0 {
        lemma_count_completed_bounded(s.drop_last());
    }
}

/// The labels of the dashboard's full step list, in order.
pub open spec fn dashboard_names() -> Seq<Seq<char>> {
    seq![
        "Install tmux"@,
        "Verify user data"@,
        "Create JWT secret"@,
        "Detect OS type"@,
        "Setup directories"@,
        "Install Python tools"@,
        "Create virtual env"@,
        "Configure PYTHONPATH"@,
        "Install libpq-dev"@,
        "Install websockify"@,
        "Install libvirt"@,
        "Storage requirements"@,
        "Python requirements"@,
        "Pre-commit hooks"@,
        "PostgreSQL support"@,
        "OpenVSwitch"@,
        "Multipath tools"@,
        "Change ownership"@,
        "Detect architecture"@,
        "Install Docker"@,
        "PostgreSQL container"@,
        "RabbitMQ"@,
        "SNMP"@,
        "Database migrations"@,
        "SSL certificates"@,
        "Prometheus"@,
        "Node Exporter"@,
        "Open-iSCSI"@,
        "NoVNC"@,
        "JQ utility"@,
        "Restic backup"@,
        "Process services"@,
        "UV package manager"@,
        "Documentation"@,
        "Clean home directory"@,
        "Hash password"@,
        "Create default user"@,
        "Restart web app"@,
        "Final message"@,
    ]
}

/// The descriptions of the dashboard's full step list, in order.
pub open spec fn dashboard_descriptions() -> Seq<Seq<char>> {
    seq![
        "Check and install tmux if needed"@,
        "Validate user credentials"@,
        "Generate secure JWT secret"@,
        "Identify operating system"@,
        "Create project directories"@,
        "Install python3-venv and python3-pip"@,
        "Set up Python virtual environment"@,
        "Add project path to environment"@,
        "Install PostgreSQL development libraries"@,
        "Install python3-websockify package"@,
        "Install virtualization support"@,
        "Install NFS and XFS tools"@,
        "Install Python dependencies"@,
        "Setup Git pre-commit hooks"@,
        "Install psycopg2 and libraries"@,
        "Install software-defined networking"@,
        "Install multipath storage support"@,
        "Fix file permissions"@,
        "Determine system architecture"@,
        "Install container platform"@,
        "Setup database container"@,
        "Install message broker"@,
        "Install network monitoring"@,
        "Run Alembic migrations"@,
        "Generate self-signed certificates"@,
        "Install monitoring system"@,
        "Install metrics exporter"@,
        "Install iSCSI storage support"@,
        "Install web VNC client"@,
        "Install JSON processor"@,
        "Install backup utility"@,
        "Setup systemd services"@,
        "Install fast Python package manager"@,
        "Clone and install documentation"@,
        "Remove temporary files"@,
        "Create hashed password for database"@,
        "Add admin user to database"@,
        "Restart main web application"@,
        "Display installation summary"@,
    ]
}

/// The dashboard's model: one record per step and the index of the active step.
/// The aggregate percentage is derived from the records on demand, never stored.
pub struct InstallProgress {
    steps: Vec<InstallStep>,
    current_step: usize,
}

impl InstallProgress {
    pub closed spec fn wf(&self) -> bool {
        forall|i: int| 0 <= i < self.steps@.len() ==> #[trigger] self.steps@[i].wf()
    }

    /// The state of each step, in order.
    pub closed spec fn states(&self) -> Seq<StepState> {
        self.steps@.map_values(|s: InstallStep| s.state())
    }

    /// The label of each step, in order.
    pub closed spec fn names(&self) -> Seq<Seq<char>> {
        self.steps@.map_values(|s: InstallStep| s.name@)
    }

    pub closed spec fn descriptions(&self) -> Seq<Seq<char>> {
        self.steps@.map_values(|s: InstallStep| s.description@)
    }

    pub closed spec fn spec_current_step(&self) -> nat {
        self.current_step as nat
    }

    /// The dashboard's full list of installation steps, all `Pending`, with
    /// step 0 active.
    pub fn new() -> (r: Self)
        ensures
            r.wf(),
            r.states() == Seq::new(39, |i: int| StepState::Pending),
            r.names() == dashboard_names(),
            r.descriptions() == dashboard_descriptions(),
            r.spec_current_step() == 0,
    {
        let mut steps: Vec<InstallStep> = Vec::new();
        steps.push(InstallStep::new("Install tmux", "Check and install tmux if needed"));
        steps.push(InstallStep::new("Verify user data", "Validate user credentials"));
        steps.push(InstallStep::new("Create JWT secret", "Generate secure JWT secret"));
        steps.push(InstallStep::new("Detect OS type", "Identify operating system"));
        steps.push(InstallStep::new("Setup directories", "Create project directories"));
        steps.push(InstallStep::new("Install Python tools", "Install python3-venv and python3-pip"));
        steps.push(InstallStep::new("Create virtual env", "Set up Python virtual environment"));
        steps.push(InstallStep::new("Configure PYTHONPATH", "Add project path to environment"));
        steps.push(InstallStep::new("Install libpq-dev", "Install PostgreSQL development libraries"));
        steps.push(InstallStep::new("Install websockify", "Install python3-websockify package"));
        steps.push(InstallStep::new("Install libvirt", "Install virtualization support"));
        steps.push(InstallStep::new("Storage requirements", "Install NFS and XFS tools"));
        steps.push(InstallStep::new("Python requirements", "Install Python dependencies"));
        steps.push(InstallStep::new("Pre-commit hooks", "Setup Git pre-commit hooks"));
        steps.push(InstallStep::new("PostgreSQL support", "Install psycopg2 and libraries"));
        steps.push(InstallStep::new("OpenVSwitch", "Install software-defined networking"));
        steps.push(InstallStep::new("Multipath tools", "Install multipath storage support"));
        steps.push(InstallStep::new("Change ownership", "Fix file permissions"));
        steps.push(InstallStep::new("Detect architecture", "Determine system architecture"));
        steps.push(InstallStep::new("Install Docker", "Install container platform"));
        steps.push(InstallStep::new("PostgreSQL container", "Setup database container"));
        steps.push(InstallStep::new("RabbitMQ", "Install message broker"));
        steps.push(InstallStep::new("SNMP", "Install network monitoring"));
        steps.push(InstallStep::new("Database migrations", "Run Alembic migrations"));
        steps.push(InstallStep::new("SSL certificates", "Generate self-signed certificates"));
        steps.push(InstallStep::new("Prometheus", "Install monitoring system"));
        steps.push(InstallStep::new("Node Exporter", "Install metrics exporter"));
        steps.push(InstallStep::new("Open-iSCSI", "Install iSCSI storage support"));
        steps.push(InstallStep::new("NoVNC", "Install web VNC client"));
        steps.push(InstallStep::new("JQ utility", "Install JSON processor"));
        steps.push(InstallStep::new("Restic backup", "Install backup utility"));
        steps.push(InstallStep::new("Process services", "Setup systemd services"));
        steps.push(InstallStep::new("UV package manager", "Install fast Python package manager"));
        steps.push(InstallStep::new("Documentation", "Clone and install documentation"));
        steps.push(InstallStep::new("Clean home directory", "Remove temporary files"));
        steps.push(InstallStep::new("Hash password", "Create hashed password for database"));
        steps.push(InstallStep::new("Create default user", "Add admin user to database"));
        steps.push(InstallStep::new("Restart web app", "Restart main web application"));
        steps.push(InstallStep::new("Final message", "Display installation summary"));
        proof {
            assert forall|i: int| 0 <= i < steps@.len() implies steps@[i].wf() && steps@[i].state()
                == StepState::Pending by {}
        }
        let r = InstallProgress { steps, current_step: 0 };
        assert(r.states() =~= Seq::new(39, |i: int| StepState::Pending));
        assert(r.names() =~= dashboard_names());
        assert(r.descriptions() =~= dashboard_descriptions());
        r
    }

    /// A model over the given records, all reset to `Pending`, with step 0 active.
    pub fn from_steps(steps: Vec<InstallStep>) -> (r: Self)
        ensures
            r.wf(),
                        r.states() == Seq::new(steps@.len(), |i: int| StepState::Pending),
            r.names() == steps@.map_values(|s: InstallStep| s.name@),
            r.descriptions() == steps@.map_values(|s: InstallStep| s.description@),
            r.spec_current_step() == 0,
    {
        let mut out: Vec<InstallStep> = Vec::new();
        let mut i: usize = 0;
        while i < steps.len()
            invariant
                i <= steps@.len(),
                out@.len() == i,
                forall|j: int| 0 <= j < i ==> #[trigger] out@[j].wf(),
                forall|j: int| 0 <= j < i ==> #[trigger] out@[j].state() == StepState::Pending,
                forall|j: int| 0 <= j < i ==> #[trigger] out@[j].name == steps@[j].name,
                forall|j: int|
                    0 <= j < i ==> #[trigger] out@[j].description == steps@[j].description,
            decreases steps@.len() - i,
        {
            out.push(steps[i].with_state(StepState::Pending));
            i = i + 1;
        }
        let r = InstallProgress { steps: out, current_step: 0 };
        assert(r.states() =~= Seq::new(steps@.len(), |i: int| StepState::Pending));
        assert(r.names() =~= steps@.map_values(|s: InstallStep| s.name@));
        assert(r.descriptions() =~= steps@.map_values(|s: InstallStep| s.description@));
        r
    }

    pub fn total_steps(&self) -> (r: usize)
        ensures
            r == self.states().len(),
    {
        self.steps.len()
    }

    pub fn current_step(&self) -> (r: usize)
        ensures
            r == self.spec_current_step(),
    {
        self.current_step
    }

    /// The record at `index`; `None` out of range.
    pub fn step(&self, index: usize) -> (r: Option<&InstallStep>)
        ensures
            index < self.states().len() ==> (r matches Some(s) && s.state() == self.states()[index
                as int] && s.name@ == self.names()[index as int] && s.description@
                == self.descriptions()[index as int]),
            index >= self.states().len() ==> r is None,
    {
        if index < self.steps.len() {
            Some(&self.steps[index])
        } else {
            None
        }
    }

    fn set_state(&mut self, index: usize, state: StepState)
        requires
            old(self).wf(),
            index < old(self).states().len(),
        ensures
            final(self).wf(),
            final(self).states() == old(self).states().update(index as int, state),
            final(self).names() == old(self).names(),
            final(self).descriptions() == old(self).descriptions(),
            final(self).current_step == old(self).current_step,
    {
        let updated = self.steps[index].with_state(state);
        self.steps.set(index, updated);
        assert(self.states() =~= old(self).states().update(index as int, state));
        assert(self.names() =~= old(self).names());
        assert(self.descriptions() =~= old(self).descriptions());
    }

    /// Marks step `index` in progress and active; an index out of range leaves the
    /// model unchanged.
    pub fn start_step(&mut self, index: usize)
        requires
            old(self).wf(),
        ensures
            final(self).wf(),
            final(self).names() == old(self).names(),
            final(self).descriptions() == old(self).descriptions(),
            index < old(self).states().len() ==> final(self).states() == old(self).states().update(
                index as int,
                StepState::InProgress,
            ) && final(self).spec_current_step() == index,
            index >= old(self).states().len() ==> final(self).states() == old(self).states()
                && final(self).spec_current_step() == old(self).spec_current_step(),
    {
        if index < self.steps.len() {
            self.set_state(index, StepState::InProgress);
            self.current_step = index;
        }
    }

    /// Marks step `index` completed; an index out of range leaves the model unchanged.
    pub fn complete_step(&mut self, index: usize)
        requires
            old(self).wf(),
        ensures
            final(self).wf(),
            final(self).names() == old(self).names(),
            final(self).descriptions() == old(self).descriptions(),
            final(self).spec_current_step() == old(self).spec_current_step(),
            index < old(self).states().len() ==> final(self).states() == old(self).states().update(
                index as int,
                StepState::Completed,
            ),
            index >= old(self).states().len() ==> final(self).states() == old(self).states(),
    {
        if index < self.steps.len() {
            self.set_state(index, StepState::Completed);
        }
    }

    /// Marks step `index` failed; an index out of range leaves the model unchanged.
    pub fn fail_step(&mut self, index: usize)
        requires
            old(self).wf(),
        ensures
            final(self).wf(),
            final(self).names() == old(self).names(),
            final(self).descriptions() == old(self).descriptions(),
            final(self).spec_current_step() == old(self).spec_current_step(),
            index < old(self).states().len() ==> final(self).states() == old(self).states().update(
                index as int,
                StepState::Failed,
            ),
            index >= old(self).states().len() ==> final(self).states() == old(self).states(),
    {
        if index < self.steps.len() {
            self.set_state(index, StepState::Failed);
        }
    }

    /// How many steps are `Completed`.
    pub fn completed_count(&self) -> (r: usize)
        ensures
            r == count_completed(self.states()),
    {
        let mut n: usize = 0;
        let mut i: usize = 0;
        while i < self.steps.len()
            invariant
                i <= self.steps@.len(),
                n == count_completed(self.states().subrange(0, i as int)),
                n <= i,
            decreases self.steps@.len() - i,
        {
            proof {
                let s = self.states().subrange(0, i as int + 1);
                assert(s.drop_last() =~= self.states().subrange(0, i as int));
            }
            if self.steps[i].completed {
                n = n + 1;
            }
            i = i + 1;
        }
        assert(self.states().subrange(0, i as int) =~= self.states());
        n
    }

    /// Aggregate completion in whole percent, rounded down.
    pub fn overall_percent(&self) -> (r: u64)
        ensures
            r == percent_of(self.states()),
            r <= 100,
    {
        let total = self.steps.len();
        if total == 0 {
            return 0;
        }
        let done = self.completed_count();
        proof {
            lemma_count_completed_bounded(self.states());
            assert(100 * done <= 100 * total) by (nonlinear_arith)
                requires
                    done <= total,
            ;
            assert(100 * done / (total as int) <= 100) by (nonlinear_arith)
                requires
                    100 * done <= 100 * total,
                    total > 0,
            ;
        }
        let p: u128 = (done as u128 * 100) / (total as u128);
        p as u64
    }

    /// Aggregate completion in tenths of a percent, rounded down.
    pub fn overall_tenths(&self) -> (r: u64)
        ensures
            r == tenths_of(self.states()),
            r <= 1000,
    {
        let total = self.steps.len();
        if total == 0 {
            return 0;
        }
        let done = self.completed_count();
        proof {
            lemma_count_completed_bounded(self.states());
            assert(1000 * done <= 1000 * total) by (nonlinear_arith)
                requires
                    done <= total,
            ;
            assert(1000 * done / (total as int) <= 1000) by (nonlinear_arith)
                requires
                    1000 * done <= 1000 * total,
                    total > 0,
            ;
        }
        let p: u128 = (done as u128 * 1000) / (total as u128);
        p as u64
    }
}


/// Changing entry `i` of `s` to `x` changes the completed count only by what
/// the old and new entries contribute.
pub proof fn lemma_count_completed_update(s: Seq<StepState>, i: int, x: StepState)
    requires
        0 <= i < s.len(),
    ensures
        count_completed(s.update(i, x)) + (if s[i] == StepState::Completed {
            1int
        } else {
            0int
        }) == count_completed(s) + (if x == StepState::Completed {
            1int
        } else {
            0int
        }),
    decreases s.len(),
{
    let t = s.update(i, x);
    if i == s.len() - 1 {
        assert(t.drop_last() =~= s.drop_last());
    } else {
        assert(t.drop_last() =~= s.drop_last().update(i, x));
        lemma_count_completed_update(s.drop_last(), i, x);
    }
}

/// The aggregate counts `Completed` entries only: moving a step between
/// `Pending`, `InProgress` and `Failed` leaves the percentage as it was.
pub proof fn lemma_percent_ignores_unfinished(s: Seq<StepState>, i: int, x: StepState)
    requires
        0 <= i < s.len(),
        s[i] != StepState::Completed,
        x != StepState::Completed,
    ensures
        percent_of(s.update(i, x)) == percent_of(s),
        tenths_of(s.update(i, x)) == tenths_of(s),
{
    lemma_count_completed_update(s, i, x);
}

/// With every step completed the aggregate is exactly 100 percent.
pub proof fn lemma_all_completed_is_full(n: nat)
    requires
        n > 0,
    ensures
        count_completed(Seq::new(n, |i: int| StepState::Completed)) == n,
        percent_of(Seq::new(n, |i: int| StepState::Completed)) == 100,
        tenths_of(Seq::new(n, |i: int| StepState::Completed)) == 1000,
    decreases n,
{
    lemma_count_all_completed(n);
    assert((100 * n) as int / (n as int) == 100) by (nonlinear_arith)
        requires
            n > 0,
    ;
    assert((1000 * n) as int / (n as int) == 1000) by (nonlinear_arith)
        requires
            n > 0,
    ;
}

proof fn lemma_count_all_completed(n: nat)
    ensures
        count_completed(Seq::new(n, |i: int| StepState::Completed)) == n,
    decreases n,
{
    if n > 0 {
        assert(Seq::new(n, |i: int| StepState::Completed).drop_last() =~= Seq::new(
            (n - 1) as nat,
            |i: int| StepState::Completed,
        ));
        lemma_count_all_completed((n - 1) as nat);
    }
}

} // verus!
