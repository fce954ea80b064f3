//! The jobs of the local CI runner, and what it prints.
use vstd::prelude::*;
use crate::collections::Replicate;
use crate::text::same_text;

verus! {

/// How long a job may take.
pub const JOB_TIMEOUT_SECS: u64 = 1800;

/// What is run in the guest.
#[derive(Debug, PartialEq, Eq)]
pub enum GuestCommand {
    ExactCargoTest { package: String, test_name: String },
    PackageUnitTests { package: String },
    PackageTests { package: String },
    FilteredCargoTests { package: String, filter: String },
}

/// What a [`GuestCommand`] holds.
#[verifier::ext_equal]
pub enum GuestCommandModel {
    ExactCargoTest { package: Seq<char>, test_name: Seq<char> },
    PackageUnitTests { package: Seq<char> },
    PackageTests { package: Seq<char> },
    FilteredCargoTests { package: Seq<char>, filter: Seq<char> },
}

impl DeepView for GuestCommand {
    type V = GuestCommandModel;

    open spec fn deep_view(&self) -> GuestCommandModel {
        match self {
            GuestCommand::ExactCargoTest {
                package,
                test_name,
            } => GuestCommandModel::ExactCargoTest {
                package: package.deep_view(),
                test_name: test_name.deep_view(),
            },
            GuestCommand::PackageUnitTests { package } => GuestCommandModel::PackageUnitTests {
                package: package.deep_view(),
            },
            GuestCommand::PackageTests { package } => GuestCommandModel::PackageTests {
                package: package.deep_view(),
            },
            GuestCommand::FilteredCargoTests {
                package,
                filter,
            } => GuestCommandModel::FilteredCargoTests {
                package: package.deep_view(),
                filter: filter.deep_view(),
            },
        }
    }
}

impl View for GuestCommand {
    type V = GuestCommandModel;

    open spec fn view(&self) -> GuestCommandModel {
        self.deep_view()
    }
}

impl Replicate for GuestCommand {
    fn replicate(&self) -> (copy: Self) {
        match self {
            GuestCommand::ExactCargoTest { package, test_name } => GuestCommand::ExactCargoTest {
                package: package.replicate(),
                test_name: test_name.replicate(),
            },
            GuestCommand::PackageUnitTests { package } => GuestCommand::PackageUnitTests {
                package: package.replicate(),
            },
            GuestCommand::PackageTests { package } => GuestCommand::PackageTests {
                package: package.replicate(),
            },
            GuestCommand::FilteredCargoTests {
                package,
                filter,
            } => GuestCommand::FilteredCargoTests {
                package: package.replicate(),
                filter: filter.replicate(),
            },
        }
    }
}

impl Clone for GuestCommand {
    fn clone(&self) -> (copy: Self)
        ensures
            copy@ == self@,
    {
        self.replicate()
    }
}

/// A job.
#[derive(Debug, PartialEq, Eq)]
pub struct JobSpec {
    pub id: String,
    pub description: String,
    pub timeout_secs: u64,
    pub guest_command: GuestCommand,
}

/// What a [`JobSpec`] holds.
#[verifier::ext_equal]
pub struct JobSpecModel {
    pub id: Seq<char>,
    pub description: Seq<char>,
    pub timeout_secs: u64,
    pub guest_command: GuestCommandModel,
}

impl DeepView for JobSpec {
    type V = JobSpecModel;

    open spec fn deep_view(&self) -> JobSpecModel {
        JobSpecModel {
            id: self.id.deep_view(),
            description: self.description.deep_view(),
            timeout_secs: self.timeout_secs.deep_view(),
            guest_command: self.guest_command.deep_view(),
        }
    }
}

impl View for JobSpec {
    type V = JobSpecModel;

    open spec fn view(&self) -> JobSpecModel {
        self.deep_view()
    }
}

impl Replicate for JobSpec {
    fn replicate(&self) -> (copy: Self) {
        JobSpec {
            id: self.id.replicate(),
            description: self.description.replicate(),
            timeout_secs: self.timeout_secs.replicate(),
            guest_command: self.guest_command.replicate(),
        }
    }
}

impl Clone for JobSpec {
    fn clone(&self) -> (copy: Self)
        ensures
            copy@ == self@,
    {
        self.replicate()
    }
}

/// How a run or a job stands.
#[derive(Clone, Copy, Debug, PartialEq, Eq, Structural)]
pub enum RunStatus {
    Running,
    Passed,
    Failed,
}

impl DeepView for RunStatus {
    type V = RunStatus;

    open spec fn deep_view(&self) -> RunStatus {
        *self
    }
}

impl Replicate for RunStatus {
    fn replicate(&self) -> (copy: Self) {
        *self
    }
}

/// Whose log is shown.
#[derive(Clone, Copy, Debug, PartialEq, Eq, Structural)]
pub enum LogKind {
    Host,
    Guest,
    Both,
}

impl DeepView for LogKind {
    type V = LogKind;

    open spec fn deep_view(&self) -> LogKind {
        *self
    }
}

impl Replicate for LogKind {
    fn replicate(&self) -> (copy: Self) {
        *self
    }
}

/// Whose log is asked for.
#[derive(Clone, Copy, Debug, PartialEq, Eq, Structural)]
pub enum LogKindArg {
    Host,
    Guest,
    Both,
}

impl DeepView for LogKindArg {
    type V = LogKindArg;

    open spec fn deep_view(&self) -> LogKindArg {
        *self
    }
}

impl Replicate for LogKindArg {
    fn replicate(&self) -> (copy: Self) {
        *self
    }
}

/// A job of a run.
#[derive(Debug, PartialEq, Eq)]
pub struct JobRecord {
    pub id: String,
    pub status: RunStatus,
    pub message: Option<String>,
}

/// What a [`JobRecord`] holds.
#[verifier::ext_equal]
pub struct JobRecordModel {
    pub id: Seq<char>,
    pub status: RunStatus,
    pub message: Option<Seq<char>>,
}

impl DeepView for JobRecord {
    type V = JobRecordModel;

    open spec fn deep_view(&self) -> JobRecordModel {
        JobRecordModel {
            id: self.id.deep_view(),
            status: self.status.deep_view(),
            message: self.message.deep_view(),
        }
    }
}

impl View for JobRecord {
    type V = JobRecordModel;

    open spec fn view(&self) -> JobRecordModel {
        self.deep_view()
    }
}

impl Replicate for JobRecord {
    fn replicate(&self) -> (copy: Self) {
        JobRecord {
            id: self.id.replicate(),
            status: self.status.replicate(),
            message: self.message.replicate(),
        }
    }
}

impl Clone for JobRecord {
    fn clone(&self) -> (copy: Self)
        ensures
            copy@ == self@,
    {
        self.replicate()
    }
}

/// A run.
#[derive(Debug, PartialEq, Eq)]
pub struct RunRecord {
    pub run_id: String,
    pub status: RunStatus,
    pub jobs: Vec<JobRecord>,
    pub created_at: String,
}

/// What a [`RunRecord`] holds.
#[verifier::ext_equal]
pub struct RunRecordModel {
    pub run_id: Seq<char>,
    pub status: RunStatus,
    pub jobs: Seq<JobRecordModel>,
    pub created_at: Seq<char>,
}

impl DeepView for RunRecord {
    type V = RunRecordModel;

    open spec fn deep_view(&self) -> RunRecordModel {
        RunRecordModel {
            run_id: self.run_id.deep_view(),
            status: self.status.deep_view(),
            jobs: self.jobs.deep_view(),
            created_at: self.created_at.deep_view(),
        }
    }
}

impl View for RunRecord {
    type V = RunRecordModel;

    open spec fn view(&self) -> RunRecordModel {
        self.deep_view()
    }
}

impl Replicate for RunRecord {
    fn replicate(&self) -> (copy: Self) {
        RunRecord {
            run_id: self.run_id.replicate(),
            status: self.status.replicate(),
            jobs: self.jobs.replicate(),
            created_at: self.created_at.replicate(),
        }
    }
}

impl Clone for RunRecord {
    fn clone(&self) -> (copy: Self)
        ensures
            copy@ == self@,
    {
        self.replicate()
    }
}

/// A job that is run for as long as jobs may take.
pub open spec fn job(id: Seq<char>, description: Seq<char>, guest_command: GuestCommandModel) -> JobSpecModel {
    JobSpecModel { id, description, timeout_secs: JOB_TIMEOUT_SECS, guest_command }
}

/// One small test.
pub open spec fn beachhead() -> JobSpecModel {
    job(
        "beachhead"@,
        "Run one tiny exact unit test in a vfkit guest"@,
        GuestCommandModel::ExactCargoTest {
            package: "pika-agent-control-plane"@,
            test_name: "tests::command_envelope_round_trips"@,
        },
    )
}

/// The unit tests of the control plane.
pub open spec fn control_plane_unit() -> JobSpecModel {
    job(
        "agent-control-plane-unit"@,
        "Run all pika-agent-control-plane unit tests in a vfkit guest"@,
        GuestCommandModel::PackageUnitTests { package: "pika-agent-control-plane"@ },
    )
}

/// The tests of virtual machines.
pub open spec fn microvm_tests() -> JobSpecModel {
    job(
        "agent-microvm-tests"@,
        "Run pika-agent-microvm tests in a vfkit guest"@,
        GuestCommandModel::PackageTests { package: "pika-agent-microvm"@ },
    )
}

/// The tests of the server's interface for agents.
pub open spec fn agent_api_tests() -> JobSpecModel {
    job(
        "server-agent-api-tests"@,
        "Run pika-server agent_api tests in a vfkit guest"@,
        GuestCommandModel::FilteredCargoTests {
            package: "pika-server"@,
            filter: "agent_api::tests"@,
        },
    )
}

/// The test of signed requests.
pub open spec fn nip98_test() -> JobSpecModel {
    job(
        "core-agent-nip98-test"@,
        "Run pika_core NIP-98 signing contract test in a vfkit guest"@,
        GuestCommandModel::ExactCargoTest {
            package: "pika_core"@,
            test_name:
                "core::agent::tests::run_agent_flow_signs_requests_with_nip98_authorization"@,
        },
    )
}

/// The jobs that go by a name.
pub open spec fn jobs_named(name: Seq<char>) -> Result<Seq<JobSpecModel>, Seq<char>> {
    if name == "beachhead"@ {
        Ok(seq![beachhead()])
    } else if name == "agent-control-plane-unit"@ {
        Ok(seq![control_plane_unit()])
    } else if name == "agent-microvm-tests"@ {
        Ok(seq![microvm_tests()])
    } else if name == "server-agent-api-tests"@ {
        Ok(seq![agent_api_tests()])
    } else if name == "core-agent-nip98-test"@ {
        Ok(seq![nip98_test()])
    } else if name == "agent-contracts-smoke"@ {
        Ok(seq![control_plane_unit(), microvm_tests(), agent_api_tests(), nip98_test()])
    } else {
        Err("unknown job `"@ + name + "`"@)
    }
}

/// A job that is run for as long as jobs may take.
fn new_job(id: &str, description: &str, guest_command: GuestCommand) -> (spec: JobSpec)
    ensures
        spec@ == job(id@, description@, guest_command@),
{
    JobSpec {
        id: id.to_owned(),
        description: description.to_owned(),
        timeout_secs: JOB_TIMEOUT_SECS,
        guest_command,
    }
}

/// The unit tests of the control plane.
fn new_control_plane_unit() -> (spec: JobSpec)
    ensures
        spec@ == control_plane_unit(),
{
    new_job(
        "agent-control-plane-unit",
        "Run all pika-agent-control-plane unit tests in a vfkit guest",
        GuestCommand::PackageUnitTests { package: "pika-agent-control-plane".to_owned() },
    )
}

/// The tests of virtual machines.
fn new_microvm_tests() -> (spec: JobSpec)
    ensures
        spec@ == microvm_tests(),
{
    new_job(
        "agent-microvm-tests",
        "Run pika-agent-microvm tests in a vfkit guest",
        GuestCommand::PackageTests { package: "pika-agent-microvm".to_owned() },
    )
}

/// The tests of the server's interface for agents.
fn new_agent_api_tests() -> (spec: JobSpec)
    ensures
        spec@ == agent_api_tests(),
{
    new_job(
        "server-agent-api-tests",
        "Run pika-server agent_api tests in a vfkit guest",
        GuestCommand::FilteredCargoTests {
            package: "pika-server".to_owned(),
            filter: "agent_api::tests".to_owned(),
        },
    )
}

/// The test of signed requests.
fn new_nip98_test() -> (spec: JobSpec)
    ensures
        spec@ == nip98_test(),
{
    new_job(
        "core-agent-nip98-test",
        "Run pika_core NIP-98 signing contract test in a vfkit guest",
        GuestCommand::ExactCargoTest {
            package: "pika_core".to_owned(),
            test_name:
                "core::agent::tests::run_agent_flow_signs_requests_with_nip98_authorization".to_owned(),
        },
    )
}

/// The jobs that go by a name.
pub fn run_spec(name: &str) -> (result: Result<Vec<JobSpec>, String>)
    ensures
        match result {
            Ok(specs) => jobs_named(name@) == Ok::<Seq<JobSpecModel>, Seq<char>>(
                specs.deep_view(),
            ),
            Err(error) => jobs_named(name@) == Err::<Seq<JobSpecModel>, Seq<char>>(error@),
        },
{
    let mut specs: Vec<JobSpec> = Vec::new();
    if same_text(name, "beachhead") {
        specs.push(
            new_job(
                "beachhead",
                "Run one tiny exact unit test in a vfkit guest",
                GuestCommand::ExactCargoTest {
                    package: "pika-agent-control-plane".to_owned(),
                    test_name: "tests::command_envelope_round_trips".to_owned(),
                },
            ),
        );
        proof {
            assert(specs.deep_view() =~= seq![beachhead()]);
        }
    } else if same_text(name, "agent-control-plane-unit") {
        specs.push(new_control_plane_unit());
        proof {
            assert(specs.deep_view() =~= seq![control_plane_unit()]);
        }
    } else if same_text(name, "agent-microvm-tests") {
        specs.push(new_microvm_tests());
        proof {
            assert(specs.deep_view() =~= seq![microvm_tests()]);
        }
    } else if same_text(name, "server-agent-api-tests") {
        specs.push(new_agent_api_tests());
        proof {
            assert(specs.deep_view() =~= seq![agent_api_tests()]);
        }
    } else if same_text(name, "core-agent-nip98-test") {
        specs.push(new_nip98_test());
        proof {
            assert(specs.deep_view() =~= seq![nip98_test()]);
        }
    } else if same_text(name, "agent-contracts-smoke") {
        specs.push(new_control_plane_unit());
        specs.push(new_microvm_tests());
        specs.push(new_agent_api_tests());
        specs.push(new_nip98_test());
        proof {
            assert(specs.deep_view()
                =~= seq![control_plane_unit(), microvm_tests(), agent_api_tests(), nip98_test()]);
        }
    } else {
        return Err("unknown job `".to_owned().concat(name).concat("`"));
    }
    Ok(specs)
}

/// Whose log is shown.
pub fn map_log_kind(kind: LogKindArg) -> (shown: LogKind)
    ensures
        shown == match kind {
            LogKindArg::Host => LogKind::Host,
            LogKindArg::Guest => LogKind::Guest,
            LogKindArg::Both => LogKind::Both,
        },
{
    match kind {
        LogKindArg::Host => LogKind::Host,
        LogKindArg::Guest => LogKind::Guest,
        LogKindArg::Both => LogKind::Both,
    }
}

/// How a run or a job stands, in a word.
pub open spec fn status_word(status: RunStatus) -> Seq<char> {
    match status {
        RunStatus::Running => "running"@,
        RunStatus::Passed => "passed"@,
        RunStatus::Failed => "failed"@,
    }
}

/// How a run or a job stands, in a word.
pub fn status_name(status: RunStatus) -> (word: String)
    ensures
        word@ == status_word(status),
{
    match status {
        RunStatus::Running => "running".to_owned(),
        RunStatus::Passed => "passed".to_owned(),
        RunStatus::Failed => "failed".to_owned(),
    }
}

/// The line that tells how a job of a run went.
pub fn job_line(run_id: &str, job: &JobRecord) -> (line: String)
    ensures
        line@ == run_id@ + " "@ + job@.id + " "@ + status_word(job@.status),
{
    run_id.to_owned().concat(" ").concat(job.id.as_str()).concat(" ").concat(
        status_name(job.status).as_str(),
    )
}

/// The line that tells of a run: its id, how it stands, its first job, and when it
/// was made.
pub fn run_line(run: &RunRecord) -> (line: String)
    ensures
        line@ == run@.run_id + "\t"@ + status_word(run@.status) + "\t"@ + (if run@.jobs.len() > 0 {
            run@.jobs[0].id
        } else {
            "-"@
        }) + "\t"@ + run@.created_at,
{
    let job_id = if run.jobs.len() > 0 {
        run.jobs[0].id.clone()
    } else {
        "-".to_owned()
    };
    run.run_id.clone().concat("\t").concat(status_name(run.status).as_str()).concat("\t").concat(
        job_id.as_str(),
    ).concat("\t").concat(run.created_at.as_str())
}

/// The exit code that a run ends with.
pub fn exit_code(status: RunStatus) -> (code: i32)
    ensures
        code == if status == RunStatus::Failed {
            1i32
        } else {
            0i32
        },
{
    if status == RunStatus::Failed {
        1
    } else {
        0
    }
}

/// The smoke test runs the jobs that can also be run one by one, each once.
pub proof fn smoke_runs_each_contract()
    ensures
        jobs_named("agent-contracts-smoke"@) == Ok::<Seq<JobSpecModel>, Seq<char>>(
            jobs_named("agent-control-plane-unit"@)->Ok_0 + jobs_named(
                "agent-microvm-tests"@,
            )->Ok_0 + jobs_named("server-agent-api-tests"@)->Ok_0 + jobs_named(
                "core-agent-nip98-test"@,
            )->Ok_0,
        ),
{
    reveal_strlit("beachhead");
    reveal_strlit("agent-control-plane-unit");
    reveal_strlit("agent-microvm-tests");
    reveal_strlit("server-agent-api-tests");
    reveal_strlit("core-agent-nip98-test");
    reveal_strlit("agent-contracts-smoke");
    assert("beachhead"@.len() == 9 && "agent-control-plane-unit"@.len() == 24
        && "agent-microvm-tests"@.len() == 19 && "server-agent-api-tests"@.len() == 22
        && "core-agent-nip98-test"@.len() == 21 && "agent-contracts-smoke"@.len() == 21);
    assert("agent-contracts-smoke"@[7] == 'o' && "core-agent-nip98-test"@[7] == 'e');
    assert(jobs_named("agent-control-plane-unit"@)->Ok_0 == seq![control_plane_unit()]);
    assert(jobs_named("agent-microvm-tests"@)->Ok_0 == seq![microvm_tests()]);
    assert(jobs_named("server-agent-api-tests"@)->Ok_0 == seq![agent_api_tests()]);
    assert(jobs_named("core-agent-nip98-test"@)->Ok_0 == seq![nip98_test()]);
    assert(jobs_named("agent-contracts-smoke"@)->Ok_0 =~= jobs_named(
        "agent-control-plane-unit"@,
    )->Ok_0 + jobs_named("agent-microvm-tests"@)->Ok_0 + jobs_named(
        "server-agent-api-tests"@,
    )->Ok_0 + jobs_named("core-agent-nip98-test"@)->Ok_0);
}

} // verus!
