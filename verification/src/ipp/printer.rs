use vstd::prelude::*;
use std::path::PathBuf;
use dashmap::DashMap;
use vstd::string::StringExecFns;
use crate::text::push_decimal;

verus! {

/// `std::path::PathBuf`; carried as is.
#[verifier::external_type_specification]
#[verifier::external_body]
pub struct ExPathBuf(PathBuf);

/// `dashmap::DashMap`, the concurrent map that holds the jobs.
#[verifier::external_type_specification]
#[verifier::external_body]
#[verifier::reject_recursive_types(K)]
#[verifier::reject_recursive_types(V)]
#[verifier::reject_recursive_types(S)]
pub struct ExDashMap<K, V, S>(DashMap<K, V, S>);

/// IPP job states (RFC 8011, section 5.3.7).
#[derive(Debug, Clone, Copy, PartialEq, Eq, Structural)]
pub enum JobState {
    Pending,
    Processing,
    Completed,
    Aborted,
    Canceled,
}

/// The enum value of a job state.
pub open spec fn job_state_code(s: JobState) -> i32 {
    match s {
        JobState::Pending => 3,
        JobState::Processing => 5,
        JobState::Completed => 9,
        JobState::Aborted => 7,
        JobState::Canceled => 8,
    }
}

impl JobState {
    /// The enum value of this job state.
    pub fn code(&self) -> (c: i32)
        ensures
            c == job_state_code(*self),
    {
        match self {
            JobState::Pending => 3,
            JobState::Processing => 5,
            JobState::Completed => 9,
            JobState::Aborted => 7,
            JobState::Canceled => 8,
        }
    }
}

/// What the printer keeps of a job.
#[derive(Debug, Clone)]
pub struct JobInfo {
    pub id: u32,
    pub state: JobState,
    pub name: String,
    pub originating_user: String,
    pub time_created: u64,
    pub file_path: Option<PathBuf>,
    pub size_bytes: u64,
}

/// The table of jobs, by id.
pub type JobTable = DashMap<u32, JobInfo>;

/// The jobs a job table holds, by id.
pub uninterp spec fn job_table(m: JobTable) -> Map<u32, JobInfo>;

/// `DashMap::new`: a table that holds no job.
#[verifier::external_body]
fn new_job_table() -> (m: JobTable)
    ensures
        job_table(m).dom() == Set::<u32>::empty(),
{
    DashMap::new()
}

/// `DashMap::insert`: afterwards the id maps to the job and every other id keeps its job;
/// the job the id held before, if any, is returned.
#[verifier::external_body]
fn job_table_insert(m: &mut JobTable, id: u32, job: JobInfo) -> (prev: Option<JobInfo>)
    ensures
        job_table(*final(m)) == job_table(*old(m)).insert(id, job),
        prev == (if job_table(*old(m)).dom().contains(id) {
            Some(job_table(*old(m))[id])
        } else {
            None
        }),
{
    m.insert(id, job)
}

/// `DashMap::get`, with the entry cloned out of its guard: the job under the id, if any.
/// The clone (the derived `Clone` of `JobInfo`, field by field) is taken to equal the job held.
#[verifier::external_body]
fn job_table_get(m: &JobTable, id: u32) -> (r: Option<JobInfo>)
    ensures
        r == (if job_table(*m).dom().contains(id) {
            Some(job_table(*m)[id])
        } else {
            None
        }),
{
    m.get(&id).map(|entry| entry.value().clone())
}

/// The printer: its name and URI, where documents go, the next job id and the jobs.
pub struct PrinterState {
    pub printer_name: String,
    pub printer_uri: String,
    pub storage_dir: PathBuf,
    pub job_counter: u32,
    pub active_jobs: JobTable,
}

/// The URI of a printer at `ip` and `port`: `ipp://{ip}:{port}/ipp/print`.
pub open spec fn spec_printer_uri(ip: Seq<char>, port: u16) -> Seq<char> {
    "ipp://"@ + ip + ":"@ + crate::text::decimal(port as nat) + "/ipp/print"@
}

/// Builds the printer URI `ipp://{ip}:{port}/ipp/print`.
pub fn printer_uri(ip: &str, port: u16) -> (s: String)
    ensures
        s@ == spec_printer_uri(ip@, port),
{
    let mut s = String::from_str("ipp://");
    s.append(ip);
    s.append(":");
    push_decimal(&mut s, port as u64);
    s.append("/ipp/print");
    s
}

impl PrinterState {
    /// A printer that holds no job, whose first job id is 1.
    pub fn new(printer_name: String, ip: &str, port: u16, storage_dir: PathBuf) -> (p: Self)
        ensures
            p.printer_name@ == printer_name@,
            p.printer_uri@ == spec_printer_uri(ip@, port),
            p.storage_dir == storage_dir,
            p.job_counter == 1,
            p.jobs() == Map::<u32, JobInfo>::empty(),
    {
        let p = Self {
            printer_uri: printer_uri(ip, port),
            printer_name,
            storage_dir,
            job_counter: 1,
            active_jobs: new_job_table(),
        };
        proof {
            assert(p.jobs() =~= Map::<u32, JobInfo>::empty());
        }
        p
    }

    /// The jobs the printer holds, by id.
    pub open spec fn jobs(&self) -> Map<u32, JobInfo> {
        job_table(self.active_jobs)
    }

    /// Hands out the next job id: the counter's value, which then moves on by one
    /// (wrapping around).
    pub fn next_job_id(&mut self) -> (id: u32)
        ensures
            id == old(self).job_counter,
            final(self).job_counter == old(self).job_counter.wrapping_add(1),
            final(self).printer_name == old(self).printer_name,
            final(self).printer_uri == old(self).printer_uri,
            final(self).storage_dir == old(self).storage_dir,
            final(self).active_jobs == old(self).active_jobs,
    {
        let id = self.job_counter;
        self.job_counter = self.job_counter.wrapping_add(1);
        id
    }

    /// The job with the given id, if the printer holds one.
    pub fn job(&self, id: u32) -> (r: Option<JobInfo>)
        ensures
            r == (if self.jobs().dom().contains(id) {
                Some(self.jobs()[id])
            } else {
                None
            }),
    {
        job_table_get(&self.active_jobs, id)
    }

    /// Records a job under its id; every other job is kept.
    pub fn record_job(&mut self, job: JobInfo)
        ensures
            final(self).jobs() == old(self).jobs().insert(job.id, job),
            final(self).printer_name == old(self).printer_name,
            final(self).printer_uri == old(self).printer_uri,
            final(self).storage_dir == old(self).storage_dir,
            final(self).job_counter == old(self).job_counter,
    {
        let id = job.id;
        let _ = job_table_insert(&mut self.active_jobs, id, job);
    }
}

/// The job counter after `k` calls of `next_job_id` on a counter that starts at `c`; the
/// id the `k`-th call (counting from 0) hands out is `counter_after(c, k)`.
pub open spec fn counter_after(c: u32, k: nat) -> u32
    decreases k,
{
    if k == 0 {
        c
    } else {
        counter_after(c, (k - 1) as nat).wrapping_add(1)
    }
}

/// The counter after `k` calls is the start plus `k`, modulo 2^32.
proof fn lemma_counter_after_mod(c: u32, k: nat)
    ensures
        counter_after(c, k) as int == (c + k) % 0x1_0000_0000,
    decreases k,
{
    let m: int = 0x1_0000_0000;
    if k == 0 {
        vstd::arithmetic::div_mod::lemma_small_mod(c as nat, m as nat);
    } else {
        lemma_counter_after_mod(c, (k - 1) as nat);
        let x = counter_after(c, (k - 1) as nat);
        vstd::arithmetic::div_mod::lemma_add_mod_noop(c + k - 1, 1, m);
        vstd::arithmetic::div_mod::lemma_small_mod(1, m as nat);
        if x + 1 < m {
            vstd::arithmetic::div_mod::lemma_small_mod((x + 1) as nat, m as nat);
        } else {
            vstd::arithmetic::div_mod::lemma_mod_self_0(m);
        }
    }
}

/// Successive calls of `next_job_id` hand out distinct ids, for up to 2^32 calls; on a
/// fresh printer (counter 1) they are 1, 2, 3, and so on.
pub proof fn lemma_job_ids_distinct(c: u32, i: nat, j: nat)
    requires
        i < j < 0x1_0000_0000,
    ensures
        counter_after(c, i) != counter_after(c, j),
        c == 1 && j < 0xFFFF_FFFF ==> counter_after(c, j) == j + 1,
{
    let m: int = 0x1_0000_0000;
    lemma_counter_after_mod(c, i);
    lemma_counter_after_mod(c, j);
    vstd::arithmetic::div_mod::lemma_mod_equivalence(c + j, c + i, m);
    vstd::arithmetic::div_mod::lemma_small_mod((j - i) as nat, m as nat);
    assert((c + j) - (c + i) == j - i);
    if c == 1 && j < 0xFFFF_FFFF {
        vstd::arithmetic::div_mod::lemma_small_mod((1 + j) as nat, m as nat);
    }
}

} // verus!
