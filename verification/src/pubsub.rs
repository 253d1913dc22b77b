//! The jobs that arrive over pub-sub, and how a job type is written on the
//! wire.
use vstd::prelude::*;

verus! {

/// The internal JobType enum, derived from the event
#[derive(Debug)]
pub enum JobType {
    Crawler,
    Other(String),
}

/// A job type, with its name as characters.
pub enum JobTypeView {
    Crawler,
    Other(Seq<char>),
}

impl View for JobType {
    type V = JobTypeView;

    open spec fn view(&self) -> JobTypeView {
        match self {
            JobType::Crawler => JobTypeView::Crawler,
            JobType::Other(name) => JobTypeView::Other(name@),
        }
    }
}

/// The job type that the name `name` on the wire stands for.
pub open spec fn job_type_named(name: Seq<char>) -> JobTypeView {
    if name == "crawler"@ {
        JobTypeView::Crawler
    } else {
        JobTypeView::Other(name)
    }
}

/// The name that a job type is written as on the wire.
pub open spec fn wire_name_of(t: JobTypeView) -> Seq<char> {
    match t {
        JobTypeView::Crawler => "foo"@,
        JobTypeView::Other(name) => name,
    }
}

impl JobType {
    /// The job type that a name read from the wire stands for: `crawler` is
    /// the crawler job, any other name is kept as it is.
    pub fn from_wire_name(name: String) -> (r: JobType)
        ensures
            r@ == job_type_named(name@),
    {
        if name == String::from_str("crawler") {
            JobType::Crawler
        } else {
            JobType::Other(name)
        }
    }

    /// The name that this job type is written as on the wire.
    pub fn wire_name(&self) -> (r: String)
        ensures
            r@ == wire_name_of(self@),
    {
        match self {
            JobType::Crawler => String::from_str("foo"),
            JobType::Other(other) => other.clone(),
        }
    }
}

/// The job pubsub event as sent from the JS side
pub struct JobEvent {
    pub job_type: JobType,
}

/// Reading back what was written gives the job type again, for every job
/// type other than the crawler job (written `foo`, which reads back as
/// another job) and the other job named `crawler` (which reads back as the
/// crawler job).
pub proof fn lemma_wire_name_reads_back(t: JobTypeView)
    requires
        t != JobTypeView::Crawler,
        t != JobTypeView::Other("crawler"@),
    ensures
        job_type_named(wire_name_of(t)) == t,
{
}

/// Writing what was read gives the name again, for every name but
/// `crawler` (which is written back as `foo`).
pub proof fn lemma_read_name_writes_back(name: Seq<char>)
    requires
        name != "crawler"@,
    ensures
        wire_name_of(job_type_named(name)) == name,
{
}

} // verus!
