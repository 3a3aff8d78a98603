//! Building the job list for one run: target resolution, the staleness
//! filter, and the per-file decisions of the tree walk.
//!
//! The walk itself (directory traversal, metadata reads) happens outside the
//! library; it hands in one [`FileRecord`] per walked entry, in walk order,
//! and takes back the ordered jobs of the run.

use vstd::prelude::*;
use crate::config::Transcode;
use crate::rules::TranscodeMatch;
use crate::rules::resolve;
use crate::rules::spec_resolve;

verus! {

/// One job of a run: the source file's path relative to the `from` directory,
/// and the target it converts to. Derived once per run; immutable.
#[derive(Clone, Debug)]
pub struct ConversionArgs {
    pub rel_from_path: Vec<u8>,
    pub transcode: Transcode,
}

/// What kind of directory entry the walk saw.
#[derive(Clone, Copy, Debug, PartialEq, Eq, Structural)]
pub enum FileKind {
    /// A regular file.
    Regular,
    /// A directory.
    Directory,
    /// Anything else: a symlink, a device, a socket.
    Other,
}

/// What is known of a job's candidate destination file.
#[derive(Clone, Copy, Debug, PartialEq, Eq, Structural)]
pub enum DestStatus {
    /// The destination does not exist.
    Absent,
    /// The destination exists with this modification time.
    Mtime(u64),
    /// The destination's metadata could not be read for another reason.
    Unreadable,
}

/// One walked entry: its path relative to the `from` directory, its kind, its
/// modification time (`None` when the source metadata could not be read), and
/// the status of its resolved destination. The destination status only
/// matters when some rule matches the path.
#[derive(Debug)]
pub struct FileRecord {
    pub rel_path: Vec<u8>,
    pub kind: FileKind,
    pub src_mtime: Option<u64>,
    pub dest: DestStatus,
}

/// A fault that aborts the whole run while building the job list.
#[derive(Debug)]
pub enum ScanError {
    /// The source file's own metadata could not be read.
    SourceMetadata { rel_path: Vec<u8> },
    /// A non-regular file matches a rule.
    UnsupportedFileType { rel_path: Vec<u8> },
}

/// A per-file fault that does not abort the run: the destination's metadata
/// could not be read for a reason other than absence.
#[derive(Debug)]
pub struct FileIssue {
    pub rel_path: Vec<u8>,
}

/// The outcome of one run's planning: the jobs to dispatch, in walk order,
/// and the per-file faults found on the way.
#[derive(Debug)]
pub struct Plan {
    pub jobs: Vec<ConversionArgs>,
    pub issues: Vec<FileIssue>,
}

/// The staleness rule: a job is needed when the destination is absent, or
/// present but modified before the source.
pub open spec fn spec_stale(src_mtime: u64, dest: DestStatus) -> bool
    recommends
        !(dest is Unreadable),
{
    match dest {
        DestStatus::Absent => true,
        DestStatus::Mtime(dm) => dm < src_mtime,
        DestStatus::Unreadable => false,
    }
}

/// Whether a job is needed for a source modified at `src_mtime` whose
/// destination status is `dest`.
pub fn is_stale(src_mtime: u64, dest: &DestStatus) -> (r: bool)
    requires
        !(dest is Unreadable),
    ensures
        r == spec_stale(src_mtime, *dest),
{
    match dest {
        DestStatus::Absent => true,
        DestStatus::Mtime(dm) => *dm < src_mtime,
        DestStatus::Unreadable => false,
    }
}

/// What planning does with one walked entry.
#[derive(Debug)]
pub enum Decision {
    /// No rule matches, or the destination is fresh: nothing to do.
    Skip,
    /// A job is scheduled.
    Schedule(ConversionArgs),
    /// The destination's metadata is unreadable: reported, run goes on.
    Issue(FileIssue),
    /// The run cannot be planned safely.
    Fatal(ScanError),
}

/// The decision for one record: resolve the target; an unmatched entry is
/// silently skipped whatever its kind; a matched non-regular file or a
/// matched file with unreadable source metadata is fatal; an unreadable
/// destination is a per-file fault; otherwise the staleness rule decides.
pub open spec fn spec_decide(rules: Seq<TranscodeMatch>, rec: FileRecord) -> Decision {
    match spec_resolve(rules, rec.rel_path@) {
        None => Decision::Skip,
        Some(t) => {
            if !(rec.kind is Regular) {
                Decision::Fatal(ScanError::UnsupportedFileType { rel_path: rec.rel_path })
            } else {
                match rec.src_mtime {
                    None => Decision::Fatal(ScanError::SourceMetadata { rel_path: rec.rel_path }),
                    Some(sm) => {
                        if rec.dest is Unreadable {
                            Decision::Issue(FileIssue { rel_path: rec.rel_path })
                        } else if spec_stale(sm, rec.dest) {
                            Decision::Schedule(
                                ConversionArgs { rel_from_path: rec.rel_path, transcode: t },
                            )
                        } else {
                            Decision::Skip
                        }
                    },
                }
            }
        },
    }
}

/// Decides one walked entry, as [`spec_decide`] says. Takes the record over
/// so the decision can carry its path.
pub fn decide_file(rules: &Vec<TranscodeMatch>, rec: FileRecord) -> (d: Decision)
    ensures
        d == spec_decide(rules@, rec),
{
    let FileRecord { rel_path, kind, src_mtime, dest } = rec;
    let t = match resolve(rules, rel_path.as_slice()) {
        None => {
            return Decision::Skip;
        },
        Some(t) => t,
    };
    match kind {
        FileKind::Regular => {},
        _ => {
            return Decision::Fatal(ScanError::UnsupportedFileType { rel_path });
        },
    }
    let sm = match src_mtime {
        None => {
            return Decision::Fatal(ScanError::SourceMetadata { rel_path });
        },
        Some(sm) => sm,
    };
    match dest {
        DestStatus::Unreadable => Decision::Issue(FileIssue { rel_path }),
        _ => {
            if is_stale(sm, &dest) {
                Decision::Schedule(ConversionArgs { rel_from_path: rel_path, transcode: t })
            } else {
                Decision::Skip
            }
        },
    }
}

/// The plan for a record list: decisions applied in walk order, jobs and
/// per-file faults collected, the first fatal fault aborting the whole run.
pub open spec fn spec_plan(rules: Seq<TranscodeMatch>, records: Seq<FileRecord>) -> Result<
    (Seq<ConversionArgs>, Seq<FileIssue>),
    ScanError,
>
    decreases records.len(),
{
    if records.len() == 0 {
        Ok((Seq::empty(), Seq::empty()))
    } else {
        match spec_decide(rules, records[0]) {
            Decision::Fatal(e) => Err(e),
            d => match spec_plan(rules, records.drop_first()) {
                Err(e) => Err(e),
                Ok(rest) => match d {
                    Decision::Schedule(a) => Ok((seq![a] + rest.0, rest.1)),
                    Decision::Issue(f) => Ok((rest.0, seq![f] + rest.1)),
                    _ => Ok(rest),
                },
            },
        }
    }
}

/// Builds the ordered job list of one run from the walked records, applying
/// the matcher and the staleness filter to each in turn.
pub fn build_jobs(rules: &Vec<TranscodeMatch>, records: Vec<FileRecord>) -> (r: Result<
    Plan,
    ScanError,
>)
    ensures
        r is Ok <==> spec_plan(rules@, records@) is Ok,
        r matches Ok(p) ==> (spec_plan(rules@, records@) matches Ok(pair) && p.jobs@ == pair.0
            && p.issues@ == pair.1),
        r matches Err(e) ==> (spec_plan(rules@, records@) matches Err(e2) && e == e2),
{
    let ghost all = records@;
    let mut rest = records;
    let mut jobs: Vec<ConversionArgs> = Vec::new();
    let mut issues: Vec<FileIssue> = Vec::new();
    proof {
        if spec_plan(rules@, all) is Ok {
            assert(jobs@ + spec_plan(rules@, all)->Ok_0.0 =~= spec_plan(rules@, all)->Ok_0.0);
            assert(issues@ + spec_plan(rules@, all)->Ok_0.1 =~= spec_plan(rules@, all)->Ok_0.1);
        }
    }
    while rest.len() > 0
        invariant
            all == records@,
            match spec_plan(rules@, rest@) {
                Ok(pair) => spec_plan(rules@, all) == Ok::<
                    (Seq<ConversionArgs>, Seq<FileIssue>),
                    ScanError,
                >((jobs@ + pair.0, issues@ + pair.1)),
                Err(e) => spec_plan(rules@, all) == Err::<
                    (Seq<ConversionArgs>, Seq<FileIssue>),
                    ScanError,
                >(e),
            },
        decreases rest@.len(),
    {
        let ghost before = rest@;
        let rec = rest.remove(0);
        proof {
            assert(rest@ =~= before.drop_first());
        }
        match decide_file(rules, rec) {
            Decision::Skip => {},
            Decision::Schedule(a) => {
                proof {
                    if spec_plan(rules@, rest@) is Ok {
                        let pair = spec_plan(rules@, rest@)->Ok_0;
                        assert(jobs@.push(a) + pair.0 =~= jobs@ + (seq![a] + pair.0));
                    }
                }
                jobs.push(a);
            },
            Decision::Issue(f) => {
                proof {
                    if spec_plan(rules@, rest@) is Ok {
                        let pair = spec_plan(rules@, rest@)->Ok_0;
                        assert(issues@.push(f) + pair.1 =~= issues@ + (seq![f] + pair.1));
                    }
                }
                issues.push(f);
            },
            Decision::Fatal(e) => {
                proof {
                    assert(before.len() > 0);
                    assert(spec_decide(rules@, before[0]) == Decision::Fatal(e));
                    assert(spec_plan(rules@, before) == Err::<
                        (Seq<ConversionArgs>, Seq<FileIssue>),
                        ScanError,
                    >(e));
                }
                return Err(e);
            },
        }
    }
    proof {
        assert(rest@ =~= Seq::<FileRecord>::empty());
        if spec_plan(rules@, rest@) is Ok {
            let pair = spec_plan(rules@, rest@)->Ok_0;
            assert(jobs@ + pair.0 =~= jobs@);
            assert(issues@ + pair.1 =~= issues@);
        }
    }
    Ok(Plan { jobs, issues })
}

/// No-op idempotence: re-running right after a fully successful run schedules
/// nothing. When every walked record is a regular file with readable
/// metadata whose destination carries a modification time no older than the
/// source's, the plan is empty and fault-free.
pub proof fn lemma_rerun_schedules_nothing(rules: Seq<TranscodeMatch>, records: Seq<FileRecord>)
    requires
        forall|i: int| 0 <= i < records.len() ==> (#[trigger] records[i]).kind is Regular,
        forall|i: int|
            0 <= i < records.len() ==> ((#[trigger] records[i]).src_mtime matches Some(sm)
                && (records[i].dest matches DestStatus::Mtime(dm) && dm >= sm)),
    ensures
        spec_plan(rules, records) == Ok::<(Seq<ConversionArgs>, Seq<FileIssue>), ScanError>(
            (Seq::empty(), Seq::empty()),
        ),
    decreases records.len(),
{
    if records.len() == 0 {
    } else {
        assert(records[0].src_mtime matches Some(sm) && (records[0].dest matches DestStatus::Mtime(
            dm,
        ) && dm >= sm));
        lemma_rerun_schedules_nothing(rules, records.drop_first());
    }
}

} // verus!
