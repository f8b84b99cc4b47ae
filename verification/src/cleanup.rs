//! The cleanup prompter's decisions: which files to offer for deletion
//! once every concurrent acquisition has settled.
//!
//! Only a pipeline that ended in cancellation triggers prompts: one for
//! its temporary download file if that still exists, and one for its
//! completed or extracted path if that exists, in that order. Failures
//! of any other kind are reported but never prompt a deletion — those
//! artifacts stay for manual inspection. Every prompt defaults to "no";
//! asking and deleting are the surrounding program's work.

use vstd::prelude::*;

use crate::errs::CommandError;

verus! {

/// How one acquisition pipeline ended.
#[derive(Debug, Clone, Copy, PartialEq, Eq, Structural)]
pub enum AcquisitionOutcome {
    Succeeded,
    /// The operator cancelled: the cleanup prompter's case.
    Cancelled,
    /// Any non-cancellation failure.
    Failed,
}

/// Classifies a pipeline result: no error is a success, the distinct
/// cancellation outcome stays distinct, and every other error is a
/// plain failure.
pub fn outcome_of(result: &Option<CommandError>) -> (r: AcquisitionOutcome)
    ensures
        result is None ==> r == AcquisitionOutcome::Succeeded,
        result is Some && result->0 is Cancelled ==> r == AcquisitionOutcome::Cancelled,
        result is Some && !(result->0 is Cancelled) ==> r == AcquisitionOutcome::Failed,
{
    match result {
        None => AcquisitionOutcome::Succeeded,
        Some(CommandError::Cancelled) => AcquisitionOutcome::Cancelled,
        Some(_) => AcquisitionOutcome::Failed,
    }
}

/// During which phase the leftover file was produced; it picks the
/// prompt's wording.
#[derive(Debug, Clone, Copy, PartialEq, Eq, Structural)]
pub enum CleanupPhase {
    Downloading,
    Extraction,
}

/// Mathematical model of one deletion offer.
#[verifier::ext_equal]
pub ghost struct CleanupPromptV {
    pub path: Seq<char>,
    pub phase: CleanupPhase,
}

/// One deletion offer: a leftover path and the phase that produced it.
#[derive(Debug, Clone, PartialEq)]
pub struct CleanupPrompt {
    pub path: String,
    pub phase: CleanupPhase,
}

impl View for CleanupPrompt {
    type V = CleanupPromptV;

    open spec fn view(&self) -> CleanupPromptV {
        CleanupPromptV { path: self.path@, phase: self.phase }
    }
}

/// Mathematical model of one pipeline's report.
#[verifier::ext_equal]
pub ghost struct PipelineReportV {
    pub outcome: AcquisitionOutcome,
    pub temporary_filepath: Seq<char>,
    pub temp_exists: bool,
    pub completed_filepath: Seq<char>,
    pub completed_exists: bool,
}

/// What the prompter learns about one settled pipeline: its outcome,
/// its two paths, and whether each still exists on disk.
#[derive(Debug, Clone, PartialEq)]
pub struct PipelineReport {
    pub outcome: AcquisitionOutcome,
    pub temporary_filepath: String,
    pub temp_exists: bool,
    pub completed_filepath: String,
    pub completed_exists: bool,
}

impl View for PipelineReport {
    type V = PipelineReportV;

    open spec fn view(&self) -> PipelineReportV {
        PipelineReportV {
            outcome: self.outcome,
            temporary_filepath: self.temporary_filepath@,
            temp_exists: self.temp_exists,
            completed_filepath: self.completed_filepath@,
            completed_exists: self.completed_exists,
        }
    }
}

/// The offers one report gives rise to: for a cancelled pipeline, its
/// existing temporary file and then its existing completed path;
/// nothing for any other outcome.
pub open spec fn prompts_of_report(r: PipelineReportV) -> Seq<CleanupPromptV> {
    if r.outcome == AcquisitionOutcome::Cancelled {
        (if r.temp_exists {
            seq![CleanupPromptV { path: r.temporary_filepath, phase: CleanupPhase::Downloading }]
        } else {
            Seq::empty()
        }) + (if r.completed_exists {
            seq![CleanupPromptV { path: r.completed_filepath, phase: CleanupPhase::Extraction }]
        } else {
            Seq::empty()
        })
    } else {
        Seq::empty()
    }
}

/// The offers of a whole batch, in pipeline order.
pub open spec fn prompts_of(rs: Seq<PipelineReportV>) -> Seq<CleanupPromptV>
    decreases rs.len(),
{
    if rs.len() == 0 {
        Seq::empty()
    } else {
        prompts_of(rs.drop_last()) + prompts_of_report(rs.last())
    }
}

/// The models of a report list.
pub open spec fn report_views(rs: Seq<PipelineReport>) -> Seq<PipelineReportV> {
    rs.map_values(|r: PipelineReport| r@)
}

/// The models of a prompt list.
pub open spec fn prompt_views(ps: Seq<CleanupPrompt>) -> Seq<CleanupPromptV> {
    ps.map_values(|p: CleanupPrompt| p@)
}

/// Decides every deletion offer for a settled batch, in order: prompts
/// come only from cancelled pipelines, only for files that still exist,
/// temporary file before completed path.
pub fn cleanup_prompts(reports: &Vec<PipelineReport>) -> (out: Vec<CleanupPrompt>)
    ensures
        prompt_views(out@) == prompts_of(report_views(reports@)),
{
    let ghost rv = report_views(reports@);
    let mut out: Vec<CleanupPrompt> = Vec::new();
    let mut i: usize = 0;
    assert(rv.subrange(0, 0) =~= Seq::<PipelineReportV>::empty());
    while i < reports.len()
        invariant
            rv == report_views(reports@),
            i <= rv.len(),
            reports@.len() == rv.len(),
            prompt_views(out@) == prompts_of(rv.subrange(0, i as int)),
        decreases rv.len() - i,
    {
        let ghost cur = rv.subrange(0, i + 1);
        proof {
            assert(cur.drop_last() =~= rv.subrange(0, i as int));
            assert(cur.last() == rv[i as int]);
        }
        let r = &reports[i];
        if r.outcome == AcquisitionOutcome::Cancelled {
            if r.temp_exists {
                out.push(
                    CleanupPrompt {
                        path: r.temporary_filepath.clone(),
                        phase: CleanupPhase::Downloading,
                    },
                );
            }
            if r.completed_exists {
                out.push(
                    CleanupPrompt {
                        path: r.completed_filepath.clone(),
                        phase: CleanupPhase::Extraction,
                    },
                );
            }
        }
        proof {
            assert(prompt_views(out@) =~= prompts_of(cur));
        }
        i = i + 1;
        assert(rv.subrange(0, i as int) =~= cur);
    }
    proof {
        assert(rv.subrange(0, rv.len() as int) =~= rv);
    }
    out
}

} // verus!
