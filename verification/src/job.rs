//! One transcoding job: what is fixed once the source is probed, the plans
//! and the playlist that follow from it, and how its errors are weighed.

use vstd::prelude::*;
use vstd::string::StringExecFns;
use crate::ladder::{ladder_for, Ladder, Rendition};
use crate::notice::{completion_notice, created_status, last_segment, Notification};
use crate::orchestrator::{action_on, EncodeAction, EncodeEvent, EncodeState};
use crate::plan::{accelerated_arguments, accelerated_plan, software_arguments, software_plan};
use crate::playlist::{
    master_playlist_file,
    master_playlist_text,
    playlist_path,
    playlist_path_text,
};
use crate::probe::{keyframe_interval, probe_of, probe_source, ProbeError, SourceProbe, ToolOutput};

verus! {

/// What can go wrong in a job.
#[derive(Clone, Copy, Debug, PartialEq, Eq, Structural)]
pub enum JobError {
    /// The source could not be probed.
    Probe(ProbeError),
    /// The target directory could not be created.
    Directory,
    /// The accelerated encode failed.
    AcceleratedEncode,
    /// The software encode failed.
    SoftwareEncode,
    /// The backend could not be told that the job is done.
    Notification,
}

/// How an attempt to create the target directory ended.
#[derive(Clone, Copy, Debug, PartialEq, Eq, Structural)]
pub enum DirectoryOutcome {
    /// The directory was created.
    Created,
    /// The directory was there already.
    AlreadyExists,
    /// The directory could not be created for another reason.
    Refused,
}

/// Whether an error ends the job. A failed accelerated encode does not: the
/// software encode takes over. A failed notification does not either: the
/// media are produced and stay.
pub open spec fn is_fatal(error: JobError) -> bool {
    match error {
        JobError::AcceleratedEncode => false,
        JobError::Notification => false,
        _ => true,
    }
}

/// The error, if any, that the creation of the target directory amounts to.
pub open spec fn directory_error(outcome: DirectoryOutcome) -> Option<JobError> {
    match outcome {
        DirectoryOutcome::Refused => Some(JobError::Directory),
        _ => None,
    }
}

/// The error, if any, that `event` reports in `state`.
pub open spec fn encode_error(state: EncodeState, event: EncodeEvent) -> Option<JobError> {
    match action_on(state, event) {
        EncodeAction::RunSoftware => Some(JobError::AcceleratedEncode),
        EncodeAction::ReportFailure => Some(JobError::SoftwareEncode),
        _ => None,
    }
}

impl JobError {
    /// Whether this error ends the job.
    pub fn fatal(&self) -> (r: bool)
        ensures
            r == is_fatal(*self),
    {
        match self {
            JobError::AcceleratedEncode => false,
            JobError::Notification => false,
            _ => true,
        }
    }
}

/// Weighs the outcome of creating the target directory.
pub fn check_directory(outcome: DirectoryOutcome) -> (r: Result<(), JobError>)
    ensures
        match r {
            Ok(_) => directory_error(outcome) is None,
            Err(e) => directory_error(outcome) == Some(e),
        },
{
    match outcome {
        DirectoryOutcome::Refused => Err(JobError::Directory),
        _ => Ok(()),
    }
}

/// An encode error is fatal exactly when it ends the job in `Failed`.
pub proof fn lemma_fatal_encode_error_fails_job(state: EncodeState, event: EncodeEvent)
    ensures
        (encode_error(state, event) matches Some(e) && is_fatal(e)) <==> (state
            != EncodeState::Failed && crate::orchestrator::next_state(state, event)
            == EncodeState::Failed),
{
}

/// One of the two encode plans, with the encoder's full argument list.
#[derive(Debug)]
pub enum EncodePlan {
    /// Hardware decode and one hardware encode per rendition.
    Accelerated(Vec<String>),
    /// Software decode, a filter graph and one software encode per rendition.
    Software(Vec<String>),
}

impl EncodePlan {
    /// The encoder's arguments.
    pub open spec fn arguments(self) -> Seq<Seq<char>> {
        match self {
            EncodePlan::Accelerated(args) => args.deep_view(),
            EncodePlan::Software(args) => args.deep_view(),
        }
    }

    /// Hands out the encoder's arguments.
    pub fn into_arguments(self) -> (args: Vec<String>)
        ensures
            args.deep_view() == self.arguments(),
    {
        match self {
            EncodePlan::Accelerated(args) => args,
            EncodePlan::Software(args) => args,
        }
    }
}

/// What a job is made of, as plain values.
pub ghost struct JobView {
    pub source: Seq<char>,
    pub target: Seq<char>,
    pub width: int,
    pub height: int,
    pub frame_rate: int,
    pub ladder: Seq<Rendition>,
    pub keyframe_interval: int,
}

/// The job that follows from a source, a target and what probing found: the
/// ladder is the one of the source's height, and keyframes are two seconds
/// apart.
pub open spec fn job_for(
    source: Seq<char>,
    target: Seq<char>,
    width: int,
    height: int,
    frame_rate: int,
) -> JobView {
    JobView {
        source,
        target,
        width,
        height,
        frame_rate,
        ladder: ladder_for(height),
        keyframe_interval: keyframe_interval(frame_rate),
    }
}

/// One transcoding job.
pub struct TranscodeJob {
    source_path: String,
    target_directory: String,
    probe: SourceProbe,
    ladder: Ladder,
    keyframe_interval: u64,
}

impl View for TranscodeJob {
    type V = JobView;

    closed spec fn view(&self) -> JobView {
        JobView {
            source: self.source_path@,
            target: self.target_directory@,
            width: self.probe.spec_width() as int,
            height: self.probe.spec_height() as int,
            frame_rate: self.probe.spec_frame_rate() as int,
            ladder: self.ladder@,
            keyframe_interval: self.keyframe_interval as int,
        }
    }
}

impl TranscodeJob {
    #[verifier::type_invariant]
    spec fn inv(self) -> bool {
        &&& self.ladder@ == ladder_for(self.probe.spec_height() as int)
        &&& self.keyframe_interval == keyframe_interval(self.probe.spec_frame_rate() as int)
    }

    /// Sets up the job for a probed source.
    pub fn new(source: &str, target: &str, probe: SourceProbe) -> (job: TranscodeJob)
        ensures
            job@ == job_for(
                source@,
                target@,
                probe.spec_width() as int,
                probe.spec_height() as int,
                probe.spec_frame_rate() as int,
            ),
    {
        TranscodeJob {
            source_path: String::from_str(source),
            target_directory: String::from_str(target),
            probe,
            ladder: Ladder::select(probe.height()),
            keyframe_interval: probe.keyframe_interval(),
        }
    }

    /// Sets up the job from the two runs of the probing tool, or says why
    /// the source cannot be transcoded.
    pub fn prepare(source: &str, target: &str, dimensions: &ToolOutput, frame_rate: &ToolOutput) -> (r:
        Result<TranscodeJob, JobError>)
        ensures
            match r {
                Ok(job) => match probe_of(
                    dimensions.success,
                    dimensions.stdout@,
                    frame_rate.success,
                    frame_rate.stdout@,
                ) {
                    Ok(found) => job@ == job_for(source@, target@, found.0, found.1, found.2),
                    Err(_) => false,
                },
                Err(e) => match probe_of(
                    dimensions.success,
                    dimensions.stdout@,
                    frame_rate.success,
                    frame_rate.stdout@,
                ) {
                    Ok(_) => false,
                    Err(reason) => e == JobError::Probe(reason),
                },
            },
    {
        match probe_source(dimensions, frame_rate) {
            Ok(probe) => Ok(TranscodeJob::new(source, target, probe)),
            Err(reason) => Err(JobError::Probe(reason)),
        }
    }

    /// What probing found of the source.
    pub fn probe(&self) -> (probe: SourceProbe)
        ensures
            probe.spec_width() == self@.width,
            probe.spec_height() == self@.height,
            probe.spec_frame_rate() == self@.frame_rate,
    {
        self.probe
    }

    /// The renditions to produce: the ladder of the source's height.
    pub fn ladder(&self) -> (ladder: &Ladder)
        ensures
            ladder@ == self@.ladder,
            self@.ladder == ladder_for(self@.height),
    {
        proof {
            use_type_invariant(self);
        }
        &self.ladder
    }

    /// Distance between forced keyframes in frames, the same for every
    /// rendition: twice the frame rate.
    pub fn keyframe_interval(&self) -> (frames: u64)
        ensures
            frames == self@.keyframe_interval,
            frames == 2 * self@.frame_rate,
    {
        proof {
            use_type_invariant(self);
        }
        self.keyframe_interval
    }

    /// Path of the source.
    pub fn source_path(&self) -> (path: &str)
        ensures
            path@ == self@.source,
    {
        self.source_path.as_str()
    }

    /// Directory that receives the segments and playlists.
    pub fn target_directory(&self) -> (path: &str)
        ensures
            path@ == self@.target,
    {
        self.target_directory.as_str()
    }

    /// Builds the accelerated plan.
    pub fn accelerated_plan(&self) -> (plan: EncodePlan)
        ensures
            plan is Accelerated,
            plan.arguments() == accelerated_plan(
                self@.source,
                self@.target,
                self@.ladder,
                self@.width,
                self@.height,
                self@.keyframe_interval,
            ),
    {
        proof {
            use_type_invariant(self);
        }
        EncodePlan::Accelerated(
            accelerated_arguments(
                self.source_path.as_str(),
                self.target_directory.as_str(),
                &self.ladder,
                &self.probe,
            ),
        )
    }

    /// Builds the software plan.
    pub fn software_plan(&self) -> (plan: EncodePlan)
        ensures
            plan is Software,
            plan.arguments() == software_plan(
                self@.source,
                self@.target,
                self@.ladder,
                self@.keyframe_interval,
            ),
    {
        proof {
            use_type_invariant(self);
        }
        EncodePlan::Software(
            software_arguments(
                self.source_path.as_str(),
                self.target_directory.as_str(),
                &self.ladder,
                &self.probe,
            ),
        )
    }

    /// The plan to run for an action of the fallback machine, if the action
    /// asks for an encode.
    pub fn plan_for(&self, action: EncodeAction) -> (plan: Option<EncodePlan>)
        ensures
            match action {
                EncodeAction::RunAccelerated => plan matches Some(p) && p is Accelerated
                    && p.arguments() == accelerated_plan(
                    self@.source,
                    self@.target,
                    self@.ladder,
                    self@.width,
                    self@.height,
                    self@.keyframe_interval,
                ),
                EncodeAction::RunSoftware => plan matches Some(p) && p is Software && p.arguments()
                    == software_plan(
                    self@.source,
                    self@.target,
                    self@.ladder,
                    self@.keyframe_interval,
                ),
                _ => plan is None,
            },
    {
        match action {
            EncodeAction::RunAccelerated => Some(self.accelerated_plan()),
            EncodeAction::RunSoftware => Some(self.software_plan()),
            _ => None,
        }
    }

    /// The master playlist as it is written to disk.
    pub fn master_playlist(&self) -> (text: String)
        ensures
            text@ == master_playlist_text(self@.ladder),
    {
        master_playlist_file(&self.ladder)
    }

    /// The notice to send once the playlist is written.
    pub fn notification(&self) -> (notice: Notification)
        ensures
            notice.id@ == last_segment(self@.target),
            notice.status@ == created_status(),
    {
        completion_notice(self.target_directory.as_str())
    }

    /// Where the master playlist is written.
    pub fn playlist_path(&self) -> (path: String)
        ensures
            path@ == playlist_path(self@.target),
    {
        playlist_path_text(self.target_directory.as_str())
    }
}

} // verus!
