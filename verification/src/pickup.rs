//! Pickup notes: small preparatory actions that run before the main task.

use std::time::{Duration, Instant};
use vstd::prelude::*;

use crate::clock::{duration_nanos, duration_new, instant_elapsed, instant_now};
use crate::metadata::Metadata;

verus! {

/// Criticality of a new pickup note.
pub const DEFAULT_CRITICALITY: u8 = 5;

/// Highest criticality a pickup note can have.
pub const MAX_CRITICALITY: u8 = 10;

/// Criticality from which a pickup note is essential.
pub const ESSENTIAL_CRITICALITY: u8 = 8;

/// Estimated duration of a new pickup note, in nanoseconds (100 ms).
pub const DEFAULT_ESTIMATE_NANOS: u32 = 100_000_000;

/// Where a pickup note stands in its lifecycle.
#[derive(Debug, Clone, PartialEq)]
pub enum PickupStatus {
    /// Not yet started.
    Pending,
    /// Currently executing.
    InProgress,
    /// Successfully completed.
    Completed,
    /// Failed to complete, with the reason.
    Failed(String),
}

/// The status of a pickup note, with the failure reason as text.
pub enum StatusModel {
    Pending,
    InProgress,
    Completed,
    Failed(Seq<char>),
}

impl View for PickupStatus {
    type V = StatusModel;

    open spec fn view(&self) -> StatusModel {
        match self {
            PickupStatus::Pending => StatusModel::Pending,
            PickupStatus::InProgress => StatusModel::InProgress,
            PickupStatus::Completed => StatusModel::Completed,
            PickupStatus::Failed(reason) => StatusModel::Failed(reason@),
        }
    }
}

/// What a pickup note holds, as the contracts speak of it.
pub struct PickupNoteModel {
    pub id: Seq<char>,
    pub description: Seq<char>,
    pub estimated_duration: Duration,
    pub criticality: u8,
    pub status: StatusModel,
    pub dependencies: Seq<Seq<char>>,
    pub started_at: Option<Instant>,
    pub actual_duration: Option<Duration>,
    pub metadata: Map<Seq<char>, Seq<char>>,
}

impl PickupNoteModel {
    /// The note has not started yet.
    pub open spec fn is_pending(self) -> bool {
        self.status is Pending
    }

    /// The note completed successfully.
    pub open spec fn is_completed(self) -> bool {
        self.status is Completed
    }

    /// The note failed.
    pub open spec fn is_failed(self) -> bool {
        self.status is Failed
    }

    /// The note is essential: its criticality is at least 8.
    pub open spec fn is_essential(self) -> bool {
        self.criticality >= ESSENTIAL_CRITICALITY
    }

    /// Estimated duration in nanoseconds.
    pub open spec fn estimate(self) -> nat {
        duration_nanos(self.estimated_duration)
    }

    /// The note after it stopped with `status`: a run that had started gets
    /// a measured duration, one that had not keeps what it had.
    pub open spec fn stopped(self, after: Self, status: StatusModel) -> bool {
        &&& after.status == status
        &&& after.id == self.id
        &&& after.description == self.description
        &&& after.estimated_duration == self.estimated_duration
        &&& after.criticality == self.criticality
        &&& after.dependencies == self.dependencies
        &&& after.started_at == self.started_at
        &&& after.metadata == self.metadata
        &&& (self.started_at is Some ==> after.actual_duration is Some)
        &&& (self.started_at is None ==> after.actual_duration == self.actual_duration)
    }
}

/// The calls that change a pickup note after it is made.
pub enum NoteOp {
    WithDuration(Duration),
    WithCriticality(u8),
    DependsOn(Seq<char>),
    WithMetadata(Seq<char>, Seq<char>),
    Start,
    Complete,
    Fail(Seq<char>),
}

/// What the call `op` makes of a note that held `before`: `after`.
pub open spec fn note_step(before: PickupNoteModel, op: NoteOp, after: PickupNoteModel) -> bool {
    match op {
        NoteOp::WithDuration(d) => after == (PickupNoteModel { estimated_duration: d, ..before }),
        NoteOp::WithCriticality(level) => after == (PickupNoteModel {
            criticality: if level <= MAX_CRITICALITY { level } else { MAX_CRITICALITY },
            ..before
        }),
        NoteOp::DependsOn(id) => after == (PickupNoteModel {
            dependencies: before.dependencies.push(id),
            ..before
        }),
        NoteOp::WithMetadata(k, v) => after == (PickupNoteModel {
            metadata: before.metadata.insert(k, v),
            ..before
        }),
        NoteOp::Start => {
            &&& after.started_at is Some
            &&& after == (PickupNoteModel {
                status: StatusModel::InProgress,
                started_at: after.started_at,
                ..before
            })
        },
        NoteOp::Complete => before.stopped(after, StatusModel::Completed),
        NoteOp::Fail(reason) => before.stopped(after, StatusModel::Failed(reason)),
    }
}

/// A small preparatory action before the main task.
#[derive(Debug, Clone)]
pub struct PickupNote {
    id: String,
    description: String,
    estimated_duration: Duration,
    criticality: u8,
    status: PickupStatus,
    dependencies: Vec<String>,
    started_at: Option<Instant>,
    actual_duration: Option<Duration>,
    metadata: Metadata,
}

impl View for PickupNote {
    type V = PickupNoteModel;

    closed spec fn view(&self) -> PickupNoteModel {
        PickupNoteModel {
            id: self.id@,
            description: self.description@,
            estimated_duration: self.estimated_duration,
            criticality: self.criticality,
            status: self.status@,
            dependencies: self.dependencies@.map_values(|s: String| s@),
            started_at: self.started_at,
            actual_duration: self.actual_duration,
            metadata: self.metadata@,
        }
    }
}

impl PickupNote {
    /// A pending pickup note with a 100 ms estimate, criticality 5, no
    /// dependencies and no metadata.
    pub fn new(id: &str, description: &str) -> (r: Self)
        ensures
            r@.id == id@,
            r@.description == description@,
            r@.estimate() == DEFAULT_ESTIMATE_NANOS,
            r@.criticality == DEFAULT_CRITICALITY,
            r@.status is Pending,
            r@.dependencies == Seq::<Seq<char>>::empty(),
            r@.started_at is None,
            r@.actual_duration is None,
            r@.metadata == Map::<Seq<char>, Seq<char>>::empty(),
    {
        let r = PickupNote {
            id: id.to_owned(),
            description: description.to_owned(),
            estimated_duration: duration_new(0, DEFAULT_ESTIMATE_NANOS),
            criticality: DEFAULT_CRITICALITY,
            status: PickupStatus::Pending,
            dependencies: Vec::new(),
            started_at: None,
            actual_duration: None,
            metadata: Metadata::new(),
        };
        assert(r@.dependencies =~= Seq::<Seq<char>>::empty());
        r
    }

    /// Sets the estimated duration.
    pub fn with_duration(self, duration: Duration) -> (r: Self)
        ensures
            r@ == (PickupNoteModel { estimated_duration: duration, ..self@ }),
            note_step(self@, NoteOp::WithDuration(duration), r@),
    {
        let mut s = self;
        s.estimated_duration = duration;
        s
    }

    /// Sets the criticality, capped at 10.
    pub fn with_criticality(self, level: u8) -> (r: Self)
        ensures
            r@ == (PickupNoteModel {
                criticality: if level <= MAX_CRITICALITY { level } else { MAX_CRITICALITY },
                ..self@
            }),
            note_step(self@, NoteOp::WithCriticality(level), r@),
    {
        let mut s = self;
        s.criticality = if level <= MAX_CRITICALITY { level } else { MAX_CRITICALITY };
        s
    }

    /// Adds a dependency on the pickup note with identifier `id`.
    pub fn depends_on(self, id: &str) -> (r: Self)
        ensures
            r@ == (PickupNoteModel { dependencies: self@.dependencies.push(id@), ..self@ }),
            note_step(self@, NoteOp::DependsOn(id@), r@),
    {
        let mut s = self;
        s.dependencies.push(id.to_owned());
        assert(s@.dependencies =~= self@.dependencies.push(id@));
        s
    }

    /// Sets the metadata entry `key` to `value`.
    pub fn with_metadata(self, key: &str, value: &str) -> (r: Self)
        ensures
            r@ == (PickupNoteModel { metadata: self@.metadata.insert(key@, value@), ..self@ }),
            note_step(self@, NoteOp::WithMetadata(key@, value@), r@),
    {
        let mut s = self;
        s.metadata.insert(key.to_owned(), value.to_owned());
        s
    }

    /// Marks the note as in progress and records when it started.
    pub fn start(&mut self)
        ensures
            final(self)@.started_at is Some,
            final(self)@ == (PickupNoteModel {
                status: StatusModel::InProgress,
                started_at: final(self)@.started_at,
                ..old(self)@
            }),
            note_step(old(self)@, NoteOp::Start, final(self)@),
    {
        self.started_at = Some(instant_now());
        self.status = PickupStatus::InProgress;
    }

    /// Marks the note as completed, measuring its run if it had started.
    pub fn complete(&mut self)
        ensures
            old(self)@.stopped(final(self)@, StatusModel::Completed),
            note_step(old(self)@, NoteOp::Complete, final(self)@),
    {
        match &self.started_at {
            Some(start) => {
                self.actual_duration = Some(instant_elapsed(start));
            },
            None => {},
        }
        self.status = PickupStatus::Completed;
    }

    /// Marks the note as failed with `reason`, measuring its run if it had
    /// started.
    pub fn fail(&mut self, reason: &str)
        ensures
            old(self)@.stopped(final(self)@, StatusModel::Failed(reason@)),
            note_step(old(self)@, NoteOp::Fail(reason@), final(self)@),
    {
        match &self.started_at {
            Some(start) => {
                self.actual_duration = Some(instant_elapsed(start));
            },
            None => {},
        }
        self.status = PickupStatus::Failed(reason.to_owned());
    }

    /// Whether the note is still pending.
    pub fn is_ready(&self) -> (r: bool)
        ensures
            r == self@.is_pending(),
    {
        match self.status {
            PickupStatus::Pending => true,
            _ => false,
        }
    }

    /// Whether the note completed successfully.
    pub fn is_completed(&self) -> (r: bool)
        ensures
            r == self@.is_completed(),
    {
        match self.status {
            PickupStatus::Completed => true,
            _ => false,
        }
    }

    /// Whether the note failed.
    pub fn is_failed(&self) -> (r: bool)
        ensures
            r == self@.is_failed(),
    {
        match self.status {
            PickupStatus::Failed(_) => true,
            _ => false,
        }
    }

    /// The status.
    pub fn status(&self) -> (r: &PickupStatus)
        ensures
            r@ == self@.status,
    {
        &self.status
    }

    /// The identifier.
    pub fn id(&self) -> (r: &str)
        ensures
            r@ == self@.id,
    {
        self.id.as_str()
    }

    /// The description.
    pub fn description(&self) -> (r: &str)
        ensures
            r@ == self@.description,
    {
        self.description.as_str()
    }

    /// The estimated duration.
    pub fn estimated_duration(&self) -> (r: Duration)
        ensures
            r == self@.estimated_duration,
    {
        self.estimated_duration
    }

    /// The measured duration, once the note stopped after it had started.
    pub fn actual_duration(&self) -> (r: Option<Duration>)
        ensures
            r == self@.actual_duration,
    {
        self.actual_duration
    }

    /// The criticality (0 optional, 10 essential).
    pub fn criticality(&self) -> (r: u8)
        ensures
            r == self@.criticality,
    {
        self.criticality
    }

    /// The identifiers of the notes this one depends on.
    pub fn dependencies(&self) -> (r: &[String])
        ensures
            r@.map_values(|s: String| s@) == self@.dependencies,
    {
        self.dependencies.as_slice()
    }

    /// The metadata.
    pub fn metadata(&self) -> (r: &Metadata)
        ensures
            r@ == self@.metadata,
    {
        &self.metadata
    }

    /// Whether the note is essential (criticality at least 8).
    pub fn is_essential(&self) -> (r: bool)
        ensures
            r == self@.is_essential(),
    {
        self.criticality >= ESSENTIAL_CRITICALITY
    }
}

} // verus!
