//! The bootstrap state machine.
//!
//! One bootstrap run is a strictly sequential dialogue between this machine
//! and the surrounding process: the machine decides the next step, the
//! process performs it (network fetch, filesystem write, protocol
//! registration) and reports the outcome back as an event. The machine fixes
//! the order of the pipeline — version gate, then one download and one
//! extraction per channel, then marker write, self-copy and protocol
//! registration — and which failures are fatal:
//!
//! - a version fetch, archive fetch or archive-container failure aborts the
//!   run at once, before the marker is ever written;
//! - a marker-write or self-copy failure is best effort and never stops the
//!   run;
//! - a protocol-registration failure is fatal, although the marker and the
//!   copied launcher may by then already be on disk.

use vstd::prelude::*;
use crate::version::{marker_matches, opt_text, is_current};

verus! {

/// Why a bootstrap run failed.
#[derive(Clone, Copy, PartialEq, Eq, Structural, Debug)]
pub enum BootstrapError {
    /// The version fetch or an archive fetch failed.
    Network,
    /// A downloaded buffer was not a valid archive container.
    ArchiveFormat,
    /// Protocol-handler registration failed.
    Registration,
}

/// Where the machine stands in the pipeline.
#[derive(Clone, Copy, PartialEq, Eq, Structural, Debug)]
pub enum Phase {
    /// Waiting for the remote token and the local marker.
    Gating,
    /// Waiting for the archive of this channel.
    Downloading { channel: usize },
    /// Waiting for the extraction outcome of this channel.
    Extracting { channel: usize },
    /// Waiting for the outcome of the marker write.
    WritingMarker,
    /// Waiting for the outcome of the self-copy.
    CopyingLauncher,
    /// Waiting for the outcome of the protocol registration.
    Registering,
    /// The run ended; `updated` tells whether anything was installed.
    Done { updated: bool },
    /// The run ended with a fatal error.
    Failed { error: BootstrapError },
}

/// What the surrounding process reports back.
pub enum Event {
    /// The remote token (`None` on a network failure) and the local marker
    /// (`None` when missing or unreadable).
    VersionChecked { remote: Option<String>, marker: Option<String> },
    /// Whether the archive of the current channel arrived.
    ArchiveFetched { ok: bool },
    /// Whether the downloaded buffer opened as an archive container.
    ArchiveExtracted { ok: bool },
    /// Whether the version marker was persisted.
    MarkerWritten { ok: bool },
    /// Whether the running executable was copied into the install root.
    LauncherCopied { ok: bool },
    /// Whether the URI scheme was registered.
    ProtocolRegistered { ok: bool },
}

/// What the surrounding process must do next.
#[derive(Clone, Copy, PartialEq, Eq, Structural, Debug)]
pub enum Action {
    /// Fetch the remote version token and read the local marker.
    CheckVersion,
    /// Nothing is stale: open the post-install page and finish.
    OpenPostInstall,
    /// Fetch the archive of this channel.
    FetchArchive { channel: usize },
    /// Extract the fetched archive of this channel.
    ExtractArchive { channel: usize },
    /// Persist the new version marker (best effort).
    WriteMarker,
    /// Copy the running executable into the install root (best effort).
    CopyLauncher,
    /// Register the URI scheme for the copied launcher.
    RegisterProtocol,
    /// The run has ended; nothing further is performed.
    Halt,
}

/// The bootstrap machine: the pipeline phase plus what has already been
/// attempted, over a fixed number of channels.
#[derive(Clone, Copy, PartialEq, Eq, Structural, Debug)]
pub struct Machine {
    /// How many channels this run covers.
    pub channel_count: usize,
    /// Where the run stands.
    pub phase: Phase,
    /// Whether the marker write has been handed to the process.
    pub marker_write_attempted: bool,
    /// Whether the self-copy has been handed to the process.
    pub copy_attempted: bool,
}

/// The transition relation of the machine, one event at a time.
pub open spec fn spec_step(m: Machine, e: Event) -> (Machine, Action) {
    match (m.phase, e) {
        (Phase::Gating, Event::VersionChecked { remote, marker }) => match remote {
            None => (
                Machine { phase: Phase::Failed { error: BootstrapError::Network }, ..m },
                Action::Halt,
            ),
            Some(v) => if marker_matches(opt_text(marker), v@) {
                (Machine { phase: Phase::Done { updated: false }, ..m }, Action::OpenPostInstall)
            } else if m.channel_count == 0 {
                (Machine { phase: Phase::WritingMarker, ..m }, Action::WriteMarker)
            } else {
                (
                    Machine { phase: Phase::Downloading { channel: 0 }, ..m },
                    Action::FetchArchive { channel: 0 },
                )
            },
        },
        (Phase::Downloading { channel }, Event::ArchiveFetched { ok }) => if ok {
            (
                Machine { phase: Phase::Extracting { channel }, ..m },
                Action::ExtractArchive { channel },
            )
        } else {
            (
                Machine { phase: Phase::Failed { error: BootstrapError::Network }, ..m },
                Action::Halt,
            )
        },
        (Phase::Extracting { channel }, Event::ArchiveExtracted { ok }) => if !ok {
            (
                Machine { phase: Phase::Failed { error: BootstrapError::ArchiveFormat }, ..m },
                Action::Halt,
            )
        } else if channel + 1 < m.channel_count {
            (
                Machine { phase: Phase::Downloading { channel: (channel + 1) as usize }, ..m },
                Action::FetchArchive { channel: (channel + 1) as usize },
            )
        } else {
            (Machine { phase: Phase::WritingMarker, ..m }, Action::WriteMarker)
        },
        (Phase::WritingMarker, Event::MarkerWritten { .. }) => (
            Machine { phase: Phase::CopyingLauncher, marker_write_attempted: true, ..m },
            Action::CopyLauncher,
        ),
        (Phase::CopyingLauncher, Event::LauncherCopied { .. }) => (
            Machine { phase: Phase::Registering, copy_attempted: true, ..m },
            Action::RegisterProtocol,
        ),
        (Phase::Registering, Event::ProtocolRegistered { ok }) => if ok {
            (Machine { phase: Phase::Done { updated: true }, ..m }, Action::Halt)
        } else {
            (
                Machine { phase: Phase::Failed { error: BootstrapError::Registration }, ..m },
                Action::Halt,
            )
        },
        _ => (m, Action::Halt),
    }
}

/// What always holds of a machine between steps.
pub open spec fn wf(m: Machine) -> bool {
    &&& (m.phase matches Phase::Downloading { channel } ==> channel < m.channel_count)
    &&& (m.phase matches Phase::Extracting { channel } ==> channel < m.channel_count)
    &&& (m.phase is CopyingLauncher ==> m.marker_write_attempted)
    &&& (m.phase is Registering ==> m.marker_write_attempted && m.copy_attempted)
    &&& ((m.phase is Gating || m.phase is Downloading || m.phase is Extracting)
        ==> !m.marker_write_attempted && !m.copy_attempted)
}

/// The actions of a whole run: the machine consumes the events in order and
/// issues one action for each.
pub open spec fn run(m: Machine, events: Seq<Event>) -> Seq<Action>
    decreases events.len(),
{
    if events.len() == 0 {
        Seq::empty()
    } else {
        let (m2, a) = spec_step(m, events[0]);
        seq![a] + run(m2, events.skip(1))
    }
}

impl Machine {
    /// A fresh machine for one bootstrap run over `channel_count` channels;
    /// the first thing the process must do is check the version.
    pub fn new(channel_count: usize) -> (r: (Machine, Action))
        ensures
            r.0 == (Machine {
                channel_count,
                phase: Phase::Gating,
                marker_write_attempted: false,
                copy_attempted: false,
            }),
            wf(r.0),
            r.1 == Action::CheckVersion,
    {
        (
            Machine {
                channel_count,
                phase: Phase::Gating,
                marker_write_attempted: false,
                copy_attempted: false,
            },
            Action::CheckVersion,
        )
    }

    /// Consumes one event and returns the next action, exactly as the
    /// transition relation prescribes.
    pub fn step(&mut self, event: Event) -> (a: Action)
        requires
            wf(*old(self)),
        ensures
            (*final(self), a) == spec_step(*old(self), event),
            wf(*final(self)),
    {
        match (self.phase, event) {
            (Phase::Gating, Event::VersionChecked { remote, marker }) => match remote {
                None => {
                    self.phase = Phase::Failed { error: BootstrapError::Network };
                    Action::Halt
                },
                Some(v) => {
                    if is_current(&marker, &v) {
                        self.phase = Phase::Done { updated: false };
                        Action::OpenPostInstall
                    } else if self.channel_count == 0 {
                        self.phase = Phase::WritingMarker;
                        Action::WriteMarker
                    } else {
                        self.phase = Phase::Downloading { channel: 0 };
                        Action::FetchArchive { channel: 0 }
                    }
                },
            },
            (Phase::Downloading { channel }, Event::ArchiveFetched { ok }) => {
                if ok {
                    self.phase = Phase::Extracting { channel };
                    Action::ExtractArchive { channel }
                } else {
                    self.phase = Phase::Failed { error: BootstrapError::Network };
                    Action::Halt
                }
            },
            (Phase::Extracting { channel }, Event::ArchiveExtracted { ok }) => {
                if !ok {
                    self.phase = Phase::Failed { error: BootstrapError::ArchiveFormat };
                    Action::Halt
                } else if channel + 1 < self.channel_count {
                    self.phase = Phase::Downloading { channel: channel + 1 };
                    Action::FetchArchive { channel: channel + 1 }
                } else {
                    self.phase = Phase::WritingMarker;
                    Action::WriteMarker
                }
            },
            (Phase::WritingMarker, Event::MarkerWritten { .. }) => {
                self.phase = Phase::CopyingLauncher;
                self.marker_write_attempted = true;
                Action::CopyLauncher
            },
            (Phase::CopyingLauncher, Event::LauncherCopied { .. }) => {
                self.phase = Phase::Registering;
                self.copy_attempted = true;
                Action::RegisterProtocol
            },
            (Phase::Registering, Event::ProtocolRegistered { ok }) => {
                if ok {
                    self.phase = Phase::Done { updated: true };
                } else {
                    self.phase = Phase::Failed { error: BootstrapError::Registration };
                }
                Action::Halt
            },
            _ => Action::Halt,
        }
    }
}

/// Every step preserves well-formedness.
pub proof fn lemma_step_preserves_wf(m: Machine, e: Event)
    requires
        wf(m),
    ensures
        wf(spec_step(m, e).0),
{
}

/// A machine whose run has ended — successfully or not — issues no further
/// action, whatever events still arrive.
pub proof fn lemma_ended_run_halts(m: Machine, events: Seq<Event>)
    requires
        m.phase is Done || m.phase is Failed,
    ensures
        forall|k: int| 0 <= k < run(m, events).len() ==> run(m, events)[k] == Action::Halt,
    decreases events.len(),
{
    if events.len() > 0 {
        let (m2, a) = spec_step(m, events[0]);
        lemma_ended_run_halts(m2, events.skip(1));
    }
}

/// A failed channel download is fatal: the machine reports a network error
/// and never issues another action — in particular the marker write, which
/// only ever happens on the WriteMarker action, can no longer occur, so the
/// version marker is left untouched.
pub proof fn lemma_download_failure_aborts(m: Machine, events: Seq<Event>)
    requires
        wf(m),
        m.phase is Downloading,
    ensures
        ({
            let (m2, a) = spec_step(m, Event::ArchiveFetched { ok: false });
            &&& m2.phase == (Phase::Failed { error: BootstrapError::Network })
            &&& a == Action::Halt
            &&& !m2.marker_write_attempted
            &&& forall|k: int|
                0 <= k < run(m2, events).len() ==> run(m2, events)[k] == Action::Halt
        }),
{
    let (m2, a) = spec_step(m, Event::ArchiveFetched { ok: false });
    lemma_ended_run_halts(m2, events);
}

/// Re-running the bootstrap when the local marker already equals the remote
/// token is a no-op beyond the version check: the machine goes straight to
/// Done and the rest of the run issues no archive fetch, no extraction and
/// no finalization step.
pub proof fn lemma_current_version_is_noop(
    m: Machine,
    remote: String,
    marker: Option<String>,
    events: Seq<Event>,
)
    requires
        m.phase is Gating,
        marker_matches(opt_text(marker), remote@),
    ensures
        ({
            let (m2, a) = spec_step(m, Event::VersionChecked { remote: Some(remote), marker });
            &&& m2.phase == (Phase::Done { updated: false })
            &&& a == Action::OpenPostInstall
            &&& forall|k: int|
                0 <= k < run(m2, events).len() ==> run(m2, events)[k] == Action::Halt
        }),
{
    let (m2, a) = spec_step(m, Event::VersionChecked { remote: Some(remote), marker });
    lemma_ended_run_halts(m2, events);
}

/// Finalization order: the machine asks for protocol registration only after
/// the marker write and the self-copy were already attempted. When
/// registration then fails, the run reports failure even though the marker
/// and the copied launcher may already be on disk.
pub proof fn lemma_registration_failure_after_persistence(m: Machine)
    requires
        wf(m),
        m.phase is Registering,
    ensures
        m.marker_write_attempted,
        m.copy_attempted,
        ({
            let (m2, a) = spec_step(m, Event::ProtocolRegistered { ok: false });
            &&& m2.phase == (Phase::Failed { error: BootstrapError::Registration })
            &&& a == Action::Halt
            &&& m2.marker_write_attempted
            &&& m2.copy_attempted
        }),
{
}

} // verus!
