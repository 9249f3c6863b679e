use vstd::prelude::*;

use crate::fill_mode::FillMode;

verus! {

/// Seconds between two images until a rotation is started.
pub const DEFAULT_PERIOD_SECS: u64 = 3600;

/// A rotation configuration as plain values.
pub struct RotationView {
    pub directory: Option<Seq<char>>,
    pub enabled: bool,
    pub period_secs: u64,
    pub screen: u32,
    pub fill_mode: FillMode,
}

/// The configuration that the command service writes and the scheduler reads.
///
/// Its fields are replaced together or read together, never one at a time,
/// so a reader never pairs one command's directory with another's period.
pub struct RotationConfig {
    directory: Option<String>,
    enabled: bool,
    period_secs: u64,
    screen: u32,
    fill_mode: FillMode,
}

impl View for RotationConfig {
    type V = RotationView;

    closed spec fn view(&self) -> RotationView {
        RotationView {
            directory: match self.directory {
                Some(d) => Some(d@),
                None => None,
            },
            enabled: self.enabled,
            period_secs: self.period_secs,
            screen: self.screen,
            fill_mode: self.fill_mode,
        }
    }
}

/// The configuration a daemon starts with: disabled, hourly, first screen, cropped.
pub open spec fn initial_config() -> RotationView {
    RotationView {
        directory: None,
        enabled: false,
        period_secs: DEFAULT_PERIOD_SECS,
        screen: 0,
        fill_mode: FillMode::Crop,
    }
}

/// The whole record that starting a rotation writes.
pub open spec fn started(
    directory: Seq<char>,
    screen: u32,
    fill_mode: FillMode,
    period_secs: u64,
) -> RotationView {
    RotationView { directory: Some(directory), enabled: true, period_secs, screen, fill_mode }
}

/// The record after stopping: everything kept but the flag.
pub open spec fn stopped(c: RotationView) -> RotationView {
    RotationView { enabled: false, ..c }
}

/// Whether the scheduler has a directory to rotate through.
pub open spec fn is_rotating(c: RotationView) -> bool {
    c.enabled && c.directory is Some
}

impl RotationConfig {
    pub fn new() -> (r: RotationConfig)
        ensures
            r@ == initial_config(),
    {
        RotationConfig {
            directory: None,
            enabled: false,
            period_secs: DEFAULT_PERIOD_SECS,
            screen: 0,
            fill_mode: FillMode::Crop,
        }
    }

    /// Replaces every field at once and turns rotation on.
    pub fn start_rotation(
        &mut self,
        directory: String,
        screen: u32,
        fill_mode: FillMode,
        period_secs: u64,
    ) -> (r: bool)
        ensures
            r,
            final(self)@ == started(directory@, screen, fill_mode, period_secs),
    {
        *self = RotationConfig {
            directory: Some(directory),
            enabled: true,
            period_secs,
            screen,
            fill_mode,
        };
        true
    }

    /// Turns rotation off and keeps the rest.
    pub fn stop_rotation(&mut self) -> (r: bool)
        ensures
            r,
            final(self)@ == stopped(old(self)@),
    {
        self.enabled = false;
        true
    }

    /// A copy of the whole record.
    pub fn snapshot(&self) -> (r: RotationConfig)
        ensures
            r@ == self@,
    {
        let directory = match &self.directory {
            Some(d) => Some(d.clone()),
            None => None,
        };
        RotationConfig {
            directory,
            enabled: self.enabled,
            period_secs: self.period_secs,
            screen: self.screen,
            fill_mode: self.fill_mode,
        }
    }

    pub fn is_rotating(&self) -> (r: bool)
        ensures
            r == is_rotating(self@),
    {
        self.enabled && self.directory.is_some()
    }

    pub fn directory(&self) -> (r: Option<String>)
        ensures
            self@.directory == match r {
                Some(d) => Some(d@),
                None => None::<Seq<char>>,
            },
    {
        match &self.directory {
            Some(d) => Some(d.clone()),
            None => None,
        }
    }

    pub fn enabled(&self) -> (r: bool)
        ensures
            r == self@.enabled,
    {
        self.enabled
    }

    pub fn period_secs(&self) -> (r: u64)
        ensures
            r == self@.period_secs,
    {
        self.period_secs
    }

    pub fn screen(&self) -> (r: u32)
        ensures
            r == self@.screen,
    {
        self.screen
    }

    pub fn fill_mode(&self) -> (r: FillMode)
        ensures
            r == self@.fill_mode,
    {
        self.fill_mode
    }
}

/// Two commands racing on the configuration leave the whole record of the one
/// applied last, never a mix of both. A start applied after a stop leaves the
/// started record whatever came before; a stop applied after a start leaves
/// every field of that start with rotation off, and nothing of the record that
/// the start replaced.
pub proof fn lemma_last_command_wins(
    prior: RotationView,
    directory: Seq<char>,
    screen: u32,
    fill_mode: FillMode,
    period_secs: u64,
)
    ensures
        stopped(started(directory, screen, fill_mode, period_secs)) == (RotationView {
            directory: Some(directory),
            enabled: false,
            period_secs,
            screen,
            fill_mode,
        }),
        started(directory, screen, fill_mode, period_secs) == (RotationView {
            directory: Some(directory),
            enabled: true,
            period_secs,
            screen,
            fill_mode,
        }),
        !stopped(prior).enabled,
{
}

} // verus!
