//! The configuration that the engine is started with, and its validation.

use vstd::prelude::*;
use crate::pattern::{glob_compiles, pattern_compiles};

verus! {

/// What the engine is told at startup. Paths are held as text.
#[derive(Clone, Debug, PartialEq, Eq)]
pub struct DirQDArgs {
    /// Directory to watch.
    pub directory: String,
    /// Command to invoke: the executable, then its leading arguments.
    pub command: Vec<String>,
    /// Files must match this shell pattern.
    pub pattern: String,
    /// After successful processing, move files here.
    pub processed_queue: Option<String>,
    /// After successful processing, delete the file.
    pub delete: bool,
    /// If the command fails, move files here.
    pub error_queue: Option<String>,
    /// If the command fails, delete the file.
    pub delete_on_error: bool,
}

/// The mathematical content of a [`DirQDArgs`].
pub struct Settings {
    pub directory: Seq<char>,
    pub command: Seq<Seq<char>>,
    pub pattern: Seq<char>,
    pub processed_queue: Option<Seq<char>>,
    pub delete: bool,
    pub error_queue: Option<Seq<char>>,
    pub delete_on_error: bool,
}

/// Why a configuration cannot be started.
#[derive(Clone, Copy, Debug, PartialEq, Eq, Structural)]
pub enum ConfigError {
    /// Neither or both of an error queue and delete-on-error were given.
    ErrorQueue,
    /// Neither or both of a processed queue and delete were given.
    ProcessedQueue,
    /// The command has no executable.
    EmptyCommand,
    /// The pattern is no shell pattern.
    BadPattern,
}

/// The characters of each string of `strings`, in order.
pub open spec fn texts(strings: Seq<String>) -> Seq<Seq<char>> {
    strings.map_values(|s: String| s@)
}

/// The characters of an optional string.
pub open spec fn opt_text(s: Option<String>) -> Option<Seq<char>> {
    match s {
        Some(s) => Some(s@),
        None => None,
    }
}

impl View for DirQDArgs {
    type V = Settings;

    open spec fn view(&self) -> Settings {
        Settings {
            directory: self.directory@,
            command: texts(self.command@),
            pattern: self.pattern@,
            processed_queue: opt_text(self.processed_queue),
            delete: self.delete,
            error_queue: opt_text(self.error_queue),
            delete_on_error: self.delete_on_error,
        }
    }
}

impl Settings {
    /// Exactly one of an error queue and delete-on-error is chosen.
    pub open spec fn failure_settled(self) -> bool {
        self.error_queue is Some != self.delete_on_error
    }

    /// Exactly one of a processed queue and delete is chosen.
    pub open spec fn success_settled(self) -> bool {
        self.processed_queue is Some != self.delete
    }

    /// What becomes of a file is settled for both ways a command can end.
    pub open spec fn settled(self) -> bool {
        self.failure_settled() && self.success_settled()
    }

    /// The first fault that [`DirQDArgs::check_dispositions`] reports, if any.
    pub open spec fn disposition_fault(self) -> Option<ConfigError> {
        if !self.failure_settled() {
            Some(ConfigError::ErrorQueue)
        } else if !self.success_settled() {
            Some(ConfigError::ProcessedQueue)
        } else {
            None
        }
    }

    /// The first fault that [`DirQDArgs::validate_with`] reports, if any, given
    /// whether the pattern compiles: a fault of the dispositions first, then a
    /// command without an executable, then the pattern.
    pub open spec fn fault_given(self, compiles: bool) -> Option<ConfigError> {
        if self.disposition_fault() is Some {
            self.disposition_fault()
        } else if self.command.len() == 0 {
            Some(ConfigError::EmptyCommand)
        } else if !compiles {
            Some(ConfigError::BadPattern)
        } else {
            None
        }
    }

    /// The first fault that [`DirQDArgs::validate`] reports, if any.
    pub open spec fn fault(self) -> Option<ConfigError> {
        self.fault_given(glob_compiles(self.pattern))
    }

    /// The engine can be started on these settings.
    pub open spec fn startable(self) -> bool {
        &&& self.settled()
        &&& self.command.len() > 0
        &&& glob_compiles(self.pattern)
    }
}

impl DirQDArgs {
    /// Checks that each of the two disposition pairs has exactly one member set.
    pub fn check_dispositions(&self) -> (checked: Result<(), ConfigError>)
        ensures
            checked is Ok <==> self@.settled(),
            checked is Err ==> Some(checked->Err_0) == self@.disposition_fault(),
    {
        if self.error_queue.is_some() == self.delete_on_error {
            return Err(ConfigError::ErrorQueue);
        }
        if self.processed_queue.is_some() == self.delete {
            return Err(ConfigError::ProcessedQueue);
        }
        Ok(())
    }

    /// Checks everything that must hold before the directory is watched, given
    /// whether the pattern compiles.
    pub fn validate_with(&self, compiles: bool) -> (checked: Result<(), ConfigError>)
        ensures
            checked is Ok <==> self@.fault_given(compiles) is None,
            checked is Err ==> Some(checked->Err_0) == self@.fault_given(compiles),
    {
        match self.check_dispositions() {
            Err(fault) => { return Err(fault); },
            Ok(_) => {},
        }
        if self.command.len() == 0 {
            return Err(ConfigError::EmptyCommand);
        }
        if !compiles {
            return Err(ConfigError::BadPattern);
        }
        Ok(())
    }

    /// Checks everything that must hold before the directory is watched.
    pub fn validate(&self) -> (checked: Result<(), ConfigError>)
        ensures
            checked is Ok <==> self@.startable(),
            checked is Err ==> Some(checked->Err_0) == self@.fault(),
    {
        self.validate_with(pattern_compiles(self.pattern.as_str()))
    }
}

} // verus!
