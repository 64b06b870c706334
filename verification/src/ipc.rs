//! The antivirus guard: whether scanning is on, where the scanner lives,
//! and the results a scan gives.

use vstd::prelude::*;

use crate::text::owned;
use crate::plugin_error::text2;

verus! {

/// Kinds of threat.
#[derive(Debug, Clone, Copy, PartialEq, Eq, Structural)]
pub enum ThreatType {
    Virus,
    Malware,
    Trojan,
    Worm,
    Spyware,
    Adware,
    Unknown,
}

/// How serious a threat is.
#[derive(Debug, Clone, Copy, PartialEq, Eq, Structural)]
pub enum Severity {
    Low,
    Medium,
    High,
    Critical,
}

/// A threat found by a scan.
#[derive(Debug, Clone)]
pub struct Threat {
    pub name: String,
    pub threat_type: ThreatType,
    pub severity: Severity,
}

/// What a scan found.
#[derive(Debug, Clone)]
pub struct ScanResult {
    /// Whether the scanned data is clean.
    pub clean: bool,
    pub threats: Vec<Threat>,
    /// Whether a scan took place.
    pub scanned: bool,
}

/// The antivirus guard.
pub struct IPCGuard {
    enabled: bool,
    antivirus_path: Option<String>,
}

impl IPCGuard {
    /// Whether scanning is on.
    pub closed spec fn is_enabled(&self) -> bool {
        self.enabled
    }

    /// Where the antivirus scanner lives, if set.
    pub closed spec fn scanner_path(&self) -> Option<Seq<char>> {
        match self.antivirus_path {
            Some(p) => Some(p@),
            None => None,
        }
    }

    /// A guard with scanning on and no scanner path.
    pub fn new() -> (g: IPCGuard)
        ensures
            g.is_enabled(),
            g.scanner_path() is None,
    {
        IPCGuard { enabled: true, antivirus_path: None }
    }

    /// Turns scanning on or off.
    pub fn set_enabled(&mut self, enabled: bool)
        ensures
            final(self).is_enabled() == enabled,
            final(self).scanner_path() == old(self).scanner_path(),
    {
        self.enabled = enabled;
    }

    /// Sets where the antivirus scanner lives.
    pub fn set_antivirus_path(&mut self, path: &str)
        ensures
            final(self).scanner_path() == Some(path@),
            final(self).is_enabled() == old(self).is_enabled(),
    {
        self.antivirus_path = Some(owned(path));
    }

    /// Scans the file at `path`, given whether a file is there. With
    /// scanning off nothing is looked at and the file counts as clean and
    /// unscanned; with it on, a missing file is an error naming the path,
    /// and any other file comes back clean and scanned (no scanner is
    /// wired in).
    pub fn scan_file(&self, path: &str, exists: bool) -> (r: Result<ScanResult, String>)
        ensures
            !self.is_enabled() ==> (r matches Ok(s) && s.clean && !s.scanned && s.threats@.len() == 0),
            self.is_enabled() && !exists ==> (r matches Err(m) && m@ == "File not found: "@ + path@),
            self.is_enabled() && exists ==> (r matches Ok(s) && s.clean && s.scanned && s.threats@.len() == 0),
    {
        if !self.enabled {
            return Ok(ScanResult { clean: true, threats: Vec::new(), scanned: false });
        }
        if !exists {
            return Err(text2("File not found: ", path));
        }
        Ok(ScanResult { clean: true, threats: Vec::new(), scanned: true })
    }

    /// Scans a buffer. No scanner is wired in, so every buffer comes back
    /// clean; it counts as scanned exactly when scanning is on.
    pub fn scan_buffer(&self, data: &[u8]) -> (r: ScanResult)
        ensures
            r.clean,
            r.scanned == self.is_enabled(),
            r.threats@.len() == 0,
    {
        ScanResult { clean: true, threats: Vec::new(), scanned: self.enabled }
    }
}

impl Default for IPCGuard {
    fn default() -> (g: IPCGuard)
        ensures
            g.is_enabled(),
            g.scanner_path() is None,
    {
        IPCGuard::new()
    }
}

} // verus!
