//! The recording adaptor around a permission source. Its fields are
//! private to this module, so a holder can reach the source only through
//! these methods; each makes exactly its own native call and records it,
//! with the answer, at the end of the log.

use vstd::prelude::*;

use crate::permissions::{NativeStatus, PermissionSource, SourceCall};

verus! {

/// A permission source together with the record of every call made on it.
pub struct LoggedSource<S> {
    source: S,
    log: Ghost<Seq<SourceCall>>,
}

impl<S: PermissionSource> LoggedSource<S> {
    /// The calls made on the source through this adaptor, in order, with
    /// their answers.
    pub closed spec fn log(&self) -> Seq<SourceCall> {
        self.log@
    }

    /// Takes the source over; no call has been made through it yet.
    pub fn new(source: S) -> (r: Self)
        ensures
            r.log() == Seq::<SourceCall>::empty(),
    {
        LoggedSource { source, log: Ghost(Seq::empty()) }
    }

    /// Queries the Input Monitoring status.
    pub fn input_monitoring_status(&mut self) -> (r: NativeStatus)
        ensures
            final(self).log() == old(self).log().push(SourceCall::InputMonitoringStatus(r)),
    {
        let r = self.source.input_monitoring_status();
        proof {
            self.log@ = self.log@.push(SourceCall::InputMonitoringStatus(r));
        }
        r
    }

    /// Sends the Input Monitoring request.
    pub fn request_input_monitoring(&mut self) -> (r: NativeStatus)
        ensures
            final(self).log() == old(self).log().push(SourceCall::InputMonitoringRequest(r)),
    {
        let r = self.source.request_input_monitoring();
        proof {
            self.log@ = self.log@.push(SourceCall::InputMonitoringRequest(r));
        }
        r
    }

    /// Queries the Accessibility status.
    pub fn accessibility_status(&mut self) -> (r: NativeStatus)
        ensures
            final(self).log() == old(self).log().push(SourceCall::AccessibilityStatus(r)),
    {
        let r = self.source.accessibility_status();
        proof {
            self.log@ = self.log@.push(SourceCall::AccessibilityStatus(r));
        }
        r
    }

    /// Sends the Accessibility request.
    pub fn request_accessibility(&mut self) -> (r: NativeStatus)
        ensures
            final(self).log() == old(self).log().push(SourceCall::AccessibilityRequest(r)),
    {
        let r = self.source.request_accessibility();
        proof {
            self.log@ = self.log@.push(SourceCall::AccessibilityRequest(r));
        }
        r
    }

    /// Queries the Screen Recording status.
    pub fn screen_recording_status(&mut self) -> (r: NativeStatus)
        ensures
            final(self).log() == old(self).log().push(SourceCall::ScreenRecordingStatus(r)),
    {
        let r = self.source.screen_recording_status();
        proof {
            self.log@ = self.log@.push(SourceCall::ScreenRecordingStatus(r));
        }
        r
    }

    /// Sends the Screen Recording request.
    pub fn request_screen_recording(&mut self) -> (r: NativeStatus)
        ensures
            final(self).log() == old(self).log().push(SourceCall::ScreenRecordingRequest(r)),
    {
        let r = self.source.request_screen_recording();
        proof {
            self.log@ = self.log@.push(SourceCall::ScreenRecordingRequest(r));
        }
        r
    }
}

} // verus!
