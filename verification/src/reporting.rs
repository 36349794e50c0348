//! The runtime metrics reported to the analytics platform.

use vstd::prelude::*;

verus! {

/// Everything sent to the analytics platform for platform health monitoring.
#[derive(Debug, Clone, Copy, PartialEq, Eq)]
pub enum Event {
    /// The registrar heard from devices on the incoming queue.
    DeviceDiganosticBatchIngested {
        /// The amount of devices processed.
        device_count: u16,
    },
    /// The registrar finished working a batch of jobs.
    JobBatchProcessed {
        /// The amount of jobs processed.
        job_count: u16,
    },
    /// A sample of the length of the job queue.
    JobQueueLengthSample {
        /// The length of our job queue.
        queue_length: u16,
    },
}

/// The event name under which the analytics platform receives an event.
pub open spec fn spec_event_type(event: Event) -> Seq<char> {
    match event {
        Event::DeviceDiganosticBatchIngested { .. } => "deviceDiagnosticIngestionBatch"@,
        Event::JobBatchProcessed { .. } => "registrarJobBatchProcessed"@,
        Event::JobQueueLengthSample { .. } => "registrarJobQueueSample"@,
    }
}

/// The event name under which the analytics platform receives an event.
pub fn event_type(event: &Event) -> (name: &'static str)
    ensures
        name@ == spec_event_type(*event),
{
    match event {
        Event::DeviceDiganosticBatchIngested { .. } => "deviceDiagnosticIngestionBatch",
        Event::JobBatchProcessed { .. } => "registrarJobBatchProcessed",
        Event::JobQueueLengthSample { .. } => "registrarJobQueueSample",
    }
}

} // verus!
