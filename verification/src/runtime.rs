//! How the service's shutdown ends: which outcome each way of stopping reports.
use vstd::prelude::*;
use crate::presentation::outbox_worker_pool::OutboxWorkerPoolConfigError;

verus! {

#[verifier::external_type_specification]
#[verifier::external_body]
pub struct ExIoError(std::io::Error);

#[verifier::external_type_specification]
#[verifier::external_body]
pub struct ExJoinError(tokio::task::JoinError);

/// How the outbox supervisor task ended: its own result, or the join error of a task that
/// panicked or was cancelled.
pub type WorkerExit = Result<Result<(), OutboxWorkerPoolConfigError>, tokio::task::JoinError>;

/// Why the service stopped with an error.
#[derive(Debug)]
pub enum RuntimeError {
    /// The shutdown signal could not be observed.
    ShutdownSignal(std::io::Error),
    /// The HTTP server failed.
    HttpServer(std::io::Error),
    /// The HTTP server ended before shutdown was requested.
    HttpServerStopped,
    /// The outbox supervisor task panicked or was cancelled.
    OutboxSupervisorTask(tokio::task::JoinError),
    /// The outbox supervisor refused its configuration.
    OutboxSupervisor(OutboxWorkerPoolConfigError),
    /// The outbox supervisor ended before shutdown was requested.
    OutboxSupervisorStopped,
}

/// After shutdown was requested the server is expected to end; an error it ends with is
/// reported.
pub fn expected_server_exit(result: Result<(), std::io::Error>) -> (outcome: Result<(), RuntimeError>)
    ensures
        match result {
            Ok(()) => outcome is Ok,
            Err(error) => outcome matches Err(RuntimeError::HttpServer(e)) && e == error,
        },
{
    match result {
        Ok(()) => Ok(()),
        Err(error) => Err(RuntimeError::HttpServer(error)),
    }
}

/// After shutdown was requested the supervisor is expected to end; a configuration error or
/// a failed task is reported.
pub fn expected_worker_exit(result: WorkerExit) -> (outcome: Result<(), RuntimeError>)
    ensures
        match result {
            Ok(Ok(())) => outcome is Ok,
            Ok(Err(error)) => outcome == Err::<(), RuntimeError>(RuntimeError::OutboxSupervisor(error)),
            Err(error) => outcome matches Err(RuntimeError::OutboxSupervisorTask(e)) && e == error,
        },
{
    match result {
        Ok(Ok(())) => Ok(()),
        Ok(Err(error)) => Err(RuntimeError::OutboxSupervisor(error)),
        Err(error) => Err(RuntimeError::OutboxSupervisorTask(error)),
    }
}

/// The supervisor ending before shutdown is always an error: a clean end is reported as
/// a premature stop, any other end as it is.
pub fn unexpected_worker_exit(result: WorkerExit) -> (outcome: Result<(), RuntimeError>)
    ensures
        match result {
            Ok(Ok(())) => outcome matches Err(RuntimeError::OutboxSupervisorStopped),
            Ok(Err(error)) => outcome == Err::<(), RuntimeError>(RuntimeError::OutboxSupervisor(error)),
            Err(error) => outcome matches Err(RuntimeError::OutboxSupervisorTask(e)) && e == error,
        },
{
    match result {
        Ok(Ok(())) => Err(RuntimeError::OutboxSupervisorStopped),
        other => expected_worker_exit(other),
    }
}

/// The HTTP server ending before shutdown is always an error: a clean end is reported as
/// a premature stop, a failure as it is.
pub fn unexpected_server_exit(result: Result<(), std::io::Error>) -> (outcome: Result<(), RuntimeError>)
    ensures
        match result {
            Ok(()) => outcome matches Err(RuntimeError::HttpServerStopped),
            Err(error) => outcome matches Err(RuntimeError::HttpServer(e)) && e == error,
        },
{
    match result {
        Ok(()) => Err(RuntimeError::HttpServerStopped),
        Err(error) => Err(RuntimeError::HttpServer(error)),
    }
}

/// The outcome of a shutdown started by the signal, once both components have drained:
/// a signal error first, then a server error, then the supervisor's end.
pub fn signal_shutdown_outcome(
    signal: Result<(), std::io::Error>,
    server: Result<(), std::io::Error>,
    worker: WorkerExit,
) -> (outcome: Result<(), RuntimeError>)
    ensures
        signal_shutdown_outcome_spec(signal, server, worker, outcome),
{
    if let Err(error) = signal {
        return Err(RuntimeError::ShutdownSignal(error));
    }
    match expected_server_exit(server) {
        Ok(()) => expected_worker_exit(worker),
        Err(error) => Err(error),
    }
}

/// What `signal_shutdown_outcome` answers for these results.
pub open spec fn signal_shutdown_outcome_spec(
    signal: Result<(), std::io::Error>,
    server: Result<(), std::io::Error>,
    worker: WorkerExit,
    outcome: Result<(), RuntimeError>,
) -> bool {
    match signal {
        Err(error) => outcome matches Err(RuntimeError::ShutdownSignal(e)) && e == error,
        Ok(()) => match server {
            Err(error) => outcome matches Err(RuntimeError::HttpServer(e)) && e == error,
            Ok(()) => match worker {
                Ok(Ok(())) => outcome is Ok,
                Ok(Err(error)) => outcome == Err::<(), RuntimeError>(RuntimeError::OutboxSupervisor(error)),
                Err(error) => outcome matches Err(RuntimeError::OutboxSupervisorTask(e)) && e == error,
            },
        },
    }
}

} // verus!
