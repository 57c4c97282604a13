//! `setTimeout` and `clearTimeout`.

use std::future::Future;

use vstd::prelude::*;

use crate::extension::ArgError;
use crate::host_data::HostData;
use crate::runtime::{BlitzMacroTask, MacroTask};
use crate::timeout::TimeoutId;

verus! {

/// The timer extension.
pub struct TimeExt;

/// The error that `setTimeout`'s arguments raise, checked in this order:
/// there must be at least two arguments, the first must be callable, and the
/// second must convert to an integer.
pub open spec fn set_timeout_error(arg_count: usize, callback_is_callable: bool, time_ms: Option<
    u32,
>) -> Option<ArgError> {
    if arg_count < 2 {
        Some(ArgError::ExpectedArgs(2))
    } else if !callback_is_callable {
        Some(ArgError::ExpectedFunction)
    } else if time_ms is None {
        Some(ArgError::ExpectedInt)
    } else {
        None
    }
}

impl TimeExt {
    /// Checks the arguments of `setTimeout`: `time_ms` is the second
    /// argument converted to an integer (`None` when that failed). Returns
    /// the delay in milliseconds.
    pub fn set_timeout_args(arg_count: usize, callback_is_callable: bool, time_ms: Option<u32>) -> (r:
        Result<u32, ArgError>)
        ensures
            match r {
                Ok(ms) => set_timeout_error(arg_count, callback_is_callable, time_ms) is None
                    && time_ms == Some(ms),
                Err(e) => set_timeout_error(arg_count, callback_is_callable, time_ms) == Some(e),
            },
    {
        if arg_count < 2 {
            return Err(ArgError::ExpectedArgs(2));
        }
        if !callback_is_callable {
            return Err(ArgError::ExpectedFunction);
        }
        match time_ms {
            Some(ms) => Ok(ms),
            None => Err(ArgError::ExpectedInt),
        }
    }

    /// `setTimeout(callback, time_ms)`: registers a timer that waits
    /// `time_ms` milliseconds, owns `callback`, and is backed by the
    /// background work that `work` builds for the new identifier. Returns the
    /// identifier for script code, or `None`, with nothing changed, once the
    /// identifier spaces are used up.
    pub fn set_timeout<C, W, F>(host: &mut HostData<C>, callback: C, time_ms: u32, work: W) -> (r:
        Option<TimeoutId>) where
        W: FnOnce(TimeoutId) -> F,
        F: Future<Output = ()> + Send + 'static,

        requires
            old(host).wf(),
            forall|id: TimeoutId| call_requires(work, (id,)),
        ensures
            final(host).wf(),
            r is Some <==> old(host).spec_can_register(),
            r is None ==> final(host).unchanged_from(*old(host)),
            r matches Some(id) ==> final(host).registered_from(
                *old(host),
                id,
                time_ms as u64,
                callback,
            ),
            r matches Some(id) ==> exists|fut: F| #[trigger] call_ensures(work, (id,), fut),
    {
        host.register_timeout(time_ms as u64, callback, work)
    }

    /// `clearTimeout(timeout_id)`: the cancel envelope for the timer whose
    /// index script code passed. Any number is accepted: one that names no
    /// pending timer makes a stale envelope, which changes nothing.
    pub fn clear_timeout(timeout_id: u32) -> (r: MacroTask)
        ensures
            r == MacroTask::Script(BlitzMacroTask::ClearTimeout(r.spec_timeout())),
            r.spec_timeout()@ == timeout_id,
    {
        MacroTask::Script(BlitzMacroTask::ClearTimeout(TimeoutId::from_index(timeout_id)))
    }
}

} // verus!
