//! Node queries on the document.

use vstd::prelude::*;

use crate::extension::ArgError;
use crate::host_hooks::HostHandler;

verus! {

/// The document extension.
pub struct DocumentExt;

/// The error that `querySelectorAll`'s arguments raise: there must be one
/// argument, and it must be a string.
pub open spec fn query_selector_all_error(arg_count: usize, selector_is_string: bool) -> Option<
    ArgError,
> {
    if arg_count != 1 {
        Some(ArgError::ExpectedArgs(1))
    } else if !selector_is_string {
        Some(ArgError::ExpectedString)
    } else {
        None
    }
}

impl DocumentExt {
    /// Checks the arguments of `querySelectorAll`: `selector` is the
    /// argument as a string (`None` when it is not one).
    pub fn query_selector_all_args<'a>(arg_count: usize, selector: Option<&'a str>) -> (r: Result<
        &'a str,
        ArgError,
    >)
        ensures
            match r {
                Ok(s) => query_selector_all_error(arg_count, selector is Some) is None && selector
                    == Some(s),
                Err(e) => query_selector_all_error(arg_count, selector is Some) == Some(e),
            },
    {
        if arg_count != 1 {
            return Err(ArgError::ExpectedArgs(1));
        }
        match selector {
            Some(s) => Ok(s),
            None => Err(ArgError::ExpectedString),
        }
    }

    /// The script-side handles of host nodes: each index as a 32-bit
    /// integer, in order (an index beyond 32 bits keeps its low bits).
    pub fn node_handles(ids: &Vec<usize>) -> (r: Vec<u32>)
        ensures
            r@.len() == ids@.len(),
            forall|i: int| 0 <= i < ids@.len() ==> r@[i] == ids@[i] as u32,
    {
        let mut handles: Vec<u32> = Vec::new();
        let mut k: usize = 0;
        while k < ids.len()
            invariant
                k <= ids@.len(),
                handles@.len() == k,
                forall|i: int| 0 <= i < k ==> handles@[i] == ids@[i] as u32,
            decreases ids@.len() - k,
        {
            handles.push(ids[k] as u32);
            k = k + 1;
        }
        handles
    }

    /// `querySelectorAll(selector)` against the host `handler`: the handles
    /// of the matching nodes, or the argument error.
    pub fn internal_query_selector_all<H: HostHandler + ?Sized>(
        handler: &H,
        arg_count: usize,
        selector: Option<&str>,
    ) -> (r: Result<Vec<u32>, ArgError>)
        ensures
            query_selector_all_error(arg_count, selector is Some) matches Some(e) ==> r == Err::<
                Vec<u32>,
                ArgError,
            >(e),
            query_selector_all_error(arg_count, selector is Some) is None ==> r is Ok,
    {
        let s = match Self::query_selector_all_args(arg_count, selector) {
            Ok(s) => s,
            Err(e) => return Err(e),
        };
        let ids = handler.query_selector_all(s);
        Ok(Self::node_handles(&ids))
    }
}

} // verus!
