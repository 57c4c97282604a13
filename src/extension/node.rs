//! Node attribute lookup and mutation.

use vstd::prelude::*;

use crate::extension::ArgError;
use crate::host_hooks::HostHandler;

verus! {

/// The node extension.
pub struct NodeExt;

/// The error that `getAttribute`'s arguments raise, checked in this order:
/// the node handle must convert to an integer, there must be two arguments,
/// and the name must be a string.
pub open spec fn get_attribute_error(handle: Option<u32>, arg_count: usize, name_is_string: bool) -> Option<
    ArgError,
> {
    if handle is None {
        Some(ArgError::ExpectedInt)
    } else if arg_count != 2 {
        Some(ArgError::ExpectedArgs(2))
    } else if !name_is_string {
        Some(ArgError::ExpectedString)
    } else {
        None
    }
}

impl NodeExt {
    /// Checks the arguments of `getAttribute`: `handle` is the first argument
    /// converted to an integer (`None` when that failed), `name` the second
    /// as a string (`None` when it is not one).
    pub fn get_attribute_args<'a>(handle: Option<u32>, arg_count: usize, name: Option<&'a str>) -> (r:
        Result<(u32, &'a str), ArgError>)
        ensures
            match r {
                Ok((h, n)) => get_attribute_error(handle, arg_count, name is Some) is None && handle
                    == Some(h) && name == Some(n),
                Err(e) => get_attribute_error(handle, arg_count, name is Some) == Some(e),
            },
    {
        let h = match handle {
            Some(h) => h,
            None => return Err(ArgError::ExpectedInt),
        };
        if arg_count != 2 {
            return Err(ArgError::ExpectedArgs(2));
        }
        match name {
            Some(n) => Ok((h, n)),
            None => Err(ArgError::ExpectedString),
        }
    }

    /// What `getAttribute` returns for the host's answer: the value, or the
    /// missing-attribute error.
    pub fn attribute_value(found: Option<String>) -> (r: Result<String, ArgError>)
        ensures
            match found {
                Some(v) => r == Ok::<String, ArgError>(v),
                None => r == Err::<String, ArgError>(ArgError::NoAttribute),
            },
    {
        match found {
            Some(v) => Ok(v),
            None => Err(ArgError::NoAttribute),
        }
    }

    /// `getAttribute(handle, name)` against the host `handler`. Argument
    /// errors come first; with good arguments the host's answer decides
    /// between the value and the missing-attribute error.
    pub fn internal_get_attribute<H: HostHandler + ?Sized>(
        handler: &H,
        handle: Option<u32>,
        arg_count: usize,
        name: Option<&str>,
    ) -> (r: Result<String, ArgError>)
        ensures
            get_attribute_error(handle, arg_count, name is Some) matches Some(e) ==> r == Err::<
                String,
                ArgError,
            >(e),
            get_attribute_error(handle, arg_count, name is Some) is None ==> (r is Ok || r == Err::<
                String,
                ArgError,
            >(ArgError::NoAttribute)),
    {
        let (h, n) = match Self::get_attribute_args(handle, arg_count, name) {
            Ok(checked) => checked,
            Err(e) => return Err(e),
        };
        Self::attribute_value(handler.get_attribute(h as usize, n))
    }

    /// `innerHTML = html` on node `handle`: `html` is the new markup as a
    /// string (`None` when it is not one). The host receives exactly the
    /// handle and the markup.
    pub fn internal_inner_html_set<H: HostHandler + ?Sized>(handler: &H, handle: u32, html: Option<&str>) -> (r:
        Result<(), ArgError>)
        ensures
            html is Some <==> r is Ok,
            html is None ==> r == Err::<(), ArgError>(ArgError::ExpectedString),
    {
        match html {
            Some(markup) => {
                handler.inner_html_set(handle as usize, markup);
                Ok(())
            },
            None => Err(ArgError::ExpectedString),
        }
    }
}

} // verus!
